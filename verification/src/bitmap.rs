use vstd::prelude::*;
use crate::error::CaptureError;
use crate::frame::extracted_bytes;
use crate::frame::take_screenshot;
use crate::frame::MappedFrame;
use crate::frame::PixelBuffer;
use crate::frame::Region;

verus! {

/// `bmp::Image`: an image in memory. Nothing of its inside is looked into;
/// what the library says of an image it says through the names below.
#[verifier::external_type_specification]
#[verifier::external_body]
pub struct ExImage(bmp::Image);

/// The width that an image was made with.
pub uninterp spec fn image_width(image: bmp::Image) -> u32;

/// The height that an image was made with.
pub uninterp spec fn image_height(image: bmp::Image) -> u32;

/// The pixels of an image as (red, green, blue), rows from top to bottom:
/// the pixel in column `x` of row `y` stands at `y * width + x`.
pub uninterp spec fn image_pixels(image: bmp::Image) -> Seq<(u8, u8, u8)>;

/// The image came from `Image::new` and has since only had pixels set: it
/// holds `width * height` pixels and the header fields it was made with.
pub uninterp spec fn image_is_plain(image: bmp::Image) -> bool;

/// The bytes of the BMP file that the encoder writes for a plain image of
/// this size with these pixels.
pub uninterp spec fn bmp_file(width: u32, height: u32, pixels: Seq<(u8, u8, u8)>) -> Seq<u8>;

/// Bytes of one row of pixels in a BMP file: three per pixel, padded to a
/// multiple of four.
pub open spec fn bmp_row_bytes(width: int) -> int {
    3 * width + width % 4
}

/// Bytes of a BMP file's two headers.
pub const BMP_HEADER_BYTES: u32 = 54;

/// Widest image whose row size the encoder still computes exactly.
pub const BMP_MAX_WIDTH: u32 = 699049;

/// The encoder can hold an image of this size: its row size is computed
/// exactly and the size of the file fits the 32 bits that the header has for
/// it.
pub open spec fn bmp_can_hold(width: int, height: int) -> bool {
    &&& 0 <= width <= BMP_MAX_WIDTH
    &&& 0 <= height
    &&& BMP_HEADER_BYTES + height * bmp_row_bytes(width) <= u32::MAX
}

/// `bmp::Image::new`: a black image of the given size. Left out are the
/// sizes on which the encoder's own arithmetic overflows.
#[verifier::external_body]
fn image_new(width: u32, height: u32) -> (image: bmp::Image)
    requires
        bmp_can_hold(width as int, height as int),
    ensures
        image_is_plain(image),
        image_width(image) == width,
        image_height(image) == height,
        image_pixels(image) == Seq::new((width * height) as nat, |i: int| (0u8, 0u8, 0u8)),
{
    bmp::Image::new(width, height)
}

/// `bmp::Image::set_pixel` with a pixel made by `bmp::Pixel::new`: the pixel
/// in column `x` of row `y` becomes `(r, g, b)`, and nothing else changes.
#[verifier::external_body]
fn image_set_pixel(image: &mut bmp::Image, x: u32, y: u32, r: u8, g: u8, b: u8)
    requires
        image_is_plain(*old(image)),
        bmp_can_hold(image_width(*old(image)) as int, image_height(*old(image)) as int),
        x < image_width(*old(image)),
        y < image_height(*old(image)),
    ensures
        image_is_plain(*final(image)),
        image_width(*final(image)) == image_width(*old(image)),
        image_height(*final(image)) == image_height(*old(image)),
        image_pixels(*final(image)) == image_pixels(*old(image)).update(
            y * image_width(*old(image)) + x,
            (r, g, b),
        ),
{
    image.set_pixel(x, y, bmp::Pixel::new(r, g, b));
}

/// `bmp::Image::to_writer` into an empty `Vec<u8>`: the encoded file, which
/// is the two headers followed by the padded rows. The bytes are named, not
/// spelled out; their number is stated.
#[verifier::external_body]
fn image_to_bytes(image: &bmp::Image) -> (bytes: Vec<u8>)
    requires
        image_is_plain(*image),
        bmp_can_hold(image_width(*image) as int, image_height(*image) as int),
    ensures
        bytes@ == bmp_file(image_width(*image), image_height(*image), image_pixels(*image)),
        bytes@.len() == BMP_HEADER_BYTES + image_height(*image) * bmp_row_bytes(
            image_width(*image) as int,
        ),
{
    let mut bytes: Vec<u8> = Vec::new();
    let _ = image.to_writer(&mut bytes);
    bytes
}

/// The pixels of a packed three-byte buffer as (red, green, blue), the
/// buffer holding them as blue, green, red.
pub open spec fn rgb_pixels(bits: Seq<u8>) -> Seq<(u8, u8, u8)> {
    Seq::new((bits.len() / 3) as nat, |p: int| (bits[3 * p + 2], bits[3 * p + 1], bits[3 * p]))
}

/// Whether the encoder can hold an image of this size.
pub fn can_encode(width: u32, height: u32) -> (fits: bool)
    ensures
        fits == bmp_can_hold(width as int, height as int),
{
    if width > BMP_MAX_WIDTH {
        return false;
    }
    let row: u64 = 3 * (width as u64) + (width % 4) as u64;
    assert(height * row <= 0xffff_ffff * 0x20_0000) by (nonlinear_arith)
        requires
            0 <= height <= 0xffff_ffff,
            0 <= row <= 0x20_0000,
    ;
    let size: u64 = BMP_HEADER_BYTES as u64 + (height as u64) * row;
    size <= u32::MAX as u64
}

/// Encodes a packed three-byte buffer of `width * height` pixels as a BMP
/// file. There is no file where the buffer does not hold exactly that many
/// pixels, or where the encoder cannot hold an image of that size.
pub fn encode_bmp(bits: &Vec<u8>, width: u32, height: u32) -> (file: Option<Vec<u8>>)
    ensures
        file is Some <==> bits@.len() == width * height * 3 && bmp_can_hold(
            width as int,
            height as int,
        ),
        file is Some ==> file.unwrap()@ == bmp_file(width, height, rgb_pixels(bits@)),
        file is Some ==> file.unwrap()@.len() == BMP_HEADER_BYTES + height * bmp_row_bytes(
            width as int,
        ),
{
    if !can_encode(width, height) {
        return None;
    }
    assert(0 <= width * height * 3 <= height * bmp_row_bytes(width as int)) by (nonlinear_arith)
        requires
            0 <= width,
            0 <= height,
            bmp_row_bytes(width as int) >= 3 * width,
    ;
    let pixels: u64 = (width as u64) * (height as u64);
    if bits.len() as u64 != pixels * 3 {
        return None;
    }
    let ghost rgb = rgb_pixels(bits@);
    assert(bits@.len() / 3 == width * height) by (nonlinear_arith)
        requires
            bits@.len() == width * height * 3,
    ;
    let total: usize = bits.len();
    let mut img = image_new(width, height);
    let mut done: usize = 0;
    let mut y: u32 = 0;
    while y < height
        invariant
            bits@.len() == width * height * 3,
            bits@.len() == total,
            rgb == rgb_pixels(bits@),
            rgb.len() == width * height,
            bmp_can_hold(width as int, height as int),
            image_is_plain(img),
            image_width(img) == width,
            image_height(img) == height,
            0 <= y <= height,
            done == y * width,
            image_pixels(img).len() == width * height,
            forall|p: int|
                0 <= p < done && p < rgb.len() && p < image_pixels(img).len() ==> image_pixels(
                    img,
                )[p] == rgb[p],
        decreases height - y,
    {
        let mut x: u32 = 0;
        while x < width
            invariant
                bits@.len() == width * height * 3,
                bits@.len() == total,
                rgb == rgb_pixels(bits@),
                rgb.len() == width * height,
                bmp_can_hold(width as int, height as int),
                image_is_plain(img),
                image_width(img) == width,
                image_height(img) == height,
                0 <= y < height,
                0 <= x <= width,
                done == y * width + x,
                image_pixels(img).len() == width * height,
                forall|p: int|
                0 <= p < done && p < rgb.len() && p < image_pixels(img).len() ==> image_pixels(
                    img,
                )[p] == rgb[p],
            decreases width - x,
        {
            assert(y * width + x < width * height) by (nonlinear_arith)
                requires
                    0 <= y < height,
                    0 <= x < width,
            ;
            assert(done * 3 + 3 <= width * height * 3) by (nonlinear_arith)
                requires
                    done + 1 <= width * height,
            ;
            let begin: usize = done * 3;
            image_set_pixel(&mut img, x, y, bits[begin + 2], bits[begin + 1], bits[begin]);
            done = done + 1;
            x = x + 1;
        }
        assert(y * width + width == (y + 1) * width) by (nonlinear_arith);
        y = y + 1;
    }
    assert(done == width * height) by (nonlinear_arith)
        requires
            done == y * width,
            y == height,
    ;
    assert(image_pixels(img) =~= rgb);
    Some(image_to_bytes(&img))
}

/// Cuts a rectangle out of a mapped frame, without the alpha channel, and
/// encodes it as a BMP file. The rectangle is refused where it is empty,
/// inverted or reaches outside the frame, and where the encoder cannot hold
/// an image of its size.
pub fn take_screenshot_bmp(frame: &MappedFrame, left: u32, top: u32, right: u32, bottom: u32) -> (res:
    Result<Vec<u8>, CaptureError>)
    ensures
        res is Ok <==> (Region { left, top, right, bottom }).fits(frame@.width, frame@.height)
            && bmp_can_hold(right - left, bottom - top),
        res is Err ==> res == Err::<Vec<u8>, CaptureError>(CaptureError::InvalidRegion),
        res is Ok ==> res.unwrap()@ == bmp_file(
            (right - left) as u32,
            (bottom - top) as u32,
            rgb_pixels(extracted_bytes(frame@, Region { left, top, right, bottom }, false)),
        ),
        res is Ok ==> res.unwrap()@.len() == BMP_HEADER_BYTES + (bottom - top) * bmp_row_bytes(
            right - left,
        ),
{
    let buffer: PixelBuffer = match take_screenshot(frame, left, top, right, bottom, false) {
        Ok(buffer) => buffer,
        Err(e) => {
            return Err(e);
        },
    };
    match encode_bmp(&buffer.data, buffer.width, buffer.height) {
        Some(file) => Ok(file),
        None => Err(CaptureError::InvalidRegion),
    }
}

} // verus!
