use vstd::prelude::*;
use vstd::arithmetic::div_mod::lemma_fundamental_div_mod;
use vstd::arithmetic::div_mod::lemma_fundamental_div_mod_converse;
use vstd::arithmetic::div_mod::lemma_mod_bound;
use crate::error::CaptureError;

verus! {

/// Bytes per pixel of an extracted buffer: four with the alpha channel kept,
/// three with it dropped.
pub open spec fn bytes_per_pixel(include_alpha: bool) -> int {
    if include_alpha {
        4
    } else {
        3
    }
}

/// A pixel rectangle; `right` and `bottom` are exclusive.
#[derive(Debug, Clone, Copy, PartialEq, Eq, Structural)]
pub struct Region {
    pub left: u32,
    pub top: u32,
    pub right: u32,
    pub bottom: u32,
}

impl Region {
    pub open spec fn spec_width(self) -> int {
        self.right - self.left
    }

    pub open spec fn spec_height(self) -> int {
        self.bottom - self.top
    }

    /// The rectangle is non-empty and lies inside a `width` by `height` frame.
    pub open spec fn fits(self, width: int, height: int) -> bool {
        &&& self.left < self.right
        &&& self.top < self.bottom
        &&& self.right <= width
        &&& self.bottom <= height
    }
}

/// The mathematical content of a mapped frame.
pub struct FrameView {
    pub width: int,
    pub height: int,
    pub row_pitch: int,
    pub data: Seq<u8>,
}

impl FrameView {
    /// Rows are at least as long as their pixels need, and the data holds
    /// exactly `height` rows.
    pub open spec fn wf(self) -> bool {
        &&& 0 <= self.width
        &&& 0 <= self.height
        &&& 4 * self.width <= self.row_pitch
        &&& self.data.len() == self.height * self.row_pitch
    }

    /// Where channel `c` of the pixel in column `x` of row `y` lies in the data.
    pub open spec fn offset_of(self, x: int, y: int, c: int) -> int {
        y * self.row_pitch + x * 4 + c
    }

    /// Channel `c` of the pixel in column `x` of row `y`.
    pub open spec fn channel(self, x: int, y: int, c: int) -> u8 {
        self.data[self.offset_of(x, y, c)]
    }
}

/// Where channel `c` of the pixel in column `x` of row `y` lies in a packed
/// buffer of `width` pixels per row and `bpp` bytes per pixel.
pub open spec fn packed_index(width: int, bpp: int, x: int, y: int, c: int) -> int {
    (y * width + x) * bpp + c
}

/// Where byte `i` of the buffer extracted for `region` comes from in the
/// frame's data: the buffer is row-major, top to bottom, without padding.
pub open spec fn source_index(frame: FrameView, region: Region, include_alpha: bool, i: int) -> int {
    let bpp = bytes_per_pixel(include_alpha);
    let pixel = i / bpp;
    let x = pixel % region.spec_width();
    let y = pixel / region.spec_width();
    frame.offset_of(region.left + x, region.top + y, i % bpp)
}

/// The bytes of `region` in `frame`, each pixel cut to its first three or
/// four channels.
#[verifier::opaque]
pub open spec fn extracted_bytes(frame: FrameView, region: Region, include_alpha: bool) -> Seq<u8> {
    Seq::new(
        (region.spec_width() * region.spec_height() * bytes_per_pixel(include_alpha)) as nat,
        |i: int| frame.data[source_index(frame, region, include_alpha, i)],
    )
}

/// A frame mapped for reading: `height` rows of `row_pitch` bytes, of which
/// the first `4 * width` hold the row's pixels.
#[derive(Debug)]
pub struct MappedFrame {
    width: u32,
    height: u32,
    row_pitch: u32,
    data: Vec<u8>,
}

impl View for MappedFrame {
    type V = FrameView;

    closed spec fn view(&self) -> FrameView {
        FrameView {
            width: self.width as int,
            height: self.height as int,
            row_pitch: self.row_pitch as int,
            data: self.data@,
        }
    }
}

impl MappedFrame {
    #[verifier::type_invariant]
    spec fn inv(self) -> bool {
        self@.wf()
    }

    /// Accepts the mapped bytes when they hold exactly `height` rows of
    /// `row_pitch` bytes and a row has room for `width` pixels.
    pub fn new(width: u32, height: u32, row_pitch: u32, data: Vec<u8>) -> (frame: Option<MappedFrame>)
        ensures
            frame is Some <==> (FrameView {
                width: width as int,
                height: height as int,
                row_pitch: row_pitch as int,
                data: data@,
            }).wf(),
            frame is Some ==> frame.unwrap()@ == (FrameView {
                width: width as int,
                height: height as int,
                row_pitch: row_pitch as int,
                data: data@,
            }),
    {
        assert(height * row_pitch <= 0xffff_ffff * 0xffff_ffff) by (nonlinear_arith)
            requires
                0 <= height <= 0xffff_ffff,
                0 <= row_pitch <= 0xffff_ffff,
        ;
        let needed: u64 = (height as u64) * (row_pitch as u64);
        if (width as u64) * 4 <= row_pitch as u64 && data.len() as u64 == needed {
            Some(MappedFrame { width, height, row_pitch, data })
        } else {
            None
        }
    }

    pub fn width(&self) -> (w: u32)
        ensures
            w == self@.width,
    {
        self.width
    }

    pub fn height(&self) -> (h: u32)
        ensures
            h == self@.height,
    {
        self.height
    }

    pub fn row_pitch(&self) -> (p: u32)
        ensures
            p == self@.row_pitch,
    {
        self.row_pitch
    }

    pub fn data(&self) -> (d: &Vec<u8>)
        ensures
            d@ == self@.data,
    {
        &self.data
    }
}

/// An extracted rectangle: `width * height` pixels, rows top to bottom, no
/// padding, three or four bytes per pixel.
#[derive(Debug, PartialEq, Eq)]
pub struct PixelBuffer {
    pub width: u32,
    pub height: u32,
    pub include_alpha: bool,
    pub data: Vec<u8>,
}

/// Byte `(y * w + x) * bpp + c` of a packed buffer belongs to channel `c` of
/// the pixel in column `x` of row `y`.
pub proof fn lemma_packed_index(w: int, bpp: int, x: int, y: int, c: int)
    requires
        0 <= x < w,
        0 <= y,
        0 <= c < bpp,
    ensures
        ((y * w + x) * bpp + c) / bpp == y * w + x,
        ((y * w + x) * bpp + c) % bpp == c,
        (y * w + x) / w == y,
        (y * w + x) % w == x,
        0 <= y * w + x,
{
    lemma_fundamental_div_mod_converse((y * w + x) * bpp + c, bpp, y * w + x, c);
    lemma_fundamental_div_mod_converse(y * w + x, w, y, x);
    assert(0 <= y * w) by (nonlinear_arith)
        requires
            0 <= y,
            0 < w,
    ;
}

/// Every channel of every pixel of a well-formed frame lies inside its data.
pub proof fn lemma_offset_in_bounds(frame: FrameView, x: int, y: int, c: int)
    requires
        frame.wf(),
        0 <= x < frame.width,
        0 <= y < frame.height,
        0 <= c < 4,
    ensures
        0 <= frame.offset_of(x, y, c) < frame.data.len(),
        y * frame.row_pitch + frame.row_pitch <= frame.data.len(),
        0 <= y * frame.row_pitch,
{
    assert(y * frame.row_pitch + frame.row_pitch <= frame.height * frame.row_pitch
        && 0 <= y * frame.row_pitch) by (nonlinear_arith)
        requires
            0 <= y < frame.height,
            0 <= frame.row_pitch,
    ;
}

/// The buffer extracted for a rectangle inside the frame holds, for each of
/// its pixels and kept channels, the frame's byte at the same place counted
/// from the rectangle's corner.
pub proof fn lemma_extracted_channel(
    frame: FrameView,
    region: Region,
    include_alpha: bool,
    x: int,
    y: int,
    c: int,
)
    requires
        frame.wf(),
        region.fits(frame.width, frame.height),
        0 <= x < region.spec_width(),
        0 <= y < region.spec_height(),
        0 <= c < bytes_per_pixel(include_alpha),
    ensures
        0 <= packed_index(region.spec_width(), bytes_per_pixel(include_alpha), x, y, c)
            < extracted_bytes(frame, region, include_alpha).len(),
        extracted_bytes(frame, region, include_alpha)[packed_index(
            region.spec_width(),
            bytes_per_pixel(include_alpha),
            x,
            y,
            c,
        )] == frame.channel(region.left + x, region.top + y, c),
{
    reveal(extracted_bytes);
    let w = region.spec_width();
    let h = region.spec_height();
    let bpp = bytes_per_pixel(include_alpha);
    lemma_packed_index(w, bpp, x, y, c);
    lemma_packed_position(w, h, bpp, x, y, c);
}

/// Position `(y * w + x) * bpp + c` lies inside a packed buffer of `h` rows.
pub proof fn lemma_packed_position(w: int, h: int, bpp: int, x: int, y: int, c: int)
    requires
        0 <= x < w,
        0 <= y < h,
        0 <= c < bpp,
    ensures
        0 <= (y * w + x) * bpp + c < w * h * bpp,
{
    assert(0 <= y * w && y * w + w <= h * w) by (nonlinear_arith)
        requires
            0 <= y < h,
            0 < w,
    ;
    let p = y * w + x;
    assert(0 <= p * bpp && p * bpp + bpp <= (w * h) * bpp) by (nonlinear_arith)
        requires
            0 <= p,
            p + 1 <= w * h,
            0 < bpp,
    ;
}

/// Every position of a packed buffer is the place of one channel of one
/// pixel.
pub proof fn lemma_unpack_index(w: int, h: int, bpp: int, i: int)
    requires
        0 < w,
        0 < h,
        0 < bpp,
        0 <= i < w * h * bpp,
    ensures
        0 <= i % bpp < bpp,
        0 <= (i / bpp) % w < w,
        0 <= (i / bpp) / w < h,
        i == packed_index(w, bpp, (i / bpp) % w, (i / bpp) / w, i % bpp),
{
    let p = i / bpp;
    lemma_fundamental_div_mod(i, bpp);
    lemma_mod_bound(i, bpp);
    assert(0 <= p < w * h) by (nonlinear_arith)
        requires
            i == bpp * p + i % bpp,
            0 <= i % bpp < bpp,
            0 <= i < w * h * bpp,
            0 < bpp,
    ;
    lemma_fundamental_div_mod(p, w);
    lemma_mod_bound(p, w);
    assert(0 <= p / w < h) by (nonlinear_arith)
        requires
            p == w * (p / w) + p % w,
            0 <= p % w < w,
            0 <= p < w * h,
            0 < w,
    ;
    assert(p == (p / w) * w + p % w) by (nonlinear_arith)
        requires
            p == w * (p / w) + p % w,
    ;
    assert(i == p * bpp + i % bpp) by (nonlinear_arith)
        requires
            i == bpp * p + i % bpp,
    ;
}

/// Two frames that show the same pixels inside a rectangle give the same
/// buffer for it, whatever their row pitch and whatever lies outside the
/// rectangle: extraction from an unchanged scene is repeatable.
pub proof fn lemma_same_pixels_same_bytes(
    first: FrameView,
    second: FrameView,
    region: Region,
    include_alpha: bool,
)
    requires
        first.wf(),
        second.wf(),
        region.fits(first.width, first.height),
        region.fits(second.width, second.height),
        forall|x: int, y: int, c: int|
            region.left <= x < region.right && region.top <= y < region.bottom && 0 <= c
                < bytes_per_pixel(include_alpha) ==> #[trigger] first.channel(x, y, c)
                == second.channel(x, y, c),
    ensures
        extracted_bytes(first, region, include_alpha) == extracted_bytes(
            second,
            region,
            include_alpha,
        ),
{
    let a = extracted_bytes(first, region, include_alpha);
    let b = extracted_bytes(second, region, include_alpha);
    let w = region.spec_width();
    let h = region.spec_height();
    let bpp = bytes_per_pixel(include_alpha);
    assert(a.len() == b.len()) by {
        reveal(extracted_bytes);
    }
    assert forall|i: int| 0 <= i < a.len() implies a[i] == b[i] by {
        assert(a.len() == w * h * bpp) by {
            reveal(extracted_bytes);
            lemma_packed_position(w, h, bpp, 0, 0, 0);
        }
        lemma_unpack_index(w, h, bpp, i);
        let x = (i / bpp) % w;
        let y = (i / bpp) / w;
        let c = i % bpp;
        lemma_extracted_channel(first, region, include_alpha, x, y, c);
        lemma_extracted_channel(second, region, include_alpha, x, y, c);
        assert(first.channel(region.left + x, region.top + y, c) == second.channel(
            region.left + x,
            region.top + y,
            c,
        ));
    }
    assert(a =~= b);
}

/// Dropping the alpha channel shrinks the buffer to three quarters of its
/// size and leaves the first three bytes of every pixel as they were.
pub proof fn lemma_alpha_dropped(frame: FrameView, region: Region)
    requires
        frame.wf(),
        region.fits(frame.width, frame.height),
    ensures
        4 * extracted_bytes(frame, region, false).len() == 3 * extracted_bytes(
            frame,
            region,
            true,
        ).len(),
        forall|x: int, y: int, c: int|
            0 <= x < region.spec_width() && 0 <= y < region.spec_height() && 0 <= c < 3
                ==> extracted_bytes(frame, region, false)[#[trigger] packed_index(
                region.spec_width(),
                3,
                x,
                y,
                c,
            )] == extracted_bytes(frame, region, true)[packed_index(
                region.spec_width(),
                4,
                x,
                y,
                c,
            )],
{
    let w = region.spec_width();
    let h = region.spec_height();
    assert(4 * extracted_bytes(frame, region, false).len() == 3 * extracted_bytes(
        frame,
        region,
        true,
    ).len()) by {
        reveal(extracted_bytes);
        lemma_packed_position(w, h, 3, 0, 0, 0);
        assert(4 * (w * h * 3) == 3 * (w * h * 4)) by (nonlinear_arith);
    }
    assert forall|x: int, y: int, c: int|
        0 <= x < region.spec_width() && 0 <= y < region.spec_height() && 0 <= c
            < 3 implies extracted_bytes(frame, region, false)[#[trigger] packed_index(
        region.spec_width(),
        3,
        x,
        y,
        c,
    )] == extracted_bytes(frame, region, true)[packed_index(region.spec_width(), 4, x, y, c)] by {
        lemma_extracted_channel(frame, region, false, x, y, c);
        lemma_extracted_channel(frame, region, true, x, y, c);
    }
}

/// Cuts the rectangle `(left, top)-(right, bottom)` out of a mapped frame.
///
/// With `opacity` each pixel keeps its four bytes as they lie in the frame;
/// without it the fourth byte of each pixel is dropped. A rectangle that is
/// empty, inverted or reaches outside the frame is refused, and nothing is
/// read.
pub fn take_screenshot(
    frame: &MappedFrame,
    left: u32,
    top: u32,
    right: u32,
    bottom: u32,
    opacity: bool,
) -> (res: Result<PixelBuffer, CaptureError>)
    ensures
        res is Ok <==> (Region { left, top, right, bottom }).fits(frame@.width, frame@.height),
        res is Err ==> res == Err::<PixelBuffer, CaptureError>(CaptureError::InvalidRegion),
        res is Ok ==> {
            let buf = res.unwrap();
            &&& buf.width == right - left
            &&& buf.height == bottom - top
            &&& buf.include_alpha == opacity
            &&& buf.data@.len() == (right - left) * (bottom - top) * bytes_per_pixel(opacity)
            &&& buf.data@ == extracted_bytes(frame@, Region { left, top, right, bottom }, opacity)
        },
{
    proof {
        use_type_invariant(frame);
    }
    if left >= right || top >= bottom || right > frame.width || bottom > frame.height {
        return Err(CaptureError::InvalidRegion);
    }
    let ghost region = Region { left, top, right, bottom };
    let ghost bpp = bytes_per_pixel(opacity);
    let ghost want = extracted_bytes(frame@, region, opacity);
    let data_width: u32 = right - left;
    let data_height: u32 = bottom - top;
    let kept: usize = if opacity {
        4
    } else {
        3
    };
    let total: usize = frame.data.len();
    let mut bits: Vec<u8> = Vec::new();
    let mut y: u32 = 0;
    while y < data_height
        invariant
            frame@.wf(),
            region == (Region { left, top, right, bottom }),
            region.fits(frame@.width, frame@.height),
            frame@.width == frame.width,
            frame@.height == frame.height,
            frame@.row_pitch == frame.row_pitch,
            frame@.data == frame.data@,
            frame.data@.len() == total,
            data_width == right - left,
            data_height == bottom - top,
            bpp == bytes_per_pixel(opacity),
            kept == bpp,
            want == extracted_bytes(frame@, region, opacity),
            0 <= y <= data_height,
            bits@.len() == (y * data_width) * bpp,
            bits@.len() <= want.len(),
            forall|j: int| 0 <= j < bits@.len() && j < want.len() ==> bits@[j] == want[j],
        decreases data_height - y,
    {
        proof {
            lemma_offset_in_bounds(frame@, left as int, top + y, 0);
        }
        let row_begin: usize = (top + y) as usize * frame.row_pitch as usize;
        let mut x: u32 = 0;
        while x < data_width
            invariant
                frame@.wf(),
                region == (Region { left, top, right, bottom }),
                region.fits(frame@.width, frame@.height),
                frame@.width == frame.width,
                frame@.height == frame.height,
                frame@.row_pitch == frame.row_pitch,
                frame@.data == frame.data@,
                frame.data@.len() == total,
                data_width == right - left,
                data_height == bottom - top,
                bpp == bytes_per_pixel(opacity),
                kept == bpp,
                want == extracted_bytes(frame@, region, opacity),
                0 <= y < data_height,
                0 <= x <= data_width,
                row_begin == (top + y) * frame.row_pitch,
                row_begin + frame.row_pitch <= frame.data@.len(),
                bits@.len() == (y * data_width + x) * bpp,
                bits@.len() <= want.len(),
                forall|j: int| 0 <= j < bits@.len() && j < want.len() ==> bits@[j] == want[j],
            decreases data_width - x,
        {
            let slice_begin: usize = row_begin + (left + x) as usize * 4;
            let mut c: usize = 0;
            while c < kept
                invariant
                    frame@.wf(),
                    region == (Region { left, top, right, bottom }),
                    region.fits(frame@.width, frame@.height),
                    frame@.row_pitch == frame.row_pitch,
                    frame@.data == frame.data@,
                    frame.data@.len() == total,
                    data_width == right - left,
                    data_height == bottom - top,
                    bpp == bytes_per_pixel(opacity),
                    kept == bpp,
                    want == extracted_bytes(frame@, region, opacity),
                    0 <= y < data_height,
                    0 <= x < data_width,
                    0 <= c <= kept,
                    slice_begin == frame@.offset_of(left + x, top + y, 0),
                    slice_begin + 4 <= frame.data@.len(),
                    bits@.len() == packed_index(
                        data_width as int,
                        bpp,
                        x as int,
                        y as int,
                        c as int,
                    ),
                    bits@.len() <= want.len(),
                    forall|j: int| 0 <= j < bits@.len() && j < want.len() ==> bits@[j] == want[j],
                decreases kept - c,
            {
                proof {
                    lemma_extracted_channel(frame@, region, opacity, x as int, y as int, c as int);
                }
                bits.push(frame.data[slice_begin + c]);
                c = c + 1;
            }
            proof {
                assert((y * data_width + x) * bpp + bpp == (y * data_width + (x + 1)) * bpp)
                    by (nonlinear_arith);
            }
            x = x + 1;
        }
        proof {
            assert(y * data_width + data_width == (y + 1) * data_width) by (nonlinear_arith);
        }
        y = y + 1;
    }
    proof {
        assert((data_height * data_width) * bpp == data_width * data_height * bpp)
            by (nonlinear_arith);
        reveal(extracted_bytes);
        assert(bits@ =~= want);
    }
    Ok(PixelBuffer { width: data_width, height: data_height, include_alpha: opacity, data: bits })
}

} // verus!
