use vstd::prelude::*;
use crate::error::CaptureError;
use crate::frame::extracted_bytes;
use crate::frame::MappedFrame;
use crate::session::is_first_named;
use crate::session::JsScreenshot;

verus! {

/// One piece of recognised text and where it stands in the rectangle that
/// was read.
#[derive(Debug, PartialEq, Eq)]
pub struct JsOCRText {
    pub x: i32,
    pub y: i32,
    pub width: i32,
    pub height: i32,
    pub text: String,
}

/// The shade of red, green and blue that shadow text is drawn in.
pub const SHADOW_TEXT_SHADE: u8 = 25;

/// All that the recognition of shadow text needs of the capture engine: the
/// pixels, three bytes each, with their dimensions, the colour to binarise
/// against, the hints for cutting the picture into rows and columns, the
/// similarity asked for, and the place of the recognition resource among
/// those that the session loaded.
#[derive(Debug, PartialEq, Eq)]
pub struct ShadowTextJob {
    pub bits: Vec<u8>,
    pub height: i32,
    pub width: i32,
    pub color: (u8, u8, u8),
    pub row: i32,
    pub column: i32,
    pub similarity: i32,
    pub lib: usize,
}

/// The 32 bits of an unsigned number read as a signed one.
pub open spec fn as_signed(value: u32) -> i32 {
    if value <= i32::MAX {
        value as i32
    } else {
        (value - 0x1_0000_0000) as i32
    }
}

/// Reads the 32 bits of an unsigned number as a signed one.
pub fn to_signed(value: u32) -> (signed: i32)
    ensures
        signed == as_signed(value),
{
    if value <= 0x7fff_ffff {
        value as i32
    } else {
        (value as i64 - 0x1_0000_0000) as i32
    }
}

/// Prepares the recognition of shadow text in the requested rectangle. The
/// rectangle is read as for any extraction, without the alpha channel; its
/// sides have to fit a signed 32-bit number; and the session has to hold the
/// recognition resource named `shadow_text`.
pub fn ocr_shadow_text(
    ss: &JsScreenshot,
    frame: &MappedFrame,
    left: u32,
    top: u32,
    right: u32,
    bottom: u32,
    simlar: i32,
    row: i32,
    column: i32,
) -> (res: Result<ShadowTextJob, CaptureError>)
    ensures
        match ss@.region_in(frame@.width, frame@.height, left, top, right, bottom) {
            Err(e) => res == Err::<ShadowTextJob, CaptureError>(e),
            Ok(region) => if right - left > i32::MAX || bottom - top > i32::MAX {
                res == Err::<ShadowTextJob, CaptureError>(CaptureError::InvalidRegion)
            } else if !ss@.has_lib("shadow_text"@) {
                res == Err::<ShadowTextJob, CaptureError>(CaptureError::RecognitionUnavailable)
            } else {
                &&& res is Ok
                &&& res.unwrap().bits@ == extracted_bytes(frame@, region, false)
                &&& res.unwrap().height == bottom - top
                &&& res.unwrap().width == right - left
                &&& res.unwrap().color == (SHADOW_TEXT_SHADE, SHADOW_TEXT_SHADE, SHADOW_TEXT_SHADE)
                &&& res.unwrap().row == row
                &&& res.unwrap().column == column
                &&& res.unwrap().similarity == simlar
                &&& is_first_named(ss@.libs, "shadow_text"@, res.unwrap().lib as int)
            },
        },
{
    let buffer = match ss.extract(frame, left, top, right, bottom, false) {
        Ok(buffer) => buffer,
        Err(e) => {
            return Err(e);
        },
    };
    if buffer.width > 0x7fff_ffff || buffer.height > 0x7fff_ffff {
        return Err(CaptureError::InvalidRegion);
    }
    let lib = match ss.find_lib("shadow_text") {
        Some(lib) => lib,
        None => {
            return Err(CaptureError::RecognitionUnavailable);
        },
    };
    Ok(
        ShadowTextJob {
            bits: buffer.data,
            height: buffer.height as i32,
            width: buffer.width as i32,
            color: (SHADOW_TEXT_SHADE, SHADOW_TEXT_SHADE, SHADOW_TEXT_SHADE),
            row,
            column,
            similarity: simlar,
            lib,
        },
    )
}

impl JsScreenshot {
    /// Prepares the recognition of shadow text in the requested rectangle,
    /// the similarity being given as an unsigned number whose bits are read
    /// as a signed one.
    pub fn dh_ocr_shadow_text(
        &self,
        frame: &MappedFrame,
        left: u32,
        top: u32,
        right: u32,
        bottom: u32,
        simlar: u32,
        row: i32,
        col: i32,
    ) -> (res: Result<ShadowTextJob, CaptureError>)
        ensures
            match self@.region_in(frame@.width, frame@.height, left, top, right, bottom) {
                Err(e) => res == Err::<ShadowTextJob, CaptureError>(e),
                Ok(region) => if right - left > i32::MAX || bottom - top > i32::MAX {
                    res == Err::<ShadowTextJob, CaptureError>(CaptureError::InvalidRegion)
                } else if !self@.has_lib("shadow_text"@) {
                    res == Err::<ShadowTextJob, CaptureError>(
                        CaptureError::RecognitionUnavailable,
                    )
                } else {
                    &&& res is Ok
                    &&& res.unwrap().bits@ == extracted_bytes(frame@, region, false)
                    &&& res.unwrap().height == bottom - top
                    &&& res.unwrap().width == right - left
                    &&& res.unwrap().color == (
                        SHADOW_TEXT_SHADE,
                        SHADOW_TEXT_SHADE,
                        SHADOW_TEXT_SHADE,
                    )
                    &&& res.unwrap().row == row
                    &&& res.unwrap().column == col
                    &&& res.unwrap().similarity == as_signed(simlar)
                    &&& is_first_named(self@.libs, "shadow_text"@, res.unwrap().lib as int)
                },
            },
    {
        ocr_shadow_text(self, frame, left, top, right, bottom, to_signed(simlar), row, col)
    }
}

} // verus!
