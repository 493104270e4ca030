use win_capture::error::CaptureError;
use win_capture::frame::MappedFrame;
use win_capture::recognition::ocr_shadow_text;
use win_capture::recognition::to_signed;
use win_capture::recognition::JsOCRText;
use win_capture::recognition::ShadowTextJob;
use win_capture::recognition::SHADOW_TEXT_SHADE;
use win_capture::session::JsScreenshot;

fn frame() -> MappedFrame {
    MappedFrame::new(
        3,
        2,
        16,
        vec![
            1, 2, 3, 4, 5, 6, 7, 8, 9, 10, 11, 12, 0xEE, 0xEE, 0xEE, 0xEE, //
            21, 22, 23, 24, 25, 26, 27, 28, 29, 30, 31, 32, 0xEE, 0xEE, 0xEE, 0xEE,
        ],
    )
    .unwrap()
}

fn session_with_lib() -> JsScreenshot {
    JsScreenshot::new(1, 0, 3, 2, vec![String::from("other"), String::from("shadow_text")])
}

#[test]
fn shadow_text_job_holds_the_packed_rectangle() {
    let job = ocr_shadow_text(&session_with_lib(), &frame(), 0, 0, 2, 2, 90, 4, 6).unwrap();
    assert_eq!(
        job,
        ShadowTextJob {
            bits: vec![5, 6, 7, 9, 10, 11, 25, 26, 27, 29, 30, 31],
            height: 2,
            width: 2,
            color: (25, 25, 25),
            row: 4,
            column: 6,
            similarity: 90,
            lib: 1,
        }
    );
    assert_eq!(SHADOW_TEXT_SHADE, 25);
}

#[test]
fn shadow_text_job_of_a_wide_rectangle() {
    let session = JsScreenshot::new(0, 1, 3, 2, vec![String::from("shadow_text")]);
    let job = ocr_shadow_text(&session, &frame(), 0, 0, 3, 1, -1, 0, -2).unwrap();
    assert_eq!(job.bits, vec![21, 22, 23, 25, 26, 27, 29, 30, 31]);
    assert_eq!((job.width, job.height), (3, 1));
    assert_eq!((job.row, job.column, job.similarity, job.lib), (0, -2, -1, 0));
}

#[test]
fn recognition_needs_a_loaded_resource() {
    let session = JsScreenshot::new(1, 0, 3, 2, Vec::new());
    assert_eq!(
        ocr_shadow_text(&session, &frame(), 0, 0, 2, 2, 90, 4, 6),
        Err(CaptureError::RecognitionUnavailable)
    );
    let session = JsScreenshot::new(1, 0, 3, 2, vec![String::from("digits")]);
    assert_eq!(
        session.dh_ocr_shadow_text(&frame(), 0, 0, 2, 2, 90, 4, 6),
        Err(CaptureError::RecognitionUnavailable)
    );
    // Extraction itself goes on without it.
    assert!(session.take(&frame(), 0, 0, 2, 2).is_ok());
}

#[test]
fn recognition_refuses_bad_rectangles_first() {
    let session = JsScreenshot::new(1, 0, 3, 2, Vec::new());
    assert_eq!(
        ocr_shadow_text(&session, &frame(), 0, 0, 3, 2, 90, 4, 6),
        Err(CaptureError::InvalidRegion)
    );
    assert_eq!(
        ocr_shadow_text(&session_with_lib(), &frame(), 1, 1, 1, 2, 90, 4, 6),
        Err(CaptureError::InvalidRegion)
    );
}

#[test]
fn recognition_on_a_closed_session() {
    let mut session = session_with_lib();
    session.distory();
    assert_eq!(
        session.dh_ocr_shadow_text(&frame(), 0, 0, 2, 2, 90, 4, 6),
        Err(CaptureError::SessionClosed)
    );
}

#[test]
fn similarity_bits_are_read_as_signed() {
    let session = session_with_lib();
    assert_eq!(session.dh_ocr_shadow_text(&frame(), 0, 0, 2, 2, 90, 4, 6).unwrap().similarity, 90);
    assert_eq!(
        session.dh_ocr_shadow_text(&frame(), 0, 0, 2, 2, u32::MAX, 4, 6).unwrap().similarity,
        -1
    );
    assert_eq!(
        session.dh_ocr_shadow_text(&frame(), 0, 0, 2, 2, 0x8000_0000, 4, 6).unwrap().similarity,
        i32::MIN
    );
    let job = session.dh_ocr_shadow_text(&frame(), 0, 0, 2, 2, 7, -3, 9).unwrap();
    assert_eq!(job, ocr_shadow_text(&session, &frame(), 0, 0, 2, 2, 7, -3, 9).unwrap());
}

#[test]
fn to_signed_keeps_the_bits() {
    assert_eq!(to_signed(0), 0);
    assert_eq!(to_signed(1), 1);
    assert_eq!(to_signed(0x7fff_ffff), i32::MAX);
    assert_eq!(to_signed(0x8000_0000), i32::MIN);
    assert_eq!(to_signed(0xffff_fff6), -10);
    assert_eq!(to_signed(u32::MAX), -1);
}

#[test]
fn recognised_text_is_plain_data() {
    let text = JsOCRText { x: 1, y: 2, width: 30, height: 12, text: String::from("42") };
    assert_eq!(text, JsOCRText { x: 1, y: 2, width: 30, height: 12, text: String::from("42") });
    assert_ne!(text, JsOCRText { x: 1, y: 2, width: 30, height: 12, text: String::from("43") });
}
