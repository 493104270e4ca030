use win_capture::cli::CaptureMode;
use win_capture::error::CaptureError;
use win_capture::frame::MappedFrame;
use win_capture::frame::Region;
use win_capture::resolve::resolve_target;
use win_capture::resolve::Resolution;
use win_capture::session::create;
use win_capture::session::FrameEvent;
use win_capture::session::FrameStep;
use win_capture::session::JsScreenshot;
use win_capture::session::FRAMES_PER_EXTRACTION;
use win_capture::window_info::Rect;
use win_capture::window_info::WindowInfo;

fn channel(x: u32, y: u32, c: u32) -> u8 {
    ((x * 7 + y * 13 + c * 3 + 2) % 253) as u8
}

fn frame(width: u32, height: u32, row_pitch: u32) -> MappedFrame {
    let mut data = vec![0xEEu8; (height * row_pitch) as usize];
    for y in 0..height {
        for x in 0..width {
            for c in 0..4 {
                data[(y * row_pitch + x * 4 + c) as usize] = channel(x, y, c);
            }
        }
    }
    MappedFrame::new(width, height, row_pitch, data).unwrap()
}

fn window(handle: isize, title: &str, left: i32, top: i32) -> WindowInfo {
    WindowInfo {
        handle,
        title: String::from(title),
        class_name: String::from("Class"),
        rect: Rect { left, top, right: left + 64, bottom: top + 48 },
    }
}

#[test]
fn primary_display_extract_without_alpha() {
    let target = resolve_target(&CaptureMode::from_args(None), &Vec::new()).unwrap();
    assert_eq!(target, Resolution::PrimaryDisplay);
    let session = create(None, None, &Vec::new(), 320, 200, None);
    assert_eq!(session.sub_window_offset(), (0, 0));
    let f = frame(320, 200, 1280);
    let buf = session.extract(&f, 0, 0, 100, 50, false).unwrap();
    assert_eq!(buf.width, 100);
    assert_eq!(buf.height, 50);
    assert_eq!(buf.data.len(), 100 * 50 * 3);
    for y in 0..50u32 {
        for x in 0..100u32 {
            for c in 0..3u32 {
                assert_eq!(buf.data[((y * 100 + x) * 3 + c) as usize], channel(x, y, c));
            }
        }
    }
}

#[test]
fn sub_window_offset_moves_the_rectangle() {
    let parent = window(1, "Game", 300, 400);
    let children = vec![window(2, "Toolbar", 300, 400), window(3, "View", 310, 420)];
    let session = create(Some(&parent), Some(String::from("View")), &children, 64, 48, None);
    assert_eq!(session.sub_window_offset(), (10, 20));
    let f = frame(64, 48, 256);
    let buf = session.extract(&f, 0, 0, 10, 10, true).unwrap();
    assert_eq!(buf.width, 10);
    assert_eq!(buf.height, 10);
    for y in 0..10u32 {
        for x in 0..10u32 {
            for c in 0..4u32 {
                assert_eq!(buf.data[((y * 10 + x) * 4 + c) as usize], channel(10 + x, 20 + y, c));
            }
        }
    }
    let plain = JsScreenshot::new(0, 0, 64, 48, Vec::new());
    assert_eq!(buf.data, plain.extract(&f, 10, 20, 20, 30, true).unwrap().data);
    assert_ne!(buf.data, plain.extract(&f, 0, 0, 10, 10, true).unwrap().data);
    assert_eq!(session.locate(0, 0, 10, 10), Ok(Region { left: 10, top: 20, right: 20, bottom: 30 }));
}

#[test]
fn moved_request_reads_moved_pixels() {
    let session = JsScreenshot::new(3, 5, 40, 30, Vec::new());
    let f = frame(40, 30, 160);
    let (dx, dy) = (7u32, 4u32);
    for alpha in [true, false] {
        let bpp = if alpha { 4u32 } else { 3u32 };
        let first = session.extract(&f, 2, 1, 12, 9, alpha).unwrap();
        let second = session.extract(&f, 2 + dx, 1 + dy, 12 + dx, 9 + dy, alpha).unwrap();
        assert_eq!(first.data.len(), second.data.len());
        for y in 0..8u32 {
            for x in 0..10u32 {
                for c in 0..bpp {
                    let at = ((y * 10 + x) * bpp + c) as usize;
                    assert_eq!(first.data[at], channel(2 + 3 + x, 1 + 5 + y, c));
                    assert_eq!(second.data[at], channel(2 + 3 + dx + x, 1 + 5 + dy + y, c));
                }
            }
        }
    }
    assert_eq!(session.locate(2, 1, 12, 9), Ok(Region { left: 5, top: 6, right: 15, bottom: 14 }));
    assert_eq!(
        session.locate(2 + dx, 1 + dy, 12 + dx, 9 + dy),
        Ok(Region { left: 5 + dx, top: 6 + dy, right: 15 + dx, bottom: 14 + dy })
    );
}

#[test]
fn extract_twice_gives_the_same_bytes() {
    let session = JsScreenshot::new(1, 2, 40, 30, Vec::new());
    let f = frame(40, 30, 160);
    assert_eq!(session.extract(&f, 4, 4, 20, 20, true), session.extract(&f, 4, 4, 20, 20, true));
    assert_eq!(session.take(&f, 4, 4, 20, 20), session.extract(&f, 4, 4, 20, 20, true));
    let again = frame(40, 30, 192);
    assert_eq!(session.extract(&f, 4, 4, 20, 20, false), session.extract(&again, 4, 4, 20, 20, false));
}

#[test]
fn take_keeps_the_alpha_channel() {
    let session = JsScreenshot::new(0, 0, 8, 8, Vec::new());
    let f = frame(8, 8, 32);
    let buf = session.take(&f, 1, 1, 3, 2).unwrap();
    assert!(buf.include_alpha);
    assert_eq!(
        buf.data,
        vec![
            channel(1, 1, 0),
            channel(1, 1, 1),
            channel(1, 1, 2),
            channel(1, 1, 3),
            channel(2, 1, 0),
            channel(2, 1, 1),
            channel(2, 1, 2),
            channel(2, 1, 3)
        ]
    );
}

#[test]
fn session_refuses_malformed_rectangles() {
    let session = JsScreenshot::new(10, 20, 64, 48, Vec::new());
    let f = frame(64, 48, 256);
    for (l, t, r, b) in [(5, 5, 5, 9), (5, 5, 9, 5), (9, 5, 5, 9), (5, 9, 9, 5)] {
        assert_eq!(session.locate(l, t, r, b), Err(CaptureError::InvalidRegion));
        assert_eq!(session.extract(&f, l, t, r, b, true), Err(CaptureError::InvalidRegion));
        assert_eq!(session.take(&f, l, t, r, b), Err(CaptureError::InvalidRegion));
        assert_eq!(session.take_bmp(&f, l, t, r, b), Err(CaptureError::InvalidRegion));
    }
}

#[test]
fn session_refuses_rectangles_past_the_frame() {
    let session = JsScreenshot::new(10, 20, 64, 48, Vec::new());
    let f = frame(64, 48, 256);
    assert!(session.extract(&f, 0, 0, 54, 28, false).is_ok());
    assert_eq!(session.locate(0, 0, 54, 28), Ok(Region { left: 10, top: 20, right: 64, bottom: 48 }));
    assert_eq!(session.extract(&f, 0, 0, 55, 28, false), Err(CaptureError::InvalidRegion));
    assert_eq!(session.extract(&f, 0, 0, 54, 29, false), Err(CaptureError::InvalidRegion));
    assert_eq!(session.locate(0, 0, 55, 28), Err(CaptureError::InvalidRegion));
    assert_eq!(session.locate(0, 0, 54, 29), Err(CaptureError::InvalidRegion));
}

#[test]
fn session_refuses_rectangles_that_overflow() {
    let session = JsScreenshot::new(10, 20, 64, 48, Vec::new());
    let f = frame(64, 48, 256);
    assert_eq!(session.locate(0, 0, u32::MAX, 1), Err(CaptureError::InvalidRegion));
    assert_eq!(session.locate(0, 0, 1, u32::MAX - 19), Err(CaptureError::InvalidRegion));
    assert_eq!(session.extract(&f, u32::MAX - 9, 0, u32::MAX, 1, true), Err(CaptureError::InvalidRegion));
    assert_eq!(session.take_bmp(&f, 0, u32::MAX, 1, u32::MAX), Err(CaptureError::InvalidRegion));
    let wrapped = JsScreenshot::new(u32::MAX, u32::MAX - 9, 64, 48, Vec::new());
    assert_eq!(wrapped.locate(0, 0, 1, 1), Err(CaptureError::InvalidRegion));
    assert_eq!(wrapped.extract(&f, 1, 10, 2, 11, true), Err(CaptureError::InvalidRegion));
}

#[test]
fn locate_checks_against_the_size_at_opening() {
    let session = JsScreenshot::new(0, 0, 64, 48, Vec::new());
    assert_eq!(session.frame_size(), (64, 48));
    assert_eq!(session.locate(0, 0, 64, 48), Ok(Region { left: 0, top: 0, right: 64, bottom: 48 }));
    assert_eq!(session.locate(0, 0, 65, 48), Err(CaptureError::InvalidRegion));
    // The frame at hand decides what can be read of it.
    let smaller = frame(32, 24, 128);
    assert_eq!(session.extract(&smaller, 0, 0, 64, 48, true), Err(CaptureError::InvalidRegion));
    assert!(session.extract(&smaller, 0, 0, 32, 24, true).is_ok());
}

#[test]
fn closing_is_reported_once() {
    let mut session = JsScreenshot::new(0, 0, 64, 48, Vec::new());
    assert!(!session.is_closed());
    assert!(session.distory());
    assert!(session.is_closed());
    assert!(!session.distory());
    assert!(session.is_closed());
    assert_eq!(session.sub_window_offset(), (0, 0));
    assert_eq!(session.frame_size(), (64, 48));
}

#[test]
fn closed_session_refuses_requests() {
    let mut session = JsScreenshot::new(0, 0, 64, 48, vec![String::from("shadow_text")]);
    let f = frame(64, 48, 256);
    session.distory();
    assert_eq!(session.locate(0, 0, 10, 10), Err(CaptureError::SessionClosed));
    assert_eq!(session.extract(&f, 0, 0, 10, 10, true), Err(CaptureError::SessionClosed));
    assert_eq!(session.take(&f, 0, 0, 10, 10), Err(CaptureError::SessionClosed));
    assert_eq!(session.take_bmp(&f, 0, 0, 10, 10), Err(CaptureError::SessionClosed));
    assert_eq!(session.take(&f, 5, 5, 5, 5), Err(CaptureError::SessionClosed));
    assert_eq!(session.on_frame(0, FrameEvent::Arrived), Err(CaptureError::SessionClosed));
}

#[test]
fn only_the_last_frame_is_read() {
    let session = JsScreenshot::new(0, 0, 64, 48, Vec::new());
    assert_eq!(FRAMES_PER_EXTRACTION, 2);
    assert_eq!(session.on_frame(0, FrameEvent::Arrived), Ok(FrameStep::Discard));
    assert_eq!(session.on_frame(1, FrameEvent::Arrived), Ok(FrameStep::Extract));
    assert_eq!(session.on_frame(2, FrameEvent::Arrived), Ok(FrameStep::Extract));
    assert_eq!(session.on_frame(u32::MAX, FrameEvent::Arrived), Ok(FrameStep::Extract));
}

#[test]
fn a_timeout_ends_the_extraction() {
    let session = JsScreenshot::new(0, 0, 64, 48, Vec::new());
    assert_eq!(session.on_frame(0, FrameEvent::TimedOut), Err(CaptureError::FrameTimeout));
    assert_eq!(session.on_frame(1, FrameEvent::TimedOut), Err(CaptureError::FrameTimeout));
}

#[test]
fn take_bmp_reads_the_moved_rectangle() {
    let session = JsScreenshot::new(1, 0, 3, 2, Vec::new());
    let f = MappedFrame::new(
        3,
        2,
        12,
        vec![
            0xA0, 0xA1, 0xA2, 0xFF, 1, 2, 3, 0xFF, 4, 5, 6, 0xFF, //
            0xB0, 0xB1, 0xB2, 0xFF, 7, 8, 9, 0xFF, 10, 11, 12, 0xFF,
        ],
    )
    .unwrap();
    let file = session.take_bmp(&f, 0, 0, 2, 2).unwrap();
    assert_eq!(file.len(), 70);
    assert_eq!(&file[0..2], &[66, 77]);
    assert_eq!(&file[54..], &[7, 8, 9, 10, 11, 12, 0, 0, 1, 2, 3, 4, 5, 6, 0, 0]);
}

#[test]
fn create_without_sub_window_query_has_no_offset() {
    let parent = window(1, "Game", 300, 400);
    let children = vec![window(3, "View", 310, 420)];
    let session = create(Some(&parent), None, &children, 64, 48, None);
    assert_eq!(session.sub_window_offset(), (0, 0));
    assert_eq!(session.frame_size(), (64, 48));
    assert!(!session.is_closed());
}

#[test]
fn create_with_unmatched_sub_window_has_no_offset() {
    let parent = window(1, "Game", 300, 400);
    let children = vec![window(3, "View", 310, 420)];
    let session = create(Some(&parent), Some(String::from("Canvas")), &children, 64, 48, None);
    assert_eq!(session.sub_window_offset(), (0, 0));
    let session = create(Some(&parent), Some(String::from("view")), &children, 64, 48, None);
    assert_eq!(session.sub_window_offset(), (0, 0));
}

#[test]
fn create_with_ambiguous_sub_window_has_no_offset() {
    let parent = window(1, "Game", 300, 400);
    let children = vec![window(3, "View", 310, 420), window(4, "View", 330, 450)];
    let session = create(Some(&parent), Some(String::from("View")), &children, 64, 48, None);
    assert_eq!(session.sub_window_offset(), (0, 0));
}

#[test]
fn create_for_the_display_ignores_sub_windows() {
    let children = vec![window(3, "View", 310, 420)];
    let session = create(None, Some(String::from("View")), &children, 64, 48, None);
    assert_eq!(session.sub_window_offset(), (0, 0));
}

#[test]
fn create_names_the_recognition_resource() {
    let with = create(None, None, &Vec::new(), 64, 48, Some(String::from("C:\\libs\\shadow.lib")));
    assert_eq!(with.find_lib("shadow_text"), Some(0));
    assert_eq!(with.find_lib("C:\\libs\\shadow.lib"), None);
    let without = create(None, None, &Vec::new(), 64, 48, None);
    assert_eq!(without.find_lib("shadow_text"), None);
}

#[test]
fn find_lib_gives_the_first_of_that_name() {
    let session = JsScreenshot::new(
        0,
        0,
        8,
        8,
        vec![String::from("digits"), String::from("shadow_text"), String::from("shadow_text")],
    );
    assert_eq!(session.find_lib("digits"), Some(0));
    assert_eq!(session.find_lib("shadow_text"), Some(1));
    assert_eq!(session.find_lib("Shadow_Text"), None);
    assert_eq!(session.find_lib(""), None);
}
