use vstd::prelude::*;
use crate::bitmap::bmp_can_hold;
use crate::bitmap::bmp_file;
use crate::bitmap::rgb_pixels;
use crate::bitmap::take_screenshot_bmp;
use crate::error::CaptureError;
use crate::frame::bytes_per_pixel;
use crate::frame::extracted_bytes;
use crate::frame::lemma_extracted_channel;
use crate::frame::packed_index;
use crate::frame::take_screenshot;
use crate::frame::FrameView;
use crate::frame::MappedFrame;
use crate::frame::PixelBuffer;
use crate::frame::Region;
use crate::resolve::find_sub_window;
use crate::resolve::spec_sub_window_offset;
use crate::resolve::sub_window_offset;
use crate::resolve::titled_windows;
use crate::window_info::WindowInfo;

verus! {

/// Frames taken off the delivery channel for one extraction: all but the
/// last are discarded.
pub const FRAMES_PER_EXTRACTION: u32 = 2;

/// The mathematical content of a capture session.
pub struct SessionView {
    /// Added to the horizontal coordinates of every requested rectangle.
    pub offset_x: int,
    /// Added to the vertical coordinates of every requested rectangle.
    pub offset_y: int,
    /// Width of the frames that the session delivers.
    pub width: int,
    /// Height of the frames that the session delivers.
    pub height: int,
    pub closed: bool,
    /// Names of the recognition resources that were loaded.
    pub libs: Seq<Seq<char>>,
}

impl SessionView {
    /// The offset and the frame size are unsigned 32-bit numbers.
    pub open spec fn wf(self) -> bool {
        &&& 0 <= self.offset_x <= u32::MAX
        &&& 0 <= self.offset_y <= u32::MAX
        &&& 0 <= self.width <= u32::MAX
        &&& 0 <= self.height <= u32::MAX
    }

    /// The requested rectangle moved by the session's offset, where the
    /// moved rectangle still has 32-bit coordinates.
    pub open spec fn translated(self, left: u32, top: u32, right: u32, bottom: u32) -> Option<
        Region,
    > {
        if left + self.offset_x <= u32::MAX && right + self.offset_x <= u32::MAX && top
            + self.offset_y <= u32::MAX && bottom + self.offset_y <= u32::MAX {
            Some(
                Region {
                    left: (left + self.offset_x) as u32,
                    top: (top + self.offset_y) as u32,
                    right: (right + self.offset_x) as u32,
                    bottom: (bottom + self.offset_y) as u32,
                },
            )
        } else {
            None
        }
    }

    /// The rectangle of a `width` by `height` frame that a request reads, or
    /// the reason why it reads none.
    pub open spec fn region_in(
        self,
        width: int,
        height: int,
        left: u32,
        top: u32,
        right: u32,
        bottom: u32,
    ) -> Result<Region, CaptureError> {
        if self.closed {
            Err(CaptureError::SessionClosed)
        } else {
            match self.translated(left, top, right, bottom) {
                Some(region) => if region.fits(width, height) {
                    Ok(region)
                } else {
                    Err(CaptureError::InvalidRegion)
                },
                None => Err(CaptureError::InvalidRegion),
            }
        }
    }

    /// A recognition resource of this name was loaded.
    pub open spec fn has_lib(self, name: Seq<char>) -> bool {
        self.libs.contains(name)
    }
}

/// `index` is the place of the first text in `names` that equals `name`.
pub open spec fn is_first_named(names: Seq<Seq<char>>, name: Seq<char>, index: int) -> bool {
    &&& 0 <= index < names.len()
    &&& names[index] == name
    &&& forall|j: int| 0 <= j < index ==> (#[trigger] names[j]) != name
}

/// The names of a list of texts.
pub open spec fn names_of(libs: Seq<String>) -> Seq<Seq<char>> {
    libs.map_values(|name: String| name@)
}

/// A capture session bound to one target: the offset of the sub-window of
/// interest, the size of the frames it delivers, the recognition resources
/// it loaded, and whether it was closed.
#[derive(Debug)]
pub struct JsScreenshot {
    sub_window_x: u32,
    sub_window_y: u32,
    width: u32,
    height: u32,
    closed: bool,
    libs: Vec<String>,
}

impl View for JsScreenshot {
    type V = SessionView;

    closed spec fn view(&self) -> SessionView {
        SessionView {
            offset_x: self.sub_window_x as int,
            offset_y: self.sub_window_y as int,
            width: self.width as int,
            height: self.height as int,
            closed: self.closed,
            libs: names_of(self.libs@),
        }
    }
}

/// What happened while the session waited for a frame.
#[derive(Debug, Clone, Copy, PartialEq, Eq, Structural)]
pub enum FrameEvent {
    Arrived,
    TimedOut,
}

/// What to do with a frame that arrived.
#[derive(Debug, Clone, Copy, PartialEq, Eq, Structural)]
pub enum FrameStep {
    /// Copy it to a staging texture, drop the copy and wait for the next.
    Discard,
    /// Copy it to a staging texture, map the copy and read the pixels.
    Extract,
}

impl JsScreenshot {
    /// The content of every session is well formed.
    pub proof fn lemma_view_wf(&self)
        ensures
            self@.wf(),
    {
    }

    /// An open session with the given offset, frame size and resources.
    pub fn new(sub_window_x: u32, sub_window_y: u32, width: u32, height: u32, libs: Vec<String>) -> (session:
        Self)
        ensures
            session@ == (SessionView {
                offset_x: sub_window_x as int,
                offset_y: sub_window_y as int,
                width: width as int,
                height: height as int,
                closed: false,
                libs: names_of(libs@),
            }),
    {
        JsScreenshot { sub_window_x, sub_window_y, width, height, closed: false, libs }
    }

    pub fn sub_window_offset(&self) -> (offset: (u32, u32))
        ensures
            offset.0 == self@.offset_x,
            offset.1 == self@.offset_y,
    {
        (self.sub_window_x, self.sub_window_y)
    }

    pub fn frame_size(&self) -> (size: (u32, u32))
        ensures
            size.0 == self@.width,
            size.1 == self@.height,
    {
        (self.width, self.height)
    }

    pub fn is_closed(&self) -> (closed: bool)
        ensures
            closed == self@.closed,
    {
        self.closed
    }

    /// Closes the session. The answer says whether the capture session and
    /// then the frame pool are to be released now: they are on the first
    /// close only.
    pub fn distory(&mut self) -> (release: bool)
        ensures
            release == !old(self)@.closed,
            final(self)@ == (SessionView { closed: true, ..old(self)@ }),
    {
        let release = !self.closed;
        self.closed = true;
        release
    }

    fn translate(&self, left: u32, top: u32, right: u32, bottom: u32) -> (region: Option<Region>)
        ensures
            region == self@.translated(left, top, right, bottom),
    {
        let left = left.checked_add(self.sub_window_x);
        let top = top.checked_add(self.sub_window_y);
        let right = right.checked_add(self.sub_window_x);
        let bottom = bottom.checked_add(self.sub_window_y);
        match (left, top, right, bottom) {
            (Some(left), Some(top), Some(right), Some(bottom)) => Some(
                Region { left, top, right, bottom },
            ),
            _ => None,
        }
    }

    /// Looks a recognition resource up by its name: the place of the first
    /// one that carries it.
    pub fn find_lib(&self, name: &str) -> (found: Option<usize>)
        ensures
            match found {
                Some(index) => is_first_named(self@.libs, name@, index as int),
                None => !self@.has_lib(name@),
            },
    {
        let wanted = String::from_str(name);
        let mut i: usize = 0;
        while i < self.libs.len()
            invariant
                0 <= i <= self.libs.len(),
                wanted@ == name@,
                self@.libs == names_of(self.libs@),
                forall|j: int| 0 <= j < i ==> (#[trigger] self@.libs[j]) != name@,
            decreases self.libs.len() - i,
        {
            if self.libs[i] == wanted {
                return Some(i);
            }
            i = i + 1;
        }
        None
    }

    /// Checks a request before any frame is asked for: gives the rectangle
    /// of the frame that the request will read, or refuses it. The frame is
    /// taken to have the size that the session was opened with.
    pub fn locate(&self, left: u32, top: u32, right: u32, bottom: u32) -> (res: Result<
        Region,
        CaptureError,
    >)
        ensures
            res == self@.region_in(self@.width, self@.height, left, top, right, bottom),
    {
        if self.closed {
            return Err(CaptureError::SessionClosed);
        }
        match self.translate(left, top, right, bottom) {
            Some(region) => {
                if region.left < region.right && region.top < region.bottom && region.right
                    <= self.width && region.bottom <= self.height {
                    Ok(region)
                } else {
                    Err(CaptureError::InvalidRegion)
                }
            },
            None => Err(CaptureError::InvalidRegion),
        }
    }

    /// Says what to do after waiting for a frame, `received` frames having
    /// been taken for this extraction before: a timeout ends the extraction,
    /// and of the frames that arrive only the last one is read.
    pub fn on_frame(&self, received: u32, event: FrameEvent) -> (res: Result<
        FrameStep,
        CaptureError,
    >)
        ensures
            res == if self@.closed {
                Err::<FrameStep, CaptureError>(CaptureError::SessionClosed)
            } else if event == FrameEvent::TimedOut {
                Err::<FrameStep, CaptureError>(CaptureError::FrameTimeout)
            } else if received + 1 < FRAMES_PER_EXTRACTION {
                Ok::<FrameStep, CaptureError>(FrameStep::Discard)
            } else {
                Ok::<FrameStep, CaptureError>(FrameStep::Extract)
            },
    {
        if self.closed {
            return Err(CaptureError::SessionClosed);
        }
        match event {
            FrameEvent::TimedOut => Err(CaptureError::FrameTimeout),
            FrameEvent::Arrived => {
                if received < FRAMES_PER_EXTRACTION - 1 {
                    Ok(FrameStep::Discard)
                } else {
                    Ok(FrameStep::Extract)
                }
            },
        }
    }

    /// Reads the requested rectangle, moved by the session's offset, out of
    /// a mapped frame, with or without the alpha channel.
    pub fn extract(
        &self,
        frame: &MappedFrame,
        left: u32,
        top: u32,
        right: u32,
        bottom: u32,
        include_alpha: bool,
    ) -> (res: Result<PixelBuffer, CaptureError>)
        ensures
            match self@.region_in(frame@.width, frame@.height, left, top, right, bottom) {
                Ok(region) => {
                    &&& res is Ok
                    &&& res.unwrap().width == right - left
                    &&& res.unwrap().height == bottom - top
                    &&& res.unwrap().include_alpha == include_alpha
                    &&& res.unwrap().data@.len() == (right - left) * (bottom - top)
                        * bytes_per_pixel(include_alpha)
                    &&& res.unwrap().data@ == extracted_bytes(frame@, region, include_alpha)
                },
                Err(e) => res == Err::<PixelBuffer, CaptureError>(e),
            },
    {
        if self.closed {
            return Err(CaptureError::SessionClosed);
        }
        match self.translate(left, top, right, bottom) {
            Some(region) => take_screenshot(
                frame,
                region.left,
                region.top,
                region.right,
                region.bottom,
                include_alpha,
            ),
            None => Err(CaptureError::InvalidRegion),
        }
    }

    /// Reads the requested rectangle with the alpha channel kept: four bytes
    /// per pixel, as they lie in the frame.
    pub fn take(&self, frame: &MappedFrame, left: u32, top: u32, right: u32, bottom: u32) -> (res:
        Result<PixelBuffer, CaptureError>)
        ensures
            match self@.region_in(frame@.width, frame@.height, left, top, right, bottom) {
                Ok(region) => {
                    &&& res is Ok
                    &&& res.unwrap().width == right - left
                    &&& res.unwrap().height == bottom - top
                    &&& res.unwrap().include_alpha
                    &&& res.unwrap().data@.len() == (right - left) * (bottom - top) * 4
                    &&& res.unwrap().data@ == extracted_bytes(frame@, region, true)
                },
                Err(e) => res == Err::<PixelBuffer, CaptureError>(e),
            },
    {
        self.extract(frame, left, top, right, bottom, true)
    }

    /// Reads the requested rectangle without the alpha channel and encodes
    /// it as a BMP file.
    pub fn take_bmp(&self, frame: &MappedFrame, left: u32, top: u32, right: u32, bottom: u32) -> (res:
        Result<Vec<u8>, CaptureError>)
        ensures
            match self@.region_in(frame@.width, frame@.height, left, top, right, bottom) {
                Ok(region) => if bmp_can_hold(right - left, bottom - top) {
                    &&& res is Ok
                    &&& res.unwrap()@ == bmp_file(
                        (right - left) as u32,
                        (bottom - top) as u32,
                        rgb_pixels(extracted_bytes(frame@, region, false)),
                    )
                } else {
                    res == Err::<Vec<u8>, CaptureError>(CaptureError::InvalidRegion)
                },
                Err(e) => res == Err::<Vec<u8>, CaptureError>(e),
            },
    {
        if self.closed {
            return Err(CaptureError::SessionClosed);
        }
        match self.translate(left, top, right, bottom) {
            Some(region) => take_screenshot_bmp(
                frame,
                region.left,
                region.top,
                region.right,
                region.bottom,
            ),
            None => Err(CaptureError::InvalidRegion),
        }
    }
}

/// The state that a session starts in: bound to a window, with the offset of
/// the one sub-window that carries the wanted title, or to the primary
/// display, with no offset; with the recognition resource named
/// `shadow_text` where a path to it was given.
pub open spec fn spec_create(
    window: Option<WindowInfo>,
    sub_window_str: Option<String>,
    sub_windows: Seq<WindowInfo>,
    width: u32,
    height: u32,
    shadow_text_lib: Option<String>,
) -> SessionView {
    let offset = match (window, sub_window_str) {
        (Some(parent), Some(title)) => spec_sub_window_offset(
            parent,
            titled_windows(sub_windows, title@),
        ),
        _ => (0u32, 0u32),
    };
    SessionView {
        offset_x: offset.0 as int,
        offset_y: offset.1 as int,
        width: width as int,
        height: height as int,
        closed: false,
        libs: match shadow_text_lib {
            Some(_) => seq!["shadow_text"@],
            None => Seq::empty(),
        },
    }
}

/// Sets up the session for a resolved target: `window` is the window to
/// capture, or `None` for the primary display; `sub_windows` are the windows
/// below it; `width` and `height` are the size of the target.
pub fn create(
    window: Option<&WindowInfo>,
    sub_window_str: Option<String>,
    sub_windows: &Vec<WindowInfo>,
    width: u32,
    height: u32,
    shadow_text_lib: Option<String>,
) -> (session: JsScreenshot)
    ensures
        session@ == spec_create(
            match window {
                Some(w) => Some(*w),
                None => None,
            },
            sub_window_str,
            sub_windows@,
            width,
            height,
            shadow_text_lib,
        ),
{
    let mut sub_window_x: u32 = 0;
    let mut sub_window_y: u32 = 0;
    match window {
        Some(parent) => {
            match &sub_window_str {
                Some(title_str) => {
                    let wis = find_sub_window(sub_windows, title_str.as_str());
                    let offset = sub_window_offset(parent, &wis);
                    sub_window_x = offset.0;
                    sub_window_y = offset.1;
                },
                None => (),
            }
        },
        None => (),
    }
    let mut libs: Vec<String> = Vec::new();
    match shadow_text_lib {
        Some(_) => {
            libs.push(String::from_str("shadow_text"));
            assert(names_of(libs@) =~= seq!["shadow_text"@]);
        },
        None => {
            assert(names_of(libs@) =~= Seq::empty());
        },
    }
    JsScreenshot::new(sub_window_x, sub_window_y, width, height, libs)
}

/// The session's offset is added to a request as it is: a request moved by
/// `(dx, dy)` is translated to the translated request moved by `(dx, dy)`.
pub proof fn lemma_translation_is_additive(
    session: SessionView,
    left: u32,
    top: u32,
    right: u32,
    bottom: u32,
    dx: int,
    dy: int,
)
    requires
        session.wf(),
        0 <= left + dx <= u32::MAX,
        0 <= right + dx <= u32::MAX,
        0 <= top + dy <= u32::MAX,
        0 <= bottom + dy <= u32::MAX,
        session.translated(left, top, right, bottom) is Some,
        session.translated(
            (left + dx) as u32,
            (top + dy) as u32,
            (right + dx) as u32,
            (bottom + dy) as u32,
        ) is Some,
    ensures
        ({
            let plain = session.translated(left, top, right, bottom).unwrap();
            let moved = session.translated(
                (left + dx) as u32,
                (top + dy) as u32,
                (right + dx) as u32,
                (bottom + dy) as u32,
            ).unwrap();
            &&& moved.left == plain.left + dx
            &&& moved.top == plain.top + dy
            &&& moved.right == plain.right + dx
            &&& moved.bottom == plain.bottom + dy
            &&& plain.left == left + session.offset_x
            &&& plain.top == top + session.offset_y
        }),
{
}

/// Two requests on one frame, the second being the first moved by
/// `(dx, dy)`: at every place of the two buffers, the second holds the pixel
/// that lies `(dx, dy)` away from the pixel that the first holds, and the
/// first holds the pixel that lies the session's offset away from the place
/// asked for.
pub proof fn lemma_moved_request_reads_moved_pixels(
    session: SessionView,
    frame: FrameView,
    left: u32,
    top: u32,
    right: u32,
    bottom: u32,
    dx: int,
    dy: int,
    include_alpha: bool,
)
    requires
        session.wf(),
        frame.wf(),
        0 <= left + dx <= u32::MAX,
        0 <= right + dx <= u32::MAX,
        0 <= top + dy <= u32::MAX,
        0 <= bottom + dy <= u32::MAX,
        session.region_in(frame.width, frame.height, left, top, right, bottom) is Ok,
        session.region_in(
            frame.width,
            frame.height,
            (left + dx) as u32,
            (top + dy) as u32,
            (right + dx) as u32,
            (bottom + dy) as u32,
        ) is Ok,
    ensures
        ({
            let plain = session.region_in(
                frame.width,
                frame.height,
                left,
                top,
                right,
                bottom,
            ).unwrap();
            let moved = session.region_in(
                frame.width,
                frame.height,
                (left + dx) as u32,
                (top + dy) as u32,
                (right + dx) as u32,
                (bottom + dy) as u32,
            ).unwrap();
            let bpp = bytes_per_pixel(include_alpha);
            forall|x: int, y: int, c: int|
                0 <= x < right - left && 0 <= y < bottom - top && 0 <= c < bpp ==> {
                    let at = #[trigger] packed_index(right - left, bpp, x, y, c);
                    &&& extracted_bytes(frame, plain, include_alpha)[at] == frame.channel(
                        left + session.offset_x + x,
                        top + session.offset_y + y,
                        c,
                    )
                    &&& extracted_bytes(frame, moved, include_alpha)[at] == frame.channel(
                        left + session.offset_x + dx + x,
                        top + session.offset_y + dy + y,
                        c,
                    )
                }
        }),
{
    let plain = session.region_in(frame.width, frame.height, left, top, right, bottom).unwrap();
    let moved = session.region_in(
        frame.width,
        frame.height,
        (left + dx) as u32,
        (top + dy) as u32,
        (right + dx) as u32,
        (bottom + dy) as u32,
    ).unwrap();
    let bpp = bytes_per_pixel(include_alpha);
    lemma_translation_is_additive(session, left, top, right, bottom, dx, dy);
    assert forall|x: int, y: int, c: int|
        0 <= x < right - left && 0 <= y < bottom - top && 0 <= c < bpp implies {
        let at = #[trigger] packed_index(right - left, bpp, x, y, c);
        &&& extracted_bytes(frame, plain, include_alpha)[at] == frame.channel(
            left + session.offset_x + x,
            top + session.offset_y + y,
            c,
        )
        &&& extracted_bytes(frame, moved, include_alpha)[at] == frame.channel(
            left + session.offset_x + dx + x,
            top + session.offset_y + dy + y,
            c,
        )
    } by {
        lemma_extracted_channel(frame, plain, include_alpha, x, y, c);
        lemma_extracted_channel(frame, moved, include_alpha, x, y, c);
    }
}

} // verus!
