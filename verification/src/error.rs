use vstd::prelude::*;

verus! {

/// Why a title query did not resolve to one window.
#[derive(Debug, Clone, Copy, PartialEq, Eq, Structural)]
pub enum TargetResolutionError {
    /// No capturable window has a title containing the query.
    NoMatch,
    /// Several windows matched and the caller gave up choosing among them.
    Ambiguous,
}

/// The construction step at which a capture session could not be set up.
#[derive(Debug, Clone, Copy, PartialEq, Eq, Structural)]
pub enum CaptureInitError {
    Device,
    CaptureItem,
    FramePool,
}

/// Every failure the capture engine reports to its caller.
#[derive(Debug, Clone, Copy, PartialEq, Eq, Structural)]
pub enum CaptureError {
    TargetResolution(TargetResolutionError),
    CaptureInit(CaptureInitError),
    /// No frame was delivered within the bounded wait.
    FrameTimeout,
    /// The requested rectangle is empty, inverted, or reaches outside the
    /// captured frame.
    InvalidRegion,
    /// Text recognition was requested on a session that loaded no
    /// recognition resource.
    RecognitionUnavailable,
    /// The session was used after it had been closed.
    SessionClosed,
}

} // verus!
