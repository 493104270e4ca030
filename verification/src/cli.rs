use vstd::prelude::*;

verus! {

/// What a capture session is bound to: a window found by a title query, or
/// the primary display.
#[derive(Debug, PartialEq, Eq)]
pub enum CaptureMode {
    Window(String),
    Primary,
}

impl CaptureMode {
    /// A title query selects window capture; no query selects the primary
    /// display.
    pub fn from_args(window_str: Option<String>) -> (mode: Self)
        ensures
            mode == match window_str {
                Some(query) => CaptureMode::Window(query),
                None => CaptureMode::Primary,
            },
    {
        if let Some(window_str) = window_str {
            CaptureMode::Window(window_str)
        } else {
            CaptureMode::Primary
        }
    }
}

} // verus!
