use vstd::prelude::*;
use crate::cli::CaptureMode;
use crate::error::TargetResolutionError;
use crate::text::contains;
use crate::text::decimal_usize;
use crate::text::lowercase;
use crate::text::occurs_in;
use crate::text::parse_usize;
use crate::text::to_lowercase;
use crate::text::trim;
use crate::text::trimmed;
use crate::window_info::WindowInfo;

verus! {

/// A window title answers a query when it contains it, letter case aside.
pub open spec fn title_matches(title: Seq<char>, query: Seq<char>) -> bool {
    occurs_in(lowercase(query), lowercase(title))
}

/// The windows of `list` whose titles answer `query`, in the order of `list`.
pub open spec fn matching_windows(list: Seq<WindowInfo>, query: Seq<char>) -> Seq<WindowInfo> {
    list.filter(|w: WindowInfo| title_matches(w.title@, query))
}

/// The windows of `list` that carry exactly the title `title`, in the order
/// of `list`.
pub open spec fn titled_windows(list: Seq<WindowInfo>, title: Seq<char>) -> Seq<WindowInfo> {
    list.filter(|w: WindowInfo| w.title@ == title)
}

/// Picks from the listed windows those whose title contains `window_name`,
/// letter case aside.
pub fn find_window(window_list: &Vec<WindowInfo>, window_name: &str) -> (windows: Vec<WindowInfo>)
    ensures
        windows@ == matching_windows(window_list@, window_name@),
{
    let wanted = to_lowercase(window_name);
    let ghost pred = |w: WindowInfo| title_matches(w.title@, window_name@);
    let mut windows: Vec<WindowInfo> = Vec::new();
    let mut i: usize = 0;
    while i < window_list.len()
        invariant
            0 <= i <= window_list.len(),
            wanted@ == lowercase(window_name@),
            pred == (|w: WindowInfo| title_matches(w.title@, window_name@)),
            windows@ == window_list@.take(i as int).filter(pred),
        decreases window_list.len() - i,
    {
        let title = to_lowercase(window_list[i].title.as_str());
        proof {
            reveal(Seq::filter);
            assert(window_list@.take(i + 1).drop_last() =~= window_list@.take(i as int));
        }
        if contains(title.as_str(), wanted.as_str()) {
            windows.push(window_list[i].clone());
        }
        i = i + 1;
    }
    assert(window_list@.take(i as int) =~= window_list@);
    windows
}

/// Picks from the listed windows those that carry exactly the given title.
pub fn find_sub_window(window_list: &Vec<WindowInfo>, title: &str) -> (windows: Vec<WindowInfo>)
    ensures
        windows@ == titled_windows(window_list@, title@),
{
    let wanted = String::from_str(title);
    let ghost pred = |w: WindowInfo| w.title@ == title@;
    let mut windows: Vec<WindowInfo> = Vec::new();
    let mut i: usize = 0;
    while i < window_list.len()
        invariant
            0 <= i <= window_list.len(),
            wanted@ == title@,
            pred == (|w: WindowInfo| w.title@ == title@),
            windows@ == window_list@.take(i as int).filter(pred),
        decreases window_list.len() - i,
    {
        proof {
            reveal(Seq::filter);
            assert(window_list@.take(i + 1).drop_last() =~= window_list@.take(i as int));
        }
        if window_list[i].title == wanted {
            windows.push(window_list[i].clone());
        }
        i = i + 1;
    }
    assert(window_list@.take(i as int) =~= window_list@);
    windows
}

/// What a title query found, when it found anything.
#[derive(Debug, PartialEq, Eq)]
pub enum WindowMatch {
    /// One window answers the query.
    Unique(WindowInfo),
    /// Several windows answer the query; the caller has to choose one.
    Several(Vec<WindowInfo>),
}

/// Resolves a title query against the listed windows: no match is an error,
/// one match is the answer, several matches are handed back for a choice.
pub fn get_window_from_query(window_list: &Vec<WindowInfo>, query: &str) -> (res: Result<
    WindowMatch,
    TargetResolutionError,
>)
    ensures
        match res {
            Err(e) => matching_windows(window_list@, query@).len() == 0 && e
                == TargetResolutionError::NoMatch,
            Ok(WindowMatch::Unique(window)) => matching_windows(window_list@, query@).len() == 1
                && window == matching_windows(window_list@, query@)[0],
            Ok(WindowMatch::Several(windows)) => windows@.len() > 1 && windows@
                == matching_windows(window_list@, query@),
        },
{
    let windows = find_window(window_list, query);
    if windows.len() == 0 {
        Err(TargetResolutionError::NoMatch)
    } else if windows.len() == 1 {
        Ok(WindowMatch::Unique(windows[0].clone()))
    } else {
        Ok(WindowMatch::Several(windows))
    }
}

/// What a capture mode resolved to.
#[derive(Debug, PartialEq, Eq)]
pub enum Resolution {
    /// The primary display.
    PrimaryDisplay,
    /// What the title query found.
    Window(WindowMatch),
}

/// Resolves a capture mode against the listed windows: the primary display
/// needs no window, a title query is resolved as `get_window_from_query`
/// does.
pub fn resolve_target(mode: &CaptureMode, window_list: &Vec<WindowInfo>) -> (res: Result<
    Resolution,
    TargetResolutionError,
>)
    ensures
        match *mode {
            CaptureMode::Primary => res is Ok && res.unwrap() is PrimaryDisplay,
            CaptureMode::Window(query) => match res {
                Err(e) => matching_windows(window_list@, query@).len() == 0 && e
                    == TargetResolutionError::NoMatch,
                Ok(Resolution::Window(WindowMatch::Unique(window))) => matching_windows(
                    window_list@,
                    query@,
                ).len() == 1 && window == matching_windows(window_list@, query@)[0],
                Ok(Resolution::Window(WindowMatch::Several(windows))) => windows@.len() > 1
                    && windows@ == matching_windows(window_list@, query@),
                Ok(Resolution::PrimaryDisplay) => false,
            },
        },
{
    match mode {
        CaptureMode::Primary => Ok(Resolution::PrimaryDisplay),
        CaptureMode::Window(query) => {
            match get_window_from_query(window_list, query.as_str()) {
                Ok(found) => Ok(Resolution::Window(found)),
                Err(e) => Err(e),
            }
        },
    }
}

/// What one line of input means to the choice among `count` candidates.
#[derive(Debug, Clone, Copy, PartialEq, Eq, Structural)]
pub enum Selection {
    /// The line names the candidate at this index.
    Chosen(usize),
    /// The line asks to give up.
    Quit,
    /// The line is neither; the question is to be asked again.
    Invalid,
}

/// A request to quit wins; otherwise a number below `count` chooses, and
/// anything else is invalid.
pub open spec fn selection_of(quit: bool, number: Option<usize>, count: usize) -> Selection {
    if quit {
        Selection::Quit
    } else {
        match number {
            Some(index) => if index < count {
                Selection::Chosen(index)
            } else {
                Selection::Invalid
            },
            None => Selection::Invalid,
        }
    }
}

/// Decides what an input line means from what was read off it: whether it
/// asks to quit, and the number it holds, if it holds one.
pub fn decide_selection(quit: bool, number: Option<usize>, count: usize) -> (selection: Selection)
    ensures
        selection == selection_of(quit, number, count),
{
    if quit {
        return Selection::Quit;
    }
    match number {
        Some(index) => {
            if index < count {
                Selection::Chosen(index)
            } else {
                Selection::Invalid
            }
        },
        None => Selection::Invalid,
    }
}

/// Reads one line of input as a choice among `count` candidates. A line with
/// the letter `q` in it, in either case, asks to quit; otherwise the line,
/// white space around it aside, has to be the decimal index of a candidate.
pub fn read_selection(input: &str, count: usize) -> (selection: Selection)
    ensures
        selection == selection_of(
            occurs_in(seq!['q'], lowercase(input@)),
            decimal_usize(trimmed(input@)),
            count,
        ),
{
    proof {
        reveal_strlit("q");
        assert("q"@ =~= seq!['q']);
    }
    let lower = to_lowercase(input);
    let quit = contains(lower.as_str(), "q");
    let number = parse_usize(trim(input));
    decide_selection(quit, number, count)
}

/// Applies one line of input to the candidates of an ambiguous query: the
/// chosen window, `None` where the line is invalid and the question is to be
/// asked again, or the error that ends the resolution when the line asks to
/// quit.
pub fn select_window(candidates: &Vec<WindowInfo>, input: &str) -> (res: Result<
    Option<WindowInfo>,
    TargetResolutionError,
>)
    ensures
        match selection_of(
            occurs_in(seq!['q'], lowercase(input@)),
            decimal_usize(trimmed(input@)),
            candidates.len(),
        ) {
            Selection::Chosen(index) => res == Ok::<Option<WindowInfo>, TargetResolutionError>(
                Some(candidates@[index as int]),
            ),
            Selection::Quit => res == Err::<Option<WindowInfo>, TargetResolutionError>(
                TargetResolutionError::Ambiguous,
            ),
            Selection::Invalid => res == Ok::<Option<WindowInfo>, TargetResolutionError>(None),
        },
{
    match read_selection(input, candidates.len()) {
        Selection::Chosen(index) => Ok(Some(candidates[index].clone())),
        Selection::Quit => Err(TargetResolutionError::Ambiguous),
        Selection::Invalid => Ok(None),
    }
}

/// The distance from `from` to `to` as an unsigned 32-bit number; a negative
/// distance wraps around.
pub open spec fn offset_between(from: i32, to: i32) -> u32 {
    if to - from < 0 {
        (to - from + 0x1_0000_0000) as u32
    } else {
        (to - from) as u32
    }
}

/// The offset that a sub-window query adds to every requested rectangle: the
/// distance from the window's corner to the sub-window's corner when exactly
/// one sub-window was found, and none otherwise.
pub open spec fn spec_sub_window_offset(window: WindowInfo, found: Seq<WindowInfo>) -> (u32, u32) {
    if found.len() == 1 {
        (
            offset_between(window.rect.left, found[0].rect.left),
            offset_between(window.rect.top, found[0].rect.top),
        )
    } else {
        (0u32, 0u32)
    }
}

fn distance(from: i32, to: i32) -> (d: u32)
    ensures
        d == offset_between(from, to),
{
    let wide: i64 = to as i64 - from as i64;
    if wide < 0 {
        (wide + 0x1_0000_0000) as u32
    } else {
        wide as u32
    }
}

/// Computes the sub-window offset from the window and the sub-windows that
/// the sub-window query found.
pub fn sub_window_offset(window: &WindowInfo, found: &Vec<WindowInfo>) -> (offset: (u32, u32))
    ensures
        offset == spec_sub_window_offset(*window, found@),
{
    if found.len() == 1 {
        (
            distance(window.rect.left, found[0].rect.left),
            distance(window.rect.top, found[0].rect.top),
        )
    } else {
        (0, 0)
    }
}

} // verus!
