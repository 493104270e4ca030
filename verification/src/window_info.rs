use vstd::prelude::*;
use vstd::string::StrSliceExecFns;
use vstd::string::StringExecFns;

verus! {

/// A rectangle in screen pixel coordinates.
#[derive(Debug, Clone, Copy, PartialEq, Eq, Structural)]
pub struct Rect {
    pub left: i32,
    pub top: i32,
    pub right: i32,
    pub bottom: i32,
}

/// An on-screen window as it was found when the windows were listed: its
/// platform handle, title, class name and bounding rectangle.
#[derive(Debug, PartialEq, Eq)]
pub struct WindowInfo {
    pub handle: isize,
    pub title: String,
    pub class_name: String,
    pub rect: Rect,
}

impl Clone for WindowInfo {
    fn clone(&self) -> (copy: Self)
        ensures
            copy == *self,
    {
        WindowInfo {
            handle: self.handle,
            title: self.title.clone(),
            class_name: self.class_name.clone(),
            rect: self.rect,
        }
    }
}

/// The text that a lossy UTF-16 decoding gives for a sequence of code units.
pub uninterp spec fn utf16_lossy_text(units: Seq<u16>) -> Seq<char>;

/// `String::from_utf16_lossy`: decodes UTF-16 code units, putting U+FFFD in
/// place of every unit that is not part of a valid encoding. The result is
/// named, not spelled out.
#[verifier::external_body]
fn decode_utf16_lossy(units: &[u16]) -> (text: String)
    ensures
        text@ == utf16_lossy_text(units@),
{
    String::from_utf16_lossy(units)
}

/// No character of `s` is the null character.
pub open spec fn null_free(s: Seq<char>) -> bool {
    forall|i: int| 0 <= i < s.len() ==> s[i] != '\0'
}

/// `n` is where the first null character of `s` stands, or the length of `s`
/// if it has none.
pub open spec fn is_first_null(s: Seq<char>, n: int) -> bool {
    &&& 0 <= n <= s.len()
    &&& null_free(s.take(n))
    &&& (n == s.len() || s[n] == '\0')
}

/// The position of the first null character of `s`, or its length.
pub open spec fn first_null(s: Seq<char>) -> int {
    choose|n: int| is_first_null(s, n)
}

/// What stands before the first null character of `s`: all of `s` if it has
/// none.
pub open spec fn up_to_first_null(s: Seq<char>) -> Seq<char> {
    s.take(first_null(s))
}

/// A text has one first null position only.
pub proof fn lemma_first_null_unique(s: Seq<char>, n: int)
    requires
        is_first_null(s, n),
    ensures
        first_null(s) == n,
{
    let m = first_null(s);
    assert(is_first_null(s, m));
    if m < n {
        assert(s.take(n)[m] == s[m]);
    }
    if n < m {
        assert(s.take(m)[n] == s[n]);
    }
}

/// Cuts a text off at its first null character, as is needed for text read
/// into a fixed, zero-filled buffer.
pub fn truncate_to_first_null_char(input: &mut String)
    ensures
        final(input)@ == up_to_first_null(old(input)@),
{
    let len: usize = input.as_str().unicode_len();
    let mut index: usize = 0;
    let mut found: bool = false;
    while index < len && !found
        invariant
            len == input@.len(),
            *input == *old(input),
            0 <= index <= len,
            null_free(input@.take(index as int)),
            found ==> index < len && input@[index as int] == '\0',
        decreases (len - index) + (if found { 0int } else { 1int }),
    {
        if input.as_str().get_char(index) == '\0' {
            found = true;
        } else {
            proof {
                let seen = input@.take(index + 1);
                assert forall|i: int| 0 <= i < seen.len() implies #[trigger] seen[i] != '\0' by {
                    if i < index {
                        assert(input@.take(index as int)[i] == input@[i]);
                    }
                }
            }
            index = index + 1;
        }
    }
    proof {
        lemma_first_null_unique(input@, index as int);
    }
    let kept: String = String::from_str(input.as_str().substring_char(0, index));
    assert(kept@ =~= old(input)@.take(index as int));
    *input = kept;
}

impl WindowInfo {
    /// Describes a window from what the platform reported of it: the title
    /// and the class name as UTF-16 code units in zero-filled buffers.
    pub fn new(window_handle: isize, title: &[u16], class_name: &[u16], rect: Rect) -> (info: Self)
        ensures
            info.handle == window_handle,
            info.title@ == up_to_first_null(utf16_lossy_text(title@)),
            info.class_name@ == up_to_first_null(utf16_lossy_text(class_name@)),
            info.rect == rect,
    {
        let mut title = decode_utf16_lossy(title);
        truncate_to_first_null_char(&mut title);
        let mut class_name = decode_utf16_lossy(class_name);
        truncate_to_first_null_char(&mut class_name);
        WindowInfo { handle: window_handle, title, class_name, rect }
    }

    pub fn matches_title_and_class_name(&self, title: &str, class_name: &str) -> (res: bool)
        ensures
            res == (self.title@ == title@ && self.class_name@ == class_name@),
    {
        self.title == String::from_str(title) && self.class_name == String::from_str(class_name)
    }
}

} // verus!
