use vstd::prelude::*;

verus! {

/// A physical display: its platform handle and its name.
#[derive(Debug, PartialEq, Eq)]
pub struct DisplayInfo {
    pub handle: isize,
    pub display_name: String,
}

impl Clone for DisplayInfo {
    fn clone(&self) -> (copy: Self)
        ensures
            copy == *self,
    {
        DisplayInfo { handle: self.handle, display_name: self.display_name.clone() }
    }
}

} // verus!
