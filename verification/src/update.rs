//! Change-tracked values.

use vstd::prelude::*;

verus! {

/// A value tagged with whether it changed since the previous frame.
#[derive(Debug, Clone, Copy, PartialEq, Eq)]
pub enum Update<T> {
    Changed(T),
    Unchanged(T),
}

impl<T> Update<T> {
    /// The carried value, whichever the tag.
    pub open spec fn value(self) -> T {
        match self {
            Update::Changed(v) => v,
            Update::Unchanged(v) => v,
        }
    }

    pub fn get_value(&self) -> (r: &T)
        ensures
            *r == self.value(),
    {
        match self {
            Update::Changed(value) => value,
            Update::Unchanged(value) => value,
        }
    }

    pub fn is_changed(&self) -> (r: bool)
        ensures
            r == (*self is Changed),
    {
        matches!(self, Update::Changed(_))
    }
}

} // verus!
