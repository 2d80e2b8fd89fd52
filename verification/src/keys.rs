//! Keys of the caches: values that are compared by their view.

use vstd::prelude::*;

verus! {

/// A cache key. Two keys name the same entry exactly when their views are
/// equal, and `same` decides that in executable code.
pub trait Key: View + Sized {
    /// Whether `self` and `other` name the same entry.
    fn same(&self, other: &Self) -> (b: bool)
        ensures
            b == (self@ == other@),
    ;
}

impl Key for String {
    fn same(&self, other: &Self) -> (b: bool) {
        *self == *other
    }
}

} // verus!
