//! Uses of a value that are safe to share between threads by Objective-C
//! convention.

use vstd::prelude::*;

verus! {

/// Wraps one use of a value that Objective-C convention lets be shared
/// between threads, where nothing can be said of the type as a whole. The
/// caller vouches for every operation between `new` and `unwrap`.
#[derive(Debug)]
pub struct ImpliedSyncUse<T>(T);

impl<T> View for ImpliedSyncUse<T> {
    type V = T;

    /// The value inside.
    closed spec fn view(&self) -> T {
        self.0
    }
}

impl<T> ImpliedSyncUse<T> {
    /// Wraps the value.
    pub fn new(t: T) -> (wrapped: Self)
        ensures
            wrapped@ == t,
    {
        Self(t)
    }

    /// Gives the value back.
    pub fn unwrap(self) -> (t: T)
        ensures
            t == self@,
    {
        self.0
    }
}

} // verus!
