//! Selectors.

use vstd::prelude::*;
use crate::arguments::{Arguable, Primitive};

verus! {

/// The runtime's handle for a method name. It is a plain word that can be
/// passed to the runtime as it is.
#[derive(Copy, Clone, Debug)]
pub struct Sel(usize);

impl View for Sel {
    type V = usize;

    /// The word that the runtime knows the selector by.
    closed spec fn view(&self) -> usize {
        self.0
    }
}

impl Sel {
    /// The word that the runtime knows the selector by.
    pub fn ptr(&self) -> (ptr: usize)
        ensures
            ptr == self@,
    {
        self.0
    }

    /// The selector that the runtime knows by `ptr`.
    pub fn from_ptr(ptr: usize) -> (sel: Sel)
        ensures
            sel@ == ptr,
    {
        Sel(ptr)
    }
}

impl Primitive for Sel {
}

impl Arguable for Sel {
}

} // verus!
