//! Sealing of traits.

use vstd::prelude::*;

verus! {

/// A trait that inherits from `Sealed` cannot be implemented outside this
/// crate.
pub trait Sealed {
}

} // verus!
