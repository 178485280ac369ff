//! Casts between types that stand for Objective-C objects.

use vstd::prelude::*;

verus! {

/// A type whose handles may be taken for handles of `Target`: a class and
/// its superclass, or a class and a protocol that it conforms to.
pub trait ReinterpretCast {
    type Target;
}

} // verus!
