//! Bare handles: one that may be nil, and one that is known not to be.
//!
//! Neither claims a retain unit. A handle that may be nil becomes one that
//! is not through a test (`try_unwrap`) or on the caller's word
//! (`assuming_nonnil`); a cell is made of the latter on the caller's word
//! that the unit it claims is there.

use vstd::prelude::*;
use std::marker::PhantomData;
use crate::autorelease::ActiveAutoreleasePool;
use crate::objcinstance::{NonNullImmutable, ObjcInstance};
use crate::objectpointers::{AutoreleasedCell, StrongCell};

verus! {

/// A handle to an object of type `T` that may be nil.
#[derive(Debug)]
pub struct RawMarker<T> {
    ptr: usize,
    _marker: PhantomData<T>,
}

impl<T> View for RawMarker<T> {
    type V = usize;

    /// The address that the handle holds; zero is nil.
    closed spec fn view(&self) -> usize {
        self.ptr
    }
}

impl<T> RawMarker<T> {
    /// The handle for an address.
    pub fn new(ptr: usize) -> (marker: Self)
        ensures
            marker@ == ptr,
    {
        RawMarker { ptr, _marker: PhantomData }
    }

    /// Whether the handle is nil.
    pub fn is_nil(&self) -> (nil: bool)
        ensures
            nil == (self@ == 0),
    {
        self.ptr == 0
    }

    /// The same handle, on the caller's word that it is not nil.
    pub fn assuming_nonnil(self) -> (marker: GuaranteedMarker<T>)
        requires
            self@ != 0,
        ensures
            marker@ == self@,
    {
        GuaranteedMarker { ptr: self.ptr, _marker: PhantomData }
    }

    /// The address that the handle holds.
    pub fn ptr(&self) -> (ptr: usize)
        ensures
            ptr == self@,
    {
        self.ptr
    }

    /// The nil handle.
    pub fn nil() -> (marker: Self)
        ensures
            marker@ == 0,
    {
        RawMarker { ptr: 0, _marker: PhantomData }
    }
}

/// Why a handle could not be used.
#[non_exhaustive]
#[derive(Debug, Clone, Copy, PartialEq, Eq, Structural)]
pub enum Errors {
    /// The handle was nil.
    UnwrappingNil,
}

impl Errors {
    /// The message for the error.
    pub open spec fn message_text(self) -> Seq<char> {
        "Unwrapping nil"@
    }

    /// The message for the error.
    pub fn message(&self) -> (text: String)
        ensures
            text@ == self.message_text(),
    {
        "Unwrapping nil".to_owned()
    }
}

/// A handle to an object of type `T` that is not nil.
#[derive(Debug)]
pub struct GuaranteedMarker<T> {
    ptr: usize,
    _marker: PhantomData<T>,
}

impl<T> View for GuaranteedMarker<T> {
    type V = usize;

    /// The address that the handle holds.
    closed spec fn view(&self) -> usize {
        self.ptr
    }
}

/// Implemented by both kinds of handle.
pub trait Marker<T> {
}

impl<T> Marker<T> for RawMarker<T> {
}

impl<T> Marker<T> for GuaranteedMarker<T> {
}

impl<T> GuaranteedMarker<T> {
    #[verifier::type_invariant]
    spec fn not_nil(self) -> bool {
        self.ptr != 0
    }

    /// The handle for an address that the caller vouches is not nil.
    pub fn new_unchecked(ptr: usize) -> (marker: Self)
        requires
            ptr != 0,
        ensures
            marker@ == ptr,
    {
        GuaranteedMarker { ptr, _marker: PhantomData }
    }

    /// The address that the handle holds.
    pub fn into_raw_ptr(&self) -> (ptr: usize)
        ensures
            ptr == self@,
            ptr != 0,
    {
        proof {
            use_type_invariant(self);
        }
        self.ptr
    }

    /// A second handle to the same object.
    pub fn unsafe_clone(&self) -> (marker: Self)
        ensures
            marker@ == self@,
    {
        GuaranteedMarker::new_unchecked(self.into_raw_ptr())
    }

    /// A handle that points at no object and is not nil: its address is 1.
    /// It may be held, and nothing else may be done with it.
    pub fn dangling() -> (marker: Self)
        ensures
            marker@ == 1,
    {
        GuaranteedMarker { ptr: 1, _marker: PhantomData }
    }

    /// Tests the handle: a nil handle is refused, any other is known not to
    /// be nil from here on.
    pub fn try_unwrap(raw_marker: RawMarker<T>) -> (result: Result<Self, Errors>)
        ensures
            raw_marker@ == 0 ==> result == Err::<Self, Errors>(Errors::UnwrappingNil),
            raw_marker@ != 0 ==> result is Ok && result->Ok_0@ == raw_marker@,
    {
        if raw_marker.is_nil() {
            return Err(Errors::UnwrappingNil);
        }
        Ok(GuaranteedMarker::new_unchecked(raw_marker.ptr))
    }

    /// The same address as a handle that may be nil.
    pub fn as_raw(&self) -> (marker: RawMarker<Self>)
        ensures
            marker@ == self@,
    {
        RawMarker::new(self.into_raw_ptr())
    }

    /// The same address as a handle to an `R`. The caller vouches that the
    /// object is one.
    pub fn cast<R>(&self) -> (marker: GuaranteedMarker<R>)
        ensures
            marker@ == self@,
    {
        GuaranteedMarker::new_unchecked(self.into_raw_ptr())
    }
}

impl<T: ObjcInstance> GuaranteedMarker<T> {
    /// Makes a strong cell of the handle. The caller vouches that the object
    /// carries a retain unit that nothing else will give back.
    pub fn assuming_retained(self) -> (cell: StrongCell<T>)
        ensures
            cell@ == self@,
    {
        NonNullImmutable::assume_nonnil(self.into_raw_ptr()).assume_retained()
    }

    /// Makes an autoreleased cell of the handle. The caller vouches that the
    /// object was autoreleased into the pool that is active.
    pub fn assuming_autoreleased<'a>(self, pool: &'a ActiveAutoreleasePool) -> (cell:
        AutoreleasedCell<'a, T>)
        ensures
            cell@ == self@,
    {
        NonNullImmutable::assume_nonnil(self.into_raw_ptr()).assume_autoreleased(pool)
    }
}

/// A borrow of a handle that may be nil, for a method that writes a handle
/// back, as methods do that report an error through an `NSError **`.
#[derive(Debug)]
pub struct RawMarkerMutRef<'a, T>(&'a mut RawMarker<T>);

impl<'a, T> RawMarkerMutRef<'a, T> {
    /// The address that the borrowed handle holds.
    pub closed spec fn address(&self) -> usize {
        (*self.0)@
    }

    /// Wraps the borrow. The handle keeps its address.
    pub fn from_marker(marker: &'a mut RawMarker<T>) -> (wrapped: Self)
        ensures
            wrapped.address() == old(marker)@,
    {
        RawMarkerMutRef(marker)
    }
}

} // verus!
