//! The cells that say who owes the runtime a release.
//!
//! * `StrongCell` holds one retain unit, which `release` gives back.
//! * `AutoreleasedCell` holds nothing; its object stays alive until the pool
//!   that its lifetime is bound to is popped.
//! * `StrongMutCell` and `AutoreleasedMutCell` are the same with exclusive
//!   access to the object.
//! * `StrongLifetimeCell` is a strong cell for an object that borrows Rust
//!   data.
//!
//! An operation that goes with a runtime call returns that call beside its
//! result. A strong cell that is neither released, autoreleased nor
//! returned leaks its unit.

use vstd::prelude::*;
use std::marker::PhantomData;
use crate::autorelease::ActiveAutoreleasePool;
use crate::objcinstance::{NonNullImmutable, ObjcInstance};
use crate::runtime::RuntimeCall;

verus! {

/// A handle to an object that the active autorelease pool keeps alive.
#[derive(Debug)]
pub struct AutoreleasedCell<'a, T> {
    ptr: NonNullImmutable<T>,
    marker: PhantomData<&'a T>,
}

impl<'a, T> View for AutoreleasedCell<'a, T> {
    type V = usize;

    /// The address of the object.
    closed spec fn view(&self) -> usize {
        self.ptr@
    }
}

impl<'a, T: ObjcInstance> AutoreleasedCell<'a, T> {
    /// Hands one retain unit on the object to the active pool. The second
    /// part of the result is the call that does so.
    pub fn autoreleasing(cell: &NonNullImmutable<T>, _pool: &'a ActiveAutoreleasePool) -> (made: (
        Self,
        RuntimeCall,
    ))
        ensures
            made.0@ == cell@,
            made.1 == RuntimeCall::Autorelease(cell@),
    {
        let call = RuntimeCall::Autorelease(cell.as_ptr());
        (AutoreleasedCell { ptr: NonNullImmutable::from_reference(cell), marker: PhantomData }, call)
    }

    /// Makes the cell for an object that already is in the active pool, as
    /// the results of many methods are by convention. No call is made.
    pub fn assume_autoreleased(ptr: &NonNullImmutable<T>, _pool: &'a ActiveAutoreleasePool) -> (cell:
        Self)
        ensures
            cell@ == ptr@,
    {
        AutoreleasedCell { ptr: NonNullImmutable::from_reference(ptr), marker: PhantomData }
    }

    /// Turns the cell into one with exclusive access. The caller vouches
    /// that nothing else refers to the object.
    pub fn assume_mut(self) -> (cell: AutoreleasedMutCell<'a, T>)
        ensures
            cell@ == self@,
    {
        AutoreleasedMutCell { ptr: self.ptr, marker: PhantomData }
    }

    /// The handle of the object.
    pub fn deref(&self) -> (handle: &NonNullImmutable<T>)
        ensures
            handle@ == self@,
    {
        &self.ptr
    }
}

/// An `AutoreleasedCell` with exclusive access to its object.
#[derive(Debug)]
pub struct AutoreleasedMutCell<'a, T> {
    ptr: NonNullImmutable<T>,
    marker: PhantomData<&'a T>,
}

impl<'a, T> View for AutoreleasedMutCell<'a, T> {
    type V = usize;

    /// The address of the object.
    closed spec fn view(&self) -> usize {
        self.ptr@
    }
}

impl<'a, T: ObjcInstance> AutoreleasedMutCell<'a, T> {
    /// Hands one retain unit on the object to the active pool. The second
    /// part of the result is the call that does so.
    pub fn autoreleasing(cell: NonNullImmutable<T>, _pool: &'a ActiveAutoreleasePool) -> (made: (
        Self,
        RuntimeCall,
    ))
        ensures
            made.0@ == cell@,
            made.1 == RuntimeCall::Autorelease(cell@),
    {
        let call = RuntimeCall::Autorelease(cell.as_ptr());
        (AutoreleasedMutCell { ptr: cell, marker: PhantomData }, call)
    }

    /// Makes the cell for an object that already is in the active pool. No
    /// call is made.
    pub fn assume_autoreleased(ptr: NonNullImmutable<T>, _pool: &'a ActiveAutoreleasePool) -> (cell:
        Self)
        ensures
            cell@ == ptr@,
    {
        AutoreleasedMutCell { ptr, marker: PhantomData }
    }

    /// The handle of the object.
    pub fn deref(&self) -> (handle: &NonNullImmutable<T>)
        ensures
            handle@ == self@,
    {
        &self.ptr
    }
}

/// A handle that holds one retain unit on its object.
///
/// The unit is taken by `retaining`, or vouched for by `assume_retained`.
/// It is given back by `release`, handed to the pool by `autoreleasing`, or
/// passed on by `return_autoreleased`.
#[derive(Debug)]
pub struct StrongCell<T: ObjcInstance>(NonNullImmutable<T>);

impl<T: ObjcInstance> View for StrongCell<T> {
    type V = usize;

    /// The address of the object.
    closed spec fn view(&self) -> usize {
        self.0@
    }
}

impl<T: ObjcInstance> StrongCell<T> {
    /// Takes a retain unit on the object. The second part of the result is
    /// the call that takes it.
    pub fn retaining(cell: &NonNullImmutable<T>) -> (retained: (Self, RuntimeCall))
        ensures
            retained.0@ == cell@,
            retained.1 == RuntimeCall::Retain(cell@),
    {
        let call = RuntimeCall::Retain(cell.as_ptr());
        (Self::assume_retained(cell), call)
    }

    /// Gives the cell up and hands its retain unit to the active pool. The
    /// second part of the result is the one call that does so.
    pub fn autoreleasing<'a>(cell: Self, pool: &'a ActiveAutoreleasePool) -> (made: (
        AutoreleasedCell<'a, T>,
        RuntimeCall,
    ))
        ensures
            made.0@ == cell@,
            made.1 == RuntimeCall::Autorelease(cell@),
    {
        AutoreleasedCell::autoreleasing(&cell.0, pool)
    }

    /// Makes the cell for an object on which the caller holds a retain unit
    /// already, as on the result of `alloc`, `new`, `copy` or `init`. No call
    /// is made.
    pub fn assume_retained(reference: &NonNullImmutable<T>) -> (cell: Self)
        ensures
            cell@ == reference@,
    {
        StrongCell(NonNullImmutable::from_reference(reference))
    }

    /// Turns the cell into one with exclusive access. The caller vouches
    /// that nothing else refers to the object. The retain unit goes with it.
    pub fn assume_mut(self) -> (cell: StrongMutCell<T>)
        ensures
            cell@ == self@,
    {
        StrongMutCell(self.0)
    }

    /// Gives the cell up to return its object to an Objective-C caller. The
    /// result is the address to return and the call that passes the retain
    /// unit on; the caller returns what that call returns.
    pub fn return_autoreleased(self) -> (returned: (usize, RuntimeCall))
        ensures
            returned.0 == self@,
            returned.1 == RuntimeCall::AutoreleaseReturnValue(self@),
    {
        let ptr = self.0.as_ptr();
        (ptr, RuntimeCall::AutoreleaseReturnValue(ptr))
    }

    /// Takes the cell for a cell of another type. The retain unit goes with
    /// it; no call is made. The caller vouches that the object is a `U`.
    pub fn cast_into<U: ObjcInstance>(self) -> (cell: StrongCell<U>)
        ensures
            cell@ == self@,
    {
        let ptr = self.0.as_ptr();
        StrongCell(NonNullImmutable::assume_nonnil(ptr))
    }

    /// A second cell for the same object, with a retain unit of its own. The
    /// second part of the result is the call that takes the unit.
    pub fn clone(&self) -> (retained: (Self, RuntimeCall))
        ensures
            retained.0@ == self@,
            retained.1 == RuntimeCall::Retain(self@),
    {
        StrongCell::retaining(&self.0)
    }

    /// Gives the cell up. The result is the call that gives its retain unit
    /// back, exactly once.
    pub fn release(self) -> (call: RuntimeCall)
        ensures
            call == RuntimeCall::Release(self@),
    {
        RuntimeCall::Release(self.0.as_ptr())
    }

    /// The handle of the object.
    pub fn deref(&self) -> (handle: &NonNullImmutable<T>)
        ensures
            handle@ == self@,
    {
        &self.0
    }
}

/// A `StrongCell` for an object that may only live as long as `'a`, because
/// it borrows Rust data.
#[derive(Debug)]
pub struct StrongLifetimeCell<'a, T: ObjcInstance>(NonNullImmutable<T>, PhantomData<&'a ()>);

impl<'a, T: ObjcInstance> View for StrongLifetimeCell<'a, T> {
    type V = usize;

    /// The address of the object.
    closed spec fn view(&self) -> usize {
        self.0@
    }
}

impl<'a, T: ObjcInstance> StrongLifetimeCell<'a, T> {
    /// Takes a retain unit on the object. The second part of the result is
    /// the call that takes it.
    pub fn retaining(cell: &NonNullImmutable<T>) -> (retained: (Self, RuntimeCall))
        ensures
            retained.0@ == cell@,
            retained.1 == RuntimeCall::Retain(cell@),
    {
        let call = RuntimeCall::Retain(cell.as_ptr());
        (Self::assume_retained_limited(cell), call)
    }

    /// Gives the cell up and hands its retain unit to the active pool. The
    /// second part of the result is the one call that does so.
    pub fn autoreleasing<'b: 'a>(cell: Self, pool: &'b ActiveAutoreleasePool) -> (made: (
        AutoreleasedCell<'b, T>,
        RuntimeCall,
    ))
        ensures
            made.0@ == cell@,
            made.1 == RuntimeCall::Autorelease(cell@),
    {
        AutoreleasedCell::autoreleasing(&cell.0, pool)
    }

    /// Makes the cell for an object on which the caller holds a retain unit
    /// already. No call is made.
    pub fn assume_retained_limited(reference: &NonNullImmutable<T>) -> (cell: Self)
        ensures
            cell@ == reference@,
    {
        StrongLifetimeCell(NonNullImmutable::from_reference(reference), PhantomData)
    }

    /// Takes the cell for a cell of another type. The retain unit goes with
    /// it; no call is made. The caller vouches that the object is a `U`.
    pub fn cast_into<U: ObjcInstance>(self) -> (cell: StrongLifetimeCell<'a, U>)
        ensures
            cell@ == self@,
    {
        let ptr = self.0.as_ptr();
        StrongLifetimeCell(NonNullImmutable::assume_nonnil(ptr), PhantomData)
    }

    /// Gives the cell up. The result is the call that gives its retain unit
    /// back, exactly once.
    pub fn release(self) -> (call: RuntimeCall)
        ensures
            call == RuntimeCall::Release(self@),
    {
        RuntimeCall::Release(self.0.as_ptr())
    }

    /// The handle of the object.
    pub fn deref(&self) -> (handle: &NonNullImmutable<T>)
        ensures
            handle@ == self@,
    {
        &self.0
    }
}

/// A `StrongCell` with exclusive access to its object.
#[derive(Debug)]
pub struct StrongMutCell<T: ObjcInstance>(NonNullImmutable<T>);

impl<T: ObjcInstance> View for StrongMutCell<T> {
    type V = usize;

    /// The address of the object.
    closed spec fn view(&self) -> usize {
        self.0@
    }
}

impl<T: ObjcInstance> StrongMutCell<T> {
    /// Takes a retain unit on the object. The second part of the result is
    /// the call that takes it.
    pub fn retaining(cell: NonNullImmutable<T>) -> (retained: (Self, RuntimeCall))
        ensures
            retained.0@ == cell@,
            retained.1 == RuntimeCall::Retain(cell@),
    {
        let call = RuntimeCall::Retain(cell.as_ptr());
        (Self::assume_retained(cell), call)
    }

    /// Gives the cell up and hands its retain unit to the active pool. The
    /// second part of the result is the one call that does so.
    pub fn autoreleasing<'a>(cell: Self, pool: &'a ActiveAutoreleasePool) -> (made: (
        AutoreleasedMutCell<'a, T>,
        RuntimeCall,
    ))
        ensures
            made.0@ == cell@,
            made.1 == RuntimeCall::Autorelease(cell@),
    {
        AutoreleasedMutCell::autoreleasing(cell.0, pool)
    }

    /// Gives up the exclusive access and keeps the retain unit.
    pub fn as_const(self) -> (cell: StrongCell<T>)
        ensures
            cell@ == self@,
    {
        StrongCell::assume_retained(&self.0)
    }

    /// Makes the cell for an object on which the caller holds a retain unit
    /// already. No call is made.
    pub fn assume_retained(reference: NonNullImmutable<T>) -> (cell: Self)
        ensures
            cell@ == reference@,
    {
        StrongMutCell(reference)
    }

    /// Gives the cell up to return its object to an Objective-C caller. The
    /// result is the address to return and the call that passes the retain
    /// unit on; the caller returns what that call returns.
    pub fn return_autoreleased(self) -> (returned: (usize, RuntimeCall))
        ensures
            returned.0 == self@,
            returned.1 == RuntimeCall::AutoreleaseReturnValue(self@),
    {
        let ptr = self.0.as_ptr();
        (ptr, RuntimeCall::AutoreleaseReturnValue(ptr))
    }

    /// Takes the cell for a cell of another type. The retain unit goes with
    /// it; no call is made. The caller vouches that the object is a `U`.
    pub fn cast_into<U: ObjcInstance>(self) -> (cell: StrongMutCell<U>)
        ensures
            cell@ == self@,
    {
        let ptr = self.0.as_ptr();
        StrongMutCell(NonNullImmutable::assume_nonnil(ptr))
    }

    /// Gives the cell up. The result is the call that gives its retain unit
    /// back, exactly once.
    pub fn release(self) -> (call: RuntimeCall)
        ensures
            call == RuntimeCall::Release(self@),
    {
        RuntimeCall::Release(self.0.as_ptr())
    }

    /// The handle of the object.
    pub fn deref(&self) -> (handle: &NonNullImmutable<T>)
        ensures
            handle@ == self@,
    {
        &self.0
    }
}

} // verus!
