//! Classes: the handle of a class, typed and untyped, and the steps of
//! `[[Class alloc] init]`.

use vstd::prelude::*;
use vstd::std_specs::cmp::{PartialEqSpec, PartialEqSpecImpl};
use std::marker::PhantomData;
use crate::arguments::Invocation;
use crate::autorelease::ActiveAutoreleasePool;
use crate::objcinstance::{NonNullImmutable, ObjcInstance};
use crate::objectpointers::{StrongCell, StrongMutCell};
use crate::sel::Sel;

verus! {

/// The handle of a class whose type is not known.
#[derive(Debug, Clone, Copy, PartialEq, Eq, Structural)]
pub struct AnyClass(usize);

impl View for AnyClass {
    type V = usize;

    /// The address of the class.
    closed spec fn view(&self) -> usize {
        self.0
    }
}

impl AnyClass {
    /// The untyped handle of the class at `address`.
    pub closed spec fn at(address: usize) -> AnyClass {
        AnyClass(address)
    }

    /// The address of the class.
    pub fn ptr(&self) -> (ptr: usize)
        ensures
            ptr == self@,
    {
        self.0
    }
}

/// A Rust type that stands for an Objective-C class.
///
/// Every query for the class yields the same handle: the one that the
/// loader wrote into the class reference before any code ran.
pub trait ObjcClass: ObjcInstance + Sized {
    /// The address of the class.
    spec fn class_address() -> usize;

    /// The handle of the class.
    fn class() -> (class: Class<Self>)
        ensures
            class@ == Self::class_address(),
    ;
}

/// The handle of the class that `T` stands for. It is the receiver of class
/// methods such as `alloc`.
#[derive(Debug)]
pub struct Class<T>(usize, PhantomData<T>);

impl<T> View for Class<T> {
    type V = usize;

    /// The address of the class.
    closed spec fn view(&self) -> usize {
        self.0
    }
}

impl<T: ObjcClass> PartialEq for Class<T> {
    /// Two handles are equal where they hold the same address.
    fn eq(&self, other: &Self) -> (same: bool) {
        self.0 == other.0
    }
}

impl<T: ObjcClass> PartialEqSpecImpl for Class<T> {
    open spec fn obeys_eq_spec() -> bool {
        true
    }

    open spec fn eq_spec(&self, other: &Self) -> bool {
        self@ == other@
    }
}

impl<T> Class<T> {
    #[verifier::type_invariant]
    spec fn not_nil(self) -> bool {
        self.0 != 0
    }
}

impl<T: ObjcClass> Class<T> {
    /// Makes the handle of an address that a lookup of the class has given.
    /// The caller vouches that the lookup found the class.
    pub fn from_ptr(ptr: usize) -> (class: Self)
        requires
            ptr != 0,
        ensures
            class@ == ptr,
    {
        Class(ptr, PhantomData)
    }

    /// The same handle without its type.
    pub fn as_anyclass(&self) -> (class: AnyClass)
        ensures
            class == AnyClass::at(self@),
            class@ == self@,
    {
        AnyClass(self.0)
    }

    /// The address of the class, as the receiver of a message.
    pub fn assume_nonmut_perform(&self) -> (ptr: usize)
        ensures
            ptr == self@,
            ptr != 0,
    {
        proof {
            use_type_invariant(self);
        }
        self.0
    }

    /// `[Class alloc]`: the message that allocates an instance.
    /// `alloc_selector` is the selector named `alloc`. What the message
    /// returns is memory that is not initialized yet.
    pub fn allocate(&self, alloc_selector: Sel, pool: &ActiveAutoreleasePool) -> (message:
        Invocation)
        ensures
            message == Invocation::plain(self@, alloc_selector),
    {
        Invocation::invoke(self.assume_nonmut_perform(), alloc_selector, pool)
    }

    /// `[[Class alloc] init]`, first step: the message that allocates, sent
    /// to the class.
    pub fn alloc_init(&self, alloc_selector: Sel, pool: &ActiveAutoreleasePool) -> (begun: (
        Allocating<T>,
        Invocation,
    ))
        ensures
            begun.0@ == self@,
            begun.1 == Invocation::plain(self@, alloc_selector),
    {
        let message = self.allocate(alloc_selector, pool);
        (Allocating { class: self.0, marker: PhantomData }, message)
    }
}

/// `[[Class alloc] init]` after `alloc` has been sent to the class and
/// before it has returned.
#[derive(Debug)]
pub struct Allocating<T: ObjcClass> {
    class: usize,
    marker: PhantomData<T>,
}

impl<T: ObjcClass> View for Allocating<T> {
    type V = usize;

    /// The address of the class that allocates.
    closed spec fn view(&self) -> usize {
        self.class
    }
}

impl<T: ObjcClass> Allocating<T> {
    /// Second step: `alloc` has returned `instance`. The result holds the
    /// `init` message, sent to that instance; `init` is the selector of that
    /// name.
    pub fn allocated(self, instance: usize, init: Sel, pool: &ActiveAutoreleasePool) -> (next: (
        Initializing<T>,
        Invocation,
    ))
        ensures
            next.0@ == instance,
            next.1 == Invocation::plain(instance, init),
    {
        let message = Invocation::invoke(instance, init, pool);
        (Initializing { instance, marker: PhantomData }, message)
    }
}

/// `[[Class alloc] init]` after `init` has been sent to the new instance and
/// before it has returned.
#[derive(Debug)]
pub struct Initializing<T: ObjcClass> {
    instance: usize,
    marker: PhantomData<T>,
}

impl<T: ObjcClass> View for Initializing<T> {
    type V = usize;

    /// The address that `alloc` returned and `init` was sent to.
    closed spec fn view(&self) -> usize {
        self.instance
    }
}

impl<T: ObjcClass> Initializing<T> {
    /// Last step: `init` has returned `initialized`. By convention `init`
    /// may return another object than the one it was sent to, so the cell
    /// holds what `init` returned, whatever was allocated. The object comes
    /// with the retain unit of its allocation.
    pub fn initialized(self, initialized: usize) -> (cell: StrongCell<T>)
        requires
            initialized != 0,
        ensures
            cell@ == initialized,
    {
        let handle = NonNullImmutable::assume_nonnil(initialized);
        handle.assume_retained()
    }

    /// As `initialized`, for a cell with exclusive access to the new object.
    pub fn initialized_mut(self, initialized: usize) -> (cell: StrongMutCell<T>)
        requires
            initialized != 0,
        ensures
            cell@ == initialized,
    {
        self.initialized(initialized).assume_mut()
    }
}

/// Resolving a class is idempotent: whatever two queries for the class of
/// `T` have returned compares equal.
pub proof fn law_class_resolution_is_stable<T: ObjcClass>(first: Class<T>, second: Class<T>)
    requires
        first@ == T::class_address(),
        second@ == T::class_address(),
    ensures
        PartialEqSpec::eq_spec(&first, &second),
        first@ == second@,
{
}

} // verus!
