//! Typed handles to Objective-C objects.

use vstd::prelude::*;
use std::marker::PhantomData;
use crate::arguments::Arguable;
use crate::autorelease::ActiveAutoreleasePool;
use crate::objectpointers::{AutoreleasedCell, StrongCell, StrongLifetimeCell, StrongMutCell};
use crate::runtime::RuntimeCall;

verus! {

/// Marks a Rust type that stands for a kind of Objective-C object: a class,
/// or a protocol.
pub trait ObjcInstance: Arguable {
}

/// A handle to an object of type `T` that is not nil. It claims no retain
/// unit on the object.
#[derive(Debug)]
pub struct NonNullImmutable<T> {
    ptr: usize,
    marker: PhantomData<T>,
}

impl<T> View for NonNullImmutable<T> {
    type V = usize;

    /// The address that the handle holds.
    closed spec fn view(&self) -> usize {
        self.ptr
    }
}

impl<T> NonNullImmutable<T> {
    #[verifier::type_invariant]
    spec fn not_nil(self) -> bool {
        self.ptr != 0
    }
}

impl<T: ObjcInstance> NonNullImmutable<T> {
    /// A second handle to the same object.
    pub fn from_reference(ptr: &NonNullImmutable<T>) -> (handle: Self)
        ensures
            handle@ == ptr@,
    {
        proof {
            use_type_invariant(ptr);
        }
        NonNullImmutable { ptr: ptr.ptr, marker: PhantomData }
    }

    /// Makes a strong cell of the handle. The caller vouches that the object
    /// carries a retain unit that nothing else will give back.
    pub fn assume_retained(self) -> (cell: StrongCell<T>)
        ensures
            cell@ == self@,
            cell@ != 0,
    {
        proof {
            use_type_invariant(&self);
        }
        StrongCell::assume_retained(&self)
    }

    /// As `assume_retained`, for an object that borrows Rust data and may
    /// only live as long as `'a`.
    pub fn assume_retained_limited<'a>(self) -> (cell: StrongLifetimeCell<'a, T>)
        ensures
            cell@ == self@,
            cell@ != 0,
    {
        proof {
            use_type_invariant(&self);
        }
        StrongLifetimeCell::assume_retained_limited(&self)
    }

    /// Makes an autoreleased cell of the handle. The caller vouches that the
    /// object was autoreleased into the pool that is active.
    pub fn assume_autoreleased<'a>(self, pool: &'a ActiveAutoreleasePool) -> (cell:
        AutoreleasedCell<'a, T>)
        ensures
            cell@ == self@,
            cell@ != 0,
    {
        proof {
            use_type_invariant(&self);
        }
        AutoreleasedCell::assume_autoreleased(&self, pool)
    }

    /// The address that the handle holds.
    pub fn as_ptr(&self) -> (ptr: usize)
        ensures
            ptr == self@,
            ptr != 0,
    {
        proof {
            use_type_invariant(self);
        }
        self.ptr
    }

    /// Makes a handle of an address that the caller vouches is not nil.
    pub fn assume_nonnil(ptr: usize) -> (handle: Self)
        requires
            ptr != 0,
        ensures
            handle@ == ptr,
    {
        NonNullImmutable { ptr, marker: PhantomData }
    }

    /// Makes a strong cell that holds a retain unit of its own. The second
    /// part of the result is the call that takes the unit.
    pub fn retain(&self) -> (retained: (StrongCell<T>, RuntimeCall))
        ensures
            retained.0@ == self@,
            retained.0@ != 0,
            retained.1 == RuntimeCall::Retain(self@),
    {
        proof {
            use_type_invariant(self);
        }
        StrongCell::retaining(self)
    }
}

/// What can be done with the address of any `ObjcInstance`.
pub trait ObjcInstanceBehavior: Sized {
    /// Takes a handle for a handle to an `R`. The caller vouches that the
    /// object is one.
    fn cast<R: ObjcInstance>(handle: &NonNullImmutable<Self>) -> (cast: NonNullImmutable<R>)
        ensures
            cast@ == handle@,
    ;

    /// As `cast`, for a handle with exclusive access, which is given up.
    fn cast_mut<R: ObjcInstance>(handle: NonNullImmutable<Self>) -> (cast: NonNullImmutable<R>)
        ensures
            cast@ == handle@,
    ;

    /// Makes a handle of an address that the caller vouches is not nil.
    fn assume_nonnil(ptr: usize) -> (handle: NonNullImmutable<Self>)
        requires
            ptr != 0,
        ensures
            handle@ == ptr,
    ;

    /// Tests an address: nil gives `None`, any other address its handle.
    fn nullable(ptr: usize) -> (handle: Option<NonNullImmutable<Self>>)
        ensures
            ptr == 0 <==> handle is None,
            handle is Some ==> handle->0@ == ptr,
    ;
}

impl<T: ObjcInstance> ObjcInstanceBehavior for T {
    fn cast<R: ObjcInstance>(handle: &NonNullImmutable<Self>) -> (cast: NonNullImmutable<R>) {
        NonNullImmutable::assume_nonnil(handle.as_ptr())
    }

    fn cast_mut<R: ObjcInstance>(handle: NonNullImmutable<Self>) -> (cast: NonNullImmutable<R>) {
        NonNullImmutable::assume_nonnil(handle.as_ptr())
    }

    fn assume_nonnil(ptr: usize) -> (handle: NonNullImmutable<Self>) {
        NonNullImmutable::assume_nonnil(ptr)
    }

    fn nullable(ptr: usize) -> (handle: Option<NonNullImmutable<Self>>) {
        if ptr == 0 {
            None
        } else {
            Some(Self::assume_nonnil(ptr))
        }
    }
}

/// Making cells of a handle that may be absent. Nothing is made of an
/// absent handle, and no call goes with it.
pub trait NullableBehavior: Sized {
    type T: ObjcInstance;

    /// The address of the object, or nil where the handle is absent.
    spec fn address(&self) -> usize;

    /// The autoreleased cell for the object, if there is one. The caller
    /// vouches that the object was autoreleased into the active pool.
    fn assume_autoreleased<'a>(self, pool: &'a ActiveAutoreleasePool) -> (cell: Option<
        AutoreleasedCell<'a, Self::T>,
    >)
        ensures
            self.address() == 0 <==> cell is None,
            cell is Some ==> cell->0@ == self.address(),
    ;

    /// The strong cell for the object, if there is one. The caller vouches
    /// that the object carries a retain unit.
    fn assume_retained(self) -> (cell: Option<StrongCell<Self::T>>)
        ensures
            self.address() == 0 <==> cell is None,
            cell is Some ==> cell->0@ == self.address(),
    ;

    /// A strong cell for the object, if there is one, with the call that
    /// takes its retain unit.
    fn retain(self) -> (retained: Option<(StrongCell<Self::T>, RuntimeCall)>)
        ensures
            self.address() == 0 <==> retained is None,
            match retained {
                Some(made) => made.0@ == self.address() && made.1 == RuntimeCall::Retain(
                    self.address(),
                ),
                None => true,
            },
    ;

    /// As `assume_retained`, for an object that may only live as long as
    /// `'a`.
    fn assume_retained_limited<'a>(self) -> (cell: Option<StrongLifetimeCell<'a, Self::T>>)
        ensures
            self.address() == 0 <==> cell is None,
            cell is Some ==> cell->0@ == self.address(),
    ;
}

impl<O: ObjcInstance> NullableBehavior for Option<NonNullImmutable<O>> {
    type T = O;

    open spec fn address(&self) -> usize {
        match self {
            Some(handle) => handle@,
            None => 0,
        }
    }

    fn assume_autoreleased<'a>(self, pool: &'a ActiveAutoreleasePool) -> (cell: Option<
        AutoreleasedCell<'a, O>,
    >) {
        match self {
            Some(m) => Some(m.assume_autoreleased(pool)),
            None => None,
        }
    }

    fn assume_retained(self) -> (cell: Option<StrongCell<O>>) {
        match self {
            Some(m) => Some(m.assume_retained()),
            None => None,
        }
    }

    fn retain(self) -> (retained: Option<(StrongCell<O>, RuntimeCall)>) {
        match self {
            Some(m) => Some(m.retain()),
            None => None,
        }
    }

    fn assume_retained_limited<'a>(self) -> (cell: Option<StrongLifetimeCell<'a, O>>) {
        match self {
            Some(m) => Some(m.assume_retained_limited()),
            None => None,
        }
    }
}

/// Turning a strong cell that may be absent into one with exclusive access.
pub trait NullableCellBehavior: Sized {
    type T: ObjcInstance;

    /// The address of the object, if the cell is there.
    spec fn address(&self) -> Option<usize>;

    /// The cell with exclusive access, if there is a cell. The caller
    /// vouches that nothing else refers to the object. The retain unit goes
    /// with it.
    fn assume_mut(self) -> (cell: Option<StrongMutCell<Self::T>>)
        ensures
            cell is Some <==> self.address() is Some,
            cell is Some ==> Some(cell->0@) == self.address(),
    ;
}

impl<O: ObjcInstance> NullableCellBehavior for Option<StrongCell<O>> {
    type T = O;

    open spec fn address(&self) -> Option<usize> {
        match self {
            Some(cell) => Some(cell@),
            None => None,
        }
    }

    fn assume_mut(self) -> (cell: Option<StrongMutCell<O>>) {
        match self {
            Some(p) => Some(p.assume_mut()),
            None => None,
        }
    }
}

/// The address behind a handle that may be absent.
pub trait OptionalInstanceBehavior<Deref> {
    /// The address of the object, or nil where the handle is absent.
    spec fn address(&self) -> usize;

    /// The address of the object, or nil where the handle is absent.
    fn as_ptr(&self) -> (ptr: usize)
        ensures
            ptr == self.address(),
    ;
}

impl<'a, T: ObjcInstance> OptionalInstanceBehavior<T> for Option<&'a NonNullImmutable<T>> {
    open spec fn address(&self) -> usize {
        match self {
            Some(handle) => handle@,
            None => 0,
        }
    }

    fn as_ptr(&self) -> (ptr: usize)
        ensures
            ptr == 0 <==> self is None,
    {
        match self {
            Some(s) => s.as_ptr(),
            None => 0,
        }
    }
}

} // verus!
