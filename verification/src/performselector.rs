//! The messages behind each way of performing a selector.
//!
//! Every function here yields the `Invocation` for the embedder to make.
//! What the message returns is a plain word; where the message has a
//! trailing error slot, `object_result` and `bool_result` read the outcome.

use vstd::prelude::*;
use crate::arguments::{entry_for, Architecture, Invocation};
use crate::autorelease::ActiveAutoreleasePool;
use crate::class::{AnyClass, ObjcClass};
use crate::objcinstance::ObjcInstance;
use crate::sel::Sel;

verus! {

/// Types whose instances can be sent messages.
pub trait PerformablePointer {
}

impl<O: ObjcInstance> PerformablePointer for O {
}

/// Types whose instances can be sent messages that start at the
/// superclass. This takes knowing the class.
pub trait PerformableSuper: PerformablePointer {
    /// The class of the instances, which every query yields.
    spec fn class_of_instances() -> AnyClass;

    /// The class of the instances.
    fn any_class() -> (class: AnyClass)
        ensures
            class == Self::class_of_instances(),
    ;
}

impl<O: ObjcClass> PerformableSuper for O {
    open spec fn class_of_instances() -> AnyClass {
        AnyClass::at(O::class_address())
    }

    fn any_class() -> (class: AnyClass) {
        O::class().as_anyclass()
    }
}

/// The message that returns an autoreleased object to a caller that wants
/// a retain unit: an ordinary send whose result is retained as soon as the
/// call returns. The runtime then leaves the object out of the pool where it
/// can.
pub open spec fn retaining_trampoline(receiver: usize, selector: Sel) -> Invocation {
    Invocation { retain_result: true, ..Invocation::plain(receiver, selector) }
}

/// As `retaining_trampoline`, sent to the superclass.
pub open spec fn retaining_trampoline_super(
    receiver: usize,
    class: AnyClass,
    selector: Sel,
) -> Invocation {
    Invocation { retain_result: true, ..Invocation::plain_super(receiver, class, selector) }
}

fn magic_retaining_trampoline(ptr: usize, selector: Sel, pool: &ActiveAutoreleasePool) -> (message:
    Invocation)
    ensures
        message == retaining_trampoline(ptr, selector),
{
    Invocation { retain_result: true, ..Invocation::invoke(ptr, selector, pool) }
}

fn magic_retaining_trampoline_super(
    ptr: usize,
    selector: Sel,
    pool: &ActiveAutoreleasePool,
    class: AnyClass,
) -> (message: Invocation)
    ensures
        message == retaining_trampoline_super(ptr, class, selector),
{
    Invocation { retain_result: true, ..Invocation::invoke_super(ptr, selector, pool, class) }
}

/// The ways of sending a message to an instance, nil included. Implemented
/// for every `PerformablePointer`.
pub trait PerformsSelector {
    /// A message that returns `return_size` bytes by value.
    fn perform_primitive(
        receiver: usize,
        selector: Sel,
        pool: &ActiveAutoreleasePool,
        arch: Architecture,
        return_size: usize,
    ) -> (message: Invocation)
        ensures
            message == (Invocation {
                entry: entry_for(arch, return_size, false),
                ..Invocation::plain(receiver, selector)
            }),
    ;

    /// A message that returns an object. By the method's convention the
    /// caller makes a cell of what comes back.
    fn perform(receiver: usize, selector: Sel, pool: &ActiveAutoreleasePool) -> (message: Invocation)
        ensures
            message == Invocation::plain(receiver, selector),
    ;

    /// A message that returns an object, or nil and an autoreleased error.
    fn perform_result(receiver: usize, selector: Sel, pool: &ActiveAutoreleasePool) -> (message:
        Invocation)
        ensures
            message == (Invocation { trailing_error: true, ..Invocation::plain(receiver, selector) }),
    ;

    /// A message that returns `YES`, or `NO` and an autoreleased error.
    fn perform_bool_result(receiver: usize, selector: Sel, pool: &ActiveAutoreleasePool) -> (message:
        Invocation)
        ensures
            message == (Invocation { trailing_error: true, ..Invocation::plain(receiver, selector) }),
    ;

    /// A message that returns an autoreleased object, for a caller that
    /// wants a retain unit on it.
    fn perform_autorelease_to_retain(
        receiver: usize,
        selector: Sel,
        pool: &ActiveAutoreleasePool,
    ) -> (message: Invocation)
        ensures
            message == retaining_trampoline(receiver, selector),
    ;

    /// A message that returns an autoreleased object, or nil and an
    /// autoreleased error, for a caller that wants a retain unit on the
    /// object.
    fn perform_result_autorelease_to_retain(
        receiver: usize,
        selector: Sel,
        pool: &ActiveAutoreleasePool,
    ) -> (message: Invocation)
        ensures
            message == (Invocation {
                trailing_error: true,
                ..retaining_trampoline(receiver, selector)
            }),
    ;
}

impl<T: PerformablePointer> PerformsSelector for T {
    fn perform_primitive(
        receiver: usize,
        selector: Sel,
        pool: &ActiveAutoreleasePool,
        arch: Architecture,
        return_size: usize,
    ) -> (message: Invocation) {
        Invocation::invoke_primitive(arch, return_size, receiver, selector, pool)
    }

    fn perform(receiver: usize, selector: Sel, pool: &ActiveAutoreleasePool) -> (message:
        Invocation) {
        Invocation::invoke(receiver, selector, pool)
    }

    fn perform_result(receiver: usize, selector: Sel, pool: &ActiveAutoreleasePool) -> (message:
        Invocation) {
        Invocation::invoke_error(receiver, selector, pool)
    }

    fn perform_bool_result(receiver: usize, selector: Sel, pool: &ActiveAutoreleasePool) -> (message:
        Invocation) {
        Invocation::invoke_error_bool(receiver, selector, pool)
    }

    fn perform_autorelease_to_retain(
        receiver: usize,
        selector: Sel,
        pool: &ActiveAutoreleasePool,
    ) -> (message: Invocation) {
        magic_retaining_trampoline(receiver, selector, pool)
    }

    fn perform_result_autorelease_to_retain(
        receiver: usize,
        selector: Sel,
        pool: &ActiveAutoreleasePool,
    ) -> (message: Invocation) {
        Invocation::invoke_error_trampoline_strong(receiver, selector, pool)
    }
}

/// The ways of sending a message that starts at the superclass.
/// Implemented for every `PerformableSuper`.
pub trait PerformsSelectorSuper: PerformableSuper {
    /// A message that returns `return_size` bytes by value.
    fn perform_super_primitive(
        receiver: usize,
        selector: Sel,
        pool: &ActiveAutoreleasePool,
        arch: Architecture,
        return_size: usize,
    ) -> (message: Invocation)
        ensures
            message == (Invocation {
                entry: entry_for(arch, return_size, true),
                ..Invocation::plain_super(receiver, Self::class_of_instances(), selector)
            }),
    ;

    /// A message that returns an object.
    fn perform_super(receiver: usize, selector: Sel, pool: &ActiveAutoreleasePool) -> (message:
        Invocation)
        ensures
            message == Invocation::plain_super(receiver, Self::class_of_instances(), selector),
    ;

    /// A message that returns an object, or nil and an autoreleased error.
    fn perform_super_result(receiver: usize, selector: Sel, pool: &ActiveAutoreleasePool) -> (message:
        Invocation)
        ensures
            message == (Invocation {
                trailing_error: true,
                ..Invocation::plain_super(receiver, Self::class_of_instances(), selector)
            }),
    ;

    /// A message that returns an autoreleased object, for a caller that
    /// wants a retain unit on it.
    fn perform_super_autorelease_to_retain(
        receiver: usize,
        selector: Sel,
        pool: &ActiveAutoreleasePool,
    ) -> (message: Invocation)
        ensures
            message == retaining_trampoline_super(receiver, Self::class_of_instances(), selector),
    ;

    /// A message that returns an autoreleased object, or nil and an
    /// autoreleased error, for a caller that wants a retain unit on the
    /// object.
    fn perform_super_result_autorelease_to_retain(
        receiver: usize,
        selector: Sel,
        pool: &ActiveAutoreleasePool,
    ) -> (message: Invocation)
        ensures
            message == (Invocation {
                trailing_error: true,
                ..retaining_trampoline_super(receiver, Self::class_of_instances(), selector)
            }),
    ;
}

impl<T: PerformableSuper> PerformsSelectorSuper for T {
    fn perform_super_primitive(
        receiver: usize,
        selector: Sel,
        pool: &ActiveAutoreleasePool,
        arch: Architecture,
        return_size: usize,
    ) -> (message: Invocation) {
        Invocation::invoke_primitive_super(
            arch,
            return_size,
            receiver,
            selector,
            pool,
            Self::any_class(),
        )
    }

    fn perform_super(receiver: usize, selector: Sel, pool: &ActiveAutoreleasePool) -> (message:
        Invocation) {
        Invocation::invoke_super(receiver, selector, pool, Self::any_class())
    }

    fn perform_super_result(receiver: usize, selector: Sel, pool: &ActiveAutoreleasePool) -> (message:
        Invocation) {
        Invocation::invoke_error_trampoline_super(receiver, selector, pool, Self::any_class())
    }

    fn perform_super_autorelease_to_retain(
        receiver: usize,
        selector: Sel,
        pool: &ActiveAutoreleasePool,
    ) -> (message: Invocation) {
        magic_retaining_trampoline_super(receiver, selector, pool, Self::any_class())
    }

    fn perform_super_result_autorelease_to_retain(
        receiver: usize,
        selector: Sel,
        pool: &ActiveAutoreleasePool,
    ) -> (message: Invocation) {
        Invocation::invoke_error_trampoline_strong_super(
            receiver,
            selector,
            pool,
            Self::any_class(),
        )
    }
}

} // verus!
