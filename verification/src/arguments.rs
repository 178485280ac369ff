//! Message sends: what may be passed and returned, which entry point a
//! send takes, and how the outcome of a send with a trailing error slot is
//! read.

use vstd::prelude::*;
use crate::autorelease::ActiveAutoreleasePool;
use crate::class::AnyClass;
use crate::nserror::NSError;
use crate::objcinstance::{NonNullImmutable, ObjcInstance};
use crate::objectpointers::AutoreleasedCell;
use crate::runtime::RuntimeCall;
use crate::sel::Sel;

verus! {

/// Types that may be passed as an argument of a message. Such a type has
/// the layout that the C calling convention expects.
pub trait Arguable {
}

/// Types that may be returned by value from a message.
pub trait Primitive: Sized {
}

impl<'a, O: Arguable> Arguable for &'a mut O {
}

impl Primitive for bool {
}

impl Arguable for bool {
}

impl Primitive for () {
}

impl Arguable for () {
}

impl Primitive for usize {
}

impl Arguable for usize {
}

impl Primitive for u64 {
}

impl Arguable for u64 {
}

impl Primitive for u32 {
}

impl Arguable for u32 {
}

impl Primitive for u16 {
}

impl Arguable for u16 {
}

impl Primitive for u8 {
}

impl Arguable for u8 {
}

impl Arguable for i64 {
}

impl Primitive for i64 {
}

impl Arguable for i32 {
}

impl Primitive for i32 {
}

impl Arguable for i16 {
}

impl Primitive for i16 {
}

impl Arguable for i8 {
}

impl Primitive for i8 {
}

/// The processor architectures that differ in how a message returns a
/// value.
#[derive(Debug, Clone, Copy, PartialEq, Eq, Structural)]
pub enum Architecture {
    /// x86-64, where a value of more than 16 bytes is returned through
    /// memory that the caller provides, by an entry point of its own.
    X86_64,
    /// Any other architecture, where one entry point serves every return
    /// type.
    Other,
}

/// The runtime's entry points for sending a message.
#[derive(Debug, Clone, Copy, PartialEq, Eq, Structural)]
pub enum EntryPoint {
    /// `objc_msgSend`.
    MsgSend,
    /// `objc_msgSend_stret`.
    MsgSendStret,
    /// `objc_msgSendSuper2`.
    MsgSendSuper2,
    /// `objc_msgSendSuper2_stret`.
    MsgSendSuper2Stret,
}

/// The largest return value, in bytes, that x86-64 returns in registers.
pub const REGISTER_RETURN_LIMIT: usize = 16;

/// Whether a value of `return_size` bytes is returned through memory.
pub open spec fn returned_through_memory(arch: Architecture, return_size: usize) -> bool {
    arch == Architecture::X86_64 && return_size > REGISTER_RETURN_LIMIT
}

/// The entry point for a message that returns `return_size` bytes by value,
/// sent to the receiver's own class or, where `to_super` holds, to its
/// superclass.
pub open spec fn entry_for(arch: Architecture, return_size: usize, to_super: bool) -> EntryPoint {
    if returned_through_memory(arch, return_size) {
        if to_super {
            EntryPoint::MsgSendSuper2Stret
        } else {
            EntryPoint::MsgSendStret
        }
    } else {
        if to_super {
            EntryPoint::MsgSendSuper2
        } else {
            EntryPoint::MsgSend
        }
    }
}

/// Picks the entry point for a message that returns `return_size` bytes by
/// value.
pub fn select_entry(arch: Architecture, return_size: usize, to_super: bool) -> (entry: EntryPoint)
    ensures
        entry == entry_for(arch, return_size, to_super),
{
    let through_memory = match arch {
        Architecture::X86_64 => return_size > REGISTER_RETURN_LIMIT,
        Architecture::Other => false,
    };
    if through_memory {
        if to_super {
            EntryPoint::MsgSendSuper2Stret
        } else {
            EntryPoint::MsgSendStret
        }
    } else {
        if to_super {
            EntryPoint::MsgSendSuper2
        } else {
            EntryPoint::MsgSend
        }
    }
}

/// What a message to the superclass is sent to in place of the receiver:
/// the receiver together with a class. The entry points for such messages
/// look the method up above `class`, so `class` is the receiver's own class,
/// not the class where the search is meant to begin.
#[derive(Debug, Clone, Copy, PartialEq, Eq, Structural)]
pub struct ObjcSuper {
    pub receiver: usize,
    pub class: AnyClass,
}

/// The first argument of a message send.
#[derive(Debug, Clone, Copy, PartialEq, Eq, Structural)]
pub enum Receiver {
    /// The object that receives the message.
    Object(usize),
    /// The record for a message to the superclass.
    Super(ObjcSuper),
}

/// A message send that the embedder is to make: which entry point to call
/// and what to pass before the message's own arguments.
#[derive(Debug, Clone, Copy)]
pub struct Invocation {
    /// The entry point to call.
    pub entry: EntryPoint,
    /// The first argument.
    pub receiver: Receiver,
    /// The second argument.
    pub selector: Sel,
    /// Whether a slot for an error object, holding nil, is passed by
    /// reference after the message's own arguments.
    pub trailing_error: bool,
    /// Whether the returned object is to be retained by
    /// `objc_retainAutoreleasedReturnValue` as soon as the call returns.
    pub retain_result: bool,
}

impl Invocation {
    /// The ordinary send of `selector` to `receiver`: `objc_msgSend`, nothing
    /// added, nothing retained.
    pub open spec fn plain(receiver: usize, selector: Sel) -> Invocation {
        Invocation {
            entry: EntryPoint::MsgSend,
            receiver: Receiver::Object(receiver),
            selector,
            trailing_error: false,
            retain_result: false,
        }
    }

    /// The ordinary send of `selector` to the superclass of `receiver`, which
    /// is an instance of `class`: `objc_msgSendSuper2`, nothing added, nothing
    /// retained.
    pub open spec fn plain_super(receiver: usize, class: AnyClass, selector: Sel) -> Invocation {
        Invocation {
            entry: EntryPoint::MsgSendSuper2,
            receiver: Receiver::Super(ObjcSuper { receiver, class }),
            selector,
            trailing_error: false,
            retain_result: false,
        }
    }

    /// A message that returns `return_size` bytes by value.
    pub fn invoke_primitive(
        arch: Architecture,
        return_size: usize,
        receiver: usize,
        sel: Sel,
        _pool: &ActiveAutoreleasePool,
    ) -> (message: Invocation)
        ensures
            message == (Invocation {
                entry: entry_for(arch, return_size, false),
                ..Invocation::plain(receiver, sel)
            }),
    {
        Invocation {
            entry: select_entry(arch, return_size, false),
            receiver: Receiver::Object(receiver),
            selector: sel,
            trailing_error: false,
            retain_result: false,
        }
    }

    /// A message to the superclass that returns `return_size` bytes by value.
    pub fn invoke_primitive_super(
        arch: Architecture,
        return_size: usize,
        obj: usize,
        sel: Sel,
        _pool: &ActiveAutoreleasePool,
        class: AnyClass,
    ) -> (message: Invocation)
        ensures
            message == (Invocation {
                entry: entry_for(arch, return_size, true),
                ..Invocation::plain_super(obj, class, sel)
            }),
    {
        Invocation {
            entry: select_entry(arch, return_size, true),
            receiver: Receiver::Super(ObjcSuper { receiver: obj, class }),
            selector: sel,
            trailing_error: false,
            retain_result: false,
        }
    }

    /// A message that returns an object.
    pub fn invoke(receiver: usize, sel: Sel, _pool: &ActiveAutoreleasePool) -> (message: Invocation)
        ensures
            message == Invocation::plain(receiver, sel),
    {
        Invocation {
            entry: EntryPoint::MsgSend,
            receiver: Receiver::Object(receiver),
            selector: sel,
            trailing_error: false,
            retain_result: false,
        }
    }

    /// A message to the superclass that returns an object.
    pub fn invoke_super(
        receiver: usize,
        sel: Sel,
        _pool: &ActiveAutoreleasePool,
        class: AnyClass,
    ) -> (message: Invocation)
        ensures
            message == Invocation::plain_super(receiver, class, sel),
    {
        Invocation {
            entry: EntryPoint::MsgSendSuper2,
            receiver: Receiver::Super(ObjcSuper { receiver, class }),
            selector: sel,
            trailing_error: false,
            retain_result: false,
        }
    }

    /// A message that returns an object, or nil and an error in the trailing
    /// slot. What comes back is read by `object_result`.
    pub fn invoke_error(receiver: usize, sel: Sel, pool: &ActiveAutoreleasePool) -> (message:
        Invocation)
        ensures
            message == (Invocation { trailing_error: true, ..Invocation::plain(receiver, sel) }),
    {
        Invocation { trailing_error: true, ..Invocation::invoke(receiver, sel, pool) }
    }

    /// A message that returns `YES`, or `NO` and an error in the trailing
    /// slot. What comes back is read by `bool_result`.
    pub fn invoke_error_bool(receiver: usize, sel: Sel, pool: &ActiveAutoreleasePool) -> (message:
        Invocation)
        ensures
            message == (Invocation { trailing_error: true, ..Invocation::plain(receiver, sel) }),
    {
        Invocation { trailing_error: true, ..Invocation::invoke(receiver, sel, pool) }
    }

    /// As `invoke_error`, for a method that returns its object autoreleased
    /// while the caller wants a retain unit: the result is retained as soon
    /// as the call returns, nil or not. What comes back is read by
    /// `object_result`.
    pub fn invoke_error_trampoline_strong(
        obj: usize,
        sel: Sel,
        pool: &ActiveAutoreleasePool,
    ) -> (message: Invocation)
        ensures
            message == (Invocation {
                trailing_error: true,
                retain_result: true,
                ..Invocation::plain(obj, sel)
            }),
    {
        Invocation {
            trailing_error: true,
            retain_result: true,
            ..Invocation::invoke(obj, sel, pool)
        }
    }

    /// As `invoke_error_trampoline_strong`, sent to the superclass.
    pub fn invoke_error_trampoline_strong_super(
        obj: usize,
        sel: Sel,
        pool: &ActiveAutoreleasePool,
        class: AnyClass,
    ) -> (message: Invocation)
        ensures
            message == (Invocation {
                trailing_error: true,
                retain_result: true,
                ..Invocation::plain_super(obj, class, sel)
            }),
    {
        Invocation {
            trailing_error: true,
            retain_result: true,
            ..Invocation::invoke_super(obj, sel, pool, class)
        }
    }

    /// As `invoke_error`, sent to the superclass. Nothing is retained.
    pub fn invoke_error_trampoline_super(
        receiver: usize,
        sel: Sel,
        pool: &ActiveAutoreleasePool,
        class: AnyClass,
    ) -> (message: Invocation)
        ensures
            message == (Invocation {
                trailing_error: true,
                ..Invocation::plain_super(receiver, class, sel)
            }),
    {
        Invocation { trailing_error: true, ..Invocation::invoke_super(receiver, sel, pool, class) }
    }

    /// The call to make on the object that this message has returned, before
    /// anything else is done with it: the retain of an autoreleased return
    /// value where the message asks for it, for nil as for any object.
    pub fn returned(&self, primary: usize) -> (call: Option<RuntimeCall>)
        ensures
            call == if self.retain_result {
                Some(RuntimeCall::RetainAutoreleasedReturnValue(primary))
            } else {
                None
            },
    {
        if self.retain_result {
            Some(RuntimeCall::RetainAutoreleasedReturnValue(primary))
        } else {
            None
        }
    }
}

/// Reads what a message with a trailing error slot has returned, where the
/// method returns an object. An object is the result. Nil means failure:
/// the error slot is read and the error in it, which is autoreleased by
/// convention, is the result; the caller vouches that the method has filled
/// the slot.
pub fn object_result<'a>(primary: usize, error: usize, pool: &'a ActiveAutoreleasePool) -> (result:
    Result<usize, AutoreleasedCell<'a, NSError>>)
    requires
        primary == 0 ==> error != 0,
    ensures
        primary != 0 ==> result == Ok::<usize, AutoreleasedCell<'a, NSError>>(primary),
        primary == 0 ==> result is Err && result->Err_0@ == error,
{
    if primary != 0 {
        Ok(primary)
    } else {
        Err(NonNullImmutable::assume_nonnil(error).assume_autoreleased(pool))
    }
}

/// Reads what a message with a trailing error slot has returned, where the
/// method returns a `BOOL`. `YES` is success, and the error slot is not
/// looked at. `NO` is failure: the error in the slot is the result; the
/// caller vouches that the method has filled the slot.
pub fn bool_result<'a>(primary: bool, error: usize, pool: &'a ActiveAutoreleasePool) -> (result:
    Result<(), AutoreleasedCell<'a, NSError>>)
    requires
        !primary ==> error != 0,
    ensures
        primary ==> result is Ok,
        !primary ==> result is Err && result->Err_0@ == error,
{
    if primary {
        Ok(())
    } else {
        Err(NonNullImmutable::assume_nonnil(error).assume_autoreleased(pool))
    }
}

/// Turning a handle that was got for reading into a receiver. This is for
/// methods that do not change the object they are sent to.
pub trait ArguableBehavior: Sized {
    type Target;

    /// The address that the handle holds, or nil where there is none.
    spec fn address(&self) -> usize;

    /// The address that a receiver holds.
    spec fn receiver_address(target: Self::Target) -> usize;

    /// The receiver for a message that does not mutate: the same address.
    fn assume_nonmut_perform(self) -> (target: Self::Target)
        ensures
            Self::receiver_address(target) == self.address(),
    ;
}

impl<'a, A: ObjcInstance> ArguableBehavior for &'a NonNullImmutable<A> {
    type Target = usize;

    open spec fn address(&self) -> usize {
        (*self)@
    }

    open spec fn receiver_address(target: usize) -> usize {
        target
    }

    fn assume_nonmut_perform(self) -> (target: usize)
        ensures
            target != 0,
    {
        self.as_ptr()
    }
}

impl<'a, A: ObjcInstance> ArguableBehavior for Option<&'a NonNullImmutable<A>> {
    type Target = usize;

    open spec fn address(&self) -> usize {
        match self {
            Some(handle) => handle@,
            None => 0,
        }
    }

    open spec fn receiver_address(target: usize) -> usize {
        target
    }

    fn assume_nonmut_perform(self) -> (target: usize)
        ensures
            target == 0 <==> self is None,
    {
        match self {
            Some(handle) => handle.as_ptr(),
            None => 0,
        }
    }
}

/// The choice of entry point turns exactly at the limit: on x86-64 a value
/// of 16 bytes still comes back in registers and one of 17 bytes goes
/// through memory, for every size on either side alike; elsewhere no size
/// goes through memory.
pub proof fn law_struct_return_boundary(return_size: usize, to_super: bool)
    ensures
        returned_through_memory(Architecture::X86_64, return_size) <==> return_size >= 17,
        !returned_through_memory(Architecture::Other, return_size),
        entry_for(Architecture::X86_64, 16, false) == EntryPoint::MsgSend,
        entry_for(Architecture::X86_64, 17, false) == EntryPoint::MsgSendStret,
        entry_for(Architecture::X86_64, 16, true) == EntryPoint::MsgSendSuper2,
        entry_for(Architecture::X86_64, 17, true) == EntryPoint::MsgSendSuper2Stret,
        entry_for(Architecture::Other, return_size, false) == EntryPoint::MsgSend,
        entry_for(Architecture::Other, return_size, true) == EntryPoint::MsgSendSuper2,
{
}

} // verus!
