//! Autorelease pools: the token that stands for a pool being active, and
//! the record of a pool that was pushed and has to be popped.

use vstd::prelude::*;
use crate::runtime::RuntimeCall;

verus! {

/// Evidence that an autorelease pool is active on the current thread.
///
/// Operations that may autorelease an object take a borrow of this token.
/// There are two ways to get one: from an `AutoreleasePool`, for as long as
/// that pool is not popped, and from `assume_autoreleasepool`.
#[derive(Debug)]
pub struct ActiveAutoreleasePool {
    _private: (),
}

impl ActiveAutoreleasePool {
    /// Makes the token without a pool at hand. The caller vouches that a pool
    /// is active further up the call stack, as it is inside a callback that
    /// the runtime itself invokes.
    pub fn assume_autoreleasepool() -> ActiveAutoreleasePool {
        ActiveAutoreleasePool { _private: () }
    }
}

/// A pool that has been pushed. It lends out the `ActiveAutoreleasePool`
/// token, and is given up by `pop`, which yields the call that pops it.
///
/// Pools are popped in the reverse order of their pushes.
#[derive(Debug)]
pub struct AutoreleasePool {
    ptr: usize,
    pool: ActiveAutoreleasePool,
}

impl View for AutoreleasePool {
    type V = usize;

    /// The token that the runtime returned for the push.
    closed spec fn view(&self) -> usize {
        self.ptr
    }
}

impl AutoreleasePool {
    /// The call that opens a pool. Its result goes to `new`.
    pub fn push() -> (call: RuntimeCall)
        ensures
            call == RuntimeCall::PoolPush,
    {
        RuntimeCall::PoolPush
    }

    /// Records the pool that a push has opened; `token` is what the push
    /// returned.
    pub fn new(token: usize) -> (pool: Self)
        ensures
            pool@ == token,
    {
        AutoreleasePool { ptr: token, pool: ActiveAutoreleasePool::assume_autoreleasepool() }
    }

    /// The token for this pool being active. The borrow ends before the pool
    /// can be popped.
    pub fn deref(&self) -> &ActiveAutoreleasePool {
        &self.pool
    }

    /// Gives the pool up. The result is the call that pops it, with the
    /// token of its push.
    pub fn pop(self) -> (call: RuntimeCall)
        ensures
            call == RuntimeCall::PoolPop(self@),
    {
        RuntimeCall::PoolPop(self.ptr)
    }
}

} // verus!
