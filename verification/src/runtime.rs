//! The calls that the library asks its embedder to make into the Objective-C
//! runtime, and the reference-counting model that says what those calls are
//! taken to do.
//!
//! The library itself never calls the runtime. Where one of its operations
//! goes with a runtime call, the operation returns that call as a
//! `RuntimeCall`, and the embedder makes it before going on.

use vstd::prelude::*;
use vstd::multiset::Multiset;

verus! {

/// One call into the runtime's memory management. Each variant carries the
/// handle that is passed to the runtime.
#[derive(Debug, Clone, Copy, PartialEq, Eq, Structural)]
pub enum RuntimeCall {
    /// `objc_retain`: take one more retain unit on the object.
    Retain(usize),
    /// `objc_release`: give one retain unit back.
    Release(usize),
    /// `objc_autorelease`: hand one retain unit to the innermost pool, which
    /// gives it back when it is popped.
    Autorelease(usize),
    /// `objc_autoreleaseReturnValue`: as `Autorelease`, for a value that is
    /// about to be returned to an Objective-C caller.
    AutoreleaseReturnValue(usize),
    /// `objc_retainAutoreleasedReturnValue`: as `Retain`, for a value that a
    /// callee has just returned autoreleased.
    RetainAutoreleasedReturnValue(usize),
    /// `objc_autoreleasePoolPush`: open a new innermost pool.
    PoolPush,
    /// `objc_autoreleasePoolPop`: close the innermost pool; the value is the
    /// token that the matching push returned.
    PoolPop(usize),
}

/// The state of the runtime's memory management on one thread, as far as the
/// calls above can change it.
pub struct Runtime {
    /// The retain units outstanding on each handle. An object lives while it
    /// has at least one.
    pub retains: Map<usize, int>,
    /// The pools that are open, innermost last. Each holds the handles that
    /// were autoreleased into it, once per unit that it owes.
    pub pools: Seq<Multiset<usize>>,
}

impl Runtime {
    /// The number of pools that are open. Zero is the state without an
    /// active pool.
    pub open spec fn depth(self) -> nat {
        self.pools.len()
    }

    /// The retain units outstanding on `handle`.
    pub open spec fn count(self, handle: usize) -> int {
        if self.retains.dom().contains(handle) {
            self.retains[handle]
        } else {
            0
        }
    }

    /// Whether the object behind `handle` is still allocated.
    pub open spec fn alive(self, handle: usize) -> bool {
        self.count(handle) > 0
    }

    /// The units on `handle` that the innermost pool will give back.
    pub open spec fn owed(self, handle: usize) -> nat {
        if self.pools.len() == 0 {
            0
        } else {
            self.pools.last().count(handle)
        }
    }

    /// The state after `handle` has gained `by` units (lost, where `by` is
    /// negative). The nil handle has no count.
    pub open spec fn adjusted(self, handle: usize, by: int) -> Runtime {
        if handle == 0 {
            self
        } else {
            Runtime { retains: self.retains.insert(handle, self.count(handle) + by), ..self }
        }
    }

    /// The state after one unit on `handle` has been handed to the innermost
    /// pool. Without a pool the unit is never given back, and nothing changes.
    pub open spec fn deferred(self, handle: usize) -> Runtime {
        if handle == 0 || self.pools.len() == 0 {
            self
        } else {
            Runtime {
                pools: self.pools.update(
                    self.pools.len() - 1,
                    self.pools.last().insert(handle),
                ),
                ..self
            }
        }
    }

    /// The state after a new innermost pool has been opened.
    pub open spec fn pushed(self) -> Runtime {
        Runtime { pools: self.pools.push(Multiset::empty()), ..self }
    }

    /// The state after the innermost pool has been closed: every handle
    /// loses the units that the pool owed on it. Without a pool nothing
    /// changes.
    pub open spec fn popped(self) -> Runtime {
        if self.pools.len() == 0 {
            self
        } else {
            let innermost = self.pools.last();
            Runtime {
                retains: Map::new(
                    |h: usize| self.retains.dom().contains(h) || innermost.count(h) > 0,
                    |h: usize| self.count(h) - innermost.count(h),
                ),
                pools: self.pools.drop_last(),
            }
        }
    }

    /// The state after one call.
    pub open spec fn after(self, call: RuntimeCall) -> Runtime {
        match call {
            RuntimeCall::Retain(handle) => self.adjusted(handle, 1),
            RuntimeCall::Release(handle) => self.adjusted(handle, -1),
            RuntimeCall::Autorelease(handle) => self.deferred(handle),
            RuntimeCall::AutoreleaseReturnValue(handle) => self.deferred(handle),
            RuntimeCall::RetainAutoreleasedReturnValue(handle) => self.adjusted(handle, 1),
            RuntimeCall::PoolPush => self.pushed(),
            RuntimeCall::PoolPop(token) => self.popped(),
        }
    }

    /// The state after a run of calls, made in order.
    pub open spec fn after_all(self, calls: Seq<RuntimeCall>) -> Runtime
        decreases calls.len(),
    {
        if calls.len() == 0 {
            self
        } else {
            self.after_all(calls.drop_last()).after(calls.last())
        }
    }
}

impl Runtime {
    /// Whether two states have the same pools and the same count on every
    /// handle.
    pub open spec fn same_as(self, other: Runtime) -> bool {
        &&& self.pools == other.pools
        &&& forall|handle: usize| self.count(handle) == other.count(handle)
    }

    /// Whether more than `level` pools are open before `calls`, after them,
    /// and after every one of them.
    pub open spec fn stays_above(self, calls: Seq<RuntimeCall>, level: nat) -> bool
        decreases calls.len(),
    {
        if calls.len() == 0 {
            self.depth() > level
        } else {
            self.stays_above(calls.drop_last(), level) && self.after_all(calls).depth() > level
        }
    }
}

/// The pool states of the runtime are no pool active, which is depth zero,
/// and a pool active at some depth. A push goes one deeper from any state;
/// a pop comes back by one from any depth above zero.
pub proof fn law_push_and_pop_move_by_one(rt: Runtime, token: usize)
    ensures
        rt.after(RuntimeCall::PoolPush).depth() == rt.depth() + 1,
        rt.depth() > 0 ==> rt.after(RuntimeCall::PoolPop(token)).depth() == rt.depth() - 1,
        rt.after(RuntimeCall::PoolPush).after(RuntimeCall::PoolPop(token)).same_as(rt),
{
    let pushed = rt.after(RuntimeCall::PoolPush);
    let back = pushed.after(RuntimeCall::PoolPop(token));
    assert(pushed.pools.drop_last() =~= rt.pools);
    assert(pushed.pools.last() =~= Multiset::<usize>::empty());
    assert(back.pools == rt.pools);
}

/// A pop gives back on every handle exactly the units that the innermost
/// pool owed on it.
pub proof fn law_pop_pays_what_the_pool_owes(rt: Runtime, token: usize, handle: usize)
    requires
        rt.depth() > 0,
    ensures
        rt.after(RuntimeCall::PoolPop(token)).count(handle) == rt.count(handle) - rt.owed(handle),
{
}

/// Taking a retain unit and giving it back leaves every count as it was:
/// one increment, one decrement.
pub proof fn law_retain_then_release(rt: Runtime, handle: usize)
    ensures
        rt.after(RuntimeCall::Retain(handle)).count(handle) == rt.count(handle) + if handle == 0 {
            0int
        } else {
            1int
        },
        rt.after(RuntimeCall::Retain(handle)).after(RuntimeCall::Release(handle)).same_as(rt),
{
}

/// A retain unit that is handed to the active pool is given back when that
/// pool is popped: after the pop, nothing is outstanding that would not be
/// without the retain and the autorelease.
pub proof fn law_autoreleased_unit_is_paid_at_the_pop(rt: Runtime, handle: usize, token: usize)
    requires
        rt.depth() > 0,
    ensures
        rt.after(RuntimeCall::Retain(handle)).after(RuntimeCall::Autorelease(handle)).after(
            RuntimeCall::PoolPop(token),
        ).same_as(rt.after(RuntimeCall::PoolPop(token))),
{
    let held = rt.after(RuntimeCall::Retain(handle));
    let handed = held.after(RuntimeCall::Autorelease(handle));
    let done = handed.after(RuntimeCall::PoolPop(token));
    let plain = rt.after(RuntimeCall::PoolPop(token));
    assert(handed.pools.drop_last() =~= rt.pools.drop_last());
    assert(done.pools == plain.pools);
    assert forall|h: usize| done.count(h) == plain.count(h) by {
        if handle != 0 {
            assert(handed.pools.last() == rt.pools.last().insert(handle));
        }
    }
}

/// An object that lives on nothing but what the innermost pool owes on it
/// does not outlive the pop of that pool.
pub proof fn law_autoreleased_object_ends_with_its_pool(rt: Runtime, handle: usize, token: usize)
    requires
        rt.depth() > 0,
        rt.count(handle) == rt.owed(handle),
    ensures
        !rt.after(RuntimeCall::PoolPop(token)).alive(handle),
{
}

/// An object on which a retain unit is taken before the pop is alive after
/// the pop, provided the pool owed no more on it than was there.
pub proof fn law_retained_object_survives_the_pop(rt: Runtime, handle: usize, token: usize)
    requires
        handle != 0,
        rt.count(handle) >= rt.owed(handle),
    ensures
        rt.after(RuntimeCall::Retain(handle)).after(RuntimeCall::PoolPop(token)).alive(handle),
{
    let held = rt.after(RuntimeCall::Retain(handle));
    assert(held.pools == rt.pools);
    assert(held.count(handle) == rt.count(handle) + 1);
}

/// One call changes no pool but the innermost.
pub proof fn law_one_call_touches_the_innermost_pool_only(
    rt: Runtime,
    call: RuntimeCall,
    outer: int,
)
    requires
        0 <= outer,
        outer + 1 < rt.depth(),
    ensures
        outer < rt.after(call).depth(),
        rt.after(call).pools[outer] == rt.pools[outer],
{
}

/// Whatever is pushed, popped, retained, released and autoreleased while
/// more than `level` pools stay open, the `level` outermost pools owe
/// afterwards what they owed before: what was autoreleased into a pool waits
/// for the pop of that pool, and for no other.
pub proof fn law_outer_pools_wait_for_their_own_pop(
    rt: Runtime,
    calls: Seq<RuntimeCall>,
    level: nat,
)
    requires
        rt.stays_above(calls, level),
    ensures
        rt.after_all(calls).depth() > level,
        forall|outer: int| 0 <= outer < level ==> rt.after_all(calls).pools[outer] == rt.pools[outer],
    decreases calls.len(),
{
    if calls.len() > 0 {
        law_outer_pools_wait_for_their_own_pop(rt, calls.drop_last(), level);
        let before = rt.after_all(calls.drop_last());
        assert forall|outer: int| 0 <= outer < level implies rt.after_all(calls).pools[outer]
            == rt.pools[outer] by {
            law_one_call_touches_the_innermost_pool_only(before, calls.last(), outer);
        }
    }
}

} // verus!
