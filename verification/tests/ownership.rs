use std::collections::HashMap;

use objr::arguments::Arguable;
use objr::autorelease::{ActiveAutoreleasePool, AutoreleasePool};
use objr::objcinstance::{
    NonNullImmutable, NullableBehavior, NullableCellBehavior, ObjcInstance, ObjcInstanceBehavior,
    OptionalInstanceBehavior,
};
use objr::objectpointers::{
    AutoreleasedCell, AutoreleasedMutCell, StrongCell, StrongLifetimeCell, StrongMutCell,
};
use objr::runtime::RuntimeCall;

struct Widget;
impl Arguable for Widget {}
impl ObjcInstance for Widget {}

struct Gadget;
impl Arguable for Gadget {}
impl ObjcInstance for Gadget {}

/// A stand-in for the runtime's bookkeeping: retain counts and a stack of pools.
struct Ledger {
    retains: HashMap<usize, i64>,
    pools: Vec<Vec<usize>>,
    next_token: usize,
}

impl Ledger {
    fn new() -> Ledger {
        Ledger { retains: HashMap::new(), pools: Vec::new(), next_token: 100 }
    }

    fn count(&self, handle: usize) -> i64 {
        *self.retains.get(&handle).unwrap_or(&0)
    }

    fn alive(&self, handle: usize) -> bool {
        self.count(handle) > 0
    }

    fn perform(&mut self, call: RuntimeCall) -> usize {
        match call {
            RuntimeCall::Retain(h) | RuntimeCall::RetainAutoreleasedReturnValue(h) => {
                if h != 0 {
                    *self.retains.entry(h).or_insert(0) += 1;
                }
                h
            }
            RuntimeCall::Release(h) => {
                if h != 0 {
                    *self.retains.entry(h).or_insert(0) -= 1;
                }
                0
            }
            RuntimeCall::Autorelease(h) | RuntimeCall::AutoreleaseReturnValue(h) => {
                if h != 0 {
                    if let Some(pool) = self.pools.last_mut() {
                        pool.push(h);
                    }
                }
                h
            }
            RuntimeCall::PoolPush => {
                self.pools.push(Vec::new());
                self.next_token += 1;
                self.next_token
            }
            RuntimeCall::PoolPop(_) => {
                if let Some(pool) = self.pools.pop() {
                    for h in pool {
                        *self.retains.entry(h).or_insert(0) -= 1;
                    }
                }
                0
            }
        }
    }
}

fn handle(address: usize) -> NonNullImmutable<Widget> {
    NonNullImmutable::assume_nonnil(address)
}

#[test]
fn retaining_emits_one_retain_and_release_one_release() {
    let (cell, call) = StrongCell::retaining(&handle(0x10));
    assert_eq!(call, RuntimeCall::Retain(0x10));
    assert_eq!(cell.deref().as_ptr(), 0x10);
    assert_eq!(cell.release(), RuntimeCall::Release(0x10));
}

#[test]
fn retain_then_drop_nets_zero() {
    let mut ledger = Ledger::new();
    ledger.retains.insert(0x10, 3);
    let (cell, call) = StrongCell::retaining(&handle(0x10));
    ledger.perform(call);
    assert_eq!(ledger.count(0x10), 4);
    ledger.perform(cell.release());
    assert_eq!(ledger.count(0x10), 3);
}

#[test]
fn strong_to_autoreleased_nets_zero_after_the_pop() {
    let mut ledger = Ledger::new();
    let token = ledger.perform(AutoreleasePool::push());
    let pool = AutoreleasePool::new(token);
    let (strong, call) = StrongCell::retaining(&handle(0x20));
    ledger.perform(call);
    assert_eq!(ledger.count(0x20), 1);
    let (autoreleased, call) = StrongCell::autoreleasing(strong, pool.deref());
    assert_eq!(call, RuntimeCall::Autorelease(0x20));
    ledger.perform(call);
    // The unit is still there until the pool goes.
    assert_eq!(ledger.count(0x20), 1);
    assert_eq!(autoreleased.deref().as_ptr(), 0x20);
    let pop = pool.pop();
    assert_eq!(pop, RuntimeCall::PoolPop(token));
    ledger.perform(pop);
    assert_eq!(ledger.count(0x20), 0);
    assert!(ledger.pools.is_empty());
}

#[test]
fn autoreleased_cell_made_strong_survives_the_pop() {
    let mut ledger = Ledger::new();
    let token = ledger.perform(AutoreleasePool::push());
    let pool = AutoreleasePool::new(token);
    // An object that a method has returned autoreleased: one unit, owed by the pool.
    ledger.retains.insert(0x30, 1);
    ledger.pools.last_mut().unwrap().push(0x30);
    let strong = {
        let cell = handle(0x30).assume_autoreleased(pool.deref());
        let (strong, call) = StrongCell::retaining(cell.deref());
        ledger.perform(call);
        strong
    };
    ledger.perform(pool.pop());
    assert!(ledger.alive(0x30));
    assert_eq!(strong.deref().as_ptr(), 0x30);
    ledger.perform(strong.release());
    assert!(!ledger.alive(0x30));
}

#[test]
fn autoreleased_cell_left_alone_ends_with_the_pool() {
    let mut ledger = Ledger::new();
    let token = ledger.perform(AutoreleasePool::push());
    let pool = AutoreleasePool::new(token);
    ledger.retains.insert(0x40, 1);
    ledger.pools.last_mut().unwrap().push(0x40);
    {
        let cell = AutoreleasedCell::assume_autoreleased(&handle(0x40), pool.deref());
        assert_eq!(cell.deref().as_ptr(), 0x40);
    }
    assert!(ledger.alive(0x40));
    ledger.perform(pool.pop());
    assert!(!ledger.alive(0x40));
}

#[test]
fn inner_pool_does_not_release_what_the_outer_pool_holds() {
    let mut ledger = Ledger::new();
    let outer = AutoreleasePool::new(ledger.perform(AutoreleasePool::push()));
    let (strong, call) = StrongCell::retaining(&handle(0x50));
    ledger.perform(call);
    let (_in_outer, call) = StrongCell::autoreleasing(strong, outer.deref());
    ledger.perform(call);
    {
        let inner = AutoreleasePool::new(ledger.perform(AutoreleasePool::push()));
        let (strong, call) = StrongCell::retaining(&handle(0x60));
        ledger.perform(call);
        let (_in_inner, call) = StrongCell::autoreleasing(strong, inner.deref());
        ledger.perform(call);
        ledger.perform(inner.pop());
    }
    assert!(!ledger.alive(0x60));
    assert!(ledger.alive(0x50));
    ledger.perform(outer.pop());
    assert!(!ledger.alive(0x50));
}

#[test]
fn assume_constructors_emit_no_call_and_keep_the_address() {
    let pool = ActiveAutoreleasePool::assume_autoreleasepool();
    assert_eq!(StrongCell::assume_retained(&handle(7)).deref().as_ptr(), 7);
    assert_eq!(StrongLifetimeCell::assume_retained_limited(&handle(8)).deref().as_ptr(), 8);
    assert_eq!(StrongMutCell::assume_retained(handle(9)).deref().as_ptr(), 9);
    assert_eq!(AutoreleasedCell::assume_autoreleased(&handle(10), &pool).deref().as_ptr(), 10);
    assert_eq!(AutoreleasedMutCell::assume_autoreleased(handle(11), &pool).deref().as_ptr(), 11);
    assert_eq!(handle(12).assume_retained().deref().as_ptr(), 12);
    assert_eq!(handle(13).assume_retained_limited().deref().as_ptr(), 13);
    assert_eq!(handle(14).assume_autoreleased(&pool).deref().as_ptr(), 14);
    assert_eq!(NonNullImmutable::from_reference(&handle(15)).as_ptr(), 15);
}

#[test]
fn every_strong_cell_retains_autoreleases_and_releases_its_own_object() {
    let pool = ActiveAutoreleasePool::assume_autoreleasepool();

    let (cell, call) = StrongLifetimeCell::retaining(&handle(0x70));
    assert_eq!(call, RuntimeCall::Retain(0x70));
    let (auto, call) = StrongLifetimeCell::autoreleasing(cell, &pool);
    assert_eq!(call, RuntimeCall::Autorelease(0x70));
    assert_eq!(auto.deref().as_ptr(), 0x70);
    let (cell, _) = StrongLifetimeCell::retaining(&handle(0x71));
    assert_eq!(cell.release(), RuntimeCall::Release(0x71));

    let (cell, call) = StrongMutCell::retaining(handle(0x80));
    assert_eq!(call, RuntimeCall::Retain(0x80));
    let (auto, call) = StrongMutCell::autoreleasing(cell, &pool);
    assert_eq!(call, RuntimeCall::Autorelease(0x80));
    assert_eq!(auto.deref().as_ptr(), 0x80);
    let (cell, _) = StrongMutCell::retaining(handle(0x81));
    assert_eq!(cell.release(), RuntimeCall::Release(0x81));

    let (auto, call) = AutoreleasedCell::autoreleasing(&handle(0x90), &pool);
    assert_eq!(call, RuntimeCall::Autorelease(0x90));
    assert_eq!(auto.assume_mut().deref().as_ptr(), 0x90);
    let (auto, call) = AutoreleasedMutCell::autoreleasing(handle(0x91), &pool);
    assert_eq!(call, RuntimeCall::Autorelease(0x91));
    assert_eq!(auto.deref().as_ptr(), 0x91);

    let (cell, call) = handle(0x92).retain();
    assert_eq!(call, RuntimeCall::Retain(0x92));
    let (second, call) = cell.clone();
    assert_eq!(call, RuntimeCall::Retain(0x92));
    assert_eq!(second.deref().as_ptr(), 0x92);
}

#[test]
fn conversions_between_cells_keep_the_unit_and_the_address() {
    let cell = StrongCell::assume_retained(&handle(0xa0));
    let cell = cell.assume_mut();
    assert_eq!(cell.deref().as_ptr(), 0xa0);
    let cell = cell.as_const();
    assert_eq!(cell.deref().as_ptr(), 0xa0);
    let cell: StrongCell<Gadget> = cell.cast_into();
    assert_eq!(cell.deref().as_ptr(), 0xa0);
    let cell: StrongMutCell<Widget> = cell.assume_mut().cast_into();
    assert_eq!(cell.release(), RuntimeCall::Release(0xa0));
    let cell: StrongLifetimeCell<Gadget> =
        StrongLifetimeCell::assume_retained_limited(&handle(0xa1)).cast_into();
    assert_eq!(cell.release(), RuntimeCall::Release(0xa1));
}

#[test]
fn returning_an_object_passes_the_unit_on() {
    let cell = StrongCell::assume_retained(&handle(0xb0));
    assert_eq!(cell.return_autoreleased(), (0xb0, RuntimeCall::AutoreleaseReturnValue(0xb0)));
    let cell = StrongMutCell::assume_retained(handle(0xb1));
    assert_eq!(cell.return_autoreleased(), (0xb1, RuntimeCall::AutoreleaseReturnValue(0xb1)));
}

#[test]
fn nil_is_absent_and_anything_else_is_a_handle() {
    assert!(Widget::nullable(0).is_none());
    assert_eq!(Widget::nullable(1).unwrap().as_ptr(), 1);
    assert_eq!(Widget::nullable(usize::MAX).unwrap().as_ptr(), usize::MAX);
    assert_eq!(<Widget as ObjcInstanceBehavior>::assume_nonnil(5).as_ptr(), 5);
    let cast: NonNullImmutable<Gadget> = Widget::cast(&handle(6));
    assert_eq!(cast.as_ptr(), 6);
    let cast: NonNullImmutable<Gadget> = Widget::cast_mut(handle(7));
    assert_eq!(cast.as_ptr(), 7);
}

#[test]
fn absent_handles_make_no_cells_and_no_calls() {
    let pool = ActiveAutoreleasePool::assume_autoreleasepool();
    assert!(Widget::nullable(0).assume_autoreleased(&pool).is_none());
    assert!(Widget::nullable(0).assume_retained().is_none());
    assert!(Widget::nullable(0).retain().is_none());
    assert!(Widget::nullable(0).assume_retained_limited().is_none());
    assert!(Widget::nullable(0).assume_retained().assume_mut().is_none());

    assert_eq!(Widget::nullable(3).assume_autoreleased(&pool).unwrap().deref().as_ptr(), 3);
    assert_eq!(Widget::nullable(3).assume_retained().unwrap().deref().as_ptr(), 3);
    let (cell, call) = Widget::nullable(3).retain().unwrap();
    assert_eq!(cell.deref().as_ptr(), 3);
    assert_eq!(call, RuntimeCall::Retain(3));
    assert_eq!(Widget::nullable(3).assume_retained_limited().unwrap().deref().as_ptr(), 3);
    assert_eq!(Widget::nullable(3).assume_retained().assume_mut().unwrap().deref().as_ptr(), 3);
}

#[test]
fn optional_handle_as_address() {
    let h = handle(0xc0);
    let present: Option<&NonNullImmutable<Widget>> = Some(&h);
    let absent: Option<&NonNullImmutable<Widget>> = None;
    assert_eq!(present.as_ptr(), 0xc0);
    assert_eq!(absent.as_ptr(), 0);
}
