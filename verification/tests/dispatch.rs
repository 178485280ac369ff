use objr::arguments::{
    bool_result, object_result, select_entry, Arguable, ArguableBehavior, Architecture, EntryPoint,
    Invocation, ObjcSuper, Receiver,
};
use objr::autorelease::ActiveAutoreleasePool;
use objr::class::{AnyClass, Class, ObjcClass};
use objr::nserror::ResultNSError;
use objr::objcinstance::{NonNullImmutable, ObjcInstance};
use objr::objectpointers::StrongCell;
use objr::performselector::{PerformableSuper, PerformsSelector, PerformsSelectorSuper};
use objr::runtime::RuntimeCall;
use objr::sel::Sel;

#[derive(Debug)]
struct Widget;
impl Arguable for Widget {}
impl ObjcInstance for Widget {}
impl ObjcClass for Widget {
    fn class_address() -> usize {
        0x1000
    }

    fn class() -> Class<Self> {
        Class::from_ptr(Self::class_address())
    }
}

fn widget_class() -> AnyClass {
    Widget::class().as_anyclass()
}

fn pool() -> ActiveAutoreleasePool {
    ActiveAutoreleasePool::assume_autoreleasepool()
}

fn assert_message(
    message: Invocation,
    entry: EntryPoint,
    receiver: Receiver,
    selector: usize,
    trailing_error: bool,
    retain_result: bool,
) {
    assert_eq!(message.entry, entry);
    assert_eq!(message.receiver, receiver);
    assert_eq!(message.selector.ptr(), selector);
    assert_eq!(message.trailing_error, trailing_error);
    assert_eq!(message.retain_result, retain_result);
}

#[test]
fn struct_return_turns_exactly_above_sixteen_bytes() {
    assert_eq!(select_entry(Architecture::X86_64, 16, false), EntryPoint::MsgSend);
    assert_eq!(select_entry(Architecture::X86_64, 17, false), EntryPoint::MsgSendStret);
    assert_eq!(select_entry(Architecture::X86_64, 16, true), EntryPoint::MsgSendSuper2);
    assert_eq!(select_entry(Architecture::X86_64, 17, true), EntryPoint::MsgSendSuper2Stret);
    assert_eq!(select_entry(Architecture::X86_64, 0, false), EntryPoint::MsgSend);
    assert_eq!(select_entry(Architecture::X86_64, 15, false), EntryPoint::MsgSend);
    assert_eq!(select_entry(Architecture::X86_64, 32, false), EntryPoint::MsgSendStret);
    assert_eq!(select_entry(Architecture::X86_64, usize::MAX, true), EntryPoint::MsgSendSuper2Stret);
}

#[test]
fn other_architectures_have_one_entry_point_per_target() {
    for size in [0usize, 8, 16, 17, 64, usize::MAX] {
        assert_eq!(select_entry(Architecture::Other, size, false), EntryPoint::MsgSend);
        assert_eq!(select_entry(Architecture::Other, size, true), EntryPoint::MsgSendSuper2);
    }
}

#[test]
fn each_way_of_invoking_has_its_shape() {
    let p = pool();
    let sel = Sel::from_ptr(0x5e1);
    let object = Receiver::Object(0x10);
    let record = Receiver::Super(ObjcSuper { receiver: 0x10, class: widget_class() });

    assert_message(
        Invocation::invoke_primitive(Architecture::X86_64, 8, 0x10, sel, &p),
        EntryPoint::MsgSend, object, 0x5e1, false, false,
    );
    assert_message(
        Invocation::invoke_primitive(Architecture::X86_64, 24, 0x10, sel, &p),
        EntryPoint::MsgSendStret, object, 0x5e1, false, false,
    );
    assert_message(
        Invocation::invoke_primitive_super(Architecture::X86_64, 24, 0x10, sel, &p, widget_class()),
        EntryPoint::MsgSendSuper2Stret, record, 0x5e1, false, false,
    );
    assert_message(
        Invocation::invoke_primitive_super(Architecture::Other, 24, 0x10, sel, &p, widget_class()),
        EntryPoint::MsgSendSuper2, record, 0x5e1, false, false,
    );
    assert_message(Invocation::invoke(0x10, sel, &p), EntryPoint::MsgSend, object, 0x5e1, false, false);
    assert_message(
        Invocation::invoke_super(0x10, sel, &p, widget_class()),
        EntryPoint::MsgSendSuper2, record, 0x5e1, false, false,
    );
    assert_message(Invocation::invoke_error(0x10, sel, &p), EntryPoint::MsgSend, object, 0x5e1, true, false);
    assert_message(
        Invocation::invoke_error_bool(0x10, sel, &p),
        EntryPoint::MsgSend, object, 0x5e1, true, false,
    );
    assert_message(
        Invocation::invoke_error_trampoline_strong(0x10, sel, &p),
        EntryPoint::MsgSend, object, 0x5e1, true, true,
    );
    assert_message(
        Invocation::invoke_error_trampoline_strong_super(0x10, sel, &p, widget_class()),
        EntryPoint::MsgSendSuper2, record, 0x5e1, true, true,
    );
    assert_message(
        Invocation::invoke_error_trampoline_super(0x10, sel, &p, widget_class()),
        EntryPoint::MsgSendSuper2, record, 0x5e1, true, false,
    );
}

#[test]
fn each_way_of_performing_has_its_shape() {
    let p = pool();
    let sel = Sel::from_ptr(0x5e2);
    let object = Receiver::Object(0x20);
    let record = Receiver::Super(ObjcSuper { receiver: 0x20, class: widget_class() });

    assert_message(
        Widget::perform_primitive(0x20, sel, &p, Architecture::X86_64, 17),
        EntryPoint::MsgSendStret, object, 0x5e2, false, false,
    );
    assert_message(Widget::perform(0x20, sel, &p), EntryPoint::MsgSend, object, 0x5e2, false, false);
    assert_message(Widget::perform_result(0x20, sel, &p), EntryPoint::MsgSend, object, 0x5e2, true, false);
    assert_message(
        Widget::perform_bool_result(0x20, sel, &p),
        EntryPoint::MsgSend, object, 0x5e2, true, false,
    );
    assert_message(
        Widget::perform_autorelease_to_retain(0x20, sel, &p),
        EntryPoint::MsgSend, object, 0x5e2, false, true,
    );
    assert_message(
        Widget::perform_result_autorelease_to_retain(0x20, sel, &p),
        EntryPoint::MsgSend, object, 0x5e2, true, true,
    );

    assert_message(
        Widget::perform_super_primitive(0x20, sel, &p, Architecture::X86_64, 16),
        EntryPoint::MsgSendSuper2, record, 0x5e2, false, false,
    );
    assert_message(
        Widget::perform_super(0x20, sel, &p),
        EntryPoint::MsgSendSuper2, record, 0x5e2, false, false,
    );
    assert_message(
        Widget::perform_super_result(0x20, sel, &p),
        EntryPoint::MsgSendSuper2, record, 0x5e2, true, false,
    );
    assert_message(
        Widget::perform_super_autorelease_to_retain(0x20, sel, &p),
        EntryPoint::MsgSendSuper2, record, 0x5e2, false, true,
    );
    assert_message(
        Widget::perform_super_result_autorelease_to_retain(0x20, sel, &p),
        EntryPoint::MsgSendSuper2, record, 0x5e2, true, true,
    );
}

#[test]
fn nil_receiver_is_a_receiver() {
    let message = Widget::perform(0, Sel::from_ptr(1), &pool());
    assert_eq!(message.receiver, Receiver::Object(0));
}

#[test]
fn retained_results_are_retained_nil_or_not() {
    let p = pool();
    let sel = Sel::from_ptr(3);
    let trampoline = Widget::perform_autorelease_to_retain(0x20, sel, &p);
    assert_eq!(trampoline.returned(0x99), Some(RuntimeCall::RetainAutoreleasedReturnValue(0x99)));
    assert_eq!(trampoline.returned(0), Some(RuntimeCall::RetainAutoreleasedReturnValue(0)));
    let plain = Widget::perform(0x20, sel, &p);
    assert_eq!(plain.returned(0x99), None);
}

#[test]
fn failure_hands_back_the_error_and_no_value() {
    let p = pool();
    let result = object_result(0, 0xe0, &p);
    match result {
        Ok(_) => panic!("a nil result is no success"),
        Err(error) => assert_eq!(error.deref().as_ptr(), 0xe0),
    }
    let result = bool_result(false, 0xe1, &p);
    match result {
        Ok(()) => panic!("NO is no success"),
        Err(error) => assert_eq!(error.deref().as_ptr(), 0xe1),
    }
}

#[test]
fn success_ignores_the_error_slot() {
    let p = pool();
    assert_eq!(object_result(0x77, 0, &p).unwrap(), 0x77);
    // A method may leave something in the slot and still succeed.
    assert_eq!(object_result(0x77, 0xe0, &p).unwrap(), 0x77);
    assert!(bool_result(true, 0, &p).is_ok());
    assert!(bool_result(true, 0xe0, &p).is_ok());
}

#[test]
fn unwrapping_a_success() {
    let p = pool();
    assert_eq!(object_result(0x55, 0, &p).unwrap_nserror(&p), 0x55);
    let strong: Result<u8, StrongCell<objr::nserror::NSError>> = Ok(9);
    assert_eq!(strong.unwrap_nserror(&p), 9);
}

#[test]
fn resolving_a_class_twice_gives_equal_handles() {
    let class = Widget::class();
    let class2 = Widget::class();
    assert_eq!(class, class2);
    assert_eq!(class.as_anyclass(), class2.as_anyclass());
    assert_eq!(Widget::any_class(), class.as_anyclass());
    assert_eq!(class.assume_nonmut_perform(), 0x1000);
    assert_eq!(class.as_anyclass().ptr(), 0x1000);
    assert_ne!(Class::<Widget>::from_ptr(0x1000), Class::<Widget>::from_ptr(0x2000));
}

#[test]
fn alloc_init_sends_alloc_to_the_class_and_init_to_the_instance() {
    let p = pool();
    let alloc = Sel::from_ptr(0xa110c);
    let init = Sel::from_ptr(0x1417);
    let class = Widget::class();
    let (step, message) = class.alloc_init(alloc, &p);
    assert_message(message, EntryPoint::MsgSend, Receiver::Object(0x1000), 0xa110c, false, false);
    let (step, message) = step.allocated(0x4000, init, &p);
    assert_message(message, EntryPoint::MsgSend, Receiver::Object(0x4000), 0x1417, false, false);
    let cell = step.initialized(0x4000);
    assert_eq!(cell.deref().as_ptr(), 0x4000);
    assert_eq!(cell.release(), RuntimeCall::Release(0x4000));
}

#[test]
fn init_may_return_another_object_and_the_cell_holds_that_one() {
    let p = pool();
    let class = Widget::class();
    let (step, _) = class.alloc_init(Sel::from_ptr(1), &p);
    let (step, _) = step.allocated(0x4000, Sel::from_ptr(2), &p);
    let cell = step.initialized(0x5000);
    assert_eq!(cell.deref().as_ptr(), 0x5000);

    let (step, _) = class.alloc_init(Sel::from_ptr(1), &p);
    let (step, _) = step.allocated(0x4000, Sel::from_ptr(2), &p);
    let cell = step.initialized_mut(0x6000);
    assert_eq!(cell.deref().as_ptr(), 0x6000);
}

#[test]
fn alloc_alone_is_a_plain_message_to_the_class() {
    let message = Widget::class().allocate(Sel::from_ptr(5), &pool());
    assert_message(message, EntryPoint::MsgSend, Receiver::Object(0x1000), 5, false, false);
}

#[test]
fn receiver_for_a_method_that_does_not_mutate() {
    let h: NonNullImmutable<Widget> = NonNullImmutable::assume_nonnil(0x31);
    assert_eq!((&h).assume_nonmut_perform(), 0x31);
    assert_eq!(Some(&h).assume_nonmut_perform(), 0x31);
    let absent: Option<&NonNullImmutable<Widget>> = None;
    assert_eq!(absent.assume_nonmut_perform(), 0);
}

#[test]
fn selector_keeps_its_word() {
    assert_eq!(Sel::from_ptr(0).ptr(), 0);
    assert_eq!(Sel::from_ptr(0xdead).ptr(), 0xdead);
    let sel = Sel::from_ptr(4);
    let copy = sel;
    assert_eq!(sel.ptr(), copy.ptr());
}

#[test]
fn arguable() {
    let f: NonNullImmutable<Widget> = NonNullImmutable::assume_nonnil(0x1234);
    let borrowed: &NonNullImmutable<Widget> = &f;
    borrowed.assume_nonmut_perform();

    let option: Option<&NonNullImmutable<Widget>> = Some(&f);
    let as_ptr = objr::objcinstance::OptionalInstanceBehavior::as_ptr(&option);
    assert_eq!(as_ptr, 0x1234);
    option.assume_nonmut_perform();
}

#[test]
fn init_ns_object() {
    let pool = pool();
    let class = Widget::class();
    let class2 = Widget::class();
    assert_eq!(class, class2);
    // The runtime's answers are stood in for: `alloc` gives 0x4000, `init` gives it back.
    let (step, alloc_message) = class.alloc_init(Sel::from_ptr(0xa110c), &pool);
    assert_eq!(alloc_message.receiver, Receiver::Object(0x1000));
    let (step, init_message) = step.allocated(0x4000, Sel::from_ptr(0x1417), &pool);
    assert_eq!(init_message.receiver, Receiver::Object(0x4000));
    let instance = step.initialized(0x4000);
    assert_ne!(instance.deref().as_ptr(), 0);
    // The description is asked for by the send that retains what comes back.
    let description = Widget::perform_autorelease_to_retain(
        instance.deref().as_ptr(),
        Sel::from_ptr(0xde5c),
        &pool,
    );
    assert_eq!(description.receiver, Receiver::Object(0x4000));
    assert!(description.retain_result);
}
