use objr::arguments::Arguable;
use objr::autorelease::ActiveAutoreleasePool;
use objr::marker::{Errors, GuaranteedMarker, RawMarker, RawMarkerMutRef};
use objr::misc::ParsedLiteral;
use objr::objcinstance::ObjcInstance;
use objr::threadsafety::ImpliedSyncUse;

struct Widget;
impl Arguable for Widget {}
impl ObjcInstance for Widget {}

#[test]
fn raw_marker_knows_nil() {
    assert!(RawMarker::<Widget>::nil().is_nil());
    assert_eq!(RawMarker::<Widget>::nil().ptr(), 0);
    assert!(RawMarker::<Widget>::new(0).is_nil());
    assert!(!RawMarker::<Widget>::new(1).is_nil());
    assert_eq!(RawMarker::<Widget>::new(0x44).ptr(), 0x44);
}

#[test]
fn unwrapping_nil_is_refused() {
    let result = GuaranteedMarker::<Widget>::try_unwrap(RawMarker::nil());
    assert_eq!(result.err(), Some(Errors::UnwrappingNil));
    assert_eq!(Errors::UnwrappingNil.message(), "Unwrapping nil");
}

#[test]
fn unwrapping_anything_else_keeps_the_address() {
    let marker = GuaranteedMarker::<Widget>::try_unwrap(RawMarker::new(0x44)).unwrap();
    assert_eq!(marker.into_raw_ptr(), 0x44);
    assert_eq!(RawMarker::<Widget>::new(0x45).assuming_nonnil().into_raw_ptr(), 0x45);
    assert_eq!(GuaranteedMarker::<Widget>::new_unchecked(0x46).into_raw_ptr(), 0x46);
}

#[test]
fn guaranteed_marker_conversions_keep_the_address() {
    let marker = GuaranteedMarker::<Widget>::new_unchecked(0x50);
    assert_eq!(marker.unsafe_clone().into_raw_ptr(), 0x50);
    assert_eq!(marker.as_raw().ptr(), 0x50);
    assert!(!marker.as_raw().is_nil());
    assert_eq!(marker.cast::<u8>().into_raw_ptr(), 0x50);
    assert_eq!(GuaranteedMarker::<Widget>::dangling().into_raw_ptr(), 1);
    let pool = ActiveAutoreleasePool::assume_autoreleasepool();
    assert_eq!(marker.unsafe_clone().assuming_retained().deref().as_ptr(), 0x50);
    assert_eq!(marker.assuming_autoreleased(&pool).deref().as_ptr(), 0x50);
}

#[test]
fn marker_borrow_can_be_wrapped() {
    let mut marker = RawMarker::<Widget>::nil();
    let _wrapped = RawMarkerMutRef::from_marker(&mut marker);
}

#[test]
fn literal_text_is_handed_out() {
    assert_eq!(ParsedLiteral::Literal("abc".to_string()).unwrap_literal(), "abc");
    assert_eq!(ParsedLiteral::Literal(String::new()).unwrap_literal(), "");
}

#[test]
fn implied_sync_use_gives_back_what_it_wraps() {
    assert_eq!(ImpliedSyncUse::new(5u8).unwrap(), 5);
    assert_eq!(ImpliedSyncUse::new("x".to_string()).unwrap(), "x");
}
