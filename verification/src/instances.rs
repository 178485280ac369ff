//! The impls that every bound instance type gets, as source text.

use vstd::prelude::*;
use crate::text::append_text;

verus! {

/// The text of `instance_impl` that opens the expansion.
pub const INSTANCE_IMPL_FOR: &'static str = r#"
    unsafe impl ::objr::bindings::ObjcInstance for "#;

/// The text of `instance_impl` between its insertions number 1 and 2.
pub const INSTANCE_DISPLAY_FOR: &'static str = r#" {
        }
        impl std::fmt::Display for "#;

/// The text of `instance_impl` that closes the expansion.
pub const INSTANCE_FMT: &'static str = r#" {
            fn fmt(&self, f: &mut std::fmt::Formatter) -> std::fmt::Result {
                use ::objr::foundation::NSObjectTrait;
                //this ought to be safe, since the object was allocated somehow and we had an autoreleasepool for that.
                let fake_pool = unsafe { ::objr::bindings::ActiveAutoreleasePool::assume_autoreleasepool() };
                write!(f, "{}",self.description(&fake_pool).to_str(&fake_pool))
            }
        }
    "#;

/// The source text of the `ObjcInstance` impl for the type `_type`, and of a
/// `Display` impl that prints the object's description.
pub open spec fn instance_impl_text(_type: Seq<char>) -> Seq<char> {
    INSTANCE_IMPL_FOR@
        + _type
        + INSTANCE_DISPLAY_FOR@
        + _type
        + INSTANCE_FMT@
}

/// Writes the `ObjcInstance` and `Display` impls for a bound type.
pub fn instance_impl(_type: &str) -> (out: String)
    ensures
        out@ == instance_impl_text(_type@),
{
    let mut out = String::new();
    append_text(&mut out, INSTANCE_IMPL_FOR);
    append_text(&mut out, _type);
    append_text(&mut out, INSTANCE_DISPLAY_FOR);
    append_text(&mut out, _type);
    append_text(&mut out, INSTANCE_FMT);
    out
}

} // verus!
