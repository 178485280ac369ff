//! The `ObjcClass` impl of a bound class, as source text.

use vstd::prelude::*;
use crate::text::{append_text, lemma_middle_decides};

verus! {

/// The text of `implement_class` that opens the expansion.
pub const CLASS_IMPL_FOR: &'static str = r#"
        impl ::objr::bindings::ObjcClass for "#;

/// The text of `implement_class` between its insertions number 1 and 2.
pub const CLASS_FN_RETURNS: &'static str = r#" {
            fn class() -> &'static ::objr::bindings::Class<"#;

/// The text of `implement_class` between its insertions number 2 and 3.
pub const CLASS_MERGE_RETURNS: &'static str = r#"> {
                #[inline(never)] unsafe fn merge_compilation_units() -> &'static ::objr::bindings::Class<"#;

/// The text of `implement_class` between its insertions number 3 and 4.
pub const CLASS_LINK_NAME: &'static str = r#"> {
        extern {
            //this link name needs to be exactly this so the linker understands we're doing an objc class
            #[link_name = "\x01_OBJC_CLASS_$_"#;

/// The text of `implement_class` between its insertions number 4 and 5.
pub const CLASS_REFERENCE: &'static str = r#""]
            static CLASS : *mut core::ffi::c_void;
        }

            #[link_section="__DATA,__objc_classrefs,regular,no_dead_strip"]
            //in practice, seems like this can be L_Anything
            //but it needs to not conflict with multiple declarations
            static CLASS_REF: &'static ::objr::bindings::Class<"#;

/// The text of `implement_class` that closes the expansion.
pub const CLASS_READ: &'static str = r#"> = unsafe{ std::mem::transmute(&CLASS) };
            ::core::ptr::read_volatile(&CLASS_REF)
        }
        unsafe{ merge_compilation_units() }
            }
        }
    "#;

/// The source text of an `ObjcClass` impl for the Rust type `rust_name`, whose
/// `class()` reads the class reference that the loader fills in for the
/// Objective-C class `class_name`.
pub open spec fn implement_class_text(rust_name: Seq<char>, class_name: Seq<char>) -> Seq<char> {
    CLASS_IMPL_FOR@
        + rust_name
        + CLASS_FN_RETURNS@
        + rust_name
        + CLASS_MERGE_RETURNS@
        + rust_name
        + CLASS_LINK_NAME@
        + class_name
        + CLASS_REFERENCE@
        + rust_name
        + CLASS_READ@
}

/// Writes the `ObjcClass` impl that binds `rust_name` to the Objective-C class
/// `class_name`.
pub fn implement_class(rust_name: &str, class_name: &str) -> (out: String)
    ensures
        out@ == implement_class_text(rust_name@, class_name@),
{
    let mut out = String::new();
    append_text(&mut out, CLASS_IMPL_FOR);
    append_text(&mut out, rust_name);
    append_text(&mut out, CLASS_FN_RETURNS);
    append_text(&mut out, rust_name);
    append_text(&mut out, CLASS_MERGE_RETURNS);
    append_text(&mut out, rust_name);
    append_text(&mut out, CLASS_LINK_NAME);
    append_text(&mut out, class_name);
    append_text(&mut out, CLASS_REFERENCE);
    append_text(&mut out, rust_name);
    append_text(&mut out, CLASS_READ);
    out
}

/// The class reference that a Rust type is bound to names the Objective-C
/// class and nothing else: two bindings of one Rust type are the same text
/// exactly where they name the same class.
pub proof fn law_class_name_decides_the_reference(
    rust_name: Seq<char>,
    first_class: Seq<char>,
    second_class: Seq<char>,
)
    ensures
        implement_class_text(rust_name, first_class) == implement_class_text(
            rust_name,
            second_class,
        ) <==> first_class == second_class,
{
    let head = CLASS_IMPL_FOR@ + rust_name + CLASS_FN_RETURNS@ + rust_name + CLASS_MERGE_RETURNS@
        + rust_name + CLASS_LINK_NAME@;
    let tail = CLASS_REFERENCE@ + rust_name + CLASS_READ@;
    let first = implement_class_text(rust_name, first_class);
    let second = implement_class_text(rust_name, second_class);
    assert(first =~= head + first_class + tail);
    assert(second =~= head + second_class + tail);
    if first == second {
        lemma_middle_decides(head, first_class, second_class, tail);
    }
}

} // verus!
