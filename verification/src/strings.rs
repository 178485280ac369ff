//! Compile-time `NSString` constants, as source text.

use vstd::prelude::*;
use crate::text::{append_text, byte_count, decimal, decimal_text};

verus! {

/// The text of `static_string` that opens the expansion.
pub const STRING_BYTES_LENGTH: &'static str = r#"
    {
		#[inline(never)] fn codegen_workaround() -> &'static objr::foundation::NSString {
			/*
        Pretty much we want to emit some assembly like
    .section	__TEXT,__cstring,cstring_literals
    L_.str:                                 ## @.str
        .asciz	"find this static content"

        .section	__DATA,__cfstring
        .p2align	3                               ## @_unnamed_cfstring_
    L__unnamed_cfstring_:
        .quad	___CFConstantStringClassReference
        .long	1992                            ## 0x7c8
        .space	4
        .quad	L_.str
        .quad	24

        Specific lines are referenced in code below.

        Note that for whatever reason, rust really wants to emit .asciz directives,
        but the memory layout "should" be the same...
         */
			#[link_section = "__TEXT,__cstring,cstring_literals"]
			static STRING_LITERAL: [u8; "#;

/// The text of `static_string` between its insertions number 1 and 2.
pub const STRING_BYTES: &'static str = r#"] = *b""#;

/// The text of `static_string` between its insertions number 2 and 3.
pub const STRING_LAYOUT: &'static str = r#"\0";
			#[link(name="CoreFoundation",kind="framework")]
			extern {
				#[link_name = "\x01___CFConstantStringClassReference"]
				static CFCONSTANT_STRING_CLASS_REFERENCE : &'static core::ffi::c_void;
			}

			//Some kind of magic structure that can be casted to CFString directly
			//.p2align 3
			#[repr(C,packed(8))]
			struct CFStringStatic {
				//.quad	___CFConstantStringClassReference
				constant_string_class_reference: &'static &'static core::ffi::c_void,
				//.long	1992
				magic: u32,
				// .space	4
				space: [u8; 4],
				//.quad	L_.str
				str: &'static [u8; "#;

/// The text of `static_string` between its insertions number 3 and 4.
pub const STRING_REFERENCE: &'static str = r#"],
				//.quad	[len]
				magic_2: usize
			}
			#[link_section = "__DATA,__cfstring"]
			static CFSTRING_REF: CFStringStatic = CFStringStatic {
				constant_string_class_reference: unsafe { &CFCONSTANT_STRING_CLASS_REFERENCE },
				magic: 1992,
				space: [0; 4],
				str: &STRING_LITERAL,
				magic_2: "#;

/// The text of `static_string` that closes the expansion.
pub const STRING_END: &'static str = r#"
			};
			unsafe{ &*(&CFSTRING_REF as *const _ as *const objr::foundation::NSString) }
		}
		codegen_workaround()
	}
    "#;

/// The source text of an expression for a constant `NSString` that holds
/// `string_literal`: the bytes with a closing zero byte in the C-string
/// section, and beside them the constant-string record that points at them.
/// The array lengths written are the byte length of `string_literal` plus one,
/// the record's length field is the byte length itself.
pub open spec fn static_string_text(string_literal: Seq<char>) -> Seq<char> {
    STRING_BYTES_LENGTH@
        + decimal_text(byte_count(string_literal) + 1)
        + STRING_BYTES@
        + string_literal
        + STRING_LAYOUT@
        + decimal_text(byte_count(string_literal) + 1)
        + STRING_REFERENCE@
        + decimal_text(byte_count(string_literal))
        + STRING_END@
}

/// Writes the expression for a compile-time `NSString` constant.
pub fn static_string(string_literal: &str) -> (out: String)
    ensures
        out@ == static_string_text(string_literal@),
{
    let mut out = String::new();
    append_text(&mut out, STRING_BYTES_LENGTH);
    append_text(&mut out, decimal(string_literal.len() as u128 + 1).as_str());
    append_text(&mut out, STRING_BYTES);
    append_text(&mut out, string_literal);
    append_text(&mut out, STRING_LAYOUT);
    append_text(&mut out, decimal(string_literal.len() as u128 + 1).as_str());
    append_text(&mut out, STRING_REFERENCE);
    append_text(&mut out, decimal(string_literal.len() as u128).as_str());
    append_text(&mut out, STRING_END);
    out
}

} // verus!
