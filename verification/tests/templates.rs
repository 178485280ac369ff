use objr::classes::implement_class;
use objr::export_name::{export_ascii, export_name_attrs, export_name_attrs3};
use objr::instances::instance_impl;
use objr::strings::static_string;

#[test]
fn class_impl_is_the_template_filled_in() {
    let rust_name = "NSDate";
    let class_name = "NSDateClass";
    let expected = format!(
        r#"
        impl ::objr::bindings::ObjcClass for {RUST_NAME} {{
            fn class() -> &'static ::objr::bindings::Class<{RUST_NAME}> {{
                #[inline(never)] unsafe fn merge_compilation_units() -> &'static ::objr::bindings::Class<{RUST_NAME}> {{
        extern {{
            //this link name needs to be exactly this so the linker understands we're doing an objc class
            #[link_name = "\x01_OBJC_CLASS_$_{CLASS_NAME}"]
            static CLASS : *mut core::ffi::c_void;
        }}

            #[link_section="__DATA,__objc_classrefs,regular,no_dead_strip"]
            //in practice, seems like this can be L_Anything
            //but it needs to not conflict with multiple declarations
            static CLASS_REF: &'static ::objr::bindings::Class<{RUST_NAME}> = unsafe{{ std::mem::transmute(&CLASS) }};
            ::core::ptr::read_volatile(&CLASS_REF)
        }}
        unsafe{{ merge_compilation_units() }}
            }}
        }}
    "#,
        RUST_NAME = rust_name,
        CLASS_NAME = class_name
    );
    assert_eq!(implement_class(rust_name, class_name), expected);
    assert!(expected.contains("#[link_name = \"\\x01_OBJC_CLASS_$_NSDateClass\"]"));
    assert!(expected.contains("#[link_section=\"__DATA,__objc_classrefs,regular,no_dead_strip\"]"));
}

#[test]
fn same_class_gives_the_same_reference_and_another_class_another() {
    assert_eq!(implement_class("A", "NSObject"), implement_class("A", "NSObject"));
    assert_ne!(implement_class("A", "NSObject"), implement_class("A", "NSString"));
}

#[test]
fn ascii_static_is_the_template_filled_in() {
    let expected = format!(
        r#"
        #[link_section="{LINK_SECTION}"]
        static {IDENT}: [u8; {ASCII_LEN}] = *b"{ASCII}\0";
        "#,
        LINK_SECTION = "__DATA,valid_section",
        IDENT = "IDENT",
        ASCII = "ascii",
        ASCII_LEN = 6
    );
    assert_eq!(export_ascii("__DATA,valid_section", "IDENT", "ascii"), expected);
    assert_eq!(
        expected,
        "\n        #[link_section=\"__DATA,valid_section\"]\n        static IDENT: [u8; 6] = *b\"ascii\\0\";\n        "
    );
}

#[test]
fn ascii_static_counts_bytes_and_the_closing_zero() {
    assert!(export_ascii("s", "I", "").contains("static I: [u8; 1] = *b\"\\0\";"));
    assert!(export_ascii("s", "I", "123456789").contains("static I: [u8; 10] = *b\"123456789\\0\";"));
    assert!(export_ascii("s", "I", "\u{e9}").contains("static I: [u8; 3] = *b\"\u{e9}\\0\";"));
    let long = "x".repeat(1234);
    assert!(export_ascii("s", "I", &long).contains("static I: [u8; 1235] = *b\"xxx"));
}

#[test]
fn export_name_joins_its_parts() {
    let expected = format!(
        r#"
            #[link_section="{LINK_SECTION}"]
            #[export_name="{EXPORT_NAME_1}{EXPORT_NAME_2}"]
        "#,
        LINK_SECTION = "__DATA,valid_section",
        EXPORT_NAME_1 = "EXPORT_NAME_1",
        EXPORT_NAME_2 = "EXPORT_NAME_2"
    );
    assert_eq!(export_name_attrs("__DATA,valid_section", "EXPORT_NAME_1", "EXPORT_NAME_2"), expected);
    assert!(expected.contains("#[export_name=\"EXPORT_NAME_1EXPORT_NAME_2\"]"));

    let expected = format!(
        r#"
            #[link_section="{LINK_SECTION}"]
            #[export_name="{EXPORT_NAME_1}{EXPORT_NAME_2}{EXPORT_NAME_3}"]
        "#,
        LINK_SECTION = "__DATA,__objc_data",
        EXPORT_NAME_1 = "OBJC_CLASS_$_",
        EXPORT_NAME_2 = "Example",
        EXPORT_NAME_3 = "_suffix"
    );
    assert_eq!(
        export_name_attrs3("__DATA,__objc_data", "OBJC_CLASS_$_", "Example", "_suffix"),
        expected
    );
    assert!(expected.contains("#[export_name=\"OBJC_CLASS_$_Example_suffix\"]"));
}

#[test]
fn same_export_name_parts_give_one_symbol_and_other_parts_another() {
    assert_eq!(export_name_attrs("s", "L_", "shared"), export_name_attrs("s", "L_", "shared"));
    assert_ne!(export_name_attrs("s", "L_a_", "name"), export_name_attrs("s", "L_b_", "name"));
}

#[test]
fn instance_impl_is_the_template_filled_in() {
    let expected = format!(
        r#"
    unsafe impl ::objr::bindings::ObjcInstance for {TYPE} {{
        }}
        impl std::fmt::Display for {TYPE} {{
            fn fmt(&self, f: &mut std::fmt::Formatter) -> std::fmt::Result {{
                use ::objr::foundation::NSObjectTrait;
                //this ought to be safe, since the object was allocated somehow and we had an autoreleasepool for that.
                let fake_pool = unsafe {{ ::objr::bindings::ActiveAutoreleasePool::assume_autoreleasepool() }};
                write!(f, "{{}}",self.description(&fake_pool).to_str(&fake_pool))
            }}
        }}
    "#,
        TYPE = "NSExample"
    );
    assert_eq!(instance_impl("NSExample"), expected);
    assert!(expected.contains("write!(f, \"{}\",self.description"));
}

#[test]
fn static_string_is_the_template_filled_in() {
    let string_literal = "My example literal";
    let expected = format!(
        r#"
    {{
		#[inline(never)] fn codegen_workaround() -> &'static objr::foundation::NSString {{
			/*
        Pretty much we want to emit some assembly like
    .section	__TEXT,__cstring,cstring_literals
    L_.str:                                 ## @.str
        .asciz	"find this static content"

        .section	__DATA,__cfstring
        .p2align	3                               ## @_unnamed_cfstring_
    L__unnamed_cfstring_:
        .quad	___CFConstantStringClassReference
        .long	1992                            ## 0x7c8
        .space	4
        .quad	L_.str
        .quad	24

        Specific lines are referenced in code below.

        Note that for whatever reason, rust really wants to emit .asciz directives,
        but the memory layout "should" be the same...
         */
			#[link_section = "__TEXT,__cstring,cstring_literals"]
			static STRING_LITERAL: [u8; {LITERAL_LENGTH}] = *b"{STRING_LITERAL}\0";
			#[link(name="CoreFoundation",kind="framework")]
			extern {{
				#[link_name = "\x01___CFConstantStringClassReference"]
				static CFCONSTANT_STRING_CLASS_REFERENCE : &'static core::ffi::c_void;
			}}

			//Some kind of magic structure that can be casted to CFString directly
			//.p2align 3
			#[repr(C,packed(8))]
			struct CFStringStatic {{
				//.quad	___CFConstantStringClassReference
				constant_string_class_reference: &'static &'static core::ffi::c_void,
				//.long	1992
				magic: u32,
				// .space	4
				space: [u8; 4],
				//.quad	L_.str
				str: &'static [u8; {LITERAL_LENGTH}],
				//.quad	[len]
				magic_2: usize
			}}
			#[link_section = "__DATA,__cfstring"]
			static CFSTRING_REF: CFStringStatic = CFStringStatic {{
				constant_string_class_reference: unsafe {{ &CFCONSTANT_STRING_CLASS_REFERENCE }},
				magic: 1992,
				space: [0; 4],
				str: &STRING_LITERAL,
				magic_2: {LITERAL_LENGTH_MINUS_ONE}
			}};
			unsafe{{ &*(&CFSTRING_REF as *const _ as *const objr::foundation::NSString) }}
		}}
		codegen_workaround()
	}}
    "#,
        STRING_LITERAL = string_literal,
        LITERAL_LENGTH = string_literal.len() + 1,
        LITERAL_LENGTH_MINUS_ONE = string_literal.len()
    );
    assert_eq!(static_string(string_literal), expected);
    assert!(expected.contains("static STRING_LITERAL: [u8; 19] = *b\"My example literal\\0\";"));
    assert!(expected.contains("str: &'static [u8; 19],"));
    assert!(expected.contains("magic_2: 18\n"));
}

#[test]
fn static_string_of_nothing_has_the_closing_zero_only() {
    let text = static_string("");
    assert!(text.contains("static STRING_LITERAL: [u8; 1] = *b\"\\0\";"));
    assert!(text.contains("magic_2: 0\n"));
}
