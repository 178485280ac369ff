use objr::selectors::{make_fn_partial, sel_expression, sel_to_rust_name};

#[test]
fn build_selector() {
    assert_eq!(sel_to_rust_name("height"), "height");
    assert_eq!(sel_to_rust_name("height:"), "height_");
    assert_eq!(sel_to_rust_name("height:width:"), "height_width");
}

#[test]
fn rust_name_edge_cases() {
    assert_eq!(sel_to_rust_name(""), "");
    assert_eq!(sel_to_rust_name(":"), "_");
    assert_eq!(sel_to_rust_name("::"), "_");
    assert_eq!(sel_to_rust_name("a:b:c:"), "a_b_c");
    // The last character goes, whatever it is.
    assert_eq!(sel_to_rust_name("a:b:c"), "a_b_");
    assert_eq!(sel_to_rust_name("d\u{e9}j\u{e0}:vu:"), "d\u{e9}j\u{e0}_vu");
    let many = ":".repeat(300);
    assert_eq!(sel_to_rust_name(&many), "_".repeat(299));
}

#[test]
fn fn_header_for_a_selector() {
    assert_eq!(make_fn_partial("height_"), "unsafe fn height_() -> ::objr::bindings::Sel");
    assert_eq!(make_fn_partial(""), "unsafe fn () -> ::objr::bindings::Sel");
}

#[test]
fn selector_expression_is_the_template_filled_in() {
    let selector = "initWithFrame:";
    let expected = format!(
        r#"
    {{
        #[inline(never)] unsafe fn codegen_workaround() -> ::objr::bindings::Sel {{
            #[link_section = "__TEXT,__objc_methname,cstring_literals"]
            static L_OBJC_METH_VAR_NAME_: [u8; {len}] = *b"{selector}\0";

            #[link_section = "__DATA,__objc_selrefs,literal_pointers,no_dead_strip"]
            static L_OBJC_SELECTOR_REFERENCES_: &'static [u8; {len}] = &L_OBJC_METH_VAR_NAME_;
            //don't let the optimizer look at the value we just set, since it will be fixedup by dyld
            let read_volatile: &'static [u8; {len}] = ::core::ptr::read_volatile(&L_OBJC_SELECTOR_REFERENCES_ );
            ::objr::bindings::Sel::from_ptr( unsafe{{ std::mem::transmute(read_volatile) }} )
        }}
        codegen_workaround()
    }}"#,
        selector = selector,
        len = selector.len() + 1
    );
    assert_eq!(sel_expression(selector), expected);
    assert!(expected.contains("[u8; 15] = *b\"initWithFrame:\\0\";"));
}

#[test]
fn selector_expression_counts_bytes_not_characters() {
    let text = sel_expression("d\u{e9}j\u{e0}");
    assert!(text.contains("static L_OBJC_METH_VAR_NAME_: [u8; 7] = *b\"d\u{e9}j\u{e0}\\0\";"));
    assert!(text.contains("&'static [u8; 7] = &L_OBJC_METH_VAR_NAME_;"));
    let text = sel_expression("");
    assert!(text.contains("static L_OBJC_METH_VAR_NAME_: [u8; 1] = *b\"\\0\";"));
}

#[test]
fn same_selector_gives_the_same_reference_text() {
    assert_eq!(sel_expression("description"), sel_expression("description"));
    assert_ne!(sel_expression("description"), sel_expression("debugDescription"));
}
