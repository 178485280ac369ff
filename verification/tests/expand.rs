use objr::classes::implement_class;
use objr::expand::{
    __concat_3_idents, __concat_idents, __count, __mod, __objc_implement_class,
    __parse_declaration_to_sel, __static_asciiz, __static_asciiz_ident2,
    __static_asciiz_ident_as_selector, __static_asciiz_ident_as_type_encoding, __static_expr,
    __static_expr3, __static_extern, __use, _objc_selector_decl, _objc_selector_impl,
    check_declaration_encodable, check_shape, derive_objc_instance, objc_nsstring,
};
use objr::export_name::{export_ascii, export_name_attrs, export_name_attrs3};
use objr::instances::instance_impl;
use objr::misc::{Token, TokenKind};
use objr::selectors::sel_expression;
use objr::strings::static_string;

fn token(kind: TokenKind, text: &str, children: Vec<Token>) -> Token {
    Token { kind, text: text.to_string(), debug: format!("<{}>", text), children }
}

fn ident(text: &str) -> Token {
    token(TokenKind::Ident, text, Vec::new())
}

fn lit(text: &str) -> Token {
    token(TokenKind::Literal, text, Vec::new())
}

fn string(text: &str) -> Token {
    lit(&format!("\"{}\"", text))
}

fn comma() -> Token {
    token(TokenKind::Punct, ",", Vec::new())
}

fn punct(text: &str) -> Token {
    token(TokenKind::Punct, text, Vec::new())
}

fn group(text: &str, children: Vec<Token>) -> Token {
    token(TokenKind::Group, text, children)
}

fn complaint(message: &str) -> String {
    format!("compile_error!(\"{}\")", message.replace('"', "\\\""))
}

#[test]
fn shape_check_refuses_a_lone_quote_only() {
    assert!(check_shape(&vec![]));
    assert!(check_shape(&vec![string("a"), lit("\"\""), lit("r#"), ident("x"), comma()]));
    assert!(!check_shape(&vec![string("a"), lit("\"")]));
    assert!(!check_shape(&vec![group("(\")", vec![lit("\"")])]));
    // An identifier is never measured, whatever its text.
    assert!(check_shape(&vec![ident("\"")]));
}

#[test]
fn selector_declaration() {
    assert_eq!(
        _objc_selector_decl(&vec![string("selector")]),
        "unsafe fn selector() -> ::objr::bindings::Sel;"
    );
    assert_eq!(
        _objc_selector_decl(&vec![string("initWithFrame:")]),
        "unsafe fn initWithFrame_() -> ::objr::bindings::Sel;"
    );
    assert_eq!(
        _objc_selector_decl(&vec![string("height:width:")]),
        "unsafe fn height_width() -> ::objr::bindings::Sel;"
    );
    assert_eq!(
        _objc_selector_decl(&vec![ident("selector")]),
        complaint("Expected selector, but unexpected <selector>")
    );
    assert_eq!(_objc_selector_decl(&vec![]), complaint("Expected selector, but Nothing found."));
    assert_eq!(
        _objc_selector_decl(&vec![string("a"), string("b")]),
        complaint("Unexpected token \"b\"")
    );
}

#[test]
fn selector_implementation() {
    assert_eq!(
        _objc_selector_impl(&vec![string("height:")]),
        format!("unsafe fn height_() -> ::objr::bindings::Sel{}", sel_expression("height:"))
    );
    assert_eq!(
        _objc_selector_impl(&vec![punct("+")]),
        complaint("Expected selector literal, but unexpected <+>")
    );
    assert_eq!(
        _objc_selector_impl(&vec![string("a"), comma()]),
        complaint("Unexpected token ,")
    );
}

#[test]
fn derive_finds_the_struct_name() {
    let input = vec![
        punct("#"),
        group("[repr(transparent)]", vec![ident("repr"), group("(transparent)", vec![ident("transparent")])]),
        ident("pub"),
        ident("struct"),
        ident("NSExample"),
        group("(c_void)", vec![ident("c_void")]),
        punct(";"),
    ];
    assert_eq!(derive_objc_instance(&input), instance_impl("NSExample"));
    // The name is the first identifier after `struct`, whatever stands between.
    let input = vec![ident("struct"), punct("#"), lit("1"), ident("struct"), ident("X")];
    assert_eq!(derive_objc_instance(&input), instance_impl("struct"));
    // Groups are looked into.
    let input = vec![group("(struct A)", vec![ident("struct"), ident("A")])];
    assert_eq!(derive_objc_instance(&input), instance_impl("A"));
}

#[test]
fn derive_without_a_struct_shows_the_last_token() {
    assert_eq!(
        derive_objc_instance(&vec![]),
        complaint("Looking for `struct Identifier` near None")
    );
    assert_eq!(
        derive_objc_instance(&vec![ident("enum"), ident("E")]),
        complaint("Looking for `struct Identifier` near Some(Ident(<E>))")
    );
    assert_eq!(
        derive_objc_instance(&vec![ident("struct")]),
        complaint("Looking for `struct Identifier` near Some(Ident(<struct>))")
    );
    assert_eq!(
        derive_objc_instance(&vec![ident("struct"), punct(";")]),
        complaint("Looking for `struct Identifier` near Some(Punct(()))")
    );
    assert_eq!(
        derive_objc_instance(&vec![ident("enum"), lit("1")]),
        complaint("Looking for `struct Identifier` near Some(Literal(()))")
    );
}

#[test]
fn implement_class_expansion() {
    assert_eq!(
        __objc_implement_class(&vec![ident("RustIdentifier"), comma(), ident("NSObject")]),
        implement_class("RustIdentifier", "NSObject")
    );
    assert_eq!(
        __objc_implement_class(&vec![string("x")]),
        complaint("Expected rust identifier \"unexpected <\\\"x\\\">\"")
    );
    assert_eq!(
        __objc_implement_class(&vec![ident("A")]),
        complaint("Expected comma, got None")
    );
    assert_eq!(
        __objc_implement_class(&vec![ident("A"), punct(";"), ident("B")]),
        complaint("Expected comma, got Some(<;>)")
    );
    assert_eq!(
        __objc_implement_class(&vec![ident("A"), comma(), lit("1")]),
        complaint("Expected objc identifier, got unexpected <1>")
    );
    assert_eq!(
        __objc_implement_class(&vec![ident("A"), comma(), ident("B"), ident("C")]),
        complaint("Expected end of macro invocation, got <C>")
    );
}

#[test]
fn nsstring_expansion() {
    assert_eq!(objc_nsstring(&vec![string("My test string")]), static_string("My test string"));
    assert_eq!(objc_nsstring(&vec![ident("x")]), complaint("Expected a literal unexpected <x>"));
    assert_eq!(objc_nsstring(&vec![]), complaint("Expected a literal Nothing found."));
    assert_eq!(
        objc_nsstring(&vec![string("a"), comma()]),
        complaint("Expected end of macro near <,>")
    );
}

#[test]
fn static_asciiz_expansion() {
    let input = vec![string("__DATA,valid_section"), comma(), ident("IDENT"), comma(), string("ascii")];
    assert_eq!(__static_asciiz(&input), export_ascii("__DATA,valid_section", "IDENT", "ascii"));
    // The last argument may be an identifier.
    let input = vec![string("__DATA,valid_section"), comma(), ident("IDENT"), comma(), ident("ascii")];
    assert_eq!(__static_asciiz(&input), export_ascii("__DATA,valid_section", "IDENT", "ascii"));
}

#[test]
fn static_asciiz_says_what_it_expected() {
    assert_eq!(
        __static_asciiz(&vec![ident("x")]),
        complaint("Expected link section literal, got Err(\"unexpected <x>\")")
    );
    assert_eq!(
        __static_asciiz(&vec![lit("r#\"x\"#")]),
        complaint("Expected link section literal, got Ok(RawLiteral(()))")
    );
    assert_eq!(
        __static_asciiz(&vec![]),
        complaint("Expected link section literal, got Err(\"Nothing found.\")")
    );
    assert_eq!(__static_asciiz(&vec![string("s")]), complaint("Expected comma, got None"));
    assert_eq!(
        __static_asciiz(&vec![string("s"), comma(), string("I")]),
        complaint("Expected identifier, got unexpected <\"I\">")
    );
    assert_eq!(
        __static_asciiz(&vec![string("s"), comma(), ident("I"), ident("J")]),
        complaint("Expected comma, got Some(<J>)")
    );
    assert_eq!(
        __static_asciiz(&vec![string("s"), comma(), ident("I"), comma(), lit("1")]),
        complaint("Expected literal or ident for ascii, unexpected <1>")
    );
    assert_eq!(
        __static_asciiz(&vec![string("s"), comma(), ident("I"), comma(), string("a"), comma()]),
        complaint("Expected end of macro invocation, got <,>")
    );
}

#[test]
fn static_asciiz_ident2_expansion() {
    let input = vec![
        string("__DATA,valid_section"), comma(), string("IDENT_1"), comma(), ident("IDENT_2"), comma(),
        string("ascii"),
    ];
    assert_eq!(
        __static_asciiz_ident2(&input),
        export_ascii("__DATA,valid_section", "IDENT_1IDENT_2", "ascii")
    );
    assert_eq!(
        __static_asciiz_ident2(&vec![string("s"), comma(), ident("P")]),
        complaint("Expected identifier prefix (literal), got Err(\"unexpected <P>\")")
    );
    assert_eq!(
        __static_asciiz_ident2(&vec![string("s"), comma(), string("P"), comma(), string("S")]),
        complaint("Expected identifier suffix (ident), got Err(\"unexpected <\\\"S\\\">\")")
    );
    assert_eq!(
        __static_asciiz_ident2(&vec![string("s"), comma(), string("P"), comma(), ident("S"), comma()]),
        complaint("Expected literal or ident for ascii, Nothing found.")
    );
}

#[test]
fn static_asciiz_as_selector_expansion() {
    let input = vec![
        string("__DATA,valid_section"), comma(), string("IDENT_1"), comma(), ident("IDENT_2"), comma(),
        string("-(void) example"),
    ];
    assert_eq!(
        __static_asciiz_ident_as_selector(&input),
        export_ascii("__DATA,valid_section", "IDENT_1IDENT_2", "example")
    );
    assert!(__static_asciiz_ident_as_selector(&input).contains("[u8; 8] = *b\"example\\0\";"));
    let input = vec![
        string("s"), comma(), string("P"), comma(), ident("S"), comma(), string("(void) example"),
    ];
    assert_eq!(
        __static_asciiz_ident_as_selector(&input),
        complaint("expected `-``near '('")
    );
}

#[test]
fn static_asciiz_as_type_encoding_expansion() {
    let input = vec![
        string("__DATA,valid_section"), comma(), string("IDENT_1"), comma(), ident("IDENT_2"), comma(),
        string("-(void) example:(int) x"),
    ];
    assert!(check_declaration_encodable(&input));
    assert_eq!(
        __static_asciiz_ident_as_type_encoding(&input),
        export_ascii("__DATA,valid_section", "IDENT_1IDENT_2", "v20@0:8i16")
    );
    let input = vec![
        string("s"), comma(), string("P"), comma(), ident("S"), comma(), string("-(void"),
    ];
    assert!(check_declaration_encodable(&input));
    assert_eq!(
        __static_asciiz_ident_as_type_encoding(&input),
        complaint("Expected `)` after -(void")
    );
    let input = vec![
        string("s"), comma(), string("P"), comma(), ident("S"), comma(), string("-(void) a:(void) x"),
    ];
    assert!(!check_declaration_encodable(&input));
    // Arguments out of order are reported by the expansion itself.
    assert!(check_declaration_encodable(&vec![ident("x")]));
}

#[test]
fn static_expr_expansion() {
    let input = vec![
        string("__DATA,valid_section"), comma(), string("EXPORT_NAME_1"), comma(),
        ident("EXPORT_NAME_2"), comma(), ident("static"), ident("EXAMPLE"), punct(":"),
        ident("bool"), punct("="), ident("false"), punct(";"),
    ];
    assert_eq!(
        __static_expr(&input),
        Ok((export_name_attrs("__DATA,valid_section", "EXPORT_NAME_1", "EXPORT_NAME_2"), 6))
    );
    assert_eq!(
        __static_expr(&vec![string("s"), comma(), ident("P")]),
        Err(complaint("Expected export name literal (prefix), got Err(\"unexpected <P>\")"))
    );
    assert_eq!(
        __static_expr(&vec![string("s"), comma(), string("P"), comma(), string("S")]),
        Err(complaint("Expected export name (suffix) ident/literal, Err(\"unexpected <\\\"S\\\">\")"))
    );
    assert_eq!(
        __static_expr(&vec![string("s"), comma(), string("P"), comma(), ident("S")]),
        Err(complaint("Expected comma, got None"))
    );
}

#[test]
fn static_expr3_expansion() {
    let input = vec![
        string("__DATA,valid_section"), comma(), string("EXPORT_NAME_1"), comma(),
        ident("EXPORT_NAME_2"), comma(), string("EXPORT_NAME_3"), comma(), ident("static"),
    ];
    assert_eq!(
        __static_expr3(&input),
        Ok((
            export_name_attrs3("__DATA,valid_section", "EXPORT_NAME_1", "EXPORT_NAME_2", "EXPORT_NAME_3"),
            8
        ))
    );
    let input = vec![
        string("s"), comma(), string("P"), comma(), ident("M"), comma(), ident("S"), comma(),
    ];
    assert_eq!(
        __static_expr3(&input),
        Err(complaint("Expected export name (suffix) ident/literal, Err(\"unexpected <S>\")"))
    );
}

#[test]
fn static_extern_expansion() {
    let input = vec![
        string("LINK_1"), comma(), ident("LINK_2"), comma(), ident("static"), ident("STATIC"),
        punct(":"), ident("u32"), punct(";"),
    ];
    let expected = format!(
        r#"
    #[link_name="{LINK_1}{LINK_2}"]
    "#,
        LINK_1 = "LINK_1",
        LINK_2 = "LINK_2"
    );
    assert_eq!(__static_extern(&input), Ok((expected, 4)));
    assert_eq!(
        __static_extern(&vec![ident("x")]),
        Err(complaint("Expected link_name (prefix) literal, Err(\"unexpected <x>\")"))
    );
    assert_eq!(
        __static_extern(&vec![string("a"), comma(), string("b")]),
        Err(complaint("Expected link_name (prefix) literal, Err(\"unexpected <\\\"b\\\">\")"))
    );
}

#[test]
fn count_is_one_more_than_the_commas() {
    assert_eq!(__count(&vec![]), "1");
    assert_eq!(__count(&vec![ident("a")]), "1");
    assert_eq!(__count(&vec![ident("a"), comma(), ident("b"), comma(), ident("c")]), "3");
    assert_eq!(__count(&vec![comma(), comma()]), "3");
    // Commas inside a group, and tokens that only look like a comma, do not count.
    assert_eq!(
        __count(&vec![group("(a, b)", vec![ident("a"), comma(), ident("b")]), comma(), lit(","), ident(",")]),
        "2"
    );
    let many: Vec<Token> = (0..11).map(|_| comma()).collect();
    assert_eq!(__count(&many), "12");
}

#[test]
fn concat_idents_expansion() {
    assert_eq!(__concat_idents(&vec![string("my"), comma(), ident("ident")]), "myident");
    // What follows is not looked at.
    assert_eq!(__concat_idents(&vec![string("my"), comma(), ident("ident"), lit("1")]), "myident");
    assert_eq!(
        __concat_idents(&vec![ident("my")]),
        complaint("Expected first ident part, Err(\"unexpected <my>\")")
    );
    assert_eq!(
        __concat_idents(&vec![string("my"), comma(), string("ident")]),
        complaint("Expected second ident part, unexpected <\"ident\">")
    );
    assert_eq!(
        __concat_3_idents(&vec![string("a"), comma(), ident("b"), comma(), string("c")]),
        "abc"
    );
    assert_eq!(
        __concat_3_idents(&vec![string("a"), comma(), ident("b"), comma(), ident("c")]),
        complaint("Expected third ident part, Err(\"unexpected <c>\")")
    );
}

#[test]
fn mod_expansion() {
    let block = group("{ const example : u8 = 0 ; }", vec![ident("const")]);
    assert_eq!(
        __mod(&vec![ident("id1"), comma(), ident("id2"), comma(), block]),
        "mod id1id2 { const example : u8 = 0 ; }"
    );
    assert_eq!(
        __mod(&vec![string("id1")]),
        complaint("Expected first ident part, Err(\"unexpected <\\\"id1\\\">\")")
    );
    assert_eq!(
        __mod(&vec![ident("id1"), comma(), ident("id2"), comma(), ident("x")]),
        complaint("Expected block, got Some(<x>)")
    );
    assert_eq!(
        __mod(&vec![ident("id1"), comma(), ident("id2"), comma()]),
        complaint("Expected block, got None")
    );
}

#[test]
fn use_expansion() {
    let args = |first: Vec<Token>| {
        let mut tokens = first;
        tokens.extend(vec![ident("A"), comma(), ident("B"), comma(), ident("C")]);
        tokens
    };
    assert_eq!(__use(&args(vec![])), " use AB::C;");
    assert_eq!(__use(&args(vec![ident("pub")])), "pub use AB::C;");
    // An empty visibility arrives as an empty group and is passed over.
    assert_eq!(__use(&args(vec![group("", vec![])])), " use AB::C;");
    assert_eq!(__use(&args(vec![group("", vec![]), ident("pub")])), "pub use AB::C;");
}

#[test]
fn use_says_what_it_expected() {
    assert_eq!(
        __use(&vec![lit("1"), lit("2")]),
        complaint("Expected first ident part, Err(\"unexpected <2>\")")
    );
    assert_eq!(__use(&vec![]), complaint("Expected first ident part, Err(\"Nothing found.\")"));
    assert_eq!(
        __use(&vec![ident("pub")]),
        complaint("Expected first ident part, Err(\"Nothing found.\")")
    );
    assert_eq!(__use(&vec![ident("A"), ident("B")]), complaint("Expected comma, got Some(<B>)"));
    assert_eq!(
        __use(&vec![ident("A"), comma(), lit("1")]),
        complaint("Expected second ident part, unexpected <1>")
    );
    assert_eq!(
        __use(&vec![ident("A"), comma(), ident("B"), comma()]),
        complaint("Expected second ident part, Nothing found.")
    );
    assert_eq!(
        __use(&vec![ident("A"), comma(), ident("B"), comma(), ident("C"), punct(";")]),
        complaint("Expected end of macro invocation, got Some(<;>)")
    );
}

#[test]
fn declaration_to_selector_expansion() {
    assert_eq!(__parse_declaration_to_sel(&vec![string("-(void) foo:(int) bar")]), "\"foo:\"");
    assert_eq!(__parse_declaration_to_sel(&vec![string("-(void) foo")]), "\"foo\"");
    assert_eq!(
        __parse_declaration_to_sel(&vec![ident("x")]),
        complaint("Unexpected Err(\"unexpected <x>\")")
    );
    assert_eq!(
        __parse_declaration_to_sel(&vec![string("-(void) foo bar")]),
        complaint("Expected `selector:` near SelectorPart(\"foo\")")
    );
}
