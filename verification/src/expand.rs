//! What each of the binding macros expands to.
//!
//! Every function here takes a macro's input as tokens and gives the source
//! text of its expansion. Where the input is not what the macro expects, the
//! text is a `compile_error!` invocation that says what was expected.

use vstd::prelude::*;
use crate::classes::{implement_class, implement_class_text};
use crate::declarations::{
    encodable, failure_text, parse_to_selector, parse_to_type_encoding, parsed, selector_text,
    type_text,
};
use crate::export_name::{
    export_ascii, export_ascii_text, export_name_attrs, export_name_attrs3,
    export_name_attrs3_text, export_name_attrs_text,
};
use crate::flatten::{flattened, FlatIterator, FlatTree, FlatView};
use crate::instances::{instance_impl, instance_impl_text};
use crate::misc::{
    after_first, error, error_text, ident_or_literal_read, ident_read, literal_read,
    literal_shape_ok, one_read_later, parse_ident, parse_ident_or_literal, parse_literal_string,
    unboxed, LiteralView, ParsedLiteral, Token, TokenIter, TokenKind,
};
use crate::selectors::{
    make_fn_partial, make_fn_partial_text, rust_name_text, sel_expression, sel_expression_text,
    sel_to_rust_name,
};
use crate::strings::{static_string, static_string_text};
use crate::text::{append_text, debug_str, decimal, decimal_text, same_text, str_debug_text};

verus! {

/// Whether every token of the input has the shape that reading a string
/// literal relies on.
pub open spec fn shape_ok(tokens: Seq<Token>) -> bool {
    forall|i: int| 0 <= i < tokens.len() ==> literal_shape_ok(unboxed(#[trigger] tokens[i]))
}

/// Whether every token of the input has the shape that reading a string
/// literal relies on.
pub fn check_shape(tokens: &Vec<Token>) -> (ok: bool)
    ensures
        ok == shape_ok(tokens@),
{
    for i in 0..tokens.len()
        invariant
            forall|j: int| 0 <= j < i ==> literal_shape_ok(unboxed(#[trigger] tokens@[j])),
    {
        let token = crate::misc::unbox_group(&tokens[i]);
        match token.kind {
            TokenKind::Literal => {
                let chars = crate::text::to_chars(token.text.as_str());
                if chars.len() == 1 && chars[0] == '"' {
                    assert(!literal_shape_ok(unboxed(tokens@[i as int])));
                    return false;
                }
            },
            _ => {},
        }
    }
    true
}

/// The `{:?}` text of the result of reading a literal.
pub open spec fn literal_result_debug(result: Result<LiteralView, Seq<char>>) -> Seq<char> {
    match result {
        Ok(LiteralView::Literal(text)) => "Ok(Literal("@ + str_debug_text(text) + "))"@,
        Ok(LiteralView::RawLiteral) => "Ok(RawLiteral(()))"@,
        Err(message) => "Err("@ + str_debug_text(message) + ")"@,
    }
}

/// The `{:?}` text of the result of reading a text.
pub open spec fn text_result_debug(result: Result<Seq<char>, Seq<char>>) -> Seq<char> {
    match result {
        Ok(text) => "Ok("@ + str_debug_text(text) + ")"@,
        Err(message) => "Err("@ + str_debug_text(message) + ")"@,
    }
}

/// The `{:?}` text of the next token, if there is one.
pub open spec fn next_debug(rest: Seq<Token>) -> Seq<char> {
    if rest.len() == 0 {
        "None"@
    } else {
        "Some("@ + rest[0].debug@ + ")"@
    }
}

/// Whether a token is the punctuation character `,`.
pub open spec fn is_comma(token: Token) -> bool {
    token.kind == TokenKind::Punct && token.text@ == ","@
}

/// An argument that has to be an ordinary string literal: its text, or the
/// error that begins with `complaint` and shows what was read.
pub open spec fn literal_argument(rest: Seq<Token>, complaint: Seq<char>) -> Result<
    Seq<char>,
    Seq<char>,
> {
    match literal_read(rest) {
        Ok(LiteralView::Literal(text)) => Ok(text),
        other => Err(error_text(complaint + literal_result_debug(other))),
    }
}

/// An argument that has to be an identifier: its text, or the error that
/// begins with `complaint` and shows what was read.
pub open spec fn ident_argument_shown(rest: Seq<Token>, complaint: Seq<char>) -> Result<
    Seq<char>,
    Seq<char>,
> {
    match ident_read(rest) {
        Ok(text) => Ok(text),
        other => Err(error_text(complaint + text_result_debug(other))),
    }
}

/// An argument that has to be an identifier: its text, or the error that
/// begins with `complaint` and goes on with the reader's own message.
pub open spec fn ident_argument(rest: Seq<Token>, complaint: Seq<char>) -> Result<
    Seq<char>,
    Seq<char>,
> {
    match ident_read(rest) {
        Ok(text) => Ok(text),
        Err(message) => Err(error_text(complaint + message)),
    }
}

/// An argument that has to be an identifier or an ordinary string literal:
/// its text, or the error that begins with `complaint` and goes on with the
/// reader's own message.
pub open spec fn ident_or_literal_argument(rest: Seq<Token>, complaint: Seq<char>) -> Result<
    Seq<char>,
    Seq<char>,
> {
    match ident_or_literal_read(rest) {
        Ok(text) => Ok(text),
        Err(message) => Err(error_text(complaint + message)),
    }
}

/// The comma between two arguments: nothing, or the error that shows what
/// stands in its place.
pub open spec fn comma(rest: Seq<Token>) -> Option<Seq<char>> {
    if rest.len() > 0 && is_comma(rest[0]) {
        None
    } else {
        Some(error_text("Expected comma, got "@ + next_debug(rest)))
    }
}

/// The end of the input: nothing, or the error that begins with
/// `complaint` and shows the token that follows.
pub open spec fn end(rest: Seq<Token>, complaint: Seq<char>) -> Option<Seq<char>> {
    if rest.len() == 0 {
        None
    } else {
        Some(error_text(complaint + rest[0].debug@))
    }
}

fn complain(complaint: &str, detail: &str) -> (text: String)
    ensures
        text@ == error_text(complaint@ + detail@),
{
    let mut message = complaint.to_owned();
    append_text(&mut message, detail);
    error(message.as_str())
}

fn show_literal_result(result: &Result<ParsedLiteral, String>) -> (shown: String)
    ensures
        shown@ == literal_result_debug(crate::misc::literal_outcome(*result)),
{
    match result {
        Ok(ParsedLiteral::Literal(text)) => {
            let mut shown = "Ok(Literal(".to_owned();
            append_text(&mut shown, debug_str(text.as_str()).as_str());
            append_text(&mut shown, "))");
            shown
        },
        Ok(ParsedLiteral::RawLiteral(_)) => "Ok(RawLiteral(()))".to_owned(),
        Err(message) => {
            let mut shown = "Err(".to_owned();
            append_text(&mut shown, debug_str(message.as_str()).as_str());
            append_text(&mut shown, ")");
            shown
        },
    }
}

fn show_text_result(result: &Result<String, String>) -> (shown: String)
    ensures
        shown@ == text_result_debug(crate::misc::text_outcome(*result)),
{
    match result {
        Ok(text) => {
            let mut shown = "Ok(".to_owned();
            append_text(&mut shown, debug_str(text.as_str()).as_str());
            append_text(&mut shown, ")");
            shown
        },
        Err(message) => {
            let mut shown = "Err(".to_owned();
            append_text(&mut shown, debug_str(message.as_str()).as_str());
            append_text(&mut shown, ")");
            shown
        },
    }
}

fn show_next(token: Option<&Token>) -> (shown: String)
    ensures
        token is None ==> shown@ == "None"@,
        token is Some ==> shown@ == "Some("@ + token->0.debug@ + ")"@,
{
    match token {
        None => "None".to_owned(),
        Some(token) => {
            let mut shown = "Some(".to_owned();
            append_text(&mut shown, token.debug.as_str());
            append_text(&mut shown, ")");
            shown
        },
    }
}

fn read_literal_argument(iter: &mut TokenIter, complaint: &str) -> (result: Result<String, String>)
    requires
        crate::misc::next_shape_ok(old(iter).rest()),
    ensures
        one_read_later(*old(iter), *final(iter)),
        crate::misc::text_outcome(result) == literal_argument(old(iter).rest(), complaint@),
{
    match parse_literal_string(iter) {
        Ok(ParsedLiteral::Literal(l)) => Ok(l),
        other => Err(complain(complaint, show_literal_result(&other).as_str())),
    }
}

fn read_ident_argument_shown(iter: &mut TokenIter, complaint: &str) -> (result: Result<
    String,
    String,
>)
    ensures
        one_read_later(*old(iter), *final(iter)),
        crate::misc::text_outcome(result) == ident_argument_shown(old(iter).rest(), complaint@),
{
    match parse_ident(iter) {
        Ok(l) => Ok(l),
        other => Err(complain(complaint, show_text_result(&other).as_str())),
    }
}

fn read_ident_argument(iter: &mut TokenIter, complaint: &str) -> (result: Result<String, String>)
    ensures
        one_read_later(*old(iter), *final(iter)),
        crate::misc::text_outcome(result) == ident_argument(old(iter).rest(), complaint@),
{
    match parse_ident(iter) {
        Ok(l) => Ok(l),
        Err(e) => Err(complain(complaint, e.as_str())),
    }
}

fn read_ident_or_literal_argument(iter: &mut TokenIter, complaint: &str) -> (result: Result<
    String,
    String,
>)
    requires
        crate::misc::next_shape_ok(old(iter).rest()),
    ensures
        one_read_later(*old(iter), *final(iter)),
        crate::misc::text_outcome(result) == ident_or_literal_argument(
            old(iter).rest(),
            complaint@,
        ),
{
    match parse_ident_or_literal(iter) {
        Ok(l) => Ok(l),
        Err(e) => Err(complain(complaint, e.as_str())),
    }
}

fn read_comma(iter: &mut TokenIter) -> (refusal: Option<String>)
    ensures
        one_read_later(*old(iter), *final(iter)),
        refusal is Some <==> comma(old(iter).rest()) is Some,
        refusal is Some ==> refusal->0@ == comma(old(iter).rest())->0,
{
    let next = iter.next();
    let is_comma = match next {
        Some(token) => match token.kind {
            TokenKind::Punct => same_text(token.text.as_str(), ","),
            _ => false,
        },
        None => false,
    };
    if is_comma {
        None
    } else {
        Some(complain("Expected comma, got ", show_next(next).as_str()))
    }
}

fn read_end(iter: &mut TokenIter, complaint: &str) -> (refusal: Option<String>)
    ensures
        one_read_later(*old(iter), *final(iter)),
        refusal is Some <==> end(old(iter).rest(), complaint@) is Some,
        refusal is Some ==> refusal->0@ == end(old(iter).rest(), complaint@)->0,
{
    match iter.next() {
        None => None,
        Some(e) => Some(complain(complaint, e.debug.as_str())),
    }
}

/// The tokens are in shape from any later point on as well.
proof fn lemma_shape_goes_on(tokens: Seq<Token>)
    requires
        shape_ok(tokens),
    ensures
        shape_ok(after_first(tokens)),
        crate::misc::next_shape_ok(tokens),
{
    if tokens.len() > 0 {
        assert(literal_shape_ok(unboxed(tokens[0])));
        assert forall|i: int| 0 <= i < tokens.drop_first().len() implies literal_shape_ok(
            unboxed(#[trigger] tokens.drop_first()[i]),
        ) by {
            assert(tokens.drop_first()[i] == tokens[i + 1]);
        }
    }
}

/// The declaration of the function that returns the selector named in the
/// macro's one argument, a string literal: its header and a semicolon.
pub open spec fn selector_decl_text(tokens: Seq<Token>) -> Seq<char> {
    let r1 = after_first(tokens);
    match literal_read(tokens) {
        Err(message) => error_text("Expected selector, but "@ + message),
        Ok(selector) => {
            if r1.len() > 0 {
                error_text("Unexpected token "@ + r1[0].text@)
            } else {
                make_fn_partial_text(rust_name_text(selector->Literal_0)) + ";"@
            }
        },
    }
}

/// Expands `_objc_selector_decl!{"selector"}` to
/// `unsafe fn selector() -> ::objr::bindings::Sel;`.
pub fn _objc_selector_decl(stream: &Vec<Token>) -> (out: String)
    requires
        shape_ok(stream@),
        literal_read(stream@) != Ok::<LiteralView, Seq<char>>(LiteralView::RawLiteral),
    ensures
        out@ == selector_decl_text(stream@),
{
    let mut iter = TokenIter::new(stream);
    proof {
        lemma_shape_goes_on(stream@);
    }
    let selector = match parse_literal_string(&mut iter) {
        Ok(s) => s,
        Err(e) => {
            return complain("Expected selector, but ", e.as_str());
        },
    };
    let rust_name = sel_to_rust_name(selector.unwrap_literal().as_str());
    let mut fn_decl = make_fn_partial(rust_name.as_str());
    append_text(&mut fn_decl, ";");
    match iter.next() {
        None => (),
        Some(other) => {
            return complain("Unexpected token ", other.text.as_str());
        },
    }
    fn_decl
}

/// The function that returns the selector named in the macro's one
/// argument, a string literal: its header and, as its body, the expression
/// for the selector that the loader resolves.
pub open spec fn selector_impl_text(tokens: Seq<Token>) -> Seq<char> {
    let r1 = after_first(tokens);
    match literal_read(tokens) {
        Err(message) => error_text("Expected selector literal, but "@ + message),
        Ok(selector) => {
            if r1.len() > 0 {
                error_text("Unexpected token "@ + r1[0].text@)
            } else {
                make_fn_partial_text(rust_name_text(selector->Literal_0)) + sel_expression_text(
                    selector->Literal_0,
                )
            }
        },
    }
}

/// Expands `_objc_selector_impl!{"selector"}` to the function that yields
/// the selector.
pub fn _objc_selector_impl(stream: &Vec<Token>) -> (out: String)
    requires
        shape_ok(stream@),
        literal_read(stream@) != Ok::<LiteralView, Seq<char>>(LiteralView::RawLiteral),
    ensures
        out@ == selector_impl_text(stream@),
{
    let mut iter = TokenIter::new(stream);
    proof {
        lemma_shape_goes_on(stream@);
    }
    let selector = match parse_literal_string(&mut iter) {
        Ok(s) => s,
        Err(e) => {
            return complain("Expected selector literal, but ", e.as_str());
        },
    }.unwrap_literal();
    let rust_name = sel_to_rust_name(selector.as_str());
    let mut decl = make_fn_partial(rust_name.as_str());
    append_text(&mut decl, sel_expression(selector.as_str()).as_str());
    match iter.next() {
        None => (),
        Some(other) => {
            return complain("Unexpected token ", other.text.as_str());
        },
    }
    decl
}

/// The name of the struct that a run of flat tokens declares: the first
/// identifier after the first identifier `struct`. `armed` says whether
/// `struct` has been seen already.
pub open spec fn struct_name(flat: Seq<FlatView>, armed: bool) -> Option<Seq<char>>
    decreases flat.len(),
{
    if flat.len() == 0 {
        None
    } else {
        match flat[0] {
            FlatView::Ident { text, debug } => {
                if armed {
                    Some(text)
                } else {
                    struct_name(flat.drop_first(), text == "struct"@)
                }
            },
            _ => struct_name(flat.drop_first(), armed),
        }
    }
}

/// The `{:?}` text of a flat token.
pub open spec fn flat_debug(item: FlatView) -> Seq<char> {
    match item {
        FlatView::Ident { text, debug } => "Ident("@ + debug + ")"@,
        FlatView::Punct => "Punct(())"@,
        FlatView::Literal => "Literal(())"@,
    }
}

/// The `{:?}` text of the last of a run of flat tokens, if there is one.
pub open spec fn last_flat_debug(flat: Seq<FlatView>) -> Seq<char> {
    if flat.len() == 0 {
        "None"@
    } else {
        "Some("@ + flat_debug(flat.last()) + ")"@
    }
}

/// The impls for the struct that the input declares, or the error that
/// shows the last token of the input.
pub open spec fn derive_instance_text(tokens: Seq<Token>) -> Seq<char> {
    match struct_name(flattened(tokens), false) {
        Some(name) => instance_impl_text(name),
        None => error_text(
            "Looking for `struct Identifier` near "@ + last_flat_debug(flattened(tokens)),
        ),
    }
}

fn show_flat(item: &Option<FlatTree>) -> (shown: String)
    ensures
        item is None ==> shown@ == "None"@,
        item is Some ==> shown@ == "Some("@ + flat_debug(item->0@) + ")"@,
{
    match item {
        None => "None".to_owned(),
        Some(FlatTree::Ident { text, debug }) => {
            let mut shown = "Some(Ident(".to_owned();
            append_text(&mut shown, debug.as_str());
            append_text(&mut shown, "))");
            proof {
                reveal_strlit("Some(Ident(");
                reveal_strlit("Some(");
                reveal_strlit("Ident(");
                reveal_strlit("))");
                reveal_strlit(")");
                assert(shown@ =~= "Some("@ + ("Ident("@ + debug@ + ")"@) + ")"@);
            }
            shown
        },
        Some(FlatTree::Punct(_)) => {
            proof {
                reveal_strlit("Some(Punct(()))");
                reveal_strlit("Some(");
                reveal_strlit("Punct(())");
                reveal_strlit(")");
                assert("Some(Punct(()))"@ =~= "Some("@ + "Punct(())"@ + ")"@);
            }
            "Some(Punct(()))".to_owned()
        },
        Some(FlatTree::Literal(_)) => {
            proof {
                reveal_strlit("Some(Literal(()))");
                reveal_strlit("Some(");
                reveal_strlit("Literal(())");
                reveal_strlit(")");
                assert("Some(Literal(()))"@ =~= "Some("@ + "Literal(())"@ + ")"@);
            }
            "Some(Literal(()))".to_owned()
        },
    }
}

/// Expands `#[derive(ObjcInstance)]` on a struct to the impls that every
/// bound instance type gets.
pub fn derive_objc_instance(stream: &Vec<Token>) -> (out: String)
    ensures
        out@ == derive_instance_text(stream@),
{
    let mut parse_ident = false;
    let mut parsed_name: Option<String> = None;
    let mut item_help: Option<FlatTree> = None;
    let ghost all = flattened(stream@);
    let ghost mut seen: int = 0;

    let mut items = FlatIterator::new(stream);
    assert(all.skip(0) =~= all);
    loop
        invariant
            0 <= seen <= all.len(),
            all == flattened(stream@),
            items.remaining() == all.skip(seen),
            parsed_name is None,
            struct_name(all, false) == struct_name(all.skip(seen), parse_ident),
            seen == 0 ==> item_help is None,
            seen > 0 ==> item_help is Some && item_help->0@ == all[seen - 1],
        ensures
            seen == all.len(),
        decreases all.len() - seen,
    {
        let item = match items.next() {
            Some(item) => item,
            None => {
                assert(all.skip(seen).len() == 0);
                break ;
            },
        };
        proof {
            assert(all.skip(seen)[0] == all[seen]);
            assert(all.skip(seen).drop_first() =~= all.skip(seen + 1));
        }
        match &item {
            FlatTree::Ident { text, debug } => {
                if parse_ident {
                    parsed_name = Some(text.clone());
                    return instance_impl(parsed_name.unwrap().as_str());
                } else if same_text(text.as_str(), "struct") {
                    parse_ident = true;
                }
            },
            _ => (),
        }
        item_help = Some(item);
        proof {
            seen = seen + 1;
        }
    }
    assert(all.skip(seen) =~= Seq::<FlatView>::empty());
    let mut message = "Looking for `struct Identifier` near ".to_owned();
    append_text(&mut message, show_flat(&item_help).as_str());
    error(message.as_str())
}

/// The `ObjcClass` impl for the two identifiers of the input, the Rust type
/// and the Objective-C class, with a comma between them.
pub open spec fn implement_class_expansion(tokens: Seq<Token>) -> Seq<char> {
    let r1 = after_first(tokens);
    let r2 = after_first(r1);
    let r3 = after_first(r2);
    match ident_read(tokens) {
        Err(message) => error_text("Expected rust identifier "@ + str_debug_text(message)),
        Ok(rust_identifier) => match comma(r1) {
            Some(text) => text,
            None => match ident_argument(r2, "Expected objc identifier, got "@) {
                Err(text) => text,
                Ok(objc_identifier) => match end(r3, "Expected end of macro invocation, got "@) {
                    Some(text) => text,
                    None => implement_class_text(rust_identifier, objc_identifier),
                },
            },
        },
    }
}

/// Expands `__objc_implement_class!{RustName, ObjcName}`.
pub fn __objc_implement_class(stream: &Vec<Token>) -> (out: String)
    ensures
        out@ == implement_class_expansion(stream@),
{
    let mut iter = TokenIter::new(stream);
    let rust_identifier = match parse_ident(&mut iter) {
        Ok(i) => i,
        Err(err) => {
            return complain("Expected rust identifier ", debug_str(err.as_str()).as_str());
        },
    };
    match read_comma(&mut iter) {
        None => (),
        Some(text) => {
            return text;
        },
    }
    let objc_identifier = match read_ident_argument(&mut iter, "Expected objc identifier, got ") {
        Ok(ident) => ident,
        Err(text) => {
            return text;
        },
    };
    match read_end(&mut iter, "Expected end of macro invocation, got ") {
        None => (),
        Some(text) => {
            return text;
        },
    }
    implement_class(rust_identifier.as_str(), objc_identifier.as_str())
}

/// The expression for the constant `NSString` that holds the text of the
/// macro's one argument, a string literal.
pub open spec fn nsstring_text(tokens: Seq<Token>) -> Seq<char> {
    let r1 = after_first(tokens);
    match literal_read(tokens) {
        Err(message) => error_text("Expected a literal "@ + message),
        Ok(literal) => {
            if r1.len() > 0 {
                error_text("Expected end of macro near "@ + r1[0].debug@)
            } else {
                static_string_text(literal->Literal_0)
            }
        },
    }
}

/// Expands `objc_nsstring!("text")`.
pub fn objc_nsstring(stream: &Vec<Token>) -> (out: String)
    requires
        shape_ok(stream@),
        literal_read(stream@) != Ok::<LiteralView, Seq<char>>(LiteralView::RawLiteral),
    ensures
        out@ == nsstring_text(stream@),
{
    let mut iter = TokenIter::new(stream);
    proof {
        lemma_shape_goes_on(stream@);
    }
    let literal = match parse_literal_string(&mut iter) {
        Ok(literal) => literal,
        Err(str) => {
            return complain("Expected a literal ", str.as_str());
        },
    }.unwrap_literal();
    let extra = iter.next();
    if extra.is_some() {
        return complain("Expected end of macro near ", extra.unwrap().debug.as_str());
    }
    static_string(literal.as_str())
}

/// The static byte string for the arguments `"section", IDENT, "ascii"`,
/// where the last may be an identifier instead.
pub open spec fn static_asciiz_text(tokens: Seq<Token>) -> Seq<char> {
    let r1 = after_first(tokens);
    let r2 = after_first(r1);
    let r3 = after_first(r2);
    let r4 = after_first(r3);
    let r5 = after_first(r4);
    match literal_argument(tokens, "Expected link section literal, got "@) {
        Err(text) => text,
        Ok(link_section) => match comma(r1) {
            Some(text) => text,
            None => match ident_argument(r2, "Expected identifier, got "@) {
                Err(text) => text,
                Ok(ident) => match comma(r3) {
                    Some(text) => text,
                    None => match ident_or_literal_argument(
                        r4,
                        "Expected literal or ident for ascii, "@,
                    ) {
                        Err(text) => text,
                        Ok(ascii) => match end(r5, "Expected end of macro invocation, got "@) {
                            Some(text) => text,
                            None => export_ascii_text(link_section, ident, ascii),
                        },
                    },
                },
            },
        },
    }
}

/// Expands `__static_asciiz!("section", IDENT, "ascii")`.
pub fn __static_asciiz(stream: &Vec<Token>) -> (out: String)
    requires
        shape_ok(stream@),
    ensures
        out@ == static_asciiz_text(stream@),
{
    let mut iter = TokenIter::new(stream);
    proof {
        let r1 = after_first(stream@);
        let r2 = after_first(r1);
        let r3 = after_first(r2);
        lemma_shape_goes_on(stream@);
        lemma_shape_goes_on(r1);
        lemma_shape_goes_on(r2);
        lemma_shape_goes_on(r3);
        lemma_shape_goes_on(after_first(r3));
    }
    let link_section = match read_literal_argument(
        &mut iter,
        "Expected link section literal, got ",
    ) {
        Ok(l) => l,
        Err(text) => {
            return text;
        },
    };
    match read_comma(&mut iter) {
        None => (),
        Some(text) => {
            return text;
        },
    }
    let ident = match read_ident_argument(&mut iter, "Expected identifier, got ") {
        Ok(ident) => ident,
        Err(text) => {
            return text;
        },
    };
    match read_comma(&mut iter) {
        None => (),
        Some(text) => {
            return text;
        },
    }
    let ascii = match read_ident_or_literal_argument(
        &mut iter,
        "Expected literal or ident for ascii, ",
    ) {
        Ok(l) => l,
        Err(text) => {
            return text;
        },
    };
    match read_end(&mut iter, "Expected end of macro invocation, got ") {
        None => (),
        Some(text) => {
            return text;
        },
    }
    export_ascii(link_section.as_str(), ident.as_str(), ascii.as_str())
}

/// The four arguments `"section", "PREFIX", SUFFIX, last` of the macros
/// that name a static by two parts: the section, the name put together, and
/// the last argument, which is a string literal or an identifier. Nothing
/// may follow them.
pub open spec fn section_name_and_last(tokens: Seq<Token>) -> Result<
    (Seq<char>, Seq<char>, Seq<char>),
    Seq<char>,
> {
    let r1 = after_first(tokens);
    let r2 = after_first(r1);
    let r3 = after_first(r2);
    let r4 = after_first(r3);
    let r5 = after_first(r4);
    let r6 = after_first(r5);
    let r7 = after_first(r6);
    match literal_argument(tokens, "Expected link section literal, got "@) {
        Err(text) => Err(text),
        Ok(link_section) => match comma(r1) {
            Some(text) => Err(text),
            None => match literal_argument(r2, "Expected identifier prefix (literal), got "@) {
                Err(text) => Err(text),
                Ok(ident_1) => match comma(r3) {
                    Some(text) => Err(text),
                    None => match ident_argument_shown(
                        r4,
                        "Expected identifier suffix (ident), got "@,
                    ) {
                        Err(text) => Err(text),
                        Ok(ident_2) => match comma(r5) {
                            Some(text) => Err(text),
                            None => match ident_or_literal_argument(
                                r6,
                                "Expected literal or ident for ascii, "@,
                            ) {
                                Err(text) => Err(text),
                                Ok(last) => match end(
                                    r7,
                                    "Expected end of macro invocation, got "@,
                                ) {
                                    Some(text) => Err(text),
                                    None => Ok((link_section, ident_1 + ident_2, last)),
                                },
                            },
                        },
                    },
                },
            },
        },
    }
}

/// What `read_section_name_and_last` has read, as text.
pub open spec fn named_outcome(result: Result<(String, String, String), String>) -> Result<
    (Seq<char>, Seq<char>, Seq<char>),
    Seq<char>,
> {
    match result {
        Ok(read) => Ok((read.0@, read.1@, read.2@)),
        Err(text) => Err(text@),
    }
}

fn read_section_name_and_last(stream: &Vec<Token>) -> (result: Result<
    (String, String, String),
    String,
>)
    requires
        shape_ok(stream@),
    ensures
        named_outcome(result) == section_name_and_last(stream@),
{
    let mut iter = TokenIter::new(stream);
    proof {
        let r1 = after_first(stream@);
        let r2 = after_first(r1);
        let r3 = after_first(r2);
        let r4 = after_first(r3);
        let r5 = after_first(r4);
        lemma_shape_goes_on(stream@);
        lemma_shape_goes_on(r1);
        lemma_shape_goes_on(r2);
        lemma_shape_goes_on(r3);
        lemma_shape_goes_on(r4);
        lemma_shape_goes_on(r5);
        lemma_shape_goes_on(after_first(r5));
    }
    let link_section = match read_literal_argument(
        &mut iter,
        "Expected link section literal, got ",
    ) {
        Ok(l) => l,
        Err(text) => {
            return Err(text);
        },
    };
    match read_comma(&mut iter) {
        None => (),
        Some(text) => {
            return Err(text);
        },
    }
    let ident_1 = match read_literal_argument(
        &mut iter,
        "Expected identifier prefix (literal), got ",
    ) {
        Ok(l) => l,
        Err(text) => {
            return Err(text);
        },
    };
    match read_comma(&mut iter) {
        None => (),
        Some(text) => {
            return Err(text);
        },
    }
    let ident_2 = match read_ident_argument_shown(
        &mut iter,
        "Expected identifier suffix (ident), got ",
    ) {
        Ok(l) => l,
        Err(text) => {
            return Err(text);
        },
    };
    match read_comma(&mut iter) {
        None => (),
        Some(text) => {
            return Err(text);
        },
    }
    let last = match read_ident_or_literal_argument(
        &mut iter,
        "Expected literal or ident for ascii, ",
    ) {
        Ok(l) => l,
        Err(text) => {
            return Err(text);
        },
    };
    match read_end(&mut iter, "Expected end of macro invocation, got ") {
        None => (),
        Some(text) => {
            return Err(text);
        },
    }
    let mut ident = ident_1;
    append_text(&mut ident, ident_2.as_str());
    Ok((link_section, ident, last))
}

/// The static byte string for the arguments
/// `"section", "PREFIX", SUFFIX, "ascii"`, named `PREFIXSUFFIX`.
pub open spec fn static_asciiz_ident2_text(tokens: Seq<Token>) -> Seq<char> {
    match section_name_and_last(tokens) {
        Err(text) => text,
        Ok(read) => export_ascii_text(read.0, read.1, read.2),
    }
}

/// Expands `__static_asciiz_ident2!("section", "PREFIX", SUFFIX, "ascii")`.
pub fn __static_asciiz_ident2(stream: &Vec<Token>) -> (out: String)
    requires
        shape_ok(stream@),
    ensures
        out@ == static_asciiz_ident2_text(stream@),
{
    match read_section_name_and_last(stream) {
        Err(text) => text,
        Ok(read) => export_ascii(read.0.as_str(), read.1.as_str(), read.2.as_str()),
    }
}

/// The static byte string that holds the selector of the declaration given
/// as the last of the arguments `"section", "PREFIX", SUFFIX, "declaration"`.
pub open spec fn static_asciiz_ident_as_selector_text(tokens: Seq<Token>) -> Seq<char> {
    match section_name_and_last(tokens) {
        Err(text) => text,
        Ok(read) => match parsed(read.2) {
            Err(failure) => error_text(failure_text(failure, read.2)),
            Ok(declaration) => export_ascii_text(read.0, read.1, selector_text(declaration)),
        },
    }
}

/// Expands
/// `__static_asciiz_ident_as_selector!("section", "PREFIX", SUFFIX, "-(void) example")`.
pub fn __static_asciiz_ident_as_selector(stream: &Vec<Token>) -> (out: String)
    requires
        shape_ok(stream@),
    ensures
        out@ == static_asciiz_ident_as_selector_text(stream@),
{
    match read_section_name_and_last(stream) {
        Err(text) => text,
        Ok(read) => {
            let selector = parse_to_selector(read.2.as_str());
            match selector {
                Err(message) => error(message.as_str()),
                Ok(selector) => export_ascii(
                    read.0.as_str(),
                    read.1.as_str(),
                    selector.as_str(),
                ),
            }
        },
    }
}

/// Whether the declaration among the arguments, if the arguments are in
/// order and it can be read, has a type encoding.
pub open spec fn declaration_encodable(tokens: Seq<Token>) -> bool {
    match section_name_and_last(tokens) {
        Err(text) => true,
        Ok(read) => parsed(read.2) is Ok ==> encodable(parsed(read.2)->Ok_0),
    }
}

/// Whether `__static_asciiz_ident_as_type_encoding` may be called on the
/// input.
pub fn check_declaration_encodable(stream: &Vec<Token>) -> (ok: bool)
    requires
        shape_ok(stream@),
    ensures
        ok == declaration_encodable(stream@),
{
    match read_section_name_and_last(stream) {
        Err(_) => true,
        Ok(read) => crate::declarations::can_parse_to_type_encoding(read.2.as_str()),
    }
}

/// The static byte string that holds the type encoding of the declaration
/// given as the last of the arguments
/// `"section", "PREFIX", SUFFIX, "declaration"`.
pub open spec fn static_asciiz_ident_as_type_encoding_text(tokens: Seq<Token>) -> Seq<char> {
    match section_name_and_last(tokens) {
        Err(text) => text,
        Ok(read) => match parsed(read.2) {
            Err(failure) => error_text(failure_text(failure, read.2)),
            Ok(declaration) => export_ascii_text(read.0, read.1, type_text(declaration)),
        },
    }
}

/// Expands
/// `__static_asciiz_ident_as_type_encoding!("section", "PREFIX", SUFFIX, "-(void) example")`.
pub fn __static_asciiz_ident_as_type_encoding(stream: &Vec<Token>) -> (out: String)
    requires
        shape_ok(stream@),
        declaration_encodable(stream@),
    ensures
        out@ == static_asciiz_ident_as_type_encoding_text(stream@),
{
    match read_section_name_and_last(stream) {
        Err(text) => text,
        Ok(read) => {
            let type_encoding = parse_to_type_encoding(read.2.as_str());
            match type_encoding {
                Err(message) => error(message.as_str()),
                Ok(encoding) => export_ascii(
                    read.0.as_str(),
                    read.1.as_str(),
                    encoding.as_str(),
                ),
            }
        },
    }
}

/// What a macro gives that puts attributes in front of an item of its
/// input: as text, the attributes, or the error in their place.
pub open spec fn attributes_outcome(result: Result<(String, usize), String>) -> Result<
    Seq<char>,
    Seq<char>,
> {
    match result {
        Ok(read) => Ok(read.0@),
        Err(text) => Err(text@),
    }
}

/// The attributes for the arguments `"section", "PREFIX", SUFFIX,` in
/// front of an item: the item is placed in the section and exported as
/// `PREFIXSUFFIX`.
pub open spec fn static_expr_attributes(tokens: Seq<Token>) -> Result<Seq<char>, Seq<char>> {
    let r1 = after_first(tokens);
    let r2 = after_first(r1);
    let r3 = after_first(r2);
    let r4 = after_first(r3);
    let r5 = after_first(r4);
    match literal_argument(tokens, "Expected link section literal, got "@) {
        Err(text) => Err(text),
        Ok(link_section) => match comma(r1) {
            Some(text) => Err(text),
            None => match literal_argument(r2, "Expected export name literal (prefix), got "@) {
                Err(text) => Err(text),
                Ok(export_name_1) => match comma(r3) {
                    Some(text) => Err(text),
                    None => match ident_argument_shown(
                        r4,
                        "Expected export name (suffix) ident/literal, "@,
                    ) {
                        Err(text) => Err(text),
                        Ok(export_name_2) => match comma(r5) {
                            Some(text) => Err(text),
                            None => Ok(
                                export_name_attrs_text(link_section, export_name_1, export_name_2),
                            ),
                        },
                    },
                },
            },
        },
    }
}

/// Expands `__static_expr!("section", "PREFIX", SUFFIX, item)`. On success
/// the result holds the attributes and the number of tokens read, six; the
/// expansion is the attributes followed by the rest of the input, which is
/// the item. On failure it holds the error, which is the whole expansion.
pub fn __static_expr(stream: &Vec<Token>) -> (result: Result<(String, usize), String>)
    requires
        shape_ok(stream@),
    ensures
        attributes_outcome(result) == static_expr_attributes(stream@),
        result is Ok ==> result->Ok_0.1 == 6 && stream@.len() >= 6,
{
    let mut iter = TokenIter::new(stream);
    proof {
        let r1 = after_first(stream@);
        let r2 = after_first(r1);
        lemma_shape_goes_on(stream@);
        lemma_shape_goes_on(r1);
        lemma_shape_goes_on(r2);
    }
    let link_section = match read_literal_argument(
        &mut iter,
        "Expected link section literal, got ",
    ) {
        Ok(l) => l,
        Err(text) => {
            return Err(text);
        },
    };
    match read_comma(&mut iter) {
        None => (),
        Some(text) => {
            return Err(text);
        },
    }
    let export_name_1 = match read_literal_argument(
        &mut iter,
        "Expected export name literal (prefix), got ",
    ) {
        Ok(l) => l,
        Err(text) => {
            return Err(text);
        },
    };
    match read_comma(&mut iter) {
        None => (),
        Some(text) => {
            return Err(text);
        },
    }
    let export_name_2 = match read_ident_argument_shown(
        &mut iter,
        "Expected export name (suffix) ident/literal, ",
    ) {
        Ok(i) => i,
        Err(text) => {
            return Err(text);
        },
    };
    match read_comma(&mut iter) {
        None => (),
        Some(text) => {
            return Err(text);
        },
    }
    let attrs = export_name_attrs(
        link_section.as_str(),
        export_name_1.as_str(),
        export_name_2.as_str(),
    );
    Ok((attrs, iter.position()))
}

/// The attributes for the arguments `"section", "PREFIX", MIDDLE, "SUFFIX",`
/// in front of an item: the item is placed in the section and exported as
/// `PREFIXMIDDLESUFFIX`.
pub open spec fn static_expr3_attributes(tokens: Seq<Token>) -> Result<Seq<char>, Seq<char>> {
    let r1 = after_first(tokens);
    let r2 = after_first(r1);
    let r3 = after_first(r2);
    let r4 = after_first(r3);
    let r5 = after_first(r4);
    let r6 = after_first(r5);
    let r7 = after_first(r6);
    match literal_argument(tokens, "Expected link section literal, got "@) {
        Err(text) => Err(text),
        Ok(link_section) => match comma(r1) {
            Some(text) => Err(text),
            None => match literal_argument(r2, "Expected export name literal (prefix), got "@) {
                Err(text) => Err(text),
                Ok(export_name_1) => match comma(r3) {
                    Some(text) => Err(text),
                    None => match ident_argument_shown(
                        r4,
                        "Expected export name (suffix) ident/literal, "@,
                    ) {
                        Err(text) => Err(text),
                        Ok(export_name_2) => match comma(r5) {
                            Some(text) => Err(text),
                            None => match literal_argument(
                                r6,
                                "Expected export name (suffix) ident/literal, "@,
                            ) {
                                Err(text) => Err(text),
                                Ok(export_name_3) => match comma(r7) {
                                    Some(text) => Err(text),
                                    None => Ok(
                                        export_name_attrs3_text(
                                            link_section,
                                            export_name_1,
                                            export_name_2,
                                            export_name_3,
                                        ),
                                    ),
                                },
                            },
                        },
                    },
                },
            },
        },
    }
}

/// Expands `__static_expr3!("section", "PREFIX", MIDDLE, "SUFFIX", item)`.
/// On success the result holds the attributes and the number of tokens
/// read, eight; the expansion is the attributes followed by the rest of the
/// input. On failure it holds the error, which is the whole expansion.
pub fn __static_expr3(stream: &Vec<Token>) -> (result: Result<(String, usize), String>)
    requires
        shape_ok(stream@),
    ensures
        attributes_outcome(result) == static_expr3_attributes(stream@),
        result is Ok ==> result->Ok_0.1 == 8 && stream@.len() >= 8,
{
    let mut iter = TokenIter::new(stream);
    proof {
        let r1 = after_first(stream@);
        let r2 = after_first(r1);
        let r3 = after_first(r2);
        let r4 = after_first(r3);
        let r5 = after_first(r4);
        lemma_shape_goes_on(stream@);
        lemma_shape_goes_on(r1);
        lemma_shape_goes_on(r2);
        lemma_shape_goes_on(r3);
        lemma_shape_goes_on(r4);
        lemma_shape_goes_on(r5);
        lemma_shape_goes_on(after_first(r5));
    }
    let link_section = match read_literal_argument(
        &mut iter,
        "Expected link section literal, got ",
    ) {
        Ok(l) => l,
        Err(text) => {
            return Err(text);
        },
    };
    match read_comma(&mut iter) {
        None => (),
        Some(text) => {
            return Err(text);
        },
    }
    let export_name_1 = match read_literal_argument(
        &mut iter,
        "Expected export name literal (prefix), got ",
    ) {
        Ok(l) => l,
        Err(text) => {
            return Err(text);
        },
    };
    match read_comma(&mut iter) {
        None => (),
        Some(text) => {
            return Err(text);
        },
    }
    let export_name_2 = match read_ident_argument_shown(
        &mut iter,
        "Expected export name (suffix) ident/literal, ",
    ) {
        Ok(i) => i,
        Err(text) => {
            return Err(text);
        },
    };
    match read_comma(&mut iter) {
        None => (),
        Some(text) => {
            return Err(text);
        },
    }
    let export_name_3 = match read_literal_argument(
        &mut iter,
        "Expected export name (suffix) ident/literal, ",
    ) {
        Ok(i) => i,
        Err(text) => {
            return Err(text);
        },
    };
    match read_comma(&mut iter) {
        None => (),
        Some(text) => {
            return Err(text);
        },
    }
    let attrs = export_name_attrs3(
        link_section.as_str(),
        export_name_1.as_str(),
        export_name_2.as_str(),
        export_name_3.as_str(),
    );
    Ok((attrs, iter.position()))
}

/// The text in front of the name in a `link_name` attribute.
pub const LINK_NAME_OPEN: &'static str = "\n    #[link_name=\"";

/// The text behind the name in a `link_name` attribute.
pub const LINK_NAME_CLOSE: &'static str = "\"]\n    ";

/// The `link_name` attribute for the arguments `"PREFIX", SUFFIX,` in front
/// of an item of an `extern` block: the item is linked as `PREFIXSUFFIX`.
pub open spec fn static_extern_attributes(tokens: Seq<Token>) -> Result<Seq<char>, Seq<char>> {
    let r1 = after_first(tokens);
    let r2 = after_first(r1);
    let r3 = after_first(r2);
    match literal_argument(tokens, "Expected link_name (prefix) literal, "@) {
        Err(text) => Err(text),
        Ok(link_1) => match comma(r1) {
            Some(text) => Err(text),
            None => match ident_argument_shown(r2, "Expected link_name (prefix) literal, "@) {
                Err(text) => Err(text),
                Ok(link_2) => match comma(r3) {
                    Some(text) => Err(text),
                    None => Ok(LINK_NAME_OPEN@ + link_1 + link_2 + LINK_NAME_CLOSE@),
                },
            },
        },
    }
}

/// Expands `__static_extern!("PREFIX", SUFFIX, item)`. On success the
/// result holds the attribute and the number of tokens read, four; the
/// expansion is the attribute followed by the rest of the input. On failure
/// it holds the error, which is the whole expansion.
pub fn __static_extern(stream: &Vec<Token>) -> (result: Result<(String, usize), String>)
    requires
        shape_ok(stream@),
    ensures
        attributes_outcome(result) == static_extern_attributes(stream@),
        result is Ok ==> result->Ok_0.1 == 4 && stream@.len() >= 4,
{
    let mut iter = TokenIter::new(stream);
    proof {
        lemma_shape_goes_on(stream@);
    }
    let link_1 = match read_literal_argument(&mut iter, "Expected link_name (prefix) literal, ") {
        Ok(s) => s,
        Err(text) => {
            return Err(text);
        },
    };
    match read_comma(&mut iter) {
        None => (),
        Some(text) => {
            return Err(text);
        },
    }
    let link_2 = match read_ident_argument_shown(
        &mut iter,
        "Expected link_name (prefix) literal, ",
    ) {
        Ok(s) => s,
        Err(text) => {
            return Err(text);
        },
    };
    match read_comma(&mut iter) {
        None => (),
        Some(text) => {
            return Err(text);
        },
    }
    let mut initial_str = LINK_NAME_OPEN.to_owned();
    append_text(&mut initial_str, link_1.as_str());
    append_text(&mut initial_str, link_2.as_str());
    append_text(&mut initial_str, LINK_NAME_CLOSE);
    Ok((initial_str, iter.position()))
}

/// The number of commas among the first `n` tokens; commas inside groups
/// do not count.
pub open spec fn commas(tokens: Seq<Token>, n: int) -> nat
    decreases n,
{
    if n <= 0 {
        0
    } else {
        commas(tokens, n - 1) + if is_comma(tokens[n - 1]) {
            1nat
        } else {
            0nat
        }
    }
}

/// The number of arguments, as a numeral: one more than there are commas.
pub open spec fn count_text(tokens: Seq<Token>) -> Seq<char> {
    decimal_text(commas(tokens, tokens.len() as int) + 1)
}

/// Expands `__count!(a, b, c)` to the number of its arguments.
pub fn __count(stream: &Vec<Token>) -> (out: String)
    ensures
        out@ == count_text(stream@),
{
    let mut count: usize = 0;
    for i in 0..stream.len()
        invariant
            count == commas(stream@, i as int),
            count <= i,
    {
        let item = &stream[i];
        match item.kind {
            TokenKind::Punct => {
                if same_text(item.text.as_str(), ",") {
                    count += 1;
                }
            },
            _ => {},
        }
    }
    decimal(count as u128 + 1)
}

/// The identifier made of the two arguments `"first", second`.
pub open spec fn concat_idents_text(tokens: Seq<Token>) -> Seq<char> {
    let r1 = after_first(tokens);
    let r2 = after_first(r1);
    match literal_argument(tokens, "Expected first ident part, "@) {
        Err(text) => text,
        Ok(item1) => match comma(r1) {
            Some(text) => text,
            None => match ident_argument(r2, "Expected second ident part, "@) {
                Err(text) => text,
                Ok(item2) => item1 + item2,
            },
        },
    }
}

/// Expands `__concat_idents!("first", second)` to `firstsecond`. What
/// follows the second argument is not looked at.
pub fn __concat_idents(stream: &Vec<Token>) -> (out: String)
    requires
        shape_ok(stream@),
    ensures
        out@ == concat_idents_text(stream@),
{
    let mut iter = TokenIter::new(stream);
    proof {
        lemma_shape_goes_on(stream@);
    }
    let item1 = match read_literal_argument(&mut iter, "Expected first ident part, ") {
        Ok(l) => l,
        Err(text) => {
            return text;
        },
    };
    match read_comma(&mut iter) {
        None => (),
        Some(text) => {
            return text;
        },
    }
    let item2 = match read_ident_argument(&mut iter, "Expected second ident part, ") {
        Ok(i) => i,
        Err(text) => {
            return text;
        },
    };
    let mut out = item1;
    append_text(&mut out, item2.as_str());
    out
}

/// The identifier made of the three arguments `"first", second, "third"`.
pub open spec fn concat_3_idents_text(tokens: Seq<Token>) -> Seq<char> {
    let r1 = after_first(tokens);
    let r2 = after_first(r1);
    let r3 = after_first(r2);
    let r4 = after_first(r3);
    match literal_argument(tokens, "Expected first ident part, "@) {
        Err(text) => text,
        Ok(item1) => match comma(r1) {
            Some(text) => text,
            None => match ident_argument(r2, "Expected second ident part, "@) {
                Err(text) => text,
                Ok(item2) => match comma(r3) {
                    Some(text) => text,
                    None => match literal_argument(r4, "Expected third ident part, "@) {
                        Err(text) => text,
                        Ok(item3) => item1 + item2 + item3,
                    },
                },
            },
        },
    }
}

/// Expands `__concat_3_idents!("first", second, "third")` to
/// `firstsecondthird`. What follows the third argument is not looked at.
pub fn __concat_3_idents(stream: &Vec<Token>) -> (out: String)
    requires
        shape_ok(stream@),
    ensures
        out@ == concat_3_idents_text(stream@),
{
    let mut iter = TokenIter::new(stream);
    proof {
        let r1 = after_first(stream@);
        let r2 = after_first(r1);
        let r3 = after_first(r2);
        lemma_shape_goes_on(stream@);
        lemma_shape_goes_on(r1);
        lemma_shape_goes_on(r2);
        lemma_shape_goes_on(r3);
        lemma_shape_goes_on(after_first(r3));
    }
    let item1 = match read_literal_argument(&mut iter, "Expected first ident part, ") {
        Ok(l) => l,
        Err(text) => {
            return text;
        },
    };
    match read_comma(&mut iter) {
        None => (),
        Some(text) => {
            return text;
        },
    }
    let item2 = match read_ident_argument(&mut iter, "Expected second ident part, ") {
        Ok(i) => i,
        Err(text) => {
            return text;
        },
    };
    match read_comma(&mut iter) {
        None => (),
        Some(text) => {
            return text;
        },
    }
    let item3 = match read_literal_argument(&mut iter, "Expected third ident part, ") {
        Ok(l) => l,
        Err(text) => {
            return text;
        },
    };
    let mut out = item1;
    append_text(&mut out, item2.as_str());
    append_text(&mut out, item3.as_str());
    out
}

/// The module declaration for the arguments `first, second, { block }`: a
/// module named `firstsecond` with the block as its body.
pub open spec fn mod_text(tokens: Seq<Token>) -> Seq<char> {
    let r1 = after_first(tokens);
    let r2 = after_first(r1);
    let r3 = after_first(r2);
    let r4 = after_first(r3);
    match ident_argument_shown(tokens, "Expected first ident part, "@) {
        Err(text) => text,
        Ok(item1) => match comma(r1) {
            Some(text) => text,
            None => match ident_argument(r2, "Expected second ident part, "@) {
                Err(text) => text,
                Ok(item2) => match comma(r3) {
                    Some(text) => text,
                    None => {
                        if r4.len() > 0 && r4[0].kind == TokenKind::Group {
                            "mod "@ + item1 + item2 + " "@ + r4[0].text@
                        } else {
                            error_text("Expected block, got "@ + next_debug(r4))
                        }
                    },
                },
            },
        },
    }
}

/// Expands `__mod!(first, second, { block })` to
/// `mod firstsecond { block }`. What follows the block is not looked at.
pub fn __mod(stream: &Vec<Token>) -> (out: String)
    ensures
        out@ == mod_text(stream@),
{
    let mut iter = TokenIter::new(stream);
    let item1 = match read_ident_argument_shown(&mut iter, "Expected first ident part, ") {
        Ok(l) => l,
        Err(text) => {
            return text;
        },
    };
    match read_comma(&mut iter) {
        None => (),
        Some(text) => {
            return text;
        },
    }
    let item2 = match read_ident_argument(&mut iter, "Expected second ident part, ") {
        Ok(i) => i,
        Err(text) => {
            return text;
        },
    };
    match read_comma(&mut iter) {
        None => (),
        Some(text) => {
            return text;
        },
    }
    let next = iter.next();
    let group = match next {
        Some(token) => match token.kind {
            TokenKind::Group => Some(token),
            _ => None,
        },
        None => None,
    };
    match group {
        Some(g) => {
            let mut s = "mod ".to_owned();
            append_text(&mut s, item1.as_str());
            append_text(&mut s, item2.as_str());
            append_text(&mut s, " ");
            append_text(&mut s, g.text.as_str());
            s
        },
        None => complain("Expected block, got ", show_next(next).as_str()),
    }
}

/// The first part of the module name and whether `pub` came before it, read
/// at the beginning of the arguments of `__use!`, together with the tokens
/// that follow. Where the first token is no identifier, it is passed over
/// and the next is tried: a visibility that is empty arrives as an empty
/// group.
pub open spec fn use_head(tokens: Seq<Token>) -> Result<(bool, Seq<char>, Seq<Token>), Seq<char>> {
    let r1 = after_first(tokens);
    let r2 = after_first(r1);
    let first = match ident_read(tokens) {
        Ok(text) => Ok((text, r1)),
        Err(_) => match ident_argument_shown(r1, "Expected first ident part, "@) {
            Ok(text) => Ok((text, r2)),
            Err(text) => Err(text),
        },
    };
    match first {
        Err(text) => Err(text),
        Ok((item1, rest)) => {
            if item1 == "pub"@ {
                match ident_argument_shown(rest, "Expected first ident part, "@) {
                    Ok(text) => Ok((true, text, after_first(rest))),
                    Err(text) => Err(text),
                }
            } else {
                Ok((false, item1, rest))
            }
        },
    }
}

/// The `use` declaration for the arguments `first, second, item`, with
/// `pub` in front of them or not: `use firstsecond::item;`, made public
/// where `pub` was given. The text begins with a space where it was not.
pub open spec fn use_text(tokens: Seq<Token>) -> Seq<char> {
    match use_head(tokens) {
        Err(text) => text,
        Ok((is_pub, item1, r1)) => {
            let r2 = after_first(r1);
            let r3 = after_first(r2);
            let r4 = after_first(r3);
            let r5 = after_first(r4);
            match comma(r1) {
                Some(text) => text,
                None => match ident_argument(r2, "Expected second ident part, "@) {
                    Err(text) => text,
                    Ok(item2) => match comma(r3) {
                        Some(text) => text,
                        None => match ident_argument(r4, "Expected second ident part, "@) {
                            Err(text) => text,
                            Ok(item3) => {
                                if r5.len() > 0 {
                                    error_text(
                                        "Expected end of macro invocation, got "@ + next_debug(r5),
                                    )
                                } else {
                                    (if is_pub {
                                        "pub"@
                                    } else {
                                        Seq::<char>::empty()
                                    }) + " use "@ + item1 + item2 + "::"@ + item3 + ";"@
                                }
                            },
                        },
                    },
                },
            }
        },
    }
}

/// Expands `__use!(first, second, item)` to `use firstsecond::item;`, and
/// `__use!(pub first, second, item)` to the same made public.
pub fn __use(stream: &Vec<Token>) -> (out: String)
    ensures
        out@ == use_text(stream@),
{
    let mut iter = TokenIter::new(stream);
    let mut item1 = match parse_ident(&mut iter) {
        Ok(l) => l,
        _ => {
            match read_ident_argument_shown(&mut iter, "Expected first ident part, ") {
                Ok(l) => l,
                Err(text) => {
                    return text;
                },
            }
        },
    };
    let is_pub;
    if same_text(item1.as_str(), "pub") {
        is_pub = true;
        item1 = match read_ident_argument_shown(&mut iter, "Expected first ident part, ") {
            Ok(l) => l,
            Err(text) => {
                return text;
            },
        };
    } else {
        is_pub = false;
    }
    match read_comma(&mut iter) {
        None => (),
        Some(text) => {
            return text;
        },
    }
    let item2 = match read_ident_argument(&mut iter, "Expected second ident part, ") {
        Ok(i) => i,
        Err(text) => {
            return text;
        },
    };
    match read_comma(&mut iter) {
        None => (),
        Some(text) => {
            return text;
        },
    }
    let item3 = match read_ident_argument(&mut iter, "Expected second ident part, ") {
        Ok(i) => i,
        Err(text) => {
            return text;
        },
    };
    let other = iter.next();
    match other {
        None => {},
        Some(_) => {
            return complain("Expected end of macro invocation, got ", show_next(other).as_str());
        },
    }
    let mut out = if is_pub {
        "pub".to_owned()
    } else {
        proof {
            reveal_strlit("");
            assert(""@ =~= Seq::<char>::empty());
        }
        "".to_owned()
    };
    append_text(&mut out, " use ");
    append_text(&mut out, item1.as_str());
    append_text(&mut out, item2.as_str());
    append_text(&mut out, "::");
    append_text(&mut out, item3.as_str());
    append_text(&mut out, ";");
    out
}

/// The string literal that holds the selector of the declaration given as
/// the macro's argument, a string literal itself.
pub open spec fn declaration_to_sel_text(tokens: Seq<Token>) -> Seq<char> {
    match literal_argument(tokens, "Unexpected "@) {
        Err(text) => text,
        Ok(expr) => match parsed(expr) {
            Err(failure) => error_text(failure_text(failure, expr)),
            Ok(declaration) => "\""@ + selector_text(declaration) + "\""@,
        },
    }
}

/// Expands `__parse_declaration_to_sel!("-(void) foo:(int) bar")` to
/// `"foo:"`. What follows the argument is not looked at.
pub fn __parse_declaration_to_sel(stream: &Vec<Token>) -> (out: String)
    requires
        shape_ok(stream@),
    ensures
        out@ == declaration_to_sel_text(stream@),
{
    let mut iter = TokenIter::new(stream);
    proof {
        lemma_shape_goes_on(stream@);
    }
    let expr = match read_literal_argument(&mut iter, "Unexpected ") {
        Ok(l) => l,
        Err(text) => {
            return text;
        },
    };
    let selector = parse_to_selector(expr.as_str());
    match selector {
        Err(message) => error(message.as_str()),
        Ok(selector) => {
            let mut fmt = "\"".to_owned();
            append_text(&mut fmt, selector.as_str());
            append_text(&mut fmt, "\"");
            fmt
        },
    }
}

} // verus!
