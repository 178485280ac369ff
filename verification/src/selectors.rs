//! Selectors in generated code: their names as Rust identifiers, and the
//! expression that yields a selector resolved at load time.

use vstd::prelude::*;
use crate::text::{append_text, byte_count, decimal, decimal_text, lemma_middle_decides};

verus! {

/// The text of `sel_expression` that opens the expansion.
pub const SEL_NAME_LENGTH: &'static str = r#"
    {
        #[inline(never)] unsafe fn codegen_workaround() -> ::objr::bindings::Sel {
            #[link_section = "__TEXT,__objc_methname,cstring_literals"]
            static L_OBJC_METH_VAR_NAME_: [u8; "#;

/// The text of `sel_expression` between its insertions number 1 and 2.
pub const SEL_NAME_BYTES: &'static str = r#"] = *b""#;

/// The text of `sel_expression` between its insertions number 2 and 3.
pub const SEL_REFERENCE_LENGTH: &'static str = r#"\0";

            #[link_section = "__DATA,__objc_selrefs,literal_pointers,no_dead_strip"]
            static L_OBJC_SELECTOR_REFERENCES_: &'static [u8; "#;

/// The text of `sel_expression` between its insertions number 3 and 4.
pub const SEL_READ_LENGTH: &'static str = r#"] = &L_OBJC_METH_VAR_NAME_;
            //don't let the optimizer look at the value we just set, since it will be fixedup by dyld
            let read_volatile: &'static [u8; "#;

/// The text of `sel_expression` that closes the expansion.
pub const SEL_READ: &'static str = r#"] = ::core::ptr::read_volatile(&L_OBJC_SELECTOR_REFERENCES_ );
            ::objr::bindings::Sel::from_ptr( unsafe{ std::mem::transmute(read_volatile) } )
        }
        codegen_workaround()
    }"#;

/// The source text of an expression for the selector named `selector`: the
/// name with a closing zero byte in the method-name section, a reference to it
/// in the selector-reference section, and a volatile read of that reference,
/// which the loader has replaced by the runtime's handle. The array lengths
/// written are the byte length of `selector` plus one.
pub open spec fn sel_expression_text(selector: Seq<char>) -> Seq<char> {
    SEL_NAME_LENGTH@
        + decimal_text(byte_count(selector) + 1)
        + SEL_NAME_BYTES@
        + selector
        + SEL_REFERENCE_LENGTH@
        + decimal_text(byte_count(selector) + 1)
        + SEL_READ_LENGTH@
        + decimal_text(byte_count(selector) + 1)
        + SEL_READ@
}

/// Writes an expression for a `Sel` that the loader resolves.
pub fn sel_expression(selector: &str) -> (out: String)
    ensures
        out@ == sel_expression_text(selector@),
{
    let mut out = String::new();
    append_text(&mut out, SEL_NAME_LENGTH);
    append_text(&mut out, decimal(selector.len() as u128 + 1).as_str());
    append_text(&mut out, SEL_NAME_BYTES);
    append_text(&mut out, selector);
    append_text(&mut out, SEL_REFERENCE_LENGTH);
    append_text(&mut out, decimal(selector.len() as u128 + 1).as_str());
    append_text(&mut out, SEL_READ_LENGTH);
    append_text(&mut out, decimal(selector.len() as u128 + 1).as_str());
    append_text(&mut out, SEL_READ);
    out
}

/// The text of `make_fn_partial` that opens the expansion.
pub const FN_HEAD: &'static str = r#"unsafe fn "#;

/// The text of `make_fn_partial` that closes the expansion.
pub const FN_RETURNS: &'static str = r#"() -> ::objr::bindings::Sel"#;

/// The header of the function that returns a selector, without a body or a
/// closing semicolon.
pub open spec fn make_fn_partial_text(fn_name: Seq<char>) -> Seq<char> {
    FN_HEAD@
        + fn_name
        + FN_RETURNS@
}

/// Writes the header `unsafe fn fn_name() -> ::objr::bindings::Sel`.
pub fn make_fn_partial(fn_name: &str) -> (out: String)
    ensures
        out@ == make_fn_partial_text(fn_name@),
{
    let mut out = String::new();
    append_text(&mut out, FN_HEAD);
    append_text(&mut out, fn_name);
    append_text(&mut out, FN_RETURNS);
    out
}

/// The number of colons in `text`.
pub open spec fn colon_count(text: Seq<char>) -> nat
    decreases text.len(),
{
    if text.len() == 0 {
        0
    } else {
        colon_count(text.drop_last()) + if text.last() == ':' {
            1nat
        } else {
            0nat
        }
    }
}

/// `text` with every colon replaced by an underscore.
pub open spec fn underscored(text: Seq<char>) -> Seq<char> {
    Seq::new(
        text.len(),
        |i: int|
            if text[i] == ':' {
                '_'
            } else {
                text[i]
            },
    )
}

/// The Rust name for a selector. `height` stays `height`; `height:` becomes
/// `height_`, so that the two do not collide; a selector with more than one
/// colon, such as `height:width:`, loses its last character and becomes
/// `height_width`.
pub open spec fn rust_name_text(selector: Seq<char>) -> Seq<char> {
    if colon_count(selector) > 1 {
        underscored(selector).drop_last()
    } else {
        underscored(selector)
    }
}

/// Finds the Rust name for a selector.
pub fn sel_to_rust_name(selector: &str) -> (out: String)
    ensures
        out@ == rust_name_text(selector@),
{
    let mut rust_build = String::new();
    // Counts up to two: all that matters is whether more than one was seen.
    let mut seen_colon_count: u8 = 0;
    let chars = selector.chars();
    for char in iter: chars
        invariant
            iter.seq() == selector@,
            rust_build@ =~= underscored(selector@.take(iter.index() as int)),
            seen_colon_count <= 2,
            seen_colon_count < 2 ==> seen_colon_count == colon_count(
                selector@.take(iter.index() as int),
            ),
            seen_colon_count == 2 ==> colon_count(selector@.take(iter.index() as int)) >= 2,
    {
        assert(selector@.take(iter.index() + 1).drop_last() =~= selector@.take(
            iter.index() as int,
        ));
        if char == ':' {
            rust_build.push('_');
            if seen_colon_count < 2 {
                seen_colon_count += 1;
            }
        } else {
            rust_build.push(char);
        }
    }
    assert(selector@.take(selector@.len() as int) =~= selector@);
    if seen_colon_count > 1 {
        rust_build.pop();
    }
    rust_build
}

/// Whether a character is a decimal digit.
pub open spec fn is_digit(c: char) -> bool {
    c == '0' || c == '1' || c == '2' || c == '3' || c == '4' || c == '5' || c == '6' || c == '7'
        || c == '8' || c == '9'
}

proof fn lemma_decimal_is_digits(n: nat)
    ensures
        decimal_text(n).len() > 0,
        forall|i: int| 0 <= i < decimal_text(n).len() ==> is_digit(#[trigger] decimal_text(n)[i]),
    decreases n,
{
    if n >= 10 {
        lemma_decimal_is_digits(n / 10);
    }
}

/// Two numerals, each followed by a text that begins with something other
/// than a digit, are equal where the two texts put together are equal.
proof fn lemma_numeral_is_delimited(
    m: nat,
    n: nat,
    behind_m: Seq<char>,
    behind_n: Seq<char>,
)
    requires
        decimal_text(m) + behind_m == decimal_text(n) + behind_n,
        behind_m.len() > 0 && !is_digit(behind_m[0]),
        behind_n.len() > 0 && !is_digit(behind_n[0]),
    ensures
        decimal_text(m) == decimal_text(n),
        behind_m == behind_n,
{
    let a = decimal_text(m);
    let b = decimal_text(n);
    let left = a + behind_m;
    let right = b + behind_n;
    lemma_decimal_is_digits(m);
    lemma_decimal_is_digits(n);
    if a.len() < b.len() {
        assert(left[a.len() as int] == behind_m[0]);
        assert(right[a.len() as int] == b[a.len() as int]);
        assert(false);
    }
    if b.len() < a.len() {
        assert(right[b.len() as int] == behind_n[0]);
        assert(left[b.len() as int] == a[b.len() as int]);
        assert(false);
    }
    assert forall|i: int| 0 <= i < a.len() implies a[i] == b[i] by {
        assert(left[i] == a[i]);
        assert(right[i] == b[i]);
    }
    assert(a =~= b);
    assert(left.len() == a.len() + behind_m.len());
    assert(right.len() == b.len() + behind_n.len());
    assert(behind_m.len() == behind_n.len());
    assert forall|i: int| 0 <= i < behind_m.len() implies behind_m[i] == behind_n[i] by {
        assert(left[a.len() + i] == behind_m[i]);
        assert(right[b.len() + i] == behind_n[i]);
    }
    assert(behind_m =~= behind_n);
}

/// Every selector has a reference of its own: the expressions for two
/// selectors are the same text exactly where the selectors have the same
/// name.
pub proof fn law_selector_name_decides_the_reference(first: Seq<char>, second: Seq<char>)
    ensures
        sel_expression_text(first) == sel_expression_text(second) <==> first == second,
{
    if sel_expression_text(first) == sel_expression_text(second) {
        reveal_strlit("] = *b\"");
        let m = byte_count(first) + 1;
        let n = byte_count(second) + 1;
        let behind_m = SEL_NAME_BYTES@ + first + SEL_REFERENCE_LENGTH@ + decimal_text(m)
            + SEL_READ_LENGTH@ + decimal_text(m) + SEL_READ@;
        let behind_n = SEL_NAME_BYTES@ + second + SEL_REFERENCE_LENGTH@ + decimal_text(n)
            + SEL_READ_LENGTH@ + decimal_text(n) + SEL_READ@;
        assert(sel_expression_text(first) =~= SEL_NAME_LENGTH@ + (decimal_text(m) + behind_m));
        assert(sel_expression_text(second) =~= SEL_NAME_LENGTH@ + (decimal_text(n) + behind_n));
        lemma_middle_decides(
            SEL_NAME_LENGTH@,
            decimal_text(m) + behind_m,
            decimal_text(n) + behind_n,
            Seq::empty(),
        );
        assert(SEL_NAME_BYTES@ == "] = *b\""@);
        assert(behind_m[0] == ']');
        assert(behind_n[0] == ']');
        lemma_numeral_is_delimited(m, n, behind_m, behind_n);
        let tail = SEL_REFERENCE_LENGTH@ + decimal_text(m) + SEL_READ_LENGTH@ + decimal_text(m)
            + SEL_READ@;
        assert(behind_m =~= SEL_NAME_BYTES@ + first + tail);
        assert(behind_n =~= SEL_NAME_BYTES@ + second + tail);
        lemma_middle_decides(SEL_NAME_BYTES@, first, second, tail);
    }
}

} // verus!
