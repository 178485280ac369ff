//! Link instructions for statics and exported items, as source text.

use vstd::prelude::*;
use crate::text::{append_text, byte_count, decimal, decimal_text, lemma_middle_decides};

verus! {

/// The text of `export_ascii` that opens the expansion.
pub const ASCII_SECTION: &'static str = r#"
        #[link_section=""#;

/// The text of `export_ascii` between its insertions number 1 and 2.
pub const ASCII_STATIC: &'static str = r#""]
        static "#;

/// The text of `export_ascii` between its insertions number 2 and 3.
pub const ASCII_LENGTH: &'static str = r#": [u8; "#;

/// The text of `export_ascii` between its insertions number 3 and 4.
pub const ASCII_BYTES: &'static str = r#"] = *b""#;

/// The text of `export_ascii` that closes the expansion.
pub const ASCII_END: &'static str = r#"\0";
        "#;

/// The source text of a static named `ident` in `link_section` that holds the
/// bytes of `ascii` and a closing zero byte. The array length written is the
/// byte length of `ascii` plus one.
pub open spec fn export_ascii_text(
    link_section: Seq<char>,
    ident: Seq<char>,
    ascii: Seq<char>,
) -> Seq<char> {
    ASCII_SECTION@
        + link_section
        + ASCII_STATIC@
        + ident
        + ASCII_LENGTH@
        + decimal_text(byte_count(ascii) + 1)
        + ASCII_BYTES@
        + ascii
        + ASCII_END@
}

/// Writes a static byte string with a closing zero byte, placed in
/// `link_section`.
pub fn export_ascii(link_section: &str, ident: &str, ascii: &str) -> (out: String)
    ensures
        out@ == export_ascii_text(link_section@, ident@, ascii@),
{
    let mut out = String::new();
    append_text(&mut out, ASCII_SECTION);
    append_text(&mut out, link_section);
    append_text(&mut out, ASCII_STATIC);
    append_text(&mut out, ident);
    append_text(&mut out, ASCII_LENGTH);
    append_text(&mut out, decimal(ascii.len() as u128 + 1).as_str());
    append_text(&mut out, ASCII_BYTES);
    append_text(&mut out, ascii);
    append_text(&mut out, ASCII_END);
    out
}

/// The text of `export_name_attrs` that opens the expansion.
pub const ATTRS_SECTION: &'static str = r#"
            #[link_section=""#;

/// The text of `export_name_attrs` between its insertions number 1 and 2.
pub const ATTRS_EXPORT_NAME: &'static str = r#""]
            #[export_name=""#;

/// The text of `export_name_attrs` that closes the expansion.
pub const ATTRS_END: &'static str = r#""]
        "#;

/// The `link_section` and `export_name` attributes for an item; the exported
/// name is `export_name_1` directly followed by `export_name_2`.
pub open spec fn export_name_attrs_text(
    link_section: Seq<char>,
    export_name_1: Seq<char>,
    export_name_2: Seq<char>,
) -> Seq<char> {
    ATTRS_SECTION@
        + link_section
        + ATTRS_EXPORT_NAME@
        + export_name_1
        + export_name_2
        + ATTRS_END@
}

/// Writes the `link_section` and `export_name` attributes for an item whose
/// exported name has two parts.
pub fn export_name_attrs(
    link_section: &str,
    export_name_1: &str,
    export_name_2: &str,
) -> (out: String)
    ensures
        out@ == export_name_attrs_text(link_section@, export_name_1@, export_name_2@),
{
    let mut out = String::new();
    append_text(&mut out, ATTRS_SECTION);
    append_text(&mut out, link_section);
    append_text(&mut out, ATTRS_EXPORT_NAME);
    append_text(&mut out, export_name_1);
    append_text(&mut out, export_name_2);
    append_text(&mut out, ATTRS_END);
    out
}

/// The `link_section` and `export_name` attributes for an item; the exported
/// name is the three parts one after the other.
pub open spec fn export_name_attrs3_text(
    link_section: Seq<char>,
    export_name_1: Seq<char>,
    export_name_2: Seq<char>,
    export_name_3: Seq<char>,
) -> Seq<char> {
    ATTRS_SECTION@ + link_section + ATTRS_EXPORT_NAME@ + export_name_1 + export_name_2
        + export_name_3 + ATTRS_END@
}

/// Writes the `link_section` and `export_name` attributes for an item whose
/// exported name has three parts.
pub fn export_name_attrs3(
    link_section: &str,
    export_name_1: &str,
    export_name_2: &str,
    export_name_3: &str,
) -> (out: String)
    ensures
        out@ == export_name_attrs3_text(
            link_section@,
            export_name_1@,
            export_name_2@,
            export_name_3@,
        ),
{
    let mut out = String::new();
    append_text(&mut out, ATTRS_SECTION);
    append_text(&mut out, link_section);
    append_text(&mut out, ATTRS_EXPORT_NAME);
    append_text(&mut out, export_name_1);
    append_text(&mut out, export_name_2);
    append_text(&mut out, export_name_3);
    append_text(&mut out, ATTRS_END);
    out
}

/// Two items in one section get the same exported name exactly where the
/// parts of their names, put together, are the same: items declared alike
/// share one symbol, and items with different names never collide.
pub proof fn law_export_name_decides_the_symbol(
    link_section: Seq<char>,
    first_1: Seq<char>,
    first_2: Seq<char>,
    second_1: Seq<char>,
    second_2: Seq<char>,
)
    ensures
        export_name_attrs_text(link_section, first_1, first_2) == export_name_attrs_text(
            link_section,
            second_1,
            second_2,
        ) <==> first_1 + first_2 == second_1 + second_2,
{
    let head = ATTRS_SECTION@ + link_section + ATTRS_EXPORT_NAME@;
    let first = export_name_attrs_text(link_section, first_1, first_2);
    let second = export_name_attrs_text(link_section, second_1, second_2);
    assert(first =~= head + (first_1 + first_2) + ATTRS_END@);
    assert(second =~= head + (second_1 + second_2) + ATTRS_END@);
    if first == second {
        lemma_middle_decides(head, first_1 + first_2, second_1 + second_2, ATTRS_END@);
    }
}

} // verus!
