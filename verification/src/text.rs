//! Small building blocks for text: taking it apart into characters,
//! putting it together, comparing it, and rendering numbers in decimal.

use vstd::prelude::*;

verus! {

/// `String::push` appends exactly the given character.
pub assume_specification[ String::push ](s: &mut String, c: char)
    ensures
        final(s)@ == old(s)@.push(c),
;

/// `String::pop` removes and returns the last character, or returns `None`
/// and leaves the string alone when it is empty.
pub assume_specification[ String::pop ](s: &mut String) -> (last: Option<char>)
    ensures
        old(s)@.len() == 0 ==> last.is_none() && final(s)@ == old(s)@,
        old(s)@.len() > 0 ==> last == Some(old(s)@.last()) && final(s)@ == old(s)@.drop_last(),
;

/// The text that `{:?}` formatting gives for a character: the character
/// between single quotes, escaped as the standard library's `Debug` for
/// `char` escapes it.
pub uninterp spec fn char_debug_text(c: char) -> Seq<char>;

/// The text that `{:?}` formatting gives for a string: the string between
/// double quotes, escaped as the standard library's `Debug` for `str`
/// escapes it.
pub uninterp spec fn str_debug_text(s: Seq<char>) -> Seq<char>;

/// Formats a character with `{:?}`, which is `<char as Debug>::fmt` of the
/// standard library. The result depends on the character alone; it is known
/// here only by the name `char_debug_text`.
#[verifier::external_body]
pub(crate) fn debug_char(c: char) -> (out: String)
    ensures
        out@ == char_debug_text(c),
{
    format!("{:?}", c)
}

/// Formats a string with `{:?}`, which is `<str as Debug>::fmt` of the
/// standard library. The result depends on the string's characters alone; it
/// is known here only by the name `str_debug_text`.
#[verifier::external_body]
pub(crate) fn debug_str(s: &str) -> (out: String)
    ensures
        out@ == str_debug_text(s@),
{
    format!("{:?}", s)
}

/// Whether a character takes a single byte in UTF-8.
pub open spec fn single_byte(c: char) -> bool {
    (c as u32) < 0x80
}

/// Whether a character takes a single byte in UTF-8.
pub fn is_single_byte(c: char) -> (single: bool)
    ensures
        single == single_byte(c),
{
    (c as u32) < 0x80
}

/// The characters of `chars` from index `from` up to index `to`, as a
/// string.
pub fn text_between(chars: &Vec<char>, from: usize, to: usize) -> (out: String)
    requires
        from <= to <= chars.len(),
    ensures
        out@ == chars@.subrange(from as int, to as int),
{
    let mut out = String::new();
    let mut i = from;
    while i < to
        invariant
            from <= i <= to <= chars.len(),
            out@ =~= chars@.subrange(from as int, i as int),
        decreases to - i,
    {
        out.push(chars[i]);
        i += 1;
    }
    out
}

/// The number of bytes that `text` takes in UTF-8, as `str::len` reports
/// it.
pub open spec fn byte_count(text: Seq<char>) -> nat {
    (vstd::utf8::encode_utf8(text).len() as usize) as nat
}

/// The character that stands for a single decimal digit.
pub open spec fn digit_char(d: nat) -> char {
    if d == 0 {
        '0'
    } else if d == 1 {
        '1'
    } else if d == 2 {
        '2'
    } else if d == 3 {
        '3'
    } else if d == 4 {
        '4'
    } else if d == 5 {
        '5'
    } else if d == 6 {
        '6'
    } else if d == 7 {
        '7'
    } else if d == 8 {
        '8'
    } else {
        '9'
    }
}

/// The decimal numeral of `n`, most significant digit first, without
/// leading zeros (zero itself is `"0"`).
pub open spec fn decimal_text(n: nat) -> Seq<char>
    decreases n,
{
    if n < 10 {
        seq![digit_char(n)]
    } else {
        decimal_text(n / 10).push(digit_char(n % 10))
    }
}

fn digit(d: u128) -> (c: char)
    requires
        d < 10,
    ensures
        c == digit_char(d as nat),
{
    if d == 0 {
        '0'
    } else if d == 1 {
        '1'
    } else if d == 2 {
        '2'
    } else if d == 3 {
        '3'
    } else if d == 4 {
        '4'
    } else if d == 5 {
        '5'
    } else if d == 6 {
        '6'
    } else if d == 7 {
        '7'
    } else if d == 8 {
        '8'
    } else {
        '9'
    }
}

/// Renders `n` in decimal.
pub fn decimal(n: u128) -> (out: String)
    ensures
        out@ == decimal_text(n as nat),
    decreases n,
{
    if n < 10 {
        let mut out = String::new();
        out.push(digit(n));
        assert(out@ =~= seq![digit_char(n as nat)]);
        out
    } else {
        let mut out = decimal(n / 10);
        out.push(digit(n % 10));
        out
    }
}

/// Appends the characters of `piece` to `out`.
pub fn append_text(out: &mut String, piece: &str)
    ensures
        final(out)@ == old(out)@ + piece@,
{
    let it = piece.chars();
    for c in iter: it
        invariant
            iter.seq() == piece@,
            out@ =~= old(out)@ + piece@.take(iter.index() as int),
    {
        out.push(c);
    }
    assert(piece@.take(piece@.len() as int) =~= piece@);
}

/// The characters of `s`, one element each.
pub fn to_chars(s: &str) -> (out: Vec<char>)
    ensures
        out@ == s@,
{
    let mut out: Vec<char> = Vec::new();
    let it = s.chars();
    for c in iter: it
        invariant
            iter.seq() == s@,
            out@ =~= s@.take(iter.index() as int),
    {
        out.push(c);
    }
    assert(s@.take(s@.len() as int) =~= s@);
    out
}

/// Whether the first `len` characters of `chars` spell `word`.
pub fn prefix_is(chars: &Vec<char>, len: usize, word: &str) -> (same: bool)
    requires
        len <= chars.len(),
    ensures
        same == (chars@.take(len as int) == word@),
{
    let other = to_chars(word);
    if other.len() != len {
        return false;
    }
    let mut i: usize = 0;
    while i < len
        invariant
            i <= len,
            len <= chars.len(),
            other.len() == len,
            other@ == word@,
            forall|j: int| 0 <= j < i ==> chars@[j] == other@[j],
        decreases len - i,
    {
        if chars[i] != other[i] {
            assert(chars@.take(len as int)[i as int] != word@[i as int]);
            return false;
        }
        i += 1;
    }
    assert(chars@.take(len as int) =~= word@);
    true
}

/// Whether two pieces of text hold the same characters.
pub fn same_text(a: &str, b: &str) -> (same: bool)
    ensures
        same == (a@ == b@),
{
    let left = a.to_owned();
    let right = b.to_owned();
    left == right
}

/// Two texts that begin alike and end alike are equal only where what
/// stands between is equal.
pub proof fn lemma_middle_decides(head: Seq<char>, a: Seq<char>, b: Seq<char>, tail: Seq<char>)
    requires
        head + a + tail == head + b + tail,
    ensures
        a == b,
{
    let left = head + a + tail;
    let right = head + b + tail;
    assert(left.len() == head.len() + a.len() + tail.len());
    assert(right.len() == head.len() + b.len() + tail.len());
    assert(a.len() == b.len());
    assert forall|i: int| 0 <= i < a.len() implies a[i] == b[i] by {
        assert(left[head.len() + i] == a[i]);
        assert(right[head.len() + i] == b[i]);
    }
    assert(a =~= b);
}

} // verus!
