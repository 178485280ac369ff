//! Reading the arguments of a macro.
//!
//! A macro's input is handed over as `Token`s: the kind of each token, its
//! source text, its `{:?}` text (which error messages quote), and for a group
//! the tokens inside it.

use vstd::prelude::*;
use crate::text::{append_text, debug_str, same_text, str_debug_text, text_between, to_chars};

verus! {

/// The kinds of token.
#[derive(Debug, Clone, Copy, PartialEq, Eq, Structural)]
pub enum TokenKind {
    /// A delimited run of tokens.
    Group,
    /// An identifier or keyword.
    Ident,
    /// A single punctuation character.
    Punct,
    /// A literal: a string, a character, a number.
    Literal,
}

/// One token of a macro's input.
#[derive(Debug)]
pub struct Token {
    /// What kind of token it is.
    pub kind: TokenKind,
    /// The token as source text.
    pub text: String,
    /// The token as `{:?}` prints it.
    pub debug: String,
    /// The tokens inside a group, in order; empty for any other token.
    pub children: Vec<Token>,
}

/// The message wrapped into a `compile_error!` invocation: every double
/// quote in it gets a backslash in front.
pub open spec fn escaped_quotes(text: Seq<char>) -> Seq<char>
    decreases text.len(),
{
    if text.len() == 0 {
        Seq::empty()
    } else if text.last() == '"' {
        escaped_quotes(text.drop_last()) + seq!['\\', '"']
    } else {
        escaped_quotes(text.drop_last()).push(text.last())
    }
}

/// The source text that makes the compiler report `message`.
pub open spec fn error_text(message: Seq<char>) -> Seq<char> {
    "compile_error!(\""@ + escaped_quotes(message) + "\")"@
}

/// Writes the `compile_error!` invocation that reports `message`.
pub fn error(message: &str) -> (out: String)
    ensures
        out@ == error_text(message@),
{
    let mut out = "compile_error!(\"".to_owned();
    let ghost head = out@;
    let chars = message.chars();
    for c in iter: chars
        invariant
            iter.seq() == message@,
            out@ =~= head + escaped_quotes(message@.take(iter.index() as int)),
    {
        assert(message@.take(iter.index() + 1).drop_last() =~= message@.take(
            iter.index() as int,
        ));
        if c == '"' {
            out.push('\\');
            out.push('"');
        } else {
            out.push(c);
        }
    }
    assert(message@.take(message@.len() as int) =~= message@);
    append_text(&mut out, "\")");
    out
}

/// A token without the group around it: a group that holds exactly one
/// token stands for that token; any other token stands for itself.
pub open spec fn unboxed(tree: Token) -> Token {
    if tree.kind == TokenKind::Group && tree.children@.len() == 1 {
        tree.children@[0]
    } else {
        tree
    }
}

/// Takes a token out of the group around it, where that group holds nothing
/// else.
pub fn unbox_group(tree: &Token) -> (inner: &Token)
    ensures
        *inner == unboxed(*tree),
{
    match tree.kind {
        TokenKind::Group => {
            if tree.children.len() == 1 {
                &tree.children[0]
            } else {
                tree
            }
        },
        _ => tree,
    }
}

/// A string literal among a macro's arguments.
#[derive(Debug)]
pub enum ParsedLiteral {
    /// A raw literal such as `r#"text"#`. Its text is not kept.
    RawLiteral(()),
    /// An ordinary literal, with the text between its quotes.
    Literal(String),
}

/// What a `ParsedLiteral` holds, as text.
pub enum LiteralView {
    RawLiteral,
    Literal(Seq<char>),
}

impl View for ParsedLiteral {
    type V = LiteralView;

    open spec fn view(&self) -> LiteralView {
        match self {
            ParsedLiteral::RawLiteral(_) => LiteralView::RawLiteral,
            ParsedLiteral::Literal(text) => LiteralView::Literal(text@),
        }
    }
}

impl ParsedLiteral {
    /// The text of an ordinary literal.
    pub fn unwrap_literal(self) -> (text: String)
        requires
            self is Literal,
        ensures
            text == self->Literal_0,
    {
        match self {
            ParsedLiteral::Literal(l) => l,
            ParsedLiteral::RawLiteral(_) => vstd::pervasive::unreached(),
        }
    }
}

/// The tokens of a macro's input that have not been read yet.
#[derive(Debug, Clone, Copy)]
pub struct TokenIter<'a> {
    tokens: &'a Vec<Token>,
    position: usize,
}

impl<'a> TokenIter<'a> {
    #[verifier::type_invariant]
    spec fn within(self) -> bool {
        self.position <= self.tokens@.len()
    }

    /// All tokens of the input, read or not.
    pub closed spec fn input(&self) -> Seq<Token> {
        self.tokens@
    }

    /// The number of tokens that have been read.
    pub closed spec fn consumed(&self) -> nat {
        self.position as nat
    }

    /// The tokens that have not been read yet, in order.
    pub open spec fn rest(&self) -> Seq<Token> {
        self.input().skip(self.consumed() as int)
    }

    /// Starts reading at the first token.
    pub fn new(tokens: &'a Vec<Token>) -> (iter: Self)
        ensures
            iter.input() == tokens@,
            iter.consumed() == 0,
            iter.rest() == tokens@,
    {
        assert(tokens@.skip(0) =~= tokens@);
        TokenIter { tokens, position: 0 }
    }

    /// The number of tokens that have been read.
    pub fn position(&self) -> (position: usize)
        ensures
            position == self.consumed(),
            position <= self.input().len(),
    {
        proof {
            use_type_invariant(self);
        }
        self.position
    }

    /// Reads the next token, if one is left.
    pub fn next(&mut self) -> (token: Option<&'a Token>)
        ensures
            one_read_later(*old(self), *final(self)),
            old(self).rest().len() == 0 ==> token is None,
            old(self).rest().len() > 0 ==> token is Some && *token->0 == old(self).rest()[0],
    {
        proof {
            use_type_invariant(&*self);
        }
        if self.position < self.tokens.len() {
            let token = &self.tokens[self.position];
            self.position = self.position + 1;
            assert(self.rest() =~= old(self).rest().drop_first());
            Some(token)
        } else {
            None
        }
    }
}

/// The number of tokens read after one more read: one more, unless all
/// were read already.
pub open spec fn after_one(input: Seq<Token>, consumed: nat) -> nat {
    if consumed < input.len() {
        consumed + 1
    } else {
        consumed
    }
}

/// The tokens left after one more read: all but the first, unless none was
/// left already.
pub open spec fn after_first(rest: Seq<Token>) -> Seq<Token> {
    if rest.len() > 0 {
        rest.drop_first()
    } else {
        rest
    }
}

/// Whether `after` is the reader `before` one read later: over the same
/// input, one token further unless `before` was at the end.
pub open spec fn one_read_later(before: TokenIter, after: TokenIter) -> bool {
    &&& after.input() == before.input()
    &&& after.consumed() == after_one(before.input(), before.consumed())
    &&& after.rest() == after_first(before.rest())
}

/// Whether the text begins like a raw string literal with one `#`.
pub open spec fn starts_raw(text: Seq<char>) -> bool {
    text.len() >= 3 && text[0] == 'r' && text[1] == '#' && text[2] == '"'
}

/// Whether the text begins with a double quote.
pub open spec fn starts_quoted(text: Seq<char>) -> bool {
    text.len() >= 1 && text[0] == '"'
}

/// Whether a token has the shape that the reading of a string literal
/// relies on: a literal that begins with a double quote is cut by its first
/// and its last character, so it has at least two. The string literals of a
/// compiler's lexer have a closing quote and so have this shape.
pub open spec fn literal_shape_ok(token: Token) -> bool {
    token.kind == TokenKind::Literal && starts_quoted(token.text@) ==> token.text@.len() >= 2
}

/// Whether the next token, if any, has the shape that reading a literal
/// relies on.
pub open spec fn next_shape_ok(rest: Seq<Token>) -> bool {
    rest.len() > 0 ==> literal_shape_ok(unboxed(rest[0]))
}

/// What reading a string literal from `rest` gives. An ordinary literal
/// gives the text between its first and last character; a raw literal is
/// told apart and its text dropped; anything else is an error that quotes
/// the token.
pub open spec fn literal_read(rest: Seq<Token>) -> Result<LiteralView, Seq<char>> {
    if rest.len() == 0 {
        Err("Nothing found."@)
    } else {
        let token = unboxed(rest[0]);
        if token.kind == TokenKind::Literal && starts_quoted(token.text@) {
            Ok(LiteralView::Literal(token.text@.subrange(1, token.text@.len() - 1)))
        } else if token.kind == TokenKind::Literal && starts_raw(token.text@) {
            Ok(LiteralView::RawLiteral)
        } else {
            Err("unexpected "@ + token.debug@)
        }
    }
}

/// What reading an identifier from `rest` gives.
pub open spec fn ident_read(rest: Seq<Token>) -> Result<Seq<char>, Seq<char>> {
    if rest.len() == 0 {
        Err("Nothing found."@)
    } else {
        let token = unboxed(rest[0]);
        if token.kind == TokenKind::Ident {
            Ok(token.text@)
        } else {
            Err("unexpected "@ + token.debug@)
        }
    }
}

/// The source texts of the first `n` tokens, one after the other.
pub open spec fn joined_texts(tokens: Seq<Token>, n: int) -> Seq<char>
    decreases n,
{
    if n <= 0 {
        Seq::empty()
    } else {
        joined_texts(tokens, n - 1) + tokens[n - 1].text@
    }
}

/// What reading a type from `rest` gives: an identifier is a type name; a
/// group is the unit type where it holds nothing or `()`, and an error that
/// quotes its contents otherwise.
pub open spec fn type_read(rest: Seq<Token>) -> Result<Seq<char>, Seq<char>> {
    if rest.len() == 0 {
        Err("Nothing found."@)
    } else {
        let token = unboxed(rest[0]);
        if token.kind == TokenKind::Ident {
            Ok(token.text@)
        } else if token.kind == TokenKind::Group {
            let parsed = joined_texts(token.children@, token.children@.len() as int);
            if parsed == Seq::<char>::empty() || parsed == "()"@ {
                Ok("()"@)
            } else {
                Err("while parsing a type, group, "@ + str_debug_text(parsed))
            }
        } else {
            Err("unexpected "@ + token.debug@)
        }
    }
}

/// What reading an identifier or an ordinary string literal from `rest`
/// gives: the text of the literal, else what reading an identifier gives.
pub open spec fn ident_or_literal_read(rest: Seq<Token>) -> Result<Seq<char>, Seq<char>> {
    match literal_read(rest) {
        Ok(LiteralView::Literal(text)) => Ok(text),
        _ => ident_read(rest),
    }
}

/// The view of what reading a literal has given.
pub open spec fn literal_outcome(result: Result<ParsedLiteral, String>) -> Result<
    LiteralView,
    Seq<char>,
> {
    match result {
        Ok(literal) => Ok(literal@),
        Err(message) => Err(message@),
    }
}

/// The view of what reading a text has given.
pub open spec fn text_outcome(result: Result<String, String>) -> Result<Seq<char>, Seq<char>> {
    match result {
        Ok(text) => Ok(text@),
        Err(message) => Err(message@),
    }
}

fn unexpected(token: &Token) -> (message: String)
    ensures
        message@ == "unexpected "@ + token.debug@,
{
    let mut message = "unexpected ".to_owned();
    append_text(&mut message, token.debug.as_str());
    message
}

/// Reads a string literal, out of a group around it if need be.
pub fn parse_literal_string(iterator: &mut TokenIter) -> (result: Result<ParsedLiteral, String>)
    requires
        next_shape_ok(old(iterator).rest()),
    ensures
        one_read_later(*old(iterator), *final(iterator)),
        literal_outcome(result) == literal_read(old(iterator).rest()),
{
    let next = match iterator.next() {
        Some(u) => u,
        None => {
            return Err("Nothing found.".to_owned());
        },
    };
    let unboxed_next = unbox_group(next);
    match unboxed_next.kind {
        TokenKind::Literal => {
            let chars = to_chars(unboxed_next.text.as_str());
            let n = chars.len();
            if n >= 1 && chars[0] == '"' {
                Ok(ParsedLiteral::Literal(text_between(&chars, 1, n - 1)))
            } else if n >= 3 && chars[0] == 'r' && chars[1] == '#' && chars[2] == '"' {
                Ok(ParsedLiteral::RawLiteral(()))
            } else {
                Err(unexpected(unboxed_next))
            }
        },
        _ => Err(unexpected(unboxed_next)),
    }
}

/// Reads an identifier, out of a group around it if need be.
pub fn parse_ident(iterator: &mut TokenIter) -> (result: Result<String, String>)
    ensures
        one_read_later(*old(iterator), *final(iterator)),
        text_outcome(result) == ident_read(old(iterator).rest()),
{
    let next = match iterator.next() {
        Some(u) => u,
        None => {
            return Err("Nothing found.".to_owned());
        },
    };
    let unboxed_next = unbox_group(next);
    match unboxed_next.kind {
        TokenKind::Ident => Ok(unboxed_next.text.clone()),
        _ => Err(unexpected(unboxed_next)),
    }
}

/// Reads a type: an identifier, or the unit type written as a group.
pub fn parse_type(iterator: &mut TokenIter) -> (result: Result<String, String>)
    ensures
        one_read_later(*old(iterator), *final(iterator)),
        text_outcome(result) == type_read(old(iterator).rest()),
{
    let next = match iterator.next() {
        Some(u) => u,
        None => {
            return Err("Nothing found.".to_owned());
        },
    };
    let unboxed_next = unbox_group(next);
    match unboxed_next.kind {
        TokenKind::Ident => Ok(unboxed_next.text.clone()),
        TokenKind::Group => {
            let mut parsed = String::new();
            for i in 0..unboxed_next.children.len()
                invariant
                    parsed@ =~= joined_texts(unboxed_next.children@, i as int),
            {
                append_text(&mut parsed, unboxed_next.children[i].text.as_str());
            }
            proof {
                reveal_strlit("");
                assert(""@ =~= Seq::<char>::empty());
            }
            if same_text(parsed.as_str(), "") || same_text(parsed.as_str(), "()") {
                Ok("()".to_owned())
            } else {
                let mut message = "while parsing a type, group, ".to_owned();
                append_text(&mut message, debug_str(parsed.as_str()).as_str());
                Err(message)
            }
        },
        _ => Err(unexpected(unboxed_next)),
    }
}

/// Reads an ordinary string literal or, failing that, an identifier.
pub fn parse_ident_or_literal(iterator: &mut TokenIter) -> (result: Result<String, String>)
    requires
        next_shape_ok(old(iterator).rest()),
    ensures
        one_read_later(*old(iterator), *final(iterator)),
        text_outcome(result) == ident_or_literal_read(old(iterator).rest()),
{
    let iterator_backup = *iterator;
    match parse_literal_string(iterator) {
        Ok(ParsedLiteral::Literal(l)) => Ok(l),
        _ => {
            *iterator = iterator_backup;
            match parse_ident(iterator) {
                Ok(ident) => Ok(ident),
                Err(e) => Err(e),
            }
        },
    }
}

} // verus!
