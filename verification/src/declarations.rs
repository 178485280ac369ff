//! Parsing of Objective-C method declarations such as
//! `-(void) setWidth:(int) width height:(int) height`, and the selector and
//! type-encoding text derived from them.

use vstd::prelude::*;
use crate::text::{
    append_text, char_debug_text, debug_char, debug_str, decimal, decimal_text, is_single_byte,
    prefix_is, single_byte, str_debug_text,
};

verus! {

/// The C and Objective-C types that an encoding can name.
#[derive(Debug)]
pub enum ParsedType {
    Char,
    Int,
    Short,
    Long,
    LongLong,
    UChar,
    UInt,
    UShort,
    ULong,
    ULongLong,
    Float,
    Double,
    Bool,
    Void,
    CharStar,
    Object,
    Sel,
    Array,
    Structure,
    Union,
    Bitfield,
    Pointer(Box<ParsedType>),
    Class,
    Unknown,
    CGRect,
    CGSize,
}

/// The runtime's type-encoding text for a type.
pub open spec fn encoding_text(t: ParsedType) -> Seq<char>
    decreases t,
{
    match t {
        ParsedType::Char => "c"@,
        ParsedType::Int => "i"@,
        ParsedType::Short => "s"@,
        ParsedType::Long => "l"@,
        ParsedType::LongLong => "q"@,
        ParsedType::UChar => "C"@,
        ParsedType::UInt => "I"@,
        ParsedType::UShort => "S"@,
        ParsedType::ULong => "L"@,
        ParsedType::ULongLong => "Q"@,
        ParsedType::Float => "f"@,
        ParsedType::Double => "d"@,
        ParsedType::Bool => "B"@,
        ParsedType::Void => "v"@,
        ParsedType::CharStar => "*"@,
        ParsedType::Object => "@"@,
        ParsedType::Sel => ":"@,
        ParsedType::Array => "[v]"@,
        ParsedType::Structure => "{n=v}"@,
        ParsedType::Union => "(n=v)"@,
        ParsedType::Bitfield => "b0"@,
        ParsedType::Pointer(inner) => "^"@ + encoding_text(*inner),
        ParsedType::Class => "@"@,
        ParsedType::Unknown => "?"@,
        ParsedType::CGRect => "{CGRect={CGPoint=dd}{CGSize=dd}}"@,
        ParsedType::CGSize => "{CGSize=dd}"@,
    }
}

/// The number of bytes a value of the type takes in an argument frame, where
/// the type has one: its size rounded up to a word of four bytes.
pub open spec fn frame_size(t: ParsedType) -> Option<nat> {
    match t {
        ParsedType::Char => Some(4),
        ParsedType::Int => Some(4),
        ParsedType::Short => Some(4),
        ParsedType::Long => Some(8),
        ParsedType::LongLong => Some(8),
        ParsedType::UChar => Some(4),
        ParsedType::UInt => Some(4),
        ParsedType::UShort => Some(4),
        ParsedType::ULong => Some(8),
        ParsedType::ULongLong => Some(8),
        ParsedType::Float => Some(4),
        ParsedType::Double => Some(8),
        ParsedType::Bool => Some(4),
        ParsedType::Void => None,
        ParsedType::CharStar => Some(8),
        ParsedType::Object => Some(8),
        ParsedType::Sel => Some(8),
        ParsedType::Array => None,
        ParsedType::Structure => None,
        ParsedType::Union => None,
        ParsedType::Bitfield => None,
        ParsedType::Pointer(_) => Some(8),
        ParsedType::Class => Some(8),
        ParsedType::Unknown => None,
        ParsedType::CGRect => Some(32),
        ParsedType::CGSize => Some(16),
    }
}

/// Whether `name` is one of the type names that are recognised as written.
pub open spec fn known_name(name: Seq<char>) -> Option<ParsedType> {
    if name == "CGSize"@ || name == "NSSize"@ {
        Some(ParsedType::CGSize)
    } else if name == "CGRect"@ || name == "NSRect"@ {
        Some(ParsedType::CGRect)
    } else if name == "id"@ {
        Some(ParsedType::Object)
    } else if name == "char"@ {
        Some(ParsedType::Char)
    } else if name == "int"@ {
        Some(ParsedType::Int)
    } else if name == "short"@ {
        Some(ParsedType::Short)
    } else if name == "long"@ {
        Some(ParsedType::Long)
    } else if name == "long long"@ {
        Some(ParsedType::LongLong)
    } else if name == "unsigned char"@ {
        Some(ParsedType::UChar)
    } else if name == "unsigned int"@ {
        Some(ParsedType::UInt)
    } else if name == "unsigned short"@ {
        Some(ParsedType::UShort)
    } else if name == "unsigned long"@ {
        Some(ParsedType::ULong)
    } else if name == "unsigned long long"@ {
        Some(ParsedType::ULongLong)
    } else if name == "float"@ {
        Some(ParsedType::Float)
    } else if name == "double"@ {
        Some(ParsedType::Double)
    } else if name == "bool"@ || name == "BOOL"@ {
        Some(ParsedType::Bool)
    } else if name == "void"@ {
        Some(ParsedType::Void)
    } else if name == "char*"@ || name == "char *"@ {
        Some(ParsedType::CharStar)
    } else {
        None
    }
}

/// Whether a type name can be read: a name that ends in `*` and is not
/// recognised as written is read through the text before its last two bytes,
/// so it needs a single-byte character in front of the `*`, and that text has
/// to be readable in turn.
pub open spec fn readable(name: Seq<char>) -> bool
    decreases name.len(),
{
    if known_name(name) is Some {
        true
    } else if name.len() > 0 && name.last() == '*' {
        name.len() >= 2 && single_byte(name[name.len() - 2]) && readable(
            name.take(name.len() - 2),
        )
    } else {
        true
    }
}

/// The type that a type name stands for. A name that ends in `*` and is not
/// recognised as written is a pointer to what the text before its last two
/// bytes names, or an object where that text names nothing known.
pub open spec fn named_type(name: Seq<char>) -> ParsedType
    decreases name.len(),
{
    if known_name(name) is Some {
        known_name(name).unwrap()
    } else if name.len() >= 2 && name.last() == '*' {
        match named_type(name.take(name.len() - 2)) {
            ParsedType::Unknown => ParsedType::Object,
            other => ParsedType::Pointer(Box::new(other)),
        }
    } else if name == "SEL"@ {
        ParsedType::Sel
    } else {
        ParsedType::Unknown
    }
}

fn known(chars: &Vec<char>, len: usize) -> (found: Option<ParsedType>)
    requires
        len <= chars.len(),
    ensures
        found == known_name(chars@.take(len as int)),
{
    if prefix_is(chars, len, "CGSize") || prefix_is(chars, len, "NSSize") {
        Some(ParsedType::CGSize)
    } else if prefix_is(chars, len, "CGRect") || prefix_is(chars, len, "NSRect") {
        Some(ParsedType::CGRect)
    } else if prefix_is(chars, len, "id") {
        Some(ParsedType::Object)
    } else if prefix_is(chars, len, "char") {
        Some(ParsedType::Char)
    } else if prefix_is(chars, len, "int") {
        Some(ParsedType::Int)
    } else if prefix_is(chars, len, "short") {
        Some(ParsedType::Short)
    } else if prefix_is(chars, len, "long") {
        Some(ParsedType::Long)
    } else if prefix_is(chars, len, "long long") {
        Some(ParsedType::LongLong)
    } else if prefix_is(chars, len, "unsigned char") {
        Some(ParsedType::UChar)
    } else if prefix_is(chars, len, "unsigned int") {
        Some(ParsedType::UInt)
    } else if prefix_is(chars, len, "unsigned short") {
        Some(ParsedType::UShort)
    } else if prefix_is(chars, len, "unsigned long") {
        Some(ParsedType::ULong)
    } else if prefix_is(chars, len, "unsigned long long") {
        Some(ParsedType::ULongLong)
    } else if prefix_is(chars, len, "float") {
        Some(ParsedType::Float)
    } else if prefix_is(chars, len, "double") {
        Some(ParsedType::Double)
    } else if prefix_is(chars, len, "bool") || prefix_is(chars, len, "BOOL") {
        Some(ParsedType::Bool)
    } else if prefix_is(chars, len, "void") {
        Some(ParsedType::Void)
    } else if prefix_is(chars, len, "char*") || prefix_is(chars, len, "char *") {
        Some(ParsedType::CharStar)
    } else {
        None
    }
}

fn can_read(chars: &Vec<char>, len: usize) -> (ok: bool)
    requires
        len <= chars.len(),
    ensures
        ok == readable(chars@.take(len as int)),
    decreases len,
{
    let ghost name = chars@.take(len as int);
    if known(chars, len).is_some() {
        true
    } else if len > 0 && chars[len - 1] == '*' {
        if len >= 2 && is_single_byte(chars[len - 2]) {
            assert(name.take(len - 2) =~= chars@.take(len - 2));
            can_read(chars, len - 2)
        } else {
            false
        }
    } else {
        true
    }
}

fn read_type(chars: &Vec<char>, len: usize) -> (t: ParsedType)
    requires
        len <= chars.len(),
        readable(chars@.take(len as int)),
    ensures
        t == named_type(chars@.take(len as int)),
    decreases len,
{
    let ghost name = chars@.take(len as int);
    match known(chars, len) {
        Some(t) => t,
        None => {
            if len > 0 && chars[len - 1] == '*' {
                assert(name.take(len - 2) =~= chars@.take(len - 2));
                match read_type(chars, len - 2) {
                    ParsedType::Unknown => ParsedType::Object,
                    other => ParsedType::Pointer(Box::new(other)),
                }
            } else if prefix_is(chars, len, "SEL") {
                ParsedType::Sel
            } else {
                ParsedType::Unknown
            }
        },
    }
}

impl ParsedType {
    /// The runtime's type-encoding text for this type.
    pub fn type_encoding(&self) -> (out: String)
        ensures
            out@ == encoding_text(*self),
        decreases self,
    {
        match self {
            ParsedType::Char => "c".to_owned(),
            ParsedType::Int => "i".to_owned(),
            ParsedType::Short => "s".to_owned(),
            ParsedType::Long => "l".to_owned(),
            ParsedType::LongLong => "q".to_owned(),
            ParsedType::UChar => "C".to_owned(),
            ParsedType::UInt => "I".to_owned(),
            ParsedType::UShort => "S".to_owned(),
            ParsedType::ULong => "L".to_owned(),
            ParsedType::ULongLong => "Q".to_owned(),
            ParsedType::Float => "f".to_owned(),
            ParsedType::Double => "d".to_owned(),
            ParsedType::Bool => "B".to_owned(),
            ParsedType::Void => "v".to_owned(),
            ParsedType::CharStar => "*".to_owned(),
            ParsedType::Object => "@".to_owned(),
            ParsedType::Sel => ":".to_owned(),
            ParsedType::Array => "[v]".to_owned(),
            ParsedType::Structure => "{n=v}".to_owned(),
            ParsedType::Union => "(n=v)".to_owned(),
            ParsedType::Bitfield => "b0".to_owned(),
            ParsedType::Pointer(t) => {
                let mut s = "^".to_owned();
                let inner = t.type_encoding();
                append_text(&mut s, inner.as_str());
                s
            },
            ParsedType::Class => "@".to_owned(),
            ParsedType::Unknown => "?".to_owned(),
            ParsedType::CGRect => "{CGRect={CGPoint=dd}{CGSize=dd}}".to_owned(),
            ParsedType::CGSize => "{CGSize=dd}".to_owned(),
        }
    }

    /// The bytes a value of this type takes in an argument frame, or `Err`
    /// for a type that has no such size.
    pub fn magic_size(&self) -> (size: Result<u8, ()>)
        ensures
            size is Ok <==> frame_size(*self) is Some,
            size is Ok ==> size.unwrap() as nat == frame_size(*self).unwrap(),
    {
        match self {
            ParsedType::Char => Ok(4),
            ParsedType::Int => Ok(4),
            ParsedType::Short => Ok(4),
            ParsedType::Long => Ok(8),
            ParsedType::LongLong => Ok(8),
            ParsedType::UChar => Ok(4),
            ParsedType::UInt => Ok(4),
            ParsedType::UShort => Ok(4),
            ParsedType::ULong => Ok(8),
            ParsedType::ULongLong => Ok(8),
            ParsedType::Float => Ok(4),
            ParsedType::Double => Ok(8),
            ParsedType::Bool => Ok(4),
            ParsedType::Void => Err(()),
            ParsedType::CharStar => Ok(8),
            ParsedType::Object => Ok(8),
            ParsedType::Sel => Ok(8),
            ParsedType::Array => Err(()),
            ParsedType::Structure => Err(()),
            ParsedType::Union => Err(()),
            ParsedType::Bitfield => Err(()),
            ParsedType::Pointer(_) => Ok(8),
            ParsedType::Class => Ok(8),
            ParsedType::Unknown => Err(()),
            ParsedType::CGRect => Ok(32),
            ParsedType::CGSize => Ok(16),
        }
    }

    /// Whether `parse` accepts the type name `name`.
    pub fn can_parse(name: &str) -> (ok: bool)
        ensures
            ok == readable(name@),
    {
        let chars = crate::text::to_chars(name);
        assert(chars@.take(chars.len() as int) =~= name@);
        can_read(&chars, chars.len())
    }

    /// Reads a type name.
    pub fn parse(name: &str) -> (t: ParsedType)
        requires
            readable(name@),
        ensures
            t == named_type(name@),
    {
        let chars = crate::text::to_chars(name);
        assert(chars@.take(chars.len() as int) =~= name@);
        read_type(&chars, chars.len())
    }
}

/// One `selector:(type) name` part of a declaration.
#[derive(Debug)]
pub struct PartialDeclaration {
    pub selector_part: String,
    pub argument_type: String,
}

/// The first part of a declaration: a method without arguments has only a
/// name, any other begins with a part that takes an argument.
#[derive(Debug)]
pub enum PartType {
    LoneSelector(String),
    Argument(PartialDeclaration),
}

/// A method declaration, taken apart.
#[derive(Debug)]
pub struct ParsedDeclaration {
    pub return_type: String,
    pub first_part: PartType,
    pub next_parts: Vec<PartialDeclaration>,
}

/// What a `PartialDeclaration` holds, as text.
pub struct PartView {
    pub selector: Seq<char>,
    pub argument_type: Seq<char>,
}

/// What a `PartType` holds, as text.
pub enum FirstPartView {
    LoneSelector(Seq<char>),
    Argument(PartView),
}

/// What a `ParsedDeclaration` holds, as text.
pub struct DeclarationView {
    pub return_type: Seq<char>,
    pub first_part: FirstPartView,
    pub next_parts: Seq<PartView>,
}

impl View for PartialDeclaration {
    type V = PartView;

    open spec fn view(&self) -> PartView {
        PartView { selector: self.selector_part@, argument_type: self.argument_type@ }
    }
}

impl View for PartType {
    type V = FirstPartView;

    open spec fn view(&self) -> FirstPartView {
        match self {
            PartType::LoneSelector(name) => FirstPartView::LoneSelector(name@),
            PartType::Argument(part) => FirstPartView::Argument(part@),
        }
    }
}

/// The views of a run of parts, in order.
pub open spec fn part_views(parts: Seq<PartialDeclaration>) -> Seq<PartView> {
    Seq::new(parts.len(), |i: int| parts[i]@)
}

impl View for ParsedDeclaration {
    type V = DeclarationView;

    open spec fn view(&self) -> DeclarationView {
        DeclarationView {
            return_type: self.return_type@,
            first_part: self.first_part@,
            next_parts: part_views(self.next_parts@),
        }
    }
}

/// Why a declaration could not be read.
pub enum ParseFailure {
    /// Something other than a space came before the leading `-`.
    MissingDash { found: char },
    /// A space followed the first characters of the return type.
    SpaceInReturnType,
    /// A space followed the first characters of a selector part.
    SpaceInSelector { partial: Seq<char> },
    /// A space followed the first characters of an argument type.
    SpaceInArgumentType { partial: Seq<char> },
    /// The text ended where `expected` had to come first.
    Ended { expected: char },
}

/// Where the reader stands after some characters, and what it has gathered.
pub enum Scan {
    /// Before the leading `-`.
    Initial,
    /// Inside the return type, up to its closing `)`.
    ReturnType { text: Seq<char> },
    /// Inside a selector part, up to its `:`.
    SelectorPart { return_type: Seq<char>, parts: Seq<PartView>, text: Seq<char> },
    /// Inside an argument's type, up to its closing `)`.
    ArgumentType {
        return_type: Seq<char>,
        parts: Seq<PartView>,
        selector: Seq<char>,
        text: Seq<char>,
    },
    /// Inside an argument's name, up to the space that ends it.
    ArgumentName {
        return_type: Seq<char>,
        parts: Seq<PartView>,
        selector: Seq<char>,
        argument_type: Seq<char>,
        text: Seq<char>,
    },
    /// The text was refused; nothing that follows changes that.
    Failed(ParseFailure),
}

/// The reader's move on one character. In each place a space is skipped
/// while nothing has been gathered there; parentheses that open are dropped
/// from types.
pub open spec fn step(scan: Scan, c: char) -> Scan {
    match scan {
        Scan::Initial => {
            if c == ' ' {
                Scan::Initial
            } else if c == '-' {
                Scan::ReturnType { text: Seq::empty() }
            } else {
                Scan::Failed(ParseFailure::MissingDash { found: c })
            }
        },
        Scan::ReturnType { text } => {
            if c == ' ' {
                if text.len() == 0 {
                    scan
                } else {
                    Scan::Failed(ParseFailure::SpaceInReturnType)
                }
            } else if c == '(' {
                scan
            } else if c == ')' {
                Scan::SelectorPart { return_type: text, parts: Seq::empty(), text: Seq::empty() }
            } else {
                Scan::ReturnType { text: text.push(c) }
            }
        },
        Scan::SelectorPart { return_type, parts, text } => {
            if c == ' ' {
                if text.len() == 0 {
                    scan
                } else {
                    Scan::Failed(ParseFailure::SpaceInSelector { partial: text })
                }
            } else if c == ':' {
                Scan::ArgumentType { return_type, parts, selector: text, text: Seq::empty() }
            } else {
                Scan::SelectorPart { return_type, parts, text: text.push(c) }
            }
        },
        Scan::ArgumentType { return_type, parts, selector, text } => {
            if c == ' ' {
                if text.len() == 0 {
                    scan
                } else {
                    Scan::Failed(ParseFailure::SpaceInArgumentType { partial: text })
                }
            } else if c == '(' {
                scan
            } else if c == ')' {
                Scan::ArgumentName {
                    return_type,
                    parts,
                    selector,
                    argument_type: text,
                    text: Seq::empty(),
                }
            } else {
                Scan::ArgumentType { return_type, parts, selector, text: text.push(c) }
            }
        },
        Scan::ArgumentName { return_type, parts, selector, argument_type, text } => {
            if c == ' ' {
                if text.len() == 0 {
                    scan
                } else {
                    Scan::SelectorPart {
                        return_type,
                        parts: parts.push(PartView { selector, argument_type }),
                        text: Seq::empty(),
                    }
                }
            } else {
                Scan::ArgumentName {
                    return_type,
                    parts,
                    selector,
                    argument_type,
                    text: text.push(c),
                }
            }
        },
        Scan::Failed(failure) => scan,
    }
}

/// Where the reader stands after all of `text`.
pub open spec fn scan_of(text: Seq<char>) -> Scan
    decreases text.len(),
{
    if text.len() == 0 {
        Scan::Initial
    } else {
        step(scan_of(text.drop_last()), text.last())
    }
}

/// The declaration made of a return type and at least one part that takes
/// an argument.
pub open spec fn with_arguments(return_type: Seq<char>, parts: Seq<PartView>) -> DeclarationView
    recommends
        parts.len() > 0,
{
    DeclarationView {
        return_type,
        first_part: FirstPartView::Argument(parts[0]),
        next_parts: parts.drop_first(),
    }
}

/// What the reader makes of the place where the text ended. The text may end
/// in a selector part or in an argument's name. A selector part at the end
/// counts only where no argument came before it: it is then the whole
/// selector.
pub open spec fn outcome(scan: Scan) -> Result<DeclarationView, ParseFailure> {
    match scan {
        Scan::Initial => Err(ParseFailure::Ended { expected: '-' }),
        Scan::ReturnType { text } => Err(ParseFailure::Ended { expected: ')' }),
        Scan::SelectorPart { return_type, parts, text } => {
            if parts.len() == 0 {
                Ok(
                    DeclarationView {
                        return_type,
                        first_part: FirstPartView::LoneSelector(text),
                        next_parts: Seq::empty(),
                    },
                )
            } else {
                Ok(with_arguments(return_type, parts))
            }
        },
        Scan::ArgumentType { return_type, parts, selector, text } => Err(
            ParseFailure::Ended { expected: ')' },
        ),
        Scan::ArgumentName { return_type, parts, selector, argument_type, text } => Ok(
            with_arguments(return_type, parts.push(PartView { selector, argument_type })),
        ),
        Scan::Failed(failure) => Err(failure),
    }
}

/// The declaration that `text` spells, or why it spells none.
pub open spec fn parsed(text: Seq<char>) -> Result<DeclarationView, ParseFailure> {
    outcome(scan_of(text))
}

/// The message for a failure to read `input`.
pub open spec fn failure_text(failure: ParseFailure, input: Seq<char>) -> Seq<char> {
    match failure {
        ParseFailure::MissingDash { found } => "expected `-``near "@ + char_debug_text(found),
        ParseFailure::SpaceInReturnType => "Expected return type near ' '"@,
        ParseFailure::SpaceInSelector { partial } => "Expected `selector:` near SelectorPart("@
            + str_debug_text(partial) + ")"@,
        ParseFailure::SpaceInArgumentType { partial } =>
            "Expected argument type near whitespace after Type("@ + str_debug_text(partial) + ")"@,
        ParseFailure::Ended { expected } => "Expected `"@ + seq![expected] + "` after "@ + input,
    }
}

/// Once a prefix of the text has been refused, the whole text is refused for
/// the same reason.
pub proof fn lemma_failure_is_final(text: Seq<char>, upto: int)
    requires
        0 <= upto <= text.len(),
        scan_of(text.take(upto)) is Failed,
    ensures
        scan_of(text) == scan_of(text.take(upto)),
    decreases text.len(),
{
    if upto == text.len() {
        assert(text.take(upto) =~= text);
    } else {
        assert(text.drop_last().take(upto) =~= text.take(upto));
        lemma_failure_is_final(text.drop_last(), upto);
    }
}

enum DeclarationParserState {
    Initial,
    ReturnType(String),
    SelectorPart(String),
    ArgumentType(String),
    ArgumentName(String),
}

/// How the variables of `from_str` stand for a place of the reader.
spec fn tracks(
    state: DeclarationParserState,
    return_type: Option<String>,
    pending_type: Option<String>,
    pending_selector: Option<String>,
    partials: Seq<PartialDeclaration>,
    scan: Scan,
) -> bool {
    match state {
        DeclarationParserState::Initial => {
            &&& scan == Scan::Initial
            &&& return_type is None
            &&& pending_type is None
            &&& pending_selector is None
            &&& partials.len() == 0
        },
        DeclarationParserState::ReturnType(text) => {
            &&& scan == (Scan::ReturnType { text: text@ })
            &&& return_type is None
            &&& pending_type is None
            &&& pending_selector is None
            &&& partials.len() == 0
        },
        DeclarationParserState::SelectorPart(text) => {
            &&& return_type is Some
            &&& pending_type is None
            &&& pending_selector is None
            &&& scan == (Scan::SelectorPart {
                return_type: return_type->0@,
                parts: part_views(partials),
                text: text@,
            })
        },
        DeclarationParserState::ArgumentType(text) => {
            &&& return_type is Some
            &&& pending_type is None
            &&& pending_selector is Some
            &&& scan == (Scan::ArgumentType {
                return_type: return_type->0@,
                parts: part_views(partials),
                selector: pending_selector->0@,
                text: text@,
            })
        },
        DeclarationParserState::ArgumentName(text) => {
            &&& return_type is Some
            &&& pending_type is Some
            &&& pending_selector is Some
            &&& scan == (Scan::ArgumentName {
                return_type: return_type->0@,
                parts: part_views(partials),
                selector: pending_selector->0@,
                argument_type: pending_type->0@,
                text: text@,
            })
        },
    }
}

fn ended_message(expected: char, input: &str) -> (message: String)
    ensures
        message@ == failure_text(ParseFailure::Ended { expected }, input@),
{
    let mut message = "Expected `".to_owned();
    message.push(expected);
    append_text(&mut message, "` after ");
    append_text(&mut message, input);
    assert(message@ =~= "Expected `"@ + seq![expected] + "` after "@ + input@);
    message
}

impl ParsedDeclaration {
    /// Reads a declaration of the form
    /// `-(ReturnType) part:(ArgumentType) name part:(ArgumentType) name`, or
    /// `-(ReturnType) name` for a method without arguments.
    pub fn from_str(str: &str) -> (result: Result<Self, String>)
        ensures
            match result {
                Ok(declaration) => parsed(str@) == Ok::<DeclarationView, ParseFailure>(
                    declaration@,
                ),
                Err(message) => parsed(str@) is Err && message@ == failure_text(
                    parsed(str@)->Err_0,
                    str@,
                ),
            },
    {
        let mut state = DeclarationParserState::Initial;
        let mut return_type: Option<String> = None;
        let mut current_partial_argument_type: Option<String> = None;
        let mut current_partial_selector_part: Option<String> = None;
        let mut parsed_partials: Vec<PartialDeclaration> = Vec::new();

        let string_iter = str.chars();
        for char in iter: string_iter
            invariant
                iter.seq() == str@,
                tracks(
                    state,
                    return_type,
                    current_partial_argument_type,
                    current_partial_selector_part,
                    parsed_partials@,
                    scan_of(str@.take(iter.index() as int)),
                ),
        {
            let ghost seen = iter.index() as int;
            let ghost before = scan_of(str@.take(seen));
            proof {
                assert(str@.take(seen + 1).drop_last() =~= str@.take(seen));
                assert(scan_of(str@.take(seen + 1)) == step(before, char));
            }
            match state {
                DeclarationParserState::Initial => {
                    if char == ' ' {
                        state = DeclarationParserState::Initial;
                    } else if char == '-' {
                        state = DeclarationParserState::ReturnType(String::new());
                    } else {
                        let mut message = "expected `-``near ".to_owned();
                        let shown = debug_char(char);
                        append_text(&mut message, shown.as_str());
                        proof {
                            lemma_failure_is_final(str@, seen + 1);
                        }
                        return Err(message);
                    }
                },
                DeclarationParserState::ReturnType(partial_type) => {
                    if char == ' ' && partial_type.as_str().is_empty() {
                        state = DeclarationParserState::ReturnType(partial_type);
                    } else if char == ' ' {
                        proof {
                            lemma_failure_is_final(str@, seen + 1);
                        }
                        return Err("Expected return type near ' '".to_owned());
                    } else if char == '(' {
                        state = DeclarationParserState::ReturnType(partial_type);
                    } else if char == ')' {
                        return_type = Some(partial_type);
                        state = DeclarationParserState::SelectorPart(String::new());
                        assert(part_views(parsed_partials@) =~= Seq::<PartView>::empty());
                    } else {
                        let mut extended_type = partial_type;
                        extended_type.push(char);
                        state = DeclarationParserState::ReturnType(extended_type);
                    }
                },
                DeclarationParserState::SelectorPart(partial_selector) => {
                    if char == ' ' && partial_selector.as_str().is_empty() {
                        state = DeclarationParserState::SelectorPart(partial_selector);
                    } else if char == ' ' {
                        let mut message = "Expected `selector:` near SelectorPart(".to_owned();
                        let shown = debug_str(partial_selector.as_str());
                        append_text(&mut message, shown.as_str());
                        append_text(&mut message, ")");
                        proof {
                            lemma_failure_is_final(str@, seen + 1);
                        }
                        return Err(message);
                    } else if char == ':' {
                        current_partial_selector_part = Some(partial_selector);
                        state = DeclarationParserState::ArgumentType(String::new());
                    } else {
                        let mut partial_string = partial_selector;
                        partial_string.push(char);
                        state = DeclarationParserState::SelectorPart(partial_string);
                    }
                },
                DeclarationParserState::ArgumentType(partial_type) => {
                    if char == ' ' && partial_type.as_str().is_empty() {
                        state = DeclarationParserState::ArgumentType(partial_type);
                    } else if char == ' ' {
                        let mut message =
                            "Expected argument type near whitespace after Type(".to_owned();
                        let shown = debug_str(partial_type.as_str());
                        append_text(&mut message, shown.as_str());
                        append_text(&mut message, ")");
                        proof {
                            lemma_failure_is_final(str@, seen + 1);
                        }
                        return Err(message);
                    } else if char == '(' {
                        state = DeclarationParserState::ArgumentType(partial_type);
                    } else if char == ')' {
                        current_partial_argument_type = Some(partial_type);
                        state = DeclarationParserState::ArgumentName(String::new());
                    } else {
                        let mut extended_type = partial_type;
                        extended_type.push(char);
                        state = DeclarationParserState::ArgumentType(extended_type);
                    }
                },
                DeclarationParserState::ArgumentName(partial_name) => {
                    if char == ' ' && partial_name.as_str().is_empty() {
                        state = DeclarationParserState::ArgumentName(partial_name);
                    } else if char == ' ' {
                        let ghost parts_before = parsed_partials@;
                        let argument_type = current_partial_argument_type.take().unwrap();
                        let selector_part = current_partial_selector_part.take().unwrap();
                        let new_part = PartialDeclaration { argument_type, selector_part };
                        parsed_partials.push(new_part);
                        state = DeclarationParserState::SelectorPart(String::new());
                        assert(part_views(parsed_partials@) =~= part_views(parts_before).push(
                            new_part@,
                        ));
                    } else {
                        let mut extended_name = partial_name;
                        extended_name.push(char);
                        state = DeclarationParserState::ArgumentName(extended_name);
                    }
                },
            }
        }
        assert(str@.take(str@.len() as int) =~= str@);

        match state {
            DeclarationParserState::Initial => Err(ended_message('-', str)),
            DeclarationParserState::ReturnType(_) => Err(ended_message(')', str)),
            DeclarationParserState::ArgumentType(_) => Err(ended_message(')', str)),
            DeclarationParserState::SelectorPart(part) => {
                let kept = return_type.unwrap();
                if parsed_partials.len() == 0 {
                    let declaration = ParsedDeclaration {
                        return_type: kept,
                        first_part: PartType::LoneSelector(part),
                        next_parts: parsed_partials,
                    };
                    assert(declaration@.next_parts =~= Seq::<PartView>::empty());
                    Ok(declaration)
                } else {
                    let ghost all = parsed_partials@;
                    let first = parsed_partials.remove(0);
                    let declaration = ParsedDeclaration {
                        return_type: kept,
                        first_part: PartType::Argument(first),
                        next_parts: parsed_partials,
                    };
                    assert(declaration@.next_parts =~= part_views(all).drop_first());
                    Ok(declaration)
                }
            },
            DeclarationParserState::ArgumentName(_) => {
                let kept = return_type.unwrap();
                let ghost parts_before = parsed_partials@;
                let argument_type = current_partial_argument_type.take().unwrap();
                let selector_part = current_partial_selector_part.take().unwrap();
                let last_part = PartialDeclaration { argument_type, selector_part };
                parsed_partials.push(last_part);
                let ghost all = parsed_partials@;
                assert(part_views(all) =~= part_views(parts_before).push(last_part@));
                let first = parsed_partials.remove(0);
                let declaration = ParsedDeclaration {
                    return_type: kept,
                    first_part: PartType::Argument(first),
                    next_parts: parsed_partials,
                };
                assert(declaration@.next_parts =~= part_views(all).drop_first());
                Ok(declaration)
            },
        }
    }
}

/// The selector parts of `parts` in order, each followed by its colon.
pub open spec fn joined_selectors(parts: Seq<PartView>) -> Seq<char>
    decreases parts.len(),
{
    if parts.len() == 0 {
        Seq::empty()
    } else {
        joined_selectors(parts.drop_last()) + parts.last().selector + seq![':']
    }
}

/// The selector that a declaration declares: the bare name of a method
/// without arguments, else every part's name followed by a colon.
pub open spec fn selector_text(declaration: DeclarationView) -> Seq<char> {
    let head = match declaration.first_part {
        FirstPartView::LoneSelector(name) => name,
        FirstPartView::Argument(part) => part.selector + seq![':'],
    };
    head + joined_selectors(declaration.next_parts)
}

/// The names of the argument types of a declaration, in order.
pub open spec fn argument_types(declaration: DeclarationView) -> Seq<Seq<char>> {
    let head = match declaration.first_part {
        FirstPartView::LoneSelector(name) => Seq::<Seq<char>>::empty(),
        FirstPartView::Argument(part) => seq![part.argument_type],
    };
    head + Seq::new(
        declaration.next_parts.len(),
        |i: int| declaration.next_parts[i].argument_type,
    )
}

/// The bytes of the argument frame in front of argument `n`: eight for the
/// receiver, eight for the selector, then the arguments before it.
pub open spec fn frame_before(types: Seq<Seq<char>>, n: int) -> nat
    decreases n,
{
    if n <= 0 {
        16
    } else {
        frame_before(types, n - 1) + frame_size(named_type(types[n - 1])).unwrap()
    }
}

/// The encodings of the first `n` arguments, each followed by the offset at
/// which it lies in the frame.
pub open spec fn arguments_text(types: Seq<Seq<char>>, n: int) -> Seq<char>
    decreases n,
{
    if n <= 0 {
        Seq::empty()
    } else {
        arguments_text(types, n - 1) + encoding_text(named_type(types[n - 1])) + decimal_text(
            frame_before(types, n - 1),
        )
    }
}

/// Whether a declaration has a type encoding: its type names can be read,
/// every argument has a size, and the frame takes at most 255 bytes.
pub open spec fn encodable(declaration: DeclarationView) -> bool {
    let types = argument_types(declaration);
    &&& readable(declaration.return_type)
    &&& forall|i: int|
        0 <= i < types.len() ==> readable(#[trigger] types[i]) && frame_size(
            named_type(types[i]),
        ) is Some
    &&& frame_before(types, types.len() as int) <= 255
}

/// The type encoding of a method: the return type, the size of the whole
/// frame, the receiver at offset 0, the selector at offset 8, then each
/// argument with its offset.
pub open spec fn type_text(declaration: DeclarationView) -> Seq<char> {
    let types = argument_types(declaration);
    encoding_text(named_type(declaration.return_type)) + decimal_text(
        frame_before(types, types.len() as int),
    ) + "@0:"@ + decimal_text(8) + arguments_text(types, types.len() as int)
}

/// The frame only grows from one argument to the next.
pub proof fn lemma_frame_grows(types: Seq<Seq<char>>, i: int, j: int)
    requires
        0 <= i <= j,
    ensures
        frame_before(types, i) <= frame_before(types, j),
    decreases j - i,
{
    if i < j {
        lemma_frame_grows(types, i, j - 1);
    }
}

impl ParsedDeclaration {
    /// The selector that this declaration declares.
    pub fn selector(&self) -> (out: String)
        ensures
            out@ == selector_text(self@),
    {
        let mut s = String::new();
        match &self.first_part {
            PartType::LoneSelector(sel) => {
                append_text(&mut s, sel.as_str());
            },
            PartType::Argument(a) => {
                append_text(&mut s, a.selector_part.as_str());
                s.push(':');
            },
        }
        let ghost head = s@;
        let ghost parts = self@.next_parts;
        assert(joined_selectors(parts.take(0)) =~= Seq::<char>::empty());
        for i in 0..self.next_parts.len()
            invariant
                parts == self@.next_parts,
                s@ =~= head + joined_selectors(parts.take(i as int)),
        {
            let part = &self.next_parts[i];
            assert(parts.take(i + 1).drop_last() =~= parts.take(i as int));
            assert(parts.take(i + 1).last() == part@);
            append_text(&mut s, part.selector_part.as_str());
            s.push(':');
        }
        assert(parts.take(parts.len() as int) =~= parts);
        s
    }

    fn argument_type_names(&self) -> (names: Vec<&str>)
        ensures
            names@.len() == argument_types(self@).len(),
            forall|i: int| 0 <= i < names@.len() ==> (#[trigger] names@[i])@ == argument_types(self@)[i],
    {
        let mut names: Vec<&str> = Vec::new();
        match &self.first_part {
            PartType::LoneSelector(_) => {},
            PartType::Argument(arg) => {
                names.push(arg.argument_type.as_str());
            },
        }
        let ghost head = names@.len();
        for i in 0..self.next_parts.len()
            invariant
                head == names@.len() - i,
                head == (argument_types(self@).len() - self.next_parts.len()),
                forall|j: int|
                    0 <= j < names@.len() ==> (#[trigger] names@[j])@ == argument_types(self@)[j],
        {
            names.push(self.next_parts[i].argument_type.as_str());
        }
        names
    }

    /// Whether this declaration has a type encoding, so that `type_str` may
    /// be called.
    pub fn can_encode(&self) -> (ok: bool)
        ensures
            ok == encodable(self@),
    {
        let names = self.argument_type_names();
        let ghost types = argument_types(self@);
        let mut frame: usize = 16;
        for i in 0..names.len()
            invariant
                types == argument_types(self@),
                names@.len() == types.len(),
                forall|j: int| 0 <= j < names@.len() ==> (#[trigger] names@[j])@ == types[j],
                forall|j: int|
                    0 <= j < i ==> readable(#[trigger] types[j]) && frame_size(
                        named_type(types[j]),
                    ) is Some,
                frame == frame_before(types, i as int),
                frame <= 255,
        {
            let name = names[i];
            if !ParsedType::can_parse(name) {
                assert(!readable(types[i as int]));
                return false;
            }
            match ParsedType::parse(name).magic_size() {
                Ok(size) => {
                    frame = frame + size as usize;
                    if frame > 255 {
                        proof {
                            lemma_frame_grows(types, i + 1, types.len() as int);
                        }
                        return false;
                    }
                },
                Err(_) => {
                    assert(frame_size(named_type(types[i as int])) is None);
                    return false;
                },
            }
        }
        ParsedType::can_parse(self.return_type.as_str())
    }

    /// The type encoding of the declared method.
    pub fn type_str(&self) -> (out: String)
        requires
            encodable(self@),
        ensures
            out@ == type_text(self@),
    {
        let names = self.argument_type_names();
        let ghost types = argument_types(self@);
        let mut user_args: Vec<ParsedType> = Vec::new();
        for i in 0..names.len()
            invariant
                types == argument_types(self@),
                encodable(self@),
                names@.len() == types.len(),
                forall|j: int| 0 <= j < names@.len() ==> (#[trigger] names@[j])@ == types[j],
                user_args@.len() == i,
                forall|j: int| 0 <= j < i ==> #[trigger] user_args@[j] == named_type(types[j]),
        {
            assert(readable(types[i as int]));
            user_args.push(ParsedType::parse(names[i]));
        }
        let return_type = ParsedType::parse(self.return_type.as_str());
        let mut output = return_type.type_encoding();

        let mut user_arg_size: u8 = 0;
        for i in 0..user_args.len()
            invariant
                types == argument_types(self@),
                encodable(self@),
                user_args@.len() == types.len(),
                forall|j: int|
                    0 <= j < user_args@.len() ==> #[trigger] user_args@[j] == named_type(types[j]),
                user_arg_size + 16 == frame_before(types, i as int),
        {
            proof {
                assert(readable(types[i as int]));
                lemma_frame_grows(types, i + 1, types.len() as int);
            }
            user_arg_size = user_arg_size + user_args[i].magic_size().unwrap();
        }
        let entire_size = user_arg_size + ParsedType::Object.magic_size().unwrap()
            + ParsedType::Sel.magic_size().unwrap();
        append_text(&mut output, decimal(entire_size as u128).as_str());
        append_text(&mut output, "@0:");
        append_text(&mut output, decimal(ParsedType::Object.magic_size().unwrap() as u128).as_str());
        let ghost head = output@;

        let mut slot = ParsedType::Object.magic_size().unwrap() + ParsedType::Sel.magic_size().unwrap();
        for i in 0..user_args.len()
            invariant
                types == argument_types(self@),
                encodable(self@),
                user_args@.len() == types.len(),
                forall|j: int|
                    0 <= j < user_args@.len() ==> #[trigger] user_args@[j] == named_type(types[j]),
                slot == frame_before(types, i as int),
                output@ =~= head + arguments_text(types, i as int),
        {
            proof {
                assert(readable(types[i as int]));
                lemma_frame_grows(types, i + 1, types.len() as int);
            }
            let arg = &user_args[i];
            append_text(&mut output, arg.type_encoding().as_str());
            append_text(&mut output, decimal(slot as u128).as_str());
            slot = slot + arg.magic_size().unwrap();
        }
        output
    }
}

/// Reads a declaration and gives the selector that it declares.
pub fn parse_to_selector(declaration: &str) -> (result: Result<String, String>)
    ensures
        match result {
            Ok(selector) => parsed(declaration@) is Ok && selector@ == selector_text(
                parsed(declaration@)->Ok_0,
            ),
            Err(message) => parsed(declaration@) is Err && message@ == failure_text(
                parsed(declaration@)->Err_0,
                declaration@,
            ),
        },
{
    match ParsedDeclaration::from_str(declaration) {
        Ok(decl) => Ok(decl.selector()),
        Err(message) => Err(message),
    }
}

/// Whether `parse_to_type_encoding` may be called on `declaration`: it can
/// where the declaration cannot be read at all, and where it can be read
/// and has a type encoding.
pub fn can_parse_to_type_encoding(declaration: &str) -> (ok: bool)
    ensures
        ok == (parsed(declaration@) is Ok ==> encodable(parsed(declaration@)->Ok_0)),
{
    match ParsedDeclaration::from_str(declaration) {
        Ok(decl) => decl.can_encode(),
        Err(_) => true,
    }
}

/// Reads a declaration and gives the type encoding of the declared method.
pub fn parse_to_type_encoding(declaration: &str) -> (result: Result<String, String>)
    requires
        parsed(declaration@) is Ok ==> encodable(parsed(declaration@)->Ok_0),
    ensures
        match result {
            Ok(encoding) => parsed(declaration@) is Ok && encoding@ == type_text(
                parsed(declaration@)->Ok_0,
            ),
            Err(message) => parsed(declaration@) is Err && message@ == failure_text(
                parsed(declaration@)->Err_0,
                declaration@,
            ),
        },
{
    match ParsedDeclaration::from_str(declaration) {
        Ok(decl) => Ok(decl.type_str()),
        Err(message) => Err(message),
    }
}

/// One argument of a method as it is written in a declaration.
pub struct WrittenArgument {
    pub selector: Seq<char>,
    pub argument_type: Seq<char>,
    pub name: Seq<char>,
}

/// Whether a text can stand between the parentheses of a type: it holds no
/// space and no parenthesis.
pub open spec fn plain_type(text: Seq<char>) -> bool {
    forall|i: int| 0 <= i < text.len() ==> text[i] != ' ' && text[i] != '(' && text[i] != ')'
}

/// Whether a text can stand as a selector part: it holds no space and no
/// colon.
pub open spec fn plain_selector(text: Seq<char>) -> bool {
    forall|i: int| 0 <= i < text.len() ==> text[i] != ' ' && text[i] != ':'
}

/// Whether a text can stand as the name of an argument: it is not empty and
/// holds no space.
pub open spec fn plain_name(text: Seq<char>) -> bool {
    text.len() > 0 && forall|i: int| 0 <= i < text.len() ==> text[i] != ' '
}

/// Whether an argument can be written down and read again.
pub open spec fn plain_argument(argument: WrittenArgument) -> bool {
    &&& plain_selector(argument.selector)
    &&& plain_type(argument.argument_type)
    &&& plain_name(argument.name)
}

/// What the reader keeps of a written argument.
pub open spec fn kept(argument: WrittenArgument) -> PartView {
    PartView { selector: argument.selector, argument_type: argument.argument_type }
}

/// What the reader keeps of a run of written arguments.
pub open spec fn kept_all(arguments: Seq<WrittenArgument>) -> Seq<PartView> {
    Seq::new(arguments.len(), |i: int| kept(arguments[i]))
}

/// The arguments written one after the other, each as
/// ` selector:(type) name`.
pub open spec fn written_arguments(arguments: Seq<WrittenArgument>) -> Seq<char>
    decreases arguments.len(),
{
    if arguments.len() == 0 {
        Seq::empty()
    } else {
        let last = arguments.last();
        written_arguments(arguments.drop_last()) + seq![' '] + last.selector + seq![':', '(']
            + last.argument_type + seq![')', ' '] + last.name
    }
}

/// The declaration of a method with arguments, written as
/// `-(type) selector:(type) name selector:(type) name`.
pub open spec fn written(return_type: Seq<char>, arguments: Seq<WrittenArgument>) -> Seq<char> {
    seq!['-', '('] + return_type + seq![')'] + written_arguments(arguments)
}

/// Where the reader stands after `text`, having begun at `scan`.
pub open spec fn scan_after(scan: Scan, text: Seq<char>) -> Scan
    decreases text.len(),
{
    if text.len() == 0 {
        scan
    } else {
        step(scan_after(scan, text.drop_last()), text.last())
    }
}

/// Reading a text that is made of two goes on, after the first, with the
/// second.
pub proof fn lemma_scan_in_two(scan: Scan, first: Seq<char>, second: Seq<char>)
    ensures
        scan_after(scan, first + second) == scan_after(scan_after(scan, first), second),
    decreases second.len(),
{
    if second.len() == 0 {
        assert(first + second =~= first);
    } else {
        assert((first + second).drop_last() =~= first + second.drop_last());
        assert((first + second).last() == second.last());
        lemma_scan_in_two(scan, first, second.drop_last());
    }
}

/// Reading from the beginning is reading on from the initial place.
pub proof fn lemma_scan_from_the_beginning(text: Seq<char>)
    ensures
        scan_of(text) == scan_after(Scan::Initial, text),
    decreases text.len(),
{
    if text.len() > 0 {
        lemma_scan_from_the_beginning(text.drop_last());
    }
}

proof fn lemma_return_type_grows(text: Seq<char>, run: Seq<char>)
    requires
        plain_type(run),
    ensures
        scan_after(Scan::ReturnType { text }, run) == (Scan::ReturnType { text: text + run }),
    decreases run.len(),
{
    if run.len() == 0 {
        assert(text + run =~= text);
    } else {
        lemma_return_type_grows(text, run.drop_last());
        assert(text + run =~= (text + run.drop_last()).push(run.last()));
    }
}

proof fn lemma_selector_grows(
    return_type: Seq<char>,
    parts: Seq<PartView>,
    text: Seq<char>,
    run: Seq<char>,
)
    requires
        plain_selector(run),
    ensures
        scan_after(Scan::SelectorPart { return_type, parts, text }, run) == (Scan::SelectorPart {
            return_type,
            parts,
            text: text + run,
        }),
    decreases run.len(),
{
    if run.len() == 0 {
        assert(text + run =~= text);
    } else {
        lemma_selector_grows(return_type, parts, text, run.drop_last());
        assert(text + run =~= (text + run.drop_last()).push(run.last()));
    }
}

proof fn lemma_argument_type_grows(
    return_type: Seq<char>,
    parts: Seq<PartView>,
    selector: Seq<char>,
    text: Seq<char>,
    run: Seq<char>,
)
    requires
        plain_type(run),
    ensures
        scan_after(Scan::ArgumentType { return_type, parts, selector, text }, run)
            == (Scan::ArgumentType { return_type, parts, selector, text: text + run }),
    decreases run.len(),
{
    if run.len() == 0 {
        assert(text + run =~= text);
    } else {
        lemma_argument_type_grows(return_type, parts, selector, text, run.drop_last());
        assert(text + run =~= (text + run.drop_last()).push(run.last()));
    }
}

proof fn lemma_argument_name_grows(
    return_type: Seq<char>,
    parts: Seq<PartView>,
    selector: Seq<char>,
    argument_type: Seq<char>,
    text: Seq<char>,
    run: Seq<char>,
)
    requires
        forall|i: int| 0 <= i < run.len() ==> run[i] != ' ',
    ensures
        scan_after(Scan::ArgumentName { return_type, parts, selector, argument_type, text }, run)
            == (Scan::ArgumentName {
            return_type,
            parts,
            selector,
            argument_type,
            text: text + run,
        }),
    decreases run.len(),
{
    if run.len() == 0 {
        assert(text + run =~= text);
    } else {
        lemma_argument_name_grows(
            return_type,
            parts,
            selector,
            argument_type,
            text,
            run.drop_last(),
        );
        assert(text + run =~= (text + run.drop_last()).push(run.last()));
    }
}

/// Where the reader stands after a written declaration: behind the return
/// type where there are no arguments, else in the name of the last
/// argument, with all arguments before it kept.
pub open spec fn place_after(return_type: Seq<char>, arguments: Seq<WrittenArgument>) -> Scan {
    if arguments.len() == 0 {
        Scan::SelectorPart { return_type, parts: Seq::empty(), text: Seq::empty() }
    } else {
        Scan::ArgumentName {
            return_type,
            parts: kept_all(arguments.drop_last()),
            selector: arguments.last().selector,
            argument_type: arguments.last().argument_type,
            text: arguments.last().name,
        }
    }
}

proof fn lemma_one_char(scan: Scan, c: char)
    ensures
        scan_after(scan, seq![c]) == step(scan, c),
{
    assert(seq![c].drop_last() =~= Seq::<char>::empty());
    assert(scan_after(scan, Seq::<char>::empty()) == scan);
    assert(seq![c].last() == c);
}

proof fn lemma_two_chars(scan: Scan, c: char, d: char)
    ensures
        scan_after(scan, seq![c, d]) == step(step(scan, c), d),
{
    assert(seq![c, d].drop_last() =~= seq![c]);
    lemma_one_char(scan, c);
}

proof fn lemma_written_is_read(return_type: Seq<char>, arguments: Seq<WrittenArgument>)
    requires
        plain_type(return_type),
        forall|i: int| 0 <= i < arguments.len() ==> plain_argument(#[trigger] arguments[i]),
    ensures
        scan_after(Scan::Initial, written(return_type, arguments)) == place_after(
            return_type,
            arguments,
        ),
    decreases arguments.len(),
{
    let empty = Seq::<char>::empty();
    if arguments.len() == 0 {
        let head = seq!['-', '('];
        assert(written(return_type, arguments) =~= head + return_type + seq![')']);
        lemma_scan_in_two(Scan::Initial, head + return_type, seq![')']);
        lemma_scan_in_two(Scan::Initial, head, return_type);
        lemma_two_chars(Scan::Initial, '-', '(');
        lemma_return_type_grows(empty, return_type);
        assert(empty + return_type =~= return_type);
        lemma_one_char(Scan::ReturnType { text: return_type }, ')');
    } else {
        let before = arguments.drop_last();
        let last = arguments.last();
        assert forall|i: int| 0 <= i < before.len() implies plain_argument(
            #[trigger] before[i],
        ) by {
            assert(before[i] == arguments[i]);
        }
        assert(plain_argument(last));
        lemma_written_is_read(return_type, before);
        let so_far = written(return_type, before);
        let parts = kept_all(before);
        // The places that the reader passes through, one piece of text at a time.
        let at_selector = Scan::SelectorPart { return_type, parts, text: empty };
        let in_selector = Scan::SelectorPart { return_type, parts, text: last.selector };
        let at_type = Scan::ArgumentType {
            return_type,
            parts,
            selector: last.selector,
            text: empty,
        };
        let in_type = Scan::ArgumentType {
            return_type,
            parts,
            selector: last.selector,
            text: last.argument_type,
        };
        let at_name = Scan::ArgumentName {
            return_type,
            parts,
            selector: last.selector,
            argument_type: last.argument_type,
            text: empty,
        };
        let t1 = so_far + seq![' '];
        let t2 = t1 + last.selector;
        let t3 = t2 + seq![':', '('];
        let t4 = t3 + last.argument_type;
        let t5 = t4 + seq![')', ' '];
        let t6 = t5 + last.name;
        assert(written(return_type, arguments) =~= t6);
        // The space that sets the argument off.
        lemma_scan_in_two(Scan::Initial, so_far, seq![' ']);
        lemma_one_char(place_after(return_type, before), ' ');
        if before.len() > 0 {
            assert(before.last().name.len() > 0);
            assert(before =~= before.drop_last().push(before.last()));
            assert(parts =~= kept_all(before.drop_last()).push(kept(before.last())));
        } else {
            assert(parts =~= Seq::<PartView>::empty());
        }
        assert(scan_after(Scan::Initial, t1) == at_selector);
        // The selector part.
        lemma_scan_in_two(Scan::Initial, t1, last.selector);
        lemma_selector_grows(return_type, parts, empty, last.selector);
        assert(empty + last.selector =~= last.selector);
        assert(scan_after(Scan::Initial, t2) == in_selector);
        // The colon and the opening parenthesis.
        lemma_scan_in_two(Scan::Initial, t2, seq![':', '(']);
        lemma_two_chars(in_selector, ':', '(');
        assert(scan_after(Scan::Initial, t3) == at_type);
        // The type.
        lemma_scan_in_two(Scan::Initial, t3, last.argument_type);
        lemma_argument_type_grows(return_type, parts, last.selector, empty, last.argument_type);
        assert(empty + last.argument_type =~= last.argument_type);
        assert(scan_after(Scan::Initial, t4) == in_type);
        // The closing parenthesis and the space.
        lemma_scan_in_two(Scan::Initial, t4, seq![')', ' ']);
        lemma_two_chars(in_type, ')', ' ');
        assert(scan_after(Scan::Initial, t5) == at_name);
        // The name.
        lemma_scan_in_two(Scan::Initial, t5, last.name);
        lemma_argument_name_grows(
            return_type,
            parts,
            last.selector,
            last.argument_type,
            empty,
            last.name,
        );
        assert(empty + last.name =~= last.name);
    }
}

/// A declaration that is written down is read back as it was written: the
/// return type, and every argument's selector part and type, in order. The
/// names of the arguments are not kept.
pub proof fn law_written_declaration_is_read_back(
    return_type: Seq<char>,
    arguments: Seq<WrittenArgument>,
)
    requires
        plain_type(return_type),
        arguments.len() > 0,
        forall|i: int| 0 <= i < arguments.len() ==> plain_argument(#[trigger] arguments[i]),
    ensures
        parsed(written(return_type, arguments)) == Ok::<DeclarationView, ParseFailure>(
            with_arguments(return_type, kept_all(arguments)),
        ),
        selector_text(with_arguments(return_type, kept_all(arguments))) == joined_selectors(
            kept_all(arguments),
        ),
{
    lemma_written_is_read(return_type, arguments);
    lemma_scan_from_the_beginning(written(return_type, arguments));
    let all = kept_all(arguments);
    assert(all =~= kept_all(arguments.drop_last()).push(kept(arguments.last())));
    lemma_selectors_from_the_front(all);
}

/// The selector parts joined from the back are the first part, its colon,
/// and the rest joined.
proof fn lemma_selectors_from_the_front(parts: Seq<PartView>)
    requires
        parts.len() > 0,
    ensures
        joined_selectors(parts) == parts[0].selector + seq![':'] + joined_selectors(
            parts.drop_first(),
        ),
    decreases parts.len(),
{
    if parts.len() == 1 {
        assert(parts.drop_last() =~= Seq::<PartView>::empty());
        assert(parts.drop_first() =~= Seq::<PartView>::empty());
        assert(joined_selectors(parts.drop_last()) =~= Seq::<char>::empty());
        assert(joined_selectors(parts.drop_first()) =~= Seq::<char>::empty());
        assert(joined_selectors(parts) =~= parts[0].selector + seq![':']);
    } else {
        lemma_selectors_from_the_front(parts.drop_last());
        assert(parts.drop_last().drop_first() =~= parts.drop_first().drop_last());
        assert(parts.drop_first().last() == parts.last());
        assert(joined_selectors(parts) =~= parts[0].selector + seq![':'] + joined_selectors(
            parts.drop_first(),
        ));
    }
}

/// A method without arguments that is written down as `-(type) name` is
/// read back as its return type and its name, which is its whole selector.
pub proof fn law_written_lone_selector_is_read_back(return_type: Seq<char>, name: Seq<char>)
    requires
        plain_type(return_type),
        plain_selector(name),
    ensures
        parsed(written(return_type, Seq::empty()) + seq![' '] + name) == Ok::<
            DeclarationView,
            ParseFailure,
        >(
            DeclarationView {
                return_type,
                first_part: FirstPartView::LoneSelector(name),
                next_parts: Seq::empty(),
            },
        ),
        selector_text(
            DeclarationView {
                return_type,
                first_part: FirstPartView::LoneSelector(name),
                next_parts: Seq::empty(),
            },
        ) == name,
{
    let empty = Seq::<char>::empty();
    let head = written(return_type, Seq::empty());
    let text = head + seq![' '] + name;
    lemma_written_is_read(return_type, Seq::empty());
    lemma_scan_from_the_beginning(text);
    lemma_scan_in_two(Scan::Initial, head + seq![' '], name);
    lemma_scan_in_two(Scan::Initial, head, seq![' ']);
    let at_selector = Scan::SelectorPart {
        return_type,
        parts: Seq::<PartView>::empty(),
        text: empty,
    };
    lemma_one_char(at_selector, ' ');
    lemma_selector_grows(return_type, Seq::<PartView>::empty(), empty, name);
    assert(empty + name =~= name);
    assert(name + joined_selectors(Seq::<PartView>::empty()) =~= name);
}

} // verus!
