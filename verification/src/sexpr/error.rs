//! Errors of S-expression reading and of conversion to typed values.

use vstd::prelude::*;
use crate::text::{
    push_char, push_chars, i64_chars, u64_digits, int_text, nat_digits, utf8_len, byte_prefix,
    is_char_boundary, utf8_len_exceeds, byte_prefix_of, chars_of,
};
use super::ast::{Sexpr, SexprV};

verus! {

/// An error of reading S-expression text.
#[derive(Debug, Clone, PartialEq)]
pub enum ParseError {
    /// The input ended where more was expected.
    UnexpectedEof,
    /// A character stood where it cannot.
    UnexpectedChar(char),
    /// A string literal was not closed.
    UnclosedString,
    /// A list was not closed with `)`.
    UnclosedList,
    /// A backslash was followed by a character that it cannot escape.
    InvalidEscape(char),
    /// The text does not hold an expression where one was expected; the
    /// message tells where.
    Nom(String),
    /// More text follows a complete expression; the payload is its start.
    TrailingContent(String),
}

/// The value of a `ParseError`.
pub enum ParseErrorV {
    UnexpectedEof,
    UnexpectedChar(char),
    UnclosedString,
    UnclosedList,
    InvalidEscape(char),
    Nom(Seq<char>),
    TrailingContent(Seq<char>),
}

impl View for ParseError {
    type V = ParseErrorV;

    open spec fn view(&self) -> ParseErrorV {
        match self {
            ParseError::UnexpectedEof => ParseErrorV::UnexpectedEof,
            ParseError::UnexpectedChar(c) => ParseErrorV::UnexpectedChar(*c),
            ParseError::UnclosedString => ParseErrorV::UnclosedString,
            ParseError::UnclosedList => ParseErrorV::UnclosedList,
            ParseError::InvalidEscape(c) => ParseErrorV::InvalidEscape(*c),
            ParseError::Nom(s) => ParseErrorV::Nom(s@),
            ParseError::TrailingContent(s) => ParseErrorV::TrailingContent(s@),
        }
    }
}

/// An error of converting an S-expression to a typed value.
#[derive(Debug, PartialEq)]
pub enum ConvertError {
    /// Another kind of S-expression was expected.
    TypeMismatch {
        /// What was expected.
        expected: &'static str,
        /// A description of what was found.
        found: String,
    },
    /// A required keyword argument is absent.
    MissingField(&'static str),
    /// A keyword that the type does not know.
    UnknownKeyword(String),
    /// A value that the field cannot take.
    InvalidValue {
        /// The field.
        field: &'static str,
        /// The value, as text.
        value: String,
    },
    /// A list with another head symbol was expected.
    ExpectedHead(&'static str),
    /// An unknown variant name.
    InvalidVariant(String),
    /// An error with a description of where it occurred.
    Context {
        /// Where the error occurred.
        context: String,
        /// The error.
        source: Box<ConvertError>,
    },
}

/// The value of a `ConvertError`.
pub enum ConvertErrorV {
    TypeMismatch { expected: Seq<char>, found: Seq<char> },
    MissingField(Seq<char>),
    UnknownKeyword(Seq<char>),
    InvalidValue { field: Seq<char>, value: Seq<char> },
    ExpectedHead(Seq<char>),
    InvalidVariant(Seq<char>),
    Context { context: Seq<char>, source: Box<ConvertErrorV> },
}

/// The value of a conversion error.
pub open spec fn convert_error_view(e: ConvertError) -> ConvertErrorV
    decreases e,
{
    match e {
        ConvertError::TypeMismatch { expected, found } => ConvertErrorV::TypeMismatch {
            expected: expected@,
            found: found@,
        },
        ConvertError::MissingField(f) => ConvertErrorV::MissingField(f@),
        ConvertError::UnknownKeyword(k) => ConvertErrorV::UnknownKeyword(k@),
        ConvertError::InvalidValue { field, value } => ConvertErrorV::InvalidValue {
            field: field@,
            value: value@,
        },
        ConvertError::ExpectedHead(h) => ConvertErrorV::ExpectedHead(h@),
        ConvertError::InvalidVariant(v) => ConvertErrorV::InvalidVariant(v@),
        ConvertError::Context { context, source } => ConvertErrorV::Context {
            context: context@,
            source: Box::new(convert_error_view(*source)),
        },
    }
}

impl View for ConvertError {
    type V = ConvertErrorV;

    open spec fn view(&self) -> ConvertErrorV {
        convert_error_view(*self)
    }
}

/// Whether the description of `s` in error messages can be made: a string
/// longer than 20 bytes is cut after 17 bytes, which needs a character
/// boundary there.
pub open spec fn describable(s: SexprV) -> bool {
    match s {
        SexprV::Str(t) => utf8_len(t) <= 20 || is_char_boundary(t, 17),
        _ => true,
    }
}

/// How error messages describe an S-expression. A string longer than 20
/// bytes is cut after its first 17 bytes; one with no character boundary
/// there cannot be cut, and stands whole here, which no description that
/// `describe_sexpr` makes does (see `uncut_long_string`).
pub open spec fn describe(s: SexprV) -> Seq<char> {
    match s {
        SexprV::Symbol(t) => "symbol '"@ + t + "'"@,
        SexprV::Keyword(k) => "keyword ':"@ + k + "'"@,
        SexprV::Str(t) => if utf8_len(t) > 20 && is_char_boundary(t, 17) {
            "string \""@ + byte_prefix(t, 17) + "...\""@
        } else {
            "string \""@ + t + "\""@
        },
        SexprV::Integer(i) => "integer "@ + int_text(i),
        SexprV::Float(d) => "float "@ + d.plain_text(),
        SexprV::Bool(b) => if b {
            "boolean #t"@
        } else {
            "boolean #f"@
        },
        SexprV::Nil => "nil"@,
        SexprV::List(items) => if items.len() == 0 {
            "empty list ()"@
        } else if items[0] is Symbol {
            "list with head '"@ + items[0]->Symbol_0 + "'"@
        } else {
            "list with "@ + nat_digits(items.len()) + " items"@
        },
    }
}

/// Whether a description is that of a string longer than 20 bytes left
/// whole: the description of a string that cannot be cut.
pub open spec fn uncut_long_string(d: Seq<char>) -> bool {
    &&& d.len() >= 9
    &&& d.take(8) == "string \""@
    &&& d.last() == '"'
    &&& utf8_len(d.subrange(8, d.len() - 1)) > 20
}

/// Whether the message of a conversion error can be made: it describes no
/// string that cannot be cut.
pub open spec fn message_describable(e: ConvertErrorV) -> bool
    decreases e,
{
    match e {
        ConvertErrorV::TypeMismatch { found, .. } => !uncut_long_string(found),
        ConvertErrorV::Context { source, .. } => message_describable(*source),
        _ => true,
    }
}

/// Whether the error of a conversion, where there is one, can be made.
pub open spec fn error_describable(e: Option<ConvertErrorV>) -> bool {
    match e {
        Some(x) => message_describable(x),
        None => true,
    }
}

/// A type mismatch whose message can be made describes an S-expression that
/// can be described.
pub proof fn lemma_mismatch_describable(expected: Seq<char>, s: SexprV)
    requires
        message_describable(type_mismatch_v(expected, s)),
    ensures
        describable(s),
{
    if let SexprV::Str(t) = s {
        if !describable(s) {
            reveal_strlit("string \"");
            reveal_strlit("\"");
            let d = describe(s);
            assert(d == "string \""@ + t + "\""@);
            assert(d.take(8) =~= "string \""@);
            assert(d.subrange(8, d.len() - 1) =~= t);
            assert(uncut_long_string(d));
        }
    }
}

/// The error value of a type mismatch.
pub open spec fn type_mismatch_v(expected: Seq<char>, found: SexprV) -> ConvertErrorV {
    ConvertErrorV::TypeMismatch { expected, found: describe(found) }
}

/// Describes an S-expression for error messages, as `describe` states.
pub fn describe_sexpr(sexpr: &Sexpr) -> (r: String)
    requires
        describable(sexpr@),
    ensures
        r@ == describe(sexpr@),
{
    let mut out = String::new();
    match sexpr {
        Sexpr::Symbol(s) => {
            out.append("symbol '");
            out.append(s.as_str());
            out.append("'");
        },
        Sexpr::Keyword(k) => {
            out.append("keyword ':");
            out.append(k.as_str());
            out.append("'");
        },
        Sexpr::String(s) => {
            let cs = chars_of(s.as_str());
            out.append("string \"");
            if utf8_len_exceeds(&cs, 0, 20) {
                let (prefix, _) = byte_prefix_of(&cs, 0, 17);
                assert(cs@.skip(0) == cs@);
                push_chars(&mut out, &prefix);
                out.append("...\"");
            } else {
                assert(cs@.skip(0) == cs@);
                out.append(s.as_str());
                out.append("\"");
            }
        },
        Sexpr::Integer(i) => {
            out.append("integer ");
            let d = i64_chars(*i);
            push_chars(&mut out, &d);
        },
        Sexpr::Float(f) => {
            out.append("float ");
            let d = f.plain_chars();
            push_chars(&mut out, &d);
        },
        Sexpr::Bool(b) => {
            if *b {
                out.append("boolean #t");
            } else {
                out.append("boolean #f");
            }
        },
        Sexpr::Nil => {
            out.append("nil");
        },
        Sexpr::List(items) => {
            proof {
                crate::sexpr::ast::lemma_views_of(items@);
            }
            if items.len() == 0 {
                out.append("empty list ()");
            } else {
                match &items[0] {
                    Sexpr::Symbol(head) => {
                        out.append("list with head '");
                        out.append(head.as_str());
                        out.append("'");
                    },
                    _ => {
                        out.append("list with ");
                        let d = u64_digits(items.len() as u64);
                        push_chars(&mut out, &d);
                        out.append(" items");
                    },
                }
            }
        },
    }
    out
}

impl ConvertError {
    /// A copy of this error with the same value.
    pub fn duplicate(&self) -> (r: ConvertError)
        ensures
            r@ == self@,
        decreases self,
    {
        match self {
            ConvertError::TypeMismatch { expected, found } => ConvertError::TypeMismatch {
                expected,
                found: found.clone(),
            },
            ConvertError::MissingField(f) => ConvertError::MissingField(f),
            ConvertError::UnknownKeyword(k) => ConvertError::UnknownKeyword(k.clone()),
            ConvertError::InvalidValue { field, value } => ConvertError::InvalidValue {
                field,
                value: value.clone(),
            },
            ConvertError::ExpectedHead(h) => ConvertError::ExpectedHead(h),
            ConvertError::InvalidVariant(v) => ConvertError::InvalidVariant(v.clone()),
            ConvertError::Context { context, source } => ConvertError::Context {
                context: context.clone(),
                source: Box::new(source.duplicate()),
            },
        }
    }
}

impl Clone for ConvertError {
    fn clone(&self) -> (r: ConvertError)
        ensures
            r@ == self@,
    {
        self.duplicate()
    }
}

impl ConvertError {
    /// A type mismatch between what was `expected` and the S-expression
    /// `found`.
    pub fn type_mismatch(expected: &'static str, found: &Sexpr) -> (r: ConvertError)
        requires
            message_describable(type_mismatch_v(expected@, found@)),
        ensures
            r@ == type_mismatch_v(expected@, found@),
    {
        proof {
            lemma_mismatch_describable(expected@, found@);
        }
        ConvertError::TypeMismatch { expected, found: describe_sexpr(found) }
    }

    /// This error, with a description of where it occurred.
    pub fn with_context(self, context: &str) -> (r: ConvertError)
        ensures
            r@ == (ConvertErrorV::Context { context: context@, source: Box::new(self@) }),
    {
        ConvertError::Context { context: context.to_owned(), source: Box::new(self) }
    }

    /// An invalid value of `field`.
    pub fn invalid_value(field: &'static str, value: &str) -> (r: ConvertError)
        ensures
            r@ == (ConvertErrorV::InvalidValue { field: field@, value: value@ }),
    {
        ConvertError::InvalidValue { field, value: value.to_owned() }
    }
}


/// The message of a reading error.
pub open spec fn parse_error_message(e: ParseErrorV) -> Seq<char> {
    match e {
        ParseErrorV::UnexpectedEof => "Unexpected end of input"@,
        ParseErrorV::UnexpectedChar(c) => "Unexpected character: '"@ + seq![c] + "'"@,
        ParseErrorV::UnclosedString => "Unclosed string literal"@,
        ParseErrorV::UnclosedList => "Unclosed list (missing ')')"@,
        ParseErrorV::InvalidEscape(c) => "Invalid escape sequence: \\"@ + seq![c],
        ParseErrorV::Nom(m) => "Parse error: "@ + m,
        ParseErrorV::TrailingContent(t) => "Unexpected trailing content: "@ + t,
    }
}

/// The message of a conversion error.
pub open spec fn convert_error_message(e: ConvertErrorV) -> Seq<char>
    decreases e,
{
    match e {
        ConvertErrorV::TypeMismatch { expected, found } => "Expected "@ + expected + ", found "@
            + found,
        ConvertErrorV::MissingField(f) => "Missing required field: "@ + f,
        ConvertErrorV::UnknownKeyword(k) => "Unknown keyword: :"@ + k,
        ConvertErrorV::InvalidValue { field, value } => "Invalid value for "@ + field + ": "@
            + value,
        ConvertErrorV::ExpectedHead(h) => "Expected list with head '"@ + h + "'"@,
        ConvertErrorV::InvalidVariant(v) => "Invalid enum variant: "@ + v,
        ConvertErrorV::Context { context, source } => context + ": "@ + convert_error_message(
            *source,
        ),
    }
}

impl ParseError {
    /// The message of this error, as `parse_error_message` states.
    pub fn to_string(&self) -> (r: String)
        ensures
            r@ == parse_error_message(self@),
    {
        let mut out = String::new();
        match self {
            ParseError::UnexpectedEof => out.append("Unexpected end of input"),
            ParseError::UnexpectedChar(c) => {
                out.append("Unexpected character: '");
                push_char(&mut out, *c);
                out.append("'");
            },
            ParseError::UnclosedString => out.append("Unclosed string literal"),
            ParseError::UnclosedList => out.append("Unclosed list (missing ')')"),
            ParseError::InvalidEscape(c) => {
                out.append("Invalid escape sequence: \\");
                push_char(&mut out, *c);
            },
            ParseError::Nom(m) => {
                out.append("Parse error: ");
                out.append(m.as_str());
            },
            ParseError::TrailingContent(t) => {
                out.append("Unexpected trailing content: ");
                out.append(t.as_str());
            },
        }
        out
    }
}

impl ConvertError {
    /// Appends the message of this error to `out`.
    fn write_message(&self, out: &mut String)
        ensures
            final(out)@ == old(out)@ + convert_error_message(self@),
        decreases self,
    {
        match self {
            ConvertError::TypeMismatch { expected, found } => {
                out.append("Expected ");
                out.append(expected);
                out.append(", found ");
                out.append(found.as_str());
            },
            ConvertError::MissingField(f) => {
                out.append("Missing required field: ");
                out.append(f);
            },
            ConvertError::UnknownKeyword(k) => {
                out.append("Unknown keyword: :");
                out.append(k.as_str());
            },
            ConvertError::InvalidValue { field, value } => {
                out.append("Invalid value for ");
                out.append(field);
                out.append(": ");
                out.append(value.as_str());
            },
            ConvertError::ExpectedHead(h) => {
                out.append("Expected list with head '");
                out.append(h);
                out.append("'");
            },
            ConvertError::InvalidVariant(v) => {
                out.append("Invalid enum variant: ");
                out.append(v.as_str());
            },
            ConvertError::Context { context, source } => {
                out.append(context.as_str());
                out.append(": ");
                source.write_message(out);
            },
        }
    }

    /// The message of this error, as `convert_error_message` states.
    pub fn to_string(&self) -> (r: String)
        ensures
            r@ == convert_error_message(self@),
    {
        let mut out = String::new();
        self.write_message(&mut out);
        out
    }
}

} // verus!
