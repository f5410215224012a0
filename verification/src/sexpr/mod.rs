//! S-expression reading, printing and conversion.
//!
//! An S-expression is a symbol (`note`), a keyword (`:pitch`), a string
//! (`"Piano"`), an integer (`42`), a decimal (`3.14`), a boolean (`#t`,
//! `#f`), `nil`, or a parenthesized list of S-expressions.

use vstd::prelude::*;

pub mod ast;
pub mod traits;

pub use ast::{ListBuilder, Sexpr, SexprV};
pub use traits::{FromSexpr, ToSexpr};
pub mod error;
pub use error::{ConvertError, ParseError};
pub mod print;
pub use print::{print_sexpr, to_sexpr_string};
pub mod parser;
pub mod printer;
pub mod notation_printer;
pub mod measure_printer;
pub mod printed_heads;
pub use printer::PrintOptions;
pub use parser::{parse, parse_all};
pub mod convert;
pub mod round_trip;
pub mod read_print;

use error::{ConvertErrorV, ParseErrorV, error_describable, parse_error_message, convert_error_message};
use parser::parse_spec;
use printer::printed_score;
use crate::ir::score::ScorePartwise;

verus! {

/// An error of reading a typed value from S-expression text: the text does
/// not read, or what it reads does not convert.
#[derive(Debug, PartialEq)]
pub enum SexprError {
    /// The text is not an S-expression.
    Parse(ParseError),
    /// The S-expression does not convert to the value's type.
    Convert(ConvertError),
}

/// The value of a `SexprError`.
pub enum SexprErrorV {
    Parse(ParseErrorV),
    Convert(ConvertErrorV),
}

impl View for SexprError {
    type V = SexprErrorV;

    open spec fn view(&self) -> SexprErrorV {
        match self {
            SexprError::Parse(e) => SexprErrorV::Parse(e@),
            SexprError::Convert(e) => SexprErrorV::Convert(e@),
        }
    }
}

/// The message of a reading error: that of the error it holds.
pub open spec fn sexpr_error_message(e: SexprErrorV) -> Seq<char> {
    match e {
        SexprErrorV::Parse(p) => parse_error_message(p),
        SexprErrorV::Convert(c) => convert_error_message(c),
    }
}

impl SexprError {
    /// The message of this error, as `sexpr_error_message` states.
    pub fn to_string(&self) -> (r: String)
        ensures
            r@ == sexpr_error_message(self@),
    {
        match self {
            SexprError::Parse(e) => e.to_string(),
            SexprError::Convert(e) => e.to_string(),
        }
    }
}

/// What reading a `T` from the text `s` gives, as an error or a value:
/// `Err` with the error when the text does not read or what it reads does
/// not convert; otherwise a value of which `T::from_sexpr_value` holds.
pub open spec fn from_sexpr_str_holds<T: FromSexpr>(s: Seq<char>, r: Result<T, SexprErrorV>) -> bool {
    match parse_spec(s) {
        Err(pe) => r == Err::<T, SexprErrorV>(SexprErrorV::Parse(pe)),
        Ok(v) => match T::from_sexpr_error(v) {
            Some(ce) => r == Err::<T, SexprErrorV>(SexprErrorV::Convert(ce)),
            None => r matches Ok(x) && T::from_sexpr_value(v, x),
        },
    }
}

/// Reads S-expression text and converts what it holds to a `T`.
pub fn from_sexpr_str<T: FromSexpr>(input: &str) -> (r: Result<T, SexprError>)
    requires
        parse_spec(input@) matches Ok(v) ==> error_describable(T::from_sexpr_error(v)),
    ensures
        from_sexpr_str_holds::<T>(
            input@,
            match r {
                Ok(x) => Ok(x),
                Err(e) => Err(e@),
            },
        ),
{
    match parse(input) {
        Err(e) => Err(SexprError::Parse(e)),
        Ok(sexpr) => match T::from_sexpr(&sexpr) {
            Ok(x) => Ok(x),
            Err(e) => Err(SexprError::Convert(e)),
        },
    }
}

/// Writes a score with the default layout: two spaces of indentation per
/// level, one element per line.
pub fn print_score(score: &ScorePartwise) -> (r: String)
    ensures
        exists|o: PrintOptions| o.indent@ == "  "@ && !o.compact && r@ == printed_score(*score, o),
{
    let o = PrintOptions::default();
    let r = printer::print_score(score, &o);
    assert(o.indent@ == "  "@ && !o.compact && r@ == printed_score(*score, o));
    r
}

/// Writes a score with the given layout, as `printed_score` states.
pub fn print_score_with_options(score: &ScorePartwise, options: &PrintOptions) -> (r: String)
    ensures
        r@ == printed_score(*score, *options),
        options.compact ==> !r@.contains('\n'),
{
    let r = printer::print_score(score, options);
    proof {
        if options.compact {
            printer::law_compact_one_line(*score, *options);
        }
    }
    r
}

} // verus!
