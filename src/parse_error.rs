//! The error of the parser.
use vstd::prelude::*;
use vstd::string::StringExecFns;

verus! {

/// The input does not follow the grammar.
#[derive(Debug, Clone, Copy, PartialEq, Eq, Structural)]
pub struct ParseError;

pub type ParseResult<T> = Result<T, ParseError>;

impl ParseError {
    /// The text that describes the error.
    pub fn message(&self) -> (r: String)
        ensures
            r@ == "Parsing Error."@,
    {
        String::from_str("Parsing Error.")
    }
}

} // verus!
