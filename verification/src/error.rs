//! Why reading an export failed.

use vstd::prelude::*;
use vstd::string::*;

verus! {

/// A failure that ends the reading of one export. Anything less (a
/// timestamp that cannot be read, a field that is missing) costs the entry
/// that field and nothing more.
#[derive(Debug, PartialEq, Eq)]
pub enum ParseError {
    /// The file could not be read. Holds the cause.
    Io(String),
    /// The document does not have the shape of the platform's export. Holds
    /// the cause, which names what was expected.
    Structure(String),
}

/// What a [`ParseError`] holds, as mathematical values.
pub enum ParseErrorView {
    Io(Seq<char>),
    Structure(Seq<char>),
}

impl View for ParseError {
    type V = ParseErrorView;

    open spec fn view(&self) -> ParseErrorView {
        match self {
            ParseError::Io(cause) => ParseErrorView::Io(cause@),
            ParseError::Structure(cause) => ParseErrorView::Structure(cause@),
        }
    }
}

impl ParseErrorView {
    /// The one-line message of the error.
    pub open spec fn message(self) -> Seq<char> {
        match self {
            ParseErrorView::Io(cause) => "Parse error: IO error: "@ + cause,
            ParseErrorView::Structure(cause) => "Parse error: "@ + cause,
        }
    }
}

impl ParseError {
    /// The one-line message of the error, for the caller to show.
    pub fn message(&self) -> (r: String)
        ensures
            r@ == self@.message(),
    {
        match self {
            ParseError::Io(cause) => String::from_str("Parse error: IO error: ").concat(
                cause.as_str(),
            ),
            ParseError::Structure(cause) => String::from_str("Parse error: ").concat(
                cause.as_str(),
            ),
        }
    }
}

} // verus!
