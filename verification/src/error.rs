//! The failures that the library reports.

use vstd::prelude::*;

verus! {

/// Why a text is not the canonical form of an identifier.
#[derive(Clone, Copy, Debug, PartialEq, Eq)]
pub enum ParseReason {
    /// The text does not have 36 characters; `found` is the number it has.
    WrongLength { found: usize },
    /// The first offending character stands where a hyphen belongs.
    MissingHyphen { position: usize },
    /// The first offending character stands where a hexadecimal digit belongs.
    InvalidCharacter { position: usize },
}

/// A text that could not be read as an identifier.
#[derive(Clone, Debug, PartialEq, Eq)]
pub struct ParseError {
    pub reason: ParseReason,
    pub offending_input: String,
}

/// A namespace argument that is neither a well-known name nor the canonical
/// form of an identifier.
#[derive(Clone, Debug, PartialEq, Eq)]
pub struct NamespaceError {
    /// Why the token, which is no well-known name, is no identifier either.
    pub reason: ParseReason,
    pub token: String,
}

/// The system clock could not be read.
#[derive(Clone, Copy, Debug, PartialEq, Eq)]
pub struct ClockError;

/// The wording of each reason.
pub open spec fn reason_text(reason: ParseReason) -> Seq<char> {
    match reason {
        ParseReason::WrongLength { .. } => "invalid length: expected 36 characters"@,
        ParseReason::MissingHyphen { .. } => "invalid group separator: expected a hyphen"@,
        ParseReason::InvalidCharacter { .. } => "invalid character: expected a hexadecimal digit"@,
    }
}

impl ParseReason {
    /// A sentence for people that says what is wrong with the text.
    pub fn message(&self) -> (text: &'static str)
        ensures
            text@ == reason_text(*self),
    {
        match self {
            ParseReason::WrongLength { .. } => "invalid length: expected 36 characters",
            ParseReason::MissingHyphen { .. } => "invalid group separator: expected a hyphen",
            ParseReason::InvalidCharacter { .. } => "invalid character: expected a hexadecimal digit",
        }
    }
}

} // verus!
