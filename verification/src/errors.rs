//! The error taxonomy of the store and its classifier.
//!
//! Every failure of an operation is one of a fixed set of kinds; the HTTP
//! adapter only ever sees a kind and turns it into a wire status through
//! [`classify`].

use vstd::prelude::*;
use vstd::string::*;

verus! {

/// Why a string failed to parse as a non-negative index.
#[derive(Debug, Clone, Copy, PartialEq, Eq, Structural)]
pub enum ParseFailure {
    /// The value was the empty string.
    EmptyInput,
    /// The value held a character that is not a decimal digit.
    InvalidDigit,
    /// The digits name a number too large for an index.
    Overflow,
}

/// The classified failure of an operation.
#[derive(Debug)]
pub enum ErrorKind {
    /// An identifier was built from the empty string.
    InvalidInput,
    /// A required query or form parameter was absent; carries its name.
    MissingParameter(String),
    /// A pagination value did not parse as a non-negative index.
    ParseError(ParseFailure),
    /// A pagination range does not fit the current collection.
    OutOfIndex,
    /// A question identifier is not a key of the store.
    QuestionNotFound,
}

/// The mathematical shape of an [`ErrorKind`]: the parameter name is a
/// sequence of characters rather than a `String` value.
pub ghost enum ErrorV {
    InvalidInput,
    MissingParameter(Seq<char>),
    ParseError(ParseFailure),
    OutOfIndex,
    QuestionNotFound,
}

impl View for ErrorKind {
    type V = ErrorV;

    open spec fn view(&self) -> ErrorV {
        match self {
            ErrorKind::InvalidInput => ErrorV::InvalidInput,
            ErrorKind::MissingParameter(name) => ErrorV::MissingParameter(name@),
            ErrorKind::ParseError(f) => ErrorV::ParseError(*f),
            ErrorKind::OutOfIndex => ErrorV::OutOfIndex,
            ErrorKind::QuestionNotFound => ErrorV::QuestionNotFound,
        }
    }
}

/// The response category an error falls into: the adapter picks the wire
/// status from this alone.
#[derive(Debug, Clone, Copy, PartialEq, Eq, Structural)]
pub enum Category {
    /// The caller's input was unusable: missing, unparsable, or out of range.
    ClientInput,
    /// The named entity is not in the store.
    NotFound,
}

/// Maps each error kind to its response category: a missing question is
/// `NotFound`, every other kind is a client input error.
pub fn classify(error: &ErrorKind) -> (category: Category)
    ensures
        category == (match error@ {
            ErrorV::QuestionNotFound => Category::NotFound,
            _ => Category::ClientInput,
        }),
{
    match error {
        ErrorKind::QuestionNotFound => Category::NotFound,
        _ => Category::ClientInput,
    }
}

impl ParseFailure {
    /// A short account of the parse failure.
    pub fn message(&self) -> (text: String)
        ensures
            *self is EmptyInput ==> text@ == "cannot parse integer from empty string"@,
            *self is InvalidDigit ==> text@ == "invalid digit found in string"@,
            *self is Overflow ==> text@ == "number too large to fit in target type"@,
    {
        match self {
            ParseFailure::EmptyInput => String::from_str("cannot parse integer from empty string"),
            ParseFailure::InvalidDigit => String::from_str("invalid digit found in string"),
            ParseFailure::Overflow => String::from_str("number too large to fit in target type"),
        }
    }
}

impl ErrorKind {
    /// The text the adapter sends back with the wire status.
    pub fn message(&self) -> (text: String)
        ensures
            *self is InvalidInput ==> text@ == "No id provided"@,
            self@ matches ErrorV::MissingParameter(name)
                ==> text@ == "Missing '"@ + name + "' Parameter"@,
            self@ matches ErrorV::ParseError(f)
                ==> text@ == "Cannot parse parameter: "@ + (match f {
                    ParseFailure::EmptyInput => "cannot parse integer from empty string"@,
                    ParseFailure::InvalidDigit => "invalid digit found in string"@,
                    ParseFailure::Overflow => "number too large to fit in target type"@,
                }),
            *self is OutOfIndex ==> text@ == "Out of Index Paramter"@,
            *self is QuestionNotFound ==> text@ == "Question Not Found!"@,
    {
        match self {
            ErrorKind::InvalidInput => String::from_str("No id provided"),
            ErrorKind::MissingParameter(name) => {
                let mut text = String::from_str("Missing '");
                text.append(name.as_str());
                text.append("' Parameter");
                text
            },
            ErrorKind::ParseError(f) => {
                let mut text = String::from_str("Cannot parse parameter: ");
                let detail = f.message();
                text.append(detail.as_str());
                text
            },
            ErrorKind::OutOfIndex => String::from_str("Out of Index Paramter"),
            ErrorKind::QuestionNotFound => String::from_str("Question Not Found!"),
        }
    }
}

} // verus!
