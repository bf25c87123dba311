//! Resolving free-form parameters into a pagination range.
//!
//! A non-empty parameter set must carry both `start` and `end`, each a
//! non-negative index; bound checking against the collection is left to the
//! operation that applies the range.

use vstd::prelude::*;
use vstd::string::*;

use crate::errors::{ErrorKind, ErrorV};
use crate::params::{lookup, QueryParams};
use crate::parse::{parse_index, spec_parse_index};

verus! {

/// A validated half-open index range `[start, end)`.
#[derive(Debug, Clone, Copy, PartialEq, Eq, Structural)]
pub struct Pagination {
    pub start: usize,
    pub end: usize,
}

/// What resolving a parameter set yields: `start` is required before `end`,
/// then each value must parse as an index.
pub open spec fn spec_extract_pagination(params: Seq<(Seq<char>, Seq<char>)>) -> Result<
    (int, int),
    ErrorV,
> {
    match lookup(params, "start"@) {
        Option::None => Result::Err(ErrorV::MissingParameter("start"@)),
        Option::Some(start_text) => match lookup(params, "end"@) {
            Option::None => Result::Err(ErrorV::MissingParameter("end"@)),
            Option::Some(end_text) => match spec_parse_index(start_text) {
                Result::Err(failure) => Result::Err(ErrorV::ParseError(failure)),
                Result::Ok(start) => match spec_parse_index(end_text) {
                    Result::Err(failure) => Result::Err(ErrorV::ParseError(failure)),
                    Result::Ok(end) => Result::Ok((start, end)),
                },
            },
        },
    }
}

/// Resolves the parameter set into a [`Pagination`], failing exactly as
/// [`spec_extract_pagination`] says.
pub fn extract_pagination(params: &QueryParams) -> (extracted: Result<Pagination, ErrorKind>)
    ensures
        spec_extract_pagination(params@) matches Ok(range)
            ==> extracted matches Ok(p) && p.start == range.0 && p.end == range.1,
        spec_extract_pagination(params@) matches Err(e)
            ==> extracted matches Err(err) && err@ == e,
{
    let start_key = String::from_str("start");
    let end_key = String::from_str("end");
    let start_text = match params.get(&start_key) {
        Some(text) => text,
        None => {
            return Err(ErrorKind::MissingParameter(start_key));
        },
    };
    let end_text = match params.get(&end_key) {
        Some(text) => text,
        None => {
            return Err(ErrorKind::MissingParameter(end_key));
        },
    };
    let start = match parse_index(start_text.as_str()) {
        Ok(start) => start,
        Err(failure) => {
            return Err(ErrorKind::ParseError(failure));
        },
    };
    let end = match parse_index(end_text.as_str()) {
        Ok(end) => end,
        Err(failure) => {
            return Err(ErrorKind::ParseError(failure));
        },
    };
    Ok(Pagination { start, end })
}

} // verus!
