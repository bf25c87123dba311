//! Generation of answer identifier tokens.

use vstd::prelude::*;

verus! {

/// Relies on `uuid::Uuid::new_v4` and its `Display` rendering: a random
/// version-4 UUID in hyphenated form is always 36 characters. Nothing more
/// is assumed of the token; in particular two calls may return anything.
#[verifier::external_body]
pub(crate) fn random_token() -> (token: String)
    ensures
        token@.len() == 36,
{
    uuid::Uuid::new_v4().to_string()
}

} // verus!
