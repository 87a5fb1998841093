//! Fresh identifiers, made by the `uuid` crate.

use vstd::prelude::*;

verus! {

/// The shape of a hyphenated UUID of version 4: 36 characters, hyphens
/// after the 8th, 12th, 16th and 20th digit, and the version digit `4`.
pub open spec fn is_uuid_v4_text(s: Seq<char>) -> bool {
    &&& s.len() == 36
    &&& s[8] == '-'
    &&& s[13] == '-'
    &&& s[18] == '-'
    &&& s[23] == '-'
    &&& s[14] == '4'
}

/// Draws a random UUID with `uuid::Uuid::new_v4` and writes it out in the
/// hyphenated lower-case form. The value is random; the contract states the
/// shape that every one has.
#[verifier::external_body]
pub(crate) fn random_uuid() -> (id: String)
    ensures
        is_uuid_v4_text(id@),
{
    uuid::Uuid::new_v4().to_string()
}

} // verus!
