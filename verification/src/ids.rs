//! Identifiers: records are keyed by 128-bit identifiers drawn at creation
//! and carried in request paths as UUID text.

use vstd::prelude::*;

verus! {

/// The number a piece of identifier text denotes when it parses as a UUID,
/// and nothing when it does not. The outcome of `uuid::Uuid::parse_str` is a
/// function of the input characters alone, so it can be given this name.
pub uninterp spec fn uuid_num_of(s: Seq<char>) -> Option<u128>;

/// Relies on `uuid::Uuid::parse_str` (hexadecimal digits with optional
/// hyphens: the simple, hyphenated, URN and GUID forms) and `Uuid::as_u128`
/// (the big-endian 128-bit value of the identifier's bytes).
#[verifier::external_body]
pub(crate) fn parse_uuid_num(s: &str) -> (r: Option<u128>)
    ensures
        r == uuid_num_of(s@),
{
    match uuid::Uuid::parse_str(s) {
        Ok(u) => Some(u.as_u128()),
        Err(_) => None,
    }
}

/// Relies on `uuid::Uuid::new_v4` (a freshly drawn random identifier) and
/// `Uuid::as_u128`; the value is random, so nothing is promised of it.
/// `new_v4` itself panics when the operating system's random source fails;
/// that machine state takes no input this wrapper could exclude.
#[verifier::external_body]
pub(crate) fn fresh_id() -> u128 {
    uuid::Uuid::new_v4().as_u128()
}

} // verus!
