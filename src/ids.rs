//! UUIDs: generation, text form, and the two wire representations.
use vstd::prelude::*;

use crate::types::Uuid;

verus! {

/// The text form that `uuid` gives a value.
pub uninterp spec fn uuid_text(v: u128) -> Seq<char>;

/// The value that `uuid` reads from a text, if it reads one.
pub uninterp spec fn uuid_parsed(s: Seq<char>) -> Option<u128>;

/// A version-4 value of the RFC 4122 variant: version nibble 4, variant bits `10`.
pub open spec fn is_v4(v: u128) -> bool {
    (v >> 76u128) & 0xfu128 == 4 && (v >> 62u128) & 3u128 == 2
}

/// The value whose high 64 bits are `most` and low 64 bits are `least`,
/// each read as unsigned.
pub open spec fn from_halves_spec(most: i64, least: i64) -> u128 {
    ((most as u64) as int * 0x1_0000_0000_0000_0000 + (least as u64) as int) as u128
}

/// Relies on `uuid::Uuid::new_v4`: random bits, then the version nibble set
/// to 4 and the variant bits to `10`.
#[verifier::external_body]
pub(crate) fn new_v4() -> (r: Uuid)
    ensures
        is_v4(r.value),
{
    Uuid { value: uuid::Uuid::new_v4().as_u128() }
}

/// Relies on `uuid::Uuid`'s `Display`: the 36-character hyphenated
/// lower-case form, which `uuid::Uuid::parse_str` reads back.
#[verifier::external_body]
pub(crate) fn uuid_to_string(id: Uuid) -> (r: String)
    ensures
        r@ == uuid_text(id.value),
        r@.len() == 36,
        uuid_parsed(r@) == Some(id.value),
{
    uuid::Uuid::from_u128(id.value).to_string()
}

/// Relies on `uuid::Uuid::parse_str`: reads the hyphenated, simple, braced
/// and URN forms, and fails on anything else.
#[verifier::external_body]
pub(crate) fn parse_uuid(s: &str) -> (r: Option<Uuid>)
    ensures
        r is None <==> uuid_parsed(s@) is None,
        r matches Some(u) ==> uuid_parsed(s@) == Some(u.value),
{
    match uuid::Uuid::parse_str(s) {
        Ok(u) => Some(Uuid { value: u.as_u128() }),
        Err(_) => None,
    }
}

/// The UUID carried as two big-endian 64-bit halves.
pub fn uuid_from_halves(most: i64, least: i64) -> (r: Uuid)
    ensures
        r.value == from_halves_spec(most, least),
{
    let hi: u128 = most as u64 as u128;
    let lo: u128 = least as u64 as u128;
    assert(hi * 0x1_0000_0000_0000_0000u128 + lo <= u128::MAX) by (nonlinear_arith)
        requires
            hi <= u64::MAX,
            lo <= u64::MAX,
    ;
    Uuid { value: hi * 0x1_0000_0000_0000_0000u128 + lo }
}

} // verus!
