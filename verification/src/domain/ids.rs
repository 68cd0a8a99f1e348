//! Identifiers of entities: UUIDs (version 7, time-ordered), held as their
//! 128-bit big-endian value.

use vstd::prelude::*;
use crate::domain::value_objects::hex_lower;

verus! {

/// A UUID, as the 128-bit big-endian value that `uuid::Uuid::as_u128` gives.
pub type Uuid = u128;

/// The version field of a UUID (bits 76 to 79).
pub open spec fn uuid_version(id: u128) -> u128 {
    (id >> 76u128) & 0xfu128
}

/// The variant field of a UUID (bits 62 and 63); `2` is the RFC 9562 variant.
pub open spec fn uuid_variant(id: u128) -> u128 {
    (id >> 62u128) & 0x3u128
}

/// `uuid::Uuid::new_v7(Timestamp::now(NoContext))`, as its 128-bit value.
/// The value depends on the clock and on random bits: the contract states
/// only the version (7) and the variant (RFC 9562) that the crate sets.
#[verifier::external_body]
fn uuid_new_v7() -> (id: u128)
    ensures
        uuid_version(id) == 7,
        uuid_variant(id) == 2,
{
    uuid::Uuid::new_v7(uuid::Timestamp::now(uuid::NoContext)).as_u128()
}

/// A fresh, time-ordered identifier (UUID version 7).
pub fn new_id() -> (id: Uuid)
    ensures
        uuid_version(id) == 7,
        uuid_variant(id) == 2,
{
    uuid_new_v7()
}

/// What `uuid::Uuid::parse_str` gives for a text, as a 128-bit value, or
/// `None` where it reports an error.
pub uninterp spec fn uuid_parsed(text: Seq<char>) -> Option<u128>;

/// `uuid::Uuid::parse_str`, with the UUID as its 128-bit value and the
/// parse error as `None`. The result is named, not stated: the accepted
/// formats (simple, hyphenated, URN, braced) are the crate's.
#[verifier::external_body]
fn uuid_parse_str(text: &str) -> (r: Option<u128>)
    ensures
        r == uuid_parsed(text@),
{
    match uuid::Uuid::parse_str(text) {
        Ok(u) => Some(u.as_u128()),
        Err(_) => None,
    }
}

/// Parses a UUID from its text; `None` where the text is no UUID.
pub fn parse_id(text: &str) -> (r: Option<Uuid>)
    ensures
        r == uuid_parsed(text@),
{
    uuid_parse_str(text)
}

/// The sixteen bytes of a UUID, most significant first (`Uuid::from_u128`).
pub open spec fn uuid_bytes(id: u128) -> Seq<u8> {
    Seq::new(16, |i: int| ((id >> ((8 * (15 - i)) as u128)) & 0xffu128) as u8)
}

/// The text that `uuid::Uuid::to_string` writes for a UUID: its hyphenated
/// lowercase form, the 32 hexadecimal digits of its bytes in groups of 8, 4,
/// 4, 4 and 12.
pub open spec fn uuid_text(id: u128) -> Seq<char> {
    let h = hex_lower(uuid_bytes(id));
    h.subrange(0, 8) + seq!['-'] + h.subrange(8, 12) + seq!['-'] + h.subrange(12, 16) + seq!['-']
        + h.subrange(16, 20) + seq!['-'] + h.subrange(20, 32)
}

/// `uuid::Uuid::from_u128(id).to_string()`: the hyphenated lowercase text of
/// a UUID (the crate's `format_hyphenated`), which `Uuid::parse_str` reads
/// back to the same UUID (the crate parses every format that it writes).
#[verifier::external_body]
fn uuid_to_string(id: u128) -> (s: String)
    ensures
        s@ == uuid_text(id),
        uuid_parsed(s@) == Some(id),
{
    uuid::Uuid::from_u128(id).to_string()
}

/// The text of an id, as the database stores it.
pub fn id_text(id: Uuid) -> (s: String)
    ensures
        s@ == uuid_text(id),
        uuid_parsed(s@) == Some(id),
{
    uuid_to_string(id)
}

} // verus!
