//! Identifiers of records and sessions: 128-bit values, written and read in
//! the textual form of UUIDs.

use crate::text::hex_lower;
use vstd::prelude::*;

verus! {

/// The 16 bytes of `id`, the most significant first.
pub open spec fn id_bytes(id: u128) -> Seq<u8> {
    Seq::new(16, |i: int| ((id >> (((15 - i) * 8) as u128)) & 0xff) as u8)
}

/// The hyphenated lower-case text of `id`: 8, 4, 4, 4 and 12 hexadecimal digits.
pub open spec fn id_text(id: u128) -> Seq<char> {
    let h = hex_lower(id_bytes(id));
    h.subrange(0, 8) + seq!['-'] + h.subrange(8, 12) + seq!['-'] + h.subrange(12, 16) + seq!['-']
        + h.subrange(16, 20) + seq!['-'] + h.subrange(20, 32)
}

/// What `uuid::Uuid::parse_str` makes of `text`: the identifier, or the text of
/// the error it reports.
pub uninterp spec fn id_parse(text: Seq<char>) -> Result<u128, Seq<char>>;

/// Whether `text` reads as the identifier `id`.
pub open spec fn reads_as(text: Seq<char>, id: u128) -> bool {
    id_parse(text) is Ok && id_parse(text)->Ok_0 == id
}

/// A fresh random identifier, from `uuid::Uuid::new_v4`. Nothing is claimed of
/// its value.
#[verifier::external_body]
pub(crate) fn fresh_id() -> (id: u128) {
    uuid::Uuid::new_v4().as_u128()
}

/// Reads an identifier with `uuid::Uuid::parse_str`. The result is `id_parse`
/// of the text: the value of the identifier read, or the message of the
/// crate's error.
#[verifier::external_body]
pub(crate) fn parse_id(text: &str) -> (r: Result<u128, String>)
    ensures
        r matches Ok(id) ==> id_parse(text@) is Ok && id_parse(text@)->Ok_0 == id,
        r matches Err(e) ==> id_parse(text@) is Err && id_parse(text@)->Err_0 == e@,
{
    match uuid::Uuid::parse_str(text) {
        Ok(id) => Ok(id.as_u128()),
        Err(e) => Err(e.to_string()),
    }
}

/// Writes an identifier as `uuid::Uuid` displays it: hyphenated, in lower
/// case. `parse_str` reads every text that the crate writes, so the text
/// parses back to `id`.
#[verifier::external_body]
pub(crate) fn format_id(id: u128) -> (r: String)
    ensures
        r@ == id_text(id),
        id_parse(r@) is Ok && id_parse(r@)->Ok_0 == id,
{
    uuid::Uuid::from_u128(id).to_string()
}

/// The text of an identifier. It reads back as the identifier.
pub fn id_string(id: u128) -> (r: String)
    ensures
        r@ == id_text(id),
        reads_as(r@, id),
{
    format_id(id)
}

} // verus!
