//! User, channel and message ids: 128-bit UUIDs, held as `u128` (the
//! big-endian value of the 16 UUID bytes, which orders ids as `Uuid` does),
//! and their text form.
use vstd::prelude::*;

use crate::codec;

verus! {

/// The 16 bytes of an id, most significant first.
pub open spec fn id_bytes(id: u128) -> Seq<u8> {
    Seq::new(
        16,
        |i: int| ((id as nat) / vstd::arithmetic::power2::pow2((8 * (15 - i)) as nat) % 256) as u8,
    )
}

/// The hyphenated lowercase text of an id: 32 hexadecimal digits in groups
/// of 8, 4, 4, 4 and 12.
pub open spec fn id_text(id: u128) -> Seq<char> {
    let h = codec::hex_lower(id_bytes(id));
    h.subrange(0, 8) + seq!['-'] + h.subrange(8, 12) + seq!['-'] + h.subrange(12, 16) + seq!['-']
        + h.subrange(16, 20) + seq!['-'] + h.subrange(20, 32)
}

/// The id that `uuid::Uuid::parse_str` reads from a text, if it reads one.
pub uninterp spec fn parsed_id(text: Seq<char>) -> Option<u128>;

/// Whether a parse result gives back every id whose hyphenated text the
/// input is.
pub open spec fn reads_own_text(res: Result<u128, uuid::Error>, text: Seq<char>) -> bool {
    forall|id: u128| text == #[trigger] id_text(id) ==> res == Ok::<u128, uuid::Error>(id)
}

#[verifier::external_type_specification]
#[verifier::external_body]
pub struct ExUuidError(uuid::Error);

/// Writes an id with `uuid`: `Uuid::from_u128` (big-endian) and its
/// `Display`, the hyphenated lowercase form.
#[verifier::external_body]
pub(crate) fn id_to_text(id: u128) -> (res: String)
    ensures
        res@ == id_text(id),
{
    uuid::Uuid::from_u128(id).to_string()
}

/// Reads an id with `uuid::Uuid::parse_str` and `as_u128`. The hyphenated
/// form that `Display` writes is one of the forms it accepts; empty text is
/// none of them.
#[verifier::external_body]
pub(crate) fn id_from_text(text: &str) -> (res: Result<u128, uuid::Error>)
    ensures
        res is Ok <==> parsed_id(text@) is Some,
        res matches Ok(id) ==> parsed_id(text@) == Some(id),
        text@.len() == 0 ==> res is Err,
        reads_own_text(res, text@),
{
    uuid::Uuid::parse_str(text).map(|u| u.as_u128())
}

/// Whether an id is a random UUID: version 4 (bits 76 to 79 hold 4) and
/// of the RFC 4122 variant (bits 62 and 63 hold `10`).
pub open spec fn is_random_id(id: u128) -> bool {
    (id >> 76u128) & 0xfu128 == 4 && (id >> 62u128) & 0x3u128 == 2
}

/// Draws a random id with `uuid::Uuid::new_v4`, which sets the version bits
/// to 4 and the variant bits to RFC 4122 over random bits.
#[verifier::external_body]
pub(crate) fn random_id() -> (res: u128)
    ensures
        is_random_id(res),
{
    uuid::Uuid::new_v4().as_u128()
}

/// A fresh random id for a new user, channel or message: a version-4 UUID.
pub fn new_id() -> (res: u128)
    ensures
        is_random_id(res),
{
    random_id()
}

/// The hyphenated text of an id never starts or ends with white space.
pub proof fn lemma_id_text_ends(id: u128)
    ensures
        !crate::text::is_white_space(id_text(id)[0]),
        !crate::text::is_white_space(id_text(id).last()),
        id_text(id).len() == 36,
{
    let b = id_bytes(id);
    let h = codec::hex_lower(b);
    let t = id_text(id);
    assert(t[0] == h[0]);
    assert(t.last() == h[31]);
    let v0 = b[0] as int;
    let v15 = b[15] as int;
    assert(0 <= v0 / 16 < 16);
    assert(0 <= v15 % 16 < 16);
}

} // verus!
