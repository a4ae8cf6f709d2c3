//! Text encodings of byte strings: lowercase hexadecimal (through the `hex`
//! crate) and the JSON array of numbers that `serde_json` writes for bytes.
use vstd::prelude::*;

verus! {

// ---------------------------------------------------------------------------
// Hexadecimal
// ---------------------------------------------------------------------------

/// The lowercase hexadecimal digit for a value below 16.
pub open spec fn hex_digit(n: int) -> char {
    if n < 10 {
        (n + 48) as char
    } else {
        (n + 87) as char
    }
}

/// Lowercase hexadecimal text of a byte string: two digits per byte, the
/// high nibble first.
pub open spec fn hex_lower(b: Seq<u8>) -> Seq<char> {
    Seq::new(
        2 * b.len(),
        |i: int|
            if i % 2 == 0 {
                hex_digit(b[i / 2] as int / 16)
            } else {
                hex_digit(b[i / 2] as int % 16)
            },
    )
}

/// Whether a byte is an ASCII hexadecimal digit, in either case.
pub open spec fn is_hex_byte(c: u8) -> bool {
    (48 <= c <= 57) || (97 <= c <= 102) || (65 <= c <= 70)
}

/// The value of an ASCII hexadecimal digit.
pub open spec fn hex_value(c: u8) -> int {
    if 48 <= c <= 57 {
        c - 48
    } else if 97 <= c <= 102 {
        c - 87
    } else {
        c - 55
    }
}

/// Whether a byte string is hexadecimal text that decodes: even length, all
/// digits.
pub open spec fn is_hex_text(t: Seq<u8>) -> bool {
    &&& t.len() % 2 == 0
    &&& forall|i: int| 0 <= i < t.len() ==> is_hex_byte(#[trigger] t[i])
}

/// The bytes that hexadecimal text stands for.
pub open spec fn hex_decode(t: Seq<u8>) -> Seq<u8> {
    Seq::new(t.len() / 2, |i: int| (hex_value(t[2 * i]) * 16 + hex_value(t[2 * i + 1])) as u8)
}

#[verifier::external_type_specification]
#[verifier::external_body]
pub struct ExFromHexError(hex::FromHexError);

/// Calls `hex::encode`, which writes each byte as two lowercase hexadecimal
/// digits, high nibble first.
#[verifier::external_body]
pub(crate) fn hex_encode(data: &[u8]) -> (res: String)
    ensures
        res@ == hex_lower(data@),
{
    hex::encode(data)
}

/// Calls `hex::decode`, which accepts text of even length made of digits of
/// either case and returns the bytes it stands for; on any other input it
/// returns an error.
#[verifier::external_body]
pub(crate) fn hex_decode_bytes(data: &[u8]) -> (res: Result<Vec<u8>, hex::FromHexError>)
    ensures
        res is Ok <==> is_hex_text(data@),
        res matches Ok(v) ==> v@ == hex_decode(data@),
{
    hex::decode(data)
}

/// Every digit that `hex_lower` writes is ASCII.
pub proof fn lemma_hex_lower_is_ascii(b: Seq<u8>)
    ensures
        vstd::utf8::is_ascii_chars(hex_lower(b)),
{
    assert forall|i: int| 0 <= i < hex_lower(b).len() implies '\0' <= #[trigger] hex_lower(
        b,
    )[i] <= '\u{7f}' by {
        let v = b[i / 2] as int;
        assert(0 <= v / 16 < 16);
        assert(0 <= v % 16 < 16);
    }
}

/// Decoding the UTF-8 bytes of the lowercase hexadecimal text of `b` gives
/// `b` back.
pub proof fn lemma_hex_round_trip(b: Seq<u8>)
    ensures
        is_hex_text(vstd::utf8::encode_utf8(hex_lower(b))),
        hex_decode(vstd::utf8::encode_utf8(hex_lower(b))) == b,
{
    let h = hex_lower(b);
    lemma_hex_lower_is_ascii(b);
    vstd::utf8::is_ascii_chars_encode_utf8(h);
    let t = vstd::utf8::encode_utf8(h);
    assert forall|i: int| 0 <= i < t.len() implies is_hex_byte(#[trigger] t[i]) && hex_value(t[i])
        == (if i % 2 == 0 {
        b[i / 2] as int / 16
    } else {
        b[i / 2] as int % 16
    }) by {
        assert(t[i] == h[i] as u8);
    }
    assert(t.len() % 2 == 0);
    assert forall|i: int| 0 <= i < b.len() implies #[trigger] hex_decode(t)[i] == b[i] by {
        assert(0 <= 2 * i < t.len());
        assert(0 <= 2 * i + 1 < t.len());
        assert((2 * i) % 2 == 0);
        assert((2 * i + 1) % 2 == 1);
        assert((2 * i) / 2 == i);
        assert((2 * i + 1) / 2 == i);
        let v = b[i] as int;
        assert(v / 16 * 16 + v % 16 == v);
    }
    assert(hex_decode(t) =~= b);
}

// ---------------------------------------------------------------------------
// Decimal numbers and JSON arrays of bytes
// ---------------------------------------------------------------------------

/// The decimal digit for a value below 10.
pub open spec fn decimal_digit(n: int) -> char {
    (n + 48) as char
}

/// The decimal text of a natural number, without leading zeros.
pub open spec fn decimal(n: nat) -> Seq<char>
    decreases n,
{
    if n < 10 {
        seq![decimal_digit(n as int)]
    } else {
        decimal(n / 10).push(decimal_digit((n % 10) as int))
    }
}

/// The decimal texts of the bytes, separated by commas.
pub open spec fn json_number_list(b: Seq<u8>) -> Seq<char>
    decreases b.len(),
{
    if b.len() == 0 {
        Seq::empty()
    } else if b.len() == 1 {
        decimal(b[0] as nat)
    } else {
        json_number_list(b.drop_last()) + seq![','] + decimal(b.last() as nat)
    }
}

/// The compact JSON text of a byte string: an array of numbers.
pub open spec fn json_byte_array(b: Seq<u8>) -> Seq<char> {
    seq!['['] + json_number_list(b) + seq![']']
}

/// Calls `serde_json::to_string` on a byte slice. `serde_json` writes a
/// sequence of `u8` compactly: `[`, the decimal numbers separated by `,`,
/// then `]`. Serialising bytes into a `String` cannot fail.
#[verifier::external_body]
pub(crate) fn json_encode_bytes(data: &[u8]) -> (res: String)
    ensures
        res@ == json_byte_array(data@),
{
    serde_json::to_string(data).unwrap()
}

} // verus!
