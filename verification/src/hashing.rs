//! Digests and their hexadecimal text form.

use vstd::prelude::*;
use sha2::Digest;
use vstd::string::StringSliceAdditionalSpecFns;

verus! {

/// The SHA-256 digest of a byte sequence.
pub uninterp spec fn sha256_of(data: Seq<u8>) -> Seq<u8>;

/// The SHA-256 digest of `data`.
///
/// Trusted: calls `sha2::Sha256::digest`. Its result is named `sha256_of`; a
/// SHA-256 output is always 32 bytes long.
#[verifier::external_body]
pub(crate) fn sha256_digest(data: &[u8]) -> (r: Vec<u8>)
    ensures
        r@ == sha256_of(data@),
        r@.len() == 32,
{
    sha2::Sha256::digest(data).to_vec()
}

/// The lowercase hexadecimal digit for a value below 16.
pub open spec fn hex_digit(n: int) -> char {
    if n < 10 {
        (('0' as int) + n) as char
    } else {
        (('a' as int) + n - 10) as char
    }
}

/// Lowercase hexadecimal text of a byte sequence: two digits per byte, high nibble first.
pub open spec fn hex_lower(bytes: Seq<u8>) -> Seq<char> {
    Seq::new(
        2 * bytes.len(),
        |i: int|
            if i % 2 == 0 {
                hex_digit(bytes[i / 2] as int / 16)
            } else {
                hex_digit(bytes[i / 2] as int % 16)
            },
    )
}

/// Lowercase hexadecimal text of `data`.
///
/// Trusted: calls `hex::encode`, which writes each byte as two lowercase digits,
/// the high nibble first.
#[verifier::external_body]
pub(crate) fn hex_encode(data: &[u8]) -> (r: String)
    ensures
        r@ == hex_lower(data@),
{
    hex::encode(data)
}

/// The value of one hexadecimal digit, upper or lower case.
pub open spec fn hex_value(c: u8) -> Option<u8> {
    if 48 <= c && c <= 57 {
        Some((c - 48) as u8)
    } else if 97 <= c && c <= 102 {
        Some((c - 97 + 10) as u8)
    } else if 65 <= c && c <= 70 {
        Some((c - 65 + 10) as u8)
    } else {
        None
    }
}

/// Whether a byte text is an even number of hexadecimal digits.
pub open spec fn is_hex_text(s: Seq<u8>) -> bool {
    &&& s.len() % 2 == 0
    &&& forall|i: int| 0 <= i < s.len() ==> (#[trigger] hex_value(s[i])) is Some
}

/// The bytes that a hexadecimal text stands for, two digits per byte.
pub open spec fn hex_bytes_of(s: Seq<u8>) -> Seq<u8> {
    Seq::new(
        s.len() / 2,
        |i: int| (hex_value(s[2 * i])->0 * 16 + hex_value(s[2 * i + 1])->0) as u8,
    )
}

/// A hex digit reads back as its value.
pub proof fn lemma_hex_digit_value(n: int)
    requires
        0 <= n < 16,
    ensures
        hex_value(hex_digit(n) as u8) == Some(n as u8),
{
}

/// Different byte sequences have different hex texts.
pub proof fn lemma_hex_lower_injective(a: Seq<u8>, b: Seq<u8>)
    requires
        hex_lower(a) == hex_lower(b),
    ensures
        a == b,
{
    assert(hex_lower(a).len() == 2 * a.len());
    assert(a.len() == b.len());
    assert forall|i: int| 0 <= i < a.len() implies a[i] == b[i] by {
        let x = a[i] as int;
        let y = b[i] as int;
        assert((2 * i) % 2 == 0 && (2 * i) / 2 == i);
        assert((2 * i + 1) % 2 == 1 && (2 * i + 1) / 2 == i);
        assert(hex_lower(a)[2 * i] == hex_digit(x / 16));
        assert(hex_lower(b)[2 * i] == hex_digit(y / 16));
        assert(hex_lower(a)[2 * i + 1] == hex_digit(x % 16));
        assert(hex_lower(b)[2 * i + 1] == hex_digit(y % 16));
        assert(0 <= x / 16 < 16 && 0 <= y / 16 < 16) by (nonlinear_arith)
            requires
                0 <= x < 256,
                0 <= y < 256,
        ;
        lemma_hex_digit_value(x / 16);
        lemma_hex_digit_value(y / 16);
        lemma_hex_digit_value(x % 16);
        lemma_hex_digit_value(y % 16);
        assert((x / 16) as u8 == (y / 16) as u8);
        assert((x % 16) as u8 == (y % 16) as u8);
        assert(x / 16 == y / 16);
        assert(x % 16 == y % 16);
        assert(x == (x / 16) * 16 + x % 16 && y == (y / 16) * 16 + y % 16) by (nonlinear_arith);
    }
    assert(a =~= b);
}

#[verifier::external_type_specification]
#[verifier::external_body]
pub struct ExFromHexError(hex::FromHexError);

/// The bytes written in the hexadecimal text `s`.
///
/// Trusted: calls `hex::decode`, which reads the UTF-8 bytes of the text two at
/// a time, accepts upper and lower case digits, and fails on an odd length or
/// on any other byte.
#[verifier::external_body]
pub(crate) fn hex_decode(s: &str) -> (r: Result<Vec<u8>, hex::FromHexError>)
    ensures
        r is Ok <==> is_hex_text(s.spec_bytes()),
        r matches Ok(v) ==> v@ == hex_bytes_of(s.spec_bytes()),
{
    hex::decode(s)
}

} // verus!
