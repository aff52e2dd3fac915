//! Fingerprints of secrets.
use crate::text;
use sha2::Digest;
use vstd::prelude::*;

verus! {

/// The SHA-256 digest of the UTF-8 encoding of `text`.
pub uninterp spec fn sha256_digest(text: Seq<char>) -> Seq<u8>;

/// Computes the digest of `value` with `sha2::Sha256`: `new`, `update` with the bytes of the text
/// and `finalize`. A digest has 32 bytes and depends on the text alone.
#[verifier::external_body]
fn sha256(value: &str) -> (r: Vec<u8>)
    ensures
        r@ == sha256_digest(value@),
        r@.len() == 32,
{
    let mut hasher = sha2::Sha256::new();
    hasher.update(value.as_bytes());
    hasher.finalize().to_vec()
}

/// The hexadecimal digit for `n`, in small letters.
pub open spec fn hex_digit(n: nat) -> char {
    if n < 10 {
        (48 + n) as char
    } else {
        (87 + n) as char
    }
}

/// `bytes` in hexadecimal notation, two digits for each.
pub open spec fn hex_text(bytes: Seq<u8>) -> Seq<char> {
    Seq::new(
        2 * bytes.len(),
        |i: int|
            if i % 2 == 0 {
                hex_digit((bytes[i / 2] / 16) as nat)
            } else {
                hex_digit((bytes[i / 2] % 16) as nat)
            },
    )
}

/// Writes `bytes` down with `hex::encode`: two digits for each byte, the higher one first, with
/// small letters.
#[verifier::external_body]
fn hex_encode(bytes: &Vec<u8>) -> (r: String)
    requires
        2 * bytes@.len() <= isize::MAX,
    ensures
        r@ == hex_text(bytes@),
{
    hex::encode(bytes)
}

/// The fingerprint of `value`.
pub open spec fn fingerprint(value: Seq<char>) -> Seq<char> {
    hex_text(sha256_digest(value))
}

/// A hexadecimal digit.
pub open spec fn is_hex_digit(c: char) -> bool {
    '0' <= c <= '9' || 'a' <= c <= 'f'
}

/// `s` has the shape of a fingerprint: 64 hexadecimal digits.
pub open spec fn has_fingerprint_shape(s: Seq<char>) -> bool {
    s.len() == 64 && forall|i: int| 0 <= i < s.len() ==> is_hex_digit(#[trigger] s[i])
}

/// Computes the fingerprint of `value`: its SHA-256 digest in hexadecimal notation.
pub fn sha256_hex(value: &str) -> (r: String)
    ensures
        r@ == fingerprint(value@),
        has_fingerprint_shape(r@),
{
    let digest = sha256(value);
    hex_encode(&digest)
}

/// The fingerprint of an optional text.
pub open spec fn opt_fingerprint(value: Option<Seq<char>>) -> Option<Seq<char>> {
    match value {
        Some(value) => Some(fingerprint(value)),
        None => None,
    }
}

/// Computes the fingerprint of an optional text.
pub fn opt_sha256_hex(value: &Option<String>) -> (r: Option<String>)
    ensures
        text::opt_text(r) == opt_fingerprint(text::opt_text(*value)),
{
    match value {
        Some(value) => Some(sha256_hex(value.as_str())),
        None => None,
    }
}

/// Each byte is written with two digits, the higher one first, and the digits are the ten figures
/// and six small letters.
pub proof fn bytes_are_written_with_two_digits(bytes: Seq<u8>, i: int)
    requires
        0 <= i < bytes.len(),
    ensures
        hex_text(bytes).len() == 2 * bytes.len(),
        hex_text(bytes)[2 * i] == "0123456789abcdef"@[(bytes[i] / 16) as int],
        hex_text(bytes)[2 * i + 1] == "0123456789abcdef"@[(bytes[i] % 16) as int],
{
    reveal_strlit("0123456789abcdef");
    assert((2 * i) / 2 == i && (2 * i) % 2 == 0);
    assert((2 * i + 1) / 2 == i && (2 * i + 1) % 2 == 1);
    digits_are_named((bytes[i] / 16) as nat);
    digits_are_named((bytes[i] % 16) as nat);
}

/// The sixteen digits.
proof fn digits_are_named(n: nat)
    requires
        n < 16,
    ensures
        hex_digit(n) == "0123456789abcdef"@[n as int],
{
    reveal_strlit("0123456789abcdef");
}

/// A fingerprint is the digest of the text, written down, and a missing text has none.
pub proof fn fingerprint_is_the_digest(value: Seq<char>)
    ensures
        fingerprint(value) == hex_text(sha256_digest(value)),
        opt_fingerprint(Some(value)) == Some(hex_text(sha256_digest(value))),
        opt_fingerprint(None) is None,
{
}

/// What has the shape of a fingerprint has 64 characters, and each is one of the sixteen digits.
pub proof fn fingerprints_are_digits(s: Seq<char>, i: int)
    ensures
        has_fingerprint_shape(s) ==> s.len() == 64,
        has_fingerprint_shape(s) && 0 <= i < 64 ==> ('0' <= s[i] && s[i] <= '9') || ('a' <= s[i]
            && s[i] <= 'f'),
{
}

} // verus!
