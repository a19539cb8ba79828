//! Lowercase hexadecimal rendering of digests.

use vstd::prelude::*;

verus! {

/// The lowercase hexadecimal digit for a value below 16.
pub open spec fn hex_digit(n: u8) -> char {
    if n < 10 {
        (48 + n) as char
    } else {
        (87 + n) as char
    }
}

/// Lowercase hexadecimal encoding: two digits per byte, high nibble first.
pub open spec fn hex_lower(data: Seq<u8>) -> Seq<char>
    decreases data.len(),
{
    if data.len() == 0 {
        Seq::empty()
    } else {
        hex_lower(data.drop_last()) + seq![hex_digit(data.last() / 16), hex_digit(data.last() % 16)]
    }
}

/// Calls `hex::encode`. Claimed, as its source shows: each byte becomes two
/// lowercase hexadecimal digits, high nibble first, in the order of `data`.
#[verifier::external_body]
fn hex_encode(data: &[u8]) -> (r: String)
    ensures
        r@ == hex_lower(data@),
{
    hex::encode(data)
}

/// Lowercase hexadecimal rendering of a digest (64 characters).
pub fn digest_hex(digest: &[u8; 32]) -> (r: String)
    ensures
        r@ == hex_lower(digest@),
{
    hex_encode(digest.as_slice())
}

} // verus!
