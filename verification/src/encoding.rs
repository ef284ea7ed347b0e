//! Lowercase hexadecimal rendering of digests.

use vstd::prelude::*;

use crate::state::HashState;
use crate::state::digest_of;
use crate::state::fed_bytes;

verus! {

/// The sixteen lowercase hexadecimal digits, in value order.
pub open spec fn hex_digit(nibble: u8) -> char
    recommends
        nibble < 16,
{
    if nibble == 0 {
        '0'
    } else if nibble == 1 {
        '1'
    } else if nibble == 2 {
        '2'
    } else if nibble == 3 {
        '3'
    } else if nibble == 4 {
        '4'
    } else if nibble == 5 {
        '5'
    } else if nibble == 6 {
        '6'
    } else if nibble == 7 {
        '7'
    } else if nibble == 8 {
        '8'
    } else if nibble == 9 {
        '9'
    } else if nibble == 10 {
        'a'
    } else if nibble == 11 {
        'b'
    } else if nibble == 12 {
        'c'
    } else if nibble == 13 {
        'd'
    } else if nibble == 14 {
        'e'
    } else {
        'f'
    }
}

/// The bytes of an ASCII character sequence, one byte per character.
pub open spec fn ascii_bytes(s: Seq<char>) -> Seq<u8> {
    Seq::new(s.len(), |i: int| s[i] as u8)
}

/// The lowercase hex string of `data`: two digits per byte, high nibble
/// first.
pub open spec fn hex_lower_of(data: Seq<u8>) -> Seq<char> {
    Seq::new(
        data.len() * 2,
        |i: int|
            if i % 2 == 0 {
                hex_digit(data[i / 2] >> 4)
            } else {
                hex_digit(data[i / 2] & 0xf)
            },
    )
}

/// Every character of a hex string is an ASCII character, and its byte value
/// is the character's code.
pub proof fn lemma_hex_lower_is_ascii(data: Seq<u8>)
    ensures
        vstd::utf8::is_ascii_chars(hex_lower_of(data)),
{
    assert forall|i: int| 0 <= i < hex_lower_of(data).len() implies '\0'
        <= #[trigger] hex_lower_of(data)[i] <= '\u{7f}' by {
        let b = data[i / 2];
        assert((b >> 4) < 16 && (b & 0xf) < 16) by (bit_vector);
    }
}

/// Relies on `data_encoding::HEXLOWER.encode`: base-16 encoding with the
/// symbols `0123456789abcdef`, most significant nibble of each byte first.
#[verifier::external_body]
fn hex_encode(data: &[u8]) -> (r: String)
    ensures
        r@ == hex_lower_of(data@),
{
    data_encoding::HEXLOWER.encode(data)
}

/// Convert the accumulator's current digest to readable lowercase hex,
/// leaving the accumulator itself untouched.
pub(crate) fn get_lowerhex(hash: &HashState) -> (r: String)
    ensures
        r@ == hex_lower_of(digest_of(fed_bytes(*hash))),
        r@.len() == 64,
{
    let digest = hash.peek_digest();
    hex_encode(digest.as_slice())
}

} // verus!
