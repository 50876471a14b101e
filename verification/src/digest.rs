//! The digest of a byte string and its hexadecimal form.
//!
//! Both are computed by outside crates. What is stated of them here is
//! believed, not proved.

use vstd::prelude::*;

verus! {

/// The BLAKE3 hash of `input`, as `blake3::hash` computes it.
pub uninterp spec fn blake3_digest(input: Seq<u8>) -> Seq<u8>;

/// The sixteen lowercase hexadecimal digits, by value.
pub open spec fn hex_digits() -> Seq<char> {
    seq!['0', '1', '2', '3', '4', '5', '6', '7', '8', '9', 'a', 'b', 'c', 'd', 'e', 'f']
}

/// Two lowercase hexadecimal digits for each byte, the high half first.
pub open spec fn hex_lower(bytes: Seq<u8>) -> Seq<char> {
    Seq::new(
        2 * bytes.len(),
        |i: int|
            if i % 2 == 0 {
                hex_digits()[bytes[i / 2] as int / 16]
            } else {
                hex_digits()[bytes[i / 2] as int % 16]
            },
    )
}

/// No hexadecimal form holds the character `c` unless `c` is a hexadecimal
/// digit.
pub proof fn lemma_hex_lower_digits(bytes: Seq<u8>)
    ensures
        hex_lower(bytes).len() == 2 * bytes.len(),
        forall|i: int|
            0 <= i < hex_lower(bytes).len() ==> hex_digits().contains(#[trigger] hex_lower(bytes)[i]),
{
    assert forall|i: int| 0 <= i < hex_lower(bytes).len() implies hex_digits().contains(
        #[trigger] hex_lower(bytes)[i],
    ) by {
        let byte = bytes[i / 2] as int;
        assert(0 <= byte / 16 < 16 && 0 <= byte % 16 < 16);
        if i % 2 == 0 {
            assert(hex_lower(bytes)[i] == hex_digits()[byte / 16]);
        } else {
            assert(hex_lower(bytes)[i] == hex_digits()[byte % 16]);
        }
    }
}

/// Calls `blake3::hash` and copies the 32 bytes of the hash out.
///
/// Believed: the result is the BLAKE3 hash of `input`, and it is 32 bytes
/// long, the length of the array that the crate returns.
#[verifier::external_body]
pub(crate) fn blake3_hash(input: &[u8]) -> (digest: Vec<u8>)
    ensures
        digest@ == blake3_digest(input@),
        digest@.len() == 32,
{
    blake3::hash(input).as_bytes().to_vec()
}

/// Calls `hex::encode`.
///
/// Believed: the result holds, for each byte in order, the digit of its high
/// four bits and then the digit of its low four bits, out of
/// `0123456789abcdef`.
#[verifier::external_body]
pub(crate) fn hex_encode(bytes: &[u8]) -> (text: String)
    ensures
        text@ == hex_lower(bytes@),
{
    hex::encode(bytes)
}

} // verus!
