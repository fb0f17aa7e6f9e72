//! SHA-256 and lower-case hexadecimal text, as program identities use them.

use sha2::{Digest, Sha256};
use vstd::prelude::*;

verus! {

/// The SHA-256 digest of `data`, as the `sha2` crate computes it.
pub uninterp spec fn sha256_digest(data: Seq<u8>) -> Seq<u8>;

/// Number of bytes in a SHA-256 digest.
pub const SHA256_LEN: usize = 32;

/// The sixteen hexadecimal digits, lower case, in order of value.
pub open spec fn hex_alphabet() -> Seq<char> {
    seq!['0', '1', '2', '3', '4', '5', '6', '7', '8', '9', 'a', 'b', 'c', 'd', 'e', 'f']
}

/// The character at position `i` of the hexadecimal text of `bytes`: the high
/// nibble of byte `i / 2` at even positions, its low nibble at odd ones.
pub open spec fn hex_char_at(bytes: Seq<u8>, i: int) -> char {
    if i % 2 == 0 {
        hex_alphabet()[bytes[i / 2] as int / 16]
    } else {
        hex_alphabet()[bytes[i / 2] as int % 16]
    }
}

/// Lower-case hexadecimal text of `bytes`: two digits per byte, high nibble
/// first.
pub open spec fn hex_lower(bytes: Seq<u8>) -> Seq<char> {
    Seq::new(2 * bytes.len(), |i: int| hex_char_at(bytes, i))
}

/// Trusted: `sha2::Sha256::digest` returns the SHA-256 digest of `data`,
/// which is 32 bytes long. The digest itself is not modelled; it is named
/// [`sha256_digest`].
#[verifier::external_body]
pub(crate) fn sha256(data: &[u8]) -> (out: Vec<u8>)
    ensures
        out@ == sha256_digest(data@),
        out@.len() == SHA256_LEN,
{
    Sha256::digest(data).to_vec()
}

/// Trusted: `hex::encode` writes each byte as two lower-case hexadecimal
/// digits, high nibble first.
#[verifier::external_body]
pub(crate) fn hex_encode(data: &[u8]) -> (text: String)
    ensures
        text@ == hex_lower(data@),
{
    hex::encode(data)
}

/// Distinct positions of the alphabet hold distinct digits.
proof fn lemma_hex_alphabet_injective(a: int, b: int)
    requires
        0 <= a < 16,
        0 <= b < 16,
        hex_alphabet()[a] == hex_alphabet()[b],
    ensures
        a == b,
{
}

/// Hexadecimal text is twice as long as the bytes, and holds nothing but
/// digits of the alphabet.
pub proof fn lemma_hex_lower_shape(bytes: Seq<u8>)
    ensures
        hex_lower(bytes).len() == 2 * bytes.len(),
        forall|i: int|
            0 <= i < hex_lower(bytes).len() ==> hex_alphabet().contains(
                #[trigger] hex_lower(bytes)[i],
            ),
{
    assert forall|i: int| 0 <= i < hex_lower(bytes).len() implies hex_alphabet().contains(
        #[trigger] hex_lower(bytes)[i],
    ) by {
        let b = bytes[i / 2] as int;
        let n = if i % 2 == 0 {
            b / 16
        } else {
            b % 16
        };
        assert(0 <= n < 16);
        assert(hex_lower(bytes)[i] == hex_alphabet()[n]);
    }
}

/// Hexadecimal text determines the bytes it was made from.
pub proof fn lemma_hex_lower_injective(x: Seq<u8>, y: Seq<u8>)
    requires
        hex_lower(x) == hex_lower(y),
    ensures
        x == y,
{
    assert(hex_lower(x).len() == 2 * x.len());
    assert(hex_lower(y).len() == 2 * y.len());
    assert(x.len() == y.len());
    assert forall|k: int| 0 <= k < x.len() implies x[k] == y[k] by {
        let hi = hex_lower(x)[2 * k];
        let lo = hex_lower(x)[2 * k + 1];
        assert(hi == hex_char_at(x, 2 * k));
        assert(lo == hex_char_at(x, 2 * k + 1));
        assert(hex_lower(y)[2 * k] == hex_char_at(y, 2 * k));
        assert(hex_lower(y)[2 * k + 1] == hex_char_at(y, 2 * k + 1));
        lemma_hex_alphabet_injective(x[k] as int / 16, y[k] as int / 16);
        lemma_hex_alphabet_injective(x[k] as int % 16, y[k] as int % 16);
    }
    assert(x =~= y);
}

} // verus!
