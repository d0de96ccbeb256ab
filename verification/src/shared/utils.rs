//! Hashing of request bodies, and lowercase hexadecimal text of bytes.
use vstd::prelude::*;
use sha2::Digest;

verus! {

/// The SHA-256 digest of a byte sequence.
pub uninterp spec fn sha256_digest(data: Seq<u8>) -> Seq<u8>;

/// `sha2::Sha256::digest`: the SHA-256 digest of `data`, which is 32 bytes
/// long. Trusted: the digest itself is not specified here, only named, and
/// its length is the output size that the sha2 crate fixes for SHA-256.
#[verifier::external_body]
fn sha256(data: &[u8]) -> (res: Vec<u8>)
    ensures
        res@ == sha256_digest(data@),
        res@.len() == 32,
{
    sha2::Sha256::digest(data).to_vec()
}

/// The lowercase hexadecimal digit of a value below 16.
pub open spec fn hex_digit(v: int) -> char {
    if v < 10 {
        (48 + v) as char
    } else {
        (87 + v) as char
    }
}

/// Lowercase hexadecimal text of bytes: two digits per byte, high half first.
pub open spec fn hex_lower(bytes: Seq<u8>) -> Seq<char>
    decreases bytes.len(),
{
    if bytes.len() == 0 {
        Seq::empty()
    } else {
        seq![hex_digit(bytes[0] as int / 16), hex_digit(bytes[0] as int % 16)] + hex_lower(
            bytes.drop_first(),
        )
    }
}

/// `hex::encode`: the lowercase hexadecimal text of `bytes`. Trusted: the
/// hex crate maps each byte to the digits of its high and low halves from
/// the table "0123456789abcdef".
#[verifier::external_body]
pub(crate) fn hex_encode(bytes: &[u8]) -> (res: String)
    ensures
        res@ == hex_lower(bytes@),
{
    hex::encode(bytes)
}

/// Hexadecimal text is two characters per byte, each a digit or a
/// lowercase letter from `a` to `f`.
pub proof fn lemma_hex_lower_shape(bytes: Seq<u8>)
    ensures
        hex_lower(bytes).len() == 2 * bytes.len(),
        forall|i: int|
            0 <= i < hex_lower(bytes).len() ==> ('0' <= #[trigger] hex_lower(bytes)[i] <= '9'
                || 'a' <= hex_lower(bytes)[i] <= 'f'),
    decreases bytes.len(),
{
    if bytes.len() > 0 {
        lemma_hex_lower_shape(bytes.drop_first());
        let head = seq![hex_digit(bytes[0] as int / 16), hex_digit(bytes[0] as int % 16)];
        let tail = hex_lower(bytes.drop_first());
        assert(hex_lower(bytes) == head + tail);
        assert forall|i: int| 0 <= i < hex_lower(bytes).len() implies ('0' <= #[trigger] hex_lower(
            bytes,
        )[i] <= '9' || 'a' <= hex_lower(bytes)[i] <= 'f') by {
            if i >= 2 {
                assert(hex_lower(bytes)[i] == tail[i - 2]);
            }
        }
    }
}

/// The hash under which an idempotent request body is stored: the lowercase
/// hexadecimal SHA-256 digest of the body, 64 characters long.
pub fn request_hash(bytes: &[u8]) -> (res: String)
    ensures
        res@ == hex_lower(sha256_digest(bytes@)),
        res@.len() == 64,
{
    let digest = sha256(bytes);
    proof {
        lemma_hex_lower_shape(digest@);
    }
    hex_encode(digest.as_slice())
}

} // verus!
