//! Signing of webhook deliveries: an HMAC-SHA256 tag of the text
//! `{timestamp}.{payload}` under the endpoint's secret, in lowercase hex.
use vstd::prelude::*;
use hmac::Mac;
use crate::shared::text::{decimal_text, i64_to_decimal};
use crate::shared::random::{is_alphanumeric, random_alphanumeric_string};
use crate::shared::utils::{hex_encode, hex_lower, lemma_hex_lower_shape};
use vstd::utf8::encode_utf8;

verus! {

/// The HMAC-SHA256 tag of a message under a key.
pub uninterp spec fn hmac_sha256_tag(key: Seq<u8>, message: Seq<u8>) -> Seq<u8>;

/// `Hmac::<Sha256>::new_from_slice(key)`, then `update(message)` and
/// `finalize()`: the HMAC-SHA256 tag of `message` under `key`, 32 bytes
/// long. Trusted: the tag is named, not specified; HMAC takes keys of any
/// length (the hmac crate's `new_from_slice` never fails for it), and the tag
/// has the output size of SHA-256.
#[verifier::external_body]
fn hmac_sha256(key: &[u8], message: &[u8]) -> (res: Vec<u8>)
    ensures
        res@ == hmac_sha256_tag(key@, message@),
        res@.len() == 32,
{
    let mut mac = hmac::Hmac::<sha2::Sha256>::new_from_slice(key).expect("hmac accepts any key length");
    mac.update(message);
    mac.finalize().into_bytes().to_vec()
}

/// The signed text of a delivery: the timestamp in decimal, a dot, then the
/// payload.
pub open spec fn signing_text(timestamp: i64, payload: Seq<char>) -> Seq<char> {
    decimal_text(timestamp as int) + seq!['.'] + payload
}

/// The signature of a delivery of `payload` made at `timestamp` to an
/// endpoint whose secret is `secret`.
pub open spec fn signature(secret: Seq<char>, timestamp: i64, payload: Seq<char>) -> Seq<char> {
    hex_lower(hmac_sha256_tag(encode_utf8(secret), encode_utf8(signing_text(timestamp, payload))))
}

/// Signs a webhook delivery: the lowercase hex HMAC-SHA256 tag, under the
/// UTF-8 bytes of `secret`, of the UTF-8 bytes of `{timestamp}.{payload}`;
/// always 64 characters.
pub fn sign(secret: &str, timestamp: i64, payload: &str) -> (res: String)
    ensures
        res@ == signature(secret@, timestamp, payload@),
        res@.len() == 64,
{
    let mut message = i64_to_decimal(timestamp);
    message.append(".");
    message.append(payload);
    proof {
        reveal_strlit(".");
        assert(message@ =~= signing_text(timestamp, payload@));
    }
    let tag = hmac_sha256(secret.as_bytes(), message.as_str().as_bytes());
    proof {
        lemma_hex_lower_shape(tag@);
    }
    hex_encode(tag.as_slice())
}

/// The secret of a newly registered webhook endpoint: 48 random ASCII
/// letters and digits.
pub fn new_webhook_secret() -> (res: String)
    ensures
        res@.len() == 48,
        forall|i: int| 0 <= i < 48 ==> is_alphanumeric(#[trigger] res@[i]),
{
    random_alphanumeric_string(48)
}

} // verus!
