//! The headers of a webhook delivery.
use vstd::prelude::*;
use crate::domain::services::webhook_service::{hmac_sha256_tag, sign, signature};
use crate::shared::utils::hex_lower;
use vstd::utf8::encode_utf8;
use crate::shared::text::{decimal_text, i64_to_decimal};

verus! {

pub open spec fn signature_header() -> Seq<char> {
    "X-Dodo-Signature"@
}

pub open spec fn timestamp_header() -> Seq<char> {
    "X-Dodo-Timestamp"@
}

pub open spec fn event_id_header() -> Seq<char> {
    "X-Dodo-Event-Id"@
}

/// The headers of the delivery of `body` for the outbox event `event_id`,
/// made at `timestamp` to an endpoint whose secret is `secret`: the
/// signature, the timestamp in decimal and the event id, in this order.
pub fn delivery_headers(secret: &str, timestamp: i64, body: &str, event_id: &str) -> (res: Vec<
    (&'static str, String),
>)
    ensures
        res@.len() == 3,
        res@[0].0@ == signature_header(),
        res@[0].1@ == signature(secret@, timestamp, body@),
        res@[1].0@ == timestamp_header(),
        res@[1].1@ == decimal_text(timestamp as int),
        res@[2].0@ == event_id_header(),
        res@[2].1@ == event_id@,
{
    let mut headers: Vec<(&'static str, String)> = Vec::new();
    headers.push(("X-Dodo-Signature", sign(secret, timestamp, body)));
    headers.push(("X-Dodo-Timestamp", i64_to_decimal(timestamp)));
    headers.push(("X-Dodo-Event-Id", String::from_str(event_id)));
    headers
}

/// A receiver checks a delivery by recomputing the signature from what it
/// received: the HMAC-SHA256, under the shared secret, of the value of the
/// timestamp header, a dot and the body, in lowercase hex.
pub proof fn lemma_signature_covers_timestamp_header_and_body(
    secret: Seq<char>,
    timestamp: i64,
    body: Seq<char>,
)
    ensures
        signature(secret, timestamp, body) == hex_lower(
            hmac_sha256_tag(encode_utf8(secret), encode_utf8(decimal_text(timestamp as int) + seq!['.'] + body)),
        ),
{
}

} // verus!
