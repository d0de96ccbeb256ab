//! Idempotent payment requests: a payment answered under an
//! `Idempotency-Key` is stored with the hash of its request body; a later
//! request under the same key gets the stored answer back if its body hashes
//! the same, and is refused if not.
use vstd::prelude::*;
use crate::shared::errors::AppError;
use crate::shared::text::str_equals;

verus! {

pub open spec fn idempotency_key_required() -> AppError {
    AppError::BadRequest("idempotency_key_required", "Idempotency-Key header is required")
}

pub open spec fn idempotency_key_reused() -> AppError {
    AppError::BadRequest("idempotency_key_reused", "Idempotency key was reused with a different request")
}

/// The key of a payment request: its `Idempotency-Key` header, which is
/// required.
pub fn require_idempotency_key<'a>(header: Option<&'a str>) -> (res: Result<&'a str, AppError>)
    ensures
        match header {
            Some(key) => res == Ok::<&'a str, AppError>(key),
            None => res == Err::<&'a str, AppError>(idempotency_key_required()),
        },
{
    match header {
        Some(key) => Ok(key),
        None => Err(AppError::BadRequest("idempotency_key_required", "Idempotency-Key header is required")),
    }
}

/// A status code is sent as it is when it is a valid HTTP status code
/// (100 to 999), else as 200.
pub open spec fn spec_http_status_or_ok(status: u16) -> u16 {
    if 100 <= status <= 999 {
        status
    } else {
        200
    }
}

/// The status an answer is sent with.
pub fn http_status_or_ok(status: u16) -> (res: u16)
    ensures
        res == spec_http_status_or_ok(status),
        100 <= status <= 999 ==> res == status,
        !(100 <= status <= 999) ==> res == 200,
{
    if 100 <= status && status <= 999 {
        status
    } else {
        200
    }
}

/// A stored answer: the hash of the request body, the status and the body.
#[derive(Debug)]
pub struct StoredResponse<B> {
    pub request_hash: String,
    pub status: i32,
    pub body: B,
}

/// The record stored for an answer.
pub fn record_response<B>(request_hash: String, status: u16, body: B) -> (res: StoredResponse<B>)
    ensures
        res.request_hash == request_hash,
        res.status == status as i32,
        res.body == body,
{
    StoredResponse { request_hash, status: status as i32, body }
}

/// What to do with a payment request whose key was looked up.
#[derive(Debug)]
pub enum IdempotencyDecision<B> {
    /// Send the stored answer again, with this status.
    Replay { status: u16, body: B },
    /// No answer is stored under the key: make the payment.
    Execute,
}

/// The status a stored answer is sent again with: its stored value read as a
/// 16-bit status code, if a valid one, else 200.
pub open spec fn replay_status(stored: i32) -> u16 {
    spec_http_status_or_ok(stored as u16)
}

/// The decision on a request whose body hashes to `request_hash`, given the
/// answer stored under its key, if any.
pub open spec fn decide_replay<B>(stored: Option<StoredResponse<B>>, request_hash: Seq<char>) -> Result<
    IdempotencyDecision<B>,
    AppError,
> {
    match stored {
        None => Ok(IdempotencyDecision::Execute),
        Some(r) => if r.request_hash@ == request_hash {
            Ok(IdempotencyDecision::Replay { status: replay_status(r.status), body: r.body })
        } else {
            Err(idempotency_key_reused())
        },
    }
}

/// Decides on a payment request whose body hashes to `request_hash`, given
/// the unexpired answer stored under its key, if any.
pub fn replay_or_execute<B>(stored: Option<StoredResponse<B>>, request_hash: &str) -> (res: Result<
    IdempotencyDecision<B>,
    AppError,
>)
    ensures
        res == decide_replay(stored, request_hash@),
{
    match stored {
        None => Ok(IdempotencyDecision::Execute),
        Some(r) => {
            if !str_equals(r.request_hash.as_str(), request_hash) {
                return Err(
                    AppError::BadRequest(
                        "idempotency_key_reused",
                        "Idempotency key was reused with a different request",
                    ),
                );
            }
            let status = http_status_or_ok(r.status as u16);
            Ok(IdempotencyDecision::Replay { status, body: r.body })
        },
    }
}

/// A request repeated under the same key with the same body gets back the
/// answer that was recorded for it, with the status it was first sent with;
/// a request under the same key with a different body is refused.
pub proof fn lemma_replay_returns_recorded_response<B>(
    request_hash: String,
    status: u16,
    body: B,
    other_hash: Seq<char>,
)
    ensures
        decide_replay(
            Some(StoredResponse { request_hash, status: status as i32, body }),
            request_hash@,
        ) == Ok::<IdempotencyDecision<B>, AppError>(
            IdempotencyDecision::Replay { status: spec_http_status_or_ok(status), body },
        ),
        other_hash != request_hash@ ==> decide_replay(
            Some(StoredResponse { request_hash, status: status as i32, body }),
            other_hash,
        ) == Err::<IdempotencyDecision<B>, AppError>(idempotency_key_reused()),
{
    assert((status as i32) as u16 == status);
}

/// A valid status code (100 to 999) is sent unchanged and any other as 200;
/// so a recorded answer with a valid status is replayed with exactly that
/// status and the recorded body.
pub proof fn lemma_valid_status_is_sent_unchanged<B>(
    status: u16,
    request_hash: String,
    body: B,
)
    ensures
        100 <= status <= 999 ==> spec_http_status_or_ok(status) == status,
        !(100 <= status <= 999) ==> spec_http_status_or_ok(status) == 200,
        100 <= status <= 999 ==> decide_replay(
            Some(StoredResponse { request_hash, status: status as i32, body }),
            request_hash@,
        ) == Ok::<IdempotencyDecision<B>, AppError>(IdempotencyDecision::Replay { status, body }),
{
    assert((status as i32) as u16 == status);
}

} // verus!
