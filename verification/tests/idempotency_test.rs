use dodo_payments::application::idempotency::{
    http_status_or_ok, record_response, replay_or_execute, require_idempotency_key, IdempotencyDecision,
    StoredResponse,
};
use dodo_payments::shared::errors::AppError;
use dodo_payments::shared::utils::request_hash;

#[test]
fn same_key_and_body_returns_cached_response() {
    let body = br#"{"payment_token":"tok_success"}"#;
    let hash = request_hash(body);
    let stored = record_response(hash.clone(), 402, "{\"status\":\"failed\"}".to_string());
    assert_eq!(stored.status, 402);
    match replay_or_execute(Some(stored), &request_hash(body)) {
        Ok(IdempotencyDecision::Replay { status, body }) => {
            assert_eq!(status, 402);
            assert_eq!(body, "{\"status\":\"failed\"}");
        }
        _ => panic!("the stored answer is replayed"),
    }
}

#[test]
fn same_key_with_another_body_is_refused() {
    let stored = record_response(request_hash(b"a"), 200, ());
    match replay_or_execute(Some(stored), &request_hash(b"b")) {
        Err(AppError::BadRequest(code, message)) => {
            assert_eq!(code, "idempotency_key_reused");
            assert_eq!(message, "Idempotency key was reused with a different request");
        }
        _ => panic!("a reused key is refused"),
    }
}

#[test]
fn unknown_key_executes_the_payment() {
    assert!(matches!(replay_or_execute::<()>(None, "h"), Ok(IdempotencyDecision::Execute)));
}

#[test]
fn stored_status_is_read_as_a_16_bit_status_code() {
    let stored = StoredResponse { request_hash: "h".to_string(), status: 65536 + 402, body: () };
    assert!(matches!(replay_or_execute(Some(stored), "h"), Ok(IdempotencyDecision::Replay { status: 402, .. })));
    let stored = StoredResponse { request_hash: "h".to_string(), status: -1, body: () };
    assert!(matches!(replay_or_execute(Some(stored), "h"), Ok(IdempotencyDecision::Replay { status: 200, .. })));
}

#[test]
fn invalid_status_codes_are_sent_as_ok() {
    assert_eq!(http_status_or_ok(99), 200);
    assert_eq!(http_status_or_ok(100), 100);
    assert_eq!(http_status_or_ok(999), 999);
    assert_eq!(http_status_or_ok(1000), 200);
    assert_eq!(http_status_or_ok(202), 202);
}

#[test]
fn idempotency_key_is_required() {
    assert_eq!(require_idempotency_key(Some("k1")).unwrap(), "k1");
    match require_idempotency_key(None) {
        Err(AppError::BadRequest(code, _)) => assert_eq!(code, "idempotency_key_required"),
        _ => panic!("a missing key is refused"),
    }
}

#[test]
fn request_hash_is_hex_sha256_of_the_body() {
    assert_eq!(request_hash(b"abc"), "ba7816bf8f01cfea414140de5dae2223b00361a396177a9cb410ff61f20015ad");
    assert_eq!(
        request_hash(br#"{"payment_token":"tok_success"}"#),
        "d26c458db9d9ec433fd55984a0ab82130c9f0be610acbd7aea84570a1d9c623a"
    );
}
