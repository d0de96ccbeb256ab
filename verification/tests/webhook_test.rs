use dodo_payments::domain::services::webhook_service::sign;
use dodo_payments::infrastructure::webhooks::dispatcher::delivery_headers;
use dodo_payments::infrastructure::webhooks::retry_worker::{retry_delay_minutes, DeliveryAction, DeliveryRound};

#[test]
fn retry_schedule_matches_assignment() {
    assert_eq!(dodo_payments::infrastructure::webhooks::retry_worker::retry_delay_minutes(0), Some(1));
    assert_eq!(dodo_payments::infrastructure::webhooks::retry_worker::retry_delay_minutes(1), Some(10));
    assert_eq!(dodo_payments::infrastructure::webhooks::retry_worker::retry_delay_minutes(2), Some(60));
    assert_eq!(dodo_payments::infrastructure::webhooks::retry_worker::retry_delay_minutes(3), Some(360));
    assert_eq!(dodo_payments::infrastructure::webhooks::retry_worker::retry_delay_minutes(4), Some(720));
    assert_eq!(dodo_payments::infrastructure::webhooks::retry_worker::retry_delay_minutes(5), None);
}

#[test]
fn retry_schedule_has_no_delay_for_negative_attempts() {
    assert_eq!(retry_delay_minutes(-1), None);
    assert_eq!(retry_delay_minutes(i32::MAX), None);
}

#[test]
fn event_without_endpoints_is_retried() {
    let round = DeliveryRound::new(0);
    assert!(!round.should_dispatch());
    assert_eq!(round.finish(0), DeliveryAction::Retry { delay_minutes: 1 });
}

#[test]
fn event_accepted_by_every_endpoint_is_delivered() {
    let mut round = DeliveryRound::new(2);
    assert!(round.should_dispatch());
    round.record(true);
    assert!(round.should_dispatch());
    round.record(true);
    assert_eq!(round.finish(3), DeliveryAction::MarkDelivered);
}

#[test]
fn one_refusal_stops_the_round_and_schedules_a_retry() {
    let mut round = DeliveryRound::new(3);
    round.record(false);
    assert!(!round.should_dispatch());
    assert_eq!(round.finish(2), DeliveryAction::Retry { delay_minutes: 60 });
}

#[test]
fn undeliverable_event_is_dead_lettered_on_its_sixth_failure() {
    let mut attempts = 0;
    let mut delays = Vec::new();
    loop {
        let round = DeliveryRound::new(1);
        let mut round = round;
        round.record(false);
        match round.finish(attempts) {
            DeliveryAction::Retry { delay_minutes } => {
                delays.push(delay_minutes);
                attempts += 1;
            }
            DeliveryAction::DeadLetter => break,
            DeliveryAction::MarkDelivered => panic!("a refused event is not delivered"),
        }
    }
    assert_eq!(attempts, 5);
    assert_eq!(delays, vec![1, 10, 60, 360, 720]);
}

#[test]
fn signature_is_hmac_sha256_of_timestamp_dot_payload() {
    let sig = sign("whsec_test", 1700000000, "{\"invoice_id\":\"1\",\"state\":\"paid\"}");
    assert_eq!(sig, "a60b297ba6c3f6a80b0bee86cdddabb4625a4ff1d78093568ce141b4914d35ed");
}

#[test]
fn signature_of_negative_timestamp_keeps_the_sign() {
    assert_eq!(sign("k", -5, "x"), "bb37629728762e2c6ee7834ab2032390a78036f097a83c7e352a333cc28f5c2a");
}

#[test]
fn delivery_headers_carry_signature_timestamp_and_event_id() {
    let headers = delivery_headers("whsec_test", 1700000000, "{\"invoice_id\":\"1\",\"state\":\"paid\"}", "evt-1");
    assert_eq!(headers.len(), 3);
    assert_eq!(headers[0].0, "X-Dodo-Signature");
    assert_eq!(headers[0].1, "a60b297ba6c3f6a80b0bee86cdddabb4625a4ff1d78093568ce141b4914d35ed");
    assert_eq!(headers[1].0, "X-Dodo-Timestamp");
    assert_eq!(headers[1].1, "1700000000");
    assert_eq!(headers[2].0, "X-Dodo-Event-Id");
    assert_eq!(headers[2].1, "evt-1");
}
