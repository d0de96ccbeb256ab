use dodo_payments::domain::entities::webhook_event::{WebhookEvent, WebhookEventType};
use dodo_payments::domain::services::payment_service::{
    charge_amount, plan_recovery, settle_payment, AttemptUpdate, ChargeOutcome, LockedInvoice, PaymentResponse,
    PspChargeResponse,
};
use dodo_payments::domain::value_objects::invoice_state::InvoiceState;
use dodo_payments::config::settings::Settings;
use dodo_payments::infrastructure::psp::mock::MockPspLedger;
use dodo_payments::infrastructure::psp::models::ChargeResponse;
use dodo_payments::shared::errors::AppError;

fn open_invoice(due: i32, paid: i32) -> LockedInvoice {
    LockedInvoice { state: "open".to_string(), amount_due_cents: due, amount_paid_cents: paid }
}

fn psp(status: &str, psp_ref: Option<&str>, code: Option<&str>) -> PspChargeResponse {
    PspChargeResponse {
        status: status.to_string(),
        psp_ref: psp_ref.map(|s| s.to_string()),
        code: code.map(|s| s.to_string()),
    }
}

fn is_not_payable(res: Result<i32, AppError>, message: &str) -> bool {
    matches!(res, Err(AppError::Conflict("invoice_not_payable", m)) if m == message)
}

/// Fifty payment requests on one invoice, each taken in turn under the
/// invoice's row lock: the first is charged and pays the invoice, the other
/// forty-nine are refused before the PSP is asked.
#[test]
fn concurrent_payment_allows_only_one_success() {
    let mut invoice = open_invoice(3000, 0);
    let mut charged = 0;
    let mut refused = 0;
    for _ in 0..50 {
        match charge_amount(&invoice) {
            Ok(amount) => {
                assert_eq!(amount, 3000);
                let s = settle_payment(42, ChargeOutcome::Responded(psp("succeeded", Some("psp_1"), None)));
                assert_eq!(s.response.http_status(), 200);
                assert!(s.mark_invoice_paid);
                invoice = LockedInvoice {
                    state: "paid".to_string(),
                    amount_due_cents: invoice.amount_due_cents,
                    amount_paid_cents: invoice.amount_due_cents,
                };
                charged += 1;
            }
            Err(e) => {
                assert!(matches!(e, AppError::Conflict("invoice_not_payable", "Invoice is not open")));
                refused += 1;
            }
        }
    }
    assert_eq!((charged, refused), (1, 49));
    assert_eq!(invoice.state, "paid");
    assert_eq!(invoice.amount_paid_cents, 3000);
}

#[test]
fn only_open_invoices_with_an_outstanding_amount_are_charged() {
    let draft = LockedInvoice { state: "draft".to_string(), amount_due_cents: 100, amount_paid_cents: 0 };
    assert!(is_not_payable(charge_amount(&draft), "Invoice is not open"));
    assert!(is_not_payable(charge_amount(&open_invoice(100, 100)), "Invoice is already paid"));
    assert!(is_not_payable(charge_amount(&open_invoice(0, 0)), "Invoice is already paid"));
    assert_eq!(charge_amount(&open_invoice(2500, 1000)).unwrap(), 1500);
}

#[test]
fn successful_charge_pays_the_invoice() {
    let s = settle_payment(42, ChargeOutcome::Responded(psp("succeeded", Some("psp_1"), None)));
    assert!(matches!(&s.attempt, AttemptUpdate::Succeeded { psp_ref: Some(r) } if r == "psp_1"));
    assert_eq!(s.attempt.status(), "succeeded");
    assert!(s.mark_invoice_paid);
    assert_eq!(
        s.webhook,
        Some(WebhookEvent { event_type: WebhookEventType::InvoicePaid, invoice_id: 42, state: InvoiceState::Paid })
    );
    assert_eq!(s.response, PaymentResponse::Succeeded { invoice_id: 42 });
    assert_eq!(s.response.http_status(), 200);
    assert_eq!(s.response.status(), "succeeded");
}

#[test]
fn declined_charge_fails_the_attempt_with_the_psp_code() {
    let s = settle_payment(7, ChargeOutcome::Responded(psp("failed", None, Some("card_declined"))));
    assert!(matches!(&s.attempt, AttemptUpdate::Failed { failure_code } if failure_code == "card_declined"));
    assert!(!s.mark_invoice_paid);
    assert_eq!(
        s.webhook,
        Some(WebhookEvent {
            event_type: WebhookEventType::InvoicePaymentFailed,
            invoice_id: 7,
            state: InvoiceState::Open
        })
    );
    assert_eq!(s.response, PaymentResponse::Failed);
    assert_eq!(s.response.http_status(), 402);
    assert_eq!(s.response.status(), "failed");
}

#[test]
fn declined_charge_without_code_is_payment_failed() {
    let s = settle_payment(7, ChargeOutcome::Responded(psp("weird", None, None)));
    assert!(matches!(&s.attempt, AttemptUpdate::Failed { failure_code } if failure_code == "payment_failed"));
    assert_eq!(s.attempt.status(), "failed");
}

/// Paying with `tok_timeout` under the default settings: the mock PSP's
/// first answer comes after the client's timeout, so the payment answers 202
/// and leaves the invoice open; the recovery charges again under the same
/// idempotency key, gets the success at once, and pays the invoice.
#[test]
fn timeout_returns_processing_and_recovery_marks_paid() {
    let settings = Settings::from_vars("db".to_string(), None, None, None, None, None);
    let mut psp_ledger = MockPspLedger::new();
    let invoice = open_invoice(1200, 0);
    assert_eq!(charge_amount(&invoice).unwrap(), 1200);

    let first = psp_ledger.charge("tok_timeout", "pay-key-1");
    assert!(first.delay_ms > settings.payment_timeout_seconds * 1000);
    let s = settle_payment(9, ChargeOutcome::TimedOut);
    assert!(matches!(s.attempt, AttemptUpdate::Processing));
    assert_eq!(s.attempt.status(), "processing");
    assert!(!s.mark_invoice_paid);
    assert_eq!(s.webhook, None);
    assert_eq!(s.response, PaymentResponse::Processing);
    assert_eq!(s.response.http_status(), 202);
    assert_eq!(s.response.status(), "processing");
    // The invoice is untouched, still open and payable.
    assert_eq!(charge_amount(&invoice).unwrap(), 1200);

    let again = psp_ledger.charge("tok_timeout", "pay-key-1");
    assert_eq!((again.delay_ms, again.http_status, again.status()), (0, 200, "succeeded"));
    let answer = ChargeResponse { status: again.status().to_string(), psp_ref: Some("psp_9".to_string()), code: None };
    let plan = plan_recovery(9, ChargeOutcome::Responded(answer.into_psp_response())).unwrap();
    assert!(matches!(&plan.attempt, AttemptUpdate::Succeeded { psp_ref: Some(r) } if r == "psp_9"));
    assert!(plan.mark_invoice_paid_if_open);
    assert_eq!(
        plan.webhook,
        WebhookEvent { event_type: WebhookEventType::InvoicePaid, invoice_id: 9, state: InvoiceState::Paid }
    );
    // The invoice as the recovery leaves it: paid in full, not chargeable again.
    let after = LockedInvoice { state: "paid".to_string(), amount_due_cents: 1200, amount_paid_cents: 1200 };
    assert!(is_not_payable(charge_amount(&after), "Invoice is not open"));
}

#[test]
fn mock_psp_answers_each_test_token() {
    let mut psp_ledger = MockPspLedger::new();
    let ok = psp_ledger.charge("tok_success", "k1");
    assert_eq!((ok.delay_ms, ok.http_status, ok.status(), ok.code), (100, 200, "succeeded", None));
    let poor = psp_ledger.charge("tok_insufficient_funds", "k2");
    assert_eq!((poor.http_status, poor.status(), poor.code), (200, "failed", Some("insufficient_funds")));
    let declined = psp_ledger.charge("tok_card_declined", "k3");
    assert_eq!(declined.code, Some("card_declined"));
    let down = psp_ledger.charge("tok_network_error", "k4");
    assert_eq!((down.http_status, down.code), (500, Some("network_error")));
    let unknown = psp_ledger.charge("tok_other", "k5");
    assert_eq!((unknown.http_status, unknown.code), (200, Some("invalid_token")));
    // A different key is a new charge: tok_timeout waits again.
    assert_eq!(psp_ledger.charge("tok_timeout", "k6").delay_ms, 30000);
    assert_eq!(psp_ledger.charge("tok_timeout", "k7").delay_ms, 30000);
    assert_eq!(psp_ledger.charge("tok_timeout", "k6").delay_ms, 0);
}

#[test]
fn network_error_leaves_the_attempt_unknown() {
    let s = settle_payment(9, ChargeOutcome::Failed);
    assert!(matches!(&s.attempt, AttemptUpdate::Unknown { failure_code } if failure_code == "network_error"));
    assert_eq!(s.attempt.status(), "unknown");
    assert!(!s.mark_invoice_paid);
    assert_eq!(s.webhook, None);
    assert_eq!(s.response.http_status(), 202);
}

#[test]
fn recovery_settles_only_on_an_answer_of_the_psp() {
    assert!(plan_recovery(1, ChargeOutcome::TimedOut).is_none());
    assert!(plan_recovery(1, ChargeOutcome::Failed).is_none());
    let plan = plan_recovery(1, ChargeOutcome::Responded(psp("failed", None, Some("insufficient_funds")))).unwrap();
    assert!(matches!(&plan.attempt, AttemptUpdate::Failed { failure_code } if failure_code == "insufficient_funds"));
    assert!(!plan.mark_invoice_paid_if_open);
    assert_eq!(plan.webhook.event_type.as_str(), "invoice.payment_failed");
    assert_eq!(plan.webhook.state, InvoiceState::Open);
}

#[test]
fn psp_answer_converts_field_by_field() {
    let resp = ChargeResponse { status: "succeeded".to_string(), psp_ref: Some("r".to_string()), code: None };
    let p = resp.into_psp_response();
    assert_eq!(p.status, "succeeded");
    assert_eq!(p.psp_ref.as_deref(), Some("r"));
    assert_eq!(p.code, None);
}
