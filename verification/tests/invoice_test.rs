use dodo_payments::application::dto::{CreateInvoiceRequest, CreateLineItemRequest};
use dodo_payments::domain::entities::webhook_event::{WebhookEvent, WebhookEventType};
use dodo_payments::domain::services::invoice_service::{ensure_transition, invoice_total, plan_transition};
use dodo_payments::domain::value_objects::invoice_state::InvoiceState;
use dodo_payments::shared::errors::AppError;

const ALL: [InvoiceState; 5] = [
    InvoiceState::Draft,
    InvoiceState::Open,
    InvoiceState::Paid,
    InvoiceState::Void,
    InvoiceState::Uncollectible,
];

#[test]
fn state_names_round_trip() {
    for s in ALL {
        assert_eq!(InvoiceState::parse(s.as_str()), s);
    }
    assert_eq!(InvoiceState::Uncollectible.as_str(), "uncollectible");
    assert_eq!(InvoiceState::parse("OPEN"), InvoiceState::Draft);
    assert_eq!(InvoiceState::parse(""), InvoiceState::Draft);
}

#[test]
fn lifecycle_allows_exactly_five_moves() {
    let mut allowed = Vec::new();
    for from in ALL {
        for to in ALL {
            if from.can_transition_to(&to) {
                allowed.push((from.as_str(), to.as_str()));
            }
        }
    }
    assert_eq!(
        allowed,
        vec![("draft", "open"), ("draft", "void"), ("open", "paid"), ("open", "void"), ("open", "uncollectible")]
    );
}

#[test]
fn ensure_transition_refuses_moves_out_of_terminal_states() {
    assert!(ensure_transition("draft", InvoiceState::Open).is_ok());
    assert!(ensure_transition("garbage", InvoiceState::Void).is_ok());
    match ensure_transition("paid", InvoiceState::Open) {
        Err(AppError::Conflict(code, message)) => {
            assert_eq!(code, "invalid_state_transition");
            assert_eq!(message, "Invalid invoice state transition");
        }
        _ => panic!("a paid invoice cannot be reopened"),
    }
}

#[test]
fn finalizing_announces_invoice_created() {
    let plan = plan_transition(5, "draft", "open").unwrap();
    assert_eq!(
        plan.webhook,
        Some(WebhookEvent { event_type: WebhookEventType::InvoiceCreated, invoice_id: 5, state: InvoiceState::Open })
    );
    assert_eq!(plan_transition(5, "open", "void").unwrap().webhook, None);
    assert!(plan_transition(5, "open", "open").is_err());
    assert!(plan_transition(5, "draft", "unknown").is_err());
}

fn line(quantity: i32, unit: i32) -> CreateLineItemRequest {
    CreateLineItemRequest { description: "API credits".to_string(), quantity, unit_amount_cents: unit }
}

#[test]
fn invoice_total_sums_quantity_times_unit_amount() {
    let req = CreateInvoiceRequest { customer_id: 1, currency: "USD".to_string(), line_items: vec![line(2, 1500), line(3, -100)] };
    assert_eq!(invoice_total(&req).unwrap(), 2700);
}

#[test]
fn invoice_without_lines_is_refused() {
    let req = CreateInvoiceRequest { customer_id: 1, currency: "USD".to_string(), line_items: vec![] };
    match invoice_total(&req) {
        Err(AppError::BadRequest(code, message)) => {
            assert_eq!(code, "line_items_required");
            assert_eq!(message, "At least one line item is required");
        }
        _ => panic!("an invoice needs a line"),
    }
}
