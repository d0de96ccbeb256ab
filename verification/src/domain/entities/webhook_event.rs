//! The events that the service announces to registered webhook endpoints.
use vstd::prelude::*;
use crate::domain::value_objects::invoice_state::InvoiceState;

verus! {

/// The kinds of event that are put in the webhook outbox.
#[derive(Clone, Copy, Debug, PartialEq, Eq, Structural)]
pub enum WebhookEventType {
    InvoiceCreated,
    InvoicePaid,
    InvoicePaymentFailed,
}

impl WebhookEventType {
    pub open spec fn name(self) -> Seq<char> {
        match self {
            WebhookEventType::InvoiceCreated => "invoice.created"@,
            WebhookEventType::InvoicePaid => "invoice.paid"@,
            WebhookEventType::InvoicePaymentFailed => "invoice.payment_failed"@,
        }
    }

    /// The event type as it is stored in the outbox.
    pub fn as_str(&self) -> (res: &'static str)
        ensures
            res@ == self.name(),
    {
        match self {
            WebhookEventType::InvoiceCreated => "invoice.created",
            WebhookEventType::InvoicePaid => "invoice.paid",
            WebhookEventType::InvoicePaymentFailed => "invoice.payment_failed",
        }
    }
}

/// An outbox entry: its type and the payload `{"invoice_id": .., "state": ..}`.
#[derive(Clone, Copy, Debug, PartialEq, Eq, Structural)]
pub struct WebhookEvent {
    pub event_type: WebhookEventType,
    pub invoice_id: u128,
    pub state: InvoiceState,
}

} // verus!
