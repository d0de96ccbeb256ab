//! The request and response bodies of the API that the library's logic reads
//! or produces. Identifiers are carried as the 128-bit value of their UUID.
use vstd::prelude::*;

verus! {

pub struct CreateApiKeyResponse {
    pub api_key: String,
}

#[derive(Clone, Debug)]
pub struct CreateLineItemRequest {
    pub description: String,
    pub quantity: i32,
    pub unit_amount_cents: i32,
}

#[derive(Clone, Debug)]
pub struct CreateInvoiceRequest {
    pub customer_id: u128,
    pub currency: String,
    pub line_items: Vec<CreateLineItemRequest>,
}

#[derive(Clone, Debug)]
pub struct PayInvoiceRequest {
    pub payment_token: String,
}

#[derive(Clone, Debug)]
pub struct CreateWebhookRequest {
    pub url: String,
}

} // verus!
