//! The bodies exchanged with the payment service provider.
use vstd::prelude::*;
use crate::domain::services::payment_service::PspChargeResponse;

verus! {

/// A charge request, sent as JSON to `{base}/charge`.
#[derive(Debug)]
pub struct ChargeRequest<'a> {
    pub amount_cents: i32,
    pub currency: &'a str,
    pub token: &'a str,
    pub idempotency_key: &'a str,
}

/// The PSP's JSON answer to a charge request.
#[derive(Debug)]
pub struct ChargeResponse {
    pub status: String,
    pub psp_ref: Option<String>,
    pub code: Option<String>,
}

impl ChargeResponse {
    /// The answer as the payment decisions take it.
    pub fn into_psp_response(self) -> (res: PspChargeResponse)
        ensures
            res.status == self.status,
            res.psp_ref == self.psp_ref,
            res.code == self.code,
    {
        PspChargeResponse { status: self.status, psp_ref: self.psp_ref, code: self.code }
    }
}

} // verus!
