//! The decisions of a payment: whether an invoice can be charged and for how
//! much, what each answer of the payment service provider (PSP) does to the
//! payment attempt, the invoice, the webhook outbox and the HTTP answer, and
//! what the recovery of a pending attempt does.
//!
//! The database and the PSP call stay outside; these functions take what was
//! read or received and return what is to be written and answered.
use vstd::prelude::*;
use crate::domain::entities::webhook_event::{WebhookEvent, WebhookEventType};
use crate::domain::value_objects::invoice_state::InvoiceState;
use crate::shared::errors::AppError;
use crate::shared::text::str_equals;

verus! {

/// The PSP's answer to a charge.
#[derive(Debug)]
pub struct PspChargeResponse {
    pub status: String,
    pub psp_ref: Option<String>,
    pub code: Option<String>,
}

/// How a charge request ended.
#[derive(Debug)]
pub enum ChargeOutcome {
    /// The PSP answered.
    Responded(PspChargeResponse),
    /// The request ran out of time: the PSP may still complete the charge.
    TimedOut,
    /// Any other failure of the request (connection, HTTP error status,
    /// unreadable answer).
    Failed,
}

/// The columns of the invoice row that a payment reads, locked for the
/// duration of the payment.
#[derive(Debug)]
pub struct LockedInvoice {
    pub state: String,
    pub amount_due_cents: i32,
    pub amount_paid_cents: i32,
}

/// An invoice's state name, amount due and amount paid.
pub type Balance = (Seq<char>, int, int);

impl LockedInvoice {
    pub open spec fn balance(&self) -> Balance {
        (self.state@, self.amount_due_cents as int, self.amount_paid_cents as int)
    }
}

/// What may be charged on an invoice: nothing unless it is open and has an
/// outstanding amount; else the amount due less the amount paid.
pub open spec fn payable_amount(balance: Balance) -> Result<int, AppError> {
    if balance.0 != "open"@ {
        Err(AppError::Conflict("invoice_not_payable", "Invoice is not open"))
    } else if balance.1 - balance.2 <= 0 {
        Err(AppError::Conflict("invoice_not_payable", "Invoice is already paid"))
    } else {
        Ok(balance.1 - balance.2)
    }
}

/// The amount to charge on a locked invoice, or why it cannot be charged.
pub fn charge_amount(invoice: &LockedInvoice) -> (res: Result<i32, AppError>)
    requires
        invoice.state@ == "open"@ ==> i32::MIN <= invoice.amount_due_cents
            - invoice.amount_paid_cents <= i32::MAX,
    ensures
        match res {
            Ok(amount) => payable_amount(invoice.balance()) == Ok::<int, AppError>(amount as int),
            Err(e) => payable_amount(invoice.balance()) == Err::<int, AppError>(e),
        },
        invoice.state@ == "open"@ && invoice.amount_due_cents - invoice.amount_paid_cents > 0
            ==> res == Ok::<i32, AppError>(
            (invoice.amount_due_cents - invoice.amount_paid_cents) as i32,
        ),
        invoice.state@ != "open"@ ==> res is Err,
        invoice.amount_due_cents - invoice.amount_paid_cents <= 0 ==> res is Err,
{
    if !str_equals(invoice.state.as_str(), "open") {
        return Err(AppError::Conflict("invoice_not_payable", "Invoice is not open"));
    }
    let amount = invoice.amount_due_cents - invoice.amount_paid_cents;
    if amount <= 0 {
        return Err(AppError::Conflict("invoice_not_payable", "Invoice is already paid"));
    }
    Ok(amount)
}

/// The update of the payment attempt row.
#[derive(Debug)]
pub enum AttemptUpdate {
    /// Status `succeeded`, with the PSP's reference.
    Succeeded { psp_ref: Option<String> },
    /// Status `failed`, with the failure code.
    Failed { failure_code: String },
    /// Status stays `processing`: the outcome is not known yet.
    Processing,
    /// Status `unknown`, with the failure code.
    Unknown { failure_code: String },
}

impl AttemptUpdate {
    pub open spec fn status_name(&self) -> Seq<char> {
        match self {
            AttemptUpdate::Succeeded { .. } => "succeeded"@,
            AttemptUpdate::Failed { .. } => "failed"@,
            AttemptUpdate::Processing => "processing"@,
            AttemptUpdate::Unknown { .. } => "unknown"@,
        }
    }

    /// The status stored for the attempt.
    pub fn status(&self) -> (res: &'static str)
        ensures
            res@ == self.status_name(),
    {
        match self {
            AttemptUpdate::Succeeded { .. } => "succeeded",
            AttemptUpdate::Failed { .. } => "failed",
            AttemptUpdate::Processing => "processing",
            AttemptUpdate::Unknown { .. } => "unknown",
        }
    }

    /// Whether the attempt is still waiting for a final answer, and so is
    /// picked up by the recovery worker.
    pub open spec fn is_pending(&self) -> bool {
        self is Processing || self is Unknown
    }
}

/// The answer to the payment request.
#[derive(Debug, Clone, Copy, PartialEq, Eq, Structural)]
pub enum PaymentResponse {
    /// `{"status":"succeeded","invoice_id":..}`
    Succeeded { invoice_id: u128 },
    /// `{"status":"failed"}`
    Failed,
    /// `{"status":"processing"}`
    Processing,
}

impl PaymentResponse {
    pub open spec fn spec_http_status(&self) -> u16 {
        match self {
            PaymentResponse::Succeeded { .. } => 200,
            PaymentResponse::Failed => 402,
            PaymentResponse::Processing => 202,
        }
    }

    pub open spec fn status_name(&self) -> Seq<char> {
        match self {
            PaymentResponse::Succeeded { .. } => "succeeded"@,
            PaymentResponse::Failed => "failed"@,
            PaymentResponse::Processing => "processing"@,
        }
    }

    /// The HTTP status of the answer.
    pub fn http_status(&self) -> (res: u16)
        ensures
            res == self.spec_http_status(),
    {
        match self {
            PaymentResponse::Succeeded { .. } => 200,
            PaymentResponse::Failed => 402,
            PaymentResponse::Processing => 202,
        }
    }

    /// The `status` field of the answer's body.
    pub fn status(&self) -> (res: &'static str)
        ensures
            res@ == self.status_name(),
    {
        match self {
            PaymentResponse::Succeeded { .. } => "succeeded",
            PaymentResponse::Failed => "failed",
            PaymentResponse::Processing => "processing",
        }
    }
}

/// Everything a payment does once the PSP call has ended.
#[derive(Debug)]
pub struct PaymentSettlement {
    pub attempt: AttemptUpdate,
    /// Whether the invoice becomes `paid` with its amount paid set to its
    /// amount due.
    pub mark_invoice_paid: bool,
    /// The event put in the outbox, if any.
    pub webhook: Option<WebhookEvent>,
    pub response: PaymentResponse,
}

/// Whether the PSP reports the charge as made.
pub open spec fn charge_succeeded(resp: PspChargeResponse) -> bool {
    resp.status@ == "succeeded"@
}

/// The failure code of a declined charge: the PSP's code, else
/// `payment_failed`.
pub open spec fn decline_code(resp: PspChargeResponse) -> Seq<char> {
    match resp.code {
        Some(code) => code@,
        None => "payment_failed"@,
    }
}

pub open spec fn paid_event(invoice_id: u128) -> WebhookEvent {
    WebhookEvent { event_type: WebhookEventType::InvoicePaid, invoice_id, state: InvoiceState::Paid }
}

pub open spec fn payment_failed_event(invoice_id: u128) -> WebhookEvent {
    WebhookEvent {
        event_type: WebhookEventType::InvoicePaymentFailed,
        invoice_id,
        state: InvoiceState::Open,
    }
}

/// The settlement of a payment on `invoice_id` after the PSP call ended
/// with `outcome`.
pub open spec fn settles(invoice_id: u128, outcome: ChargeOutcome, s: PaymentSettlement) -> bool {
    match outcome {
        ChargeOutcome::Responded(resp) => if charge_succeeded(resp) {
            &&& s.attempt == (AttemptUpdate::Succeeded { psp_ref: resp.psp_ref })
            &&& s.mark_invoice_paid
            &&& s.webhook == Some(paid_event(invoice_id))
            &&& s.response == (PaymentResponse::Succeeded { invoice_id })
        } else {
            &&& s.attempt matches AttemptUpdate::Failed { failure_code }
                && failure_code@ == decline_code(resp)
            &&& !s.mark_invoice_paid
            &&& s.webhook == Some(payment_failed_event(invoice_id))
            &&& s.response == PaymentResponse::Failed
        },
        ChargeOutcome::TimedOut => {
            &&& s.attempt == AttemptUpdate::Processing
            &&& !s.mark_invoice_paid
            &&& s.webhook == None::<WebhookEvent>
            &&& s.response == PaymentResponse::Processing
        },
        ChargeOutcome::Failed => {
            &&& s.attempt matches AttemptUpdate::Unknown { failure_code }
                && failure_code@ == "network_error"@
            &&& !s.mark_invoice_paid
            &&& s.webhook == None::<WebhookEvent>
            &&& s.response == PaymentResponse::Processing
        },
    }
}

/// Settles a payment on `invoice_id` whose PSP call ended with `outcome`.
/// A success pays the invoice and announces `invoice.paid` (200); a decline
/// fails the attempt and announces `invoice.payment_failed` (402); a timeout
/// or a failed request leaves the invoice open and the attempt pending (202),
/// for the recovery worker to settle.
pub fn settle_payment(invoice_id: u128, outcome: ChargeOutcome) -> (res: PaymentSettlement)
    ensures
        settles(invoice_id, outcome, res),
        res.webhook matches Some(event) ==> event.invoice_id == invoice_id,
        res.response matches PaymentResponse::Succeeded { invoice_id: paid } ==> paid == invoice_id,
        res.mark_invoice_paid ==> res.response == (PaymentResponse::Succeeded { invoice_id }),
{
    match outcome {
        ChargeOutcome::Responded(resp) => {
            if str_equals(resp.status.as_str(), "succeeded") {
                PaymentSettlement {
                    attempt: AttemptUpdate::Succeeded { psp_ref: resp.psp_ref },
                    mark_invoice_paid: true,
                    webhook: Some(
                        WebhookEvent {
                            event_type: WebhookEventType::InvoicePaid,
                            invoice_id,
                            state: InvoiceState::Paid,
                        },
                    ),
                    response: PaymentResponse::Succeeded { invoice_id },
                }
            } else {
                PaymentSettlement {
                    attempt: AttemptUpdate::Failed { failure_code: decline_failure_code(resp.code) },
                    mark_invoice_paid: false,
                    webhook: Some(
                        WebhookEvent {
                            event_type: WebhookEventType::InvoicePaymentFailed,
                            invoice_id,
                            state: InvoiceState::Open,
                        },
                    ),
                    response: PaymentResponse::Failed,
                }
            }
        },
        ChargeOutcome::TimedOut => PaymentSettlement {
            attempt: AttemptUpdate::Processing,
            mark_invoice_paid: false,
            webhook: None,
            response: PaymentResponse::Processing,
        },
        ChargeOutcome::Failed => PaymentSettlement {
            attempt: AttemptUpdate::Unknown { failure_code: "network_error".to_owned() },
            mark_invoice_paid: false,
            webhook: None,
            response: PaymentResponse::Processing,
        },
    }
}

/// The PSP's failure code, or `payment_failed` when it gave none.
fn decline_failure_code(code: Option<String>) -> (res: String)
    ensures
        res@ == (match code {
            Some(c) => c@,
            None => "payment_failed"@,
        }),
{
    match code {
        Some(c) => c,
        None => "payment_failed".to_owned(),
    }
}

/// What the recovery of a pending attempt writes.
#[derive(Debug)]
pub struct RecoveryPlan {
    pub attempt: AttemptUpdate,
    /// Whether the invoice becomes `paid` (with its amount paid set to its
    /// amount due) provided it is still open.
    pub mark_invoice_paid_if_open: bool,
    pub webhook: WebhookEvent,
}

/// The recovery of a pending attempt on `invoice_id` whose renewed PSP call
/// ended with `outcome`.
pub open spec fn recovers(invoice_id: u128, outcome: ChargeOutcome, r: Option<RecoveryPlan>) -> bool {
    match outcome {
        ChargeOutcome::Responded(resp) => r matches Some(plan) && if charge_succeeded(resp) {
            &&& plan.attempt == (AttemptUpdate::Succeeded { psp_ref: resp.psp_ref })
            &&& plan.mark_invoice_paid_if_open
            &&& plan.webhook == paid_event(invoice_id)
        } else {
            &&& plan.attempt matches AttemptUpdate::Failed { failure_code }
                && failure_code@ == decline_code(resp)
            &&& !plan.mark_invoice_paid_if_open
            &&& plan.webhook == payment_failed_event(invoice_id)
        },
        _ => r is None,
    }
}

/// Plans the recovery of a pending attempt on `invoice_id` after asking the
/// PSP again (with the attempt's own idempotency key). Only an answer of the
/// PSP settles the attempt; a timeout or failed request leaves it pending.
pub fn plan_recovery(invoice_id: u128, outcome: ChargeOutcome) -> (res: Option<RecoveryPlan>)
    ensures
        recovers(invoice_id, outcome, res),
        res matches Some(plan) ==> plan.webhook.invoice_id == invoice_id,
{
    match outcome {
        ChargeOutcome::Responded(resp) => {
            if str_equals(resp.status.as_str(), "succeeded") {
                Some(
                    RecoveryPlan {
                        attempt: AttemptUpdate::Succeeded { psp_ref: resp.psp_ref },
                        mark_invoice_paid_if_open: true,
                        webhook: WebhookEvent {
                            event_type: WebhookEventType::InvoicePaid,
                            invoice_id,
                            state: InvoiceState::Paid,
                        },
                    },
                )
            } else {
                Some(
                    RecoveryPlan {
                        attempt: AttemptUpdate::Failed { failure_code: decline_failure_code(resp.code) },
                        mark_invoice_paid_if_open: false,
                        webhook: WebhookEvent {
                            event_type: WebhookEventType::InvoicePaymentFailed,
                            invoice_id,
                            state: InvoiceState::Open,
                        },
                    },
                )
            }
        },
        ChargeOutcome::TimedOut => None,
        ChargeOutcome::Failed => None,
    }
}

/// The invoice after a settlement: marking it paid sets its state to `paid`
/// and its amount paid to its amount due.
pub open spec fn balance_after_settlement(balance: Balance, mark_paid: bool) -> Balance {
    if mark_paid {
        ("paid"@, balance.1, balance.1)
    } else {
        balance
    }
}

/// The invoice after a recovery: it is marked paid only if still open.
pub open spec fn balance_after_recovery(balance: Balance, mark_paid_if_open: bool) -> Balance {
    if mark_paid_if_open && balance.0 == "open"@ {
        ("paid"@, balance.1, balance.1)
    } else {
        balance
    }
}

/// A payment pays the invoice exactly when the PSP reports success; a paid
/// invoice cannot be charged again, whatever its amounts, so one invoice is
/// never charged successfully twice.
pub proof fn lemma_paid_invoice_is_not_charged_again(
    invoice_id: u128,
    balance: Balance,
    outcome: ChargeOutcome,
    s: PaymentSettlement,
)
    requires
        settles(invoice_id, outcome, s),
    ensures
        s.mark_invoice_paid <==> (outcome matches ChargeOutcome::Responded(resp) && charge_succeeded(resp)),
        s.mark_invoice_paid ==> payable_amount(balance_after_settlement(balance, true)) is Err,
        s.mark_invoice_paid ==> balance_after_settlement(balance, true).2 == balance.1,
{
    reveal_strlit("paid");
    reveal_strlit("open");
    assert("paid"@[0] != "open"@[0]);
}

/// A charge that timed out or failed in transit leaves the invoice as it
/// was and answers 202 `processing`, with no event; when the recovery later
/// learns from the PSP that the charge was made, the still-open invoice
/// becomes paid in full and `invoice.paid` is announced.
pub proof fn lemma_pending_payment_is_paid_by_recovery(
    invoice_id: u128,
    balance: Balance,
    outcome: ChargeOutcome,
    s: PaymentSettlement,
    resp: PspChargeResponse,
    plan: Option<RecoveryPlan>,
)
    requires
        payable_amount(balance) is Ok,
        outcome is TimedOut || outcome is Failed,
        settles(invoice_id, outcome, s),
        charge_succeeded(resp),
        recovers(invoice_id, ChargeOutcome::Responded(resp), plan),
    ensures
        balance_after_settlement(balance, s.mark_invoice_paid) == balance,
        s.attempt.is_pending(),
        s.response == PaymentResponse::Processing,
        s.response.spec_http_status() == 202,
        s.webhook is None,
        plan matches Some(p) && balance_after_recovery(balance, p.mark_invoice_paid_if_open) == (
        "paid"@, balance.1, balance.1) && p.webhook == paid_event(invoice_id),
{
}

/// A declined charge fails the attempt, leaves the invoice open with its
/// amounts unchanged, announces `invoice.payment_failed` and answers 402; the
/// invoice can be charged again.
pub proof fn lemma_declined_payment_keeps_invoice_open(
    invoice_id: u128,
    balance: Balance,
    resp: PspChargeResponse,
    s: PaymentSettlement,
)
    requires
        payable_amount(balance) is Ok,
        !charge_succeeded(resp),
        settles(invoice_id, ChargeOutcome::Responded(resp), s),
    ensures
        balance_after_settlement(balance, s.mark_invoice_paid) == balance,
        payable_amount(balance_after_settlement(balance, s.mark_invoice_paid)) is Ok,
        !s.attempt.is_pending(),
        s.webhook == Some(payment_failed_event(invoice_id)),
        s.response.spec_http_status() == 402,
{
}

/// The outbox and the invoice agree: the state announced by a payment's
/// event is the state the invoice is left in, and only a payment that pays
/// the invoice announces `invoice.paid`.
pub proof fn lemma_announced_state_is_invoice_state(
    invoice_id: u128,
    balance: Balance,
    outcome: ChargeOutcome,
    s: PaymentSettlement,
)
    requires
        payable_amount(balance) is Ok,
        settles(invoice_id, outcome, s),
    ensures
        s.webhook matches Some(event) ==> event.invoice_id == invoice_id && event.state.name()
            == balance_after_settlement(balance, s.mark_invoice_paid).0,
        s.webhook matches Some(event) ==> (event.event_type == WebhookEventType::InvoicePaid
            <==> s.mark_invoice_paid),
{
    reveal_strlit("paid");
    reveal_strlit("open");
}

/// What may be charged on an invoice is its outstanding amount: an open
/// invoice with amount due `due` and amount paid `paid` is charged exactly
/// `due - paid` when that is positive, and refused as already paid when it
/// is not; an invoice in any other state is refused as not open.
pub proof fn lemma_open_invoice_is_charged_its_outstanding_amount(state: Seq<char>, due: int, paid: int)
    ensures
        state == "open"@ && due - paid > 0 ==> payable_amount((state, due, paid)) == Ok::<int, AppError>(due - paid),
        state == "open"@ && due - paid <= 0 ==> payable_amount((state, due, paid)) == Err::<int, AppError>(
            AppError::Conflict("invoice_not_payable", "Invoice is already paid"),
        ),
        state != "open"@ ==> payable_amount((state, due, paid)) == Err::<int, AppError>(
            AppError::Conflict("invoice_not_payable", "Invoice is not open"),
        ),
        payable_amount((state, due, paid)) matches Ok(amount) ==> amount == due - paid && amount > 0,
{
}

/// Every settlement is about the invoice that was paid: a successful charge
/// answers `Succeeded` with that very invoice's id and announces
/// `invoice.paid` for it; a declined charge announces
/// `invoice.payment_failed` for it, with the PSP's code (or
/// `payment_failed`); no settlement names another invoice.
pub proof fn lemma_settlement_names_the_paid_invoice(
    invoice_id: u128,
    outcome: ChargeOutcome,
    s: PaymentSettlement,
)
    requires
        settles(invoice_id, outcome, s),
    ensures
        s.webhook matches Some(event) ==> event.invoice_id == invoice_id,
        s.response matches PaymentResponse::Succeeded { invoice_id: paid } ==> paid == invoice_id,
        match outcome {
            ChargeOutcome::Responded(resp) => if resp.status@ == "succeeded"@ {
                &&& s.response == (PaymentResponse::Succeeded { invoice_id })
                &&& s.webhook == Some(
                    WebhookEvent {
                        event_type: WebhookEventType::InvoicePaid,
                        invoice_id,
                        state: InvoiceState::Paid,
                    },
                )
            } else {
                &&& s.response == PaymentResponse::Failed
                &&& s.webhook == Some(
                    WebhookEvent {
                        event_type: WebhookEventType::InvoicePaymentFailed,
                        invoice_id,
                        state: InvoiceState::Open,
                    },
                )
                &&& s.attempt matches AttemptUpdate::Failed { failure_code }
                    && failure_code@ == (match resp.code {
                    Some(code) => code@,
                    None => "payment_failed"@,
                })
            },
            ChargeOutcome::TimedOut => {
                &&& s.response == PaymentResponse::Processing
                &&& s.webhook is None
                &&& !s.mark_invoice_paid
                &&& s.attempt is Processing
            },
            ChargeOutcome::Failed => {
                &&& s.response == PaymentResponse::Processing
                &&& s.webhook is None
                &&& !s.mark_invoice_paid
                &&& s.attempt matches AttemptUpdate::Unknown { failure_code }
                    && failure_code@ == "network_error"@
            },
        },
{
}

/// Every recovery plan is about the invoice being recovered: a success
/// announces `invoice.paid` for it, a decline `invoice.payment_failed` for it
/// with its state left open.
pub proof fn lemma_recovery_names_the_recovered_invoice(
    invoice_id: u128,
    outcome: ChargeOutcome,
    r: Option<RecoveryPlan>,
)
    requires
        recovers(invoice_id, outcome, r),
    ensures
        r matches Some(plan) ==> plan.webhook.invoice_id == invoice_id,
        match outcome {
            ChargeOutcome::Responded(resp) => if resp.status@ == "succeeded"@ {
                &&& r is Some
                &&& r->0.webhook == (WebhookEvent {
                    event_type: WebhookEventType::InvoicePaid,
                    invoice_id,
                    state: InvoiceState::Paid,
                })
                &&& r->0.mark_invoice_paid_if_open
            } else {
                &&& r is Some
                &&& r->0.webhook == (WebhookEvent {
                    event_type: WebhookEventType::InvoicePaymentFailed,
                    invoice_id,
                    state: InvoiceState::Open,
                })
                &&& !r->0.mark_invoice_paid_if_open
            },
            _ => r is None,
        },
        !(outcome is Responded) ==> r is None,
{
}

/// The HTTP status of each payment answer: 200 for a charge made, 402 for a
/// declined one, 202 while the outcome is pending; and the status stored for
/// each attempt update.
pub proof fn lemma_payment_answer_statuses(invoice_id: u128, psp_ref: Option<String>, code: String)
    ensures
        (PaymentResponse::Succeeded { invoice_id }).spec_http_status() == 200,
        PaymentResponse::Failed.spec_http_status() == 402,
        PaymentResponse::Processing.spec_http_status() == 202,
        (PaymentResponse::Succeeded { invoice_id }).status_name() == "succeeded"@,
        PaymentResponse::Failed.status_name() == "failed"@,
        PaymentResponse::Processing.status_name() == "processing"@,
        (AttemptUpdate::Succeeded { psp_ref }).status_name() == "succeeded"@,
        (AttemptUpdate::Failed { failure_code: code }).status_name() == "failed"@,
        AttemptUpdate::Processing.status_name() == "processing"@,
        (AttemptUpdate::Unknown { failure_code: code }).status_name() == "unknown"@,
{
}

} // verus!
