//! Rules on invoices: which state changes are allowed, what a state change
//! announces, and what a new invoice is due.
use vstd::prelude::*;
use crate::application::dto::{CreateInvoiceRequest, CreateLineItemRequest};
use crate::domain::entities::webhook_event::{WebhookEvent, WebhookEventType};
use crate::domain::value_objects::invoice_state::InvoiceState;
use crate::shared::errors::AppError;
use crate::shared::text::str_equals;

verus! {

/// The error of a state change that the lifecycle does not allow.
pub open spec fn invalid_transition() -> AppError {
    AppError::Conflict("invalid_state_transition", "Invalid invoice state transition")
}

/// Succeeds exactly when the invoice, whose stored state is `current`, may
/// move to `next`; an unknown stored state counts as a draft.
pub fn ensure_transition(current: &str, next: InvoiceState) -> (res: Result<(), AppError>)
    ensures
        res is Ok <==> InvoiceState::from_name(current@).allows(next),
        res matches Err(e) ==> e == invalid_transition(),
{
    let current = InvoiceState::parse(current);
    if current.can_transition_to(&next) {
        Ok(())
    } else {
        Err(AppError::Conflict("invalid_state_transition", "Invalid invoice state transition"))
    }
}

/// What a permitted state change does besides storing the new state.
#[derive(Debug)]
pub struct TransitionPlan {
    /// The event put in the outbox in the same transaction, if any.
    pub webhook: Option<WebhookEvent>,
}

/// Plans moving an invoice from its stored state `current` to the requested
/// state `next`: refused as `ensure_transition` refuses it; finalizing
/// (moving to "open") announces `invoice.created`.
pub fn plan_transition(invoice_id: u128, current: &str, next: &str) -> (res: Result<
    TransitionPlan,
    AppError,
>)
    ensures
        res is Ok <==> InvoiceState::from_name(current@).allows(InvoiceState::from_name(next@)),
        res matches Err(e) ==> e == invalid_transition(),
        res matches Ok(plan) ==> plan.webhook == (if next@ == "open"@ {
            Some(
                WebhookEvent {
                    event_type: WebhookEventType::InvoiceCreated,
                    invoice_id,
                    state: InvoiceState::Open,
                },
            )
        } else {
            None
        }),
{
    let next_state = InvoiceState::parse(next);
    match ensure_transition(current, next_state) {
        Err(e) => Err(e),
        Ok(()) => {
            let webhook = if str_equals(next, "open") {
                Some(
                    WebhookEvent {
                        event_type: WebhookEventType::InvoiceCreated,
                        invoice_id,
                        state: InvoiceState::Open,
                    },
                )
            } else {
                None
            };
            Ok(TransitionPlan { webhook })
        },
    }
}

/// The amount of one line: quantity times unit amount.
pub open spec fn line_amount(item: CreateLineItemRequest) -> int {
    item.quantity * item.unit_amount_cents
}

/// The sum of the line amounts, added from the first line on.
pub open spec fn lines_total(items: Seq<CreateLineItemRequest>) -> int
    decreases items.len(),
{
    if items.len() == 0 {
        0
    } else {
        lines_total(items.drop_last()) + line_amount(items.last())
    }
}

/// Each line amount and each running total fits in an `i32`, as the
/// computation of the amount due requires.
pub open spec fn total_fits_i32(items: Seq<CreateLineItemRequest>) -> bool {
    &&& forall|i: int|
        0 <= i < items.len() ==> i32::MIN <= #[trigger] line_amount(items[i]) <= i32::MAX
    &&& forall|k: int|
        0 <= k <= items.len() ==> i32::MIN <= #[trigger] lines_total(items.take(k)) <= i32::MAX
}

/// The error of an invoice without lines.
pub open spec fn line_items_required() -> AppError {
    AppError::BadRequest("line_items_required", "At least one line item is required")
}

/// The amount due of a new invoice: refused when it has no line, else the
/// sum of quantity times unit amount over its lines.
pub fn invoice_total(req: &CreateInvoiceRequest) -> (res: Result<i32, AppError>)
    requires
        total_fits_i32(req.line_items@),
    ensures
        res is Err <==> req.line_items@.len() == 0,
        res matches Err(e) ==> e == line_items_required(),
        res matches Ok(total) ==> total == lines_total(req.line_items@),
        req.line_items@.len() == 1 ==> res == Ok::<i32, AppError>(
            (req.line_items@[0].quantity * req.line_items@[0].unit_amount_cents) as i32,
        ),
{
    if req.line_items.len() == 0 {
        return Err(AppError::BadRequest("line_items_required", "At least one line item is required"));
    }
    let ghost items = req.line_items@;
    let n = req.line_items.len();
    let mut total: i32 = 0;
    let mut i: usize = 0;
    assert(items.take(0) =~= Seq::<CreateLineItemRequest>::empty());
    while i < n
        invariant
            n == items.len(),
            items == req.line_items@,
            total_fits_i32(items),
            i <= n,
            total == lines_total(items.take(i as int)),
        decreases n - i,
    {
        let item = &req.line_items[i];
        assert(items.take(i + 1).drop_last() =~= items.take(i as int));
        assert(items.take(i + 1).last() == items[i as int]);
        assert(i32::MIN <= line_amount(items[i as int]) <= i32::MAX);
        let amount = item.quantity * item.unit_amount_cents;
        assert(i32::MIN <= lines_total(items.take(i + 1)) <= i32::MAX);
        total = total + amount;
        i = i + 1;
    }
    assert(items.take(n as int) =~= items);
    Ok(total)
}

/// The amount due adds up every line: with no line it is zero, and adding a
/// line adds that line's quantity times its unit amount, wherever the line
/// stands; so the amount due of two lists one after the other is the sum of
/// their amounts due.
pub proof fn lemma_every_line_counts(
    items: Seq<CreateLineItemRequest>,
    item: CreateLineItemRequest,
    more: Seq<CreateLineItemRequest>,
)
    ensures
        lines_total(Seq::<CreateLineItemRequest>::empty()) == 0,
        lines_total(items.push(item)) == lines_total(items) + item.quantity * item.unit_amount_cents,
        lines_total(items + more) == lines_total(items) + lines_total(more),
    decreases more.len(),
{
    assert(items.push(item).drop_last() =~= items);
    if more.len() == 0 {
        assert(items + more =~= items);
    } else {
        lemma_every_line_counts(items, item, more.drop_last());
        assert((items + more).drop_last() =~= items + more.drop_last());
        assert((items + more).last() == more.last());
    }
}

} // verus!
