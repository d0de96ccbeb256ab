//! The lifecycle of an invoice: draft, open, paid, void, uncollectible.
use vstd::prelude::*;
use crate::shared::text::str_equals;

verus! {

/// The state of an invoice.
#[derive(Clone, Copy, Debug, PartialEq, Eq, Structural)]
pub enum InvoiceState {
    Draft,
    Open,
    Paid,
    Void,
    Uncollectible,
}

impl InvoiceState {
    /// The name under which the state is stored and shown.
    pub open spec fn name(self) -> Seq<char> {
        match self {
            InvoiceState::Draft => "draft"@,
            InvoiceState::Open => "open"@,
            InvoiceState::Paid => "paid"@,
            InvoiceState::Void => "void"@,
            InvoiceState::Uncollectible => "uncollectible"@,
        }
    }

    /// The state that a stored name denotes; an unknown name denotes `Draft`.
    pub open spec fn from_name(value: Seq<char>) -> InvoiceState {
        if value == "open"@ {
            InvoiceState::Open
        } else if value == "paid"@ {
            InvoiceState::Paid
        } else if value == "void"@ {
            InvoiceState::Void
        } else if value == "uncollectible"@ {
            InvoiceState::Uncollectible
        } else {
            InvoiceState::Draft
        }
    }

    /// The moves of the lifecycle: a draft is finalized or voided, an open
    /// invoice is paid, voided or written off.
    pub open spec fn allows(self, next: InvoiceState) -> bool {
        match (self, next) {
            (InvoiceState::Draft, InvoiceState::Open) => true,
            (InvoiceState::Draft, InvoiceState::Void) => true,
            (InvoiceState::Open, InvoiceState::Paid) => true,
            (InvoiceState::Open, InvoiceState::Void) => true,
            (InvoiceState::Open, InvoiceState::Uncollectible) => true,
            _ => false,
        }
    }

    /// How far along the lifecycle a state is.
    pub open spec fn rank(self) -> int {
        match self {
            InvoiceState::Draft => 0,
            InvoiceState::Open => 1,
            _ => 2,
        }
    }

    /// Paid, void and uncollectible invoices are settled for good.
    pub open spec fn is_terminal(self) -> bool {
        match self {
            InvoiceState::Paid | InvoiceState::Void | InvoiceState::Uncollectible => true,
            _ => false,
        }
    }

    pub fn as_str(&self) -> (res: &'static str)
        ensures
            res@ == self.name(),
    {
        match self {
            InvoiceState::Draft => "draft",
            InvoiceState::Open => "open",
            InvoiceState::Paid => "paid",
            InvoiceState::Void => "void",
            InvoiceState::Uncollectible => "uncollectible",
        }
    }

    pub fn parse(value: &str) -> (res: InvoiceState)
        ensures
            res == InvoiceState::from_name(value@),
    {
        if str_equals(value, "open") {
            InvoiceState::Open
        } else if str_equals(value, "paid") {
            InvoiceState::Paid
        } else if str_equals(value, "void") {
            InvoiceState::Void
        } else if str_equals(value, "uncollectible") {
            InvoiceState::Uncollectible
        } else {
            InvoiceState::Draft
        }
    }

    pub fn can_transition_to(&self, next: &InvoiceState) -> (res: bool)
        ensures
            res == self.allows(*next),
    {
        match (self, next) {
            (InvoiceState::Draft, InvoiceState::Open) => true,
            (InvoiceState::Draft, InvoiceState::Void) => true,
            (InvoiceState::Open, InvoiceState::Paid) => true,
            (InvoiceState::Open, InvoiceState::Void) => true,
            (InvoiceState::Open, InvoiceState::Uncollectible) => true,
            _ => false,
        }
    }
}

/// Reading back the stored name of a state gives the state itself.
pub proof fn lemma_parse_as_str_roundtrip(state: InvoiceState)
    ensures
        InvoiceState::from_name(state.name()) == state,
{
    reveal_strlit("draft");
    reveal_strlit("open");
    reveal_strlit("paid");
    reveal_strlit("void");
    reveal_strlit("uncollectible");
    assert("open"@[0] != "draft"@[0]);
    assert("paid"@[0] != "open"@[0]);
    assert("void"@[0] != "open"@[0] && "void"@[0] != "paid"@[0]);
    assert("uncollectible"@.len() != "open"@.len() && "uncollectible"@.len() != "paid"@.len()
        && "uncollectible"@.len() != "void"@.len());
    assert("draft"@.len() != "open"@.len() && "draft"@.len() != "paid"@.len()
        && "draft"@.len() != "void"@.len() && "draft"@.len() != "uncollectible"@.len());
}

/// Every allowed transition moves strictly forward along the lifecycle, so no
/// state is ever re-entered and no state transitions to itself.
pub proof fn lemma_transitions_move_forward(from: InvoiceState, to: InvoiceState)
    ensures
        from.allows(to) ==> from.rank() < to.rank(),
        !from.allows(from),
{
}

/// A paid, void or uncollectible invoice admits no further transition.
pub proof fn lemma_terminal_states_are_final(from: InvoiceState, to: InvoiceState)
    ensures
        from.is_terminal() ==> !from.allows(to),
{
}

/// Only an open invoice can become paid, and a draft can only be finalized
/// or voided.
pub proof fn lemma_paid_only_from_open(from: InvoiceState)
    ensures
        from.allows(InvoiceState::Paid) <==> from == InvoiceState::Open,
        from == InvoiceState::Draft ==> forall|to: InvoiceState|
            from.allows(to) ==> (to == InvoiceState::Open || to == InvoiceState::Void),
{
}

/// The stored names of the states, and the moves of the lifecycle: exactly
/// draft to open or void, and open to paid, void or uncollectible.
pub proof fn lemma_lifecycle_table(from: InvoiceState, to: InvoiceState)
    ensures
        InvoiceState::Draft.name() == "draft"@,
        InvoiceState::Open.name() == "open"@,
        InvoiceState::Paid.name() == "paid"@,
        InvoiceState::Void.name() == "void"@,
        InvoiceState::Uncollectible.name() == "uncollectible"@,
        from.allows(to) <==> ((from == InvoiceState::Draft && (to == InvoiceState::Open || to
            == InvoiceState::Void)) || (from == InvoiceState::Open && (to == InvoiceState::Paid || to
            == InvoiceState::Void || to == InvoiceState::Uncollectible))),
{
}

/// A stored name that is none of the five names reads as a draft.
pub proof fn lemma_unknown_name_is_draft(value: Seq<char>)
    requires
        value != "open"@,
        value != "paid"@,
        value != "void"@,
        value != "uncollectible"@,
    ensures
        InvoiceState::from_name(value) == InvoiceState::Draft,
{
}

} // verus!
