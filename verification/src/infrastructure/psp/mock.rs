//! The behaviour of the development PSP: what it answers to each test token.
//! Like a real PSP it remembers the idempotency keys it was asked with: a
//! charge whose answer the client gave up waiting for still completes, and
//! asking again under the same key gets its outcome at once.
use vstd::prelude::*;
use crate::config::settings::timeout_or_default;
use crate::domain::services::payment_service::{
    balance_after_recovery, balance_after_settlement, payable_amount, paid_event, recovers, settles,
    Balance, ChargeOutcome, PaymentResponse, PaymentSettlement, PspChargeResponse, RecoveryPlan,
};
use crate::shared::text::str_equals;

verus! {

/// The mock PSP's reply to a charge: how long it waits first, the HTTP
/// status, and the body's status (`succeeded` or `failed`, a succeeded
/// charge getting a fresh reference) and failure code.
#[derive(Debug, Clone, Copy)]
pub struct MockChargeReply {
    pub delay_ms: u64,
    pub http_status: u16,
    pub succeeded: bool,
    pub code: Option<&'static str>,
}

impl MockChargeReply {
    pub open spec fn status_name(&self) -> Seq<char> {
        if self.succeeded {
            "succeeded"@
        } else {
            "failed"@
        }
    }

    /// The `status` field of the reply's body.
    pub fn status(&self) -> (res: &'static str)
        ensures
            res@ == self.status_name(),
    {
        if self.succeeded {
            "succeeded"
        } else {
            "failed"
        }
    }
}

/// The reply to a charge with payment token `token`; `repeated` tells
/// whether a charge under the same idempotency key was made before. A
/// `tok_timeout` charge answers only after 30 seconds the first time, and at
/// once when asked again.
pub open spec fn spec_mock_reply(token: Seq<char>, repeated: bool) -> (
    u64,
    u16,
    bool,
    Option<Seq<char>>,
) {
    if token == "tok_success"@ {
        (100, 200, true, None)
    } else if token == "tok_insufficient_funds"@ {
        (0, 200, false, Some("insufficient_funds"@))
    } else if token == "tok_card_declined"@ {
        (0, 200, false, Some("card_declined"@))
    } else if token == "tok_timeout"@ {
        if repeated {
            (0, 200, true, None)
        } else {
            (30000, 200, true, None)
        }
    } else if token == "tok_network_error"@ {
        (0, 500, false, Some("network_error"@))
    } else {
        (0, 200, false, Some("invalid_token"@))
    }
}

pub open spec fn reply_view(reply: MockChargeReply) -> (u64, u16, bool, Option<Seq<char>>) {
    (reply.delay_ms, reply.http_status, reply.succeeded, match reply.code {
        Some(c) => Some(c@),
        None => None,
    })
}

/// The reply of the mock PSP to a charge with payment token `token`.
pub fn mock_charge_reply(token: &str, repeated: bool) -> (res: MockChargeReply)
    ensures
        reply_view(res) == spec_mock_reply(token@, repeated),
{
    if str_equals(token, "tok_success") {
        MockChargeReply { delay_ms: 100, http_status: 200, succeeded: true, code: None }
    } else if str_equals(token, "tok_insufficient_funds") {
        MockChargeReply { delay_ms: 0, http_status: 200, succeeded: false, code: Some("insufficient_funds") }
    } else if str_equals(token, "tok_card_declined") {
        MockChargeReply { delay_ms: 0, http_status: 200, succeeded: false, code: Some("card_declined") }
    } else if str_equals(token, "tok_timeout") {
        if repeated {
            MockChargeReply { delay_ms: 0, http_status: 200, succeeded: true, code: None }
        } else {
            MockChargeReply { delay_ms: 30000, http_status: 200, succeeded: true, code: None }
        }
    } else if str_equals(token, "tok_network_error") {
        MockChargeReply { delay_ms: 0, http_status: 500, succeeded: false, code: Some("network_error") }
    } else {
        MockChargeReply { delay_ms: 0, http_status: 200, succeeded: false, code: Some("invalid_token") }
    }
}

/// The idempotency keys the mock PSP has been charged under.
#[derive(Debug)]
pub struct MockPspLedger {
    seen: Vec<String>,
}

impl MockPspLedger {
    pub closed spec fn keys(&self) -> Seq<Seq<char>> {
        self.seen@.map_values(|k: String| k@)
    }

    pub fn new() -> (res: MockPspLedger)
        ensures
            res.keys() == Seq::<Seq<char>>::empty(),
    {
        let res = MockPspLedger { seen: Vec::new() };
        assert(res.keys() =~= Seq::<Seq<char>>::empty());
        res
    }

    /// Takes a charge with payment token `token` under `idempotency_key`:
    /// remembers the key and answers as `mock_charge_reply` says, a charge
    /// counting as repeated when its key was seen before.
    pub fn charge(&mut self, token: &str, idempotency_key: &str) -> (res: MockChargeReply)
        ensures
            final(self).keys() == (if old(self).keys().contains(idempotency_key@) {
                old(self).keys()
            } else {
                old(self).keys().push(idempotency_key@)
            }),
            reply_view(res) == spec_mock_reply(token@, old(self).keys().contains(idempotency_key@)),
    {
        let n = self.seen.len();
        let mut i: usize = 0;
        let mut repeated = false;
        while i < n
            invariant
                n == self.seen@.len(),
                i <= n,
                repeated == (exists|j: int| 0 <= j < i && #[trigger] self.seen@[j]@ == idempotency_key@),
            decreases n - i,
        {
            if str_equals(self.seen[i].as_str(), idempotency_key) {
                repeated = true;
            }
            i = i + 1;
        }
        let ghost before = self.keys();
        proof {
            if repeated {
                let j = choose|j: int| 0 <= j < n && #[trigger] self.seen@[j]@ == idempotency_key@;
                assert(before[j] == idempotency_key@);
            } else {
                assert forall|j: int| 0 <= j < before.len() implies before[j] != idempotency_key@ by {
                    assert(before[j] == self.seen@[j]@);
                }
            }
        }
        assert(repeated == before.contains(idempotency_key@));
        if !repeated {
            self.seen.push(String::from_str(idempotency_key));
            assert(self.keys() =~= before.push(idempotency_key@));
        }
        mock_charge_reply(token, repeated)
    }
}

/// A `tok_timeout` payment under the default PSP timeout: the first charge
/// answers after 30 seconds, later than the 5 second timeout, so the payment
/// ends as a timeout, answers 202 and leaves the invoice open; when the
/// recovery charges again under the same idempotency key, the mock PSP
/// answers at once that the charge succeeded, and the still-open invoice
/// becomes paid in full.
pub proof fn lemma_timed_out_payment_is_paid_by_recovery(
    invoice_id: u128,
    balance: Balance,
    keys: Seq<Seq<char>>,
    key: Seq<char>,
    s: PaymentSettlement,
    resp: PspChargeResponse,
    plan: Option<RecoveryPlan>,
)
    requires
        payable_amount(balance) is Ok,
        !keys.contains(key),
        settles(invoice_id, ChargeOutcome::TimedOut, s),
        resp.status@ == (if spec_mock_reply("tok_timeout"@, true).2 {
            "succeeded"@
        } else {
            "failed"@
        }),
        recovers(invoice_id, ChargeOutcome::Responded(resp), plan),
    ensures
        timeout_or_default(None) as int * 1000 < spec_mock_reply("tok_timeout"@, false).0,
        keys.push(key).contains(key),
        spec_mock_reply("tok_timeout"@, true).0 == 0,
        spec_mock_reply("tok_timeout"@, true).1 == 200,
        s.response == PaymentResponse::Processing,
        balance_after_settlement(balance, s.mark_invoice_paid) == balance,
        plan matches Some(p) && p.webhook == paid_event(invoice_id) && balance_after_recovery(
            balance,
            p.mark_invoice_paid_if_open,
        ) == ("paid"@, balance.1, balance.1),
{
    reveal_strlit("tok_timeout");
    reveal_strlit("tok_success");
    reveal_strlit("tok_insufficient_funds");
    reveal_strlit("tok_card_declined");
    assert("tok_timeout"@[4] != "tok_success"@[4]);
    assert("tok_timeout"@.len() != "tok_insufficient_funds"@.len());
    assert("tok_timeout"@.len() != "tok_card_declined"@.len());
    assert(keys.push(key)[keys.len() as int] == key);
}

} // verus!
