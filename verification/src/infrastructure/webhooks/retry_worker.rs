//! Webhook delivery rounds: an outbox event is sent to every enabled endpoint
//! of its business; an event that could not be delivered is retried on a
//! fixed schedule, then moved to the dead letters.
use vstd::prelude::*;

verus! {

/// The wait, in minutes, before the next delivery of an event that failed
/// after `attempt` earlier retries; none once the schedule is used up.
pub open spec fn retry_delay(attempt: int) -> Option<int> {
    if attempt == 0 {
        Some(1)
    } else if attempt == 1 {
        Some(10)
    } else if attempt == 2 {
        Some(60)
    } else if attempt == 3 {
        Some(360)
    } else if attempt == 4 {
        Some(720)
    } else {
        None
    }
}

pub fn retry_delay_minutes(attempt: i32) -> (res: Option<i64>)
    ensures
        match retry_delay(attempt as int) {
            Some(d) => res == Some(d as i64),
            None => res is None,
        },
{
    match attempt {
        0 => Some(1),
        1 => Some(10),
        2 => Some(60),
        3 => Some(360),
        4 => Some(720),
        _ => None,
    }
}

/// What becomes of an outbox event after a delivery round.
#[derive(Debug, Clone, Copy, PartialEq, Eq, Structural)]
pub enum DeliveryAction {
    /// Every endpoint accepted it: it is marked delivered.
    MarkDelivered,
    /// Its attempt count goes up by one and it is due again after the delay.
    Retry { delay_minutes: i64 },
    /// The schedule is used up: it is copied to the dead letters with the
    /// error `retry_exhausted` and marked delivered.
    DeadLetter,
}

pub open spec fn delivery_action(delivered: bool, attempts: int) -> DeliveryAction {
    if delivered {
        DeliveryAction::MarkDelivered
    } else {
        match retry_delay(attempts) {
            Some(d) => DeliveryAction::Retry { delay_minutes: d as i64 },
            None => DeliveryAction::DeadLetter,
        }
    }
}

/// One delivery round of one event. The event counts as delivered only if
/// it has at least one endpoint and every endpoint accepted it; once an
/// endpoint refuses it, it is not sent to the remaining endpoints.
#[derive(Debug)]
pub struct DeliveryRound {
    pub delivered: bool,
}

impl DeliveryRound {
    /// Starts a round for an event whose business has `endpoint_count`
    /// enabled endpoints.
    pub fn new(endpoint_count: usize) -> (res: DeliveryRound)
        ensures
            res.delivered == (endpoint_count > 0),
    {
        DeliveryRound { delivered: endpoint_count > 0 }
    }

    /// Whether the event is sent to the next endpoint.
    pub fn should_dispatch(&self) -> (res: bool)
        ensures
            res == self.delivered,
    {
        self.delivered
    }

    /// Takes in whether the endpoint just sent to accepted the event.
    pub fn record(&mut self, accepted: bool)
        ensures
            final(self).delivered == (old(self).delivered && accepted),
    {
        self.delivered = self.delivered && accepted;
    }

    /// What becomes of the event, whose attempt count is `attempts`, after
    /// this round.
    pub fn finish(&self, attempts: i32) -> (res: DeliveryAction)
        ensures
            res == delivery_action(self.delivered, attempts as int),
    {
        if self.delivered {
            DeliveryAction::MarkDelivered
        } else {
            match retry_delay_minutes(attempts) {
                Some(delay_minutes) => DeliveryAction::Retry { delay_minutes },
                None => DeliveryAction::DeadLetter,
            }
        }
    }
}

/// The retry schedule: a delay exists exactly for the first five retries,
/// and each delay is longer than the one before.
pub proof fn lemma_retry_schedule_grows(a: int, b: int)
    ensures
        retry_delay(a) is Some <==> 0 <= a <= 4,
        0 <= a < b <= 4 ==> retry_delay(a)->0 < retry_delay(b)->0,
{
}

/// The attempt count of an event after a round that ends with `action`.
pub open spec fn attempts_after(attempts: int, action: DeliveryAction) -> int {
    match action {
        DeliveryAction::Retry { .. } => attempts + 1,
        _ => attempts,
    }
}

/// An event that is never accepted, starting from no attempt, is retried
/// five times, after 1, 10, 60, 360 and 720 minutes, and on its sixth failed
/// round is moved to the dead letters; an accepted event is marked delivered
/// whatever its attempt count.
pub proof fn lemma_undeliverable_event_is_dead_lettered(attempts: int)
    ensures
        delivery_action(false, 0) == (DeliveryAction::Retry { delay_minutes: 1 }),
        delivery_action(false, 1) == (DeliveryAction::Retry { delay_minutes: 10 }),
        delivery_action(false, 2) == (DeliveryAction::Retry { delay_minutes: 60 }),
        delivery_action(false, 3) == (DeliveryAction::Retry { delay_minutes: 360 }),
        delivery_action(false, 4) == (DeliveryAction::Retry { delay_minutes: 720 }),
        delivery_action(false, 5) == DeliveryAction::DeadLetter,
        0 <= attempts < 5 ==> attempts_after(attempts, delivery_action(false, attempts)) == attempts + 1,
        attempts >= 5 ==> delivery_action(false, attempts) == DeliveryAction::DeadLetter,
        delivery_action(true, attempts) == DeliveryAction::MarkDelivered,
{
}

/// A round delivers the event only if it has an endpoint and no endpoint
/// refused it: one refusal anywhere makes the whole round fail.
pub proof fn lemma_one_refusal_fails_the_round(start: bool, accepted: Seq<bool>)
    ensures
        accepted.fold_left(start, |ok: bool, a: bool| ok && a) == (start && forall|i: int|
            0 <= i < accepted.len() ==> accepted[i]),
    decreases accepted.len(),
{
    if accepted.len() > 0 {
        lemma_one_refusal_fails_the_round(start, accepted.drop_last());
        assert(accepted.drop_last().len() == accepted.len() - 1);
        assert forall|i: int| 0 <= i < accepted.len() - 1 implies accepted.drop_last()[i] == accepted[i] by {}
    }
}

} // verus!
