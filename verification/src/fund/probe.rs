//! The retry loop of one worker: consume units of one amount until the
//! upstream says that no more is left.
//!
//! The loop itself is run by the caller, which sends each probe and reports
//! what came of it. [`ProbeLoop`] holds what the loop has to remember and
//! decides after each attempt whether it goes on.

use vstd::prelude::*;
use crate::fund::wire::{fresh_uuid, Probe, ProbeOutcome};

verus! {

/// What came of one attempt: an answer, or no answer within the time the
/// caller allows.
#[derive(Debug, Clone, Copy, PartialEq, Eq, Structural)]
pub enum Attempt {
    Answered(ProbeOutcome),
    TimedOut,
}

/// What the loop does after an attempt.
#[derive(Debug, Clone, Copy, PartialEq, Eq, Structural)]
pub enum ProbeStep {
    /// Probe again.
    Retry,
    /// Stop; the worker contributes this many cents.
    Done(i64),
}

/// What a worker contributes when the upstream turns out not to know the
/// user after it has debited units for that very user.
#[derive(Debug, Clone, Copy, PartialEq, Eq, Structural)]
pub enum NotFoundPolicy {
    /// Nothing: the earlier debits are taken to be spurious.
    Discard,
    /// What was accumulated, as after `Insufficient`.
    Keep,
}

/// Whether the attempt is a definite debit.
pub open spec fn is_consumed(attempt: Attempt) -> bool {
    attempt matches Attempt::Answered(ProbeOutcome::Consumed(_))
}

/// Whether the attempt leaves open what the upstream did: a local timeout, a
/// gateway timeout, a transport error or an unknown business code.
pub open spec fn is_transient(attempt: Attempt) -> bool {
    match attempt {
        Attempt::TimedOut => true,
        Attempt::Answered(ProbeOutcome::BusinessOther(_)) => true,
        Attempt::Answered(ProbeOutcome::GatewayTimeout) => true,
        Attempt::Answered(ProbeOutcome::TransportError) => true,
        _ => false,
    }
}

/// What the loop has accumulated after an attempt: one more unit after a
/// definite debit, the same as before otherwise.
pub open spec fn accumulated_after(accumulated: int, amount: int, attempt: Attempt) -> int {
    if is_consumed(attempt) {
        accumulated + amount
    } else {
        accumulated
    }
}

/// What the loop does after an attempt, having accumulated `accumulated`
/// before it: `Insufficient` ends it with what was accumulated, `NotFound`
/// ends it with nothing, or with what was accumulated where the policy is to
/// keep it, and everything else calls for another probe.
pub open spec fn step_after(accumulated: i64, policy: NotFoundPolicy, attempt: Attempt)
    -> ProbeStep {
    match attempt {
        Attempt::Answered(ProbeOutcome::Insufficient) => ProbeStep::Done(accumulated),
        Attempt::Answered(ProbeOutcome::NotFound) => match policy {
            NotFoundPolicy::Discard => ProbeStep::Done(0),
            NotFoundPolicy::Keep => ProbeStep::Done(accumulated),
        },
        _ => ProbeStep::Retry,
    }
}

/// The state of one worker's loop.
#[derive(Debug, Clone, PartialEq, Eq)]
pub struct ProbeLoop {
    /// The user probed.
    pub uid: i64,
    /// The denomination, in cents.
    pub amount: i64,
    /// What the definite debits so far add up to.
    pub accumulated: i64,
    /// The correlation id of the probe that is under way.
    pub correlation_id: String,
    /// What `NotFound` does to the accumulated amount.
    pub on_not_found: NotFoundPolicy,
}

impl ProbeLoop {
    /// Whether `advance` can take the attempt: a debit must not carry the
    /// accumulated amount out of the range of `i64`.
    pub open spec fn can_take(&self, attempt: Attempt) -> bool {
        is_consumed(attempt) ==> i64::MIN <= self.accumulated + self.amount <= i64::MAX
    }

    /// Whether `advance` can take the attempt.
    pub fn takes(&self, attempt: Attempt) -> (can: bool)
        ensures
            can == self.can_take(attempt),
    {
        match attempt {
            Attempt::Answered(ProbeOutcome::Consumed(_)) => self.accumulated.checked_add(
                self.amount,
            ).is_some(),
            _ => true,
        }
    }

    /// A loop that has consumed nothing yet and probes under the given
    /// correlation id. `NotFound` discards what was accumulated.
    pub fn with_correlation_id(uid: i64, amount: i64, correlation_id: String) -> (state: Self)
        ensures
            state.uid == uid,
            state.amount == amount,
            state.accumulated == 0,
            state.correlation_id == correlation_id,
            state.on_not_found == NotFoundPolicy::Discard,
    {
        ProbeLoop {
            uid,
            amount,
            accumulated: 0,
            correlation_id,
            on_not_found: NotFoundPolicy::Discard,
        }
    }

    /// A loop that has consumed nothing yet and probes under a fresh
    /// correlation id. `NotFound` discards what was accumulated.
    pub fn new(uid: i64, amount: i64) -> (state: Self)
        ensures
            state.uid == uid,
            state.amount == amount,
            state.accumulated == 0,
            state.correlation_id@.len() == 36,
            state.on_not_found == NotFoundPolicy::Discard,
    {
        ProbeLoop::with_correlation_id(uid, amount, fresh_uuid())
    }

    /// The next attempt, sent under the given request id: it asks for one
    /// unit for the loop's user under the loop's correlation id.
    pub fn probe_as(&self, request_id: String) -> (probe: Probe)
        ensures
            probe.uid == self.uid,
            probe.amount == self.amount,
            probe.transaction_id@ == self.correlation_id@,
            probe.request_id == request_id,
    {
        Probe {
            uid: self.uid,
            amount: self.amount,
            transaction_id: self.correlation_id.clone(),
            request_id,
        }
    }

    /// The next attempt, sent under a request id of its own.
    pub fn next_probe(&self) -> (probe: Probe)
        ensures
            probe.uid == self.uid,
            probe.amount == self.amount,
            probe.transaction_id@ == self.correlation_id@,
            probe.request_id@.len() == 36,
    {
        self.probe_as(fresh_uuid())
    }

    /// Takes one attempt into account; should it be a definite debit, the
    /// loop goes on under `next_id`.
    ///
    /// The correlation id changes after a definite debit and at no other
    /// time, so that a retry after an unknown outcome is recognisable as the
    /// same probe.
    pub fn advance_to(&mut self, attempt: Attempt, next_id: String) -> (step: ProbeStep)
        requires
            old(self).can_take(attempt),
        ensures
            step == step_after(old(self).accumulated, old(self).on_not_found, attempt),
            final(self).accumulated == accumulated_after(
                old(self).accumulated as int,
                old(self).amount as int,
                attempt,
            ),
            final(self).correlation_id == (if is_consumed(attempt) {
                next_id
            } else {
                old(self).correlation_id
            }),
            final(self).uid == old(self).uid,
            final(self).amount == old(self).amount,
            final(self).on_not_found == old(self).on_not_found,
    {
        match attempt {
            Attempt::Answered(ProbeOutcome::Consumed(_)) => {
                self.accumulated = self.accumulated + self.amount;
                self.correlation_id = next_id;
                ProbeStep::Retry
            },
            Attempt::Answered(ProbeOutcome::Insufficient) => ProbeStep::Done(self.accumulated),
            Attempt::Answered(ProbeOutcome::NotFound) => match self.on_not_found {
                NotFoundPolicy::Discard => ProbeStep::Done(0),
                NotFoundPolicy::Keep => ProbeStep::Done(self.accumulated),
            },
            _ => ProbeStep::Retry,
        }
    }

    /// Takes one attempt into account; after a definite debit the loop goes
    /// on under a fresh correlation id, after anything else under the one it
    /// had.
    pub fn advance(&mut self, attempt: Attempt) -> (step: ProbeStep)
        requires
            old(self).can_take(attempt),
        ensures
            step == step_after(old(self).accumulated, old(self).on_not_found, attempt),
            final(self).accumulated == accumulated_after(
                old(self).accumulated as int,
                old(self).amount as int,
                attempt,
            ),
            !is_consumed(attempt) ==> final(self).correlation_id == old(self).correlation_id,
            is_consumed(attempt) ==> final(self).correlation_id@.len() == 36,
            final(self).uid == old(self).uid,
            final(self).amount == old(self).amount,
            final(self).on_not_found == old(self).on_not_found,
    {
        match attempt {
            Attempt::Answered(ProbeOutcome::Consumed(_)) => self.advance_to(attempt, fresh_uuid()),
            _ => self.advance_to(attempt, String::new()),
        }
    }
}

/// What a loop that has accumulated `accumulated` returns when its attempts
/// come out as `attempts`, in this order: the result at the first attempt
/// that ends it, or `None` if the attempts run out before.
pub open spec fn loop_result(
    amount: int,
    accumulated: int,
    policy: NotFoundPolicy,
    attempts: Seq<Attempt>,
) -> Option<int>
    decreases attempts.len(),
{
    if attempts.len() == 0 {
        None
    } else {
        match attempts[0] {
            Attempt::Answered(ProbeOutcome::Insufficient) => Some(accumulated),
            Attempt::Answered(ProbeOutcome::NotFound) => match policy {
                NotFoundPolicy::Discard => Some(0),
                NotFoundPolicy::Keep => Some(accumulated),
            },
            first => loop_result(
                amount,
                accumulated_after(accumulated, amount, first),
                policy,
                attempts.drop_first(),
            ),
        }
    }
}

/// The attempts with every transient one left out.
pub open spec fn without_transients(attempts: Seq<Attempt>) -> Seq<Attempt>
    decreases attempts.len(),
{
    if attempts.len() == 0 {
        attempts
    } else if is_transient(attempts[0]) {
        without_transients(attempts.drop_first())
    } else {
        seq![attempts[0]] + without_transients(attempts.drop_first())
    }
}

/// What a loop at denomination `amount` is answered by an upstream that
/// holds `units` whole units of it, when every answer arrives: one debit per
/// unit, then `Insufficient`.
pub open spec fn answers_of(units: nat, amount: i64) -> Seq<Attempt> {
    Seq::new(
        units + 1,
        |i: int|
            if i < units {
                Attempt::Answered(ProbeOutcome::Consumed(amount))
            } else {
                Attempt::Answered(ProbeOutcome::Insufficient)
            },
    )
}

/// One run of the loop over a single attempt is what `step_after` decides.
pub proof fn lemma_single_attempt(
    amount: int,
    accumulated: i64,
    policy: NotFoundPolicy,
    attempt: Attempt,
)
    ensures
        loop_result(amount, accumulated as int, policy, seq![attempt]) == (match step_after(
            accumulated,
            policy,
            attempt,
        ) {
            ProbeStep::Done(result) => Some(result as int),
            ProbeStep::Retry => None,
        }),
{
    assert(seq![attempt].drop_first().len() == 0);
    assert(loop_result(
        amount,
        accumulated_after(accumulated as int, amount, attempt),
        policy,
        seq![attempt].drop_first(),
    ) is None);
}

/// Attempts that leave the outcome open change nothing: the loop returns
/// what it would return had they never been made.
pub proof fn lemma_transients_do_not_count(
    amount: int,
    accumulated: int,
    policy: NotFoundPolicy,
    attempts: Seq<Attempt>,
)
    ensures
        loop_result(amount, accumulated, policy, attempts) == loop_result(
            amount,
            accumulated,
            policy,
            without_transients(attempts),
        ),
    decreases attempts.len(),
{
    if attempts.len() > 0 {
        let first = attempts[0];
        let rest = attempts.drop_first();
        lemma_transients_do_not_count(
            amount,
            accumulated_after(accumulated, amount, first),
            policy,
            rest,
        );
        if !is_transient(first) {
            let kept = seq![first] + without_transients(rest);
            assert(kept[0] == first);
            assert(kept.drop_first() =~= without_transients(rest));
        }
    }
}

/// Against an upstream that holds `units` whole units of the denomination,
/// the loop returns the units times the denomination on top of what it had.
proof fn lemma_units_accumulate(
    amount: i64,
    accumulated: int,
    policy: NotFoundPolicy,
    units: nat,
)
    ensures
        loop_result(amount as int, accumulated, policy, answers_of(units, amount)) == Some(
            accumulated + units * amount,
        ),
    decreases units,
{
    let answers = answers_of(units, amount);
    if units > 0 {
        assert(is_consumed(answers[0]));
        assert(answers.drop_first() =~= answers_of((units - 1) as nat, amount));
        lemma_units_accumulate(amount, accumulated + amount, policy, (units - 1) as nat);
        assert(accumulated + amount + (units - 1) * amount == accumulated + units * amount)
            by (nonlinear_arith);
    } else {
        assert(answers[0] == Attempt::Answered(ProbeOutcome::Insufficient));
        assert(units * amount == 0);
    }
}

/// A loop at denomination `amount`, run against an upstream that holds
/// `balance`, returns the whole units that fit into the balance:
/// `balance / amount` times `amount`.
pub proof fn lemma_loop_drains_whole_units(balance: int, amount: i64, policy: NotFoundPolicy)
    requires
        balance >= 0,
        amount > 0,
    ensures
        loop_result(
            amount as int,
            0,
            policy,
            answers_of((balance / amount as int) as nat, amount),
        ) == Some((balance / amount as int) * amount),
{
    assert(balance / amount as int >= 0) by (nonlinear_arith)
        requires
            balance >= 0,
            amount > 0,
    ;
    lemma_units_accumulate(amount, 0, policy, (balance / amount as int) as nat);
}

/// The same holds however many attempts time out or fail in between, as
/// long as the definite answers are those of an upstream that holds
/// `balance`.
pub proof fn lemma_loop_survives_transients(
    balance: int,
    amount: i64,
    policy: NotFoundPolicy,
    attempts: Seq<Attempt>,
)
    requires
        balance >= 0,
        amount > 0,
        without_transients(attempts) == answers_of((balance / amount as int) as nat, amount),
    ensures
        loop_result(amount as int, 0, policy, attempts) == Some(
            (balance / amount as int) * amount,
        ),
{
    lemma_transients_do_not_count(amount as int, 0, policy, attempts);
    lemma_loop_drains_whole_units(balance, amount, policy);
}

} // verus!
