//! A model of the upstream, to state what probe loops achieve against it.
//!
//! The upstream debits an account when it is asked for an amount that the
//! account holds, and recognises a correlation id that it has served: asked
//! again under that id, it confirms the debit without making another.
//! Requests and answers may get lost on the way.
//!
//! The first part follows a single loop, the second any number of workers
//! whose attempts fall in any order.

use vstd::prelude::*;
use vstd::arithmetic::div_mod::{
    lemma_basic_div, lemma_fundamental_div_mod, lemma_fundamental_div_mod_converse,
};
use crate::fund::discover::drained;
use crate::fund::probe::{accumulated_after, is_consumed, Attempt};
use crate::fund::wire::ProbeOutcome;

verus! {

/// The upstream's side of one account.
pub struct Upstream {
    /// What the account holds, in cents.
    pub balance: int,
    /// The correlation ids under which the account was debited.
    pub served: Set<Seq<char>>,
}

/// What befalls one attempt on its way.
pub enum Fate {
    /// The request arrives and so does the answer.
    Delivered,
    /// The request arrives; the answer is lost.
    AnswerLost,
    /// The request is lost.
    RequestLost,
}

/// What the upstream answers when it is asked for `amount` under `id`.
pub open spec fn answer_of(upstream: Upstream, id: Seq<char>, amount: i64) -> ProbeOutcome {
    if upstream.served.contains(id) || upstream.balance >= amount {
        ProbeOutcome::Consumed(amount)
    } else {
        ProbeOutcome::Insufficient
    }
}

/// The upstream after it was asked for `amount` under `id`: debited, unless
/// it has served the id before or holds too little.
pub open spec fn asked(upstream: Upstream, id: Seq<char>, amount: i64) -> Upstream {
    if !upstream.served.contains(id) && upstream.balance >= amount {
        Upstream { balance: upstream.balance - amount, served: upstream.served.insert(id) }
    } else {
        upstream
    }
}

/// What the worker sees of an attempt with the given fate.
pub open spec fn seen(upstream: Upstream, id: Seq<char>, amount: i64, fate: Fate) -> Attempt {
    match fate {
        Fate::Delivered => Attempt::Answered(answer_of(upstream, id, amount)),
        _ => Attempt::TimedOut,
    }
}

/// The upstream after an attempt with the given fate.
pub open spec fn reached(upstream: Upstream, id: Seq<char>, amount: i64, fate: Fate) -> Upstream {
    match fate {
        Fate::RequestLost => upstream,
        _ => asked(upstream, id, amount),
    }
}

/// A probe loop run against the upstream.
///
/// The loop has accumulated `accumulated`, probes under `ids[0]` and takes
/// the next of `ids` after each definite debit; its attempts meet the
/// `fates` in order. The result is what the loop returns and what the
/// upstream is then, or `None` if the fates or the ids run out before the
/// loop ends.
pub open spec fn run(
    upstream: Upstream,
    amount: i64,
    accumulated: int,
    ids: Seq<Seq<char>>,
    fates: Seq<Fate>,
) -> Option<(int, Upstream)>
    decreases fates.len(),
{
    if fates.len() == 0 || ids.len() == 0 {
        None
    } else {
        let attempt = seen(upstream, ids[0], amount, fates[0]);
        let next = reached(upstream, ids[0], amount, fates[0]);
        if attempt == Attempt::Answered(ProbeOutcome::Insufficient) {
            Some((accumulated, next))
        } else {
            run(
                next,
                amount,
                accumulated_after(accumulated, amount as int, attempt),
                if is_consumed(attempt) {
                    ids.drop_first()
                } else {
                    ids
                },
                fates.drop_first(),
            )
        }
    }
}

/// What holds between a loop and the upstream at every attempt: the ids are
/// all different and only the current one may have been served; what the
/// loop has accumulated is a whole number of units; and that, what the
/// upstream still holds and the unit it may have debited without the loop
/// knowing add up to what the upstream held at first.
spec fn in_step(
    upstream: Upstream,
    amount: i64,
    accumulated: int,
    ids: Seq<Seq<char>>,
    at_first: int,
) -> bool {
    &&& amount > 0
    &&& upstream.balance >= 0
    &&& ids.no_duplicates()
    &&& forall|i: int| 1 <= i < ids.len() ==> !upstream.served.contains(#[trigger] ids[i])
    &&& accumulated % (amount as int) == 0
    &&& accumulated + upstream.balance + (if ids.len() > 0 && upstream.served.contains(ids[0]) {
        amount as int
    } else {
        0
    }) == at_first
}

proof fn lemma_run_keeps_step(
    upstream: Upstream,
    amount: i64,
    accumulated: int,
    ids: Seq<Seq<char>>,
    fates: Seq<Fate>,
    at_first: int,
)
    requires
        in_step(upstream, amount, accumulated, ids, at_first),
        run(upstream, amount, accumulated, ids, fates) is Some,
    ensures
        ({
            let (result, left) = run(upstream, amount, accumulated, ids, fates).unwrap();
            &&& result == drained(at_first, amount as int)
            &&& left.balance == at_first - result
        }),
    decreases fates.len(),
{
    let a = amount as int;
    let attempt = seen(upstream, ids[0], amount, fates[0]);
    let next = reached(upstream, ids[0], amount, fates[0]);
    if attempt == Attempt::Answered(ProbeOutcome::Insufficient) {
        assert(next == upstream);
        lemma_fundamental_div_mod(accumulated, a);
        assert(accumulated == a * (accumulated / a));
        lemma_fundamental_div_mod_converse(at_first, a, accumulated / a, upstream.balance);
        assert(drained(at_first, a) == (accumulated / a) * a);
        assert((accumulated / a) * a == a * (accumulated / a)) by (nonlinear_arith);
    } else {
        let then_accumulated = accumulated_after(accumulated, a, attempt);
        let then_ids = if is_consumed(attempt) {
            ids.drop_first()
        } else {
            ids
        };
        if is_consumed(attempt) {
            assert(next.served.contains(ids[0]));
            assert((accumulated + a) % a == 0) by (nonlinear_arith)
                requires
                    accumulated % a == 0,
                    a > 0,
            ;
            assert forall|i: int| 0 <= i < then_ids.len() implies !next.served.contains(
                #[trigger] then_ids[i],
            ) by {
                assert(then_ids[i] == ids[i + 1]);
            }
            assert(then_ids.no_duplicates()) by {
                assert forall|i: int, j: int|
                    0 <= i < then_ids.len() && 0 <= j < then_ids.len() && i != j implies then_ids[i]
                    != then_ids[j] by {
                    assert(then_ids[i] == ids[i + 1]);
                    assert(then_ids[j] == ids[j + 1]);
                }
            }
        }
        assert(in_step(next, amount, then_accumulated, then_ids, at_first));
        lemma_run_keeps_step(next, amount, then_accumulated, then_ids, fates.drop_first(), at_first);
    }
}

/// Lost requests and lost answers do no harm. Take a loop that starts with
/// nothing accumulated, against an upstream that holds `balance` and has
/// served none of the loop's correlation ids, which are all different.
/// Whatever gets lost on the way: if the loop ends, it returns the whole
/// units that fit into the balance, and the upstream was debited exactly
/// that.
pub proof fn lemma_losses_do_no_harm(
    upstream: Upstream,
    amount: i64,
    ids: Seq<Seq<char>>,
    fates: Seq<Fate>,
)
    requires
        amount > 0,
        upstream.balance >= 0,
        ids.no_duplicates(),
        forall|i: int| 0 <= i < ids.len() ==> !upstream.served.contains(#[trigger] ids[i]),
        run(upstream, amount, 0, ids, fates) is Some,
    ensures
        ({
            let (result, left) = run(upstream, amount, 0, ids, fates).unwrap();
            &&& result == drained(upstream.balance, amount as int)
            &&& left.balance == upstream.balance - result
        }),
{
    assert(0int % (amount as int) == 0) by (nonlinear_arith)
        requires
            amount > 0,
    ;
    lemma_run_keeps_step(upstream, amount, 0, ids, fates, upstream.balance);
}

/// The workers of one extraction, taken together.
pub struct Workers {
    /// What all workers have accumulated, those that have ended included.
    pub accumulated: int,
    /// The correlation ids under which a worker is probing.
    pub live: Set<Seq<char>>,
    /// Every correlation id that is spoken for: those that a worker took,
    /// and those that the upstream had served before the first worker
    /// started.
    pub used: Set<Seq<char>>,
    /// How many workers have ended.
    pub ended: nat,
}

/// One thing that happens during an extraction.
pub enum Move {
    /// A worker starts; its first probe goes under `id`.
    Start { id: Seq<char> },
    /// The worker that probes under `id` makes an attempt, which meets
    /// `fate`. Should the attempt be a definite debit, the worker goes on
    /// under `next`.
    Attempt { id: Seq<char>, fate: Fate, next: Seq<char> },
}

/// The workers before any has started, facing `upstream`.
pub open spec fn nobody(upstream: Upstream) -> Workers {
    Workers { accumulated: 0, live: Set::empty(), used: upstream.served, ended: 0 }
}

/// Whether the move can happen: an attempt is made by a worker that is
/// probing, and a correlation id that a worker takes is not spoken for.
pub open spec fn allowed(workers: Workers, m: Move) -> bool {
    match m {
        Move::Start { id } => !workers.used.contains(id),
        Move::Attempt { id, fate, next } => workers.live.contains(id) && !workers.used.contains(
            next,
        ),
    }
}

/// The upstream after a move.
pub open spec fn upstream_after(upstream: Upstream, amount: i64, m: Move) -> Upstream {
    match m {
        Move::Start { id } => upstream,
        Move::Attempt { id, fate, next } => reached(upstream, id, amount, fate),
    }
}

/// The workers after a move. A worker that sees a definite debit adds a
/// unit and goes on under its next correlation id; one that sees
/// `Insufficient` ends; one that sees anything else goes on as it was.
pub open spec fn workers_after(upstream: Upstream, workers: Workers, amount: i64, m: Move)
    -> Workers {
    match m {
        Move::Start { id } => Workers {
            live: workers.live.insert(id),
            used: workers.used.insert(id),
            ..workers
        },
        Move::Attempt { id, fate, next } => {
            let attempt = seen(upstream, id, amount, fate);
            if attempt == Attempt::Answered(ProbeOutcome::Insufficient) {
                Workers { live: workers.live.remove(id), ended: workers.ended + 1, ..workers }
            } else if is_consumed(attempt) {
                Workers {
                    accumulated: workers.accumulated + amount,
                    live: workers.live.remove(id).insert(next),
                    used: workers.used.insert(next),
                    ..workers
                }
            } else {
                workers
            }
        },
    }
}

/// The upstream and the workers after the moves, in this order, or `None`
/// if one of the moves cannot happen.
pub open spec fn played(upstream: Upstream, workers: Workers, amount: i64, moves: Seq<Move>)
    -> Option<(Upstream, Workers)>
    decreases moves.len(),
{
    if moves.len() == 0 {
        Some((upstream, workers))
    } else if !allowed(workers, moves[0]) {
        None
    } else {
        played(
            upstream_after(upstream, amount, moves[0]),
            workers_after(upstream, workers, amount, moves[0]),
            amount,
            moves.drop_first(),
        )
    }
}

/// What holds between the workers and the upstream after every move: what
/// the workers have accumulated is a whole number of units; that, what the
/// upstream still holds and one unit for each worker whose debit the
/// upstream has made without the worker knowing add up to what the upstream
/// held at first; and once a worker has ended, less than a unit is left.
spec fn all_in_step(upstream: Upstream, workers: Workers, amount: i64, at_first: int)
    -> bool {
    &&& amount > 0
    &&& upstream.balance >= 0
    &&& workers.live.finite()
    &&& workers.live.subset_of(workers.used)
    &&& upstream.served.subset_of(workers.used)
    &&& workers.accumulated % (amount as int) == 0
    &&& workers.accumulated + upstream.balance + amount * workers.live.intersect(
        upstream.served,
    ).len() == at_first
    &&& workers.ended > 0 ==> upstream.balance < amount
}

proof fn lemma_move_keeps_step(upstream: Upstream, workers: Workers, amount: i64, m: Move, at_first: int)
    requires
        all_in_step(upstream, workers, amount, at_first),
        allowed(workers, m),
    ensures
        all_in_step(
            upstream_after(upstream, amount, m),
            workers_after(upstream, workers, amount, m),
            amount,
            at_first,
        ),
{
    let a = amount as int;
    let next_upstream = upstream_after(upstream, amount, m);
    let next_workers = workers_after(upstream, workers, amount, m);
    let unknown = workers.live.intersect(upstream.served);
    let next_unknown = next_workers.live.intersect(next_upstream.served);
    match m {
        Move::Start { id } => {
            assert(next_unknown =~= unknown);
        },
        Move::Attempt { id, fate, next } => {
            let attempt = seen(upstream, id, amount, fate);
            let debited_now = next_upstream != upstream;
            if debited_now {
                assert(!upstream.served.contains(id));
                assert(next_upstream.served == upstream.served.insert(id));
                assert(next_upstream.balance == upstream.balance - a);
            }
            if attempt == Attempt::Answered(ProbeOutcome::Insufficient) {
                assert(!debited_now);
                assert(next_unknown =~= unknown);
            } else if is_consumed(attempt) {
                assert((workers.accumulated + a) % a == 0) by (nonlinear_arith)
                    requires
                        workers.accumulated % a == 0,
                        a > 0,
                ;
                if debited_now {
                    assert(next_unknown =~= unknown);
                } else {
                    assert(upstream.served.contains(id));
                    assert(unknown.contains(id));
                    assert(next_unknown =~= unknown.remove(id));
                }
            } else {
                if debited_now {
                    assert(!unknown.contains(id));
                    assert(next_unknown =~= unknown.insert(id));
                } else {
                    assert(next_unknown =~= unknown);
                }
            }
            assert(a * next_unknown.len() == a * unknown.len() + a * (next_unknown.len()
                - unknown.len())) by (nonlinear_arith);
            assert(a * 1 == a && a * (-1) == -a && a * 0 == 0);
        },
    }
}

proof fn lemma_moves_keep_step(
    upstream: Upstream,
    workers: Workers,
    amount: i64,
    moves: Seq<Move>,
    at_first: int,
)
    requires
        all_in_step(upstream, workers, amount, at_first),
        played(upstream, workers, amount, moves) is Some,
    ensures
        ({
            let (left, after) = played(upstream, workers, amount, moves).unwrap();
            all_in_step(left, after, amount, at_first)
        }),
    decreases moves.len(),
{
    if moves.len() > 0 {
        lemma_move_keeps_step(upstream, workers, amount, moves[0], at_first);
        lemma_moves_keep_step(
            upstream_after(upstream, amount, moves[0]),
            workers_after(upstream, workers, amount, moves[0]),
            amount,
            moves.drop_first(),
            at_first,
        );
    }
}

/// The order in which workers take their turns does not matter, nor does
/// what gets lost. Let any number of workers start at any time, each under
/// correlation ids of its own, and let their attempts fall in any order and
/// meet any fate. Once every worker that started has ended, and one at
/// least has, what they have accumulated together is the whole units that
/// fit into what the upstream held, and the upstream was debited exactly
/// that.
pub proof fn lemma_workers_drain_whole_units(upstream: Upstream, amount: i64, moves: Seq<Move>)
    requires
        amount > 0,
        upstream.balance >= 0,
        played(upstream, nobody(upstream), amount, moves) is Some,
        played(upstream, nobody(upstream), amount, moves).unwrap().1.live.is_empty(),
        played(upstream, nobody(upstream), amount, moves).unwrap().1.ended > 0,
    ensures
        ({
            let (left, workers) = played(upstream, nobody(upstream), amount, moves).unwrap();
            &&& workers.accumulated == drained(upstream.balance, amount as int)
            &&& left.balance == upstream.balance - workers.accumulated
        }),
{
    let a = amount as int;
    let at_first = upstream.balance;
    assert(0int % a == 0) by (nonlinear_arith)
        requires
            a > 0,
    ;
    assert(nobody(upstream).live.intersect(upstream.served) =~= Set::<Seq<char>>::empty());
    assert(all_in_step(upstream, nobody(upstream), amount, at_first));
    lemma_moves_keep_step(upstream, nobody(upstream), amount, moves, at_first);
    let (left, workers) = played(upstream, nobody(upstream), amount, moves).unwrap();
    assert(workers.live.intersect(left.served) =~= Set::<Seq<char>>::empty());
    assert(workers.accumulated + left.balance == at_first);
    lemma_fundamental_div_mod(workers.accumulated, a);
    assert(workers.accumulated == a * (workers.accumulated / a));
    assert((workers.accumulated / a) * a == a * (workers.accumulated / a)) by (nonlinear_arith);
    lemma_fundamental_div_mod_converse(at_first, a, workers.accumulated / a, left.balance);
}

/// A worker that comes after the upstream was drained at a denomination
/// finds nothing at it.
pub proof fn lemma_nothing_left_to_drain(balance: int, amount: int)
    requires
        balance >= 0,
        amount > 0,
    ensures
        0 <= balance - drained(balance, amount) < amount,
        drained(balance - drained(balance, amount), amount) == 0,
{
    lemma_fundamental_div_mod(balance, amount);
    let rest = balance - drained(balance, amount);
    assert(rest == balance % amount) by (nonlinear_arith)
        requires
            balance == amount * (balance / amount) + balance % amount,
            rest == balance - (balance / amount) * amount,
    ;
    lemma_basic_div(rest, amount);
    assert((rest / amount) * amount == 0) by (nonlinear_arith)
        requires
            rest / amount == 0,
    ;
}

} // verus!
