//! Discovery for one user: a first pass at the top denomination, then one
//! pass at each halving of it, down to a single cent.
//!
//! The passes are run by the caller, one after the other. [`Discovery`]
//! names the pass that is due and adds up what the passes extract.

use vstd::prelude::*;

verus! {

/// The denomination of the first pass, in cents.
pub const TOP_DENOMINATION: i64 = 1_000_000;

/// The number of workers of the first pass.
pub const TOP_BUDGET: usize = 30;

/// The number of workers of every later pass.
pub const HALVED_BUDGET: usize = 2;

/// One pass: a denomination in cents and the number of workers to spend on
/// it.
#[derive(Debug, Clone, Copy, PartialEq, Eq, Structural)]
pub struct Pass {
    pub amount: i64,
    pub budget: usize,
}

/// Where a discovery stands.
#[derive(Debug, Clone, Copy, PartialEq, Eq, Structural)]
pub enum Stage {
    /// The pass at the top denomination is due.
    Top,
    /// The pass at this halved denomination is due.
    Halved(i64),
    /// No pass is left.
    Finished,
}

/// The denominations from `amount` down, each half the one before it,
/// rounded down, as long as they are at least one cent.
pub open spec fn halvings(amount: int) -> Seq<int>
    decreases amount,
{
    if amount < 1 {
        Seq::empty()
    } else {
        seq![amount] + halvings(amount / 2)
    }
}

/// The later passes from denomination `amount` down; none where it is less
/// than one cent.
pub open spec fn halved_passes(amount: int) -> Seq<Pass> {
    halvings(amount).map_values(|a: int| Pass { amount: a as i64, budget: HALVED_BUDGET })
}

/// The passes that are still due at a stage, in order.
pub open spec fn passes_due(stage: Stage) -> Seq<Pass> {
    match stage {
        Stage::Top => seq![Pass { amount: TOP_DENOMINATION, budget: TOP_BUDGET }] + halved_passes(
            TOP_DENOMINATION / 2,
        ),
        Stage::Halved(amount) => halved_passes(amount as int),
        Stage::Finished => Seq::empty(),
    }
}

/// The stage that follows once the pass that is due has run.
pub open spec fn stage_after(stage: Stage) -> Stage {
    match stage {
        Stage::Top => Stage::Halved((TOP_DENOMINATION / 2) as i64),
        Stage::Halved(amount) => if amount / 2 >= 1 {
            Stage::Halved((amount / 2) as i64)
        } else {
            Stage::Finished
        },
        Stage::Finished => Stage::Finished,
    }
}

/// All passes of a discovery: 1000000 cents with 30 workers, then 500000,
/// 250000, 125000 and so on down to 1 with 2 workers each.
pub open spec fn schedule() -> Seq<Pass> {
    passes_due(Stage::Top)
}

/// The state of one user's discovery.
#[derive(Debug, Clone, Copy, PartialEq, Eq)]
pub struct Discovery {
    /// The user whose funds are discovered.
    pub uid: i64,
    /// The pass that is due.
    pub stage: Stage,
    /// What the passes run so far have extracted.
    pub total: i64,
}

impl Discovery {
    /// Whether `record` can take the result of a pass: a pass is due, and
    /// the sum stays within the range of `i64`.
    pub open spec fn can_take(&self, extracted: i64) -> bool {
        &&& passes_due(self.stage).len() > 0
        &&& i64::MIN <= self.total + extracted <= i64::MAX
    }

    /// Whether `record` can take the result of a pass.
    pub fn takes(&self, extracted: i64) -> (can: bool)
        ensures
            can == self.can_take(extracted),
    {
        self.current().is_some() && self.total.checked_add(extracted).is_some()
    }

    /// A discovery for `uid` with every pass still due.
    pub fn new(uid: i64) -> (state: Self)
        ensures
            state == (Discovery { uid, stage: Stage::Top, total: 0 }),
            passes_due(state.stage) == schedule(),
    {
        Discovery { uid, stage: Stage::Top, total: 0 }
    }

    /// The pass that is due, or `None` when the discovery is over; its
    /// result is then `total`.
    pub fn current(&self) -> (pass: Option<Pass>)
        ensures
            pass == (if passes_due(self.stage).len() == 0 {
                None
            } else {
                Some(passes_due(self.stage)[0])
            }),
    {
        match self.stage {
            Stage::Top => Some(Pass { amount: TOP_DENOMINATION, budget: TOP_BUDGET }),
            Stage::Halved(amount) => {
                if amount >= 1 {
                    proof {
                        lemma_halved_passes_unfold(amount as int);
                    }
                    Some(Pass { amount, budget: HALVED_BUDGET })
                } else {
                    None
                }
            },
            Stage::Finished => None,
        }
    }

    /// Takes in what the pass that was due has extracted, and moves on to
    /// the next one.
    pub fn record(&mut self, extracted: i64)
        requires
            old(self).can_take(extracted),
        ensures
            final(self).uid == old(self).uid,
            final(self).total == old(self).total + extracted,
            final(self).stage == stage_after(old(self).stage),
            passes_due(final(self).stage) == passes_due(old(self).stage).drop_first(),
    {
        let next = match self.stage {
            Stage::Top => TOP_DENOMINATION / 2,
            Stage::Halved(amount) => amount / 2,
            Stage::Finished => 0,
        };
        proof {
            match self.stage {
                Stage::Top => {
                    let first = seq![Pass { amount: TOP_DENOMINATION, budget: TOP_BUDGET }];
                    assert((first + halved_passes(TOP_DENOMINATION / 2)).drop_first()
                        =~= halved_passes(TOP_DENOMINATION / 2));
                },
                Stage::Halved(amount) => {
                    if amount >= 1 {
                        lemma_halved_passes_unfold(amount as int);
                    }
                },
                Stage::Finished => {},
            }
            if next < 1 {
                assert(halved_passes(next as int) =~= Seq::<Pass>::empty());
            }
        }
        self.total = self.total + extracted;
        self.stage = if next >= 1 {
            Stage::Halved(next)
        } else {
            Stage::Finished
        };
    }
}

/// From a denomination of at least one cent down, the first pass is at that
/// denomination, and the others are those from its half down.
proof fn lemma_halved_passes_unfold(amount: int)
    requires
        amount >= 1,
    ensures
        halved_passes(amount).len() > 0,
        halved_passes(amount)[0] == (Pass { amount: amount as i64, budget: HALVED_BUDGET }),
        halved_passes(amount).drop_first() == halved_passes(amount / 2),
{
    let rest = halvings(amount / 2);
    assert(halvings(amount) == seq![amount] + rest);
    assert(halvings(amount)[0] == amount);
    assert(halvings(amount).drop_first() =~= rest);
    assert(halved_passes(amount).drop_first() =~= halved_passes(amount / 2));
}

/// What a pass at `amount` takes from an upstream that holds `balance`: the
/// whole units that fit.
pub open spec fn drained(balance: int, amount: int) -> int {
    (balance / amount) * amount
}

/// What the passes find, run in order against an upstream that holds
/// `balance`, when each pass drains the whole units of its denomination.
pub open spec fn found(balance: int, passes: Seq<Pass>) -> int
    decreases passes.len(),
{
    if passes.len() == 0 {
        0
    } else {
        let taken = drained(balance, passes[0].amount as int);
        taken + found(balance - taken, passes.drop_first())
    }
}

/// Passes whose denominations are at least one cent and end at one cent
/// find all of a balance.
proof fn lemma_ending_at_one_finds_all(balance: int, passes: Seq<Pass>)
    requires
        balance >= 0,
        passes.len() > 0,
        forall|i: int| 0 <= i < passes.len() ==> (#[trigger] passes[i]).amount >= 1,
        passes.last().amount == 1,
    ensures
        found(balance, passes) == balance,
    decreases passes.len(),
{
    let amount = passes[0].amount as int;
    let taken = drained(balance, amount);
    assert(0 <= balance - taken && taken >= 0) by (nonlinear_arith)
        requires
            balance >= 0,
            amount >= 1,
            taken == (balance / amount) * amount,
    ;
    let rest = passes.drop_first();
    if rest.len() == 0 {
        assert(amount == 1);
        assert(taken == balance) by (nonlinear_arith)
            requires
                amount == 1,
                taken == (balance / amount) * amount,
        ;
        assert(found(balance - taken, rest) == 0);
    } else {
        assert(rest.last() == passes.last());
        assert forall|i: int| 0 <= i < rest.len() implies (#[trigger] rest[i]).amount >= 1 by {
            assert(rest[i] == passes[i + 1]);
        }
        lemma_ending_at_one_finds_all(balance - taken, rest);
    }
}

/// The halvings of a denomination of at least one cent, itself no more than
/// the top denomination, are all at least one cent and end at one cent.
proof fn lemma_halvings_end_at_one(amount: int)
    requires
        1 <= amount <= TOP_DENOMINATION,
    ensures
        halved_passes(amount).len() > 0,
        forall|i: int|
            0 <= i < halved_passes(amount).len() ==> (#[trigger] halved_passes(amount)[i]).amount
                >= 1,
        halved_passes(amount).last().amount == 1,
    decreases amount,
{
    lemma_halved_passes_unfold(amount);
    let passes = halved_passes(amount);
    let rest = halved_passes(amount / 2);
    if amount / 2 >= 1 {
        lemma_halvings_end_at_one(amount / 2);
        assert(passes.last() == rest.last()) by {
            assert(passes.drop_first() == rest);
            assert(rest.last() == passes[passes.len() - 1]);
        }
        assert forall|i: int| 0 <= i < passes.len() implies (#[trigger] passes[i]).amount
            >= 1 by {
            if i > 0 {
                assert(passes[i] == rest[i - 1]);
            }
        }
    } else {
        assert(rest =~= Seq::<Pass>::empty());
        assert(passes.len() == 1);
    }
}

/// Discovery finds all there is: against an upstream that holds `balance`,
/// with each pass draining the whole units of its denomination, the passes
/// of the schedule add up to `balance`.
pub proof fn lemma_discovery_finds_all(balance: int)
    requires
        balance >= 0,
    ensures
        found(balance, schedule()) == balance,
{
    let top = seq![Pass { amount: TOP_DENOMINATION, budget: TOP_BUDGET }];
    let rest = halved_passes(TOP_DENOMINATION / 2);
    let all = schedule();
    lemma_halvings_end_at_one(TOP_DENOMINATION / 2);
    assert(all == top + rest);
    assert(all.last() == rest.last());
    assert forall|i: int| 0 <= i < all.len() implies (#[trigger] all[i]).amount >= 1 by {
        if i > 0 {
            assert(all[i] == rest[i - 1]);
        }
    }
    lemma_ending_at_one_finds_all(balance, all);
}

} // verus!
