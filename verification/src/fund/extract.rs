//! Extraction at one denomination: a bounded number of workers, started in
//! a ramp, whose contributions are added up.
//!
//! The workers are run by the caller. [`Extraction`] decides when the next
//! one is started and after what delay, and keeps the sum.

use vstd::prelude::*;

verus! {

/// A budget above this one is launched in a ramp.
pub const RAMP_MIN_BUDGET: usize = 2;

/// The first worker that the ramp no longer delays.
pub const RAMP_END: usize = 30;

/// The delay before a worker of the ramp, in milliseconds.
pub const RAMP_DELAY_MS: u64 = 10;

/// The delay before worker number `worker`, counted from 1, of an
/// extraction with the given budget: where the budget exceeds 2, workers 2
/// to 29 wait 10 ms each; every other worker starts at once.
pub open spec fn launch_delay(worker: usize, budget: usize) -> u64 {
    if budget > RAMP_MIN_BUDGET && 1 < worker < RAMP_END {
        RAMP_DELAY_MS
    } else {
        0
    }
}

/// The delay in milliseconds before worker number `worker`, counted from 1.
pub fn launch_delay_ms(worker: usize, budget: usize) -> (ms: u64)
    ensures
        ms == launch_delay(worker, budget),
{
    if budget > RAMP_MIN_BUDGET && 1 < worker && worker < RAMP_END {
        RAMP_DELAY_MS
    } else {
        0
    }
}

/// What to do about the next worker.
#[derive(Debug, Clone, Copy, PartialEq, Eq, Structural)]
pub enum Launch {
    /// Start worker number `worker` after `delay_ms` milliseconds.
    Start { worker: usize, delay_ms: u64 },
    /// Start no further worker.
    Stop,
}

/// The state of one extraction.
#[derive(Debug, Clone, Copy, PartialEq, Eq)]
pub struct Extraction {
    /// The denomination, in cents.
    pub amount: i64,
    /// The largest number of workers.
    pub budget: usize,
    /// How many workers were started.
    pub launched: usize,
    /// How many workers have reported.
    pub finished: usize,
    /// The sum of what the workers reported.
    pub total: i64,
}

impl Extraction {
    /// No more workers have reported than were started, and no more were
    /// started than the budget allows.
    pub open spec fn wf(&self) -> bool {
        self.finished <= self.launched <= self.budget
    }

    /// Whether another worker is to be started: the budget is not used up
    /// and no worker has reported yet. A worker reports when the upstream
    /// has nothing left at this denomination, so later ones would find
    /// nothing.
    pub open spec fn may_launch(&self) -> bool {
        self.launched < self.budget && self.finished == 0
    }

    /// Whether the extraction is over: no worker is to be started and all
    /// that were started have reported.
    pub open spec fn complete(&self) -> bool {
        !self.may_launch() && self.finished == self.launched
    }

    /// An extraction at `amount` with up to `budget` workers, none of them
    /// started.
    pub fn new(amount: i64, budget: usize) -> (state: Self)
        ensures
            state == (Extraction { amount, budget, launched: 0, finished: 0, total: 0 }),
            state.wf(),
    {
        Extraction { amount, budget, launched: 0, finished: 0, total: 0 }
    }

    /// Decides on the next worker, and counts it as started if it is to be.
    pub fn next_launch(&mut self) -> (launch: Launch)
        ensures
            old(self).wf() ==> final(self).wf(),
            old(self).may_launch() ==> launch == (Launch::Start {
                worker: (old(self).launched + 1) as usize,
                delay_ms: launch_delay((old(self).launched + 1) as usize, old(self).budget),
            }) && *final(self) == (Extraction {
                launched: (old(self).launched + 1) as usize,
                ..*old(self)
            }),
            !old(self).may_launch() ==> launch == Launch::Stop && *final(self) == *old(self),
    {
        if self.launched < self.budget && self.finished == 0 {
            self.launched = self.launched + 1;
            Launch::Start {
                worker: self.launched,
                delay_ms: launch_delay_ms(self.launched, self.budget),
            }
        } else {
            Launch::Stop
        }
    }

    /// Whether `worker_done` can take the contribution: a worker is still
    /// out, and the sum stays within the range of `i64`.
    pub open spec fn can_take(&self, contribution: i64) -> bool {
        &&& self.finished < self.launched
        &&& i64::MIN <= self.total + contribution <= i64::MAX
    }

    /// Whether `worker_done` can take the contribution.
    pub fn takes(&self, contribution: i64) -> (can: bool)
        ensures
            can == self.can_take(contribution),
    {
        self.finished < self.launched && self.total.checked_add(contribution).is_some()
    }

    /// Takes in what one worker reports.
    pub fn worker_done(&mut self, contribution: i64)
        requires
            old(self).can_take(contribution),
        ensures
            old(self).wf() ==> final(self).wf(),
            *final(self) == (Extraction {
                finished: (old(self).finished + 1) as usize,
                total: (old(self).total + contribution) as i64,
                ..*old(self)
            }),
    {
        self.finished = self.finished + 1;
        self.total = self.total + contribution;
    }

    /// Whether the extraction is over; its result is then `total`.
    pub fn is_complete(&self) -> (over: bool)
        ensures
            over == self.complete(),
    {
        !(self.launched < self.budget && self.finished == 0) && self.finished == self.launched
    }
}

} // verus!
