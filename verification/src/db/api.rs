//! The ledger's interface and its mathematical model.
//!
//! A ledger is modelled as a map from user id to balance in cents. The spec
//! functions of this module say what each operation does to that map; every
//! engine is held to them.

use vstd::prelude::*;

verus! {

/// Why a ledger operation was refused.
#[derive(Debug, Clone, Copy, PartialEq, Eq, Structural)]
pub enum LedgerError {
    /// An account that the operation needs does not exist.
    NotFound,
    /// The source account holds less than the amount asked for.
    InsufficientFunds,
}

impl LedgerError {
    /// The text under which the error is reported to a client.
    pub open spec fn message_text(self) -> Seq<char> {
        match self {
            LedgerError::NotFound => "can not find the account"@,
            LedgerError::InsufficientFunds => "insufficient balance"@,
        }
    }

    /// The text under which the error is reported to a client.
    pub fn message(&self) -> (text: String)
        ensures
            text@ == self.message_text(),
    {
        match self {
            LedgerError::NotFound => "can not find the account".to_owned(),
            LedgerError::InsufficientFunds => "insufficient balance".to_owned(),
        }
    }
}

/// The balance of `uid`, or `NotFound` where it has no account.
pub open spec fn balance_of(m: Map<i64, i64>, uid: i64) -> Result<i64, LedgerError> {
    if m.contains_key(uid) {
        Ok(m[uid])
    } else {
        Err(LedgerError::NotFound)
    }
}

/// The balance of `uid`, counting a missing account as empty.
pub open spec fn balance_or_zero(m: Map<i64, i64>, uid: i64) -> int {
    if m.contains_key(uid) {
        m[uid] as int
    } else {
        0
    }
}

/// Whether crediting `amount` to `uid` stays within the range of `i64`.
pub open spec fn credit_fits(m: Map<i64, i64>, uid: i64, amount: i64) -> bool {
    i64::MIN <= balance_or_zero(m, uid) + amount <= i64::MAX
}

/// The ledger after `amount` was credited to `uid`: an existing balance grows
/// by `amount`, a missing account is opened with it.
pub open spec fn credited(m: Map<i64, i64>, uid: i64, amount: i64) -> Map<i64, i64> {
    m.insert(uid, (balance_or_zero(m, uid) + amount) as i64)
}

/// How a transfer of `amount` from `from` to `to` ends.
///
/// The source is looked at first: a missing source is `NotFound`, a source
/// that holds too little is `InsufficientFunds`. Only then a missing target
/// is `NotFound`.
pub open spec fn transfer_outcome(m: Map<i64, i64>, from: i64, to: i64, amount: i64) -> Result<
    (),
    LedgerError,
> {
    if !m.contains_key(from) {
        Err(LedgerError::NotFound)
    } else if m[from] < amount {
        Err(LedgerError::InsufficientFunds)
    } else if !m.contains_key(to) {
        Err(LedgerError::NotFound)
    } else {
        Ok(())
    }
}

/// Whether a transfer that succeeds leaves the target within the range of
/// `i64`.
pub open spec fn transfer_fits(m: Map<i64, i64>, from: i64, to: i64, amount: i64) -> bool {
    transfer_outcome(m, from, to, amount) is Ok && from != to ==> m[to] + amount <= i64::MAX
}

/// The ledger after a transfer: on success the source is debited and the
/// target credited in one step, otherwise nothing changes.
pub open spec fn transferred(m: Map<i64, i64>, from: i64, to: i64, amount: i64) -> Map<i64, i64> {
    if transfer_outcome(m, from, to, amount) is Ok && from != to {
        m.insert(from, (m[from] - amount) as i64).insert(to, (m[to] + amount) as i64)
    } else {
        m
    }
}

/// A store of balances in cents, keyed by user id.
pub trait Engine: Send + Sync {
    /// The balances held, as a map from user id to cents.
    spec fn balances(&self) -> Map<i64, i64>;

    /// Credits `amount` to `uid`, opening the account if there is none.
    fn add_money(&mut self, uid: i64, amount: i64)
        requires
            credit_fits(old(self).balances(), uid, amount),
        ensures
            final(self).balances() == credited(old(self).balances(), uid, amount),
    ;

    /// The balance of `uid`.
    fn get_balance(&self, uid: i64) -> (balance: Result<i64, LedgerError>)
        ensures
            balance == balance_of(self.balances(), uid),
    ;

    /// Moves `amount` from `from` to `to`, or changes nothing.
    fn transfer(&mut self, from: i64, to: i64, amount: i64) -> (done: Result<(), LedgerError>)
        requires
            amount > 0,
            transfer_fits(old(self).balances(), from, to, amount),
        ensures
            done == transfer_outcome(old(self).balances(), from, to, amount),
            final(self).balances() == transferred(old(self).balances(), from, to, amount),
    ;
}

/// Credits `amount` to `uid` in `engine`, opening the account if there is
/// none.
pub fn add_money<E: Engine>(engine: &mut E, uid: i64, amount: i64)
    requires
        credit_fits(old(engine).balances(), uid, amount),
    ensures
        final(engine).balances() == credited(old(engine).balances(), uid, amount),
{
    engine.add_money(uid, amount)
}

/// The balance of `uid` in `engine`.
pub fn get_balance<E: Engine>(engine: &E, uid: i64) -> (balance: Result<i64, LedgerError>)
    ensures
        balance == balance_of(engine.balances(), uid),
{
    engine.get_balance(uid)
}

/// Moves `amount` from `from` to `to` in `engine`, or changes nothing.
pub fn transfer<E: Engine>(engine: &mut E, from: i64, to: i64, amount: i64) -> (done: Result<
    (),
    LedgerError,
>)
    requires
        amount > 0,
        transfer_fits(old(engine).balances(), from, to, amount),
    ensures
        done == transfer_outcome(old(engine).balances(), from, to, amount),
        final(engine).balances() == transferred(old(engine).balances(), from, to, amount),
{
    engine.transfer(from, to, amount)
}

/// Credits `amount` to `uid` where the new balance fits into an `i64`, and
/// says whether it did. Where it does not fit, nothing changes.
pub fn try_add_money<E: Engine>(engine: &mut E, uid: i64, amount: i64) -> (credited_now: bool)
    ensures
        credited_now == credit_fits(old(engine).balances(), uid, amount),
        final(engine).balances() == (if credited_now {
            credited(old(engine).balances(), uid, amount)
        } else {
            old(engine).balances()
        }),
{
    let held = match engine.get_balance(uid) {
        Ok(balance) => balance,
        Err(_) => 0,
    };
    match held.checked_add(amount) {
        Some(_) => {
            engine.add_money(uid, amount);
            true
        },
        None => false,
    }
}

/// Whether `transfer` can be asked to move `amount` from `from` to `to`:
/// the amount is positive, and a transfer that succeeds leaves the target
/// within the range of `i64`.
pub fn can_transfer<E: Engine>(engine: &E, from: i64, to: i64, amount: i64) -> (can: bool)
    ensures
        can == (amount > 0 && transfer_fits(engine.balances(), from, to, amount)),
{
    if amount <= 0 {
        return false;
    }
    if from == to {
        return true;
    }
    match (engine.get_balance(from), engine.get_balance(to)) {
        (Ok(source), Ok(target)) => source < amount || target.checked_add(amount).is_some(),
        _ => true,
    }
}

} // verus!
