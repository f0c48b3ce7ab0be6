//! What holds of the ledger's operations taken together: credits add up,
//! an overdraft changes nothing, and trades keep the sum of all balances.

use vstd::prelude::*;
use crate::db::api::{
    balance_or_zero, credit_fits, credited, transfer_fits, transfer_outcome, transferred,
    LedgerError,
};

verus! {

/// The sum of all balances of a ledger with finitely many accounts.
pub open spec fn total(m: Map<i64, i64>) -> int
    decreases m.dom().len(),
    when m.dom().finite()
{
    if m.dom().is_empty() {
        0
    } else {
        let uid = m.dom().choose();
        m[uid] + total(m.remove(uid))
    }
}

/// A transfer request: `amount` cents from `from` to `to`.
pub struct Trade {
    pub from: i64,
    pub to: i64,
    pub amount: i64,
}

/// Whether every trade of the sequence, applied in order, is one that
/// `transfer` accepts as input.
pub open spec fn trades_fit(m: Map<i64, i64>, trades: Seq<Trade>) -> bool
    decreases trades.len(),
{
    if trades.len() == 0 {
        true
    } else {
        let t = trades[0];
        &&& t.amount > 0
        &&& transfer_fits(m, t.from, t.to, t.amount)
        &&& trades_fit(transferred(m, t.from, t.to, t.amount), trades.drop_first())
    }
}

/// The ledger after the trades were applied in order, each one succeeding or
/// leaving the ledger as it was.
pub open spec fn after_trades(m: Map<i64, i64>, trades: Seq<Trade>) -> Map<i64, i64>
    decreases trades.len(),
{
    if trades.len() == 0 {
        m
    } else {
        let t = trades[0];
        after_trades(transferred(m, t.from, t.to, t.amount), trades.drop_first())
    }
}

/// The sum can be taken with any account first.
proof fn lemma_total_remove(m: Map<i64, i64>, uid: i64)
    requires
        m.dom().finite(),
        m.contains_key(uid),
    ensures
        total(m) == m[uid] + total(m.remove(uid)),
    decreases m.dom().len(),
{
    let first = m.dom().choose();
    if first != uid {
        lemma_total_remove(m.remove(first), uid);
        lemma_total_remove(m.remove(uid), first);
        assert(m.remove(first).remove(uid) =~= m.remove(uid).remove(first));
    }
}

/// Setting one balance changes the sum by the difference to what the account
/// held before.
proof fn lemma_total_insert(m: Map<i64, i64>, uid: i64, balance: i64)
    requires
        m.dom().finite(),
    ensures
        total(m.insert(uid, balance)) == total(m) - balance_or_zero(m, uid) + balance,
{
    let after = m.insert(uid, balance);
    lemma_total_remove(after, uid);
    assert(after.remove(uid) =~= m.remove(uid));
    if m.contains_key(uid) {
        lemma_total_remove(m, uid);
    } else {
        assert(m.remove(uid) =~= m);
    }
}

/// A credit raises the sum of all balances by exactly the amount credited.
pub proof fn lemma_credit_adds_to_total(m: Map<i64, i64>, uid: i64, amount: i64)
    requires
        m.dom().finite(),
        credit_fits(m, uid, amount),
    ensures
        total(credited(m, uid, amount)) == total(m) + amount,
{
    lemma_total_insert(m, uid, (balance_or_zero(m, uid) + amount) as i64);
}

/// A transfer, whether it succeeds or is refused, leaves the sum of all
/// balances as it was.
pub proof fn lemma_transfer_keeps_total(m: Map<i64, i64>, from: i64, to: i64, amount: i64)
    requires
        m.dom().finite(),
        amount > 0,
        transfer_fits(m, from, to, amount),
    ensures
        total(transferred(m, from, to, amount)) == total(m),
        transferred(m, from, to, amount).dom() == m.dom(),
{
    let after = transferred(m, from, to, amount);
    if after != m {
        let debited = m.insert(from, (m[from] - amount) as i64);
        lemma_total_insert(m, from, (m[from] - amount) as i64);
        lemma_total_insert(debited, to, (m[to] + amount) as i64);
        assert(after.dom() =~= m.dom());
    }
}

/// Whatever trades are applied to a ledger, in whatever order, the sum of all
/// balances after any number of them is the sum before the first.
pub proof fn lemma_trades_keep_total(m: Map<i64, i64>, trades: Seq<Trade>, seen: int)
    requires
        m.dom().finite(),
        trades_fit(m, trades),
        0 <= seen <= trades.len(),
    ensures
        total(after_trades(m, trades.take(seen))) == total(m),
    decreases seen,
{
    let prefix = trades.take(seen);
    if seen > 0 {
        let t = trades[0];
        let next = transferred(m, t.from, t.to, t.amount);
        lemma_transfer_keeps_total(m, t.from, t.to, t.amount);
        assert(prefix[0] == t);
        assert(prefix.drop_first() =~= trades.drop_first().take(seen - 1));
        lemma_trades_keep_total(next, trades.drop_first(), seen - 1);
    }
}

/// Two credits to one user add up: the balance ends at what the account held
/// before, nothing if it did not exist, plus both amounts.
pub proof fn lemma_credits_add_up(m: Map<i64, i64>, uid: i64, a: i64, b: i64)
    requires
        credit_fits(m, uid, a),
        credit_fits(credited(m, uid, a), uid, b),
    ensures
        credited(credited(m, uid, a), uid, b)[uid] == balance_or_zero(m, uid) + a + b,
        !m.contains_key(uid) ==> credited(credited(m, uid, a), uid, b)[uid] == a + b,
{
}

/// A transfer of more than the source holds is refused as
/// `InsufficientFunds` and changes no balance.
pub proof fn lemma_overdraft_changes_nothing(m: Map<i64, i64>, from: i64, to: i64, amount: i64)
    requires
        m.contains_key(from),
        amount > m[from],
    ensures
        transfer_outcome(m, from, to, amount) == Err::<(), _>(LedgerError::InsufficientFunds),
        transferred(m, from, to, amount) == m,
{
}

/// A transfer that succeeds leaves no debt behind: the source ends with
/// nothing or more, and so does the target unless it was in debt before.
pub proof fn lemma_transfer_leaves_no_debt(m: Map<i64, i64>, from: i64, to: i64, amount: i64)
    requires
        amount > 0,
        transfer_fits(m, from, to, amount),
        transfer_outcome(m, from, to, amount) is Ok,
    ensures
        transferred(m, from, to, amount)[from] >= 0,
        m[to] >= 0 ==> transferred(m, from, to, amount)[to] >= 0,
{
}

} // verus!
