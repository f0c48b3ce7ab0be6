//! The in-memory ledger.

use std::collections::HashMap;
use vstd::prelude::*;
use crate::db::api::{Engine, LedgerError};

verus! {

broadcast use vstd::std_specs::hash::group_hash_axioms;

/// A ledger held in a hash map: one account per user id, each holding its
/// balance in cents.
pub struct MMap {
    uid_map: HashMap<i64, i64>,
}

impl MMap {
    /// An empty ledger.
    pub fn new() -> (ledger: Self)
        ensures
            ledger.balances() == Map::<i64, i64>::empty(),
    {
        MMap { uid_map: HashMap::new() }
    }

    /// A copy of every balance, taken at one point in time.
    pub fn get_all_balance(&self) -> (all: HashMap<i64, i64>)
        ensures
            all@ == self.balances(),
    {
        self.uid_map.clone()
    }
}

impl Engine for MMap {
    closed spec fn balances(&self) -> Map<i64, i64> {
        self.uid_map@
    }

    fn add_money(&mut self, uid: i64, amount: i64) {
        let balance = match self.uid_map.get(&uid) {
            Some(held) => *held + amount,
            None => amount,
        };
        self.uid_map.insert(uid, balance);
    }

    fn get_balance(&self, uid: i64) -> (balance: Result<i64, LedgerError>) {
        match self.uid_map.get(&uid) {
            Some(held) => Ok(*held),
            None => Err(LedgerError::NotFound),
        }
    }

    fn transfer(&mut self, from: i64, to: i64, amount: i64) -> (done: Result<(), LedgerError>) {
        let from_balance = match self.uid_map.get(&from) {
            Some(held) => *held,
            None => {
                return Err(LedgerError::NotFound);
            },
        };
        if from_balance < amount {
            return Err(LedgerError::InsufficientFunds);
        }
        let to_balance = match self.uid_map.get(&to) {
            Some(held) => *held,
            None => {
                return Err(LedgerError::NotFound);
            },
        };
        if from != to {
            self.uid_map.insert(from, from_balance - amount);
            self.uid_map.insert(to, to_balance + amount);
        }
        Ok(())
    }
}

} // verus!
