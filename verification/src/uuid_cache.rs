//! The idempotency cache: which batch ids and which trade ids were seen.
//!
//! The two kinds of id live in two sets that never exchange members, and a
//! set only ever grows.

use dashmap::DashSet;
use vstd::prelude::*;

verus! {

/// `dashmap::DashSet`, a concurrent hash set. Nothing of its inside is
/// known here; what it holds is spoken of through [`held`].
#[verifier::external_type_specification]
#[verifier::external_body]
#[verifier::reject_recursive_types(K)]
#[verifier::reject_recursive_types(S)]
pub struct ExDashSet<K, S>(DashSet<K, S>);

/// The identifiers that a set holds, each as its sequence of characters.
pub uninterp spec fn held(set: DashSet<String>) -> Set<Seq<char>>;

/// `DashSet::new`: a set that holds nothing.
#[verifier::external_body]
fn empty_set() -> (set: DashSet<String>)
    ensures
        held(set) == Set::<Seq<char>>::empty(),
{
    DashSet::new()
}

/// `DashSet::contains`: whether the set holds `id`. The set is left as it
/// was.
#[verifier::external_body]
fn set_contains(set: &DashSet<String>, id: &String) -> (found: bool)
    ensures
        found == held(*set).contains(id@),
{
    set.contains(id)
}

/// `DashSet::insert`: afterwards the set holds `id` besides what it held; the
/// result tells whether `id` was new to it.
///
/// The set is taken by unique reference, so that no other holder can see it
/// change.
#[verifier::external_body]
fn set_insert(set: &mut DashSet<String>, id: String) -> (fresh: bool)
    ensures
        held(*final(set)) == held(*old(set)).insert(id@),
        fresh == !held(*old(set)).contains(id@),
{
    set.insert(id)
}

/// Whether an id is admitted by a set that has seen `seen`.
pub open spec fn admits(seen: Set<Seq<char>>, id: Seq<char>) -> bool {
    !seen.contains(id)
}

/// What a set has seen once `id` asked for admission, granted or not.
pub open spec fn admitted(seen: Set<Seq<char>>, id: Seq<char>) -> Set<Seq<char>> {
    seen.insert(id)
}

/// What a set has seen once every id of `ids` asked for admission, in order.
pub open spec fn admitted_all(seen: Set<Seq<char>>, ids: Seq<Seq<char>>) -> Set<Seq<char>>
    decreases ids.len(),
{
    if ids.len() == 0 {
        seen
    } else {
        admitted_all(admitted(seen, ids[0]), ids.drop_first())
    }
}

/// The ids seen so far, batches and trades apart.
pub struct UuidCache {
    batch_pay: DashSet<String>,
    trade: DashSet<String>,
}

impl UuidCache {
    /// The batch ids seen so far.
    pub closed spec fn batch_ids(&self) -> Set<Seq<char>> {
        held(self.batch_pay)
    }

    /// The trade ids seen so far.
    pub closed spec fn trade_ids(&self) -> Set<Seq<char>> {
        held(self.trade)
    }

    /// A cache that has seen nothing.
    pub fn new() -> (cache: Self)
        ensures
            cache.batch_ids() == Set::<Seq<char>>::empty(),
            cache.trade_ids() == Set::<Seq<char>>::empty(),
    {
        UuidCache { batch_pay: empty_set(), trade: empty_set() }
    }
}

/// Admits a batch id on first sight: `true` and the id is remembered, or
/// `false` because it was seen before. Trade ids are not touched.
pub fn check_and_add_batch_pay(cache: &mut UuidCache, uuid: String) -> (first: bool)
    ensures
        first == admits(old(cache).batch_ids(), uuid@),
        final(cache).batch_ids() == admitted(old(cache).batch_ids(), uuid@),
        final(cache).trade_ids() == old(cache).trade_ids(),
{
    match set_contains(&cache.batch_pay, &uuid) {
        true => {
            assert(cache.batch_ids().insert(uuid@) =~= cache.batch_ids());
            false
        },
        false => {
            set_insert(&mut cache.batch_pay, uuid);
            true
        },
    }
}

/// Admits a trade id on first sight: `true` and the id is remembered, or
/// `false` because it was seen before. Batch ids are not touched.
pub fn check_and_add_trade(cache: &mut UuidCache, uuid: String) -> (first: bool)
    ensures
        first == admits(old(cache).trade_ids(), uuid@),
        final(cache).trade_ids() == admitted(old(cache).trade_ids(), uuid@),
        final(cache).batch_ids() == old(cache).batch_ids(),
{
    match set_contains(&cache.trade, &uuid) {
        true => {
            assert(cache.trade_ids().insert(uuid@) =~= cache.trade_ids());
            false
        },
        false => {
            set_insert(&mut cache.trade, uuid);
            true
        },
    }
}

/// Of two requests for admission under one id, the second is refused; the
/// first is granted exactly if the id was not seen before. So an id that is
/// new yields one grant and one refusal.
pub proof fn lemma_second_admission_refused(seen: Set<Seq<char>>, id: Seq<char>)
    ensures
        admits(seen, id) <==> !seen.contains(id),
        !admits(admitted(seen, id), id),
{
}

/// Membership only grows: an id that was seen stays seen, and is refused,
/// whatever ids ask for admission afterwards.
pub proof fn lemma_seen_stays_seen(seen: Set<Seq<char>>, later: Seq<Seq<char>>, id: Seq<char>)
    requires
        seen.contains(id),
    ensures
        admitted_all(seen, later).contains(id),
        !admits(admitted_all(seen, later), id),
    decreases later.len(),
{
    if later.len() > 0 {
        lemma_seen_stays_seen(admitted(seen, later[0]), later.drop_first(), id);
    }
}

} // verus!
