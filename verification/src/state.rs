//! The plugin's state: every player's E balance and the time of their latest
//! chat message.
use vstd::prelude::*;
use std::collections::HashMap;
use crate::milestones::{milestone, milestone_amounts, MILESTONE_COUNT};

verus! {

broadcast use {
    vstd::std_specs::hash::group_hash_axioms,
    vstd::std_specs::hash::axiom_u128_obeys_hash_table_key_model,
    vstd::std_specs::hash::axiom_random_state_builds_valid_hashers,
};

/// The balance that a ledger records for a player: the stored amount, or 0
/// for a player it has never seen.
pub open spec fn balance_in(balances: Map<u128, i64>, player: u128) -> int {
    if balances.contains_key(player) {
        balances[player] as int
    } else {
        0
    }
}

/// The time elapsed since a recorded instant, as `Instant - Instant` gives it:
/// zero when the recorded instant is not earlier than `now`.
pub open spec fn elapsed_since(then: u64, now: u64) -> u64 {
    if now >= then {
        (now - then) as u64
    } else {
        0
    }
}

/// The balances after adding `amount` to the balance of `player`.
pub open spec fn after_add(balances: Map<u128, i64>, player: u128, amount: i64) -> Map<u128, i64> {
    balances.insert(player, (balance_in(balances, player) + amount) as i64)
}

/// The balances after taking `amount` from the balance of `player`.
pub open spec fn after_remove(balances: Map<u128, i64>, player: u128, amount: i64) -> Map<
    u128,
    i64,
> {
    balances.insert(player, (balance_in(balances, player) - amount) as i64)
}

/// How long ago, seen from `now`, the chat instants record that `player`
/// chatted; `None` for a player never recorded.
pub open spec fn chat_ago(latest_chat: Map<u128, u64>, player: u128, now: u64) -> Option<u64> {
    if latest_chat.contains_key(player) {
        Some(elapsed_since(latest_chat[player], now))
    } else {
        None
    }
}

/// `entries` lists the map `m`: each of its pairs once, and nothing else.
pub open spec fn lists_map(entries: Seq<(u128, i64)>, m: Map<u128, i64>) -> bool {
    &&& entries.len() == m.len()
    &&& forall|j: int|
        0 <= j < entries.len() ==> {
            &&& #[trigger] m.contains_key(entries[j].0)
            &&& m[entries[j].0] == entries[j].1
        }
    &&& forall|p: u128| #[trigger]
        m.contains_key(p) ==> exists|j: int| 0 <= j < entries.len() && entries[j] == (p, m[p])
    &&& forall|j: int, k: int| 0 <= j < k < entries.len() ==> entries[j].0 != entries[k].0
}

/// Whether a change of balance from `old` to `new` reaches `amount`.
pub open spec fn reaches(old: int, new: int, amount: int) -> bool {
    old < amount && new >= amount
}

/// The indices, in increasing order, of the first `k` milestones that a change
/// of balance from `old` to `new` reaches.
pub open spec fn reached_among(old: int, new: int, k: nat) -> Seq<usize>
    decreases k,
{
    if k == 0 {
        Seq::empty()
    } else {
        let before = reached_among(old, new, (k - 1) as nat);
        if reaches(old, new, milestone_amounts()[k - 1] as int) {
            before.push((k - 1) as usize)
        } else {
            before
        }
    }
}

/// The indices, in increasing order, of the milestones that a change of
/// balance from `old` to `new` reaches.
pub open spec fn reached_milestones(old: int, new: int) -> Seq<usize> {
    reached_among(old, new, MILESTONE_COUNT as nat)
}

/// The map that inserting `entries` in order into an empty map gives: a later
/// entry for a player replaces an earlier one.
pub open spec fn map_of_entries(entries: Seq<(u128, i64)>) -> Map<u128, i64>
    decreases entries.len(),
{
    if entries.len() == 0 {
        Map::empty()
    } else {
        map_of_entries(entries.drop_last()).insert(entries.last().0, entries.last().1)
    }
}

/// The state seen as plain maps: balances, and the latest chat instant of each
/// player (in nanoseconds on the caller's monotonic clock).
pub struct EStateView {
    pub balances: Map<u128, i64>,
    pub latest_chat: Map<u128, u64>,
}

/// The current state of the E plugin.
pub struct EState {
    balances: HashMap<u128, i64>,
    latest_chat_instants: HashMap<u128, u64>,
}

impl View for EState {
    type V = EStateView;

    closed spec fn view(&self) -> EStateView {
        EStateView { balances: self.balances@, latest_chat: self.latest_chat_instants@ }
    }
}

/// What an award of Es did: the balance before and after, the milestones that
/// it reached, and whether the gain is shown to the player.
pub struct Award {
    pub old_balance: i64,
    pub new_balance: i64,
    pub reached: Vec<usize>,
    pub show_gain: bool,
}

impl EState {
    /// A state with no balances and no recorded chat.
    pub fn new() -> (s: EState)
        ensures
            s@.balances == Map::<u128, i64>::empty(),
            s@.latest_chat == Map::<u128, u64>::empty(),
    {
        EState { balances: HashMap::new(), latest_chat_instants: HashMap::new() }
    }

    /// The balance of `target`; 0 for a player without one.
    pub fn get_e(&self, target: u128) -> (amount: i64)
        ensures
            amount == balance_in(self@.balances, target),
    {
        match self.balances.get(&target) {
            Some(v) => *v,
            None => 0,
        }
    }

    /// Adds `amount` to the balance of `target`, creating it at 0 first.
    pub fn add_e(&mut self, target: u128, amount: i64)
        requires
            i64::MIN <= balance_in(old(self)@.balances, target) + amount <= i64::MAX,
        ensures
            final(self)@.balances == after_add(old(self)@.balances, target, amount),
            final(self)@.latest_chat == old(self)@.latest_chat,
    {
        let current = self.get_e(target);
        self.balances.insert(target, current + amount);
    }

    /// Takes `amount` from the balance of `target`, creating it at 0 first.
    pub fn remove_e(&mut self, target: u128, amount: i64)
        requires
            i64::MIN <= balance_in(old(self)@.balances, target) - amount <= i64::MAX,
        ensures
            final(self)@.balances == after_remove(old(self)@.balances, target, amount),
            final(self)@.latest_chat == old(self)@.latest_chat,
    {
        let current = self.get_e(target);
        self.balances.insert(target, current - amount);
    }

    /// Sets the balance of `target` to `amount`.
    pub fn set_e(&mut self, target: u128, amount: i64)
        ensures
            final(self)@.balances == old(self)@.balances.insert(target, amount),
            final(self)@.latest_chat == old(self)@.latest_chat,
    {
        self.balances.insert(target, amount);
    }

    /// Records `now` as the instant of the latest chat message of `target`.
    pub fn set_latest_chat_instant(&mut self, target: u128, now: u64)
        ensures
            final(self)@.latest_chat == old(self)@.latest_chat.insert(target, now),
            final(self)@.balances == old(self)@.balances,
    {
        self.latest_chat_instants.insert(target, now);
    }

    /// How long ago, seen from `now`, `target` last chatted; `None` if never.
    pub fn get_latest_chat_ago(&self, target: u128, now: u64) -> (ago: Option<u64>)
        ensures
            ago == chat_ago(self@.latest_chat, target, now),
            !self@.latest_chat.contains_key(target) ==> ago is None,
            self@.latest_chat.contains_key(target) ==> ago is Some && ago->0 + self@.latest_chat[target] == now
                || (ago == Some(0u64) && now < self@.latest_chat[target]),
    {
        match self.latest_chat_instants.get(&target) {
            Some(then) => {
                if now >= *then {
                    Some(now - *then)
                } else {
                    Some(0)
                }
            },
            None => None,
        }
    }

    /// Adds `es` to the balance of `player` and reports the milestones that the
    /// new balance reached for the first time, and whether to show the gain.
    pub fn award_es(&mut self, player: u128, es: i64) -> (award: Award)
        requires
            i64::MIN <= balance_in(old(self)@.balances, player) + es <= i64::MAX,
        ensures
            final(self)@.balances == after_add(old(self)@.balances, player, es),
            final(self)@.latest_chat == old(self)@.latest_chat,
            award.old_balance == balance_in(old(self)@.balances, player),
            award.new_balance == balance_in(old(self)@.balances, player) + es,
            award.reached@ == reached_milestones(award.old_balance as int, award.new_balance as int),
            award.show_gain == (es != 0),
    {
        let old_balance = self.get_e(player);
        self.add_e(player, es);
        let new_balance = self.get_e(player);
        let mut reached: Vec<usize> = Vec::new();
        let mut i: usize = 0;
        while i < MILESTONE_COUNT
            invariant
                i <= MILESTONE_COUNT,
                reached@ == reached_among(old_balance as int, new_balance as int, i as nat),
            decreases MILESTONE_COUNT - i,
        {
            let m = milestone(i);
            if old_balance < m.amount && new_balance >= m.amount {
                reached.push(i);
            }
            i = i + 1;
        }
        Award { old_balance, new_balance, reached, show_gain: es != 0 }
    }

    /// Every stored balance as a `(player, amount)` pair, each player once, in
    /// no particular order.
    pub fn balance_entries(&self) -> (entries: Vec<(u128, i64)>)
        ensures
            lists_map(entries@, self@.balances),
    {
        let mut entries: Vec<(u128, i64)> = Vec::new();
        let pairs = self.balances.iter();
        let ghost rem = vstd::std_specs::iter::IteratorSpec::remaining(&pairs);
        assert(rem == vstd::std_specs::iter::IteratorSpec::remaining(
            &vstd::std_specs::hash::spec_hash_map_iter(&self.balances),
        ));
        for kv in it: pairs
            invariant
                it.seq() == rem,
                entries@.len() == it.index(),
                forall|j: int| 0 <= j < it.index() ==>
                    #[trigger] entries@[j] == (*rem[j].0, *rem[j].1),
        {
            let (k, v) = kv;
            entries.push((*k, *v));
        }
        proof {
            let m = self@.balances;
            assert(entries@.len() == rem.len());
            assert forall|p: u128| #[trigger] m.contains_key(p) implies
                exists|j: int| 0 <= j < entries@.len() && entries@[j] == (p, m[p]) by {
                assert(rem.contains((&p, &m[p])));
                let j = choose|j: int| 0 <= j < rem.len() && rem[j] == (&p, &m[p]);
                assert(entries@[j] == (p, m[p]));
            }
            assert forall|j: int, k: int| 0 <= j < k < entries@.len() implies
                entries@[j].0 != entries@[k].0 by {
                if entries@[j].0 == entries@[k].0 {
                    assert(m.contains_key(*rem[j].0));
                    assert(m.contains_key(*rem[k].0));
                    assert(rem[j] == rem[k]);
                }
            }
        }
        entries
    }


    /// Replaces every balance by those of `entries` (a later entry for a
    /// player wins); the chat instants stay.
    pub fn replace_balances(&mut self, entries: Vec<(u128, i64)>)
        ensures
            final(self)@.balances == map_of_entries(entries@),
            final(self)@.latest_chat == old(self)@.latest_chat,
    {
        let mut balances: HashMap<u128, i64> = HashMap::new();
        let mut i: usize = 0;
        while i < entries.len()
            invariant
                i <= entries@.len(),
                balances@ == map_of_entries(entries@.take(i as int)),
            decreases entries@.len() - i,
        {
            let (k, v) = entries[i];
            balances.insert(k, v);
            assert(entries@.take(i + 1).drop_last() == entries@.take(i as int));
            i = i + 1;
        }
        assert(entries@.take(entries@.len() as int) == entries@);
        self.balances = balances;
    }
}

} // verus!
