//! What the ledger and the milestone rules keep across calls.
use vstd::prelude::*;
use crate::milestones::{milestone_amounts, MILESTONE_COUNT};
use crate::state::{
    after_add, after_remove, balance_in, chat_ago, lists_map, map_of_entries, reached_among,
    reached_milestones, reaches,
};

verus! {

/// After an award of `amount` to `player`, reading the balance of `player`
/// gives the old balance plus `amount`, and every other balance is unchanged.
pub proof fn law_add_then_get(balances: Map<u128, i64>, player: u128, amount: i64, other: u128)
    requires
        i64::MIN <= balance_in(balances, player) + amount <= i64::MAX,
    ensures
        balance_in(after_add(balances, player, amount), player) == balance_in(balances, player)
            + amount,
        other != player ==> balance_in(after_add(balances, player, amount), other) == balance_in(
            balances,
            other,
        ),
{
}

/// Taking back what was just added gives every player the balance that they
/// had before.
pub proof fn law_remove_undoes_add(balances: Map<u128, i64>, player: u128, amount: i64, anyone: u128)
    requires
        i64::MIN <= balance_in(balances, player) + amount <= i64::MAX,
    ensures
        balance_in(after_remove(after_add(balances, player, amount), player, amount), anyone)
            == balance_in(balances, anyone),
{
}

/// After setting the balance of `player` to `amount`, reading it gives
/// `amount`; every other balance is unchanged.
pub proof fn law_set_then_get(balances: Map<u128, i64>, player: u128, amount: i64, other: u128)
    ensures
        balance_in(balances.insert(player, amount), player) == amount,
        other != player ==> balance_in(balances.insert(player, amount), other) == balance_in(
            balances,
            other,
        ),
{
}

/// A player never seen has a balance of 0.
pub proof fn law_unknown_player_has_nothing(balances: Map<u128, i64>, player: u128)
    requires
        !balances.contains_key(player),
    ensures
        balance_in(balances, player) == 0,
{
}

/// After recording a chat of `player` at `then`, asking at `now` how long ago
/// `player` chatted gives the time elapsed since `then`, or zero if `now` is
/// not later.
pub proof fn law_chat_recorded_then_ago(
    latest_chat: Map<u128, u64>,
    player: u128,
    then: u64,
    now: u64,
)
    ensures
        chat_ago(latest_chat.insert(player, then), player, now) == Some(
            (if now >= then {
                (now - then) as u64
            } else {
                0u64
            }),
        ),
        chat_ago(latest_chat.insert(player, then), player, then) == Some(0u64),
{
}

/// A player whose chat was never recorded has no chat age, whatever the time
/// of asking; a player whose chat was recorded always has one, and it never
/// exceeds the time of asking.
pub proof fn law_never_chatted_has_no_age(latest_chat: Map<u128, u64>, player: u128, now: u64)
    ensures
        !latest_chat.contains_key(player) ==> chat_ago(latest_chat, player, now) is None,
        latest_chat.contains_key(player) ==> chat_ago(latest_chat, player, now) is Some
            && chat_ago(latest_chat, player, now)->0 <= now,
        chat_ago(Map::<u128, u64>::empty(), player, now) is None,
{
}

/// Loading back the entries that a ledger lists gives the same balances.
pub proof fn law_entries_load_back(entries: Seq<(u128, i64)>, balances: Map<u128, i64>)
    requires
        lists_map(entries, balances),
    ensures
        map_of_entries(entries) == balances,
{
    lemma_map_of_distinct_entries(entries);
    assert(map_of_entries(entries) =~= balances);
}

proof fn lemma_map_of_distinct_entries(entries: Seq<(u128, i64)>)
    requires
        forall|j: int, k: int| 0 <= j < k < entries.len() ==> entries[j].0 != entries[k].0,
    ensures
        forall|p: u128|
            #[trigger] map_of_entries(entries).contains_key(p) <==> exists|j: int|
                0 <= j < entries.len() && entries[j].0 == p,
        forall|j: int|
            0 <= j < entries.len() ==> #[trigger] map_of_entries(entries)[entries[j].0]
                == entries[j].1,
    decreases entries.len(),
{
    if entries.len() > 0 {
        let before = entries.drop_last();
        lemma_map_of_distinct_entries(before);
        let m = map_of_entries(entries);
        assert forall|p: u128| #[trigger] m.contains_key(p) implies exists|j: int|
            0 <= j < entries.len() && entries[j].0 == p by {
            if p != entries.last().0 {
                assert(map_of_entries(before).contains_key(p));
                let j = choose|j: int| 0 <= j < before.len() && before[j].0 == p;
                assert(entries[j].0 == p);
            } else {
                assert(entries[entries.len() - 1].0 == p);
            }
        }
        assert forall|p: u128|
            (exists|j: int| 0 <= j < entries.len() && entries[j].0 == p) implies #[trigger] m.contains_key(p) by {
            let j = choose|j: int| 0 <= j < entries.len() && entries[j].0 == p;
            if j < before.len() {
                assert(before[j].0 == p);
                assert(map_of_entries(before).contains_key(p));
            } else {
                assert(entries[j] == entries.last());
            }
        }
        assert forall|j: int| 0 <= j < entries.len() implies #[trigger] m[entries[j].0]
            == entries[j].1 by {
            if j < before.len() {
                assert(before[j] == entries[j]);
                assert(entries[j].0 != entries[entries.len() - 1].0);
                assert(map_of_entries(before)[before[j].0] == before[j].1);
            } else {
                assert(entries[j] == entries.last());
            }
        }
    }
}

/// The milestone amounts strictly increase.
pub proof fn law_milestones_increase(i: int, j: int)
    requires
        0 <= i < j < MILESTONE_COUNT,
    ensures
        milestone_amounts()[i] < milestone_amounts()[j],
{
}

proof fn lemma_reached_among(old: int, new: int, k: nat)
    requires
        k <= MILESTONE_COUNT,
    ensures
        forall|i: int|
            0 <= i < k ==> (reached_among(old, new, k).contains(i as usize) <==> reaches(
                old,
                new,
                milestone_amounts()[i] as int,
            )),
        forall|a: int, b: int|
            0 <= a < b < reached_among(old, new, k).len() ==> reached_among(old, new, k)[a]
                < reached_among(old, new, k)[b],
        forall|a: int|
            0 <= a < reached_among(old, new, k).len() ==> reached_among(old, new, k)[a] < k,
    decreases k,
{
    if k > 0 {
        lemma_reached_among(old, new, (k - 1) as nat);
        let before = reached_among(old, new, (k - 1) as nat);
        let now = reached_among(old, new, k);
        assert forall|i: int| 0 <= i < k implies (now.contains(i as usize) <==> reaches(
            old,
            new,
            milestone_amounts()[i] as int,
        )) by {
            if now.contains(i as usize) {
                let a = choose|a: int| 0 <= a < now.len() && now[a] == i as usize;
                if a < before.len() {
                    assert(before[a] == now[a]);
                }
            }
            if reaches(old, new, milestone_amounts()[i] as int) {
                if i < k - 1 {
                    let a = choose|a: int| 0 <= a < before.len() && before[a] == i as usize;
                    assert(now[a] == before[a]);
                } else {
                    assert(now[now.len() - 1] == i as usize);
                }
            }
        }
    }
}

/// An award announces exactly the milestones whose amount the balance moves
/// past (from below the amount to at least the amount), each once, in
/// increasing order.
pub proof fn law_reached_exactly(old: int, new: int)
    ensures
        forall|i: int|
            0 <= i < MILESTONE_COUNT ==> (reached_milestones(old, new).contains(i as usize)
                <==> old < #[trigger] milestone_amounts()[i] <= new),
        forall|a: int, b: int|
            0 <= a < b < reached_milestones(old, new).len() ==> reached_milestones(old, new)[a]
                < reached_milestones(old, new)[b],
        forall|a: int|
            0 <= a < reached_milestones(old, new).len() ==> reached_milestones(old, new)[a]
                < MILESTONE_COUNT,
{
    lemma_reached_among(old, new, MILESTONE_COUNT as nat);
}

proof fn lemma_reached_split(old: int, mid: int, new: int, k: nat)
    requires
        old <= mid <= new,
        k <= MILESTONE_COUNT,
    ensures
        reached_among(old, new, k).to_set() == reached_among(old, mid, k).to_set().union(
            reached_among(mid, new, k).to_set(),
        ),
        reached_among(old, mid, k).to_set().disjoint(reached_among(mid, new, k).to_set()),
{
    lemma_reached_among(old, new, k);
    lemma_reached_among(old, mid, k);
    lemma_reached_among(mid, new, k);
    let all = reached_among(old, new, k);
    let first = reached_among(old, mid, k);
    let second = reached_among(mid, new, k);
    assert forall|x: usize| all.to_set().contains(x) <==> first.to_set().union(
        second.to_set(),
    ).contains(x) by {
        if all.to_set().contains(x) {
            let a = choose|a: int| 0 <= a < all.len() && all[a] == x;
            assert(all.contains(x));
        }
        if first.to_set().contains(x) {
            assert(first.contains(x));
            let a = choose|a: int| 0 <= a < first.len() && first[a] == x;
        }
        if second.to_set().contains(x) {
            assert(second.contains(x));
            let a = choose|a: int| 0 <= a < second.len() && second[a] == x;
        }
    }
    assert(all.to_set() =~= first.to_set().union(second.to_set()));
    assert forall|x: usize| !(first.to_set().contains(x) && second.to_set().contains(x)) by {
        if first.to_set().contains(x) && second.to_set().contains(x) {
            assert(first.contains(x));
            assert(second.contains(x));
            let a = choose|a: int| 0 <= a < first.len() && first[a] == x;
        }
    }
}

/// When a balance grows in two steps, the milestones announced along the way
/// are those that one step to the final balance would announce, and no
/// milestone is announced twice.
pub proof fn law_reached_in_steps(old: int, mid: int, new: int)
    requires
        old <= mid <= new,
    ensures
        reached_milestones(old, new).to_set() == reached_milestones(old, mid).to_set().union(
            reached_milestones(mid, new).to_set(),
        ),
        reached_milestones(old, mid).to_set().disjoint(reached_milestones(mid, new).to_set()),
{
    lemma_reached_split(old, mid, new, MILESTONE_COUNT as nat);
}

} // verus!
