//! How characters that are no E affect the scan of a message: they never raise
//! the e-density of an E and change no reward or first-occurrence flag, and
//! when every E of a message is worth at most 10 they change nothing at all.
use vstd::prelude::*;
use crate::chat::{density_after, e_reward, lemma_density_range, lemma_reward_range, spec_hits, spec_total, EHit};

verus! {

/// The E characters of `s` (those with a positive reward), in order.
pub open spec fn e_chars(s: Seq<char>) -> Seq<char>
    decreases s.len(),
{
    if s.len() == 0 {
        Seq::empty()
    } else if e_reward(s.last()) > 0 {
        e_chars(s.drop_last()).push(s.last())
    } else {
        e_chars(s.drop_last())
    }
}

/// `s` with the character `x` inserted before position `k`.
pub open spec fn insert_at(s: Seq<char>, k: int, x: char) -> Seq<char> {
    s.take(k).push(x) + s.skip(k)
}

/// Every E of `s` is worth at most 10.
pub open spec fn small_es(s: Seq<char>) -> bool {
    forall|i: int| 0 <= i < s.len() ==> e_reward(#[trigger] s[i]) <= 10
}

/// Two lists of E characters agree on characters, rewards and
/// first-occurrence flags, and no density in `lower` exceeds the one in
/// `upper` at the same place.
pub open spec fn hits_below(lower: Seq<EHit>, upper: Seq<EHit>) -> bool {
    &&& lower.len() == upper.len()
    &&& forall|j: int|
        0 <= j < lower.len() ==> {
            &&& (#[trigger] lower[j]).c == upper[j].c
            &&& lower[j].reward == upper[j].reward
            &&& lower[j].first == upper[j].first
            &&& lower[j].density <= upper[j].density
        }
}

proof fn lemma_e_chars_contains(s: Seq<char>)
    ensures
        forall|c: char| #[trigger] e_chars(s).contains(c) <==> (s.contains(c) && e_reward(c) > 0),
    decreases s.len(),
{
    if s.len() > 0 {
        let b = s.drop_last();
        lemma_e_chars_contains(b);
        assert(s == b.push(s.last()));
        assert forall|c: char| #[trigger] e_chars(s).contains(c) <==> (s.contains(c) && e_reward(c) > 0) by {
            let eb = e_chars(b);
            if e_chars(s).contains(c) {
                let i = choose|i: int| 0 <= i < e_chars(s).len() && e_chars(s)[i] == c;
                if i < eb.len() {
                    assert(eb[i] == c);
                    assert(eb.contains(c));
                    let k = choose|k: int| 0 <= k < b.len() && b[k] == c;
                    assert(s[k] == c);
                } else {
                    assert(s[s.len() - 1] == c);
                }
            }
            if s.contains(c) && e_reward(c) > 0 {
                let k = choose|k: int| 0 <= k < s.len() && s[k] == c;
                if k < b.len() {
                    assert(b[k] == c);
                    assert(eb.contains(c));
                    let i = choose|i: int| 0 <= i < eb.len() && eb[i] == c;
                    assert(e_chars(s)[i] == c);
                } else {
                    assert(e_chars(s)[eb.len() as int] == c);
                }
            }
        }
    }
}

proof fn lemma_small_density_zero(s: Seq<char>)
    requires
        small_es(s),
    ensures
        density_after(s) == 0,
    decreases s.len(),
{
    if s.len() > 0 {
        let b = s.drop_last();
        assert(small_es(b)) by {
            assert forall|i: int| 0 <= i < b.len() implies e_reward(#[trigger] b[i]) <= 10 by {
                assert(b[i] == s[i]);
            }
        }
        lemma_small_density_zero(b);
        assert(e_reward(s[s.len() - 1]) <= 10);
        lemma_reward_range(s.last());
    }
}

proof fn lemma_e_chars_small(s: Seq<char>)
    requires
        small_es(s),
    ensures
        small_es(e_chars(s)),
{
    lemma_e_chars_contains(s);
    let e = e_chars(s);
    assert forall|i: int| 0 <= i < e.len() implies e_reward(#[trigger] e[i]) <= 10 by {
        assert(e.contains(e[i]));
        let k = choose|k: int| 0 <= k < s.len() && s[k] == e[i];
    }
}

proof fn lemma_total_of_e_chars(s: Seq<char>)
    ensures
        spec_total(s) == spec_total(e_chars(s)),
    decreases s.len(),
{
    if s.len() > 0 {
        let b = s.drop_last();
        lemma_total_of_e_chars(b);
        lemma_reward_range(s.last());
        if e_reward(s.last()) > 0 {
            assert(e_chars(b).push(s.last()).drop_last() == e_chars(b));
        }
    }
}

proof fn lemma_hits_of_e_chars(s: Seq<char>)
    requires
        small_es(s),
    ensures
        spec_hits(s) == spec_hits(e_chars(s)),
    decreases s.len(),
{
    if s.len() > 0 {
        let b = s.drop_last();
        let c = s.last();
        assert(small_es(b)) by {
            assert forall|i: int| 0 <= i < b.len() implies e_reward(#[trigger] b[i]) <= 10 by {
                assert(b[i] == s[i]);
            }
        }
        lemma_hits_of_e_chars(b);
        if e_reward(c) > 0 {
            let eb = e_chars(b);
            let es = eb.push(c);
            assert(es.drop_last() == eb);
            assert(es.last() == c);
            lemma_small_density_zero(b);
            lemma_e_chars_small(b);
            lemma_small_density_zero(eb);
            lemma_e_chars_contains(b);
            assert(eb.contains(c) == b.contains(c));
        }
    }
}

/// When every E of a message is worth at most 10, the scan depends only on the
/// message's E characters: two messages with the same E characters in the same
/// order (so one is the other with characters that are no E added or taken
/// out anywhere) have the same E hits, densities included, and the same total.
pub proof fn law_spacing_small_es_changes_nothing(m1: Seq<char>, m2: Seq<char>)
    requires
        small_es(m1),
        e_chars(m1) == e_chars(m2),
    ensures
        spec_hits(m1) == spec_hits(m2),
        spec_total(m1) == spec_total(m2),
{
    lemma_e_chars_contains(m1);
    lemma_e_chars_contains(m2);
    assert(small_es(m2)) by {
        assert forall|i: int| 0 <= i < m2.len() implies e_reward(#[trigger] m2[i]) <= 10 by {
            if e_reward(m2[i]) > 0 {
                assert(m2.contains(m2[i]));
                assert(e_chars(m2).contains(m2[i]));
                assert(m1.contains(m2[i]));
                let k = choose|k: int| 0 <= k < m1.len() && m1[k] == m2[i];
            }
        }
    }
    lemma_hits_of_e_chars(m1);
    lemma_hits_of_e_chars(m2);
    lemma_total_of_e_chars(m1);
    lemma_total_of_e_chars(m2);
}

proof fn lemma_e_chars_concat(a: Seq<char>, b: Seq<char>)
    ensures
        e_chars(a + b) == e_chars(a) + e_chars(b),
    decreases b.len(),
{
    if b.len() == 0 {
        assert(a + b == a);
    } else {
        let bb = b.drop_last();
        lemma_e_chars_concat(a, bb);
        assert((a + b).drop_last() == a + bb);
        assert((a + b).last() == b.last());
    }
}

/// Inserting a character that is no E leaves the E characters of a message as
/// they were.
pub proof fn law_inserting_non_e_keeps_e_chars(s: Seq<char>, k: int, x: char)
    requires
        0 <= k <= s.len(),
        e_reward(x) == 0,
    ensures
        e_chars(insert_at(s, k, x)) == e_chars(s),
{
    let front = s.take(k);
    let back = s.skip(k);
    assert(front + back == s);
    lemma_e_chars_concat(front.push(x), back);
    lemma_e_chars_concat(front, back);
    assert(front.push(x).drop_last() == front);
}

proof fn lemma_insert_step(s: Seq<char>, k: int, x: char)
    requires
        0 <= k <= s.len(),
        e_reward(x) == 0,
    ensures
        hits_below(spec_hits(insert_at(s, k, x)), spec_hits(s)),
        density_after(insert_at(s, k, x)) <= density_after(s),
        forall|c: char|
            e_reward(c) > 0 ==> (#[trigger] insert_at(s, k, x).contains(c) <==> s.contains(c)),
    decreases s.len(),
{
    let t = insert_at(s, k, x);
    lemma_density_range(s);
    if k == s.len() {
        assert(s.take(k) == s);
        assert(s.skip(k) == Seq::<char>::empty());
        assert(t == s.push(x));
        assert(t.drop_last() == s);
        assert forall|c: char| e_reward(c) > 0 implies (#[trigger] t.contains(c) <==> s.contains(c)) by {
            if t.contains(c) {
                let i = choose|i: int| 0 <= i < t.len() && t[i] == c;
                if i < s.len() {
                    assert(s[i] == c);
                }
            }
            if s.contains(c) {
                let i = choose|i: int| 0 <= i < s.len() && s[i] == c;
                assert(t[i] == c);
            }
        }
        assert forall|j: int| 0 <= j < spec_hits(t).len() implies (#[trigger] spec_hits(t)[j]).density
            <= spec_hits(s)[j].density by {}
    } else {
        let b = s.drop_last();
        let c0 = s.last();
        lemma_insert_step(b, k, x);
        let tb = insert_at(b, k, x);
        assert(b.take(k) == s.take(k));
        assert(t == tb.push(c0)) by {
            assert(s.skip(k) == b.skip(k).push(c0));
        }
        assert(t.drop_last() == tb);
        assert(t.last() == c0);
        lemma_density_range(b);
        lemma_density_range(tb);
        lemma_reward_range(c0);
        assert(s == b.push(c0));
        assert forall|c: char| e_reward(c) > 0 implies (#[trigger] t.contains(c) <==> s.contains(c)) by {
            assert(tb.contains(c) <==> b.contains(c));
            if t.contains(c) {
                let i = choose|i: int| 0 <= i < t.len() && t[i] == c;
                if i < tb.len() {
                    assert(tb[i] == c);
                    let j = choose|j: int| 0 <= j < b.len() && b[j] == c;
                    assert(s[j] == c);
                } else {
                    assert(s[s.len() - 1] == c);
                }
            }
            if s.contains(c) {
                let i = choose|i: int| 0 <= i < s.len() && s[i] == c;
                if i < b.len() {
                    assert(b[i] == c);
                    let j = choose|j: int| 0 <= j < tb.len() && tb[j] == c;
                    assert(t[j] == c);
                } else {
                    assert(t[t.len() - 1] == c);
                }
            }
        }
        let ht = spec_hits(tb);
        let hs = spec_hits(b);
        if e_reward(c0) > 0 {
            assert(tb.contains(c0) <==> b.contains(c0));
            assert forall|j: int| 0 <= j < spec_hits(t).len() implies {
                &&& (#[trigger] spec_hits(t)[j]).c == spec_hits(s)[j].c
                &&& spec_hits(t)[j].reward == spec_hits(s)[j].reward
                &&& spec_hits(t)[j].first == spec_hits(s)[j].first
                &&& spec_hits(t)[j].density <= spec_hits(s)[j].density
            } by {
                if j < ht.len() {
                    assert(spec_hits(t)[j] == ht[j]);
                    assert(spec_hits(s)[j] == hs[j]);
                }
            }
        }
    }
}

/// Inserting a character that is no E anywhere in a message never raises the
/// e-density of any of its E characters, and changes no E character, reward or
/// first-occurrence flag; the total stays the same.
pub proof fn law_inserting_non_e_never_raises_density(s: Seq<char>, k: int, x: char)
    requires
        0 <= k <= s.len(),
        e_reward(x) == 0,
    ensures
        hits_below(spec_hits(insert_at(s, k, x)), spec_hits(s)),
        spec_total(insert_at(s, k, x)) == spec_total(s),
{
    lemma_insert_step(s, k, x);
    law_inserting_non_e_keeps_e_chars(s, k, x);
    lemma_total_of_e_chars(s);
    lemma_total_of_e_chars(insert_at(s, k, x));
}

} // verus!
