//! What the scan of a chat message keeps: the pieces spell the message, the
//! pieces are well formed, and the E characters carry their rewards, a bounded
//! density and a first-occurrence flag that marks each distinct E once.
use vstd::prelude::*;
use crate::chat::{
    close_text, density_after, e_reward, lemma_density_range, lemma_reward_range, parts_and_pending, spec_hits,
    spec_parts, spec_total, EHit, PartView,
};

verus! {

/// The reward table, character by character: each E-like character is worth
/// the Es listed here; plain letters, digits and spaces are worth nothing.
pub proof fn law_reward_table()
    ensures
        e_reward('e') == 1,
        e_reward('E') == 1,
        e_reward('\u{e9}') == 3,
        e_reward('\u{c9}') == 3,
        e_reward('\u{e8}') == 3,
        e_reward('\u{c8}') == 3,
        e_reward('\u{ea}') == 3,
        e_reward('\u{ca}') == 3,
        e_reward('\u{eb}') == 3,
        e_reward('\u{cb}') == 3,
        e_reward('\u{113}') == 5,
        e_reward('\u{112}') == 5,
        e_reward('\u{115}') == 5,
        e_reward('\u{114}') == 5,
        e_reward('\u{117}') == 5,
        e_reward('\u{116}') == 5,
        e_reward('\u{119}') == 7,
        e_reward('\u{118}') == 7,
        e_reward('\u{11b}') == 7,
        e_reward('\u{11a}') == 7,
        e_reward('\u{ff45}') == 11,
        e_reward('\u{ff25}') == 11,
        e_reward('\u{435}') == 13,
        e_reward('\u{415}') == 13,
        e_reward('\u{395}') == 15,
        e_reward('\u{3a3}') == 16,
        e_reward('\u{3b5}') == 17,
        e_reward('\u{3f5}') == 19,
        e_reward('\u{1e15}') == 23,
        e_reward('\u{1e17}') == 23,
        e_reward('\u{1e19}') == 23,
        e_reward('\u{1e1b}') == 23,
        e_reward('\u{1e1d}') == 23,
        e_reward('\u{1eb9}') == 23,
        e_reward('\u{1ebb}') == 23,
        e_reward('\u{1ebd}') == 23,
        e_reward('\u{1ebf}') == 23,
        e_reward('\u{1ec1}') == 23,
        e_reward('\u{1ec3}') == 23,
        e_reward('\u{1ec5}') == 23,
        e_reward('\u{1ec7}') == 23,
        e_reward('\u{1f10}') == 27,
        e_reward('\u{1f11}') == 27,
        e_reward('\u{1f12}') == 27,
        e_reward('\u{1f13}') == 27,
        e_reward('\u{1f14}') == 27,
        e_reward('\u{1f15}') == 27,
        e_reward('\u{1f72}') == 27,
        e_reward('\u{1f73}') == 27,
        e_reward('\u{1e14}') == 33,
        e_reward('\u{1e16}') == 33,
        e_reward('\u{1e18}') == 33,
        e_reward('\u{1e1a}') == 33,
        e_reward('\u{1e1c}') == 33,
        e_reward('\u{1eb8}') == 33,
        e_reward('\u{1eba}') == 33,
        e_reward('\u{1ebc}') == 33,
        e_reward('\u{1ebe}') == 33,
        e_reward('\u{1ec0}') == 33,
        e_reward('\u{1ec2}') == 33,
        e_reward('\u{1ec4}') == 33,
        e_reward('\u{1ec6}') == 33,
        e_reward('\u{204}') == 33,
        e_reward('\u{205}') == 33,
        e_reward('\u{1fc8}') == 37,
        e_reward('\u{1fc9}') == 37,
        e_reward('\u{1f18}') == 37,
        e_reward('\u{1f19}') == 37,
        e_reward('\u{1f1a}') == 37,
        e_reward('\u{1f1b}') == 37,
        e_reward('\u{1f1c}') == 37,
        e_reward('\u{1f1d}') == 37,
        e_reward('\u{24d4}') == 43,
        e_reward('\u{24ba}') == 43,
        e_reward('\u{24a0}') == 47,
        e_reward('\u{1f114}') == 47,
        e_reward('\u{212f}') == 51,
        e_reward('\u{2203}') == 57,
        e_reward('\u{220a}') == 63,
        e_reward('\u{20ac}') == 69,
        e_reward('\u{2130}') == 73,
        e_reward('\u{2107}') == 77,
        e_reward('\u{404}') == 77,
        e_reward('\u{42d}') == 77,
        e_reward('\u{44d}') == 77,
        e_reward('\u{454}') == 77,
        e_reward('\u{4bd}') == 81,
        e_reward('\u{118a6}') == 85,
        e_reward('\u{364}') == 85,
        e_reward('\u{2091}') == 85,
        e_reward('\u{247}') == 87,
        e_reward('\u{246}') == 87,
        e_reward('\u{4ed}') == 87,
        e_reward('\u{4ec}') == 87,
        e_reward('\u{10304}') == 91,
        e_reward('\u{1ccda}') == 91,
        e_reward('\u{1f134}') == 91,
        e_reward('\u{16e4f}') == 94,
        e_reward('\u{1e4e4}') == 94,
        e_reward('\u{1f154}') == 97,
        e_reward('\u{1f174}') == 97,
        e_reward('\u{1f1ea}') == 101,
        e_reward('\u{1a9}') == 105,
        e_reward('\u{1b8}') == 111,
        e_reward('\u{1b9}') == 111,
        e_reward('a') == 0,
        e_reward('z') == 0,
        e_reward('A') == 0,
        e_reward(' ') == 0,
        e_reward('0') == 0,
        e_reward('!') == 0,
{
}

/// Only the characters of the table are worth anything: every other
/// character is worth 0.
pub proof fn law_reward_zero_elsewhere(c: char)
    ensures
        e_reward(c) > 0 ==> (c == 'e'
            || c == 'E'
            || c == '\u{e9}'
            || c == '\u{c9}'
            || c == '\u{e8}'
            || c == '\u{c8}'
            || c == '\u{ea}'
            || c == '\u{ca}'
            || c == '\u{eb}'
            || c == '\u{cb}'
            || c == '\u{113}'
            || c == '\u{112}'
            || c == '\u{115}'
            || c == '\u{114}'
            || c == '\u{117}'
            || c == '\u{116}'
            || c == '\u{119}'
            || c == '\u{118}'
            || c == '\u{11b}'
            || c == '\u{11a}'
            || c == '\u{ff45}'
            || c == '\u{ff25}'
            || c == '\u{435}'
            || c == '\u{415}'
            || c == '\u{395}'
            || c == '\u{3a3}'
            || c == '\u{3b5}'
            || c == '\u{3f5}'
            || c == '\u{1e15}'
            || c == '\u{1e17}'
            || c == '\u{1e19}'
            || c == '\u{1e1b}'
            || c == '\u{1e1d}'
            || c == '\u{1eb9}'
            || c == '\u{1ebb}'
            || c == '\u{1ebd}'
            || c == '\u{1ebf}'
            || c == '\u{1ec1}'
            || c == '\u{1ec3}'
            || c == '\u{1ec5}'
            || c == '\u{1ec7}'
            || c == '\u{1f10}'
            || c == '\u{1f11}'
            || c == '\u{1f12}'
            || c == '\u{1f13}'
            || c == '\u{1f14}'
            || c == '\u{1f15}'
            || c == '\u{1f72}'
            || c == '\u{1f73}'
            || c == '\u{1e14}'
            || c == '\u{1e16}'
            || c == '\u{1e18}'
            || c == '\u{1e1a}'
            || c == '\u{1e1c}'
            || c == '\u{1eb8}'
            || c == '\u{1eba}'
            || c == '\u{1ebc}'
            || c == '\u{1ebe}'
            || c == '\u{1ec0}'
            || c == '\u{1ec2}'
            || c == '\u{1ec4}'
            || c == '\u{1ec6}'
            || c == '\u{204}'
            || c == '\u{205}'
            || c == '\u{1fc8}'
            || c == '\u{1fc9}'
            || c == '\u{1f18}'
            || c == '\u{1f19}'
            || c == '\u{1f1a}'
            || c == '\u{1f1b}'
            || c == '\u{1f1c}'
            || c == '\u{1f1d}'
            || c == '\u{24d4}'
            || c == '\u{24ba}'
            || c == '\u{24a0}'
            || c == '\u{1f114}'
            || c == '\u{212f}'
            || c == '\u{2203}'
            || c == '\u{220a}'
            || c == '\u{20ac}'
            || c == '\u{2130}'
            || c == '\u{2107}'
            || c == '\u{404}'
            || c == '\u{42d}'
            || c == '\u{44d}'
            || c == '\u{454}'
            || c == '\u{4bd}'
            || c == '\u{118a6}'
            || c == '\u{364}'
            || c == '\u{2091}'
            || c == '\u{247}'
            || c == '\u{246}'
            || c == '\u{4ed}'
            || c == '\u{4ec}'
            || c == '\u{10304}'
            || c == '\u{1ccda}'
            || c == '\u{1f134}'
            || c == '\u{16e4f}'
            || c == '\u{1e4e4}'
            || c == '\u{1f154}'
            || c == '\u{1f174}'
            || c == '\u{1f1ea}'
            || c == '\u{1a9}'
            || c == '\u{1b8}'
            || c == '\u{1b9}'),
{
}

/// Each character changes the e-density by adding its reward, taking off 10
/// (not going below 0) and halving, rounding down; so a character that is no
/// E at least halves the density, and a density of at most 10 drops to 0.
pub proof fn law_density_step(s: Seq<char>, x: char)
    ensures
        2 * density_after(s.push(x)) <= (if density_after(s) + e_reward(x) - 10 < 0 { 0 } else {
            density_after(s) + e_reward(x) - 10
        }) < 2 * density_after(s.push(x)) + 2,
        e_reward(x) == 0 ==> 2 * density_after(s.push(x)) <= density_after(s),
        e_reward(x) == 0 && density_after(s) <= 10 ==> density_after(s.push(x)) == 0,
{
    assert(s.push(x).drop_last() == s);
    lemma_density_range(s);
}

/// The characters that a piece stands for.
pub open spec fn part_chars(p: PartView) -> Seq<char> {
    match p {
        PartView::Text(t) => t,
        PartView::E(c, _) => seq![c],
    }
}

/// The characters of a sequence of pieces, one after the other.
pub open spec fn flatten(parts: Seq<PartView>) -> Seq<char>
    decreases parts.len(),
{
    if parts.len() == 0 {
        Seq::empty()
    } else {
        flatten(parts.drop_last()) + part_chars(parts.last())
    }
}

/// A piece is well formed: a text piece is not empty and holds no E, an E piece
/// carries the reward of its character, which is positive.
pub open spec fn part_ok(p: PartView) -> bool {
    match p {
        PartView::Text(t) => t.len() > 0 && forall|k: int| 0 <= k < t.len() ==> e_reward(#[trigger] t[k]) == 0,
        PartView::E(c, r) => r == e_reward(c) && r > 0,
    }
}

/// Every piece is well formed and no two text pieces stand next to each other.
pub open spec fn well_split(parts: Seq<PartView>) -> bool {
    &&& forall|i: int| 0 <= i < parts.len() ==> part_ok(#[trigger] parts[i])
    &&& forall|i: int|
        0 <= i < parts.len() - 1 ==> !((#[trigger] parts[i] is Text) && parts[i + 1] is Text)
}

/// The sum of the rewards of a sequence of E characters.
pub open spec fn hits_reward_sum(hits: Seq<EHit>) -> int
    decreases hits.len(),
{
    if hits.len() == 0 {
        0
    } else {
        hits_reward_sum(hits.drop_last()) + hits.last().reward
    }
}

proof fn lemma_flatten_push(parts: Seq<PartView>, p: PartView)
    ensures
        flatten(parts.push(p)) == flatten(parts) + part_chars(p),
{
    assert(parts.push(p).drop_last() == parts);
}

proof fn lemma_flatten_close(parts: Seq<PartView>, pending: Seq<char>)
    ensures
        flatten(close_text(parts, pending)) == flatten(parts) + pending,
{
    if pending.len() > 0 {
        lemma_flatten_push(parts, PartView::Text(pending));
    } else {
        assert(flatten(parts) + pending == flatten(parts));
    }
}

proof fn lemma_pending_spells(s: Seq<char>)
    ensures
        flatten(parts_and_pending(s).0) + parts_and_pending(s).1 == s,
    decreases s.len(),
{
    if s.len() > 0 {
        let before = s.drop_last();
        lemma_pending_spells(before);
        let (parts, pending) = parts_and_pending(before);
        let c = s.last();
        if e_reward(c) > 0 {
            lemma_flatten_close(parts, pending);
            lemma_flatten_push(close_text(parts, pending), PartView::E(c, e_reward(c)));
        }
        assert(before.push(c) == s);
    }
}

/// The pieces of a message, put back together, give the message.
pub proof fn law_parts_spell_message(s: Seq<char>)
    ensures
        flatten(spec_parts(s)) == s,
{
    lemma_pending_spells(s);
    lemma_flatten_close(parts_and_pending(s).0, parts_and_pending(s).1);
}

proof fn lemma_pending_ok(s: Seq<char>)
    ensures
        well_split(parts_and_pending(s).0),
        parts_and_pending(s).0.len() > 0 ==> parts_and_pending(s).0.last() is E,
        forall|k: int|
            0 <= k < parts_and_pending(s).1.len() ==> e_reward(#[trigger] parts_and_pending(s).1[k])
                == 0,
    decreases s.len(),
{
    if s.len() > 0 {
        let before = s.drop_last();
        lemma_pending_ok(before);
        let (parts, pending) = parts_and_pending(before);
        let c = s.last();
        if e_reward(c) > 0 {
            let closed = close_text(parts, pending);
            let next = closed.push(PartView::E(c, e_reward(c)));
            assert(well_split(closed));
            assert(well_split(next)) by {
                assert forall|i: int| 0 <= i < next.len() implies part_ok(#[trigger] next[i]) by {
                    if i < closed.len() {
                        assert(next[i] == closed[i]);
                    }
                }
            }
        } else {
            let next = pending.push(c);
            assert forall|k: int| 0 <= k < next.len() implies e_reward(#[trigger] next[k]) == 0 by {
                if k < pending.len() {
                    assert(next[k] == pending[k]);
                }
            }
        }
    }
}

/// The pieces of a message are well formed: text pieces are not empty and hold
/// no E, E pieces carry their positive reward, and no two texts are adjacent.
pub proof fn law_parts_well_split(s: Seq<char>)
    ensures
        well_split(spec_parts(s)),
{
    lemma_pending_ok(s);
    let (parts, pending) = parts_and_pending(s);
    if pending.len() > 0 {
        let next = parts.push(PartView::Text(pending));
        assert forall|i: int| 0 <= i < next.len() implies part_ok(#[trigger] next[i]) by {
            if i < parts.len() {
                assert(next[i] == parts[i]);
            }
        }
        assert forall|i: int| 0 <= i < next.len() - 1 implies !((#[trigger] next[i] is Text)
            && next[i + 1] is Text) by {
            if i < parts.len() - 1 {
                assert(next[i] == parts[i]);
                assert(next[i + 1] == parts[i + 1]);
            } else {
                assert(next[i] == parts.last());
            }
        }
    }
}

/// Every E character of a message carries its reward, which is positive, and a
/// density between its reward and 222.
pub proof fn law_hits_rewards_and_density(s: Seq<char>)
    ensures
        forall|j: int|
            0 <= j < spec_hits(s).len() ==> {
                let h = #[trigger] spec_hits(s)[j];
                &&& h.reward == e_reward(h.c)
                &&& h.reward > 0
                &&& h.reward <= h.density <= 222
            },
    decreases s.len(),
{
    if s.len() > 0 {
        let before = s.drop_last();
        law_hits_rewards_and_density(before);
        lemma_density_range(before);
        lemma_reward_range(s.last());
        let hs = spec_hits(before);
        if e_reward(s.last()) > 0 {
            assert forall|j: int| 0 <= j < hs.len() implies #[trigger] spec_hits(s)[j] == hs[j] by {}
        }
    }
}

/// The sum of the rewards of a message is the sum over its E characters.
pub proof fn law_total_is_sum_of_hits(s: Seq<char>)
    ensures
        spec_total(s) == hits_reward_sum(spec_hits(s)),
    decreases s.len(),
{
    if s.len() > 0 {
        let before = s.drop_last();
        law_total_is_sum_of_hits(before);
        let c = s.last();
        if e_reward(c) > 0 {
            let hs = spec_hits(before);
            assert(hs.push(spec_hits(s).last()).drop_last() == hs);
        } else {
            lemma_reward_range(c);
        }
    }
}

proof fn lemma_hit_chars(s: Seq<char>, c: char)
    requires
        e_reward(c) > 0,
    ensures
        s.contains(c) <==> exists|j: int|
            0 <= j < spec_hits(s).len() && (#[trigger] spec_hits(s)[j]).c == c,
    decreases s.len(),
{
    if s.len() > 0 {
        let before = s.drop_last();
        lemma_hit_chars(before, c);
        let hs = spec_hits(before);
        let last = s.last();
        assert(s == before.push(last));
        if s.contains(c) {
            let k = choose|k: int| 0 <= k < s.len() && s[k] == c;
            if k < before.len() {
                assert(before[k] == c);
                let j = choose|j: int| 0 <= j < hs.len() && (#[trigger] hs[j]).c == c;
                assert(spec_hits(s)[j] == hs[j]);
            } else {
                assert(spec_hits(s)[hs.len() as int].c == c);
            }
        }
        if exists|j: int| 0 <= j < spec_hits(s).len() && (#[trigger] spec_hits(s)[j]).c == c {
            let j = choose|j: int| 0 <= j < spec_hits(s).len() && (#[trigger] spec_hits(s)[j]).c == c;
            if j < hs.len() {
                assert(spec_hits(s)[j] == hs[j]);
                assert(before.contains(c));
                let k = choose|k: int| 0 <= k < before.len() && before[k] == c;
                assert(s[k] == c);
            } else {
                assert(s[s.len() - 1] == c);
            }
        }
    }
}

/// An E character is marked as a first occurrence exactly when no earlier E
/// character of the message is the same character: the bonus for a new kind of
/// E comes once per distinct E.
pub proof fn law_first_marks_distinct(s: Seq<char>)
    ensures
        forall|j: int|
            0 <= j < spec_hits(s).len() ==> ((#[trigger] spec_hits(s)[j]).first <==> forall|i: int|
                0 <= i < j ==> spec_hits(s)[i].c != spec_hits(s)[j].c),
    decreases s.len(),
{
    if s.len() > 0 {
        let before = s.drop_last();
        law_first_marks_distinct(before);
        let hs = spec_hits(before);
        let c = s.last();
        if e_reward(c) > 0 {
            let all = spec_hits(s);
            assert forall|j: int| 0 <= j < hs.len() implies #[trigger] all[j] == hs[j] by {}
            lemma_hit_chars(before, c);
            let n = hs.len() as int;
            assert(all[n].c == c);
            if all[n].first {
                assert forall|i: int| 0 <= i < n implies all[i].c != all[n].c by {
                    assert(all[i] == hs[i]);
                }
            } else {
                let j = choose|j: int| 0 <= j < hs.len() && (#[trigger] hs[j]).c == c;
                assert(all[j] == hs[j]);
            }
            assert forall|j: int| 0 <= j < all.len() implies ((#[trigger] all[j]).first <==> forall|i: int|
                0 <= i < j ==> all[i].c != all[j].c) by {
                if j < n {
                    assert(all[j] == hs[j]);
                    assert forall|i: int| 0 <= i < j implies all[i] == hs[i] by {}
                }
            }
        }
    }
}

/// Every E character of a message gives exactly one hit, in order, repeats
/// included: the hits' characters are the message's characters of positive
/// reward, and each hit carries the reward of its character.
pub proof fn law_hits_are_every_e(s: Seq<char>)
    ensures
        spec_hits(s).map_values(|h: EHit| h.c) == s.filter(|c: char| e_reward(c) > 0),
        forall|j: int|
            0 <= j < spec_hits(s).len() ==> (#[trigger] spec_hits(s)[j]).reward == e_reward(
                spec_hits(s)[j].c,
            ),
    decreases s.len(),
{
    reveal(Seq::filter);
    law_hits_rewards_and_density(s);
    if s.len() > 0 {
        let b = s.drop_last();
        law_hits_are_every_e(b);
        let hb = spec_hits(b);
        let c = s.last();
        if e_reward(c) > 0 {
            assert(spec_hits(s).map_values(|h: EHit| h.c) =~= hb.map_values(|h: EHit| h.c).push(c));
        }
    } else {
        assert(spec_hits(s).map_values(|h: EHit| h.c) =~= Seq::<char>::empty());
    }
}

/// The total of a message is the sum of the rewards of all its characters,
/// each counted every time it occurs.
pub proof fn law_total_sums_every_char(s: Seq<char>)
    ensures
        spec_total(s) == s.fold_left(0int, |acc: int, c: char| acc + e_reward(c)),
    decreases s.len(),
{
    if s.len() > 0 {
        law_total_sums_every_char(s.drop_last());
    }
}

} // verus!
