//! The E characters of chat messages, their rewards, and the scan of a message.
use vstd::prelude::*;
use std::collections::HashSet;
use crate::state::{chat_ago, EState};

verus! {

broadcast use {
    vstd::std_specs::hash::group_hash_axioms,
    vstd::std_specs::hash::axiom_u32_obeys_hash_table_key_model,
    vstd::std_specs::hash::axiom_random_state_builds_valid_hashers,
    vstd::string::group_string_axioms,
};

/// The reward of a character: how many Es it is worth (0 for a character that
/// is no E).
pub open spec fn e_reward(c: char) -> i64 {
    if c == 'e' || c == 'E' {
        1
    } else if c == '\u{e9}' || c == '\u{c9}' || c == '\u{e8}' || c == '\u{c8}' || c == '\u{ea}' || c == '\u{ca}' || c == '\u{eb}' || c == '\u{cb}' {
        3
    } else if c == '\u{113}' || c == '\u{112}' || c == '\u{115}' || c == '\u{114}' || c == '\u{117}' || c == '\u{116}' {
        5
    } else if c == '\u{119}' || c == '\u{118}' || c == '\u{11b}' || c == '\u{11a}' {
        7
    } else if c == '\u{ff45}' || c == '\u{ff25}' {
        11
    } else if c == '\u{435}' || c == '\u{415}' {
        13
    } else if c == '\u{395}' {
        15
    } else if c == '\u{3a3}' {
        16
    } else if c == '\u{3b5}' {
        17
    } else if c == '\u{3f5}' {
        19
    } else if c == '\u{1e15}' || c == '\u{1e17}' || c == '\u{1e19}' || c == '\u{1e1b}' || c == '\u{1e1d}' || c == '\u{1eb9}' || c == '\u{1ebb}' || c == '\u{1ebd}' || c == '\u{1ebf}' || c == '\u{1ec1}' || c == '\u{1ec3}' || c == '\u{1ec5}' || c == '\u{1ec7}' {
        23
    } else if c == '\u{1f10}' || c == '\u{1f11}' || c == '\u{1f12}' || c == '\u{1f13}' || c == '\u{1f14}' || c == '\u{1f15}' || c == '\u{1f72}' || c == '\u{1f73}' {
        27
    } else if c == '\u{1e14}' || c == '\u{1e16}' || c == '\u{1e18}' || c == '\u{1e1a}' || c == '\u{1e1c}' || c == '\u{1eb8}' || c == '\u{1eba}' || c == '\u{1ebc}' || c == '\u{1ebe}' || c == '\u{1ec0}' || c == '\u{1ec2}' || c == '\u{1ec4}' || c == '\u{1ec6}' || c == '\u{204}' || c == '\u{205}' {
        33
    } else if c == '\u{1fc8}' || c == '\u{1fc9}' || c == '\u{1f18}' || c == '\u{1f19}' || c == '\u{1f1a}' || c == '\u{1f1b}' || c == '\u{1f1c}' || c == '\u{1f1d}' {
        37
    } else if c == '\u{24d4}' || c == '\u{24ba}' {
        43
    } else if c == '\u{24a0}' || c == '\u{1f114}' {
        47
    } else if c == '\u{212f}' {
        51
    } else if c == '\u{2203}' {
        57
    } else if c == '\u{220a}' {
        63
    } else if c == '\u{20ac}' {
        69
    } else if c == '\u{2130}' {
        73
    } else if c == '\u{2107}' || c == '\u{404}' || c == '\u{42d}' || c == '\u{44d}' || c == '\u{454}' {
        77
    } else if c == '\u{4bd}' {
        81
    } else if c == '\u{118a6}' || c == '\u{364}' || c == '\u{2091}' {
        85
    } else if c == '\u{247}' || c == '\u{246}' || c == '\u{4ed}' || c == '\u{4ec}' {
        87
    } else if c == '\u{10304}' || c == '\u{1ccda}' || c == '\u{1f134}' {
        91
    } else if c == '\u{16e4f}' || c == '\u{1e4e4}' {
        94
    } else if c == '\u{1f154}' || c == '\u{1f174}' {
        97
    } else if c == '\u{1f1ea}' {
        101
    } else if c == '\u{1a9}' {
        105
    } else if c == '\u{1b8}' || c == '\u{1b9}' {
        111
    } else {
        0
    }
}

/// The reward of a character, looked up in the table of E characters.
pub fn get_e_reward(c: char) -> (reward: i64)
    ensures
        reward == e_reward(c),
{
    match c {
        'e' | 'E' => 1,
        '\u{e9}' | '\u{c9}' | '\u{e8}' | '\u{c8}' | '\u{ea}' | '\u{ca}' | '\u{eb}' | '\u{cb}' => 3,
        '\u{113}' | '\u{112}' | '\u{115}' | '\u{114}' | '\u{117}' | '\u{116}' => 5,
        '\u{119}' | '\u{118}' | '\u{11b}' | '\u{11a}' => 7,
        '\u{ff45}' | '\u{ff25}' => 11,
        '\u{435}' | '\u{415}' => 13,
        '\u{395}' => 15,
        '\u{3a3}' => 16,
        '\u{3b5}' => 17,
        '\u{3f5}' => 19,
        '\u{1e15}' | '\u{1e17}' | '\u{1e19}' | '\u{1e1b}' | '\u{1e1d}' | '\u{1eb9}' | '\u{1ebb}' | '\u{1ebd}' | '\u{1ebf}' | '\u{1ec1}' | '\u{1ec3}' | '\u{1ec5}' | '\u{1ec7}' => 23,
        '\u{1f10}' | '\u{1f11}' | '\u{1f12}' | '\u{1f13}' | '\u{1f14}' | '\u{1f15}' | '\u{1f72}' | '\u{1f73}' => 27,
        '\u{1e14}' | '\u{1e16}' | '\u{1e18}' | '\u{1e1a}' | '\u{1e1c}' | '\u{1eb8}' | '\u{1eba}' | '\u{1ebc}' | '\u{1ebe}' | '\u{1ec0}' | '\u{1ec2}' | '\u{1ec4}' | '\u{1ec6}' | '\u{204}' | '\u{205}' => 33,
        '\u{1fc8}' | '\u{1fc9}' | '\u{1f18}' | '\u{1f19}' | '\u{1f1a}' | '\u{1f1b}' | '\u{1f1c}' | '\u{1f1d}' => 37,
        '\u{24d4}' | '\u{24ba}' => 43,
        '\u{24a0}' | '\u{1f114}' => 47,
        '\u{212f}' => 51,
        '\u{2203}' => 57,
        '\u{220a}' => 63,
        '\u{20ac}' => 69,
        '\u{2130}' => 73,
        '\u{2107}' | '\u{404}' | '\u{42d}' | '\u{44d}' | '\u{454}' => 77,
        '\u{4bd}' => 81,
        '\u{118a6}' | '\u{364}' | '\u{2091}' => 85,
        '\u{247}' | '\u{246}' | '\u{4ed}' | '\u{4ec}' => 87,
        '\u{10304}' | '\u{1ccda}' | '\u{1f134}' => 91,
        '\u{16e4f}' | '\u{1e4e4}' => 94,
        '\u{1f154}' | '\u{1f174}' => 97,
        '\u{1f1ea}' => 101,
        '\u{1a9}' => 105,
        '\u{1b8}' | '\u{1b9}' => 111,
        _ => 0,
    }
}

/// Every reward lies between 0 and 111.
pub proof fn lemma_reward_range(c: char)
    ensures
        0 <= e_reward(c) <= 111,
{
}

/// A piece of a chat message: a run of text without Es, or one E character
/// with its reward.
pub enum MessagePart {
    Text(String),
    E(char, i64),
}

/// A piece of a chat message in plain values.
pub enum PartView {
    Text(Seq<char>),
    E(char, i64),
}

impl View for MessagePart {
    type V = PartView;

    open spec fn view(&self) -> PartView {
        match self {
            MessagePart::Text(t) => PartView::Text(t@),
            MessagePart::E(c, r) => PartView::E(*c, *r),
        }
    }
}

/// One E character of a message, with what the multiplier needs to know of it:
/// its reward, the e-density once its reward is added, and whether it is the
/// first occurrence of this character among the message's Es.
#[derive(Clone, Copy, PartialEq, Eq, Structural)]
pub struct EHit {
    pub c: char,
    pub reward: i64,
    pub density: i64,
    pub first: bool,
}

/// The result of scanning a message: its pieces, its E characters in order,
/// and the sum of their rewards.
pub struct EScan {
    pub parts: Vec<MessagePart>,
    pub hits: Vec<EHit>,
    pub total: i64,
}

/// The e-density left after a prefix of a message: each character adds its
/// reward, then the density drops by 10 (not below 0) and is halved.
pub open spec fn density_after(s: Seq<char>) -> int
    decreases s.len(),
{
    if s.len() == 0 {
        0
    } else {
        let d = density_after(s.drop_last()) + e_reward(s.last()) - 10;
        (if d < 0 { 0 } else { d }) / 2
    }
}

/// The sum of the rewards of the characters of `s`.
pub open spec fn spec_total(s: Seq<char>) -> int
    decreases s.len(),
{
    if s.len() == 0 {
        0
    } else {
        spec_total(s.drop_last()) + e_reward(s.last())
    }
}

/// The E characters of `s`, in order.
pub open spec fn spec_hits(s: Seq<char>) -> Seq<EHit>
    decreases s.len(),
{
    if s.len() == 0 {
        Seq::empty()
    } else {
        let before = s.drop_last();
        let c = s.last();
        let r = e_reward(c);
        if r > 0 {
            spec_hits(before).push(
                EHit {
                    c,
                    reward: r,
                    density: (density_after(before) + r) as i64,
                    first: !before.contains(c),
                },
            )
        } else {
            spec_hits(before)
        }
    }
}

/// The pieces closed so far while reading `s`, and the text read since the
/// last E character.
pub open spec fn parts_and_pending(s: Seq<char>) -> (Seq<PartView>, Seq<char>)
    decreases s.len(),
{
    if s.len() == 0 {
        (Seq::empty(), Seq::empty())
    } else {
        let (parts, pending) = parts_and_pending(s.drop_last());
        let c = s.last();
        if e_reward(c) > 0 {
            (close_text(parts, pending).push(PartView::E(c, e_reward(c))), Seq::empty())
        } else {
            (parts, pending.push(c))
        }
    }
}

/// `parts` followed by a text piece for `pending` when it is not empty.
pub open spec fn close_text(parts: Seq<PartView>, pending: Seq<char>) -> Seq<PartView> {
    if pending.len() > 0 {
        parts.push(PartView::Text(pending))
    } else {
        parts
    }
}

/// The pieces of a message: its runs of text without Es and its E characters,
/// in order.
pub open spec fn spec_parts(s: Seq<char>) -> Seq<PartView> {
    let (parts, pending) = parts_and_pending(s);
    close_text(parts, pending)
}

/// The e-density left after any prefix of a message lies between 0 and 106.
pub proof fn lemma_density_range(s: Seq<char>)
    ensures
        0 <= density_after(s) <= 106,
    decreases s.len(),
{
    if s.len() > 0 {
        lemma_density_range(s.drop_last());
        lemma_reward_range(s.last());
    }
}

proof fn lemma_total_prefix(s: Seq<char>, k: int)
    requires
        0 <= k <= s.len(),
    ensures
        0 <= spec_total(s.take(k)) <= spec_total(s),
    decreases s.len(),
{
    if s.len() > 0 {
        lemma_reward_range(s.last());
        if k == s.len() {
            assert(s.take(k) == s);
            lemma_total_prefix(s.drop_last(), k - 1);
            assert(s.drop_last().take(k - 1) == s.drop_last());
        } else {
            lemma_total_prefix(s.drop_last(), k);
            assert(s.drop_last().take(k) == s.take(k));
        }
    }
}

/// Splits a chat message into runs of text and E characters, and lists its E
/// characters with their e-density and first-occurrence flag.
///
/// `None` exactly when the rewards of the message add up to more than
/// `i64::MAX`, where the running sum of Es would overflow.
pub fn split_by_e_chars(message: &str) -> (scan: Option<EScan>)
    ensures
        match scan {
            Some(sc) => {
                &&& spec_total(message@) <= i64::MAX
                &&& sc.parts@.map_values(|p: MessagePart| p@) == spec_parts(message@)
                &&& sc.hits@ == spec_hits(message@)
                &&& sc.total == spec_total(message@)
                &&& sc.hits@.map_values(|h: EHit| h.c) == message@.filter(|c: char| e_reward(c) > 0)
                &&& sc.total == message@.fold_left(0int, |acc: int, c: char| acc + e_reward(c))
            },
            None => spec_total(message@) > i64::MAX,
        },
{
    proof {
        crate::chat_laws::law_hits_are_every_e(message@);
        crate::chat_laws::law_total_sums_every_char(message@);
    }
    let ghost s = message@;
    let mut last: usize = 0;
    let mut parts: Vec<MessagePart> = Vec::new();
    let mut hits: Vec<EHit> = Vec::new();
    let mut used: HashSet<u32> = HashSet::new();
    let mut e_density: i64 = 0;
    let mut total: i64 = 0;
    let mut i: usize = 0;
    let n = message.unicode_len();
    let chars = message.chars();
    assert(vstd::std_specs::iter::IteratorSpec::remaining(&chars) == s);
    for c in it: chars
        invariant
            s == message@,
            n == s.len(),
            it.seq() == s,
            i == it.index(),
            last <= i <= s.len(),
            e_density == density_after(s.take(i as int)),
            total == spec_total(s.take(i as int)),
            hits@ == spec_hits(s.take(i as int)),
            parts@.map_values(|p: MessagePart| p@) == parts_and_pending(s.take(i as int)).0,
            s.subrange(last as int, i as int) == parts_and_pending(s.take(i as int)).1,
            forall|x: u32|
                used@.contains(x) <==> exists|j: int|
                    0 <= j < i && e_reward(#[trigger] s[j]) > 0 && s[j] as u32 == x,
    {
        let ghost before = s.take(i as int);
        proof {
            lemma_density_range(before);
            lemma_reward_range(c);
            assert(s.take(i + 1).drop_last() == before);
            assert(s.take(i + 1).last() == c);
        }
        let reward = get_e_reward(c);
        if reward > 0 {
            e_density = e_density + reward;
            if last < i {
                let text = message.substring_char(last, i);
                parts.push(MessagePart::Text(text.to_owned()));
            }
            parts.push(MessagePart::E(c, reward));
            total = match total.checked_add(reward) {
                Some(t) => t,
                None => {
                    proof {
                        lemma_total_prefix(s, i + 1);
                    }
                    return None;
                },
            };
            proof {
                assert(i < s.len());
                if before.contains(c) {
                    let j = choose|j: int| 0 <= j < before.len() && before[j] == c;
                    assert(s[j] == c);
                }
                if used@.contains(c as u32) {
                    let j = choose|j: int|
                        0 <= j < i && e_reward(#[trigger] s[j]) > 0 && s[j] as u32 == c as u32;
                    assert(before[j] == c);
                }
                assert(used@.contains(c as u32) == before.contains(c));
            }
            let first = used.insert(c as u32);
            hits.push(EHit { c, reward, density: e_density, first });
            last = i + 1;
        }
        e_density = if e_density - 10 < 0 { 0 } else { e_density - 10 };
        e_density = e_density / 2;
        i = i + 1;
    }
    assert(s.take(s.len() as int) == s);
    if last < i {
        let text = message.substring_char(last, i);
        parts.push(MessagePart::Text(text.to_owned()));
    }
    Some(EScan { parts, hits, total })
}

/// What the chat handler learns from a message before it weighs the Es: the
/// scan of the message, and how long ago the sender chatted before.
pub struct ChatTurn {
    pub scan: EScan,
    pub ago: Option<u64>,
}

/// Turns chat messages into Es.
pub struct ChatHandler;

impl ChatHandler {
    /// Scans the message that `player` sent at `now`, then reads how long ago
    /// `player` chatted before and records `now` as their latest chat.
    ///
    /// `None`, with the state untouched, exactly when the rewards of the
    /// message add up to more than `i64::MAX`.
    pub fn scan_and_record(&self, state: &mut EState, player: u128, message: &str, now: u64) -> (turn:
        Option<ChatTurn>)
        ensures
            match turn {
                Some(t) => {
                    &&& spec_total(message@) <= i64::MAX
                    &&& t.scan.parts@.map_values(|p: MessagePart| p@) == spec_parts(message@)
                    &&& t.scan.hits@ == spec_hits(message@)
                    &&& t.scan.total == spec_total(message@)
                    &&& t.ago == chat_ago(old(state)@.latest_chat, player, now)
                    &&& final(state)@.latest_chat == old(state)@.latest_chat.insert(player, now)
                    &&& final(state)@.balances == old(state)@.balances
                },
                None => {
                    &&& spec_total(message@) > i64::MAX
                    &&& final(state)@ == old(state)@
                },
            },
    {
        match split_by_e_chars(message) {
            Some(scan) => {
                let ago = state.get_latest_chat_ago(player, now);
                state.set_latest_chat_instant(player, now);
                Some(ChatTurn { scan, ago })
            },
            None => None,
        }
    }
}

} // verus!
