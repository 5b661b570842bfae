//! The texts that tell a player about an award of Es.
use vstd::prelude::*;
use crate::milestones::{milestone, milestone_amounts, milestone_message, MILESTONE_COUNT};
use crate::text::{decimal_string, segment, spec_decimal, NamedColor, Segment, StyledText};

verus! {

/// The title shown when a milestone is reached: a bold "E" whose colour ends
/// up green (it is first set to red, then to green).
pub fn milestone_title() -> (t: StyledText)
    ensures
        t.shows(("E"@, Some(NamedColor::Green), true), Seq::empty()),
{
    StyledText { root: segment("E", Some(NamedColor::Green), true), children: Vec::new() }
}

/// The subtitle shown when a milestone is reached, without style.
pub fn milestone_subtitle() -> (t: StyledText)
    ensures
        t.shows(("New milestone achieved!"@, None, false), Seq::empty()),
{
    StyledText { root: segment("New milestone achieved!", None, false), children: Vec::new() }
}

/// The chat message that announces the milestone at index `i`.
pub fn milestone_announcement(i: usize) -> (t: StyledText)
    requires
        i < MILESTONE_COUNT,
    ensures
        t.shows(
            (""@, None, false),
            seq![
                ("E "@, Some(NamedColor::Red), true),
                ("New milestone unlocked for "@, Some(NamedColor::Green), false),
                ("E"@, Some(NamedColor::Red), false),
                (spec_decimal(milestone_amounts()[i as int] as int), Some(NamedColor::White), false),
                (": "@, Some(NamedColor::Green), false),
                (milestone_message(i as int), Some(NamedColor::Gold), false),
            ],
        ),
{
    let m = milestone(i);
    let mut children: Vec<Segment> = Vec::new();
    children.push(segment("E ", Some(NamedColor::Red), true));
    children.push(segment("New milestone unlocked for ", Some(NamedColor::Green), false));
    children.push(segment("E", Some(NamedColor::Red), false));
    children.push(Segment { text: decimal_string(m.amount), color: Some(NamedColor::White), bold: false });
    children.push(segment(": ", Some(NamedColor::Green), false));
    children.push(segment(m.message, Some(NamedColor::Gold), false));
    StyledText { root: segment("", None, false), children }
}

/// The action bar that shows a gain of `es`: a red "+ E" followed by the
/// amount in white.
pub fn gain_actionbar(es: i64) -> (t: StyledText)
    ensures
        t.shows(
            ("+ E"@, Some(NamedColor::Red), false),
            seq![(spec_decimal(es as int), Some(NamedColor::White), false)],
        ),
{
    let mut children: Vec<Segment> = Vec::new();
    children.push(Segment { text: decimal_string(es), color: Some(NamedColor::White), bold: false });
    StyledText { root: segment("+ E", Some(NamedColor::Red), false), children }
}

} // verus!
