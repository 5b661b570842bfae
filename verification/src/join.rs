//! What a player sees on joining.
use vstd::prelude::*;
use crate::text::{segment, NamedColor, StyledText};

verus! {

/// The greeting shown to a joining player: a title, a subtitle and the title's
/// fade-in, stay and fade-out times in ticks.
pub struct JoinGreeting {
    pub title: StyledText,
    pub subtitle: StyledText,
    pub fade_in: i32,
    pub stay: i32,
    pub fade_out: i32,
}

/// Greets players when they join.
pub struct JoinHandler;

impl JoinHandler {
    /// The greeting: a bold "E" whose colour ends up yellow (it is first set to
    /// red, then to yellow), the unstyled subtitle "Welcome! Try chatting!",
    /// and a title animation of 0, 40 and 20 ticks.
    pub fn greeting(&self) -> (g: JoinGreeting)
        ensures
            g.title.shows(("E"@, Some(NamedColor::Yellow), true), Seq::empty()),
            g.subtitle.shows(("Welcome! Try chatting!"@, None, false), Seq::empty()),
            g.fade_in == 0,
            g.stay == 40,
            g.fade_out == 20,
    {
        JoinGreeting {
            title: StyledText { root: segment("E", Some(NamedColor::Yellow), true), children: Vec::new() },
            subtitle: StyledText {
                root: segment("Welcome! Try chatting!", None, false),
                children: Vec::new(),
            },
            fade_in: 0,
            stay: 40,
            fade_out: 20,
        }
    }
}

} // verus!
