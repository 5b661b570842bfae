//! The `/e` command: a player asks for their balance.
use vstd::prelude::*;
use crate::text::{decimal_string, segment, spec_decimal, NamedColor, Segment, StyledText};

verus! {

/// What the `/e` command answers a player with `amount` Es: the message that
/// tells the balance, and the command's result code.
pub struct BalanceReply {
    pub message: StyledText,
    pub status: i32,
}

/// The answer of the `/e` command to a player whose balance is `amount`; the
/// result code is the balance cut to 32 bits, as `amount as i32` does.
pub fn balance_reply(amount: i64) -> (reply: BalanceReply)
    ensures
        reply.message.shows(
            (""@, None, false),
            seq![
                ("E "@, Some(NamedColor::Red), true),
                ("You currently have "@, Some(NamedColor::Yellow), false),
                ("E"@, Some(NamedColor::Red), false),
                (spec_decimal(amount as int), Some(NamedColor::White), false),
                (" in your balance!"@, Some(NamedColor::Yellow), false),
            ],
        ),
        reply.status == amount as i32,
{
    let mut children: Vec<Segment> = Vec::new();
    children.push(segment("E ", Some(NamedColor::Red), true));
    children.push(segment("You currently have ", Some(NamedColor::Yellow), false));
    children.push(segment("E", Some(NamedColor::Red), false));
    children.push(Segment { text: decimal_string(amount), color: Some(NamedColor::White), bold: false });
    children.push(segment(" in your balance!", Some(NamedColor::Yellow), false));
    BalanceReply {
        message: StyledText { root: segment("", None, false), children },
        status: amount as i32,
    }
}

} // verus!
