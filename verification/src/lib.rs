//! The verified core of the "E-conomy" chat plugin: a per-player ledger of Es,
//! the milestone rules, the scan of chat messages for E-like characters and the
//! styled texts that the plugin shows to players.
pub mod chat;
pub mod command;
pub mod chat_laws;
pub mod join;
pub mod milestones;
pub mod notices;
pub mod player;
pub mod spacing_laws;
pub mod state;
pub mod state_laws;
pub mod text;
