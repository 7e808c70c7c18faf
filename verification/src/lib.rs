//! Lobby protocol, chat commands and input rules of the Yggdrasil game.
use vstd::prelude::*;

pub mod bytes;
pub mod chat;
pub mod client;
pub mod commands;
pub mod input;
pub mod lobby;
pub mod lobby_events;
pub mod package;
pub mod server;
pub mod settings;
pub mod text;

verus! {

} // verus!
