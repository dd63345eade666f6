//! Message composition and command decisions of a Discord reputation bot.
//!
//! The library holds what the bot computes: the replies it writes, how it
//! reads slash-command options, who may act, and how a long reply is cut
//! into messages that Discord accepts. Talking to Discord and to the
//! database is left to the caller.
pub mod commands;
pub mod interaction;
pub mod markdown;
pub mod responses;
pub mod text;
pub mod utils;

use vstd::prelude::*;

verus! {

} // verus!
