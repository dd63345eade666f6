//! The `ping` command: tells that the bot is running.
use crate::commands::command::{command_without_options, CommandSpec};
use vstd::prelude::*;

verus! {

pub struct Command;

impl Command {
    /// How the command is registered: its name and description, no option.
    pub fn register() -> (r: CommandSpec)
        ensures
            r.name@ == "ping"@,
            r.description@ == "A ping command"@,
            r.options@.len() == 0,
    {
        command_without_options("ping", "A ping command")
    }

    /// The reply to `ping`.
    pub fn response() -> (r: String)
        ensures
            r@ == "Hey, I'm alive!"@,
    {
        String::from_str("Hey, I'm alive!")
    }
}

} // verus!
