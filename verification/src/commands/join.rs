//! The `join` command: a member enters the ledger.
use crate::commands::command::LedgerUser;
use crate::markdown::{bold, bold_safe};
use crate::commands::command::{command_without_options, CommandSpec};
use vstd::prelude::*;

verus! {

pub struct Command;

/// The reply to `join` from what the ledger answered: the new entry, or why
/// it could not be made.
pub open spec fn join_reply_text(created: Result<LedgerUser, String>) -> Seq<char> {
    match created {
        Ok(user) => "User "@ + bold(user.username@) + "has been "@ + bold("created "@)
            + "and has "@ + bold(user.reputation@),
        Err(why) => "Error joining the ledger: "@ + bold(why@),
    }
}

impl Command {
    /// How the command is registered: its name and description, no option.
    pub fn register() -> (r: CommandSpec)
        ensures
            r.name@ == "join"@,
            r.description@ == "join our ledger"@,
            r.options@.len() == 0,
    {
        command_without_options("join", "join our ledger")
    }

    /// The reply to `join` from what the ledger answered.
    pub fn response(created: &Result<LedgerUser, String>) -> (r: String)
        ensures
            r@ == join_reply_text(*created),
    {
        match created {
            Ok(user) => {
                let mut r = String::from_str("User ");
                r.append(bold_safe(user.username.as_str()).as_str());
                r.append("has been ");
                r.append(bold_safe("created ").as_str());
                r.append("and has ");
                r.append(bold_safe(user.reputation.as_str()).as_str());
                r
            },
            Err(why) => {
                let mut r = String::from_str("Error joining the ledger: ");
                r.append(bold_safe(why.as_str()).as_str());
                r
            },
        }
    }
}

} // verus!
