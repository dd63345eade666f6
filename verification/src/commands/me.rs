//! The `me` command: tells a member their reputation.
use crate::commands::command::LedgerUser;
use crate::responses::errors::{
    not_registered_message,
    not_registered_text,
    user_not_found_message,
    user_not_found_text,
};
use crate::markdown::{bold, bold_line};
use crate::responses::general::{me_command_response, me_text};
use vstd::prelude::*;

verus! {

pub struct Command;

/// The reply to `me` from the ledger's answer about the caller, whose
/// Discord name is `name`: their entry, no entry, or a failed lookup.
pub open spec fn me_reply_text(name: Seq<char>, found: Result<Option<LedgerUser>, String>) -> Seq<
    char,
> {
    match found {
        Ok(Some(user)) => me_text(user.username@, user.reputation@),
        Ok(None) => not_registered_text(name),
        Err(why) => user_not_found_text(name, why@),
    }
}

impl Command {
    /// The reply to `me` from the ledger's answer about the caller.
    pub fn response(name: &String, found: &Result<Option<LedgerUser>, String>) -> (r: String)
        ensures
            r@ == me_reply_text(name@, *found),
    {
        match found {
            Ok(Some(user)) => me_command_response(&user.username, &user.reputation),
            Ok(None) => not_registered_message(name),
            Err(why) => user_not_found_message(name, why.clone()),
        }
    }
}

/// Law: a member in the ledger is told their own name and their own
/// reputation, both in bold; a member not in it is told, by their Discord
/// name, that they are not registered; a failed lookup gives the error.
pub proof fn lemma_me_reply(name: Seq<char>, found: Result<Option<LedgerUser>, String>)
    ensures
        forall|user: LedgerUser|
            found == Ok::<Option<LedgerUser>, String>(Some(user)) ==> me_reply_text(name, found)
                == "User "@ + bold(user.username@) + " has the following reputation of "@ + bold(
                user.reputation@,
            ),
        found == Ok::<Option<LedgerUser>, String>(None) ==> me_reply_text(name, found) == "User "@
            + bold_line(name) + " is not registered, talk with admins"@,
        forall|why: String|
            found == Err::<Option<LedgerUser>, String>(why) ==> me_reply_text(name, found)
                == "Error looking into db for user "@ + bold_line(name) + " : "@ + why@,
{
}

} // verus!
