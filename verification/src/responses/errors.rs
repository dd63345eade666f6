//! Replies that tell a user why a command did not do what was asked.
use crate::markdown::{bold_line, bold_line_safe, italic, italic_safe};
use vstd::prelude::*;

verus! {

/// Reply to someone who is not an admin using an admin command.
pub open spec fn only_admin_text() -> Seq<char> {
    "Only bot overseers allowed to use this command\n"@ + bold_line("This action will be noted"@)
}

/// Reply to a user who asks for their reputation but is not in the ledger.
pub open spec fn not_registered_text(name: Seq<char>) -> Seq<char> {
    "User "@ + bold_line(name) + " is not registered, talk with admins"@
}

/// Reply when the ledger could not be searched for a user.
pub open spec fn user_not_found_text(name: Seq<char>, why: Seq<char>) -> Seq<char> {
    "Error looking into db for user "@ + bold_line(name) + " : "@ + why
}

/// Reply when the members of the guild could not be listed.
pub open spec fn guild_members_error_text(why: Seq<char>) -> Seq<char> {
    "Error retriving guild members: "@ + italic(why)
}

/// Reply for an error that has no reply of its own.
pub open spec fn general_error_text(why: Seq<char>) -> Seq<char> {
    "Something went wrong with the following error: \n"@ + bold_line(why)
}

/// Reply to a second kudos on one day.
pub open spec fn only_one_kudos_text() -> Seq<char> {
    "Only one kudos per day \n"@ + bold_line("Try again in tomorrow"@)
}

/// Reply when the receiver of a kudos is not understood.
pub open spec fn unknown_user_text() -> Seq<char> {
    "Failed to understand the receiver of kudos (unknown user)"@
}

/// Reply to a user who gives a kudos to themselves.
pub open spec fn own_reputation_text() -> Seq<char> {
    "I see what you are trying to do here\n"@ + bold_line("This action will be noted!"@)
}

/// Reply to someone who is not an admin using an admin command.
pub fn only_admin_message() -> (r: String)
    ensures
        r@ == only_admin_text(),
{
    let mut r = String::from_str("Only bot overseers allowed to use this command\n");
    r.append(bold_line_safe("This action will be noted").as_str());
    r
}

/// Reply to `name` asking for their reputation while not in the ledger.
pub fn not_registered_message(name: &String) -> (r: String)
    ensures
        r@ == not_registered_text(name@),
{
    let mut r = String::from_str("User ");
    r.append(bold_line_safe(name.as_str()).as_str());
    r.append(" is not registered, talk with admins");
    r
}

/// Reply when the ledger could not be searched for `name`, `why` being
/// the ledger's error.
pub fn user_not_found_message(name: &String, why: String) -> (r: String)
    ensures
        r@ == user_not_found_text(name@, why@),
{
    let mut r = String::from_str("Error looking into db for user ");
    r.append(bold_line_safe(name.as_str()).as_str());
    r.append(" : ");
    r.append(why.as_str());
    r
}

/// Reply when the guild's members could not be listed, `why` being the
/// error.
pub fn error_retriving_guild_members_message(why: String) -> (r: String)
    ensures
        r@ == guild_members_error_text(why@),
{
    let mut r = String::from_str("Error retriving guild members: ");
    r.append(italic_safe(why.as_str()).as_str());
    r
}

/// Reply for an error `why` that has no reply of its own.
pub fn general_unknown_error_message(why: String) -> (r: String)
    ensures
        r@ == general_error_text(why@),
{
    let mut r = String::from_str("Something went wrong with the following error: \n");
    r.append(bold_line_safe(why.as_str()).as_str());
    r
}

/// Reply to a second kudos on one day.
pub fn only_one_kudos_error_message() -> (r: String)
    ensures
        r@ == only_one_kudos_text(),
{
    let mut r = String::from_str("Only one kudos per day \n");
    r.append(bold_line_safe("Try again in tomorrow").as_str());
    r
}

/// Reply when the receiver of a kudos is not understood.
pub fn unknown_user_error_message() -> (r: String)
    ensures
        r@ == unknown_user_text(),
{
    String::from_str("Failed to understand the receiver of kudos (unknown user)")
}

/// Reply to a member who gives a kudos to themselves.
pub fn cannot_increase_your_own_reputation_message() -> (r: String)
    ensures
        r@ == own_reputation_text(),
{
    let mut r = String::from_str("I see what you are trying to do here\n");
    r.append(bold_line_safe("This action will be noted!").as_str());
    r
}

} // verus!
