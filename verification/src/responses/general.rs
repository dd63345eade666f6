//! Replies that report what a command did.
use crate::markdown::{bold, bold_line, bold_line_safe, bold_safe};
use vstd::prelude::*;

verus! {

/// What `format!("{:?}", text)` writes for a string: std's `Debug` form of
/// `str`, the text in double quotes with quotes, backslashes and
/// non-printable characters escaped.
pub uninterp spec fn debug_form(text: Seq<char>) -> Seq<char>;

/// Formats a string with `{:?}`, std's `Debug` for `str`; what that writes is
/// only named here (`debug_form`).
#[verifier::external_body]
fn debug_string(text: &str) -> (r: String)
    ensures
        r@ == debug_form(text@),
{
    format!("{:?}", text)
}

/// Reply to a user whose role could not be told, around the debug form of
/// the reason.
pub open spec fn unknown_role_text(why_debug: Seq<char>) -> Seq<char> {
    "Sorry, I can't process what species are you? (Unknown Role) ["@ + why_debug + "]"@
}

/// Reply that tells a user their reputation.
pub open spec fn me_text(username: Seq<char>, reputation: Seq<char>) -> Seq<char> {
    "User "@ + bold(username) + " has the following reputation of "@ + bold(reputation)
}

/// Reply to a kudos that was given.
pub open spec fn kudos_given_text(name: Seq<char>, reputation: Seq<char>) -> Seq<char> {
    "kudos has been given succesfully to "@ + bold_line(name) + "resulting in "@ + bold(
        reputation,
    ) + " reputation"@
}

/// Reply to a user whose role could not be told, `why` being the reason.
pub fn unknown_role_message(why: String) -> (r: String)
    ensures
        r@ == unknown_role_text(debug_form(why@)),
{
    let why_debug = debug_string(why.as_str());
    unknown_role_message_from_debug(why_debug.as_str())
}

/// The same reply, given the reason already in its debug form.
pub fn unknown_role_message_from_debug(why_debug: &str) -> (r: String)
    ensures
        r@ == unknown_role_text(why_debug@),
{
    let mut r = String::from_str("Sorry, I can't process what species are you? (Unknown Role) [");
    r.append(why_debug);
    r.append("]");
    r
}

/// Reply that tells a user their reputation, as the ledger writes it.
pub fn me_command_response(username: &String, reputation: &String) -> (r: String)
    ensures
        r@ == me_text(username@, reputation@),
{
    let mut r = String::from_str("User ");
    r.append(bold_safe(username.as_str()).as_str());
    r.append(" has the following reputation of ");
    r.append(bold_safe(reputation.as_str()).as_str());
    r
}

/// Reply to a kudos that was given to `name`, whose reputation is now
/// `reputation` (the ledger's number in decimal notation).
pub fn succesfully_given_kudos_message(name: &String, reputation: &String) -> (r: String)
    ensures
        r@ == kudos_given_text(name@, reputation@),
{
    let mut r = String::from_str("kudos has been given succesfully to ");
    r.append(bold_line_safe(name.as_str()).as_str());
    r.append("resulting in ");
    r.append(bold_safe(reputation.as_str()).as_str());
    r.append(" reputation");
    r
}

} // verus!
