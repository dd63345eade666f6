//! What every command shares: how its options and its caller are read, its
//! default description, and what keeps admin commands to admins.
use crate::responses::errors::{only_admin_message, only_admin_text};
use crate::utils::role::UserRole;
use vstd::prelude::*;

verus! {

/// A Discord user as the commands read one.
#[derive(Debug)]
pub struct UserInfo {
    pub id: u64,
    pub name: String,
}

/// The value Discord resolved for one option of a slash command.
pub enum OptionValue {
    User(UserInfo),
    String(String),
    Integer(i64),
    /// Any other kind of value (a role, a channel, a number, ...).
    Other,
}

/// One option of a slash command; `resolved` is absent when Discord sent no
/// value for it.
pub struct CommandOption {
    pub resolved: Option<OptionValue>,
}

/// A member as the ledger holds them: their name and their reputation,
/// written in decimal notation.
pub struct LedgerUser {
    pub username: String,
    pub reputation: String,
}

/// A copy of a user, field by field.
pub fn copy_user(user: &UserInfo) -> (r: UserInfo)
    ensures
        r.id == user.id,
        r.name@ == user.name@,
{
    UserInfo { id: user.id, name: user.name.clone() }
}

/// The kind of value an option of a slash command takes.
#[derive(PartialEq, Eq, Structural, Clone, Copy, Debug)]
pub enum OptionKind {
    User,
    String,
    Integer,
}

/// How one option of a slash command is registered with Discord.
pub struct OptionSpec {
    pub kind: OptionKind,
    pub name: String,
    pub description: String,
    pub required: bool,
    /// Least integer Discord accepts, for an integer option.
    pub min_int: Option<i64>,
    /// Greatest integer Discord accepts, for an integer option.
    pub max_int: Option<i64>,
    /// The values a text option offers, each as (shown name, value).
    pub choices: Vec<(String, String)>,
}

/// How a slash command is registered with Discord.
pub struct CommandSpec {
    pub name: String,
    pub description: String,
    pub options: Vec<OptionSpec>,
}

/// An option with no bounds and no choices.
pub fn plain_option(kind: OptionKind, name: &str, description: &str, required: bool) -> (r:
    OptionSpec)
    ensures
        r.kind == kind,
        r.name@ == name@,
        r.description@ == description@,
        r.required == required,
        r.min_int is None,
        r.max_int is None,
        r.choices@.len() == 0,
{
    OptionSpec {
        kind,
        name: String::from_str(name),
        description: String::from_str(description),
        required,
        min_int: None,
        max_int: None,
        choices: Vec::new(),
    }
}

/// A command with a name, a description and no option.
pub fn command_without_options(name: &str, description: &str) -> (r: CommandSpec)
    ensures
        r.name@ == name@,
        r.description@ == description@,
        r.options@.len() == 0,
{
    CommandSpec {
        name: String::from_str(name),
        description: String::from_str(description),
        options: Vec::new(),
    }
}

/// How a command that says nothing of itself is registered under `name`.
pub open spec fn is_default_registration(r: CommandSpec, name: Seq<char>) -> bool {
    &&& r.name@ == name
    &&& r.description@ == default_description_text(name)
    &&& r.options@.len() == 0
}

/// How a command that says nothing of itself is registered: under its name,
/// with the default description and no option.
pub fn register(name: &str) -> (r: CommandSpec)
    ensures
        is_default_registration(r, name@),
{
    let description = default_description(name);
    command_without_options(name, description.as_str())
}

/// Description a command is registered with when it gives none.
pub open spec fn default_description_text(name: Seq<char>) -> Seq<char> {
    "A "@ + name + " command"@
}

/// Description a command is registered with when it gives none.
pub fn default_description(name: &str) -> (r: String)
    ensures
        r@ == default_description_text(name@),
{
    let mut r = String::from_str("A ");
    r.append(name);
    r.append(" command");
    r
}

/// What stands before every admin command: `None` lets an admin through;
/// anyone else gets the refusal that is returned in place of the command's
/// reply.
pub fn admin_refusal(role: &UserRole) -> (r: Option<String>)
    ensures
        r is None <==> *role == UserRole::Admin,
        r matches Some(m) ==> m@ == only_admin_text(),
{
    match role {
        UserRole::Admin => None,
        _ => Some(only_admin_message()),
    }
}

} // verus!
