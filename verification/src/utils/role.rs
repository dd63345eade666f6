//! Which role a member holds for the bot.
//!
//! Telling the role takes up to two questions to Discord: whether the member
//! has the admin role and, only when not, whether they have the bot role.
//! The decisions between the questions are here; asking is the caller's.
use vstd::prelude::*;

verus! {

/// The role a member holds for the bot.
#[derive(PartialEq, Eq, Structural, Clone, Copy, Debug)]
pub enum UserRole {
    User,
    Admin,
    Bot,
}

/// A role that Discord is asked whether the member has.
#[derive(PartialEq, Eq, Structural, Clone, Copy, Debug)]
pub enum RoleCheck {
    AdminRole,
    BotRole,
}

/// What follows an answer: ask about another role, or the role is known.
#[derive(PartialEq, Eq, Structural, Clone, Copy, Debug)]
pub enum RoleStep {
    Ask(RoleCheck),
    Identified(UserRole),
}

/// The role of a member from whether they hold the admin and the bot role.
pub open spec fn role_of(has_admin_role: bool, has_bot_role: bool) -> UserRole {
    if has_admin_role {
        UserRole::Admin
    } else if has_bot_role {
        UserRole::Bot
    } else {
        UserRole::User
    }
}

/// The first question: does the member have the admin role.
pub fn identify_role_start() -> (r: RoleCheck)
    ensures
        r == RoleCheck::AdminRole,
{
    RoleCheck::AdminRole
}

/// The step after Discord answered `has_role` to the question `asked`:
/// the admin role decides at once; without it the bot role is asked about,
/// and its answer tells a bot from a plain user. So, asked in turn, the
/// answers end after at most two questions with `role_of` the member's two
/// roles, the admin role winning over the bot role.
pub fn identify_role_step(asked: RoleCheck, has_role: bool) -> (r: RoleStep)
    ensures
        asked == RoleCheck::AdminRole && has_role ==> r == RoleStep::Identified(
            role_of(true, false),
        ),
        asked == RoleCheck::AdminRole && !has_role ==> r == RoleStep::Ask(RoleCheck::BotRole),
        asked == RoleCheck::BotRole ==> r == RoleStep::Identified(role_of(false, has_role)),
{
    match asked {
        RoleCheck::AdminRole => if has_role {
            RoleStep::Identified(UserRole::Admin)
        } else {
            RoleStep::Ask(RoleCheck::BotRole)
        },
        RoleCheck::BotRole => if has_role {
            RoleStep::Identified(UserRole::Bot)
        } else {
            RoleStep::Identified(UserRole::User)
        },
    }
}

} // verus!
