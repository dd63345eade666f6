//! Roles of the people who talk to the bot, and the calendar it keeps.
pub mod calendar;
pub mod role;
