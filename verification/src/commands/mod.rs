//! The bot's slash commands.
pub mod add_members;
pub mod command;
pub mod contribute;
pub mod give_kudos;
pub mod join;
pub mod kudos_sent;
pub mod me;
pub mod ping;
pub mod version;
