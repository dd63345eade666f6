//! The replies the bot sends.
pub mod errors;
pub mod general;
