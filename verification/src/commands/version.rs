//! The `version` command: tells which version of the bot runs.
use vstd::prelude::*;

verus! {

pub struct Command;

impl Command {
    /// The reply to `version`, for the bot's version `version`.
    pub fn response(version: &str) -> (r: String)
        ensures
            r@ == "My current version is "@ + version@,
    {
        let mut r = String::from_str("My current version is ");
        r.append(version);
        r
    }
}

} // verus!
