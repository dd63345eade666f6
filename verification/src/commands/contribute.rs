//! The `contribute` command.
use vstd::prelude::*;

verus! {

pub struct Command;

} // verus!
