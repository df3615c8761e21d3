//! Command-line options of the player program.
use vstd::prelude::*;

verus! {

/// The program's options: whether to check for updates instead of running.
#[derive(Clone, Copy, Debug, PartialEq, Eq, Structural)]
pub struct Args {
    pub update: bool,
}

} // verus!
