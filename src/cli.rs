//! The command line front end's handle.

use vstd::prelude::*;

verus! {

/// The command line interface; reading the arguments and the configuration
/// file it names is the program's part.
#[derive(Clone, Copy, Debug, PartialEq, Eq, Structural)]
pub struct Cli;

impl Cli {
    /// Creates a new `Cli` object.
    pub fn new() -> (r: Cli)
        ensures
            r == Cli,
    {
        Cli
    }
}

} // verus!
