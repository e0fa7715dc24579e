//! Which demo the command line selects.

use vstd::prelude::*;

verus! {

/// A renderer configuration that can be run.
#[derive(Debug, Clone, Copy, PartialEq, Eq)]
pub enum Demo {
    /// The plain raymarcher.
    Simple,
}

/// What the program was asked to do.
#[derive(Debug, Clone, Copy, PartialEq, Eq)]
pub enum Command {
    /// Run a demo interactively.
    Run(Demo),
    /// Time every rendering variant and record the results.
    Benchmark,
}

impl Default for Demo {
    fn default() -> (r: Self)
        ensures
            r == Demo::Simple,
    {
        Demo::Simple
    }
}

impl Default for Command {
    fn default() -> (r: Self)
        ensures
            r == Command::Run(Demo::Simple),
    {
        Command::Run(Demo::Simple)
    }
}

} // verus!
