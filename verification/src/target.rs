//! What the application is told about the place it runs in.

use vstd::prelude::*;

verus! {

/// Capabilities of the running program, handed to every entry point that
/// depends on them.
#[derive(Clone, Copy, Debug, PartialEq, Eq, Structural)]
pub struct Target {
    /// Whether asking the runtime to close the application means anything.
    /// It does on a desktop; a program embedded in a web page cannot quit
    /// the page that hosts it.
    pub supports_process_exit: bool,
    /// Whether the program was compiled without optimisation, for debugging.
    pub debug_build: bool,
}

impl Target {
    /// A desktop program.
    pub fn native(debug_build: bool) -> (t: Target)
        ensures
            t == (Target { supports_process_exit: true, debug_build }),
    {
        Target { supports_process_exit: true, debug_build }
    }

    /// A program embedded in a web page.
    pub fn web(debug_build: bool) -> (t: Target)
        ensures
            t == (Target { supports_process_exit: false, debug_build }),
    {
        Target { supports_process_exit: false, debug_build }
    }
}

} // verus!
