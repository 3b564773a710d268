//! The console-hiding rule. Detaching from a console is a native desktop
//! call made outside this library; the decision it follows — hide the
//! console exactly when the process was not launched from a terminal —
//! is stated and verified here, with the probe's answer handed in.

use vstd::prelude::*;

verus! {

/// Whether the console window should be hidden: exactly when the
/// process was not launched from a terminal, so a double-clicked launch
/// shows no stray console while a shell launch keeps its output.
pub fn should_hide_console(launched_from_terminal: bool) -> (r: bool)
    ensures
        r == !launched_from_terminal,
{
    !launched_from_terminal
}

} // verus!
