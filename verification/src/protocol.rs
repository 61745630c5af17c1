//! Commands the host sends to the runtime, and how the runtime ends.

use vstd::prelude::*;

verus! {

/// What the host asks of a running game mode.
#[derive(Clone, Copy, Debug, PartialEq, Eq, Structural)]
pub enum RuntimeCommand {
    Reload,
    Shutdown,
}

/// Why a game mode's runtime stopped.
#[derive(Clone, Copy, Debug, PartialEq, Eq, Structural)]
pub enum RuntimeExit {
    Reload,
    Shutdown,
}

} // verus!
