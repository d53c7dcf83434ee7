//! The intents of the single-screen client.

use vstd::prelude::*;

verus! {

/// An intent that the store takes.
#[derive(Clone, Copy, Debug, PartialEq, Eq, Structural)]
pub enum Action {
    PreviousRow,
    NextRow,
    Top,
    Bottom,
    Enter,
    Reload,
    Quit,
}

} // verus!
