//! The system that the agent runs on.

use vstd::prelude::*;

verus! {

/// The system that the agent runs on.
#[derive(Clone, Copy, Debug, PartialEq, Eq, Structural)]
pub enum Platform {
    MacOs,
    Windows,
    Other,
}

} // verus!
