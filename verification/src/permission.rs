//! What the system must permit the agent before it can do its work.

use crate::platform::Platform;
use vstd::prelude::*;

verus! {

/// Whether the agent can inject input. Only macOS asks for a permission:
/// `trusted` tells whether it was given there.
pub fn check_input_permission(platform: Platform, trusted: bool) -> (permitted: bool)
    ensures
        permitted == (platform is MacOs ==> trusted),
{
    match platform {
        Platform::MacOs => trusted,
        _ => true,
    }
}

/// Whether the agent can capture the screen. Only macOS asks for a permission:
/// the screen's content can be listed there exactly when it was given.
pub fn check_screen_recording_permission(platform: Platform, content_listed: bool) -> (permitted:
    bool)
    ensures
        permitted == (platform is MacOs ==> content_listed),
{
    match platform {
        Platform::MacOs => content_listed,
        _ => true,
    }
}

} // verus!
