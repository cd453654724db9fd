//! Events passed between the authentication flow and the PIN screen.

use vstd::prelude::*;

verus! {

/// The press on the PIN screen was released.
#[derive(Debug)]
pub struct PinRelease;

/// What the PIN screen should show about authentication.
#[derive(Debug, Clone, Copy, PartialEq, Eq, Structural)]
pub enum PinOutcome {
    Checking,
    Incorrect,
    LockedOut { secs: u32 },
    /// PAM stack rejected at startup.
    Unavailable,
    Prompt,
}

} // verus!
