use vstd::prelude::*;

use crate::time::{Duration, NANOS_PER_SEC};

verus! {

/// PIN length, attempt limit and lockout span of the PIN method.
#[derive(Debug, Clone, Copy)]
pub struct Policy {
    pub pin_len: usize,
    pub max_attempts: u32,
    pub lockout: Duration,
}

impl Policy {
    pub const PIN_LEN: usize = 4;

    /// Four-digit PINs, five attempts, then a thirty-second lockout.
    pub fn new() -> (p: Policy)
        ensures
            p.pin_len == Self::PIN_LEN,
            p.max_attempts == 5,
            p.lockout@ == 30 * NANOS_PER_SEC,
    {
        Policy { pin_len: Self::PIN_LEN, max_attempts: 5, lockout: Duration::from_secs(30) }
    }
}

impl Default for Policy {
    fn default() -> (p: Policy)
        ensures
            p.pin_len == Policy::PIN_LEN,
            p.max_attempts == 5,
            p.lockout@ == 30 * NANOS_PER_SEC,
    {
        Self::new()
    }
}

} // verus!
