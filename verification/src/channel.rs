//! Rules of the one-byte verdict channel between PAM workers and the event
//! loop: one attempt in flight at a time, one byte per finished attempt
//! (`1` for success, `0` for failure or a crashed worker), and completions
//! of stale reads ignored.

use vstd::prelude::*;

verus! {

/// Allows one submission in flight at a time.
pub struct SingleFlight {
    in_flight: bool,
}

impl View for SingleFlight {
    type V = bool;

    closed spec fn view(&self) -> bool {
        self.in_flight
    }
}

impl SingleFlight {
    pub fn new() -> (f: SingleFlight)
        ensures
            !f@,
    {
        SingleFlight { in_flight: false }
    }

    pub fn is_busy(&self) -> (b: bool)
        ensures
            b == self@,
    {
        self.in_flight
    }

    /// Starts a submission unless one is in flight; reports whether it did.
    pub fn begin(&mut self) -> (started: bool)
        ensures
            started == !old(self)@,
            final(self)@,
    {
        if self.in_flight {
            return false;
        }
        self.in_flight = true;
        true
    }

    /// Marks the current submission as fully processed (or abandoned).
    pub fn finish(&mut self)
        ensures
            !final(self)@,
    {
        self.in_flight = false;
    }
}

/// The byte for a worker's result: `1` for success, `0` for a failure or a
/// crash (`None`).
pub open spec fn verdict_byte_of(result: Option<bool>) -> u8 {
    if result == Some(true) {
        1
    } else {
        0
    }
}

/// The verdict taken from a completed read of the channel.
pub open spec fn completion_of(armed: u64, token: u64, nread: i32, byte: u8) -> Option<u8> {
    if armed != token {
        None
    } else if nread < 1 {
        Some(0)
    } else {
        Some(byte)
    }
}

/// The byte a worker writes: `1` when the work reported success, `0` when it
/// reported failure or crashed (`None`).
pub fn verdict_byte(result: Option<bool>) -> (b: u8)
    ensures
        b == verdict_byte_of(result),
{
    match result {
        Some(true) => 1,
        _ => 0,
    }
}

/// The verdict from a completed read of the channel: ignored (`None`) unless
/// `token` is that of the armed read; a read that got no byte counts as `0`.
pub fn completion_verdict(armed: u64, token: u64, nread: i32, byte: u8) -> (v: Option<u8>)
    ensures
        v == completion_of(armed, token, nread, byte),
{
    if armed != token {
        return None;
    }
    if nread < 1 {
        Some(0)
    } else {
        Some(byte)
    }
}

/// Whether a verdict byte means the PIN was accepted.
pub fn is_success(byte: u8) -> (ok: bool)
    ensures
        ok == (byte == 1),
{
    byte == 1
}

/// What to do after one attempt to write the verdict byte.
#[derive(Debug, Clone, Copy, PartialEq, Eq, Structural)]
pub enum WriteStep {
    Done(bool),
    Retry,
}

/// The next step after a write that wrote `written` bytes, or failed
/// (`None`) with an interruption or another error: a single written byte
/// succeeds, an interruption retries, anything else fails.
pub fn write_step(written: Option<usize>, interrupted: bool) -> (s: WriteStep)
    ensures
        s == (match written {
            Some(n) => WriteStep::Done(n == 1),
            None => if interrupted {
                WriteStep::Retry
            } else {
                WriteStep::Done(false)
            },
        }),
{
    match written {
        Some(n) => WriteStep::Done(n == 1),
        None => if interrupted {
            WriteStep::Retry
        } else {
            WriteStep::Done(false)
        },
    }
}

/// Law: the event loop unlocks only when the completion of the armed read
/// carries the byte of a worker that reported success; a failure, a crash, a
/// short read or a stale completion never unlocks.
pub proof fn lemma_only_success_unlocks(result: Option<bool>, armed: u64, token: u64, nread: i32)
    ensures
        (completion_of(armed, token, nread, verdict_byte_of(result)) matches Some(b) && b == 1)
            <==> (armed == token && nread >= 1 && result == Some(true)),
{
}

/// Law: the completion of the armed read hands on exactly the verdict byte
/// that was read, whatever it is, a failure's `0` included; a read that got
/// no byte counts as a failure; a completion for any other read is dropped.
pub proof fn lemma_armed_completion_delivers_byte(armed: u64, token: u64, nread: i32, byte: u8)
    ensures
        armed == token && nread >= 1 ==> completion_of(armed, token, nread, byte) == Some(byte),
        armed == token && nread < 1 ==> completion_of(armed, token, nread, byte) == Some(0u8),
        armed != token ==> completion_of(armed, token, nread, byte) is None,
        (completion_of(armed, token, nread, byte) is Some) == (armed == token),
{
}

/// Law: a worker's verdict survives the channel: when the armed read gets
/// the byte the worker wrote, the flow sees success exactly for a worker that
/// reported success, and a failure or a crash as the failure byte `0`.
pub proof fn lemma_worker_verdict_round_trip(result: Option<bool>, token: u64, nread: i32)
    requires
        nread >= 1,
    ensures
        completion_of(token, token, nread, verdict_byte_of(result)) == Some(
            verdict_byte_of(result),
        ),
        result != Some(true) ==> completion_of(token, token, nread, verdict_byte_of(result))
            == Some(0u8),
        result == Some(true) ==> completion_of(token, token, nread, verdict_byte_of(result))
            == Some(1u8),
{
}

} // verus!
