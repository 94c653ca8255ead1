//! The client's connection loop with the signalling server: how long to wait
//! before reconnecting, and which incoming frames end a connection.
use vstd::prelude::*;

verus! {

/// The wait before the first reconnection, and again after a connection
/// that worked, in milliseconds.
pub const INITIAL_RETRY_DELAY_MS: u64 = 100;

/// The longest wait between reconnections, in milliseconds.
pub const MAX_RETRY_DELAY_MS: u64 = 2000;

/// The wait after `current_ms`: twice as long, but no longer than the cap.
pub open spec fn spec_next_retry_delay(current_ms: u64) -> u64 {
    if 2 * current_ms < MAX_RETRY_DELAY_MS {
        (2 * current_ms) as u64
    } else {
        MAX_RETRY_DELAY_MS
    }
}

/// The wait before the next reconnection, after waiting `current_ms`.
pub fn next_retry_delay(current_ms: u64) -> (next: u64)
    ensures
        next == spec_next_retry_delay(current_ms),
{
    if current_ms < MAX_RETRY_DELAY_MS / 2 {
        current_ms * 2
    } else {
        MAX_RETRY_DELAY_MS
    }
}

/// The wait after `k` failed connections in a row.
pub open spec fn delay_after_failures(k: nat) -> u64
    decreases k,
{
    if k == 0 {
        INITIAL_RETRY_DELAY_MS
    } else {
        spec_next_retry_delay(delay_after_failures((k - 1) as nat))
    }
}

/// Law: the wait between reconnections never shrinks below the initial wait
/// nor grows past the cap, and never shrinks while connections keep failing.
pub proof fn law_retry_delay_bounded(current_ms: u64)
    requires
        INITIAL_RETRY_DELAY_MS <= current_ms <= MAX_RETRY_DELAY_MS,
    ensures
        INITIAL_RETRY_DELAY_MS <= spec_next_retry_delay(current_ms) <= MAX_RETRY_DELAY_MS,
        current_ms <= spec_next_retry_delay(current_ms),
{
}

/// Law: waits double from the initial wait, 100, 200, 400, 800, 1600 ms, and
/// stay at the cap from the fifth failure on.
pub proof fn law_retry_delay_doubles_to_cap(k: nat)
    ensures
        k == 0 ==> delay_after_failures(k) == 100,
        k == 1 ==> delay_after_failures(k) == 200,
        k == 2 ==> delay_after_failures(k) == 400,
        k == 3 ==> delay_after_failures(k) == 800,
        k == 4 ==> delay_after_failures(k) == 1600,
        k >= 5 ==> delay_after_failures(k) == MAX_RETRY_DELAY_MS,
    decreases k,
{
    if k > 0 {
        law_retry_delay_doubles_to_cap((k - 1) as nat);
    }
}

/// A frame read from the signalling server's socket.
#[derive(Debug, Clone, Copy, PartialEq, Eq, Structural)]
pub enum WsFrame {
    /// A text frame (a signalling message, or text that does not parse).
    Text,
    /// The server closed the connection.
    Close,
    /// Reading failed.
    Error,
    /// Any other frame, ignored.
    Other,
}

/// Whether to keep reading the connection after `frame`: a close or a read
/// error ends it.
pub fn keep_reading(frame: WsFrame) -> (b: bool)
    ensures
        b <==> !(frame == WsFrame::Close || frame == WsFrame::Error),
{
    match frame {
        WsFrame::Close => false,
        WsFrame::Error => false,
        _ => true,
    }
}

} // verus!
