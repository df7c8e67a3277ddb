//! Blocking delay arithmetic on the free-running SYSRTC counter (32768 Hz).
use vstd::prelude::*;

verus! {

/// SYSRTC ticks per millisecond (32768 Hz, rounded).
pub const TICKS_PER_MS: u32 = 33;

/// The ticks to wait for a delay: milliseconds times 33, saturating.
pub fn delay_ticks(ms: u32) -> (r: u32)
    ensures
        r == (if ms * TICKS_PER_MS > u32::MAX { u32::MAX as int } else { ms * TICKS_PER_MS }),
{
    if ms > u32::MAX / TICKS_PER_MS {
        u32::MAX
    } else {
        ms * TICKS_PER_MS
    }
}

/// Whether a delay started at counter value `start` is over at `now`: the ticks
/// elapsed (modulo the counter wrap) reach the ticks to wait.
pub fn delay_elapsed(now: u32, start: u32, wait: u32) -> (r: bool)
    ensures
        r == ((if now >= start { now - start } else { now + 0x1_0000_0000 - start }) >= wait),
{
    now.wrapping_sub(start) >= wait
}

/// Set up the delay source (the counter already runs after platform init).
pub fn init() {
}

} // verus!
