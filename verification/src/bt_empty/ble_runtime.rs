//! Stack pumping decisions of the minimal application.
use vstd::prelude::*;

verus! {

/// Most post-init pump steps.
pub const MAX_PUMP: u32 = 64;

/// Steps pumped without delay after start-up.
pub const TIGHT_STEPS: u32 = 400;

/// Whether the post-init pump stops after step `i`: the boot event was seen and at
/// least four steps ran.
pub fn post_init_pump_done(i: u32, boot_seen: bool) -> (r: bool)
    ensures
        r == (boot_seen && i >= 3),
{
    boot_seen && i >= 3
}

/// One iteration of the pump loop: the count of tight steps advances (saturating),
/// and once it reaches 400 each iteration ends with a 5 ms delay.
pub fn pump_tick(tight_steps: u32) -> (r: (u32, bool))
    ensures
        r.0 == (if tight_steps == u32::MAX { u32::MAX as int } else { tight_steps + 1 }),
        r.1 == (r.0 >= TIGHT_STEPS),
{
    let n = tight_steps.saturating_add(1);
    (n, n >= TIGHT_STEPS)
}

} // verus!
