//! Bluetooth Low Energy stack start-up logic.
//!
//! The stack itself is reached through the Silicon Labs platform functions, which
//! the caller invokes; this module decides which initialisation steps run.
use vstd::prelude::*;

verus! {

/// Number of platform init steps for the BLE stack alone.
pub const INIT_STEPS: u32 = 9;

/// Number of platform init steps when Bluetooth mesh is included.
pub const BTMESH_INIT_STEPS: u32 = 12;

/// The steps `1..=n`.
pub open spec fn spec_steps(n: u32) -> Seq<u32> {
    Seq::new(n as nat, |i: int| (i + 1) as u32)
}

/// Mark platform initialisation complete (after the steps were run by hand).
pub fn mark_initialized(initialized: &mut bool)
    ensures
        *final(initialized),
{
    *initialized = true;
}

/// Initialise the stack once: the first call marks it initialised and returns the
/// steps to run, `1..=steps`, in order; later calls return none.
pub fn init(initialized: &mut bool, steps: u32) -> (r: Vec<u32>)
    ensures
        *final(initialized),
        *old(initialized) ==> r@ == Seq::<u32>::empty(),
        !*old(initialized) ==> r@ == spec_steps(steps),
{
    let was = *initialized;
    *initialized = true;
    let mut v: Vec<u32> = Vec::new();
    if was {
        return v;
    }
    let mut i: u32 = 0;
    while i < steps
        invariant
            i <= steps,
            v@ == spec_steps(i),
        decreases steps - i,
    {
        v.push(i + 1);
        proof {
            assert(v@ =~= spec_steps((i + 1) as u32));
        }
        i = i + 1;
    }
    v
}

} // verus!
