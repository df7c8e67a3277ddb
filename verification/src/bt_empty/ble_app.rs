//! Bluetooth event handling decisions of the minimal application.
use vstd::prelude::*;

verus! {

/// The status code of success.
pub const SL_STATUS_OK: u32 = 0;

/// Advertising handle before a set is created.
pub const NO_ADV_HANDLE: u8 = 0xff;

/// Connectable legacy advertising.
pub const SL_BT_LEGACY_ADVERTISER_CONNECTABLE: u8 = 0x2;

/// The message id of a BGAPI header: the header without its length bits.
pub fn sl_bt_msg_id(header: u32) -> (r: u32)
    ensures
        r == header & 0xffff00f8,
{
    header & 0xffff00f8
}

/// The word recorded for an advertising set-up step: the step in the top byte, the
/// status below.
pub fn adv_status_note(step: u8, status: u32) -> (r: u32)
    ensures
        r == ((step as u32) << 24u32) | status,
{
    ((step as u32) << 24) | status
}

/// What one step of the advertising set-up in the boot handler decides.
#[derive(Clone, Copy, Debug, PartialEq, Eq)]
pub struct SetupStep {
    /// The word recorded for the step.
    pub note: u32,
    /// Whether the set-up goes on.
    pub proceed: bool,
}

/// One step of the advertising set-up (create set, generate data, set timing): its
/// status is recorded, and the set-up goes on only after success.
pub fn boot_setup_step(step: u8, status: u32) -> (r: SetupStep)
    ensures
        r.note == ((step as u32) << 24u32) | status,
        r.proceed == (status == SL_STATUS_OK),
{
    SetupStep { note: adv_status_note(step, status), proceed: status == SL_STATUS_OK }
}

/// After a connection closes: the advertising data is regenerated, its status
/// recorded as step 5, and advertising restarted (pending) only after success.
pub fn on_connection_closed(status: u32, pending: &mut bool) -> (note: u32)
    ensures
        note == (5u32 << 24u32) | status,
        status == SL_STATUS_OK ==> *final(pending),
        status != SL_STATUS_OK ==> *final(pending) == *old(pending),
{
    let note = adv_status_note(5, status);
    if status == SL_STATUS_OK {
        *pending = true;
    }
    note
}

} // verus!
