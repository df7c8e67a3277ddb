//! Timekeeping for the SYSRTC-based time driver.
//!
//! The counter runs from the LFRCO; a period is half a counter cycle, counted on
//! overflow and on the half-range compare. The driver's registers are modelled by
//! [`SysrtcRegs`]; its decisions (how to read the time, when to arm the alarm
//! compare channel) are verified here, while the timer queue and the retry loop
//! around [`plan_alarm`] are the caller's.
use vstd::prelude::*;

use crate::cmu::{Clken0, CmuRegs, Sysrtc0ClkSel};

verus! {

/// Number of ticks in one "period" (half of a full 32-bit counter cycle).
pub open spec fn period_ticks() -> int {
    0x8000_0000
}

/// The timestamp that a (period, counter) pair denotes.
///
/// When `period` is even the counter is expected in the lower half of its range,
/// when odd in the upper half; the upper bit of the counter is therefore folded
/// against the parity of `period`.
pub open spec fn spec_calc_now(period: u32, counter: u32) -> int {
    if period % 2 == 0 {
        period * period_ticks() + counter
    } else {
        if counter < 0x8000_0000 {
            period * period_ticks() + counter + period_ticks()
        } else {
            period * period_ticks() + counter - period_ticks()
        }
    }
}

/// Calculate the timestamp from the period count and the tick count.
pub fn calc_now(period: u32, counter: u32) -> (r: u64)
    ensures
        r == spec_calc_now(period, counter),
{
    let hi: u64 = (period as u64) << 31u64;
    let lo: u32 = counter ^ ((period & 1) << 31u32);
    proof {
        assert(hi == (period as int) * 0x8000_0000) by (bit_vector)
            requires hi == (period as u64) << 31u64;
        assert(period % 2 == 0 ==> lo == counter) by (bit_vector)
            requires lo == counter ^ ((period & 1) << 31u32);
        assert(period % 2 == 1 && counter < 0x8000_0000 ==> lo == counter + 0x8000_0000) by (bit_vector)
            requires lo == counter ^ ((period & 1) << 31u32);
        assert(period % 2 == 1 && counter >= 0x8000_0000 ==> lo == counter - 0x8000_0000) by (bit_vector)
            requires lo == counter ^ ((period & 1) << 31u32);
    }
    hi + lo as u64
}

} // verus!

verus! {

/// A timestamp read while `period` is stale (the counter already reached the half of
/// its range that belongs to the next period) denotes the same instant as the pair
/// with the advanced period: `calc_now` is race-free against a missed period update.
pub proof fn lemma_calc_now_race_free(period: u32, counter: u32)
    requires
        period < u32::MAX,
        (counter >= 0x8000_0000) == (period % 2 == 0),
    ensures
        spec_calc_now(period, counter) == spec_calc_now((period + 1) as u32, counter),
{
}

/// For any tick count whose period fits in 32 bits, the pair (period, low 32 bits of
/// the tick count) that the driver holds recovers the tick count exactly.
pub proof fn lemma_calc_now_recovers_ticks(ticks: u64)
    requires
        ticks / 0x8000_0000 <= u32::MAX,
    ensures
        spec_calc_now((ticks / 0x8000_0000) as u32, (ticks % 0x1_0000_0000) as u32) == ticks,
{
    let p = ticks / 0x8000_0000;
    let c = ticks % 0x1_0000_0000;
    assert(p % 2 == 0 ==> c < 0x8000_0000 && c == ticks - p * 0x8000_0000) by (nonlinear_arith)
        requires p == ticks / 0x8000_0000, c == ticks % 0x1_0000_0000, ticks >= 0;
    assert(p % 2 == 1 ==> c >= 0x8000_0000 && c == ticks - p * 0x8000_0000 + 0x8000_0000) by (nonlinear_arith)
        requires p == ticks / 0x8000_0000, c == ticks % 0x1_0000_0000, ticks >= 0;
}

/// Margin within which an alarm is armed on the compare channel right away.
pub const ALARM_ARM_WINDOW: u64 = 0xc000_0000;

/// What the driver does with the compare channel for a requested alarm.
#[derive(Clone, Copy, Debug, PartialEq, Eq)]
pub enum AlarmAction {
    /// The requested timestamp has already passed: the alarm is disarmed.
    Passed,
    /// The compare value is written and the compare interrupt enabled.
    Arm { compare: u32 },
    /// The compare value is written but the interrupt stays disabled until a later period.
    Defer { compare: u32 },
}

/// The compare value written for an alarm at `timestamp` when the time is `now`:
/// at least two ticks ahead, truncated to the 32-bit counter.
pub open spec fn spec_alarm_compare(timestamp: u64, now: u64) -> u32 {
    let safe: int = if timestamp >= now + 2 { timestamp as int } else { now + 2 };
    (safe % 0x1_0000_0000) as u32
}

/// Decide how to program the compare channel for an alarm (one pass of `set_alarm`).
pub fn plan_alarm(timestamp: u64, now: u64) -> (r: AlarmAction)
    requires
        now + 2 <= u64::MAX,
    ensures
        timestamp <= now ==> r == AlarmAction::Passed,
        timestamp > now && timestamp - now < ALARM_ARM_WINDOW ==> r == (AlarmAction::Arm {
            compare: spec_alarm_compare(timestamp, now),
        }),
        timestamp > now && timestamp - now >= ALARM_ARM_WINDOW ==> r == (AlarmAction::Defer {
            compare: spec_alarm_compare(timestamp, now),
        }),
{
    if timestamp <= now {
        return AlarmAction::Passed;
    }
    let safe: u64 = if timestamp >= now + 2 { timestamp } else { now + 2 };
    let compare: u32 = (safe % 0x1_0000_0000) as u32;
    let diff: u64 = timestamp - now;
    if diff < ALARM_ARM_WINDOW {
        AlarmAction::Arm { compare }
    } else {
        AlarmAction::Defer { compare }
    }
}

/// After arming, the alarm is known to fire if the time read again is still at least
/// two ticks before it; otherwise `set_alarm` retries.
pub fn alarm_still_ahead(timestamp: u64, now: u64) -> (r: bool)
    requires
        now + 2 <= u64::MAX,
    ensures
        r == (now + 2 <= timestamp),
{
    now + 2 <= timestamp
}

/// Whether a pending alarm must be armed when `period` begins (the check in `next_period`).
pub fn alarm_due_in_period(period: u32, alarm_at: u64) -> (r: bool)
    ensures
        r == (alarm_at < period * 0x8000_0000 + ALARM_ARM_WINDOW),
{
    let t: u64 = (period as u64) << 31u64;
    proof {
        assert(t == (period as int) * 0x8000_0000) by (bit_vector)
            requires t == (period as u64) << 31u64;
    }
    alarm_at < t + ALARM_ARM_WINDOW
}

/// The period count after a period boundary (overflow or half-range compare).
pub fn next_period(period: u32) -> (r: u32)
    requires
        period < u32::MAX,
    ensures
        r == period + 1,
{
    period + 1
}


/// The SYSRTC register fields used by the driver.
#[derive(Clone, Copy, Debug, PartialEq, Eq)]
pub struct SysrtcRegs {
    /// EN.EN
    pub en: bool,
    /// The counter was started (CMD.START).
    pub started: bool,
    /// GRP0_CMP0VALUE
    pub cmp0value: u32,
    /// GRP0_CMP1VALUE
    pub cmp1value: u32,
    /// GRP0_CTRL.CMP0EN
    pub cmp0en: bool,
    /// GRP0_CTRL.CMP1EN
    pub cmp1en: bool,
    /// GRP0_IEN.OVF
    pub ien_ovf: bool,
    /// GRP0_IEN.CMP0
    pub ien_cmp0: bool,
    /// GRP0_IEN.CMP1
    pub ien_cmp1: bool,
}

/// The registers after the driver starts: half-range compare on channel 0,
/// overflow and channel 0 interrupts, both compare channels enabled, counting.
pub open spec fn spec_rtc_started(r: SysrtcRegs) -> SysrtcRegs {
    SysrtcRegs {
        en: true,
        started: true,
        cmp0value: 0x8000_0000,
        cmp0en: true,
        cmp1en: true,
        ien_ovf: true,
        ien_cmp0: true,
        ien_cmp1: false,
        ..r
    }
}

/// Start the time base: SYSRTC and LFRCO clocks on, SYSRTC clocked from the LFRCO
/// (the caller forces the LFRCO on and waits until it is ready), and the counter
/// configured and started.
pub fn rtc_init(cmu: &mut CmuRegs, regs: &mut SysrtcRegs)
    ensures
        *final(cmu) == (CmuRegs {
            clken0: Clken0 { sysrtc0: true, lfrco: true, ..old(cmu).clken0 },
            sysrtc0_clksel: Sysrtc0ClkSel::Lfrco,
            ..*old(cmu)
        }),
        *final(regs) == spec_rtc_started(*old(regs)),
{
    cmu.clken0 = Clken0 { sysrtc0: true, lfrco: true, ..cmu.clken0 };
    cmu.sysrtc0_clksel = Sysrtc0ClkSel::Lfrco;
    *regs = SysrtcRegs {
        en: true,
        started: true,
        cmp0value: 0x8000_0000,
        cmp0en: true,
        cmp1en: true,
        ien_ovf: true,
        ien_cmp0: true,
        ien_cmp1: false,
        ..*regs
    };
}

/// The pending alarm: its timestamp, `u64::MAX` when none.
#[derive(Clone, Copy, Debug, PartialEq, Eq)]
pub struct AlarmState {
    /// The alarm time in ticks.
    pub timestamp: u64,
}

impl AlarmState {
    /// No alarm pending.
    pub fn new() -> (r: Self)
        ensures
            r.timestamp == u64::MAX,
    {
        AlarmState { timestamp: u64::MAX }
    }
}

/// The driver state that lives beside the registers.
#[derive(Clone, Copy, Debug, PartialEq, Eq)]
pub struct RtcDriver {
    /// Periods elapsed.
    pub period: u32,
    /// The pending alarm.
    pub alarm: AlarmState,
}

impl RtcDriver {
    /// Start of a new period (overflow or half-range compare): the period count
    /// advances, and the alarm interrupt is enabled when the pending alarm falls
    /// before three quarters of a counter cycle past the period start.
    pub fn next_period(&mut self, regs: &mut SysrtcRegs)
        requires
            old(self).period < u32::MAX,
        ensures
            final(self).period == old(self).period + 1,
            final(self).alarm == old(self).alarm,
            old(self).alarm.timestamp < (old(self).period + 1) * 0x8000_0000 + ALARM_ARM_WINDOW ==> *final(regs)
                == (SysrtcRegs { ien_cmp1: true, ..*old(regs) }),
            !(old(self).alarm.timestamp < (old(self).period + 1) * 0x8000_0000 + ALARM_ARM_WINDOW) ==> *final(regs)
                == *old(regs),
    {
        let p = next_period(self.period);
        *self = RtcDriver { period: p, ..*self };
        if alarm_due_in_period(p, self.alarm.timestamp) {
            *regs = SysrtcRegs { ien_cmp1: true, ..*regs };
        }
    }

    /// The time now, from the counter value read after the period count.
    pub fn now(&self, counter: u32) -> (r: u64)
        ensures
            r == spec_calc_now(self.period, counter),
    {
        calc_now(self.period, counter)
    }

    /// Apply one pass of `set_alarm` at time `now`: a passed alarm is dropped and its
    /// interrupt disabled (returns false); otherwise the alarm is recorded, the
    /// compare value written, and the interrupt enabled when the alarm is within
    /// three quarters of a counter cycle (returns true) or disabled until a later
    /// period.
    pub fn apply_alarm(&mut self, timestamp: u64, now: u64, regs: &mut SysrtcRegs) -> (armed: bool)
        requires
            now + 2 <= u64::MAX,
        ensures
            final(self).period == old(self).period,
            armed == (timestamp > now),
            !armed ==> final(self).alarm.timestamp == u64::MAX && *final(regs) == (SysrtcRegs { ien_cmp1: false, ..*old(regs) }),
            armed ==> final(self).alarm.timestamp == timestamp && *final(regs) == (SysrtcRegs {
                cmp1value: spec_alarm_compare(timestamp, now),
                ien_cmp1: timestamp - now < ALARM_ARM_WINDOW,
                ..*old(regs)
            }),
    {
        match plan_alarm(timestamp, now) {
            AlarmAction::Passed => {
                *regs = SysrtcRegs { ien_cmp1: false, ..*regs };
                self.alarm = AlarmState { timestamp: u64::MAX };
                false
            },
            AlarmAction::Arm { compare } => {
                *regs = SysrtcRegs { cmp1value: compare, ien_cmp1: true, ..*regs };
                self.alarm = AlarmState { timestamp };
                true
            },
            AlarmAction::Defer { compare } => {
                *regs = SysrtcRegs { cmp1value: compare, ien_cmp1: false, ..*regs };
                self.alarm = AlarmState { timestamp };
                true
            },
        }
    }

    /// The alarm fired: the alarm interrupt is re-enabled and the pending alarm
    /// cleared (the caller then asks the timer queue for the next one).
    pub fn trigger_alarm(&mut self, regs: &mut SysrtcRegs)
        ensures
            final(self).period == old(self).period,
            final(self).alarm.timestamp == u64::MAX,
            *final(regs) == (SysrtcRegs { ien_cmp1: true, ..*old(regs) }),
    {
        *regs = SysrtcRegs { ien_cmp1: true, ..*regs };
        self.alarm = AlarmState { timestamp: u64::MAX };
    }
}

/// What the SYSRTC interrupt does for a set of flags.
#[derive(Clone, Copy, Debug, PartialEq, Eq)]
pub struct RtcIrqPlan {
    /// Periods to advance (one for overflow, one for the half-range compare).
    pub periods: u8,
    /// Whether the alarm fired.
    pub trigger: bool,
}

/// Decide what the SYSRTC interrupt does for the OVF, CMP0 and CMP1 flags (each flag
/// handled is cleared).
pub fn on_interrupt(ovf: bool, cmp0: bool, cmp1: bool) -> (r: RtcIrqPlan)
    ensures
        r.periods == (if ovf { 1int } else { 0int }) + (if cmp0 { 1int } else { 0int }),
        r.trigger == cmp1,
{
    let mut periods: u8 = 0;
    if ovf {
        periods = periods + 1;
    }
    if cmp0 {
        periods = periods + 1;
    }
    RtcIrqPlan { periods, trigger: cmp1 }
}

} // verus!
