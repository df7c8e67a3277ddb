//! Watchdog (WDOG) logic.
//!
//! The watchdog's configuration and commands are expressed over [`WdogRegs`], a
//! model of the WDOG register fields the driver touches.
use core::marker::PhantomData;

use vstd::prelude::*;

use crate::cmu::{Clken0, Clken1, CmuRegs};
use crate::peripherals::{WDOG0, WDOG1};

verus! {

/// Watchdog timeout period (the PERSEL setting).
#[derive(Clone, Copy, Debug, PartialEq, Eq)]
pub enum Timeout {
    /// 9 clock cycles (~9ms @ 1kHz, ~0.27ms @ 32.768kHz)
    Cycles9,
    /// 17 clock cycles (~17ms @ 1kHz, ~0.52ms @ 32.768kHz)
    Cycles17,
    /// 33 clock cycles (~33ms @ 1kHz, ~1ms @ 32.768kHz)
    Cycles33,
    /// 65 clock cycles (~65ms @ 1kHz, ~2ms @ 32.768kHz)
    Cycles65,
    /// 129 clock cycles (~129ms @ 1kHz, ~4ms @ 32.768kHz)
    Cycles129,
    /// 257 clock cycles (~257ms @ 1kHz, ~8ms @ 32.768kHz)
    Cycles257,
    /// 513 clock cycles (~513ms @ 1kHz, ~16ms @ 32.768kHz)
    Cycles513,
    /// 1025 clock cycles (~1s @ 1kHz, ~31ms @ 32.768kHz)
    Cycles1k,
    /// 2049 clock cycles (~2s @ 1kHz, ~63ms @ 32.768kHz)
    Cycles2k,
    /// 4097 clock cycles (~4s @ 1kHz, ~125ms @ 32.768kHz)
    Cycles4k,
    /// 8193 clock cycles (~8s @ 1kHz, ~250ms @ 32.768kHz)
    Cycles8k,
    /// 16385 clock cycles (~16s @ 1kHz, ~500ms @ 32.768kHz)
    Cycles16k,
    /// 32769 clock cycles (~33s @ 1kHz, ~1s @ 32.768kHz)
    Cycles32k,
    /// 65537 clock cycles (~66s @ 1kHz, ~2s @ 32.768kHz)
    Cycles64k,
    /// 131073 clock cycles (~131s @ 1kHz, ~4s @ 32.768kHz)
    Cycles128k,
    /// 262145 clock cycles (~262s @ 1kHz, ~8s @ 32.768kHz)
    Cycles256k,
}

impl Timeout {
    /// The PERSEL field value of a timeout.
    pub open spec fn spec_bits(self) -> u8 {
        match self {
            Timeout::Cycles9 => 0,
            Timeout::Cycles17 => 1,
            Timeout::Cycles33 => 2,
            Timeout::Cycles65 => 3,
            Timeout::Cycles129 => 4,
            Timeout::Cycles257 => 5,
            Timeout::Cycles513 => 6,
            Timeout::Cycles1k => 7,
            Timeout::Cycles2k => 8,
            Timeout::Cycles4k => 9,
            Timeout::Cycles8k => 10,
            Timeout::Cycles16k => 11,
            Timeout::Cycles32k => 12,
            Timeout::Cycles64k => 13,
            Timeout::Cycles128k => 14,
            Timeout::Cycles256k => 15,
        }
    }

    /// The PERSEL field value of a timeout.
    pub fn bits(self) -> (r: u8)
        ensures
            r == self.spec_bits(),
    {
        match self {
            Timeout::Cycles9 => 0,
            Timeout::Cycles17 => 1,
            Timeout::Cycles33 => 2,
            Timeout::Cycles65 => 3,
            Timeout::Cycles129 => 4,
            Timeout::Cycles257 => 5,
            Timeout::Cycles513 => 6,
            Timeout::Cycles1k => 7,
            Timeout::Cycles2k => 8,
            Timeout::Cycles4k => 9,
            Timeout::Cycles8k => 10,
            Timeout::Cycles16k => 11,
            Timeout::Cycles32k => 12,
            Timeout::Cycles64k => 13,
            Timeout::Cycles128k => 14,
            Timeout::Cycles256k => 15,
        }
    }

    /// The number of watchdog clock cycles of a timeout.
    pub open spec fn spec_cycles(self) -> u32 {
        match self {
            Timeout::Cycles9 => 9,
            Timeout::Cycles17 => 17,
            Timeout::Cycles33 => 33,
            Timeout::Cycles65 => 65,
            Timeout::Cycles129 => 129,
            Timeout::Cycles257 => 257,
            Timeout::Cycles513 => 513,
            Timeout::Cycles1k => 1025,
            Timeout::Cycles2k => 2049,
            Timeout::Cycles4k => 4097,
            Timeout::Cycles8k => 8193,
            Timeout::Cycles16k => 16385,
            Timeout::Cycles32k => 32769,
            Timeout::Cycles64k => 65537,
            Timeout::Cycles128k => 131073,
            Timeout::Cycles256k => 262145,
        }
    }

    /// Get the number of clock cycles for this timeout.
    pub fn cycles(&self) -> (r: u32)
        ensures
            r == self.spec_cycles(),
    {
        match self {
            Timeout::Cycles9 => 9,
            Timeout::Cycles17 => 17,
            Timeout::Cycles33 => 33,
            Timeout::Cycles65 => 65,
            Timeout::Cycles129 => 129,
            Timeout::Cycles257 => 257,
            Timeout::Cycles513 => 513,
            Timeout::Cycles1k => 1025,
            Timeout::Cycles2k => 2049,
            Timeout::Cycles4k => 4097,
            Timeout::Cycles8k => 8193,
            Timeout::Cycles16k => 16385,
            Timeout::Cycles32k => 32769,
            Timeout::Cycles64k => 65537,
            Timeout::Cycles128k => 131073,
            Timeout::Cycles256k => 262145,
        }
    }

    /// Get the approximate timeout in milliseconds assuming ULFRCO (1kHz).
    pub fn timeout_ms_ulfrco(&self) -> (r: u32)
        ensures
            r == self.spec_cycles(),
    {
        self.cycles()
    }

    /// Get the approximate timeout in milliseconds assuming LFRCO (32.768kHz).
    pub fn timeout_ms_lfrco(&self) -> (r: u32)
        ensures
            r == self.spec_cycles() * 1000 / 32768,
    {
        let c = self.cycles();
        (c * 1000) / 32768
    }
}

impl Default for Timeout {
    /// The default timeout, 32769 cycles.
    fn default() -> (r: Self)
        ensures
            r == Timeout::Cycles32k,
    {
        Timeout::Cycles32k
    }
}

/// Each timeout lasts 2^(PERSEL + 3) + 1 watchdog clock cycles.
pub proof fn lemma_timeout_cycles_formula(t: Timeout)
    ensures
        t.spec_cycles() == vstd::arithmetic::power2::pow2((t.spec_bits() + 3) as nat) + 1,
{
    vstd::arithmetic::power2::lemma2_to64();
    vstd::arithmetic::power2::lemma2_to64_rest();
}

/// Longer timeout settings never time out sooner: a larger PERSEL value gives at
/// least as many cycles, and so at least as long a timeout at either clock.
pub proof fn lemma_timeout_monotonic(t1: Timeout, t2: Timeout)
    requires
        t1.spec_bits() <= t2.spec_bits(),
    ensures
        t1.spec_cycles() <= t2.spec_cycles(),
        t1.spec_cycles() * 1000 / 32768 <= t2.spec_cycles() * 1000 / 32768,
{
    lemma_timeout_cycles_formula(t1);
    lemma_timeout_cycles_formula(t2);
    if t1.spec_bits() < t2.spec_bits() {
        vstd::arithmetic::power2::lemma_pow2_strictly_increases((t1.spec_bits() + 3) as nat, (t2.spec_bits() + 3) as nat);
    }
    let c1: int = t1.spec_cycles() as int;
    let c2: int = t2.spec_cycles() as int;
    assert(c1 * 1000 / 32768 <= c2 * 1000 / 32768) by (nonlinear_arith)
        requires c1 <= c2, 0 <= c1;
}

/// Watchdog warning interrupt threshold.
#[derive(Clone, Copy, Debug, PartialEq, Eq)]
pub enum Warning {
    /// Warning disabled
    Disabled,
    /// Warning at 25% of timeout
    Percent25,
    /// Warning at 50% of timeout
    Percent50,
    /// Warning at 75% of timeout
    Percent75,
}

impl Warning {
    /// The WARNSEL field value.
    pub open spec fn spec_bits(self) -> u8 {
        match self {
            Warning::Disabled => 0,
            Warning::Percent25 => 1,
            Warning::Percent50 => 2,
            Warning::Percent75 => 3,
        }
    }

    /// The WARNSEL field value.
    pub fn bits(self) -> (r: u8)
        ensures
            r == self.spec_bits(),
    {
        match self {
            Warning::Disabled => 0,
            Warning::Percent25 => 1,
            Warning::Percent50 => 2,
            Warning::Percent75 => 3,
        }
    }
}

impl Default for Warning {
    /// The warning interrupt is disabled by default.
    fn default() -> (r: Self)
        ensures
            r == Warning::Disabled,
    {
        Warning::Disabled
    }
}

/// Watchdog configuration.
#[derive(Clone, Copy, Debug, PartialEq, Eq)]
pub struct Config {
    /// Timeout period.
    pub timeout: Timeout,
    /// Continue running during debug halt.
    pub debug_run: bool,
    /// Continue running in EM1 energy mode.
    pub em1_run: bool,
    /// Continue running in EM2 energy mode.
    pub em2_run: bool,
    /// Continue running in EM3 energy mode.
    pub em3_run: bool,
    /// Block entry to EM4 energy mode.
    pub em4_block: bool,
    /// Warning interrupt threshold.
    pub warning: Warning,
    /// Lock configuration after initialization.
    pub lock: bool,
    /// Disable watchdog reset (only generate interrupts).
    pub reset_disable: bool,
}

impl Config {
    /// The default configuration.
    pub open spec fn spec_default() -> Self {
        Config {
            timeout: Timeout::Cycles32k,
            debug_run: false,
            em1_run: false,
            em2_run: false,
            em3_run: false,
            em4_block: false,
            warning: Warning::Disabled,
            lock: false,
            reset_disable: false,
        }
    }
}

impl Default for Config {
    /// 32769-cycle timeout, nothing kept running in low-power or debug modes, no
    /// warning, no lock, reset enabled.
    fn default() -> (r: Self)
        ensures
            r == Config::spec_default(),
    {
        Config {
            timeout: Timeout::Cycles32k,
            debug_run: false,
            em1_run: false,
            em2_run: false,
            em3_run: false,
            em4_block: false,
            warning: Warning::Disabled,
            lock: false,
            reset_disable: false,
        }
    }
}

impl Config {
    /// Set the timeout period.
    pub fn with_timeout(self, value: Timeout) -> (r: Self)
        ensures
            r == (Config { timeout: value, ..self }),
    {
        Config { timeout: value, ..self }
    }

    /// Enable running during debug.
    pub fn with_debug_run(self, value: bool) -> (r: Self)
        ensures
            r == (Config { debug_run: value, ..self }),
    {
        Config { debug_run: value, ..self }
    }

    /// Enable running in EM1 mode.
    pub fn with_em1_run(self, value: bool) -> (r: Self)
        ensures
            r == (Config { em1_run: value, ..self }),
    {
        Config { em1_run: value, ..self }
    }

    /// Enable running in EM2 mode.
    pub fn with_em2_run(self, value: bool) -> (r: Self)
        ensures
            r == (Config { em2_run: value, ..self }),
    {
        Config { em2_run: value, ..self }
    }

    /// Enable running in EM3 mode.
    pub fn with_em3_run(self, value: bool) -> (r: Self)
        ensures
            r == (Config { em3_run: value, ..self }),
    {
        Config { em3_run: value, ..self }
    }

    /// Block EM4 mode entry.
    pub fn with_em4_block(self, value: bool) -> (r: Self)
        ensures
            r == (Config { em4_block: value, ..self }),
    {
        Config { em4_block: value, ..self }
    }

    /// Set warning interrupt threshold.
    pub fn with_warning(self, value: Warning) -> (r: Self)
        ensures
            r == (Config { warning: value, ..self }),
    {
        Config { warning: value, ..self }
    }

    /// Lock configuration after initialization.
    pub fn with_lock(self, value: bool) -> (r: Self)
        ensures
            r == (Config { lock: value, ..self }),
    {
        Config { lock: value, ..self }
    }

    /// Disable reset generation (interrupt only).
    pub fn with_reset_disable(self, value: bool) -> (r: Self)
        ensures
            r == (Config { reset_disable: value, ..self }),
    {
        Config { reset_disable: value, ..self }
    }

}

/// The fields of the WDOG CFG register.
#[derive(Clone, Copy, Debug, PartialEq, Eq)]
pub struct WdogCfg {
    /// CFG.DEBUGRUN
    pub debugrun: bool,
    /// CFG.EM1RUN
    pub em1run: bool,
    /// CFG.EM2RUN
    pub em2run: bool,
    /// CFG.EM3RUN
    pub em3run: bool,
    /// CFG.EM4BLOCK
    pub em4block: bool,
    /// CFG.WDOGRSTDIS
    pub wdogrstdis: bool,
    /// CFG.PERSEL
    pub persel: u8,
    /// CFG.WARNSEL
    pub warnsel: u8,
}

/// The WDOG register fields used by the driver.
#[derive(Clone, Copy, Debug, PartialEq, Eq)]
pub struct WdogRegs {
    /// EN.EN
    pub en: bool,
    /// CFG
    pub cfg: WdogCfg,
    /// Whether the last CMD write held CLEAR.
    pub cmd_clear: bool,
    /// STATUS.LOCK: set by writing the LOCK key, cleared by writing the UNLOCK key.
    pub locked: bool,
    /// IEN.WARN
    pub ien_warn: bool,
    /// IF.WARN
    pub if_warn: bool,
}

/// The CFG register value for a configuration.
pub open spec fn spec_cfg(config: Config) -> WdogCfg {
    WdogCfg {
        debugrun: config.debug_run,
        em1run: config.em1_run,
        em2run: config.em2_run,
        em3run: config.em3_run,
        em4block: config.em4_block,
        wdogrstdis: config.reset_disable,
        persel: config.timeout.spec_bits(),
        warnsel: config.warning.spec_bits(),
    }
}

/// WDOG peripheral instance trait.
pub trait Instance {
    /// The instance number.
    spec fn spec_index() -> u8;

    /// The instance number.
    fn index() -> (r: u8)
        ensures
            r == Self::spec_index(),
    ;
}

impl Instance for WDOG0 {
    open spec fn spec_index() -> u8 {
        0
    }

    fn index() -> (r: u8) {
        0
    }
}

impl Instance for WDOG1 {
    open spec fn spec_index() -> u8 {
        1
    }

    fn index() -> (r: u8) {
        1
    }
}

/// The CMU state with the clock of watchdog `index` enabled (WDOG0 in CLKEN0,
/// WDOG1 in CLKEN1, other indices change nothing).
pub open spec fn spec_wdog_clock_on(cmu: CmuRegs, index: u8) -> CmuRegs {
    if index == 0 {
        CmuRegs { clken0: Clken0 { wdog0: true, ..cmu.clken0 }, ..cmu }
    } else if index == 1 {
        CmuRegs { clken1: Clken1 { wdog1: true, ..cmu.clken1 }, ..cmu }
    } else {
        cmu
    }
}

/// Watchdog driver.
pub struct Wdog<T: Instance> {
    /// The watchdog instance driven.
    pub instance: PhantomData<T>,
}

impl<T: Instance> Wdog<T> {
    /// Create and start a new watchdog: its clock is enabled, it is configured while
    /// disabled, then enabled, and locked if the configuration asks for it.
    pub fn new(_wdog: T, config: Config, cmu: &mut CmuRegs, regs: &mut WdogRegs) -> (r: Self)
        ensures
            *final(cmu) == spec_wdog_clock_on(*old(cmu), T::spec_index()),
            *final(regs) == (WdogRegs {
                en: true,
                cfg: spec_cfg(config),
                locked: old(regs).locked || config.lock,
                ..*old(regs)
            }),
    {
        let index = T::index();
        if index == 0 {
            cmu.clken0 = Clken0 { wdog0: true, ..cmu.clken0 };
        } else if index == 1 {
            cmu.clken1 = Clken1 { wdog1: true, ..cmu.clken1 };
        }
        regs.en = false;
        regs.cfg = WdogCfg {
            debugrun: config.debug_run,
            em1run: config.em1_run,
            em2run: config.em2_run,
            em3run: config.em3_run,
            em4block: config.em4_block,
            wdogrstdis: config.reset_disable,
            persel: config.timeout.bits(),
            warnsel: config.warning.bits(),
        };
        regs.en = true;
        if config.lock {
            regs.locked = true;
        }
        Wdog { instance: PhantomData }
    }

    /// Feed (pet/kick) the watchdog to prevent reset: CMD.CLEAR is written.
    pub fn feed(&mut self, regs: &mut WdogRegs)
        ensures
            *final(regs) == (WdogRegs { cmd_clear: true, ..*old(regs) }),
    {
        regs.cmd_clear = true;
    }

    /// Check if the watchdog is running.
    pub fn is_running(&self, regs: &WdogRegs) -> (r: bool)
        ensures
            r == regs.en,
    {
        regs.en
    }

    /// Check if the watchdog is locked.
    pub fn is_locked(&self, regs: &WdogRegs) -> (r: bool)
        ensures
            r == regs.locked,
    {
        regs.locked
    }

    /// Enable the warning interrupt.
    pub fn enable_warning_interrupt(&mut self, regs: &mut WdogRegs)
        ensures
            *final(regs) == (WdogRegs { ien_warn: true, ..*old(regs) }),
    {
        regs.ien_warn = true;
    }

    /// Disable the warning interrupt.
    pub fn disable_warning_interrupt(&mut self, regs: &mut WdogRegs)
        ensures
            *final(regs) == (WdogRegs { ien_warn: false, ..*old(regs) }),
    {
        regs.ien_warn = false;
    }

    /// Check and clear the warning interrupt flag: the flag as read is returned, and
    /// when it was set it is cleared; nothing else changes.
    pub fn check_warning(&mut self, regs: &mut WdogRegs) -> (r: bool)
        ensures
            r == old(regs).if_warn,
            *final(regs) == (WdogRegs { if_warn: false, ..*old(regs) }),
    {
        let warn = regs.if_warn;
        if warn {
            regs.if_warn = false;
        }
        warn
    }

    /// Unlock the watchdog for reconfiguration (the UNLOCK key is written).
    pub fn unlock(&mut self, regs: &mut WdogRegs)
        ensures
            *final(regs) == (WdogRegs { locked: false, ..*old(regs) }),
    {
        regs.locked = false;
    }

    /// Tear the driver down: the watchdog is disabled unless it is locked.
    pub fn release(self, regs: &mut WdogRegs)
        ensures
            *final(regs) == (WdogRegs { en: old(regs).en && old(regs).locked, ..*old(regs) }),
    {
        if !regs.locked {
            regs.en = false;
        }
    }
}

/// The timeouts in declaration order, from 9 to 262145 cycles.
pub open spec fn timeout_order() -> Seq<Timeout> {
    seq![
        Timeout::Cycles9,
        Timeout::Cycles17,
        Timeout::Cycles33,
        Timeout::Cycles65,
        Timeout::Cycles129,
        Timeout::Cycles257,
        Timeout::Cycles513,
        Timeout::Cycles1k,
        Timeout::Cycles2k,
        Timeout::Cycles4k,
        Timeout::Cycles8k,
        Timeout::Cycles16k,
        Timeout::Cycles32k,
        Timeout::Cycles64k,
        Timeout::Cycles128k,
        Timeout::Cycles256k,
    ]
}

/// Timeout `CyclesN` lasts its documented count: the k-th timeout in declaration
/// order has PERSEL value k and lasts 2^(k+3) + 1 clock cycles (so `Cycles2k` is
/// PERSEL 8 and 2049 cycles), and no two timeouts share a PERSEL value or a count.
pub proof fn lemma_timeout_encoding(t: Timeout)
    ensures
        forall|k: int|
            0 <= k < 16 ==> ((#[trigger] timeout_order()[k]).spec_bits() == k)
                && (timeout_order()[k].spec_cycles() == vstd::arithmetic::power2::pow2((k + 3) as nat) + 1),
        timeout_order().contains(t),
        forall|q: Timeout| #[trigger] q.spec_bits() == t.spec_bits() ==> q == t,
        forall|q: Timeout| #[trigger] q.spec_cycles() == t.spec_cycles() ==> q == t,
{
    vstd::arithmetic::power2::lemma2_to64();
    let o = timeout_order();
    assert forall|k: int| 0 <= k < 16 implies (o[k].spec_bits() == k)
        && (o[k].spec_cycles() == vstd::arithmetic::power2::pow2((k + 3) as nat) + 1) by {
        if k == 0 {
            assert(o[0] == Timeout::Cycles9);
        } else if k == 1 {
            assert(o[1] == Timeout::Cycles17);
        } else if k == 2 {
            assert(o[2] == Timeout::Cycles33);
        } else if k == 3 {
            assert(o[3] == Timeout::Cycles65);
        } else if k == 4 {
            assert(o[4] == Timeout::Cycles129);
        } else if k == 5 {
            assert(o[5] == Timeout::Cycles257);
        } else if k == 6 {
            assert(o[6] == Timeout::Cycles513);
        } else if k == 7 {
            assert(o[7] == Timeout::Cycles1k);
        } else if k == 8 {
            assert(o[8] == Timeout::Cycles2k);
        } else if k == 9 {
            assert(o[9] == Timeout::Cycles4k);
        } else if k == 10 {
            assert(o[10] == Timeout::Cycles8k);
        } else if k == 11 {
            assert(o[11] == Timeout::Cycles16k);
        } else if k == 12 {
            assert(o[12] == Timeout::Cycles32k);
        } else if k == 13 {
            assert(o[13] == Timeout::Cycles64k);
        } else if k == 14 {
            assert(o[14] == Timeout::Cycles128k);
        } else if k == 15 {
            assert(o[15] == Timeout::Cycles256k);
        }
    }
    match t {
        Timeout::Cycles9 => assert(o[0] == t),
        Timeout::Cycles17 => assert(o[1] == t),
        Timeout::Cycles33 => assert(o[2] == t),
        Timeout::Cycles65 => assert(o[3] == t),
        Timeout::Cycles129 => assert(o[4] == t),
        Timeout::Cycles257 => assert(o[5] == t),
        Timeout::Cycles513 => assert(o[6] == t),
        Timeout::Cycles1k => assert(o[7] == t),
        Timeout::Cycles2k => assert(o[8] == t),
        Timeout::Cycles4k => assert(o[9] == t),
        Timeout::Cycles8k => assert(o[10] == t),
        Timeout::Cycles16k => assert(o[11] == t),
        Timeout::Cycles32k => assert(o[12] == t),
        Timeout::Cycles64k => assert(o[13] == t),
        Timeout::Cycles128k => assert(o[14] == t),
        Timeout::Cycles256k => assert(o[15] == t),
    }
}

/// The warning settings in declaration order, from disabled to 75 percent.
pub open spec fn warning_order() -> Seq<Warning> {
    seq![
        Warning::Disabled,
        Warning::Percent25,
        Warning::Percent50,
        Warning::Percent75,
    ]
}

/// Warning `PercentN` fires at N percent of the timeout: the k-th warning setting in
/// declaration order has WARNSEL value k, that is a threshold of 25 * k percent (0 meaning
/// disabled), and no two settings share a value.
pub proof fn lemma_warning_encoding(w: Warning)
    ensures
        forall|k: int|
            0 <= k < 4 ==> ((#[trigger] warning_order()[k]).spec_bits() == k),
        warning_order().contains(w),
        forall|q: Warning| #[trigger] q.spec_bits() == w.spec_bits() ==> q == w,
{
    let o = warning_order();
    assert forall|k: int| 0 <= k < 4 implies (o[k].spec_bits() == k) by {
        if k == 0 {
            assert(o[0] == Warning::Disabled);
        } else if k == 1 {
            assert(o[1] == Warning::Percent25);
        } else if k == 2 {
            assert(o[2] == Warning::Percent50);
        } else if k == 3 {
            assert(o[3] == Warning::Percent75);
        }
    }
    match w {
        Warning::Disabled => assert(o[0] == w),
        Warning::Percent25 => assert(o[1] == w),
        Warning::Percent50 => assert(o[2] == w),
        Warning::Percent75 => assert(o[3] == w),
    }
}

} // verus!
