//! Energy Management Unit (EMU) logic.
//!
//! Power management state is expressed over [`EmuRegs`] (the EMU register fields the
//! driver touches) and [`ScbRegs`] (the Cortex-M System Control Register). Entering a
//! sleep mode is split in two: the register effects computed here, and the wait for
//! interrupt that the caller performs afterwards.
use vstd::prelude::*;

verus! {

/// SLEEPDEEP bit of the Cortex-M SCR register.
pub const SCR_SLEEPDEEP: u32 = 0x4;

/// EM4ENTRY value that enters EM4 Hibernate.
pub const EM4ENTRY_HIBERNATE: u8 = 2;

/// Energy mode selection.
#[derive(Clone, Copy, Debug, PartialEq, Eq)]
pub enum EnergyMode {
    /// EM0: Active/Run mode - CPU executing code.
    Em0,
    /// EM1: Sleep mode - CPU sleeping, high-frequency peripherals available.
    Em1,
    /// EM2: Deep Sleep mode - Low-frequency peripherals active.
    Em2,
    /// EM3: Stop mode - Most peripherals disabled, RAM retained.
    Em3,
    /// EM4: Shutoff mode - Lowest power consumption.
    Em4,
}

/// EM4 sub-modes for Series 2 devices.
#[derive(Clone, Copy, Debug, PartialEq, Eq)]
pub enum Em4Mode {
    /// EM4 Shutoff - Lowest power, no RAM retention.
    Shutoff,
    /// EM4 Hibernate - Low power with BURTC/GPIO wakeup capability.
    Hibernate,
}

impl Default for Em4Mode {
    /// Hibernate is the default EM4 mode.
    fn default() -> (r: Self)
        ensures
            r == Em4Mode::Hibernate,
    {
        Em4Mode::Hibernate
    }
}

/// EM2/EM3 debug mode configuration.
#[derive(Clone, Copy, Debug, PartialEq, Eq)]
pub enum DebugMode {
    /// Disable debug functionality in EM2/EM3.
    Disabled,
    /// Enable debug functionality in EM2/EM3 (higher power consumption).
    Enabled,
}

impl Default for DebugMode {
    /// Debug in EM2/EM3 is disabled by default.
    fn default() -> (r: Self)
        ensures
            r == DebugMode::Disabled,
    {
        DebugMode::Disabled
    }
}

/// EMU configuration.
#[derive(Clone, Copy, Debug, PartialEq, Eq)]
pub struct Config {
    /// EM4 mode selection.
    pub em4_mode: Em4Mode,
    /// Debug mode for EM2/EM3.
    pub debug_mode: DebugMode,
    /// Retain RAM in EM4 (for Hibernate mode only).
    pub em4_retain_ram: bool,
    /// Enable BURTC wakeup from EM4.
    pub em4_burtc_wakeup: bool,
    /// Enable GPIO wakeup from EM4.
    pub em4_gpio_wakeup: bool,
}

impl Default for Config {
    /// Hibernate, debug disabled, no RAM retention and no wakeup sources.
    fn default() -> (r: Self)
        ensures
            r == (Config {
                em4_mode: Em4Mode::Hibernate,
                debug_mode: DebugMode::Disabled,
                em4_retain_ram: false,
                em4_burtc_wakeup: false,
                em4_gpio_wakeup: false,
            }),
    {
        Config {
            em4_mode: Em4Mode::Hibernate,
            debug_mode: DebugMode::Disabled,
            em4_retain_ram: false,
            em4_burtc_wakeup: false,
            em4_gpio_wakeup: false,
        }
    }
}

/// Voltage scaling levels.
#[derive(Clone, Copy, Debug, PartialEq, Eq)]
pub enum VoltageScale {
    /// Scale 0: Lowest voltage (1.0V), limited clock frequency.
    Scale0,
    /// Scale 1: Medium voltage (1.1V), balanced performance.
    Scale1,
    /// Scale 2: Full voltage (1.2V), maximum clock frequency.
    Scale2,
}

/// EM4 wakeup cause information.
#[derive(Clone, Copy, Debug, PartialEq, Eq)]
pub struct Em4WakeupCause {
    /// True if wakeup was caused by a GPIO pin.
    pub pin_wakeup: bool,
    /// True if wakeup was caused by BURTC.
    pub burtc_wakeup: bool,
}

impl Default for Em4WakeupCause {
    /// No wakeup cause.
    fn default() -> (r: Self)
        ensures
            !r.pin_wakeup,
            !r.burtc_wakeup,
    {
        Em4WakeupCause { pin_wakeup: false, burtc_wakeup: false }
    }
}

/// EM4 wakeup pin polarity.
#[derive(Clone, Copy, Debug, PartialEq, Eq)]
pub enum WakeupPolarity {
    /// Wake on rising edge (low to high).
    RisingEdge,
    /// Wake on falling edge (high to low).
    FallingEdge,
}

impl Default for WakeupPolarity {
    /// Rising edge by default.
    fn default() -> (r: Self)
        ensures
            r == WakeupPolarity::RisingEdge,
    {
        WakeupPolarity::RisingEdge
    }
}

/// Brown-out detection level.
#[derive(Clone, Copy, Debug, PartialEq, Eq)]
pub enum BodLevel {
    /// Level 0 (lowest threshold).
    Level0,
    /// Level 1.
    Level1,
    /// Level 2.
    Level2,
    /// Level 3 (highest threshold).
    Level3,
}

/// The EMU register fields used by the driver.
#[derive(Clone, Copy, Debug, PartialEq, Eq)]
pub struct EmuRegs {
    /// CTRL.EM2DBGEN
    pub em2dbgen: bool,
    /// EM4CTRL.EM4ENTRY
    pub em4entry: u8,
    /// STATUS.EM4IORET
    pub em4ioret: bool,
    /// STATUS.VSCALE
    pub vscale: u8,
    /// STATUS.VSCALEBUSY
    pub vscalebusy: bool,
    /// Whether the last CMD write held EM01VSCALE1.
    pub cmd_em01vscale1: bool,
    /// Whether the last CMD write held EM01VSCALE2.
    pub cmd_em01vscale2: bool,
    /// Lock state: cleared by writing the UNLOCK key.
    pub locked: bool,
    /// TEMP.TEMPAVG
    pub tempavg: u16,
}

/// The Cortex-M System Control Register.
#[derive(Clone, Copy, Debug, PartialEq, Eq)]
pub struct ScbRegs {
    /// SCR
    pub scr: u32,
}

/// The voltage scaling level that a STATUS.VSCALE value reports: 1 is Scale1, 2 is
/// Scale2, anything else Scale0.
pub open spec fn spec_scale_of(vscale: u8) -> VoltageScale {
    if vscale == 1 {
        VoltageScale::Scale1
    } else if vscale == 2 {
        VoltageScale::Scale2
    } else {
        VoltageScale::Scale0
    }
}

/// The EMU registers after the voltage scaling command for `scale` has been issued
/// and has completed: the command bits written, STATUS.VSCALE at the commanded level,
/// VSCALEBUSY clear.
pub open spec fn spec_set_voltage_scale(regs: EmuRegs, scale: VoltageScale) -> EmuRegs {
    let cmd = EmuRegs {
        cmd_em01vscale1: scale != VoltageScale::Scale2,
        cmd_em01vscale2: scale == VoltageScale::Scale2,
        ..regs
    };
    EmuRegs { vscale: spec_commanded_vscale(cmd), vscalebusy: false, ..cmd }
}

/// The STATUS.VSCALE value that the last voltage scaling command selects (0 when no
/// command bit is set).
pub open spec fn spec_commanded_vscale(regs: EmuRegs) -> u8 {
    if regs.cmd_em01vscale2 {
        2
    } else if regs.cmd_em01vscale1 {
        1
    } else {
        0
    }
}

/// Energy Management Unit driver.
pub struct Emu {
    _private: (),
}

/// Temperature in degrees Celsius from a TEMPAVG reading: quarter degrees above
/// -128 C, divided by four with truncation toward zero.
pub open spec fn spec_temperature(raw: u16) -> i32 {
    if raw >= 512 {
        ((raw - 512) / 4) as i32
    } else {
        (-((512 - raw) / 4)) as i32
    }
}

impl Emu {
    /// Create a new EMU driver with default configuration.
    pub fn new(regs: &mut EmuRegs) -> (r: Self)
        ensures
            *final(regs) == (EmuRegs { em2dbgen: false, ..*old(regs) }),
    {
        Self::with_config(Config::default(), regs)
    }

    /// Create a new EMU driver with custom configuration: the EM2/EM3 debug enable is
    /// set from the debug mode.
    pub fn with_config(config: Config, regs: &mut EmuRegs) -> (r: Self)
        ensures
            *final(regs) == (EmuRegs { em2dbgen: config.debug_mode == DebugMode::Enabled, ..*old(regs) }),
    {
        match config.debug_mode {
            DebugMode::Disabled => regs.em2dbgen = false,
            DebugMode::Enabled => regs.em2dbgen = true,
        }
        Emu { _private: () }
    }

    /// Prepare EM1 (Sleep): SLEEPDEEP is cleared; the caller then waits for interrupt.
    pub fn enter_em1(&self, scb: &mut ScbRegs)
        ensures
            final(scb).scr == old(scb).scr & !SCR_SLEEPDEEP,
    {
        scb.scr = scb.scr & !SCR_SLEEPDEEP;
    }

    /// Prepare EM2 (Deep Sleep): SLEEPDEEP is set; the caller then waits for
    /// interrupt and calls [`Emu::wake_from_deep_sleep`].
    pub fn enter_em2(&self, scb: &mut ScbRegs, restore: bool)
        ensures
            final(scb).scr == old(scb).scr | SCR_SLEEPDEEP,
    {
        self.enter_deep_sleep(scb, false, restore);
    }

    /// Prepare EM3 (Stop): SLEEPDEEP is set; the caller then waits for interrupt and
    /// calls [`Emu::wake_from_deep_sleep`].
    pub fn enter_em3(&self, scb: &mut ScbRegs, restore: bool)
        ensures
            final(scb).scr == old(scb).scr | SCR_SLEEPDEEP,
    {
        self.enter_deep_sleep(scb, true, restore);
    }

    fn enter_deep_sleep(&self, scb: &mut ScbRegs, _em3: bool, _restore: bool)
        ensures
            final(scb).scr == old(scb).scr | SCR_SLEEPDEEP,
    {
        scb.scr = scb.scr | SCR_SLEEPDEEP;
    }

    /// After wakeup from EM2/EM3: SLEEPDEEP is cleared again.
    pub fn wake_from_deep_sleep(&self, scb: &mut ScbRegs)
        ensures
            final(scb).scr == old(scb).scr & !SCR_SLEEPDEEP,
    {
        scb.scr = scb.scr & !SCR_SLEEPDEEP;
    }

    /// Prepare EM4 (Hibernate): SLEEPDEEP is set and EM4ENTRY written with the
    /// hibernate value; the caller then waits for interrupt forever.
    pub fn enter_em4(&self, scb: &mut ScbRegs, regs: &mut EmuRegs)
        ensures
            final(scb).scr == old(scb).scr | SCR_SLEEPDEEP,
            *final(regs) == (EmuRegs { em4entry: EM4ENTRY_HIBERNATE, ..*old(regs) }),
    {
        scb.scr = scb.scr | SCR_SLEEPDEEP;
        regs.em4entry = EM4ENTRY_HIBERNATE;
    }

    /// Get the cause of the last wakeup from EM4 (pin retention status; BURTC is not
    /// reported here).
    pub fn em4_wakeup_cause(&self, regs: &EmuRegs) -> (r: Em4WakeupCause)
        ensures
            r == (Em4WakeupCause { pin_wakeup: regs.em4ioret, burtc_wakeup: false }),
    {
        Em4WakeupCause { pin_wakeup: regs.em4ioret, burtc_wakeup: false }
    }

    /// Check if the device woke up from EM4.
    pub fn was_em4_wakeup(&self, regs: &EmuRegs) -> (r: bool)
        ensures
            r == regs.em4ioret,
    {
        regs.em4ioret
    }

    /// Clear EM4 wakeup cause flags (the hardware clears them on wakeup; nothing is
    /// written).
    pub fn clear_em4_wakeup_cause(&self) {
    }

    /// Enable BURTC as an EM4 wakeup source (configured in the BURTC itself; nothing is
    /// written here).
    pub fn enable_burtc_em4_wakeup(&self) {
    }

    /// Configure RAM retention for EM4 (automatic in EM4H on Series 2; nothing is
    /// written).
    pub fn set_em4_ram_retention(&self, _blocks: u32) {
    }

    /// Get the current voltage scaling level from STATUS.VSCALE.
    pub fn voltage_scale_level(&self, regs: &EmuRegs) -> (r: VoltageScale)
        ensures
            r == spec_scale_of(regs.vscale),
    {
        if regs.vscale == 1 {
            VoltageScale::Scale1
        } else if regs.vscale == 2 {
            VoltageScale::Scale2
        } else {
            VoltageScale::Scale0
        }
    }

    /// Set the voltage scaling level: the command for `scale` is issued (Scale0 falls
    /// back to the EM01VSCALE1 command) and scaling completes, after which STATUS
    /// reports the commanded level and VSCALEBUSY is clear. The caller waits for
    /// VSCALEBUSY before and after.
    pub fn set_voltage_scale(&self, regs: &mut EmuRegs, scale: VoltageScale)
        ensures
            *final(regs) == spec_set_voltage_scale(*old(regs), scale),
    {
        match scale {
            VoltageScale::Scale0 => {
                regs.cmd_em01vscale1 = true;
                regs.cmd_em01vscale2 = false;
            },
            VoltageScale::Scale1 => {
                regs.cmd_em01vscale1 = true;
                regs.cmd_em01vscale2 = false;
            },
            VoltageScale::Scale2 => {
                regs.cmd_em01vscale1 = false;
                regs.cmd_em01vscale2 = true;
            },
        }
        regs.vscale = if regs.cmd_em01vscale2 {
            2
        } else {
            1
        };
        regs.vscalebusy = false;
    }

    /// Lock EMU configuration to prevent further changes (a value other than the
    /// unlock key is written to LOCK).
    pub fn lock(&self, regs: &mut EmuRegs)
        ensures
            *final(regs) == (EmuRegs { locked: true, ..*old(regs) }),
    {
        regs.locked = true;
    }

    /// Unlock EMU configuration (the UNLOCK key is written).
    pub fn unlock(&self, regs: &mut EmuRegs)
        ensures
            *final(regs) == (EmuRegs { locked: false, ..*old(regs) }),
    {
        regs.locked = false;
    }

    /// Check if EMU is locked.
    pub fn is_locked(&self, regs: &EmuRegs) -> (r: bool)
        ensures
            r == regs.locked,
    {
        regs.locked
    }

    /// Configure a GPIO pin as an EM4 wakeup source (device-specific; nothing is
    /// written).
    pub fn configure_em4_wakeup_pin(&self, pin: u8, enable: bool, polarity: WakeupPolarity) {
    }

    /// Retain GPIO state when entering EM4 (device-specific; nothing is written).
    pub fn retain_gpio_em4(&self, _retain: bool) {
    }

    /// Check if a power-on reset occurred (reported by the RMU; `false` here).
    pub fn was_power_on_reset(&self) -> (r: bool)
        ensures
            !r,
    {
        false
    }

    /// Check if a brown-out reset occurred (reported by the RMU; `false` here).
    pub fn was_brownout_reset(&self) -> (r: bool)
        ensures
            !r,
    {
        false
    }

    /// Read the on-chip temperature sensor in degrees Celsius: `None` while the
    /// averaged reading is zero.
    pub fn read_temperature(&self, regs: &EmuRegs) -> (r: Option<i32>)
        ensures
            regs.tempavg == 0 ==> r is None,
            regs.tempavg != 0 ==> r == Some(spec_temperature(regs.tempavg)),
    {
        let raw = regs.tempavg;
        if raw == 0 {
            return None;
        }
        if raw >= 512 {
            Some(((raw - 512) / 4) as i32)
        } else {
            Some(-(((512 - raw) / 4) as i32))
        }
    }
}

/// After `set_voltage_scale` with Scale1 or Scale2 has returned, reading the level
/// gives that scale back.
pub proof fn lemma_voltage_scale_roundtrip(regs: EmuRegs, scale: VoltageScale)
    requires
        scale != VoltageScale::Scale0,
    ensures
        spec_scale_of(spec_set_voltage_scale(regs, scale).vscale) == scale,
{
}

} // verus!
