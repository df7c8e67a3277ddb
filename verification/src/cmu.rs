//! Clock Management Unit (CMU) logic.
//!
//! The clock tree configuration is expressed over [`CmuRegs`], a model of the CMU
//! register fields that the drivers touch: the clock enable bits of CLKEN0 and CLKEN1
//! and the clock source selections. Every operation states exactly which field it
//! changes and that all others stay as they were.
use vstd::prelude::*;

verus! {

/// HFRCO (High Frequency RC Oscillator) frequency bands.
#[derive(Clone, Copy, Debug, PartialEq, Eq)]
pub enum HfrcoFreq {
    /// 1 MHz
    Freq1MHz,
    /// 2 MHz
    Freq2MHz,
    /// 4 MHz
    Freq4MHz,
    /// 7 MHz
    Freq7MHz,
    /// 13 MHz
    Freq13MHz,
    /// 16 MHz
    Freq16MHz,
    /// 19 MHz
    Freq19MHz,
    /// 26 MHz
    Freq26MHz,
    /// 32 MHz
    Freq32MHz,
    /// 38 MHz
    Freq38MHz,
    /// 48 MHz
    Freq48MHz,
    /// 56 MHz
    Freq56MHz,
    /// 64 MHz
    Freq64MHz,
    /// 80 MHz
    Freq80MHz,
}

impl HfrcoFreq {
    /// The frequency of a band in Hz.
    pub open spec fn spec_frequency_hz(self) -> u32 {
        match self {
            HfrcoFreq::Freq1MHz => 1_000_000,
            HfrcoFreq::Freq2MHz => 2_000_000,
            HfrcoFreq::Freq4MHz => 4_000_000,
            HfrcoFreq::Freq7MHz => 7_000_000,
            HfrcoFreq::Freq13MHz => 13_000_000,
            HfrcoFreq::Freq16MHz => 16_000_000,
            HfrcoFreq::Freq19MHz => 19_000_000,
            HfrcoFreq::Freq26MHz => 26_000_000,
            HfrcoFreq::Freq32MHz => 32_000_000,
            HfrcoFreq::Freq38MHz => 38_000_000,
            HfrcoFreq::Freq48MHz => 48_000_000,
            HfrcoFreq::Freq56MHz => 56_000_000,
            HfrcoFreq::Freq64MHz => 64_000_000,
            HfrcoFreq::Freq80MHz => 80_000_000,
        }
    }

    /// Get the frequency in Hz.
    pub fn frequency_hz(&self) -> (r: u32)
        ensures
            r == self.spec_frequency_hz(),
    {
        match self {
            HfrcoFreq::Freq1MHz => 1_000_000,
            HfrcoFreq::Freq2MHz => 2_000_000,
            HfrcoFreq::Freq4MHz => 4_000_000,
            HfrcoFreq::Freq7MHz => 7_000_000,
            HfrcoFreq::Freq13MHz => 13_000_000,
            HfrcoFreq::Freq16MHz => 16_000_000,
            HfrcoFreq::Freq19MHz => 19_000_000,
            HfrcoFreq::Freq26MHz => 26_000_000,
            HfrcoFreq::Freq32MHz => 32_000_000,
            HfrcoFreq::Freq38MHz => 38_000_000,
            HfrcoFreq::Freq48MHz => 48_000_000,
            HfrcoFreq::Freq56MHz => 56_000_000,
            HfrcoFreq::Freq64MHz => 64_000_000,
            HfrcoFreq::Freq80MHz => 80_000_000,
        }
    }
}

impl Default for HfrcoFreq {
    /// The reset band, 38 MHz.
    fn default() -> (r: Self)
        ensures
            r == HfrcoFreq::Freq38MHz,
    {
        HfrcoFreq::Freq38MHz
    }
}

/// SYSCLK source selection.
#[derive(Clone, Copy, Debug, PartialEq, Eq)]
pub enum SysclkSel {
    /// FSRCO (Fast startup RC oscillator)
    Fsrco,
    /// HFRCO (High frequency RC oscillator)
    Hfrco,
    /// HFXO (High frequency crystal oscillator)
    Hfxo,
    /// CLKIN0 (External clock input)
    Clkin0,
}

impl Default for SysclkSel {
    /// The default SYSCLK source, HFRCO.
    fn default() -> (r: Self)
        ensures
            r == SysclkSel::Hfrco,
    {
        SysclkSel::Hfrco
    }
}

/// IADC clock source selection.
#[derive(Clone, Copy, Debug, PartialEq, Eq)]
pub enum IadcClkSel {
    /// EM01GRPACLK (default)
    Em01GrpA,
    /// FSRCO
    Fsrco,
    /// HFRCOEM23
    Hfrcoem23,
}

impl Default for IadcClkSel {
    /// The default IADC clock, EM01GRPACLK.
    fn default() -> (r: Self)
        ensures
            r == IadcClkSel::Em01GrpA,
    {
        IadcClkSel::Em01GrpA
    }
}

/// WDOG clock source selection.
#[derive(Clone, Copy, Debug, PartialEq, Eq)]
pub enum WdogClkSel {
    /// LFRCO (Low frequency RC oscillator, ~32.768 kHz)
    Lfrco,
    /// LFXO (Low frequency crystal oscillator, 32.768 kHz)
    Lfxo,
    /// ULFRCO (Ultra low frequency RC oscillator, ~1 kHz)
    Ulfrco,
    /// HCLK / 1024
    HclkDiv1024,
}

impl WdogClkSel {
    /// The approximate frequency of a watchdog clock source in Hz (HCLK / 1024 taken
    /// at the 38 MHz that `Cmu::hclk_frequency` reports).
    pub open spec fn spec_frequency_hz(self) -> u32 {
        match self {
            WdogClkSel::Lfrco => 32_768,
            WdogClkSel::Lfxo => 32_768,
            WdogClkSel::Ulfrco => 1_000,
            WdogClkSel::HclkDiv1024 => 38_000_000u32 / 1024u32,
        }
    }

    /// Get the approximate clock frequency in Hz.
    pub fn frequency_hz(&self) -> (r: u32)
        ensures
            r == self.spec_frequency_hz(),
    {
        match self {
            WdogClkSel::Lfrco => 32_768,
            WdogClkSel::Lfxo => 32_768,
            WdogClkSel::Ulfrco => 1_000,
            WdogClkSel::HclkDiv1024 => Cmu::hclk_frequency() / 1024,
        }
    }
}

impl Default for WdogClkSel {
    /// The default watchdog clock, LFRCO.
    fn default() -> (r: Self)
        ensures
            r == WdogClkSel::Lfrco,
    {
        WdogClkSel::Lfrco
    }
}

/// EUSART clock source selection.
#[derive(Clone, Copy, Debug, PartialEq, Eq)]
pub enum EusartClkSel {
    /// EM01GRPCCLK (default)
    Em01GrpC,
    /// HFRCOEM23
    Hfrcoem23,
    /// LFRCO
    Lfrco,
    /// LFXO
    Lfxo,
}

impl Default for EusartClkSel {
    /// The default EUSART clock, EM01GRPCCLK.
    fn default() -> (r: Self)
        ensures
            r == EusartClkSel::Em01GrpC,
    {
        EusartClkSel::Em01GrpC
    }
}

/// SYSRTC clock source selection.
#[derive(Clone, Copy, Debug, PartialEq, Eq)]
pub enum Sysrtc0ClkSel {
    /// LFRCO
    Lfrco,
    /// LFXO
    Lfxo,
    /// ULFRCO
    Ulfrco,
}

/// The clock enable bits of the CMU CLKEN0 register.
#[derive(Clone, Copy, Debug, PartialEq, Eq)]
pub struct Clken0 {
    /// Clock enable for LDMA.
    pub ldma: bool,
    /// Clock enable for LDMAXBAR.
    pub ldmaxbar: bool,
    /// Clock enable for GPCRC.
    pub gpcrc: bool,
    /// Clock enable for TIMER0.
    pub timer0: bool,
    /// Clock enable for TIMER1.
    pub timer1: bool,
    /// Clock enable for TIMER2.
    pub timer2: bool,
    /// Clock enable for TIMER3.
    pub timer3: bool,
    /// Clock enable for TIMER4.
    pub timer4: bool,
    /// Clock enable for USART0.
    pub usart0: bool,
    /// Clock enable for IADC0.
    pub iadc0: bool,
    /// Clock enable for I2C0.
    pub i2c0: bool,
    /// Clock enable for I2C1.
    pub i2c1: bool,
    /// Clock enable for GPIO.
    pub gpio: bool,
    /// Clock enable for PRS.
    pub prs: bool,
    /// Clock enable for LFRCO.
    pub lfrco: bool,
    /// Clock enable for LFXO.
    pub lfxo: bool,
    /// Clock enable for ULFRCO.
    pub ulfrco: bool,
    /// Clock enable for HFRCO0.
    pub hfrco0: bool,
    /// Clock enable for HFXO0.
    pub hfxo0: bool,
    /// Clock enable for HFRCOEM23.
    pub hfrcoem23: bool,
    /// Clock enable for WDOG0.
    pub wdog0: bool,
    /// Clock enable for BURTC.
    pub burtc: bool,
    /// Clock enable for SYSRTC0.
    pub sysrtc0: bool,
    /// Clock enable for LETIMER0.
    pub letimer0: bool,
    /// Clock enable for DCDC.
    pub dcdc: bool,
}

/// The clock enable bits of the CMU CLKEN1 register.
#[derive(Clone, Copy, Debug, PartialEq, Eq)]
pub struct Clken1 {
    /// Clock enable for WDOG1.
    pub wdog1: bool,
    /// Clock enable for EUSART0.
    pub eusart0: bool,
    /// Clock enable for EUSART1.
    pub eusart1: bool,
    /// Clock enable for MSC.
    pub msc: bool,
}

/// The CMU register fields used by the drivers.
#[derive(Clone, Copy, Debug, PartialEq, Eq)]
pub struct CmuRegs {
    /// CLKEN0.
    pub clken0: Clken0,
    /// CLKEN1.
    pub clken1: Clken1,
    /// IADCCLKCTRL.CLKSEL.
    pub iadc_clksel: IadcClkSel,
    /// WDOG0CLKCTRL.CLKSEL.
    pub wdog0_clksel: WdogClkSel,
    /// WDOG1CLKCTRL.CLKSEL.
    pub wdog1_clksel: WdogClkSel,
    /// SYSRTC0CLKCTRL.CLKSEL.
    pub sysrtc0_clksel: Sysrtc0ClkSel,
}

impl Clken0 {
    /// CLKEN0 with every clock gated off.
    pub fn none() -> (r: Self)
        ensures
            !r.ldma,
            !r.ldmaxbar,
            !r.gpcrc,
            !r.timer0,
            !r.timer1,
            !r.timer2,
            !r.timer3,
            !r.timer4,
            !r.usart0,
            !r.iadc0,
            !r.i2c0,
            !r.i2c1,
            !r.gpio,
            !r.prs,
            !r.lfrco,
            !r.lfxo,
            !r.ulfrco,
            !r.hfrco0,
            !r.hfxo0,
            !r.hfrcoem23,
            !r.wdog0,
            !r.burtc,
            !r.sysrtc0,
            !r.letimer0,
            !r.dcdc,
    {
        Clken0 {
            ldma: false,
            ldmaxbar: false,
            gpcrc: false,
            timer0: false,
            timer1: false,
            timer2: false,
            timer3: false,
            timer4: false,
            usart0: false,
            iadc0: false,
            i2c0: false,
            i2c1: false,
            gpio: false,
            prs: false,
            lfrco: false,
            lfxo: false,
            ulfrco: false,
            hfrco0: false,
            hfxo0: false,
            hfrcoem23: false,
            wdog0: false,
            burtc: false,
            sysrtc0: false,
            letimer0: false,
            dcdc: false,
        }
    }
}

impl Clken1 {
    /// CLKEN1 with every clock gated off.
    pub fn none() -> (r: Self)
        ensures
            !r.wdog1,
            !r.eusart0,
            !r.eusart1,
            !r.msc,
    {
        Clken1 {
            wdog1: false,
            eusart0: false,
            eusart1: false,
            msc: false,
        }
    }
}

impl CmuRegs {
    /// The CMU state after reset: every gated clock off and the default clock sources.
    pub fn reset() -> (r: Self)
        ensures
            r.clken0 == Clken0::none_spec(),
            r.clken1 == Clken1::none_spec(),
            r.iadc_clksel == IadcClkSel::Em01GrpA,
            r.wdog0_clksel == WdogClkSel::Lfrco,
            r.wdog1_clksel == WdogClkSel::Lfrco,
            r.sysrtc0_clksel == Sysrtc0ClkSel::Lfrco,
    {
        CmuRegs {
            clken0: Clken0::none(),
            clken1: Clken1::none(),
            iadc_clksel: IadcClkSel::Em01GrpA,
            wdog0_clksel: WdogClkSel::Lfrco,
            wdog1_clksel: WdogClkSel::Lfrco,
            sysrtc0_clksel: Sysrtc0ClkSel::Lfrco,
        }
    }
}

impl Clken0 {
    /// CLKEN0 with every clock gated off.
    pub open spec fn none_spec() -> Self {
        Clken0 {
            ldma: false,
            ldmaxbar: false,
            gpcrc: false,
            timer0: false,
            timer1: false,
            timer2: false,
            timer3: false,
            timer4: false,
            usart0: false,
            iadc0: false,
            i2c0: false,
            i2c1: false,
            gpio: false,
            prs: false,
            lfrco: false,
            lfxo: false,
            ulfrco: false,
            hfrco0: false,
            hfxo0: false,
            hfrcoem23: false,
            wdog0: false,
            burtc: false,
            sysrtc0: false,
            letimer0: false,
            dcdc: false,
        }
    }
}

impl Clken1 {
    /// CLKEN1 with every clock gated off.
    pub open spec fn none_spec() -> Self {
        Clken1 {
            wdog1: false,
            eusart0: false,
            eusart1: false,
            msc: false,
        }
    }
}

/// The CMU registers after the LFRCO is enabled: its CLKEN0 bit set, nothing else
/// changed.
pub open spec fn spec_enable_lfrco(regs: CmuRegs) -> CmuRegs {
    CmuRegs { clken0: Clken0 { lfrco: true, ..regs.clken0 }, ..regs }
}

/// Enabling the LFRCO makes it report enabled, leaves CLKEN1 and the other CLKEN0 bits
/// alone, and a second enable changes nothing.
pub proof fn lemma_enable_lfrco_idempotent(regs: CmuRegs)
    ensures
        spec_enable_lfrco(regs).clken0.lfrco,
        spec_enable_lfrco(regs).clken1 == regs.clken1,
        spec_enable_lfrco(spec_enable_lfrco(regs)) == spec_enable_lfrco(regs),
{
}

/// Clock Management Unit driver.
///
/// All operations act on a [`CmuRegs`] model of the CMU registers.
pub struct Cmu;

impl Cmu {
    /// Enable the LFRCO (Low Frequency RC Oscillator, ~32.768 kHz).
    pub fn enable_lfrco(regs: &mut CmuRegs)
        ensures
            *final(regs) == spec_enable_lfrco(*old(regs)),
    {
        regs.clken0 = Clken0 { lfrco: true, ..regs.clken0 };
    }

    /// Disable the LFRCO.
    pub fn disable_lfrco(regs: &mut CmuRegs)
        ensures
            *final(regs) == (CmuRegs { clken0: (Clken0 { lfrco: false, ..old(regs).clken0 }), ..*old(regs) }),
    {
        regs.clken0 = Clken0 { lfrco: false, ..regs.clken0 };
    }

    /// Check if LFRCO is enabled.
    pub fn is_lfrco_enabled(regs: &CmuRegs) -> (r: bool)
        ensures
            r == regs.clken0.lfrco,
    {
        regs.clken0.lfrco
    }

    /// Enable the LFXO (Low Frequency Crystal Oscillator, 32.768 kHz).
    pub fn enable_lfxo(regs: &mut CmuRegs)
        ensures
            *final(regs) == (CmuRegs { clken0: (Clken0 { lfxo: true, ..old(regs).clken0 }), ..*old(regs) }),
    {
        regs.clken0 = Clken0 { lfxo: true, ..regs.clken0 };
    }

    /// Disable the LFXO.
    pub fn disable_lfxo(regs: &mut CmuRegs)
        ensures
            *final(regs) == (CmuRegs { clken0: (Clken0 { lfxo: false, ..old(regs).clken0 }), ..*old(regs) }),
    {
        regs.clken0 = Clken0 { lfxo: false, ..regs.clken0 };
    }

    /// Check if LFXO is enabled.
    pub fn is_lfxo_enabled(regs: &CmuRegs) -> (r: bool)
        ensures
            r == regs.clken0.lfxo,
    {
        regs.clken0.lfxo
    }

    /// Enable the ULFRCO (Ultra Low Frequency RC Oscillator, ~1 kHz).
    pub fn enable_ulfrco(regs: &mut CmuRegs)
        ensures
            *final(regs) == (CmuRegs { clken0: (Clken0 { ulfrco: true, ..old(regs).clken0 }), ..*old(regs) }),
    {
        regs.clken0 = Clken0 { ulfrco: true, ..regs.clken0 };
    }

    /// Disable the ULFRCO.
    pub fn disable_ulfrco(regs: &mut CmuRegs)
        ensures
            *final(regs) == (CmuRegs { clken0: (Clken0 { ulfrco: false, ..old(regs).clken0 }), ..*old(regs) }),
    {
        regs.clken0 = Clken0 { ulfrco: false, ..regs.clken0 };
    }

    /// Check if ULFRCO is enabled.
    pub fn is_ulfrco_enabled(regs: &CmuRegs) -> (r: bool)
        ensures
            r == regs.clken0.ulfrco,
    {
        regs.clken0.ulfrco
    }

    /// Enable the HFRCO (High Frequency RC Oscillator).
    pub fn enable_hfrco(regs: &mut CmuRegs)
        ensures
            *final(regs) == (CmuRegs { clken0: (Clken0 { hfrco0: true, ..old(regs).clken0 }), ..*old(regs) }),
    {
        regs.clken0 = Clken0 { hfrco0: true, ..regs.clken0 };
    }

    /// Disable the HFRCO.
    pub fn disable_hfrco(regs: &mut CmuRegs)
        ensures
            *final(regs) == (CmuRegs { clken0: (Clken0 { hfrco0: false, ..old(regs).clken0 }), ..*old(regs) }),
    {
        regs.clken0 = Clken0 { hfrco0: false, ..regs.clken0 };
    }

    /// Check if HFRCO is enabled.
    pub fn is_hfrco_enabled(regs: &CmuRegs) -> (r: bool)
        ensures
            r == regs.clken0.hfrco0,
    {
        regs.clken0.hfrco0
    }

    /// Enable the HFXO (High Frequency Crystal Oscillator).
    pub fn enable_hfxo(regs: &mut CmuRegs)
        ensures
            *final(regs) == (CmuRegs { clken0: (Clken0 { hfxo0: true, ..old(regs).clken0 }), ..*old(regs) }),
    {
        regs.clken0 = Clken0 { hfxo0: true, ..regs.clken0 };
    }

    /// Disable the HFXO.
    pub fn disable_hfxo(regs: &mut CmuRegs)
        ensures
            *final(regs) == (CmuRegs { clken0: (Clken0 { hfxo0: false, ..old(regs).clken0 }), ..*old(regs) }),
    {
        regs.clken0 = Clken0 { hfxo0: false, ..regs.clken0 };
    }

    /// Check if HFXO is enabled.
    pub fn is_hfxo_enabled(regs: &CmuRegs) -> (r: bool)
        ensures
            r == regs.clken0.hfxo0,
    {
        regs.clken0.hfxo0
    }

    /// Enable the HFRCOEM23 (for EM2/3 operation).
    pub fn enable_hfrcoem23(regs: &mut CmuRegs)
        ensures
            *final(regs) == (CmuRegs { clken0: (Clken0 { hfrcoem23: true, ..old(regs).clken0 }), ..*old(regs) }),
    {
        regs.clken0 = Clken0 { hfrcoem23: true, ..regs.clken0 };
    }

    /// Disable the HFRCOEM23.
    pub fn disable_hfrcoem23(regs: &mut CmuRegs)
        ensures
            *final(regs) == (CmuRegs { clken0: (Clken0 { hfrcoem23: false, ..old(regs).clken0 }), ..*old(regs) }),
    {
        regs.clken0 = Clken0 { hfrcoem23: false, ..regs.clken0 };
    }

    /// Check if HFRCOEM23 is enabled.
    pub fn is_hfrcoem23_enabled(regs: &CmuRegs) -> (r: bool)
        ensures
            r == regs.clken0.hfrcoem23,
    {
        regs.clken0.hfrcoem23
    }

    /// Enable the GPIO clock.
    pub fn enable_gpio(regs: &mut CmuRegs)
        ensures
            *final(regs) == (CmuRegs { clken0: (Clken0 { gpio: true, ..old(regs).clken0 }), ..*old(regs) }),
    {
        regs.clken0 = Clken0 { gpio: true, ..regs.clken0 };
    }

    /// Enable the IADC0 clock.
    pub fn enable_iadc0(regs: &mut CmuRegs)
        ensures
            *final(regs) == (CmuRegs { clken0: (Clken0 { iadc0: true, ..old(regs).clken0 }), ..*old(regs) }),
    {
        regs.clken0 = Clken0 { iadc0: true, ..regs.clken0 };
    }

    /// Disable the IADC0 clock.
    pub fn disable_iadc0(regs: &mut CmuRegs)
        ensures
            *final(regs) == (CmuRegs { clken0: (Clken0 { iadc0: false, ..old(regs).clken0 }), ..*old(regs) }),
    {
        regs.clken0 = Clken0 { iadc0: false, ..regs.clken0 };
    }

    /// Enable the WDOG0 clock.
    pub fn enable_wdog0(regs: &mut CmuRegs)
        ensures
            *final(regs) == (CmuRegs { clken0: (Clken0 { wdog0: true, ..old(regs).clken0 }), ..*old(regs) }),
    {
        regs.clken0 = Clken0 { wdog0: true, ..regs.clken0 };
    }

    /// Disable the WDOG0 clock.
    pub fn disable_wdog0(regs: &mut CmuRegs)
        ensures
            *final(regs) == (CmuRegs { clken0: (Clken0 { wdog0: false, ..old(regs).clken0 }), ..*old(regs) }),
    {
        regs.clken0 = Clken0 { wdog0: false, ..regs.clken0 };
    }

    /// Enable the WDOG1 clock.
    pub fn enable_wdog1(regs: &mut CmuRegs)
        ensures
            *final(regs) == (CmuRegs { clken1: (Clken1 { wdog1: true, ..old(regs).clken1 }), ..*old(regs) }),
    {
        regs.clken1 = Clken1 { wdog1: true, ..regs.clken1 };
    }

    /// Disable the WDOG1 clock.
    pub fn disable_wdog1(regs: &mut CmuRegs)
        ensures
            *final(regs) == (CmuRegs { clken1: (Clken1 { wdog1: false, ..old(regs).clken1 }), ..*old(regs) }),
    {
        regs.clken1 = Clken1 { wdog1: false, ..regs.clken1 };
    }

    /// The clock gates with timer `index` switched on or off; other indices leave them as they are.
    pub open spec fn timer_gate(c: Clken0, index: u8, on: bool) -> Clken0 {
        if index == 0 {
            Clken0 { timer0: on, ..c }
        } else if index == 1 {
            Clken0 { timer1: on, ..c }
        } else if index == 2 {
            Clken0 { timer2: on, ..c }
        } else if index == 3 {
            Clken0 { timer3: on, ..c }
        } else if index == 4 {
            Clken0 { timer4: on, ..c }
        } else {
            c
        }
    }

    fn set_timer_gate(c: Clken0, index: u8, on: bool) -> (r: Clken0)
        ensures
            r == Self::timer_gate(c, index, on),
    {
        match index {
            0 => Clken0 { timer0: on, ..c },
            1 => Clken0 { timer1: on, ..c },
            2 => Clken0 { timer2: on, ..c },
            3 => Clken0 { timer3: on, ..c },
            4 => Clken0 { timer4: on, ..c },
            _ => c,
        }
    }

    /// Enable a timer clock by index (indices above 4 change nothing).
    pub fn enable_timer(regs: &mut CmuRegs, index: u8)
        ensures
            *final(regs) == (CmuRegs { clken0: Self::timer_gate(old(regs).clken0, index, true), ..*old(regs) }),
    {
        regs.clken0 = Self::set_timer_gate(regs.clken0, index, true);
    }

    /// Disable a timer clock by index (indices above 4 change nothing).
    pub fn disable_timer(regs: &mut CmuRegs, index: u8)
        ensures
            *final(regs) == (CmuRegs { clken0: Self::timer_gate(old(regs).clken0, index, false), ..*old(regs) }),
    {
        regs.clken0 = Self::set_timer_gate(regs.clken0, index, false);
    }

    /// Enable the I2C0 clock.
    pub fn enable_i2c0(regs: &mut CmuRegs)
        ensures
            *final(regs) == (CmuRegs { clken0: (Clken0 { i2c0: true, ..old(regs).clken0 }), ..*old(regs) }),
    {
        regs.clken0 = Clken0 { i2c0: true, ..regs.clken0 };
    }

    /// Enable the I2C1 clock.
    pub fn enable_i2c1(regs: &mut CmuRegs)
        ensures
            *final(regs) == (CmuRegs { clken0: (Clken0 { i2c1: true, ..old(regs).clken0 }), ..*old(regs) }),
    {
        regs.clken0 = Clken0 { i2c1: true, ..regs.clken0 };
    }

    /// Enable the USART0 clock.
    pub fn enable_usart0(regs: &mut CmuRegs)
        ensures
            *final(regs) == (CmuRegs { clken0: (Clken0 { usart0: true, ..old(regs).clken0 }), ..*old(regs) }),
    {
        regs.clken0 = Clken0 { usart0: true, ..regs.clken0 };
    }

    /// Enable the EUSART0 clock.
    pub fn enable_eusart0(regs: &mut CmuRegs)
        ensures
            *final(regs) == (CmuRegs { clken1: (Clken1 { eusart0: true, ..old(regs).clken1 }), ..*old(regs) }),
    {
        regs.clken1 = Clken1 { eusart0: true, ..regs.clken1 };
    }

    /// Enable the EUSART1 clock.
    pub fn enable_eusart1(regs: &mut CmuRegs)
        ensures
            *final(regs) == (CmuRegs { clken1: (Clken1 { eusart1: true, ..old(regs).clken1 }), ..*old(regs) }),
    {
        regs.clken1 = Clken1 { eusart1: true, ..regs.clken1 };
    }

    /// Enable the LDMA clock.
    pub fn enable_ldma(regs: &mut CmuRegs)
        ensures
            *final(regs) == (CmuRegs { clken0: (Clken0 { ldma: true, ..old(regs).clken0 }), ..*old(regs) }),
    {
        regs.clken0 = Clken0 { ldma: true, ..regs.clken0 };
    }

    /// Disable the LDMA clock.
    pub fn disable_ldma(regs: &mut CmuRegs)
        ensures
            *final(regs) == (CmuRegs { clken0: (Clken0 { ldma: false, ..old(regs).clken0 }), ..*old(regs) }),
    {
        regs.clken0 = Clken0 { ldma: false, ..regs.clken0 };
    }

    /// Enable the GPCRC clock.
    pub fn enable_gpcrc(regs: &mut CmuRegs)
        ensures
            *final(regs) == (CmuRegs { clken0: (Clken0 { gpcrc: true, ..old(regs).clken0 }), ..*old(regs) }),
    {
        regs.clken0 = Clken0 { gpcrc: true, ..regs.clken0 };
    }

    /// Disable the GPCRC clock.
    pub fn disable_gpcrc(regs: &mut CmuRegs)
        ensures
            *final(regs) == (CmuRegs { clken0: (Clken0 { gpcrc: false, ..old(regs).clken0 }), ..*old(regs) }),
    {
        regs.clken0 = Clken0 { gpcrc: false, ..regs.clken0 };
    }

    /// Enable the BURTC clock.
    pub fn enable_burtc(regs: &mut CmuRegs)
        ensures
            *final(regs) == (CmuRegs { clken0: (Clken0 { burtc: true, ..old(regs).clken0 }), ..*old(regs) }),
    {
        regs.clken0 = Clken0 { burtc: true, ..regs.clken0 };
    }

    /// Disable the BURTC clock.
    pub fn disable_burtc(regs: &mut CmuRegs)
        ensures
            *final(regs) == (CmuRegs { clken0: (Clken0 { burtc: false, ..old(regs).clken0 }), ..*old(regs) }),
    {
        regs.clken0 = Clken0 { burtc: false, ..regs.clken0 };
    }

    /// Enable the SYSRTC clock.
    pub fn enable_sysrtc(regs: &mut CmuRegs)
        ensures
            *final(regs) == (CmuRegs { clken0: (Clken0 { sysrtc0: true, ..old(regs).clken0 }), ..*old(regs) }),
    {
        regs.clken0 = Clken0 { sysrtc0: true, ..regs.clken0 };
    }

    /// Disable the SYSRTC clock.
    pub fn disable_sysrtc(regs: &mut CmuRegs)
        ensures
            *final(regs) == (CmuRegs { clken0: (Clken0 { sysrtc0: false, ..old(regs).clken0 }), ..*old(regs) }),
    {
        regs.clken0 = Clken0 { sysrtc0: false, ..regs.clken0 };
    }

    /// Enable the LETIMER0 clock.
    pub fn enable_letimer0(regs: &mut CmuRegs)
        ensures
            *final(regs) == (CmuRegs { clken0: (Clken0 { letimer0: true, ..old(regs).clken0 }), ..*old(regs) }),
    {
        regs.clken0 = Clken0 { letimer0: true, ..regs.clken0 };
    }

    /// Disable the LETIMER0 clock.
    pub fn disable_letimer0(regs: &mut CmuRegs)
        ensures
            *final(regs) == (CmuRegs { clken0: (Clken0 { letimer0: false, ..old(regs).clken0 }), ..*old(regs) }),
    {
        regs.clken0 = Clken0 { letimer0: false, ..regs.clken0 };
    }

    /// Enable the DCDC clock.
    pub fn enable_dcdc(regs: &mut CmuRegs)
        ensures
            *final(regs) == (CmuRegs { clken0: (Clken0 { dcdc: true, ..old(regs).clken0 }), ..*old(regs) }),
    {
        regs.clken0 = Clken0 { dcdc: true, ..regs.clken0 };
    }

    /// Disable the DCDC clock.
    pub fn disable_dcdc(regs: &mut CmuRegs)
        ensures
            *final(regs) == (CmuRegs { clken0: (Clken0 { dcdc: false, ..old(regs).clken0 }), ..*old(regs) }),
    {
        regs.clken0 = Clken0 { dcdc: false, ..regs.clken0 };
    }

    /// Set the IADC clock source.
    pub fn set_iadc_clock_source(regs: &mut CmuRegs, sel: IadcClkSel)
        ensures
            *final(regs) == (CmuRegs { iadc_clksel: sel, ..*old(regs) }),
    {
        regs.iadc_clksel = sel;
    }

    /// Set the WDOG0 clock source.
    pub fn set_wdog0_clock_source(regs: &mut CmuRegs, sel: WdogClkSel)
        ensures
            *final(regs) == (CmuRegs { wdog0_clksel: sel, ..*old(regs) }),
    {
        regs.wdog0_clksel = sel;
    }

    /// Set the WDOG1 clock source.
    pub fn set_wdog1_clock_source(regs: &mut CmuRegs, sel: WdogClkSel)
        ensures
            *final(regs) == (CmuRegs { wdog1_clksel: sel, ..*old(regs) }),
    {
        regs.wdog1_clksel = sel;
    }

    /// Get the current SYSCLK frequency (approximate): the HFRCO default of 38 MHz.
    pub fn sysclk_frequency() -> (r: u32)
        ensures
            r == 38_000_000,
    {
        38_000_000
    }

    /// Get the HCLK frequency (approximate): SYSCLK undivided.
    pub fn hclk_frequency() -> (r: u32)
        ensures
            r == 38_000_000,
    {
        Self::sysclk_frequency()
    }

    /// Get the PCLK frequency (approximate): HCLK undivided.
    pub fn pclk_frequency() -> (r: u32)
        ensures
            r == 38_000_000,
    {
        Self::hclk_frequency()
    }
}

/// Clocks configuration structure: several clocks configured at once.
#[derive(Clone, Copy, Debug, PartialEq, Eq)]
pub struct ClocksConfig {
    /// Enable LFRCO
    pub lfrco: bool,
    /// Enable LFXO
    pub lfxo: bool,
    /// Enable ULFRCO
    pub ulfrco: bool,
    /// Enable HFRCOEM23
    pub hfrcoem23: bool,
    /// IADC clock source
    pub iadc_clk: Option<IadcClkSel>,
    /// WDOG0 clock source
    pub wdog0_clk: Option<WdogClkSel>,
    /// WDOG1 clock source
    pub wdog1_clk: Option<WdogClkSel>,
}

impl Default for ClocksConfig {
    /// Nothing enabled and no clock source changed.
    fn default() -> (r: Self)
        ensures
            r == (ClocksConfig {
                lfrco: false,
                lfxo: false,
                ulfrco: false,
                hfrcoem23: false,
                iadc_clk: None,
                wdog0_clk: None,
                wdog1_clk: None,
            }),
    {
        ClocksConfig {
            lfrco: false,
            lfxo: false,
            ulfrco: false,
            hfrcoem23: false,
            iadc_clk: None,
            wdog0_clk: None,
            wdog1_clk: None,
        }
    }
}

impl ClocksConfig {
    /// Create a new clocks configuration with defaults.
    pub fn new() -> (r: Self)
        ensures
            r == (ClocksConfig {
                lfrco: false,
                lfxo: false,
                ulfrco: false,
                hfrcoem23: false,
                iadc_clk: None,
                wdog0_clk: None,
                wdog1_clk: None,
            }),
    {
        Self::default()
    }

    /// Set whether LFRCO is enabled.
    pub fn with_lfrco(self, enable: bool) -> (r: Self)
        ensures
            r == (ClocksConfig { lfrco: enable, ..self }),
    {
        let mut s = self;
        s.lfrco = enable;
        s
    }

    /// Set whether LFXO is enabled.
    pub fn with_lfxo(self, enable: bool) -> (r: Self)
        ensures
            r == (ClocksConfig { lfxo: enable, ..self }),
    {
        let mut s = self;
        s.lfxo = enable;
        s
    }

    /// Set whether ULFRCO is enabled.
    pub fn with_ulfrco(self, enable: bool) -> (r: Self)
        ensures
            r == (ClocksConfig { ulfrco: enable, ..self }),
    {
        let mut s = self;
        s.ulfrco = enable;
        s
    }

    /// Set whether HFRCOEM23 is enabled.
    pub fn with_hfrcoem23(self, enable: bool) -> (r: Self)
        ensures
            r == (ClocksConfig { hfrcoem23: enable, ..self }),
    {
        let mut s = self;
        s.hfrcoem23 = enable;
        s
    }

    /// Set the IADC clock source.
    pub fn with_iadc_clock(self, sel: IadcClkSel) -> (r: Self)
        ensures
            r == (ClocksConfig { iadc_clk: Some(sel), ..self }),
    {
        let mut s = self;
        s.iadc_clk = Some(sel);
        s
    }

    /// Set the WDOG0 clock source.
    pub fn with_wdog0_clock(self, sel: WdogClkSel) -> (r: Self)
        ensures
            r == (ClocksConfig { wdog0_clk: Some(sel), ..self }),
    {
        let mut s = self;
        s.wdog0_clk = Some(sel);
        s
    }

    /// Set the WDOG1 clock source.
    pub fn with_wdog1_clock(self, sel: WdogClkSel) -> (r: Self)
        ensures
            r == (ClocksConfig { wdog1_clk: Some(sel), ..self }),
    {
        let mut s = self;
        s.wdog1_clk = Some(sel);
        s
    }

    /// Apply this configuration: enable the oscillators asked for (none is disabled)
    /// and set the clock sources that are given.
    pub fn apply(&self, regs: &mut CmuRegs)
        ensures
            *final(regs) == (CmuRegs {
                clken0: (Clken0 {
                    lfrco: old(regs).clken0.lfrco || self.lfrco,
                    lfxo: old(regs).clken0.lfxo || self.lfxo,
                    ulfrco: old(regs).clken0.ulfrco || self.ulfrco,
                    hfrcoem23: old(regs).clken0.hfrcoem23 || self.hfrcoem23,
                    ..old(regs).clken0
                }),
                iadc_clksel: match self.iadc_clk {
                    Some(sel) => sel,
                    None => old(regs).iadc_clksel,
                },
                wdog0_clksel: match self.wdog0_clk {
                    Some(sel) => sel,
                    None => old(regs).wdog0_clksel,
                },
                wdog1_clksel: match self.wdog1_clk {
                    Some(sel) => sel,
                    None => old(regs).wdog1_clksel,
                },
                ..*old(regs)
            }),
    {
        let c0 = regs.clken0;
        regs.clken0 = Clken0 {
            lfrco: c0.lfrco || self.lfrco,
            lfxo: c0.lfxo || self.lfxo,
            ulfrco: c0.ulfrco || self.ulfrco,
            hfrcoem23: c0.hfrcoem23 || self.hfrcoem23,
            ..c0
        };
        if let Some(sel) = self.iadc_clk {
            Cmu::set_iadc_clock_source(regs, sel);
        }
        if let Some(sel) = self.wdog0_clk {
            Cmu::set_wdog0_clock_source(regs, sel);
        }
        if let Some(sel) = self.wdog1_clk {
            Cmu::set_wdog1_clock_source(regs, sel);
        }
    }
}

/// The HFRCO bands in declaration order, from 1 MHz to 80 MHz.
pub open spec fn hfrco_band_order() -> Seq<HfrcoFreq> {
    seq![
        HfrcoFreq::Freq1MHz,
        HfrcoFreq::Freq2MHz,
        HfrcoFreq::Freq4MHz,
        HfrcoFreq::Freq7MHz,
        HfrcoFreq::Freq13MHz,
        HfrcoFreq::Freq16MHz,
        HfrcoFreq::Freq19MHz,
        HfrcoFreq::Freq26MHz,
        HfrcoFreq::Freq32MHz,
        HfrcoFreq::Freq38MHz,
        HfrcoFreq::Freq48MHz,
        HfrcoFreq::Freq56MHz,
        HfrcoFreq::Freq64MHz,
        HfrcoFreq::Freq80MHz,
    ]
}

/// Band `FreqNMHz` runs at N MHz: in declaration order the bands are 1, 2, 4, 7, 13,
/// 16, 19, 26, 32, 38, 48, 56, 64 and 80 MHz, each faster than the one before, so no
/// two bands share a frequency.
pub proof fn lemma_hfrco_band_frequencies(f: HfrcoFreq)
    ensures
        forall|k: int|
            0 <= k < 14 ==> ((#[trigger] hfrco_band_order()[k]).spec_frequency_hz() == 1_000_000 * seq![1u32, 2u32, 4u32, 7u32, 13u32, 16u32, 19u32, 26u32, 32u32, 38u32, 48u32, 56u32, 64u32, 80u32][k])
                && (forall|j: int| 0 <= j < k ==> hfrco_band_order()[j].spec_frequency_hz() < hfrco_band_order()[k].spec_frequency_hz()),
        hfrco_band_order().contains(f),
        forall|q: HfrcoFreq| #[trigger] q.spec_frequency_hz() == f.spec_frequency_hz() ==> q == f,
{
    let o = hfrco_band_order();
    assert forall|k: int| 0 <= k < 14 implies (o[k].spec_frequency_hz() == 1_000_000 * seq![1u32, 2u32, 4u32, 7u32, 13u32, 16u32, 19u32, 26u32, 32u32, 38u32, 48u32, 56u32, 64u32, 80u32][k])
        && (forall|j: int| 0 <= j < k ==> hfrco_band_order()[j].spec_frequency_hz() < o[k].spec_frequency_hz()) by {
        if k == 0 {
            assert(o[0] == HfrcoFreq::Freq1MHz);
        } else if k == 1 {
            assert(o[1] == HfrcoFreq::Freq2MHz);
        } else if k == 2 {
            assert(o[2] == HfrcoFreq::Freq4MHz);
        } else if k == 3 {
            assert(o[3] == HfrcoFreq::Freq7MHz);
        } else if k == 4 {
            assert(o[4] == HfrcoFreq::Freq13MHz);
        } else if k == 5 {
            assert(o[5] == HfrcoFreq::Freq16MHz);
        } else if k == 6 {
            assert(o[6] == HfrcoFreq::Freq19MHz);
        } else if k == 7 {
            assert(o[7] == HfrcoFreq::Freq26MHz);
        } else if k == 8 {
            assert(o[8] == HfrcoFreq::Freq32MHz);
        } else if k == 9 {
            assert(o[9] == HfrcoFreq::Freq38MHz);
        } else if k == 10 {
            assert(o[10] == HfrcoFreq::Freq48MHz);
        } else if k == 11 {
            assert(o[11] == HfrcoFreq::Freq56MHz);
        } else if k == 12 {
            assert(o[12] == HfrcoFreq::Freq64MHz);
        } else if k == 13 {
            assert(o[13] == HfrcoFreq::Freq80MHz);
        }
    }
    match f {
        HfrcoFreq::Freq1MHz => assert(o[0] == f),
        HfrcoFreq::Freq2MHz => assert(o[1] == f),
        HfrcoFreq::Freq4MHz => assert(o[2] == f),
        HfrcoFreq::Freq7MHz => assert(o[3] == f),
        HfrcoFreq::Freq13MHz => assert(o[4] == f),
        HfrcoFreq::Freq16MHz => assert(o[5] == f),
        HfrcoFreq::Freq19MHz => assert(o[6] == f),
        HfrcoFreq::Freq26MHz => assert(o[7] == f),
        HfrcoFreq::Freq32MHz => assert(o[8] == f),
        HfrcoFreq::Freq38MHz => assert(o[9] == f),
        HfrcoFreq::Freq48MHz => assert(o[10] == f),
        HfrcoFreq::Freq56MHz => assert(o[11] == f),
        HfrcoFreq::Freq64MHz => assert(o[12] == f),
        HfrcoFreq::Freq80MHz => assert(o[13] == f),
    }
}

/// The watchdog clock sources in declaration order.
pub open spec fn wdog_clock_order() -> Seq<WdogClkSel> {
    seq![
        WdogClkSel::Lfrco,
        WdogClkSel::Lfxo,
        WdogClkSel::Ulfrco,
        WdogClkSel::HclkDiv1024,
    ]
}

/// Each watchdog clock runs at its documented rate: in declaration order LFRCO and
/// LFXO at 32768 Hz, ULFRCO at 1 kHz, and HCLK / 1024 at the 38 MHz HCLK divided by
/// 1024.
pub proof fn lemma_wdog_clock_frequencies(c: WdogClkSel)
    ensures
        forall|k: int|
            0 <= k < 4 ==> ((#[trigger] wdog_clock_order()[k]).spec_frequency_hz() == seq![32_768u32, 32_768u32, 1_000u32, (38_000_000u32 / 1024u32) as u32][k]),
        wdog_clock_order().contains(c),
{
    let o = wdog_clock_order();
    assert forall|k: int| 0 <= k < 4 implies (o[k].spec_frequency_hz() == seq![32_768u32, 32_768u32, 1_000u32, (38_000_000u32 / 1024u32) as u32][k]) by {
        if k == 0 {
            assert(o[0] == WdogClkSel::Lfrco);
        } else if k == 1 {
            assert(o[1] == WdogClkSel::Lfxo);
        } else if k == 2 {
            assert(o[2] == WdogClkSel::Ulfrco);
        } else if k == 3 {
            assert(o[3] == WdogClkSel::HclkDiv1024);
        }
    }
    match c {
        WdogClkSel::Lfrco => assert(o[0] == c),
        WdogClkSel::Lfxo => assert(o[1] == c),
        WdogClkSel::Ulfrco => assert(o[2] == c),
        WdogClkSel::HclkDiv1024 => assert(o[3] == c),
    }
}

} // verus!
