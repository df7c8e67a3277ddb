//! Incremental Analog to Digital Converter (IADC) logic.
//!
//! Configuration is expressed over [`IadcRegs`]. A conversion result is read from
//! the single FIFO by `sample`, which the caller implements (it waits for
//! SINGLEFIFODV and reads SINGLEFIFODATA).
use core::marker::PhantomData;

use vstd::prelude::*;

use crate::cmu::{Clken0, CmuRegs};
use crate::gpio::AnyPin;
use crate::peripherals::IADC0;

verus! {

/// Default source clock (20 MHz), used when the configuration gives 0.
pub const DEFAULT_SRC_CLK_FREQ: u32 = 20_000_000;

/// IADC voltage reference selection.
#[derive(Clone, Copy, Debug, PartialEq, Eq)]
pub enum Reference {
    /// Internal 1.2V bandgap reference (buffered) to ground.
    Internal1V2,
    /// External reference (unbuffered) VREFP to VREFN.
    External1V25,
    /// VDDX (unbuffered) to ground.
    Vddx,
    /// 0.8 * VDDX (buffered) to ground.
    Vddx0P8Buf,
}

impl Reference {
    /// The reference voltage in millivolts.
    pub open spec fn spec_voltage_mv(self) -> u32 {
        match self {
            Reference::Internal1V2 => 1210,
            Reference::External1V25 => 1250,
            Reference::Vddx => 3300,
            Reference::Vddx0P8Buf => 2640,
        }
    }

    /// Get the reference voltage in millivolts.
    pub fn voltage_mv(&self) -> (r: u32)
        ensures
            r == self.spec_voltage_mv(),
    {
        match self {
            Reference::Internal1V2 => 1210,
            Reference::External1V25 => 1250,
            Reference::Vddx => 3300,
            Reference::Vddx0P8Buf => 2640,
        }
    }
}

impl Default for Reference {
    /// The internal 1.2 V bandgap.
    fn default() -> (r: Self)
        ensures
            r == Reference::Internal1V2,
    {
        Reference::Internal1V2
    }
}

/// IADC oversampling ratio for high-speed mode.
#[derive(Clone, Copy, Debug, PartialEq, Eq)]
pub enum Oversampling {
    /// 2x oversampling
    Osr2,
    /// 4x oversampling
    Osr4,
    /// 8x oversampling
    Osr8,
    /// 16x oversampling
    Osr16,
    /// 32x oversampling
    Osr32,
    /// 64x oversampling
    Osr64,
}

impl Default for Oversampling {
    /// 2x.
    fn default() -> (r: Self)
        ensures
            r == Oversampling::Osr2,
    {
        Oversampling::Osr2
    }
}

/// IADC analog gain.
#[derive(Clone, Copy, Debug, PartialEq, Eq)]
pub enum Gain {
    /// 0.5x analog gain
    Gain0P5,
    /// 1x analog gain
    Gain1,
    /// 2x analog gain
    Gain2,
    /// 3x analog gain
    Gain3,
    /// 4x analog gain
    Gain4,
}

impl Default for Gain {
    /// 1x.
    fn default() -> (r: Self)
        ensures
            r == Gain::Gain1,
    {
        Gain::Gain1
    }
}

/// IADC result alignment.
#[derive(Clone, Copy, Debug, PartialEq, Eq)]
pub enum Alignment {
    /// 12-bit right aligned
    Right12,
    /// 12-bit left aligned
    Left12,
}

impl Default for Alignment {
    /// Right aligned.
    fn default() -> (r: Self)
        ensures
            r == Alignment::Right12,
    {
        Alignment::Right12
    }
}

/// IADC configuration.
#[derive(Clone, Copy, Debug, PartialEq, Eq)]
pub struct Config {
    /// Voltage reference selection.
    pub reference: Reference,
    /// Oversampling ratio.
    pub oversampling: Oversampling,
    /// Analog gain.
    pub gain: Gain,
    /// Result alignment.
    pub alignment: Alignment,
    /// Source clock frequency in Hz; 0 selects the default (20 MHz).
    pub src_clk_freq: u32,
}

impl Default for Config {
    /// Internal reference, 2x oversampling, unity gain, right aligned, default clock.
    fn default() -> (r: Self)
        ensures
            r == (Config {
                reference: Reference::Internal1V2,
                oversampling: Oversampling::Osr2,
                gain: Gain::Gain1,
                alignment: Alignment::Right12,
                src_clk_freq: 0,
            }),
    {
        Config {
            reference: Reference::Internal1V2,
            oversampling: Oversampling::Osr2,
            gain: Gain::Gain1,
            alignment: Alignment::Right12,
            src_clk_freq: 0,
        }
    }
}

/// IADC positive input selection.
#[derive(Clone, Copy, Debug, PartialEq, Eq)]
pub enum PosInput {
    /// Ground
    Gnd,
    /// AVDD / 4
    Avdd,
    /// DVDD / 4
    Dvdd,
    /// VSS
    Vss,
    /// Decouple capacitor
    Decouple,
    /// GPIO pin (port, pin)
    Pin(u8, u8),
}

/// The raw input selector of a GPIO pin: the port bus (4 plus the port) in the upper
/// bits, the pin in the lower four.
pub open spec fn spec_pin_raw(port: u8, pin: u8) -> u16 {
    (((4 + port) as u16) << 4u16) | (pin as u16)
}

/// A GPIO input selector can be formed: the port bus number fits in a byte.
pub open spec fn input_ok(port: u8) -> bool {
    port <= 251
}

fn pin_raw(port: u8, pin: u8) -> (r: u16)
    requires
        input_ok(port),
    ensures
        r == spec_pin_raw(port, pin),
{
    (((4 + port) as u16) << 4) | (pin as u16)
}

impl PosInput {
    /// The raw selector: port in the upper bits, pin in the lower four.
    pub open spec fn spec_raw(self) -> u16 {
        match self {
            PosInput::Gnd => 0x00,
            PosInput::Avdd => 0x10,
            PosInput::Dvdd => 0x14,
            PosInput::Vss => 0x12,
            PosInput::Decouple => 0x17,
            PosInput::Pin(port, pin) => spec_pin_raw(port, pin),
        }
    }

    /// Whether the selector can be formed.
    pub open spec fn wf(self) -> bool {
        match self {
            PosInput::Pin(port, _) => input_ok(port),
            _ => true,
        }
    }

    /// Create a positive input from a GPIO pin.
    pub fn from_pin(pin: AnyPin) -> (r: Self)
        ensures
            r == PosInput::Pin(pin.pin_port / 16, pin.pin_port % 16),
    {
        PosInput::Pin(pin.pin_port / 16, pin.pin_port % 16)
    }

    /// The raw selector.
    pub fn to_raw(self) -> (r: u16)
        requires
            self.wf(),
        ensures
            r == self.spec_raw(),
    {
        match self {
            PosInput::Gnd => 0x00,
            PosInput::Avdd => 0x10,
            PosInput::Dvdd => 0x14,
            PosInput::Vss => 0x12,
            PosInput::Decouple => 0x17,
            PosInput::Pin(port, pin) => pin_raw(port, pin),
        }
    }
}

/// IADC negative input selection.
#[derive(Clone, Copy, Debug, PartialEq, Eq)]
pub enum NegInput {
    /// Ground (default for single-ended)
    Gnd,
    /// GPIO pin (port, pin) for differential
    Pin(u8, u8),
}

impl Default for NegInput {
    /// Ground.
    fn default() -> (r: Self)
        ensures
            r == NegInput::Gnd,
    {
        NegInput::Gnd
    }
}

impl NegInput {
    /// The raw selector: ground on the odd mux, or a GPIO pin.
    pub open spec fn spec_raw(self) -> u16 {
        match self {
            NegInput::Gnd => 0x01,
            NegInput::Pin(port, pin) => spec_pin_raw(port, pin),
        }
    }

    /// Whether the selector can be formed.
    pub open spec fn wf(self) -> bool {
        match self {
            NegInput::Pin(port, _) => input_ok(port),
            _ => true,
        }
    }

    /// Create a negative input from a GPIO pin (for differential measurement).
    pub fn from_pin(pin: AnyPin) -> (r: Self)
        ensures
            r == NegInput::Pin(pin.pin_port / 16, pin.pin_port % 16),
    {
        NegInput::Pin(pin.pin_port / 16, pin.pin_port % 16)
    }

    /// The raw selector.
    pub fn to_raw(self) -> (r: u16)
        requires
            self.wf(),
        ensures
            r == self.spec_raw(),
    {
        match self {
            NegInput::Gnd => 0x01,
            NegInput::Pin(port, pin) => pin_raw(port, pin),
        }
    }
}

/// A pin selector splits back into its port bus and pin.
pub proof fn lemma_pin_raw_fields(port: u8, pin: u8)
    requires
        input_ok(port),
        pin < 16,
    ensures
        spec_pin_raw(port, pin) >> 4u16 == 4 + port,
        spec_pin_raw(port, pin) & 0x0F == pin,
{
    let p: u16 = (4 + port) as u16;
    assert(p <= 255);
    assert(((p << 4u16) | (pin as u16)) >> 4u16 == p && ((p << 4u16) | (pin as u16)) & 0x0F == pin as u16)
        by (bit_vector)
        requires
            p <= 255,
            pin < 16,
    ;
}

/// IADC input configuration (positive and negative inputs).
#[derive(Clone, Copy, Debug, PartialEq, Eq)]
pub struct Input {
    /// Positive input
    pub pos: PosInput,
    /// Negative input (Ground for single-ended)
    pub neg: NegInput,
}

impl Input {
    /// A single-ended input from a GPIO pin (referenced to ground).
    pub fn single_ended(pin: AnyPin) -> (r: Self)
        ensures
            r == (Input { pos: PosInput::Pin(pin.pin_port / 16, pin.pin_port % 16), neg: NegInput::Gnd }),
    {
        Input { pos: PosInput::from_pin(pin), neg: NegInput::Gnd }
    }

    /// A differential input from two GPIO pins.
    pub fn differential(pos: AnyPin, neg: AnyPin) -> (r: Self)
        ensures
            r == (Input {
                pos: PosInput::Pin(pos.pin_port / 16, pos.pin_port % 16),
                neg: NegInput::Pin(neg.pin_port / 16, neg.pin_port % 16),
            }),
    {
        Input { pos: PosInput::from_pin(pos), neg: NegInput::from_pin(neg) }
    }

    /// An input measuring AVDD/4.
    pub fn avdd() -> (r: Self)
        ensures
            r == (Input { pos: PosInput::Avdd, neg: NegInput::Gnd }),
    {
        Input { pos: PosInput::Avdd, neg: NegInput::Gnd }
    }

    /// An input measuring DVDD/4.
    pub fn dvdd() -> (r: Self)
        ensures
            r == (Input { pos: PosInput::Dvdd, neg: NegInput::Gnd }),
    {
        Input { pos: PosInput::Dvdd, neg: NegInput::Gnd }
    }

    /// Whether both selectors can be formed.
    pub open spec fn wf(self) -> bool {
        self.pos.wf() && self.neg.wf()
    }
}

/// IADC error types.
#[derive(Debug, Clone, Copy, PartialEq, Eq)]
pub enum Error {
    /// Conversion timeout
    Timeout,
    /// FIFO overflow or underflow
    FifoError,
}

/// The SINGLE register: the inputs of a single conversion (configuration 0).
#[derive(Clone, Copy, Debug, PartialEq, Eq)]
pub struct Single {
    /// SINGLE.PORTPOS
    pub portpos: u8,
    /// SINGLE.PINPOS
    pub pinpos: u8,
    /// SINGLE.PORTNEG
    pub portneg: u8,
    /// SINGLE.PINNEG
    pub pinneg: u8,
}

/// The IADC register fields used by the driver.
#[derive(Clone, Copy, Debug, PartialEq, Eq)]
pub struct IadcRegs {
    /// EN.EN
    pub en: bool,
    /// CTRL.TIMEBASE (warm-up mode normal).
    pub timebase: u8,
    /// CFG0.OSRHS (normal mode, automatic two's complement).
    pub osr: Oversampling,
    /// CFG0.ANALOGGAIN
    pub gain: Gain,
    /// CFG0.REFSEL
    pub refsel: Reference,
    /// SINGLEFIFOCFG.ALIGNMENT (no ID shown).
    pub alignment: Alignment,
    /// TRIGGER: single conversions start immediately, once.
    pub trigger_immediate_once: bool,
    /// SINGLE
    pub single: Single,
    /// IEN.SINGLEDONE
    pub ien_singledone: bool,
    /// CMD.SINGLESTART was written.
    pub single_started: bool,
}

/// The CTRL.TIMEBASE for a source clock: clock cycles per microsecond minus one,
/// at most 127.
pub open spec fn spec_timebase(src_clk_freq: u32) -> u8 {
    let t: int = src_clk_freq / 1_000_000 - 1;
    if t > 0x7F {
        0x7F
    } else {
        t as u8
    }
}

/// The source clock used for a configuration: the configured one, or 20 MHz for 0.
pub open spec fn spec_src_clk(config: Config) -> u32 {
    if config.src_clk_freq == 0 {
        DEFAULT_SRC_CLK_FREQ
    } else {
        config.src_clk_freq
    }
}

/// Compute the time base for a source clock.
pub fn timebase_for(src_clk_freq: u32) -> (r: u8)
    requires
        src_clk_freq >= 1_000_000,
    ensures
        r == spec_timebase(src_clk_freq),
{
    let t = src_clk_freq / 1_000_000 - 1;
    if t > 0x7F {
        0x7F
    } else {
        t as u8
    }
}

/// The registers after the driver is created.
pub open spec fn spec_configured(regs: IadcRegs, config: Config) -> IadcRegs {
    IadcRegs {
        en: true,
        timebase: spec_timebase(spec_src_clk(config)),
        osr: config.oversampling,
        gain: config.gain,
        refsel: config.reference,
        alignment: config.alignment,
        trigger_immediate_once: true,
        ..regs
    }
}

/// The SINGLE register for an input: each raw selector split into port and pin.
pub open spec fn spec_single(input: Input) -> Single {
    let p = input.pos.spec_raw();
    let n = input.neg.spec_raw();
    Single {
        portpos: (p >> 4u16) as u8,
        pinpos: (p & 0x0F) as u8,
        portneg: (n >> 4u16) as u8,
        pinneg: (n & 0x0F) as u8,
    }
}

/// The millivolts of a 12-bit sample: `sample * vref_mv / 4095`.
pub open spec fn spec_sample_to_mv(reference: Reference, sample: u16) -> u32 {
    ((sample as int * reference.spec_voltage_mv()) / 4095) as u32
}

/// IADC peripheral instance trait.
pub trait Instance {
}

impl Instance for IADC0 {
}

/// Interrupt handler for IADC (see [`on_interrupt`]).
pub struct InterruptHandler<T: Instance> {
    /// The instance handled.
    pub instance: PhantomData<T>,
}

/// What the IADC interrupt does: every interrupt source is disabled (the task is
/// then woken).
pub fn on_interrupt(regs: &mut IadcRegs)
    ensures
        *final(regs) == (IadcRegs { ien_singledone: false, ..*old(regs) }),
{
    regs.ien_singledone = false;
}

/// One poll of an asynchronous conversion: ready when SINGLEFIFODV is set, otherwise
/// the single-done interrupt is enabled.
pub fn poll_conversion(regs: &mut IadcRegs, fifo_valid: bool) -> (ready: bool)
    ensures
        ready == fifo_valid,
        ready ==> *final(regs) == *old(regs),
        !ready ==> *final(regs) == (IadcRegs { ien_singledone: true, ..*old(regs) }),
{
    if fifo_valid {
        true
    } else {
        regs.ien_singledone = true;
        false
    }
}

/// IADC driver for analog to digital conversion.
pub struct Iadc<T: Instance> {
    /// The instance driven.
    pub instance: PhantomData<T>,
    /// Driver configuration.
    pub config: Config,
}

impl<T: Instance> Iadc<T> {
    /// Create a new IADC driver: clock on, disabled, time base, configuration 0,
    /// single FIFO and immediate trigger configured, enabled.
    pub fn new(_iadc: T, config: Config, cmu: &mut CmuRegs, regs: &mut IadcRegs) -> (r: Self)
        requires
            config.src_clk_freq == 0 || config.src_clk_freq >= 1_000_000,
        ensures
            r.config == config,
            *final(cmu) == (CmuRegs { clken0: Clken0 { iadc0: true, ..old(cmu).clken0 }, ..*old(cmu) }),
            *final(regs) == spec_configured(*old(regs), config),
    {
        cmu.clken0 = Clken0 { iadc0: true, ..cmu.clken0 };
        regs.en = false;
        let src = if config.src_clk_freq == 0 {
            DEFAULT_SRC_CLK_FREQ
        } else {
            config.src_clk_freq
        };
        let tb = timebase_for(src);
        *regs = IadcRegs {
            timebase: tb,
            osr: config.oversampling,
            gain: config.gain,
            refsel: config.reference,
            alignment: config.alignment,
            trigger_immediate_once: true,
            en: true,
            ..*regs
        };
        Iadc { instance: PhantomData, config }
    }

    /// Select the inputs of the next single conversion.
    pub fn configure_single_input(&self, input: Input, regs: &mut IadcRegs)
        requires
            input.wf(),
        ensures
            *final(regs) == (IadcRegs { single: spec_single(input), ..*old(regs) }),
    {
        let pos_raw = input.pos.to_raw();
        let neg_raw = input.neg.to_raw();
        regs.single = Single {
            portpos: (pos_raw >> 4) as u8,
            pinpos: (pos_raw & 0x0F) as u8,
            portneg: (neg_raw >> 4) as u8,
            pinneg: (neg_raw & 0x0F) as u8,
        };
    }

    /// One conversion: the input is selected, the conversion started, and the
    /// result taken from `sample`.
    pub fn blocking_read<F: Fn() -> u16>(&mut self, input: Input, regs: &mut IadcRegs, sample: F) -> (r: u16)
        requires
            input.wf(),
            call_requires(sample, ()),
        ensures
            *final(self) == *old(self),
            *final(regs) == (IadcRegs { single: spec_single(input), single_started: true, ..*old(regs) }),
            call_ensures(sample, (), r),
    {
        self.configure_single_input(input, regs);
        regs.single_started = true;
        sample()
    }

    /// One conversion per buffer position: the input is selected and a conversion
    /// started for each, and `sample(i)` gives the result of conversion `i`.
    pub fn blocking_read_many<F: Fn(usize) -> u16>(&mut self, input: Input, buf: &mut [u16], regs: &mut IadcRegs, sample: F)
        requires
            input.wf(),
            forall|i: usize| call_requires(sample, (i,)),
        ensures
            *final(self) == *old(self),
            final(buf)@.len() == old(buf)@.len(),
            forall|i: int| 0 <= i < final(buf)@.len() ==> call_ensures(sample, (i as usize,), #[trigger] final(buf)@[i]),
            old(buf)@.len() > 0 ==> *final(regs) == (IadcRegs { single: spec_single(input), single_started: true, ..*old(regs) }),
            old(buf)@.len() == 0 ==> *final(regs) == *old(regs),
    {
        let ghost len = buf@.len();
        let ghost r0 = *regs;
        let mut i: usize = 0;
        while i < buf.len()
            invariant
                input.wf(),
                forall|i: usize| call_requires(sample, (i,)),
                buf@.len() == len,
                i <= len,
                len == old(buf)@.len(),
                r0 == *old(regs),
                *self == *old(self),
                i == 0 ==> *regs == r0,
                i > 0 ==> *regs == (IadcRegs { single: spec_single(input), single_started: true, ..r0 }),
                forall|k: int| 0 <= k < i ==> call_ensures(sample, (k as usize,), #[trigger] buf@[k]),
            decreases buf.len() - i,
        {
            self.configure_single_input(input, regs);
            regs.single_started = true;
            let v = sample(i);
            buf[i] = v;
            i = i + 1;
        }
    }

    /// Convert a raw 12-bit sample to millivolts with the configured reference.
    pub fn sample_to_mv(&self, sample: u16) -> (r: u32)
        ensures
            r == spec_sample_to_mv(self.config.reference, sample),
    {
        let vref_mv = self.config.reference.voltage_mv();
        (sample as u32 * vref_mv) / 4095
    }

    /// The resolution in bits.
    pub fn resolution(&self) -> (r: u8)
        ensures
            r == 12,
    {
        12
    }

    /// Tear the driver down: the IADC is disabled.
    pub fn release(self, regs: &mut IadcRegs)
        ensures
            *final(regs) == (IadcRegs { en: false, ..*old(regs) }),
    {
        regs.en = false;
    }
}

/// A full-scale sample gives at most the reference voltage, and more counts never
/// give fewer millivolts.
pub proof fn lemma_sample_to_mv_monotonic(reference: Reference, a: u16, b: u16)
    requires
        a <= b,
    ensures
        spec_sample_to_mv(reference, a) <= spec_sample_to_mv(reference, b),
        b <= 4095 ==> spec_sample_to_mv(reference, b) <= reference.spec_voltage_mv(),
{
    let v = reference.spec_voltage_mv() as int;
    assert(a * v <= b * v) by (nonlinear_arith)
        requires
            a <= b,
            v >= 0,
    ;
    assert((a * v) / 4095 <= (b * v) / 4095) by (nonlinear_arith)
        requires
            a * v <= b * v,
            a * v >= 0,
    ;
    assert(b * v <= 65535 * 3300) by (nonlinear_arith)
        requires
            b <= 65535,
            0 <= v <= 3300,
    ;
    if b <= 4095 {
        assert((b * v) / 4095 <= v) by (nonlinear_arith)
            requires
                b <= 4095,
                v >= 0,
        ;
    }
}

/// The references in declaration order.
pub open spec fn reference_order() -> Seq<Reference> {
    seq![
        Reference::Internal1V2,
        Reference::External1V25,
        Reference::Vddx,
        Reference::Vddx0P8Buf,
    ]
}

/// Each reference has its documented voltage: in declaration order 1210 mV for the
/// internal 1.2 V bandgap, 1250 mV for the external 1.25 V reference, 3300 mV for VDDX
/// and four fifths of that for the buffered 0.8 * VDDX; no two references share a
/// voltage, and a full-scale sample converts to the reference voltage itself.
pub proof fn lemma_reference_voltages(r: Reference)
    ensures
        forall|k: int|
            0 <= k < 4 ==> ((#[trigger] reference_order()[k]).spec_voltage_mv() == seq![1210u32, 1250u32, 3300u32, 2640u32][k]),
        reference_order().contains(r),
        forall|q: Reference| #[trigger] q.spec_voltage_mv() == r.spec_voltage_mv() ==> q == r,
        5 * Reference::Vddx0P8Buf.spec_voltage_mv() == 4 * Reference::Vddx.spec_voltage_mv(),
        spec_sample_to_mv(r, 4095) == r.spec_voltage_mv(),
{
    let o = reference_order();
    assert forall|k: int| 0 <= k < 4 implies (o[k].spec_voltage_mv() == seq![1210u32, 1250u32, 3300u32, 2640u32][k]) by {
        if k == 0 {
            assert(o[0] == Reference::Internal1V2);
        } else if k == 1 {
            assert(o[1] == Reference::External1V25);
        } else if k == 2 {
            assert(o[2] == Reference::Vddx);
        } else if k == 3 {
            assert(o[3] == Reference::Vddx0P8Buf);
        }
    }
    match r {
        Reference::Internal1V2 => assert(o[0] == r),
        Reference::External1V25 => assert(o[1] == r),
        Reference::Vddx => assert(o[2] == r),
        Reference::Vddx0P8Buf => assert(o[3] == r),
    }
    let v: int = r.spec_voltage_mv() as int;
    assert(4095 * v / 4095 == v) by (nonlinear_arith);
}

/// The fixed positive inputs in declaration order.
pub open spec fn fixed_input_order() -> Seq<PosInput> {
    seq![PosInput::Gnd, PosInput::Avdd, PosInput::Dvdd, PosInput::Vss, PosInput::Decouple]
}

/// Positive input selectors: in declaration order the fixed inputs are ground (0x00),
/// AVDD / 4 (0x10), DVDD / 4 (0x14), VSS (0x12) and the decoupling capacitor (0x17),
/// all below the GPIO selectors, which start at port bus 4 (0x40); no two inputs share a
/// selector.
pub proof fn lemma_pos_input_selectors(p: PosInput, q: PosInput)
    requires
        p.wf(),
        q.wf(),
        p matches PosInput::Pin(_, pin) ==> pin < 16,
        q matches PosInput::Pin(_, pin) ==> pin < 16,
    ensures
        forall|k: int|
            0 <= k < 5 ==> (#[trigger] fixed_input_order()[k]).spec_raw() == seq![0x00u16, 0x10u16, 0x14u16, 0x12u16, 0x17u16][k],
        p is Pin ==> p.spec_raw() >= 0x40,
        !(p is Pin) ==> fixed_input_order().contains(p) && p.spec_raw() < 0x20,
        p.spec_raw() == q.spec_raw() ==> p == q,
{
    let o = fixed_input_order();
    assert forall|k: int| 0 <= k < 5 implies o[k].spec_raw() == seq![0x00u16, 0x10u16, 0x14u16, 0x12u16, 0x17u16][k] by {
        if k == 0 {
            assert(o[0] == PosInput::Gnd);
        } else if k == 1 {
            assert(o[1] == PosInput::Avdd);
        } else if k == 2 {
            assert(o[2] == PosInput::Dvdd);
        } else if k == 3 {
            assert(o[3] == PosInput::Vss);
        } else if k == 4 {
            assert(o[4] == PosInput::Decouple);
        }
    }
    match p {
        PosInput::Gnd => assert(o[0] == p),
        PosInput::Avdd => assert(o[1] == p),
        PosInput::Dvdd => assert(o[2] == p),
        PosInput::Vss => assert(o[3] == p),
        PosInput::Decouple => assert(o[4] == p),
        PosInput::Pin(port, pin) => {
            lemma_pin_raw_fields(port, pin);
            let r = spec_pin_raw(port, pin);
            assert(r >= 0x40) by (bit_vector)
                requires r >> 4u16 >= 4;
        },
    }
    if let PosInput::Pin(port, pin) = q {
        lemma_pin_raw_fields(port, pin);
        let r = spec_pin_raw(port, pin);
        assert(r >= 0x40) by (bit_vector)
            requires r >> 4u16 >= 4;
    }
}

} // verus!
