//! Timer/Counter logic: PWM, input capture and free-running counters.
//!
//! Timer operations are expressed over [`TimerRegs`] (the register fields of one
//! TIMER instance that the drivers touch) and [`TimerRoutes`] (the GPIO routing
//! registers of the five timers). Register writes of whole registers reset the
//! fields they do not name to their reset values, as the hardware does.
use core::marker::PhantomData;

use vstd::array::spec_array_update;
use vstd::prelude::*;

use crate::cmu::{Clken0, Cmu, CmuRegs};
use crate::gpio::{route_of, spec_gpio_with_mode, spec_route, AnyPin, GpioRegs, PortMode, Route};
use crate::peripherals::{TIMER0, TIMER1, TIMER2, TIMER3, TIMER4};

verus! {

/// Timer prescaler values.
#[derive(Clone, Copy, Debug, PartialEq, Eq)]
pub enum Prescaler {
    /// Divide by 1
    Div1,
    /// Divide by 2
    Div2,
    /// Divide by 4
    Div4,
    /// Divide by 8
    Div8,
    /// Divide by 16
    Div16,
    /// Divide by 32
    Div32,
    /// Divide by 64
    Div64,
    /// Divide by 128
    Div128,
    /// Divide by 256
    Div256,
    /// Divide by 512
    Div512,
    /// Divide by 1024
    Div1024,
}

impl Prescaler {
    /// The PRESC field value (division factor minus one).
    pub open spec fn spec_bits(self) -> u16 {
        match self {
            Prescaler::Div1 => 0,
            Prescaler::Div2 => 1,
            Prescaler::Div4 => 3,
            Prescaler::Div8 => 7,
            Prescaler::Div16 => 15,
            Prescaler::Div32 => 31,
            Prescaler::Div64 => 63,
            Prescaler::Div128 => 127,
            Prescaler::Div256 => 255,
            Prescaler::Div512 => 511,
            Prescaler::Div1024 => 1023,
        }
    }

    /// The PRESC field value (division factor minus one).
    pub fn bits(self) -> (r: u16)
        ensures
            r == self.spec_bits(),
    {
        match self {
            Prescaler::Div1 => 0,
            Prescaler::Div2 => 1,
            Prescaler::Div4 => 3,
            Prescaler::Div8 => 7,
            Prescaler::Div16 => 15,
            Prescaler::Div32 => 31,
            Prescaler::Div64 => 63,
            Prescaler::Div128 => 127,
            Prescaler::Div256 => 255,
            Prescaler::Div512 => 511,
            Prescaler::Div1024 => 1023,
        }
    }

    /// The division factor of a prescaler.
    pub open spec fn spec_divisor(self) -> u32 {
        (self.spec_bits() + 1) as u32
    }

    /// Get the division factor for this prescaler.
    pub fn divisor(&self) -> (r: u32)
        ensures
            r == self.spec_divisor(),
            1 <= r <= 1024,
    {
        (self.bits() as u32) + 1
    }
}

impl Default for Prescaler {
    /// No division.
    fn default() -> (r: Self)
        ensures
            r == Prescaler::Div1,
    {
        Prescaler::Div1
    }
}

/// Timer counting mode.
#[derive(Clone, Copy, Debug, PartialEq, Eq)]
pub enum CountingMode {
    /// Count up from 0 to TOP.
    Up,
    /// Count down from TOP to 0.
    Down,
    /// Count up then down (center-aligned PWM).
    UpDown,
}

impl Default for CountingMode {
    /// Counting up.
    fn default() -> (r: Self)
        ensures
            r == CountingMode::Up,
    {
        CountingMode::Up
    }
}

/// Edge detection mode for input capture.
#[derive(Clone, Copy, Debug, PartialEq, Eq)]
pub enum Edge {
    /// Capture on rising edge.
    Rising,
    /// Capture on falling edge.
    Falling,
    /// Capture on both edges.
    Both,
    /// No edge detection.
    NoEdge,
}

impl Default for Edge {
    /// Rising edge.
    fn default() -> (r: Self)
        ensures
            r == Edge::Rising,
    {
        Edge::Rising
    }
}

/// Capture channel selection.
#[derive(Clone, Copy, Debug, PartialEq, Eq)]
pub enum Channel {
    /// Capture/Compare channel 0.
    Ch0,
    /// Capture/Compare channel 1.
    Ch1,
    /// Capture/Compare channel 2.
    Ch2,
}

impl Channel {
    /// The channel number.
    pub open spec fn spec_index(self) -> int {
        match self {
            Channel::Ch0 => 0,
            Channel::Ch1 => 1,
            Channel::Ch2 => 2,
        }
    }

    /// The channel number.
    pub fn index(self) -> (r: usize)
        ensures
            r == self.spec_index(),
    {
        match self {
            Channel::Ch0 => 0,
            Channel::Ch1 => 1,
            Channel::Ch2 => 2,
        }
    }
}

impl Default for Channel {
    /// Channel 0.
    fn default() -> (r: Self)
        ensures
            r == Channel::Ch0,
    {
        Channel::Ch0
    }
}

/// Timer configuration.
#[derive(Clone, Copy, Debug, PartialEq, Eq)]
pub struct Config {
    /// Timer prescaler.
    pub prescaler: Prescaler,
    /// Counting mode.
    pub mode: CountingMode,
    /// Reference clock frequency in Hz. Set to 0 to use default (20 MHz).
    pub ref_freq: u32,
}

impl Default for Config {
    /// No prescaling, counting up, default reference clock.
    fn default() -> (r: Self)
        ensures
            r == (Config { prescaler: Prescaler::Div1, mode: CountingMode::Up, ref_freq: 0 }),
    {
        Config { prescaler: Prescaler::Div1, mode: CountingMode::Up, ref_freq: 0 }
    }
}

/// Input capture configuration.
#[derive(Clone, Copy, Debug, PartialEq, Eq)]
pub struct CaptureConfig {
    /// Timer prescaler.
    pub prescaler: Prescaler,
    /// Edge to capture on.
    pub edge: Edge,
    /// Enable digital filter on input.
    pub filter: bool,
    /// Reference clock frequency in Hz. Set to 0 to use default (20 MHz).
    pub ref_freq: u32,
}

impl Default for CaptureConfig {
    /// No prescaling, rising edge, no filter, default reference clock.
    fn default() -> (r: Self)
        ensures
            r == (CaptureConfig { prescaler: Prescaler::Div1, edge: Edge::Rising, filter: false, ref_freq: 0 }),
    {
        CaptureConfig { prescaler: Prescaler::Div1, edge: Edge::Rising, filter: false, ref_freq: 0 }
    }
}

/// Default reference clock frequency (20 MHz) used when a configuration gives 0.
pub const DEFAULT_REF_FREQ: u32 = 20_000_000;

/// The reference frequency a configuration selects.
pub open spec fn spec_ref_freq(cfg_freq: u32) -> u32 {
    if cfg_freq == 0 {
        DEFAULT_REF_FREQ
    } else {
        cfg_freq
    }
}

fn ref_freq_of(cfg_freq: u32) -> (r: u32)
    ensures
        r == spec_ref_freq(cfg_freq),
{
    if cfg_freq == 0 {
        DEFAULT_REF_FREQ
    } else {
        cfg_freq
    }
}

/// Capture/compare channel mode (CCx_CFG.MODE).
#[derive(Clone, Copy, Debug, PartialEq, Eq)]
pub enum CcMode {
    /// Channel off.
    Off,
    /// Input capture.
    InputCapture,
    /// Output compare.
    OutputCompare,
    /// Pulse-width modulation.
    Pwm,
}

/// The registers of one capture/compare channel.
#[derive(Clone, Copy, Debug, PartialEq, Eq)]
pub struct CcChannel {
    /// CCx_CFG.MODE
    pub mode: CcMode,
    /// CCx_CFG.INSEL is PIN (the reset value).
    pub insel_pin: bool,
    /// CCx_CFG.FILT
    pub filt: bool,
    /// CCx_CTRL.OUTINV
    pub outinv: bool,
    /// CCx_CTRL.ICEDGE
    pub icedge: Edge,
    /// CCx_OCB (output compare buffer).
    pub ocb: u32,
    /// CCx_OC (output compare value).
    pub oc: u32,
    /// The input capture FIFO, oldest entry first (the oldest is what CCx_ICF reads).
    pub icf: [u32; 2],
    /// The number of entries held in the capture FIFO; STATUS.ICFEMPTYx is set when
    /// it is zero.
    pub icf_len: u8,
    /// IEN.CCx
    pub ien: bool,
}

/// The register fields of one TIMER instance used by the drivers.
#[derive(Clone, Copy, Debug, PartialEq, Eq)]
pub struct TimerRegs {
    /// EN.EN
    pub en: bool,
    /// CFG.PRESC
    pub presc: u16,
    /// CFG.MODE
    pub mode: CountingMode,
    /// CFG.OSMEN (one-shot mode)
    pub osmen: bool,
    /// The three capture/compare channels.
    pub cc: [CcChannel; 3],
    /// TOP
    pub top: u32,
    /// CNT
    pub cnt: u32,
    /// Whether the last CMD write held START.
    pub cmd_start: bool,
    /// Whether the last CMD write held STOP.
    pub cmd_stop: bool,
    /// STATUS.RUNNING
    pub running: bool,
}

/// The GPIO routing registers of one timer.
#[derive(Clone, Copy, Debug, PartialEq, Eq)]
pub struct TimerRoute {
    /// TIMERn_CCxROUTE
    pub cc_route: [Route; 3],
    /// TIMERn_ROUTEEN.CCxPEN
    pub ccpen: [bool; 3],
}

/// The GPIO routing registers of the five timers.
#[derive(Clone, Copy, Debug, PartialEq, Eq)]
pub struct TimerRoutes {
    /// Routing of TIMER0 to TIMER4.
    pub timers: [TimerRoute; 5],
}

/// A capture/compare channel after its CFG is written with PWM mode and its CTRL with
/// a non-inverted output.
pub open spec fn spec_pwm_channel(c: CcChannel) -> CcChannel {
    CcChannel { mode: CcMode::Pwm, insel_pin: true, filt: false, outinv: false, icedge: Edge::Rising, ..c }
}

/// A capture/compare channel configured for input capture from its pin.
pub open spec fn spec_capture_channel(c: CcChannel, config: CaptureConfig) -> CcChannel {
    CcChannel {
        mode: CcMode::InputCapture,
        insel_pin: true,
        filt: config.filter,
        outinv: false,
        icedge: config.edge,
        ien: true,
        ..c
    }
}

/// Timer peripheral instance trait.
pub trait Instance {
    /// The instance number.
    spec fn spec_index() -> u8;

    /// The instance number.
    fn index() -> (r: u8)
        ensures
            r == Self::spec_index(),
    ;
}

impl Instance for TIMER0 {
    open spec fn spec_index() -> u8 {
        0
    }

    fn index() -> (r: u8) {
        0
    }
}

impl Instance for TIMER1 {
    open spec fn spec_index() -> u8 {
        1
    }

    fn index() -> (r: u8) {
        1
    }
}

impl Instance for TIMER2 {
    open spec fn spec_index() -> u8 {
        2
    }

    fn index() -> (r: u8) {
        2
    }
}

impl Instance for TIMER3 {
    open spec fn spec_index() -> u8 {
        3
    }

    fn index() -> (r: u8) {
        3
    }
}

impl Instance for TIMER4 {
    open spec fn spec_index() -> u8 {
        4
    }

    fn index() -> (r: u8) {
        4
    }
}

/// Write the timer configuration register (other CFG fields return to reset).
fn write_cfg(regs: &mut TimerRegs, prescaler: Prescaler, mode: CountingMode)
    ensures
        *final(regs) == (TimerRegs { presc: prescaler.spec_bits(), mode: mode, osmen: false, ..*old(regs) }),
{
    regs.presc = prescaler.bits();
    regs.mode = mode;
    regs.osmen = false;
}

/// Write a START command.
fn cmd_start(regs: &mut TimerRegs)
    ensures
        *final(regs) == (TimerRegs { cmd_start: true, cmd_stop: false, ..*old(regs) }),
{
    regs.cmd_start = true;
    regs.cmd_stop = false;
}

/// Write a STOP command.
fn cmd_stop(regs: &mut TimerRegs)
    ensures
        *final(regs) == (TimerRegs { cmd_start: false, cmd_stop: true, ..*old(regs) }),
{
    regs.cmd_start = false;
    regs.cmd_stop = true;
}

fn set_cc(regs: &mut TimerRegs, ch: usize, c: CcChannel)
    requires
        ch < 3,
    ensures
        final(regs).cc@ == old(regs).cc@.update(ch as int, c),
        *final(regs) == (TimerRegs { cc: final(regs).cc, ..*old(regs) }),
{
    let mut cc = regs.cc;
    cc[ch] = c;
    regs.cc = cc;
}

/// The routing registers after a timer's channel `ch` is routed to `pin` and,
/// when `enable` holds, its pin output enabled (timer indices above 4 change nothing).
pub open spec fn spec_route_channel(routes: TimerRoutes, index: u8, ch: int, pin: AnyPin, enable: bool) -> TimerRoutes {
    if index < 5 {
        let t = routes.timers[index as int];
        TimerRoutes {
            timers: spec_array_update(
                routes.timers,
                index as int,
                TimerRoute {
                    cc_route: spec_array_update(t.cc_route, ch, spec_route(pin)),
                    ccpen: if enable { spec_array_update(t.ccpen, ch, true) } else { t.ccpen },
                },
            ),
        }
    } else {
        routes
    }
}

fn route_channel(routes: &mut TimerRoutes, index: u8, ch: usize, pin: AnyPin, enable: bool)
    requires
        ch < 3,
    ensures
        *final(routes) == spec_route_channel(*old(routes), index, ch as int, pin, enable),
{
    if index < 5 {
        let mut timers = routes.timers;
        let t = timers[index as usize];
        let mut cc_route = t.cc_route;
        cc_route[ch] = route_of(pin);
        let mut ccpen = t.ccpen;
        if enable {
            ccpen[ch] = true;
        }
        timers[index as usize] = TimerRoute { cc_route, ccpen };
        routes.timers = timers;
        proof {
            let expected = spec_route_channel(*old(routes), index, ch as int, pin, enable);
            assert(cc_route =~= spec_array_update(t.cc_route, ch as int, spec_route(pin)));
            if enable {
                assert(ccpen =~= spec_array_update(t.ccpen, ch as int, true));
            }
            assert(routes.timers =~= expected.timers);
        }
    }
}

/// The GPIO registers after the mode of an optional pin is written.
pub open spec fn spec_opt_mode(gpio: GpioRegs, pin: Option<AnyPin>, mode: PortMode) -> GpioRegs {
    match pin {
        Some(p) => spec_gpio_with_mode(gpio, p, mode),
        None => gpio,
    }
}

/// The routing registers after an optional pin is routed to channel `ch`.
pub open spec fn spec_opt_route(routes: TimerRoutes, index: u8, ch: int, pin: Option<AnyPin>, enable: bool) -> TimerRoutes {
    match pin {
        Some(p) => spec_route_channel(routes, index, ch, p, enable),
        None => routes,
    }
}

/// A pin can have its mode written: it exists.
pub open spec fn pin_ok(pin: Option<AnyPin>) -> bool {
    match pin {
        Some(p) => p.wf(),
        None => true,
    }
}

/// A channel after PWM configuration when it has a pin, unchanged otherwise.
pub open spec fn spec_opt_pwm(c: CcChannel, pin: Option<AnyPin>) -> CcChannel {
    if pin is Some {
        spec_pwm_channel(c)
    } else {
        c
    }
}

/// The CMU after a timer's clock is enabled.
pub open spec fn spec_timer_clock_on(cmu: CmuRegs, index: u8) -> CmuRegs {
    CmuRegs { clken0: Cmu::timer_gate(cmu.clken0, index, true), ..cmu }
}

/// Simple PWM driver for a single timer with up to 3 channels.
pub struct SimplePwm<T: Instance> {
    /// The timer instance driven.
    pub instance: PhantomData<T>,
    /// Reference clock frequency in Hz.
    pub ref_freq: u32,
    /// Timer prescaler.
    pub prescaler: Prescaler,
}

impl<T: Instance> SimplePwm<T> {
    /// Create a new PWM driver with a single output channel (CC0).
    pub fn new_ch0(
        timer: T,
        pin: AnyPin,
        config: Config,
        cmu: &mut CmuRegs,
        gpio: &mut GpioRegs,
        routes: &mut TimerRoutes,
        regs: &mut TimerRegs,
    ) -> (r: Self)
        requires
            pin_ok(Some(pin)),
        ensures
            r.ref_freq == spec_ref_freq(config.ref_freq),
            r.prescaler == config.prescaler,
            *final(cmu) == spec_timer_clock_on(*old(cmu), T::spec_index()),
            *final(regs) == Self::spec_configured(*old(regs), config, [Some(pin), None, None]),
            *final(gpio) == spec_opt_mode(*old(gpio), Some(pin), PortMode::PushPull),
            *final(routes) == spec_opt_route(*old(routes), T::spec_index(), 0, Some(pin), true),
    {
        Self::new_inner(timer, [Some(pin), None, None], config, cmu, gpio, routes, regs)
    }

    /// Create a new PWM driver with two output channels (CC0 and CC1).
    pub fn new_ch0_ch1(
        timer: T,
        ch0_pin: AnyPin,
        ch1_pin: AnyPin,
        config: Config,
        cmu: &mut CmuRegs,
        gpio: &mut GpioRegs,
        routes: &mut TimerRoutes,
        regs: &mut TimerRegs,
    ) -> (r: Self)
        requires
            pin_ok(Some(ch0_pin)),
            pin_ok(Some(ch1_pin)),
        ensures
            r.ref_freq == spec_ref_freq(config.ref_freq),
            r.prescaler == config.prescaler,
            *final(cmu) == spec_timer_clock_on(*old(cmu), T::spec_index()),
            *final(regs) == Self::spec_configured(*old(regs), config, [Some(ch0_pin), Some(ch1_pin), None]),
            *final(gpio) == spec_opt_mode(
                spec_opt_mode(*old(gpio), Some(ch0_pin), PortMode::PushPull),
                Some(ch1_pin),
                PortMode::PushPull,
            ),
            *final(routes) == spec_opt_route(
                spec_opt_route(*old(routes), T::spec_index(), 0, Some(ch0_pin), true),
                T::spec_index(),
                1,
                Some(ch1_pin),
                true,
            ),
    {
        Self::new_inner(timer, [Some(ch0_pin), Some(ch1_pin), None], config, cmu, gpio, routes, regs)
    }

    /// Create a new PWM driver with three output channels (CC0, CC1, and CC2).
    pub fn new_ch0_ch1_ch2(
        timer: T,
        ch0_pin: AnyPin,
        ch1_pin: AnyPin,
        ch2_pin: AnyPin,
        config: Config,
        cmu: &mut CmuRegs,
        gpio: &mut GpioRegs,
        routes: &mut TimerRoutes,
        regs: &mut TimerRegs,
    ) -> (r: Self)
        requires
            pin_ok(Some(ch0_pin)),
            pin_ok(Some(ch1_pin)),
            pin_ok(Some(ch2_pin)),
        ensures
            r.ref_freq == spec_ref_freq(config.ref_freq),
            r.prescaler == config.prescaler,
            *final(cmu) == spec_timer_clock_on(*old(cmu), T::spec_index()),
            *final(regs) == Self::spec_configured(*old(regs), config, [Some(ch0_pin), Some(ch1_pin), Some(ch2_pin)]),
            *final(gpio) == spec_opt_mode(
                spec_opt_mode(spec_opt_mode(*old(gpio), Some(ch0_pin), PortMode::PushPull), Some(ch1_pin), PortMode::PushPull),
                Some(ch2_pin),
                PortMode::PushPull,
            ),
            *final(routes) == spec_opt_route(
                spec_opt_route(
                    spec_opt_route(*old(routes), T::spec_index(), 0, Some(ch0_pin), true),
                    T::spec_index(),
                    1,
                    Some(ch1_pin),
                    true,
                ),
                T::spec_index(),
                2,
                Some(ch2_pin),
                true,
            ),
    {
        Self::new_inner(timer, [Some(ch0_pin), Some(ch1_pin), Some(ch2_pin)], config, cmu, gpio, routes, regs)
    }

    /// The timer registers after PWM configuration: enabled and started, the
    /// configuration written, channels with pins in PWM mode and TOP at 0xFFFF.
    pub open spec fn spec_configured(regs: TimerRegs, config: Config, pins: [Option<AnyPin>; 3]) -> TimerRegs {
        TimerRegs {
            en: true,
            presc: config.prescaler.spec_bits(),
            mode: config.mode,
            osmen: false,
            cc: [
                spec_opt_pwm(regs.cc[0], pins[0]),
                spec_opt_pwm(regs.cc[1], pins[1]),
                spec_opt_pwm(regs.cc[2], pins[2]),
            ],
            top: 0xFFFF,
            cmd_start: true,
            cmd_stop: false,
            ..regs
        }
    }

    fn new_inner(
        _timer: T,
        pins: [Option<AnyPin>; 3],
        config: Config,
        cmu: &mut CmuRegs,
        gpio: &mut GpioRegs,
        routes: &mut TimerRoutes,
        regs: &mut TimerRegs,
    ) -> (r: Self)
        requires
            pin_ok(pins[0]),
            pin_ok(pins[1]),
            pin_ok(pins[2]),
        ensures
            r.ref_freq == spec_ref_freq(config.ref_freq),
            r.prescaler == config.prescaler,
            *final(cmu) == spec_timer_clock_on(*old(cmu), T::spec_index()),
            *final(regs) == Self::spec_configured(*old(regs), config, pins),
            *final(gpio) == spec_opt_mode(
                spec_opt_mode(spec_opt_mode(*old(gpio), pins[0], PortMode::PushPull), pins[1], PortMode::PushPull),
                pins[2],
                PortMode::PushPull,
            ),
            *final(routes) == spec_opt_route(
                spec_opt_route(spec_opt_route(*old(routes), T::spec_index(), 0, pins[0], true), T::spec_index(), 1, pins[1], true),
                T::spec_index(),
                2,
                pins[2],
                true,
            ),
    {
        let index = T::index();
        Cmu::enable_timer(cmu, index);
        regs.en = false;
        write_cfg(regs, config.prescaler, config.mode);
        let mut cc = regs.cc;
        let mut i: usize = 0;
        while i < 3
            invariant
                i <= 3,
                forall|k: int| 0 <= k < i ==> cc[k] == spec_opt_pwm(old(regs).cc[k], pins[k]),
                forall|k: int| i <= k < 3 ==> cc[k] == old(regs).cc[k],
            decreases 3 - i,
        {
            if pins[i].is_some() {
                let c = cc[i];
                cc[i] = CcChannel { mode: CcMode::Pwm, insel_pin: true, filt: false, outinv: false, icedge: Edge::Rising, ..c };
            }
            i = i + 1;
        }
        regs.cc = cc;
        let mut i: usize = 0;
        while i < 3
            invariant
                i <= 3,
                pin_ok(pins[0]),
                pin_ok(pins[1]),
                pin_ok(pins[2]),
                i == 0 ==> *gpio == *old(gpio),
                i == 1 ==> *gpio == spec_opt_mode(*old(gpio), pins[0], PortMode::PushPull),
                i == 2 ==> *gpio == spec_opt_mode(spec_opt_mode(*old(gpio), pins[0], PortMode::PushPull), pins[1], PortMode::PushPull),
                i == 3 ==> *gpio == spec_opt_mode(
                    spec_opt_mode(spec_opt_mode(*old(gpio), pins[0], PortMode::PushPull), pins[1], PortMode::PushPull),
                    pins[2],
                    PortMode::PushPull,
                ),
            decreases 3 - i,
        {
            if let Some(p) = pins[i] {
                p.mode_w(gpio, PortMode::PushPull);
            }
            i = i + 1;
        }
        let mut i: usize = 0;
        while i < 3
            invariant
                i <= 3,
                index == T::spec_index(),
                i == 0 ==> *routes == *old(routes),
                i == 1 ==> *routes == spec_opt_route(*old(routes), index, 0, pins[0], true),
                i == 2 ==> *routes == spec_opt_route(spec_opt_route(*old(routes), index, 0, pins[0], true), index, 1, pins[1], true),
                i == 3 ==> *routes == spec_opt_route(
                    spec_opt_route(spec_opt_route(*old(routes), index, 0, pins[0], true), index, 1, pins[1], true),
                    index,
                    2,
                    pins[2],
                    true,
                ),
            decreases 3 - i,
        {
            if let Some(p) = pins[i] {
                route_channel(routes, index, i, p, true);
            }
            i = i + 1;
        }
        regs.top = 0xFFFF;
        regs.en = true;
        cmd_start(regs);
        proof {
            assert(regs.cc =~= [
                spec_opt_pwm(old(regs).cc[0], pins[0]),
                spec_opt_pwm(old(regs).cc[1], pins[1]),
                spec_opt_pwm(old(regs).cc[2], pins[2]),
            ]);
        }
        SimplePwm { instance: PhantomData, ref_freq: ref_freq_of(config.ref_freq), prescaler: config.prescaler }
    }
}

/// The TOP value that `set_frequency` selects: one less than the number of timer
/// ticks per PWM period, saturating at zero and capped at 0xFFFF.
pub open spec fn spec_pwm_top(ref_freq: u32, divisor: u32, freq_hz: u32) -> u32 {
    let ticks: int = ((ref_freq / divisor) / freq_hz) as int;
    if ticks == 0 {
        0
    } else if ticks - 1 > 0xFFFF {
        0xFFFF
    } else {
        (ticks - 1) as u32
    }
}

/// A channel after the oldest entry of its capture FIFO is read (and so popped).
pub open spec fn spec_icf_popped(c: CcChannel) -> CcChannel {
    CcChannel { icf: spec_array_update(c.icf, 0, c.icf[1]), icf_len: (c.icf_len - 1) as u8, ..c }
}

/// Read CCx_ICF of a channel whose capture FIFO is not empty: the oldest entry is
/// returned and popped.
fn pop_icf(regs: &mut TimerRegs, ch: usize) -> (r: u32)
    requires
        ch < 3,
        old(regs).cc[ch as int].icf_len > 0,
    ensures
        r == old(regs).cc[ch as int].icf[0],
        *final(regs) == spec_with_cc(*old(regs), ch as int, spec_icf_popped(old(regs).cc[ch as int])),
{
    let c = regs.cc[ch];
    let v = c.icf[0];
    let mut fifo = c.icf;
    fifo[0] = c.icf[1];
    proof {
        assert(fifo =~= spec_array_update(c.icf, 0, c.icf[1]));
    }
    update_cc(regs, ch, CcChannel { icf: fifo, icf_len: c.icf_len - 1, ..c });
    v
}

/// The timer registers after channel `ch` is set to `c`.
pub open spec fn spec_with_cc(regs: TimerRegs, ch: int, c: CcChannel) -> TimerRegs {
    TimerRegs { cc: spec_array_update(regs.cc, ch, c), ..regs }
}

fn update_cc(regs: &mut TimerRegs, ch: usize, c: CcChannel)
    requires
        ch < 3,
    ensures
        *final(regs) == spec_with_cc(*old(regs), ch as int, c),
{
    let mut cc = regs.cc;
    cc[ch] = c;
    regs.cc = cc;
    proof {
        assert(regs.cc =~= spec_array_update(old(regs).cc, ch as int, c));
    }
}

impl<T: Instance> SimplePwm<T> {
    /// Get the maximum duty cycle value: the TOP register truncated to 16 bits.
    pub fn max_duty(&self, regs: &TimerRegs) -> (r: u16)
        ensures
            r == regs.top % 0x1_0000,
    {
        (regs.top % 0x1_0000) as u16
    }

    /// Set the PWM frequency in Hz by adjusting TOP (a zero frequency changes
    /// nothing).
    pub fn set_frequency(&mut self, regs: &mut TimerRegs, freq_hz: u32)
        ensures
            *final(self) == *old(self),
            freq_hz == 0 ==> *final(regs) == *old(regs),
            freq_hz != 0 ==> *final(regs) == (TimerRegs {
                top: spec_pwm_top(old(self).ref_freq, old(self).prescaler.spec_divisor(), freq_hz),
                ..*old(regs)
            }),
    {
        if freq_hz == 0 {
            return;
        }
        let timer_freq = self.ref_freq / self.prescaler.divisor();
        let ticks = timer_freq / freq_hz;
        let top: u32 = if ticks == 0 {
            0
        } else if ticks - 1 > 0xFFFF {
            0xFFFF
        } else {
            ticks - 1
        };
        regs.top = top;
    }

    /// Get the current PWM frequency in Hz: the timer frequency divided by TOP + 1.
    pub fn get_frequency(&self, regs: &TimerRegs) -> (r: u32)
        requires
            regs.top < u32::MAX,
        ensures
            r as int == (self.ref_freq / self.prescaler.spec_divisor()) as int / (regs.top + 1),
    {
        let top = regs.top;
        let timer_freq = self.ref_freq / self.prescaler.divisor();
        timer_freq / (top + 1)
    }

    /// Set the duty cycle for a channel (its output compare buffer).
    pub fn set_duty(&mut self, regs: &mut TimerRegs, channel: Channel, duty: u16)
        ensures
            *final(self) == *old(self),
            *final(regs) == spec_with_cc(
                *old(regs),
                channel.spec_index(),
                CcChannel { ocb: duty as u32, ..old(regs).cc[channel.spec_index()] },
            ),
    {
        let ch = channel.index();
        let c = regs.cc[ch];
        update_cc(regs, ch, CcChannel { ocb: duty as u32, ..c });
    }

    /// Get the current duty cycle for a channel: its output compare value truncated to
    /// 16 bits.
    pub fn get_duty(&self, regs: &TimerRegs, channel: Channel) -> (r: u16)
        ensures
            r == regs.cc[channel.spec_index()].oc % 0x1_0000,
    {
        (regs.cc[channel.index()].oc % 0x1_0000) as u16
    }

    /// Enable PWM output on a channel.
    pub fn enable(&mut self, regs: &mut TimerRegs, channel: Channel)
        ensures
            *final(self) == *old(self),
            *final(regs) == spec_with_cc(
                *old(regs),
                channel.spec_index(),
                CcChannel { mode: CcMode::Pwm, ..old(regs).cc[channel.spec_index()] },
            ),
    {
        let ch = channel.index();
        let c = regs.cc[ch];
        update_cc(regs, ch, CcChannel { mode: CcMode::Pwm, ..c });
    }

    /// Disable PWM output on a channel.
    pub fn disable(&mut self, regs: &mut TimerRegs, channel: Channel)
        ensures
            *final(self) == *old(self),
            *final(regs) == spec_with_cc(
                *old(regs),
                channel.spec_index(),
                CcChannel { mode: CcMode::Off, ..old(regs).cc[channel.spec_index()] },
            ),
    {
        let ch = channel.index();
        let c = regs.cc[ch];
        update_cc(regs, ch, CcChannel { mode: CcMode::Off, ..c });
    }

    /// Set duty cycle as a percentage (0-100, larger values count as 100) of the
    /// maximum duty.
    pub fn set_duty_percent(&mut self, regs: &mut TimerRegs, channel: Channel, percent: u8)
        ensures
            *final(self) == *old(self),
            *final(regs) == spec_with_cc(
                *old(regs),
                channel.spec_index(),
                CcChannel {
                    ocb: ((old(regs).top % 0x1_0000) * (if percent > 100 { 100 } else { percent as int }) / 100) as u32,
                    ..old(regs).cc[channel.spec_index()]
                },
            ),
    {
        let max = self.max_duty(regs) as u32;
        let pct: u32 = if percent > 100 { 100 } else { percent as u32 };
        assert(max * pct <= 0xFFFF * 100) by (nonlinear_arith)
            requires max <= 0xFFFF, pct <= 100;
        let duty = (max * pct) / 100;
        assert(duty <= max) by (nonlinear_arith)
            requires duty == (max * pct) / 100, pct <= 100;
        self.set_duty(regs, channel, duty as u16);
    }

    /// Tear the driver down: the timer is stopped and disabled and its pin outputs
    /// are no longer routed.
    pub fn release(self, regs: &mut TimerRegs, routes: &mut TimerRoutes)
        ensures
            *final(regs) == (TimerRegs { en: false, cmd_start: false, cmd_stop: true, ..*old(regs) }),
            *final(routes) == spec_unroute(*old(routes), T::spec_index()),
    {
        cmd_stop(regs);
        regs.en = false;
        unroute(routes, T::index());
    }
}

/// The routing registers after all pin outputs of a timer are disabled.
pub open spec fn spec_unroute(routes: TimerRoutes, index: u8) -> TimerRoutes {
    if index < 5 {
        TimerRoutes {
            timers: spec_array_update(
                routes.timers,
                index as int,
                TimerRoute { ccpen: [false, false, false], ..routes.timers[index as int] },
            ),
        }
    } else {
        routes
    }
}

fn unroute(routes: &mut TimerRoutes, index: u8)
    ensures
        *final(routes) == spec_unroute(*old(routes), index),
{
    if index < 5 {
        let mut timers = routes.timers;
        let t = timers[index as usize];
        timers[index as usize] = TimerRoute { ccpen: [false, false, false], ..t };
        routes.timers = timers;
        proof {
            assert(routes.timers =~= spec_unroute(*old(routes), index).timers);
        }
    }
}

/// The timer frequency of a reference clock and prescaler.
pub open spec fn spec_timer_freq(ref_freq: u32, prescaler: Prescaler) -> u32 {
    ref_freq / prescaler.spec_divisor()
}

/// Input capture driver for a single channel.
pub struct InputCapture<T: Instance> {
    /// The timer instance driven.
    pub instance: PhantomData<T>,
    /// The capture channel.
    pub channel: Channel,
    /// Reference clock frequency in Hz.
    pub ref_freq: u32,
    /// Timer prescaler.
    pub prescaler: Prescaler,
}

impl<T: Instance> InputCapture<T> {
    /// The timer registers after input capture configuration on `channel`.
    pub open spec fn spec_configured(regs: TimerRegs, config: CaptureConfig, channel: Channel) -> TimerRegs {
        TimerRegs {
            en: true,
            presc: config.prescaler.spec_bits(),
            mode: CountingMode::Up,
            osmen: false,
            cc: spec_array_update(regs.cc, channel.spec_index(), spec_capture_channel(regs.cc[channel.spec_index()], config)),
            top: 0xFFFF_FFFF,
            cmd_start: true,
            cmd_stop: false,
            ..regs
        }
    }

    /// Create a new input capture driver on channel 0.
    pub fn new_ch0(timer: T, pin: AnyPin, config: CaptureConfig, cmu: &mut CmuRegs, gpio: &mut GpioRegs, routes: &mut TimerRoutes, regs: &mut TimerRegs) -> (r: Self)
        requires
            pin_ok(Some(pin)),
        ensures
            r.channel == Channel::Ch0,
            r.ref_freq == spec_ref_freq(config.ref_freq),
            r.prescaler == config.prescaler,
            *final(cmu) == spec_timer_clock_on(*old(cmu), T::spec_index()),
            *final(regs) == Self::spec_configured(*old(regs), config, Channel::Ch0),
            *final(gpio) == spec_gpio_with_mode(*old(gpio), pin, PortMode::Input),
            *final(routes) == spec_route_channel(*old(routes), T::spec_index(), 0, pin, false),
    {
        Self::new_inner(timer, pin, Channel::Ch0, config, cmu, gpio, routes, regs)
    }

    /// Create a new input capture driver on channel 1.
    pub fn new_ch1(timer: T, pin: AnyPin, config: CaptureConfig, cmu: &mut CmuRegs, gpio: &mut GpioRegs, routes: &mut TimerRoutes, regs: &mut TimerRegs) -> (r: Self)
        requires
            pin_ok(Some(pin)),
        ensures
            r.channel == Channel::Ch1,
            r.ref_freq == spec_ref_freq(config.ref_freq),
            r.prescaler == config.prescaler,
            *final(cmu) == spec_timer_clock_on(*old(cmu), T::spec_index()),
            *final(regs) == Self::spec_configured(*old(regs), config, Channel::Ch1),
            *final(gpio) == spec_gpio_with_mode(*old(gpio), pin, PortMode::Input),
            *final(routes) == spec_route_channel(*old(routes), T::spec_index(), 1, pin, false),
    {
        Self::new_inner(timer, pin, Channel::Ch1, config, cmu, gpio, routes, regs)
    }

    /// Create a new input capture driver on channel 2.
    pub fn new_ch2(timer: T, pin: AnyPin, config: CaptureConfig, cmu: &mut CmuRegs, gpio: &mut GpioRegs, routes: &mut TimerRoutes, regs: &mut TimerRegs) -> (r: Self)
        requires
            pin_ok(Some(pin)),
        ensures
            r.channel == Channel::Ch2,
            r.ref_freq == spec_ref_freq(config.ref_freq),
            r.prescaler == config.prescaler,
            *final(cmu) == spec_timer_clock_on(*old(cmu), T::spec_index()),
            *final(regs) == Self::spec_configured(*old(regs), config, Channel::Ch2),
            *final(gpio) == spec_gpio_with_mode(*old(gpio), pin, PortMode::Input),
            *final(routes) == spec_route_channel(*old(routes), T::spec_index(), 2, pin, false),
    {
        Self::new_inner(timer, pin, Channel::Ch2, config, cmu, gpio, routes, regs)
    }

    fn new_inner(
        _timer: T,
        pin: AnyPin,
        channel: Channel,
        config: CaptureConfig,
        cmu: &mut CmuRegs,
        gpio: &mut GpioRegs,
        routes: &mut TimerRoutes,
        regs: &mut TimerRegs,
    ) -> (r: Self)
        requires
            pin_ok(Some(pin)),
        ensures
            r.channel == channel,
            r.ref_freq == spec_ref_freq(config.ref_freq),
            r.prescaler == config.prescaler,
            *final(cmu) == spec_timer_clock_on(*old(cmu), T::spec_index()),
            *final(regs) == Self::spec_configured(*old(regs), config, channel),
            *final(gpio) == spec_gpio_with_mode(*old(gpio), pin, PortMode::Input),
            *final(routes) == spec_route_channel(*old(routes), T::spec_index(), channel.spec_index(), pin, false),
    {
        let index = T::index();
        Cmu::enable_timer(cmu, index);
        regs.en = false;
        write_cfg(regs, config.prescaler, CountingMode::Up);
        let ch = channel.index();
        let c = regs.cc[ch];
        update_cc(
            regs,
            ch,
            CcChannel {
                mode: CcMode::InputCapture,
                insel_pin: true,
                filt: config.filter,
                outinv: false,
                icedge: config.edge,
                ien: true,
                ..c
            },
        );
        pin.mode_w(gpio, PortMode::Input);
        route_channel(routes, index, ch, pin, false);
        regs.top = 0xFFFF_FFFF;
        regs.en = true;
        cmd_start(regs);
        InputCapture { instance: PhantomData, channel, ref_freq: ref_freq_of(config.ref_freq), prescaler: config.prescaler }
    }

    /// Try to read a capture value without blocking: when the channel's capture FIFO
    /// is not empty its oldest entry is read, which pops it; otherwise nothing is
    /// written.
    pub fn try_read(&mut self, regs: &mut TimerRegs) -> (r: Option<u32>)
        ensures
            *final(self) == *old(self),
            old(regs).cc[old(self).channel.spec_index()].icf_len == 0 ==> r is None && *final(regs) == *old(regs),
            old(regs).cc[old(self).channel.spec_index()].icf_len > 0 ==> r == Some(old(regs).cc[old(self).channel.spec_index()].icf[0])
                && *final(regs) == spec_with_cc(
                *old(regs),
                old(self).channel.spec_index(),
                spec_icf_popped(old(regs).cc[old(self).channel.spec_index()]),
            ),
    {
        let ch = self.channel.index();
        if regs.cc[ch].icf_len > 0 {
            Some(pop_icf(regs, ch))
        } else {
            None
        }
    }

    /// Get the current counter value.
    pub fn counter(&self, regs: &TimerRegs) -> (r: u32)
        ensures
            r == regs.cnt,
    {
        regs.cnt
    }

    /// Clear the counter.
    pub fn clear(&mut self, regs: &mut TimerRegs)
        ensures
            *final(self) == *old(self),
            *final(regs) == (TimerRegs { cnt: 0, ..*old(regs) }),
    {
        regs.cnt = 0;
    }

    /// One poll of an asynchronous capture wait: the oldest entry of the capture FIFO,
    /// popped, when it is not empty; otherwise the channel interrupt is enabled.
    pub fn poll_capture(&mut self, regs: &mut TimerRegs) -> (r: Option<u32>)
        ensures
            *final(self) == *old(self),
            old(regs).cc[old(self).channel.spec_index()].icf_len > 0 ==> r == Some(old(regs).cc[old(self).channel.spec_index()].icf[0])
                && *final(regs) == spec_with_cc(
                *old(regs),
                old(self).channel.spec_index(),
                spec_icf_popped(old(regs).cc[old(self).channel.spec_index()]),
            ),
            old(regs).cc[old(self).channel.spec_index()].icf_len == 0 ==> r is None && *final(regs) == spec_with_cc(
                *old(regs),
                old(self).channel.spec_index(),
                CcChannel { ien: true, ..old(regs).cc[old(self).channel.spec_index()] },
            ),
    {
        let ch = self.channel.index();
        let c = regs.cc[ch];
        if c.icf_len > 0 {
            Some(pop_icf(regs, ch))
        } else {
            update_cc(regs, ch, CcChannel { ien: true, ..c });
            None
        }
    }

    /// The pulse width between two captures: their difference modulo the 32-bit
    /// counter.
    pub fn measure_pulse_width(&self, first: u32, second: u32) -> (r: u32)
        ensures
            r == (if second >= first { second - first } else { second + 0x1_0000_0000 - first }),
    {
        second.wrapping_sub(first)
    }

    /// The frequency of a signal from two captures of consecutive edges: the timer
    /// frequency divided by the period, zero for a zero period.
    pub fn measure_frequency(&self, first: u32, second: u32) -> (r: u32)
        ensures
            ({
                let period: int = if second >= first { second - first } else { second + 0x1_0000_0000 - first };
                &&& period == 0 ==> r == 0
                &&& period != 0 ==> r == spec_timer_freq(self.ref_freq, self.prescaler) as int / period
            }),
    {
        let period = self.measure_pulse_width(first, second);
        if period == 0 {
            return 0;
        }
        self.frequency() / period
    }

    /// Get the timer frequency in Hz.
    pub fn frequency(&self) -> (r: u32)
        ensures
            r == spec_timer_freq(self.ref_freq, self.prescaler),
    {
        self.ref_freq / self.prescaler.divisor()
    }

    /// Convert a captured timestamp to microseconds (zero when the timer frequency is
    /// zero; the quotient is truncated to 32 bits).
    pub fn capture_to_us(&self, capture: u32) -> (r: u32)
        ensures
            spec_timer_freq(self.ref_freq, self.prescaler) == 0 ==> r == 0,
            spec_timer_freq(self.ref_freq, self.prescaler) != 0 ==> r == ((capture as int * 1_000_000) / (
            spec_timer_freq(self.ref_freq, self.prescaler) as int)) % 0x1_0000_0000,
    {
        let freq = self.frequency();
        if freq == 0 {
            return 0;
        }
        assert((capture as u64) * 1_000_000 <= u64::MAX) by (nonlinear_arith)
            requires capture <= u32::MAX;
        let q: u64 = ((capture as u64) * 1_000_000) / (freq as u64);
        (q % 0x1_0000_0000) as u32
    }

    /// Tear the driver down: the channel interrupt is disabled, the timer stopped and
    /// disabled, and the timer's pin outputs unrouted.
    pub fn release(self, regs: &mut TimerRegs, routes: &mut TimerRoutes)
        ensures
            *final(regs) == (TimerRegs {
                en: false,
                cmd_start: false,
                cmd_stop: true,
                cc: spec_array_update(old(regs).cc, self.channel.spec_index(), CcChannel { ien: false, ..old(regs).cc[self.channel.spec_index()] }),
                ..*old(regs)
            }),
            *final(routes) == spec_unroute(*old(routes), T::spec_index()),
    {
        let ch = self.channel.index();
        let c = regs.cc[ch];
        update_cc(regs, ch, CcChannel { ien: false, ..c });
        cmd_stop(regs);
        regs.en = false;
        unroute(routes, T::index());
    }
}

/// General-purpose timer/counter driver (free-running counter, one-shot mode).
pub struct Timer<T: Instance> {
    /// The timer instance driven.
    pub instance: PhantomData<T>,
    /// Reference clock frequency in Hz.
    pub ref_freq: u32,
    /// Timer prescaler.
    pub prescaler: Prescaler,
}

impl<T: Instance> Timer<T> {
    /// Create a new timer in free-running mode (enabled, not started, TOP at its
    /// maximum).
    pub fn new(_timer: T, config: Config, cmu: &mut CmuRegs, regs: &mut TimerRegs) -> (r: Self)
        ensures
            r.ref_freq == spec_ref_freq(config.ref_freq),
            r.prescaler == config.prescaler,
            *final(cmu) == spec_timer_clock_on(*old(cmu), T::spec_index()),
            *final(regs) == (TimerRegs {
                en: true,
                presc: config.prescaler.spec_bits(),
                mode: config.mode,
                osmen: false,
                top: 0xFFFF_FFFF,
                ..*old(regs)
            }),
    {
        Cmu::enable_timer(cmu, T::index());
        regs.en = false;
        write_cfg(regs, config.prescaler, config.mode);
        regs.top = 0xFFFF_FFFF;
        regs.en = true;
        Timer { instance: PhantomData, ref_freq: ref_freq_of(config.ref_freq), prescaler: config.prescaler }
    }

    /// Start the timer.
    pub fn start(&mut self, regs: &mut TimerRegs)
        ensures
            *final(self) == *old(self),
            *final(regs) == (TimerRegs { cmd_start: true, cmd_stop: false, ..*old(regs) }),
    {
        cmd_start(regs);
    }

    /// Stop the timer.
    pub fn stop(&mut self, regs: &mut TimerRegs)
        ensures
            *final(self) == *old(self),
            *final(regs) == (TimerRegs { cmd_start: false, cmd_stop: true, ..*old(regs) }),
    {
        cmd_stop(regs);
    }

    /// Get the current counter value.
    pub fn counter(&self, regs: &TimerRegs) -> (r: u32)
        ensures
            r == regs.cnt,
    {
        regs.cnt
    }

    /// Set the counter value.
    pub fn set_counter(&mut self, regs: &mut TimerRegs, value: u32)
        ensures
            *final(self) == *old(self),
            *final(regs) == (TimerRegs { cnt: value, ..*old(regs) }),
    {
        regs.cnt = value;
    }

    /// Clear the counter to zero.
    pub fn clear(&mut self, regs: &mut TimerRegs)
        ensures
            *final(self) == *old(self),
            *final(regs) == (TimerRegs { cnt: 0, ..*old(regs) }),
    {
        self.set_counter(regs, 0);
    }

    /// Get the TOP value.
    pub fn top(&self, regs: &TimerRegs) -> (r: u32)
        ensures
            r == regs.top,
    {
        regs.top
    }

    /// Set the TOP value.
    pub fn set_top(&mut self, regs: &mut TimerRegs, top: u32)
        ensures
            *final(self) == *old(self),
            *final(regs) == (TimerRegs { top: top, ..*old(regs) }),
    {
        regs.top = top;
    }

    /// Get the timer frequency in Hz.
    pub fn frequency(&self) -> (r: u32)
        ensures
            r == spec_timer_freq(self.ref_freq, self.prescaler),
    {
        self.ref_freq / self.prescaler.divisor()
    }

    /// Check if the timer is running.
    pub fn is_running(&self, regs: &TimerRegs) -> (r: bool)
        ensures
            r == regs.running,
    {
        regs.running
    }

    /// Enable or disable one-shot mode (the timer stops when it reaches TOP).
    pub fn set_one_shot(&mut self, regs: &mut TimerRegs, enabled: bool)
        ensures
            *final(self) == *old(self),
            *final(regs) == (TimerRegs { osmen: enabled, ..*old(regs) }),
    {
        regs.osmen = enabled;
    }

    /// Tear the driver down: the timer is stopped and disabled.
    pub fn release(self, regs: &mut TimerRegs)
        ensures
            *final(regs) == (TimerRegs { en: false, cmd_start: false, cmd_stop: true, ..*old(regs) }),
    {
        cmd_stop(regs);
        regs.en = false;
    }
}

/// Setting a duty of `percent` (at most 100) never exceeds the maximum duty, and
/// 100 percent is exactly the maximum duty.
pub proof fn lemma_duty_percent_bounds(max: u32, percent: u32)
    requires
        max <= 0xFFFF,
        percent <= 100,
    ensures
        max * percent / 100 <= max,
        max * 100 / 100 == max,
{
    assert(max * percent / 100 <= max) by (nonlinear_arith)
        requires percent <= 100, max <= 0xFFFF;
}

/// The timer registers after an update event (an overflow of the counter at TOP):
/// each channel's output compare value is loaded from its buffer.
pub open spec fn spec_update_event(regs: TimerRegs) -> TimerRegs {
    TimerRegs {
        cc: [
            CcChannel { oc: regs.cc[0].ocb, ..regs.cc[0] },
            CcChannel { oc: regs.cc[1].ocb, ..regs.cc[1] },
            CcChannel { oc: regs.cc[2].ocb, ..regs.cc[2] },
        ],
        ..regs
    }
}

/// A duty cycle set on a channel is the one read back once the next update event has
/// loaded it: after `set_duty(channel, duty)` and an update event, `get_duty(channel)`
/// gives `duty`.
pub proof fn lemma_duty_loaded_at_update(regs: TimerRegs, channel: Channel, duty: u16)
    ensures
        spec_update_event(
            spec_with_cc(regs, channel.spec_index(), CcChannel { ocb: duty as u32, ..regs.cc[channel.spec_index()] }),
        ).cc[channel.spec_index()].oc % 0x1_0000 == duty,
{
    let r1 = spec_with_cc(regs, channel.spec_index(), CcChannel { ocb: duty as u32, ..regs.cc[channel.spec_index()] });
    assert(r1.cc[channel.spec_index()].ocb == duty as u32);
}

/// The prescalers in declaration order, from no division to division by 1024.
pub open spec fn prescaler_order() -> Seq<Prescaler> {
    seq![
        Prescaler::Div1,
        Prescaler::Div2,
        Prescaler::Div4,
        Prescaler::Div8,
        Prescaler::Div16,
        Prescaler::Div32,
        Prescaler::Div64,
        Prescaler::Div128,
        Prescaler::Div256,
        Prescaler::Div512,
        Prescaler::Div1024,
    ]
}

/// Prescaler `DivN` divides the timer clock by N: the k-th prescaler in declaration
/// order divides by 2^k, its PRESC field being 2^k - 1, and no two prescalers share a
/// PRESC value.
pub proof fn lemma_prescaler_divides_by_power_of_two(p: Prescaler)
    ensures
        forall|k: int|
            0 <= k < 11 ==> ((#[trigger] prescaler_order()[k]).spec_divisor() == vstd::arithmetic::power2::pow2(k as nat))
                && (prescaler_order()[k].spec_bits() + 1 == vstd::arithmetic::power2::pow2(k as nat)),
        prescaler_order().contains(p),
        forall|q: Prescaler| #[trigger] q.spec_bits() == p.spec_bits() ==> q == p,
{
    vstd::arithmetic::power2::lemma2_to64();
    let o = prescaler_order();
    assert forall|k: int| 0 <= k < 11 implies (o[k].spec_divisor() == vstd::arithmetic::power2::pow2(k as nat))
        && (o[k].spec_bits() + 1 == vstd::arithmetic::power2::pow2(k as nat)) by {
        if k == 0 {
            assert(o[0] == Prescaler::Div1);
        } else if k == 1 {
            assert(o[1] == Prescaler::Div2);
        } else if k == 2 {
            assert(o[2] == Prescaler::Div4);
        } else if k == 3 {
            assert(o[3] == Prescaler::Div8);
        } else if k == 4 {
            assert(o[4] == Prescaler::Div16);
        } else if k == 5 {
            assert(o[5] == Prescaler::Div32);
        } else if k == 6 {
            assert(o[6] == Prescaler::Div64);
        } else if k == 7 {
            assert(o[7] == Prescaler::Div128);
        } else if k == 8 {
            assert(o[8] == Prescaler::Div256);
        } else if k == 9 {
            assert(o[9] == Prescaler::Div512);
        } else if k == 10 {
            assert(o[10] == Prescaler::Div1024);
        }
    }
    match p {
        Prescaler::Div1 => assert(o[0] == p),
        Prescaler::Div2 => assert(o[1] == p),
        Prescaler::Div4 => assert(o[2] == p),
        Prescaler::Div8 => assert(o[3] == p),
        Prescaler::Div16 => assert(o[4] == p),
        Prescaler::Div32 => assert(o[5] == p),
        Prescaler::Div64 => assert(o[6] == p),
        Prescaler::Div128 => assert(o[7] == p),
        Prescaler::Div256 => assert(o[8] == p),
        Prescaler::Div512 => assert(o[9] == p),
        Prescaler::Div1024 => assert(o[10] == p),
    }
}

/// The capture/compare channels in declaration order.
pub open spec fn channel_order() -> Seq<Channel> {
    seq![
        Channel::Ch0,
        Channel::Ch1,
        Channel::Ch2,
    ]
}

/// Channel `ChN` is capture/compare channel N: the k-th channel in declaration order
/// has index k, and no two channels share an index.
pub proof fn lemma_channel_index(c: Channel)
    ensures
        forall|k: int|
            0 <= k < 3 ==> ((#[trigger] channel_order()[k]).spec_index() == k),
        channel_order().contains(c),
        forall|q: Channel| #[trigger] q.spec_index() == c.spec_index() ==> q == c,
{
    let o = channel_order();
    assert forall|k: int| 0 <= k < 3 implies (o[k].spec_index() == k) by {
        if k == 0 {
            assert(o[0] == Channel::Ch0);
        } else if k == 1 {
            assert(o[1] == Channel::Ch1);
        } else if k == 2 {
            assert(o[2] == Channel::Ch2);
        }
    }
    match c {
        Channel::Ch0 => assert(o[0] == c),
        Channel::Ch1 => assert(o[1] == c),
        Channel::Ch2 => assert(o[2] == c),
    }
}

} // verus!
