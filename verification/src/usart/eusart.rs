//! Enhanced USART (EUSART) logic, shared by the UART, SPI and memory LCD drivers.
//!
//! EUSART configuration is expressed over [`EusartRegs`] (the register fields the
//! drivers touch) and [`EusartRoutes`] (the GPIO routing registers of both EUSARTs).
//! Whole-register writes return the fields they do not name to their reset values.
use core::marker::PhantomData;

use vstd::array::spec_array_update;
use vstd::prelude::*;

use crate::gpio::{route_of, spec_gpio_with_mode, spec_gpio_with_output, spec_route, AnyPin, GpioRegs, PortMode, Route};
use crate::peripherals::{EUSART0, EUSART1};

verus! {

/// Default EUSART reference clock frequency (20 MHz).
pub const REF_FREQ: u32 = 20_000_000;

/// Number of data bits in a frame.
#[derive(Clone, Copy, Debug, PartialEq, Eq)]
pub enum Databits {
    /// 7 data bits.
    Seven,
    /// 8 data bits.
    Eight,
    /// 9 data bits.
    Nine,
    /// 10 data bits.
    Ten,
    /// 11 data bits.
    Eleven,
    /// 12 data bits.
    Twelve,
    /// 13 data bits.
    Thirteen,
    /// 14 data bits.
    Fourteen,
    /// 15 data bits.
    Fifteen,
    /// 16 data bits.
    Sixteen,
}

/// Parity mode.
#[derive(Clone, Copy, Debug, PartialEq, Eq)]
pub enum Parity {
    /// No parity bit.
    NoParity,
    /// Even parity.
    Even,
    /// Odd parity.
    Odd,
}

/// Number of stop bits.
#[derive(Clone, Copy, Debug, PartialEq, Eq)]
pub enum Stopbits {
    /// Half a stop bit.
    Half,
    /// One stop bit.
    One,
    /// One and a half stop bits.
    OneAndHalf,
    /// Two stop bits.
    Two,
}

/// Oversampling rate.
#[derive(Clone, Copy, Debug, PartialEq, Eq)]
pub enum Ovs {
    /// 16x oversampling.
    X16,
    /// 8x oversampling.
    X8,
    /// 6x oversampling.
    X6,
    /// 4x oversampling.
    X4,
    /// No oversampling (low-frequency mode).
    Disable,
}

impl Ovs {
    /// The oversampling factor.
    pub open spec fn spec_factor(self) -> u32 {
        match self {
            Ovs::X16 => 16,
            Ovs::X8 => 8,
            Ovs::X6 => 6,
            Ovs::X4 => 4,
            Ovs::Disable => 1,
        }
    }

    /// The oversampling factor.
    pub fn factor(self) -> (r: u32)
        ensures
            r == self.spec_factor(),
    {
        match self {
            Ovs::X16 => 16,
            Ovs::X8 => 8,
            Ovs::X6 => 6,
            Ovs::X4 => 4,
            Ovs::Disable => 1,
        }
    }
}

/// SPI clock polarity.
#[derive(Clone, Copy, Debug, PartialEq, Eq)]
pub enum Clkpol {
    /// Clock idles low.
    IdleLow,
    /// Clock idles high.
    IdleHigh,
}

/// SPI clock phase.
#[derive(Clone, Copy, Debug, PartialEq, Eq)]
pub enum Clkpha {
    /// Sample on the leading edge.
    SampleLeading,
    /// Sample on the trailing edge.
    SampleTrailing,
}

/// EUSART configuration.
#[derive(Clone, Copy, Debug, PartialEq, Eq)]
pub struct Config {
    /// Baud rate in bits per second.
    pub baudrate: u32,
    /// Number of data bits.
    pub data_bits: Databits,
    /// Parity mode.
    pub parity: Parity,
    /// Number of stop bits.
    pub stop_bits: Stopbits,
    /// Oversampling rate. Use `Ovs::X16` for standard UART.
    pub oversampling: Ovs,
    /// Enable hardware flow control (CTS/RTS).
    pub hw_flow_control: bool,
    /// Disable majority voting (for noisy environments, keep false).
    pub majority_vote_disable: bool,
}

impl Default for Config {
    /// 115200 baud, 8 data bits, no parity, one stop bit, 16x oversampling, no flow
    /// control, majority voting on.
    fn default() -> (r: Self)
        ensures
            r == (Config {
                baudrate: 115_200,
                data_bits: Databits::Eight,
                parity: Parity::NoParity,
                stop_bits: Stopbits::One,
                oversampling: Ovs::X16,
                hw_flow_control: false,
                majority_vote_disable: false,
            }),
    {
        Config {
            baudrate: 115_200,
            data_bits: Databits::Eight,
            parity: Parity::NoParity,
            stop_bits: Stopbits::One,
            oversampling: Ovs::X16,
            hw_flow_control: false,
            majority_vote_disable: false,
        }
    }
}

/// EUSART error types.
#[derive(Debug, Clone, Copy, PartialEq, Eq)]
pub enum Error {
    /// Framing error - stop bit not detected.
    Framing,
    /// Parity error - parity check failed.
    Parity,
    /// RX FIFO overflow - data lost.
    Overflow,
    /// RX FIFO underflow - read when empty.
    Underflow,
    /// TX FIFO overflow.
    TxOverflow,
}

impl Error {
    /// The message that describes an error.
    pub fn message(&self) -> (r: &'static str)
        ensures
            *self == Error::Framing ==> r@ == "Framing error"@,
            *self == Error::Parity ==> r@ == "Parity error"@,
            *self == Error::Overflow ==> r@ == "RX FIFO overflow"@,
            *self == Error::Underflow ==> r@ == "RX FIFO underflow"@,
            *self == Error::TxOverflow ==> r@ == "TX FIFO overflow"@,
    {
        match self {
            Error::Framing => "Framing error",
            Error::Parity => "Parity error",
            Error::Overflow => "RX FIFO overflow",
            Error::Underflow => "RX FIFO underflow",
            Error::TxOverflow => "TX FIFO overflow",
        }
    }
}

/// CFG0 fields.
#[derive(Clone, Copy, Debug, PartialEq, Eq)]
pub struct Cfg0 {
    /// CFG0.SYNC: synchronous (SPI) mode.
    pub sync: bool,
    /// CFG0.MSBF: most significant bit first.
    pub msbf: bool,
    /// CFG0.OVS
    pub ovs: Ovs,
    /// CFG0.MVDIS: majority vote disabled.
    pub mvdis: bool,
}

/// CFG1 fields.
#[derive(Clone, Copy, Debug, PartialEq, Eq)]
pub struct Cfg1 {
    /// CFG1.CTSEN
    pub ctsen: bool,
}

/// CFG2 fields.
#[derive(Clone, Copy, Debug, PartialEq, Eq)]
pub struct Cfg2 {
    /// CFG2.MASTER
    pub master: bool,
    /// CFG2.CLKPOL
    pub clkpol: Clkpol,
    /// CFG2.CLKPHA
    pub clkpha: Clkpha,
    /// CFG2.FORCELOAD
    pub forceload: bool,
    /// CFG2.SDIV
    pub sdiv: u8,
}

/// FRAMECFG fields.
#[derive(Clone, Copy, Debug, PartialEq, Eq)]
pub struct Framecfg {
    /// FRAMECFG.DATABITS
    pub databits: Databits,
    /// FRAMECFG.PARITY
    pub parity: Parity,
    /// FRAMECFG.STOPBITS
    pub stopbits: Stopbits,
}

/// The last value written to CMD.
#[derive(Clone, Copy, Debug, PartialEq, Eq)]
pub struct Cmd {
    /// CMD.RXEN
    pub rxen: bool,
    /// CMD.RXDIS
    pub rxdis: bool,
    /// CMD.TXEN
    pub txen: bool,
    /// CMD.TXDIS
    pub txdis: bool,
}

/// Interrupt flag bits of IF and IEN.
#[derive(Clone, Copy, Debug, PartialEq, Eq)]
pub struct Flags {
    /// TXC: transmit complete.
    pub txc: bool,
    /// TXFL: TX FIFO level.
    pub txfl: bool,
    /// RXFL: RX FIFO level.
    pub rxfl: bool,
    /// RXOF: RX FIFO overflow.
    pub rxof: bool,
    /// PERR: parity error.
    pub perr: bool,
    /// FERR: framing error.
    pub ferr: bool,
}

/// The EUSART register fields used by the drivers.
#[derive(Clone, Copy, Debug, PartialEq, Eq)]
pub struct EusartRegs {
    /// EN.EN
    pub en: bool,
    /// CFG0
    pub cfg0: Cfg0,
    /// CFG1
    pub cfg1: Cfg1,
    /// CFG2
    pub cfg2: Cfg2,
    /// FRAMECFG
    pub framecfg: Framecfg,
    /// CLKDIV.DIV
    pub clkdiv: u32,
    /// The remaining configuration registers (DTXDATCFG, TIMINGCFG, IRHFCFG, IRLFCFG,
    /// STARTFRAMECFG, SIGFRAMECFG, TRIGCTRL) hold their reset values.
    pub other_cfg_reset: bool,
    /// IEN
    pub ien: Flags,
    /// IF
    pub if_flags: Flags,
    /// The last CMD write.
    pub cmd: Cmd,
}

/// CFG0 after reset.
pub open spec fn cfg0_reset() -> Cfg0 {
    Cfg0 { sync: false, msbf: false, ovs: Ovs::X16, mvdis: false }
}

/// CFG2 after reset.
pub open spec fn cfg2_reset() -> Cfg2 {
    Cfg2 { master: false, clkpol: Clkpol::IdleLow, clkpha: Clkpha::SampleLeading, forceload: false, sdiv: 0 }
}

/// FRAMECFG after reset.
pub open spec fn framecfg_reset() -> Framecfg {
    Framecfg { databits: Databits::Eight, parity: Parity::NoParity, stopbits: Stopbits::One }
}

/// No flag set.
pub open spec fn no_flags() -> Flags {
    Flags { txc: false, txfl: false, rxfl: false, rxof: false, perr: false, ferr: false }
}

/// Every flag set.
pub open spec fn all_flags() -> Flags {
    Flags { txc: true, txfl: true, rxfl: true, rxof: true, perr: true, ferr: true }
}

/// A CMD write with only the named commands.
pub open spec fn spec_cmd(rxen: bool, rxdis: bool, txen: bool, txdis: bool) -> Cmd {
    Cmd { rxen, rxdis, txen, txdis }
}

/// The registers after the disable sequence: when enabled, TX and RX are disabled
/// and the peripheral is switched off; a disabled peripheral is left alone.
pub open spec fn spec_disabled(regs: EusartRegs) -> EusartRegs {
    if regs.en {
        EusartRegs { cmd: spec_cmd(false, true, false, true), en: false, ..regs }
    } else {
        regs
    }
}

/// The registers after the reset sequence: disabled, every configuration register
/// back at its reset value, interrupts disabled and all flags written.
pub open spec fn spec_reset(regs: EusartRegs) -> EusartRegs {
    EusartRegs {
        cfg0: cfg0_reset(),
        cfg1: Cfg1 { ctsen: false },
        cfg2: cfg2_reset(),
        framecfg: framecfg_reset(),
        clkdiv: 0,
        other_cfg_reset: true,
        ien: no_flags(),
        if_flags: all_flags(),
        ..spec_disabled(regs)
    }
}

/// Properly disable the EUSART peripheral (the caller waits for SYNCBUSY, for TX and
/// RX to report disabled, and for DISABLING to clear, between the writes).
pub fn eusart_disable(regs: &mut EusartRegs)
    ensures
        *final(regs) == spec_disabled(*old(regs)),
{
    if regs.en {
        regs.cmd = Cmd { rxen: false, rxdis: true, txen: false, txdis: true };
        regs.en = false;
    }
}

/// Reset the EUSART to its default state.
pub fn eusart_reset(regs: &mut EusartRegs)
    ensures
        *final(regs) == spec_reset(*old(regs)),
{
    eusart_disable(regs);
    regs.cfg2 = Cfg2 { master: false, clkpol: Clkpol::IdleLow, clkpha: Clkpha::SampleLeading, forceload: false, sdiv: 0 };
    regs.cfg1 = Cfg1 { ctsen: false };
    regs.cfg0 = Cfg0 { sync: false, msbf: false, ovs: Ovs::X16, mvdis: false };
    regs.framecfg = Framecfg { databits: Databits::Eight, parity: Parity::NoParity, stopbits: Stopbits::One };
    regs.other_cfg_reset = true;
    regs.ien = Flags { txc: false, txfl: false, rxfl: false, rxof: false, perr: false, ferr: false };
    regs.if_flags = Flags { txc: true, txfl: true, rxfl: true, rxof: true, perr: true, ferr: true };
    regs.clkdiv = 0;
}

/// The clock divider for a baud rate:
/// `((32 * ref_freq) / (baudrate * oversample) - 32) * 8`, saturating at zero and
/// masked to the CLKDIV field.
pub open spec fn spec_clkdiv(ref_freq: u32, baudrate: u32, ovs: Ovs) -> u32 {
    let q: int = (32 * ref_freq) / (baudrate * ovs.spec_factor());
    let d: int = if q >= 32 { (q - 32) * 8 } else { 0 };
    (d as u32) & 0x007F_FFF8
}

/// Calculate the clock divider for the desired baud rate.
pub fn clkdiv_for(ref_freq: u32, baudrate: u32, ovs: Ovs) -> (r: u32)
    requires
        baudrate > 0,
        32 * ref_freq <= u32::MAX,
        baudrate * ovs.spec_factor() <= u32::MAX,
        ((32 * ref_freq) / (baudrate * ovs.spec_factor()) as int - 32) * 8 <= u32::MAX,
    ensures
        r == spec_clkdiv(ref_freq, baudrate, ovs),
{
    let oversample = ovs.factor();
    let den: u32 = baudrate * oversample;
    assert(den > 0) by (nonlinear_arith)
        requires baudrate > 0, oversample >= 1, den == baudrate * oversample;
    let q: u32 = (32 * ref_freq) / den;
    let d: u32 = if q >= 32 { (q - 32) * 8 } else { 0 };
    d & 0x007F_FFF8
}

/// Set the clock divider for the desired baud rate (the caller waits for
/// SYNCBUSY.DIV around the write).
pub fn set_baudrate(regs: &mut EusartRegs, ref_freq: u32, baudrate: u32, ovs: Ovs)
    requires
        baudrate > 0,
        32 * ref_freq <= u32::MAX,
        baudrate * ovs.spec_factor() <= u32::MAX,
        ((32 * ref_freq) / (baudrate * ovs.spec_factor()) as int - 32) * 8 <= u32::MAX,
    ensures
        *final(regs) == (EusartRegs { clkdiv: spec_clkdiv(ref_freq, baudrate, ovs), ..*old(regs) }),
{
    regs.clkdiv = clkdiv_for(ref_freq, baudrate, ovs);
}

/// The GPIO routing registers of one EUSART.
#[derive(Clone, Copy, Debug, PartialEq, Eq)]
pub struct EusartRoute {
    /// TXROUTE
    pub tx: Route,
    /// RXROUTE
    pub rx: Route,
    /// SCLKROUTE
    pub sclk: Route,
    /// RTSROUTE
    pub rts: Route,
    /// CTSROUTE
    pub cts: Route,
    /// ROUTEEN.TXPEN
    pub txpen: bool,
    /// ROUTEEN.RXPEN
    pub rxpen: bool,
    /// ROUTEEN.SCLKPEN
    pub sclkpen: bool,
    /// ROUTEEN.RTSPEN
    pub rtspen: bool,
}

/// The GPIO routing registers of EUSART0 and EUSART1.
#[derive(Clone, Copy, Debug, PartialEq, Eq)]
pub struct EusartRoutes {
    /// Routing of EUSART0 and EUSART1.
    pub eusart: [EusartRoute; 2],
}

/// The routing registers with instance `index` replaced by `f` applied to it
/// (indices above 1 change nothing).
pub open spec fn spec_with_route(routes: EusartRoutes, index: u8, route: EusartRoute) -> EusartRoutes {
    if index < 2 {
        EusartRoutes { eusart: spec_array_update(routes.eusart, index as int, route) }
    } else {
        routes
    }
}

/// Replace the routing registers of instance `index` (indices above 1 change nothing).
pub fn set_route(routes: &mut EusartRoutes, index: u8, route: EusartRoute)
    ensures
        *final(routes) == spec_with_route(*old(routes), index, route),
{
    if index < 2 {
        let mut e = routes.eusart;
        e[index as usize] = route;
        routes.eusart = e;
        proof {
            assert(routes.eusart =~= spec_array_update(old(routes).eusart, index as int, route));
        }
    }
}

/// The routing of an instance, or an arbitrary routing for indices above 1.
pub open spec fn spec_route_of(routes: EusartRoutes, index: u8) -> EusartRoute {
    routes.eusart[if index < 2 { index as int } else { 0 }]
}

/// Read the routing of an instance (instance 0 for indices above 1).
pub fn get_route(routes: &EusartRoutes, index: u8) -> (r: EusartRoute)
    ensures
        r == spec_route_of(*routes, index),
{
    routes.eusart[if index < 2 { index as usize } else { 0 }]
}

/// EUSART peripheral instance trait.
pub trait Instance {
    /// The instance number.
    spec fn spec_index() -> u8;

    /// The instance number.
    fn index() -> (r: u8)
        ensures
            r == Self::spec_index(),
    ;
}

impl Instance for EUSART0 {
    open spec fn spec_index() -> u8 {
        0
    }

    fn index() -> (r: u8) {
        0
    }
}

impl Instance for EUSART1 {
    open spec fn spec_index() -> u8 {
        1
    }

    fn index() -> (r: u8) {
        1
    }
}

/// What an RX interrupt does: the RX-related interrupt sources are disabled and the
/// receiver woken when one of their flags is set.
pub fn on_rx_interrupt(regs: &mut EusartRegs) -> (wake: bool)
    ensures
        wake == (old(regs).if_flags.rxfl || old(regs).if_flags.perr || old(regs).if_flags.ferr || old(regs).if_flags.rxof),
        wake ==> *final(regs) == (EusartRegs {
            ien: Flags { rxfl: false, perr: false, ferr: false, rxof: false, ..old(regs).ien },
            ..*old(regs)
        }),
        !wake ==> *final(regs) == *old(regs),
{
    let f = regs.if_flags;
    if f.rxfl || f.perr || f.ferr || f.rxof {
        regs.ien = Flags { rxfl: false, perr: false, ferr: false, rxof: false, ..regs.ien };
        true
    } else {
        false
    }
}

/// What a TX interrupt does: the TX-related interrupt sources are disabled and the
/// transmitter woken when one of their flags is set.
pub fn on_tx_interrupt(regs: &mut EusartRegs) -> (wake: bool)
    ensures
        wake == (old(regs).if_flags.txfl || old(regs).if_flags.txc),
        wake ==> *final(regs) == (EusartRegs { ien: Flags { txfl: false, txc: false, ..old(regs).ien }, ..*old(regs) }),
        !wake ==> *final(regs) == *old(regs),
{
    let f = regs.if_flags;
    if f.txfl || f.txc {
        regs.ien = Flags { txfl: false, txc: false, ..regs.ien };
        true
    } else {
        false
    }
}

/// Check and clear receive error flags: parity first, then framing, then overflow.
/// The flag reported is written back to IF.
pub fn check_errors(regs: &mut EusartRegs) -> (r: Result<(), Error>)
    ensures
        old(regs).if_flags.perr ==> r == Err::<(), Error>(Error::Parity)
            && *final(regs) == (EusartRegs { if_flags: Flags { perr: true, ..no_flags() }, ..*old(regs) }),
        !old(regs).if_flags.perr && old(regs).if_flags.ferr ==> r == Err::<(), Error>(Error::Framing)
            && *final(regs) == (EusartRegs { if_flags: Flags { ferr: true, ..no_flags() }, ..*old(regs) }),
        !old(regs).if_flags.perr && !old(regs).if_flags.ferr && old(regs).if_flags.rxof ==> r == Err::<(), Error>(Error::Overflow)
            && *final(regs) == (EusartRegs { if_flags: Flags { rxof: true, ..no_flags() }, ..*old(regs) }),
        !old(regs).if_flags.perr && !old(regs).if_flags.ferr && !old(regs).if_flags.rxof ==> r is Ok && *final(regs) == *old(regs),
{
    let f = regs.if_flags;
    let none = Flags { txc: false, txfl: false, rxfl: false, rxof: false, perr: false, ferr: false };
    if f.perr {
        regs.if_flags = Flags { perr: true, ..none };
        return Err(Error::Parity);
    }
    if f.ferr {
        regs.if_flags = Flags { ferr: true, ..none };
        return Err(Error::Framing);
    }
    if f.rxof {
        regs.if_flags = Flags { rxof: true, ..none };
        return Err(Error::Overflow);
    }
    Ok(())
}

/// Interrupt handler for EUSART reception (see [`on_rx_interrupt`]).
pub struct InterruptHandler<T: Instance> {
    /// The instance handled.
    pub instance: PhantomData<T>,
}

/// Interrupt handler for EUSART transmission (see [`on_tx_interrupt`]).
pub struct TxInterruptHandler<T: Instance> {
    /// The instance handled.
    pub instance: PhantomData<T>,
}

/// The EUSART registers after UART configuration with `config` (flow control only
/// when a CTS pin is given): reset, frame format, oversampling and majority vote,
/// enabled, baud rate set, receiver and transmitter enabled.
pub open spec fn spec_uart_configured(regs: EusartRegs, config: Config, has_cts: bool) -> EusartRegs {
    let r = spec_reset(regs);
    EusartRegs {
        framecfg: Framecfg { databits: config.data_bits, parity: config.parity, stopbits: config.stop_bits },
        cfg0: Cfg0 { ovs: config.oversampling, mvdis: config.majority_vote_disable, ..cfg0_reset() },
        cfg1: Cfg1 { ctsen: config.hw_flow_control && has_cts },
        en: true,
        clkdiv: spec_clkdiv(REF_FREQ, config.baudrate, config.oversampling),
        cmd: spec_cmd(true, false, true, false),
        ..r
    }
}

/// The UART baud rate is usable: non-zero and small enough for the divider
/// arithmetic at the 20 MHz reference clock.
pub open spec fn uart_baud_ok(config: Config) -> bool {
    &&& config.baudrate > 0
    &&& 2 <= config.baudrate * config.oversampling.spec_factor() <= u32::MAX
}

/// EUSART driver supporting both TX and RX.
pub struct Eusart<T: Instance> {
    /// Transmitter half.
    pub tx: EusartTx<T>,
    /// Receiver half.
    pub rx: EusartRx<T>,
}

/// Transmitter half of the EUSART driver.
pub struct EusartTx<T: Instance> {
    /// The instance driven.
    pub instance: PhantomData<T>,
}

/// Receiver half of the EUSART driver.
pub struct EusartRx<T: Instance> {
    /// The instance driven.
    pub instance: PhantomData<T>,
}

/// The routing of a UART: RX and TX routed and enabled; RTS routed and enabled and
/// CTS routed when given.
pub open spec fn spec_uart_route(r: EusartRoute, rx: AnyPin, tx: AnyPin, cts: Option<AnyPin>, rts: Option<AnyPin>) -> EusartRoute {
    let r1 = EusartRoute { rx: spec_route(rx), rxpen: true, ..r };
    let r2 = match rts {
        Some(p) => EusartRoute { rts: spec_route(p), rtspen: true, ..r1 },
        None => r1,
    };
    let r3 = EusartRoute { tx: spec_route(tx), txpen: true, ..r2 };
    match cts {
        Some(p) => EusartRoute { cts: spec_route(p), ..r3 },
        None => r3,
    }
}

/// The GPIO registers after the UART pins are configured: RX input; when the
/// instance is routed, RTS push-pull driven high (when given); TX push-pull driven
/// high; when the instance is routed, CTS input (when given).
pub open spec fn spec_uart_pins(g: GpioRegs, rx: AnyPin, tx: AnyPin, cts: Option<AnyPin>, rts: Option<AnyPin>, routed: bool) -> GpioRegs {
    let g1 = spec_gpio_with_mode(g, rx, PortMode::Input);
    let g2 = match rts {
        Some(p) => if routed {
            spec_gpio_with_output(spec_gpio_with_mode(g1, p, PortMode::PushPull), p, true)
        } else {
            g1
        },
        None => g1,
    };
    let g3 = spec_gpio_with_output(spec_gpio_with_mode(g2, tx, PortMode::PushPull), tx, true);
    match cts {
        Some(p) => if routed {
            spec_gpio_with_mode(g3, p, PortMode::Input)
        } else {
            g3
        },
        None => g3,
    }
}

/// Whether a pin can be configured (it exists).
pub open spec fn pin_ok(p: AnyPin) -> bool {
    p.wf()
}

/// Whether an optional pin can be configured.
pub open spec fn opt_pin_ok(p: Option<AnyPin>) -> bool {
    match p {
        Some(q) => pin_ok(q),
        None => true,
    }
}

impl<T: Instance> Eusart<T> {
    /// Create a new EUSART driver without hardware flow control.
    pub fn new(eusart: T, rx: AnyPin, tx: AnyPin, config: Config, gpio: &mut GpioRegs, routes: &mut EusartRoutes, regs: &mut EusartRegs) -> (r: Self)
        requires
            pin_ok(rx),
            pin_ok(tx),
            uart_baud_ok(config),
        ensures
            *final(regs) == spec_uart_configured(*old(regs), config, false),
            *final(gpio) == spec_uart_pins(*old(gpio), rx, tx, None, None, T::spec_index() < 2),
            T::spec_index() < 2 ==> *final(routes) == spec_with_route(
                *old(routes),
                T::spec_index(),
                spec_uart_route(spec_route_of(*old(routes), T::spec_index()), rx, tx, None, None),
            ),
            T::spec_index() >= 2 ==> *final(routes) == *old(routes),
    {
        Self::new_inner(eusart, rx, tx, None, None, config, gpio, routes, regs)
    }

    /// Create a new EUSART driver with hardware flow control (CTS/RTS).
    pub fn new_with_rtscts(
        eusart: T,
        rx: AnyPin,
        tx: AnyPin,
        cts: AnyPin,
        rts: AnyPin,
        config: Config,
        gpio: &mut GpioRegs,
        routes: &mut EusartRoutes,
        regs: &mut EusartRegs,
    ) -> (r: Self)
        requires
            pin_ok(rx),
            pin_ok(tx),
            pin_ok(cts),
            pin_ok(rts),
            uart_baud_ok(config),
        ensures
            *final(regs) == spec_uart_configured(*old(regs), config, true),
            *final(gpio) == spec_uart_pins(*old(gpio), rx, tx, Some(cts), Some(rts), T::spec_index() < 2),
            T::spec_index() < 2 ==> *final(routes) == spec_with_route(
                *old(routes),
                T::spec_index(),
                spec_uart_route(spec_route_of(*old(routes), T::spec_index()), rx, tx, Some(cts), Some(rts)),
            ),
            T::spec_index() >= 2 ==> *final(routes) == *old(routes),
    {
        Self::new_inner(eusart, rx, tx, Some(cts), Some(rts), config, gpio, routes, regs)
    }

    fn new_inner(
        _eusart: T,
        rx: AnyPin,
        tx: AnyPin,
        cts: Option<AnyPin>,
        rts: Option<AnyPin>,
        config: Config,
        gpio: &mut GpioRegs,
        routes: &mut EusartRoutes,
        regs: &mut EusartRegs,
    ) -> (r: Self)
        requires
            pin_ok(rx),
            pin_ok(tx),
            opt_pin_ok(cts),
            opt_pin_ok(rts),
            uart_baud_ok(config),
        ensures
            *final(regs) == spec_uart_configured(*old(regs), config, cts is Some),
            *final(gpio) == spec_uart_pins(*old(gpio), rx, tx, cts, rts, T::spec_index() < 2),
            T::spec_index() < 2 ==> *final(routes) == spec_with_route(
                *old(routes),
                T::spec_index(),
                spec_uart_route(spec_route_of(*old(routes), T::spec_index()), rx, tx, cts, rts),
            ),
            T::spec_index() >= 2 ==> *final(routes) == *old(routes),
    {
        eusart_reset(regs);
        regs.framecfg = Framecfg { databits: config.data_bits, parity: config.parity, stopbits: config.stop_bits };
        regs.cfg0 = Cfg0 { sync: false, msbf: false, ovs: config.oversampling, mvdis: config.majority_vote_disable };
        if config.hw_flow_control && cts.is_some() {
            regs.cfg1 = Cfg1 { ctsen: true };
        }
        regs.en = true;
        proof {
            assert(config.baudrate * config.oversampling.spec_factor() >= 1) by (nonlinear_arith)
                requires config.baudrate >= 1, config.oversampling.spec_factor() >= 1;
            assert((32 * REF_FREQ) / (config.baudrate * config.oversampling.spec_factor()) <= 16 * REF_FREQ) by (nonlinear_arith)
                requires config.baudrate * config.oversampling.spec_factor() >= 2;
        }
        set_baudrate(regs, REF_FREQ, config.baudrate, config.oversampling);
        let index = T::index();
        rx.mode_w(gpio, PortMode::Input);
        if index < 2 {
            let r0 = get_route(routes, index);
            let r1 = EusartRoute { rx: route_of(rx), rxpen: true, ..r0 };
            let r2 = match rts {
                Some(p) => {
                    p.mode_w(gpio, PortMode::PushPull);
                    p.set_high(gpio);
                    EusartRoute { rts: route_of(p), rtspen: true, ..r1 }
                },
                None => r1,
            };
            tx.mode_w(gpio, PortMode::PushPull);
            tx.set_high(gpio);
            let r3 = EusartRoute { tx: route_of(tx), txpen: true, ..r2 };
            let r4 = match cts {
                Some(p) => {
                    p.mode_w(gpio, PortMode::Input);
                    EusartRoute { cts: route_of(p), ..r3 }
                },
                None => r3,
            };
            set_route(routes, index, r4);
        } else {
            tx.mode_w(gpio, PortMode::PushPull);
            tx.set_high(gpio);
        }
        regs.cmd = Cmd { rxen: true, rxdis: false, txen: true, txdis: false };
        Eusart { tx: EusartTx { instance: PhantomData }, rx: EusartRx { instance: PhantomData } }
    }

    /// Split the EUSART into separate TX and RX halves.
    pub fn split(self) -> (r: (EusartTx<T>, EusartRx<T>))
        ensures
            r.0 == self.tx,
            r.1 == self.rx,
    {
        (self.tx, self.rx)
    }

    /// Write bytes, blocking until each is in the TX FIFO.
    pub fn blocking_write(&mut self, data: &[u8], txdata: &mut Vec<u8>) -> (r: Result<(), Error>)
        ensures
            r is Ok,
            final(txdata)@ == old(txdata)@ + data@,
    {
        self.tx.blocking_write(data, txdata)
    }

    /// Read bytes, blocking until the buffer is filled or a receive error is reported.
    pub fn blocking_read<F: Fn(usize) -> Result<u8, Error>>(&mut self, buffer: &mut [u8], receive: F) -> (r: Result<(), Error>)
        requires
            forall|i: usize| call_requires(receive, (i,)),
        ensures
            final(buffer)@.len() == old(buffer)@.len(),
            r is Ok ==> forall|i: int|
                0 <= i < final(buffer)@.len() ==> call_ensures(receive, (i as usize,), Ok::<u8, Error>(#[trigger] final(buffer)@[i])),
            r matches Err(e) ==> exists|k: int|
                0 <= k < old(buffer)@.len() && #[trigger] call_ensures(receive, (k as usize,), Err::<u8, Error>(e))
                    && (forall|j: int| 0 <= j < k ==> call_ensures(receive, (j as usize,), Ok::<u8, Error>(#[trigger] final(buffer)@[j])))
                    && (forall|j: int| k <= j < old(buffer)@.len() ==> #[trigger] final(buffer)@[j] == old(buffer)@[j]),
    {
        self.rx.blocking_read(buffer, receive)
    }

    /// Wait for all data to be transmitted (the caller polls TXC).
    pub fn blocking_flush(&mut self) -> (r: Result<(), Error>)
        ensures
            r is Ok,
    {
        self.tx.blocking_flush()
    }
}

impl<T: Instance> EusartTx<T> {
    /// Write bytes: each is written to TXDATA in turn, here appended to `txdata` (the
    /// caller waits for TXFL before each).
    pub fn blocking_write(&mut self, data: &[u8], txdata: &mut Vec<u8>) -> (r: Result<(), Error>)
        ensures
            r is Ok,
            final(txdata)@ == old(txdata)@ + data@,
    {
        let ghost start = txdata@;
        let mut i: usize = 0;
        while i < data.len()
            invariant
                i <= data@.len(),
                txdata@ == start + data@.subrange(0, i as int),
            decreases data.len() - i,
        {
            txdata.push(data[i]);
            proof {
                assert(data@.subrange(0, i + 1) =~= data@.subrange(0, i as int).push(data@[i as int]));
            }
            i = i + 1;
        }
        proof {
            assert(data@.subrange(0, data@.len() as int) =~= data@);
        }
        Ok(())
    }

    /// Wait for all data to be transmitted (the caller polls TXC).
    pub fn blocking_flush(&mut self) -> (r: Result<(), Error>)
        ensures
            r is Ok,
    {
        Ok(())
    }
}

impl<T: Instance> EusartRx<T> {
    /// Read bytes: `receive` is called for each position in turn (it waits for RXFL,
    /// reporting the first error [`check_errors`] finds meanwhile); the first error it
    /// reports ends the read.
    pub fn blocking_read<F: Fn(usize) -> Result<u8, Error>>(&mut self, buffer: &mut [u8], receive: F) -> (r: Result<(), Error>)
        requires
            forall|i: usize| call_requires(receive, (i,)),
        ensures
            final(buffer)@.len() == old(buffer)@.len(),
            r is Ok ==> forall|i: int|
                0 <= i < final(buffer)@.len() ==> call_ensures(receive, (i as usize,), Ok::<u8, Error>(#[trigger] final(buffer)@[i])),
            r matches Err(e) ==> exists|k: int|
                0 <= k < old(buffer)@.len() && #[trigger] call_ensures(receive, (k as usize,), Err::<u8, Error>(e))
                    && (forall|j: int| 0 <= j < k ==> call_ensures(receive, (j as usize,), Ok::<u8, Error>(#[trigger] final(buffer)@[j])))
                    && (forall|j: int| k <= j < old(buffer)@.len() ==> #[trigger] final(buffer)@[j] == old(buffer)@[j]),
    {
        let ghost len = buffer@.len();
        let mut i: usize = 0;
        while i < buffer.len()
            invariant
                forall|i: usize| call_requires(receive, (i,)),
                buffer@.len() == len,
                i <= len,
                forall|k: int| i <= k < len ==> buffer@[k] == old(buffer)@[k],
                len == old(buffer)@.len(),
                forall|k: int| 0 <= k < i ==> call_ensures(receive, (k as usize,), Ok::<u8, Error>(#[trigger] buffer@[k])),
            decreases buffer.len() - i,
        {
            let got = receive(i);
            match got {
                Ok(b) => {
                    buffer[i] = b;
                },
                Err(e) => {
                    proof {
                        assert(call_ensures(receive, ((i as int) as usize,), Err::<u8, Error>(e)));
                    }
                    return Err(e);
                },
            }
            i = i + 1;
        }
        Ok(())
    }
}

/// One poll of an asynchronous write: ready when TXFL is set, otherwise the TXFL
/// interrupt is enabled to wake the writer.
pub fn poll_tx_ready(regs: &mut EusartRegs, txfl: bool) -> (ready: bool)
    ensures
        ready == txfl,
        ready ==> *final(regs) == *old(regs),
        !ready ==> *final(regs) == (EusartRegs { ien: Flags { txfl: true, ..old(regs).ien }, ..*old(regs) }),
{
    if txfl {
        true
    } else {
        regs.ien = Flags { txfl: true, ..regs.ien };
        false
    }
}

/// One poll of an asynchronous flush: ready when TXC is set, otherwise the TXC
/// interrupt is enabled to wake the writer.
pub fn poll_tx_complete(regs: &mut EusartRegs, txc: bool) -> (ready: bool)
    ensures
        ready == txc,
        ready ==> *final(regs) == *old(regs),
        !ready ==> *final(regs) == (EusartRegs { ien: Flags { txc: true, ..old(regs).ien }, ..*old(regs) }),
{
    if txc {
        true
    } else {
        regs.ien = Flags { txc: true, ..regs.ien };
        false
    }
}

/// One poll of an asynchronous read: ready when an error flag or RXFL is set,
/// otherwise the RX data and error interrupts are enabled to wake the reader.
pub fn poll_rx_ready(regs: &mut EusartRegs, rxfl: bool) -> (ready: bool)
    ensures
        ready == (old(regs).if_flags.perr || old(regs).if_flags.ferr || old(regs).if_flags.rxof || rxfl),
        ready ==> *final(regs) == *old(regs),
        !ready ==> *final(regs) == (EusartRegs {
            ien: Flags { rxfl: true, perr: true, ferr: true, rxof: true, ..old(regs).ien },
            ..*old(regs)
        }),
{
    let f = regs.if_flags;
    if f.perr || f.ferr || f.rxof || rxfl {
        true
    } else {
        regs.ien = Flags { rxfl: true, perr: true, ferr: true, rxof: true, ..regs.ien };
        false
    }
}

/// What dropping one driver half does: the count of live halves drops by one, and
/// the last half disables the EUSART and writes its route-enable register with
/// nothing enabled.
pub fn release_half(live: &mut u8, regs: &mut EusartRegs, routes: &mut EusartRoutes, index: u8)
    requires
        *old(live) > 0,
    ensures
        *final(live) == *old(live) - 1,
        *old(live) == 1 ==> *final(regs) == spec_disabled(*old(regs)),
        *old(live) == 1 ==> *final(routes) == spec_with_route(
            *old(routes),
            index,
            spec_uart_unrouted(spec_route_of(*old(routes), index)),
        ),
        *old(live) != 1 ==> *final(regs) == *old(regs) && *final(routes) == *old(routes),
{
    let was = *live;
    *live = was - 1;
    if was == 1 {
        eusart_disable(regs);
        let r0 = get_route(routes, index);
        set_route(routes, index, EusartRoute { rxpen: false, txpen: false, rtspen: false, sclkpen: false, ..r0 });
    }
}


/// The routing of a EUSART after its pins are released: RX, TX and RTS outputs
/// disabled (SCLK keeps its reset value).
pub open spec fn spec_uart_unrouted(r: EusartRoute) -> EusartRoute {
    EusartRoute { rxpen: false, txpen: false, rtspen: false, sclkpen: false, ..r }
}



/// Configuring a UART starts from a reset, so the result does not depend on what
/// the registers held before.
pub proof fn lemma_uart_configuration_forgets_prior_state(r1: EusartRegs, r2: EusartRegs, config: Config, has_cts: bool)
    ensures
        spec_uart_configured(r1, config, has_cts) == spec_uart_configured(r2, config, has_cts),
{
}

/// The oversampling settings in declaration order, from 16x to none.
pub open spec fn ovs_order() -> Seq<Ovs> {
    seq![
        Ovs::X16,
        Ovs::X8,
        Ovs::X6,
        Ovs::X4,
        Ovs::Disable,
    ]
}

/// Oversampling `XN` samples each bit N times: in declaration order the factors are
/// 16, 8, 6, 4 and 1 (no oversampling), each smaller than the one before, so no two
/// settings share a factor.
pub proof fn lemma_oversampling_factors(s: Ovs)
    ensures
        forall|k: int|
            0 <= k < 5 ==> ((#[trigger] ovs_order()[k]).spec_factor() == seq![16u32, 8u32, 6u32, 4u32, 1u32][k])
                && (forall|j: int| 0 <= j < k ==> ovs_order()[j].spec_factor() > ovs_order()[k].spec_factor()),
        ovs_order().contains(s),
        forall|q: Ovs| #[trigger] q.spec_factor() == s.spec_factor() ==> q == s,
{
    let o = ovs_order();
    assert forall|k: int| 0 <= k < 5 implies (o[k].spec_factor() == seq![16u32, 8u32, 6u32, 4u32, 1u32][k])
        && (forall|j: int| 0 <= j < k ==> ovs_order()[j].spec_factor() > o[k].spec_factor()) by {
        if k == 0 {
            assert(o[0] == Ovs::X16);
        } else if k == 1 {
            assert(o[1] == Ovs::X8);
        } else if k == 2 {
            assert(o[2] == Ovs::X6);
        } else if k == 3 {
            assert(o[3] == Ovs::X4);
        } else if k == 4 {
            assert(o[4] == Ovs::Disable);
        }
    }
    match s {
        Ovs::X16 => assert(o[0] == s),
        Ovs::X8 => assert(o[1] == s),
        Ovs::X6 => assert(o[2] == s),
        Ovs::X4 => assert(o[3] == s),
        Ovs::Disable => assert(o[4] == s),
    }
}

} // verus!
