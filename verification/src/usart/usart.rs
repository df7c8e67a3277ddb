//! Universal Synchronous/Asynchronous Receiver/Transmitter (USART) logic.
//!
//! Configuration is expressed over [`UsartRegs`] (the register fields the driver
//! touches) and [`UsartRoute`] (the GPIO routing registers of USART0). The words
//! written to TXDATA are modelled as a growing `Vec<u8>`; a byte is received by a
//! `receive` function that waits for RXDATAV and reports the first error flag seen
//! meanwhile (see [`check_errors`]). The waits on STATUS are the caller's.
use core::marker::PhantomData;

use vstd::prelude::*;

use crate::gpio::{route_of, spec_gpio_with_mode, spec_gpio_with_output, spec_route, AnyPin, GpioRegs, PortMode, Route};
use crate::peripherals::USART0;

verus! {

/// Reference clock assumed for the baud rate (20 MHz).
pub const REF_FREQ: u32 = 20_000_000;

/// Number of data bits in a frame.
#[derive(Clone, Copy, Debug, PartialEq, Eq)]
pub enum Databits {
    /// 4 data bits.
    Four,
    /// 5 data bits.
    Five,
    /// 6 data bits.
    Six,
    /// 7 data bits.
    Seven,
    /// 8 data bits.
    Eight,
    /// 9 data bits.
    Nine,
    /// 10 data bits.
    Ten,
    /// 11 data bits.
    Eleven,
    /// 12 data bits.
    Twelve,
    /// 13 data bits.
    Thirteen,
    /// 14 data bits.
    Fourteen,
    /// 15 data bits.
    Fifteen,
    /// 16 data bits.
    Sixteen,
}

/// Parity mode.
#[derive(Clone, Copy, Debug, PartialEq, Eq)]
pub enum Parity {
    /// No parity bit.
    NoParity,
    /// Even parity.
    Even,
    /// Odd parity.
    Odd,
}

/// Number of stop bits.
#[derive(Clone, Copy, Debug, PartialEq, Eq)]
pub enum Stopbits {
    /// Half a stop bit.
    Half,
    /// One stop bit.
    One,
    /// One and a half stop bits.
    OneAndHalf,
    /// Two stop bits.
    Two,
}

/// Oversampling rate.
#[derive(Clone, Copy, Debug, PartialEq, Eq)]
pub enum Ovs {
    /// 16x oversampling.
    X16,
    /// 8x oversampling.
    X8,
    /// 6x oversampling.
    X6,
    /// 4x oversampling.
    X4,
}

impl Ovs {
    /// The oversampling factor.
    pub open spec fn spec_factor(self) -> u32 {
        match self {
            Ovs::X16 => 16,
            Ovs::X8 => 8,
            Ovs::X6 => 6,
            Ovs::X4 => 4,
        }
    }

    /// The oversampling factor.
    pub fn factor(self) -> (r: u32)
        ensures
            r == self.spec_factor(),
    {
        match self {
            Ovs::X16 => 16,
            Ovs::X8 => 8,
            Ovs::X6 => 6,
            Ovs::X4 => 4,
        }
    }
}

/// USART configuration.
#[derive(Clone, Copy, Debug, PartialEq, Eq)]
pub struct Config {
    /// Baud rate in bits per second.
    pub baudrate: u32,
    /// Number of data bits.
    pub data_bits: Databits,
    /// Parity mode.
    pub parity: Parity,
    /// Number of stop bits.
    pub stop_bits: Stopbits,
    /// Oversampling rate.
    pub oversampling: Ovs,
    /// Enable hardware flow control (CTS/RTS).
    pub hw_flow_control: bool,
    /// Disable majority voting.
    pub majority_vote_disable: bool,
}

impl Default for Config {
    /// 115200 baud, 8N1, 16x oversampling, no flow control.
    fn default() -> (r: Self)
        ensures
            r == (Config {
                baudrate: 115_200,
                data_bits: Databits::Eight,
                parity: Parity::NoParity,
                stop_bits: Stopbits::One,
                oversampling: Ovs::X16,
                hw_flow_control: false,
                majority_vote_disable: false,
            }),
    {
        Config {
            baudrate: 115_200,
            data_bits: Databits::Eight,
            parity: Parity::NoParity,
            stop_bits: Stopbits::One,
            oversampling: Ovs::X16,
            hw_flow_control: false,
            majority_vote_disable: false,
        }
    }
}

/// USART error types.
#[derive(Debug, Clone, Copy, PartialEq, Eq)]
pub enum Error {
    /// Framing error - stop bit not detected.
    Framing,
    /// Parity error - parity check failed.
    Parity,
    /// RX buffer overflow - data lost.
    Overflow,
}

/// CTRL fields.
#[derive(Clone, Copy, Debug, PartialEq, Eq)]
pub struct Ctrl {
    /// CTRL.OVS
    pub ovs: Ovs,
    /// CTRL.MVDIS
    pub mvdis: bool,
}

/// FRAME fields.
#[derive(Clone, Copy, Debug, PartialEq, Eq)]
pub struct Frame {
    /// FRAME.DATABITS
    pub databits: Databits,
    /// FRAME.PARITY
    pub parity: Parity,
    /// FRAME.STOPBITS
    pub stopbits: Stopbits,
}

/// Interrupt flag bits of IF and IEN.
#[derive(Clone, Copy, Debug, PartialEq, Eq)]
pub struct Flags {
    /// TXC: transmit complete.
    pub txc: bool,
    /// TXBL: TX buffer level.
    pub txbl: bool,
    /// RXDATAV: RX data valid.
    pub rxdatav: bool,
    /// RXOF: RX overflow.
    pub rxof: bool,
    /// PERR: parity error.
    pub perr: bool,
    /// FERR: framing error.
    pub ferr: bool,
}

/// The last value written to CMD.
#[derive(Clone, Copy, Debug, PartialEq, Eq)]
pub struct Cmd {
    /// CMD.RXEN
    pub rxen: bool,
    /// CMD.RXDIS
    pub rxdis: bool,
    /// CMD.TXEN
    pub txen: bool,
    /// CMD.TXDIS
    pub txdis: bool,
    /// CMD.MASTERDIS
    pub masterdis: bool,
    /// CMD.RXBLOCKDIS
    pub rxblockdis: bool,
    /// CMD.TXTRIDIS
    pub txtridis: bool,
    /// CMD.CLEARTX
    pub cleartx: bool,
    /// CMD.CLEARRX
    pub clearrx: bool,
}

/// The USART register fields used by the driver.
#[derive(Clone, Copy, Debug, PartialEq, Eq)]
pub struct UsartRegs {
    /// EN.EN
    pub en: bool,
    /// CTRL
    pub ctrl: Ctrl,
    /// FRAME
    pub frame: Frame,
    /// CTRLX.CTSEN
    pub ctsen: bool,
    /// CLKDIV.DIV
    pub clkdiv: u32,
    /// The remaining configuration registers (TRIGCTRL, TIMING) hold their reset
    /// values.
    pub other_cfg_reset: bool,
    /// IEN
    pub ien: Flags,
    /// IF
    pub if_flags: Flags,
    /// The last CMD write.
    pub cmd: Cmd,
}

/// No flag set.
pub open spec fn no_flags() -> Flags {
    Flags { txc: false, txbl: false, rxdatav: false, rxof: false, perr: false, ferr: false }
}

/// Every flag set.
pub open spec fn all_flags() -> Flags {
    Flags { txc: true, txbl: true, rxdatav: true, rxof: true, perr: true, ferr: true }
}

/// A CMD write with only RX and TX enable/disable commands.
pub open spec fn spec_cmd(rxen: bool, rxdis: bool, txen: bool, txdis: bool) -> Cmd {
    Cmd {
        rxen,
        rxdis,
        txen,
        txdis,
        masterdis: false,
        rxblockdis: false,
        txtridis: false,
        cleartx: false,
        clearrx: false,
    }
}

/// The CMD write of the reset sequence: receiver, transmitter, master mode, RX
/// blocking and TX tristate disabled, both buffers cleared.
pub open spec fn reset_cmd() -> Cmd {
    Cmd {
        rxen: false,
        rxdis: true,
        txen: false,
        txdis: true,
        masterdis: true,
        rxblockdis: true,
        txtridis: true,
        cleartx: true,
        clearrx: true,
    }
}

/// The registers after the disable sequence: when enabled, TX and RX are disabled
/// and the peripheral switched off; a disabled peripheral is left alone.
pub open spec fn spec_disabled(regs: UsartRegs) -> UsartRegs {
    if regs.en {
        UsartRegs { cmd: spec_cmd(false, true, false, true), en: false, ..regs }
    } else {
        regs
    }
}

/// The registers after the reset sequence: every configuration register at its reset
/// value, interrupts disabled, all flags written, and the peripheral disabled.
pub open spec fn spec_reset(regs: UsartRegs) -> UsartRegs {
    UsartRegs {
        en: false,
        cmd: reset_cmd(),
        ctrl: Ctrl { ovs: Ovs::X16, mvdis: false },
        frame: Frame { databits: Databits::Eight, parity: Parity::NoParity, stopbits: Stopbits::One },
        ctsen: false,
        clkdiv: 0,
        other_cfg_reset: true,
        ien: no_flags(),
        if_flags: all_flags(),
    }
}

/// Disable the USART peripheral (the caller waits for TX and RX to report disabled).
pub fn usart_disable(regs: &mut UsartRegs)
    ensures
        *final(regs) == spec_disabled(*old(regs)),
{
    if regs.en {
        regs.cmd = Cmd {
            rxen: false,
            rxdis: true,
            txen: false,
            txdis: true,
            masterdis: false,
            rxblockdis: false,
            txtridis: false,
            cleartx: false,
            clearrx: false,
        };
        regs.en = false;
    }
}

/// Reset the USART to its default state.
pub fn usart_reset(regs: &mut UsartRegs)
    ensures
        *final(regs) == spec_reset(*old(regs)),
{
    regs.en = true;
    regs.cmd = Cmd {
        rxen: false,
        rxdis: true,
        txen: false,
        txdis: true,
        masterdis: true,
        rxblockdis: true,
        txtridis: true,
        cleartx: true,
        clearrx: true,
    };
    regs.ctrl = Ctrl { ovs: Ovs::X16, mvdis: false };
    regs.frame = Frame { databits: Databits::Eight, parity: Parity::NoParity, stopbits: Stopbits::One };
    regs.other_cfg_reset = true;
    regs.clkdiv = 0;
    regs.ien = Flags { txc: false, txbl: false, rxdatav: false, rxof: false, perr: false, ferr: false };
    regs.ctsen = false;
    regs.if_flags = Flags { txc: true, txbl: true, rxdatav: true, rxof: true, perr: true, ferr: true };
    regs.en = false;
}

/// The clock divider for a baud rate, rounded to nearest:
/// `(32 * ref_freq + baudrate * oversample / 2) / (baudrate * oversample)`, minus 32
/// saturating at zero, times 8, masked to the CLKDIV field.
pub open spec fn spec_clkdiv(ref_freq: u32, baudrate: u32, ovs: Ovs) -> u32 {
    let den: int = baudrate * ovs.spec_factor();
    let q: int = (32 * ref_freq + den / 2) / den;
    let d: int = if q >= 32 { (q - 32) * 8 } else { 0 };
    (d as u32) & 0x001F_FFF8
}

/// The divider arithmetic fits in 32 bits.
pub open spec fn baud_ok(ref_freq: u32, baudrate: u32, ovs: Ovs) -> bool {
    let den: int = baudrate * ovs.spec_factor();
    &&& baudrate > 0
    &&& den <= u32::MAX
    &&& 32 * ref_freq + den / 2 <= u32::MAX
    &&& ((32 * ref_freq + den / 2) / den - 32) * 8 <= u32::MAX
}

/// Set oversampling and the clock divider for the desired baud rate.
pub fn set_baudrate(regs: &mut UsartRegs, ref_freq: u32, baudrate: u32, ovs: Ovs)
    requires
        baud_ok(ref_freq, baudrate, ovs),
    ensures
        *final(regs) == (UsartRegs {
            ctrl: Ctrl { ovs, ..old(regs).ctrl },
            clkdiv: spec_clkdiv(ref_freq, baudrate, ovs),
            ..*old(regs)
        }),
{
    let oversample = ovs.factor();
    let den: u32 = baudrate * oversample;
    assert(den >= 4) by (nonlinear_arith)
        requires
            baudrate >= 1,
            oversample >= 4,
            den == baudrate * oversample,
    ;
    let q: u32 = (32 * ref_freq + den / 2) / den;
    assert(q <= 0x4000_0000) by (nonlinear_arith)
        requires
            den >= 4,
            q == (32 * ref_freq + den / 2) as int / den as int,
            32 * ref_freq + den / 2 <= u32::MAX,
    ;
    let d: u32 = if q >= 32 {
        (q - 32) * 8
    } else {
        0
    };
    regs.ctrl = Ctrl { ovs, ..regs.ctrl };
    regs.clkdiv = d & 0x001F_FFF8;
}

/// What an RX interrupt does: the RX-related interrupt sources are disabled and the
/// receiver woken when one of their flags is set.
pub fn on_rx_interrupt(regs: &mut UsartRegs) -> (wake: bool)
    ensures
        wake == (old(regs).if_flags.rxdatav || old(regs).if_flags.perr || old(regs).if_flags.ferr
            || old(regs).if_flags.rxof),
        wake ==> *final(regs) == (UsartRegs {
            ien: Flags { rxdatav: false, perr: false, ferr: false, rxof: false, ..old(regs).ien },
            ..*old(regs)
        }),
        !wake ==> *final(regs) == *old(regs),
{
    let f = regs.if_flags;
    if f.rxdatav || f.perr || f.ferr || f.rxof {
        regs.ien = Flags { rxdatav: false, perr: false, ferr: false, rxof: false, ..regs.ien };
        true
    } else {
        false
    }
}

/// What a TX interrupt does: the TX-related interrupt sources are disabled and the
/// transmitter woken when one of their flags is set.
pub fn on_tx_interrupt(regs: &mut UsartRegs) -> (wake: bool)
    ensures
        wake == (old(regs).if_flags.txbl || old(regs).if_flags.txc),
        wake ==> *final(regs) == (UsartRegs { ien: Flags { txbl: false, txc: false, ..old(regs).ien }, ..*old(regs) }),
        !wake ==> *final(regs) == *old(regs),
{
    let f = regs.if_flags;
    if f.txbl || f.txc {
        regs.ien = Flags { txbl: false, txc: false, ..regs.ien };
        true
    } else {
        false
    }
}

/// The error reported for a set of interrupt flags: parity first, then framing, then
/// overflow; none when no error flag is set.
pub open spec fn spec_error_of(f: Flags) -> Option<Error> {
    if f.perr {
        Some(Error::Parity)
    } else if f.ferr {
        Some(Error::Framing)
    } else if f.rxof {
        Some(Error::Overflow)
    } else {
        None
    }
}

/// The IF write that clears the flag of an error.
pub open spec fn spec_clear_of(e: Error) -> Flags {
    match e {
        Error::Parity => Flags { perr: true, ..no_flags() },
        Error::Framing => Flags { ferr: true, ..no_flags() },
        Error::Overflow => Flags { rxof: true, ..no_flags() },
    }
}

/// Check and clear receive error flags: parity first, then framing, then overflow.
/// The flag reported is written back to IF.
pub fn check_errors(regs: &mut UsartRegs) -> (r: Result<(), Error>)
    ensures
        match spec_error_of(old(regs).if_flags) {
            Some(e) => r == Err::<(), Error>(e) && *final(regs) == (UsartRegs {
                if_flags: spec_clear_of(e),
                ..*old(regs)
            }),
            None => r is Ok && *final(regs) == *old(regs),
        },
{
    let f = regs.if_flags;
    let none = Flags { txc: false, txbl: false, rxdatav: false, rxof: false, perr: false, ferr: false };
    if f.perr {
        regs.if_flags = Flags { perr: true, ..none };
        return Err(Error::Parity);
    }
    if f.ferr {
        regs.if_flags = Flags { ferr: true, ..none };
        return Err(Error::Framing);
    }
    if f.rxof {
        regs.if_flags = Flags { rxof: true, ..none };
        return Err(Error::Overflow);
    }
    Ok(())
}

/// One poll of an asynchronous write: ready when TXBL is set, otherwise the TXBL
/// interrupt is enabled to wake the writer.
pub fn poll_tx_ready(regs: &mut UsartRegs, txbl: bool) -> (ready: bool)
    ensures
        ready == txbl,
        ready ==> *final(regs) == *old(regs),
        !ready ==> *final(regs) == (UsartRegs { ien: Flags { txbl: true, ..old(regs).ien }, ..*old(regs) }),
{
    if txbl {
        true
    } else {
        regs.ien = Flags { txbl: true, ..regs.ien };
        false
    }
}

/// One poll of an asynchronous flush: ready when TXC is set, otherwise the TXC
/// interrupt is enabled to wake the writer.
pub fn poll_tx_complete(regs: &mut UsartRegs, txc: bool) -> (ready: bool)
    ensures
        ready == txc,
        ready ==> *final(regs) == *old(regs),
        !ready ==> *final(regs) == (UsartRegs { ien: Flags { txc: true, ..old(regs).ien }, ..*old(regs) }),
{
    if txc {
        true
    } else {
        regs.ien = Flags { txc: true, ..regs.ien };
        false
    }
}

/// One poll of an asynchronous read: ready when an error flag or RXDATAV is set,
/// otherwise the RX data and error interrupts are enabled to wake the reader.
pub fn poll_rx_ready(regs: &mut UsartRegs, rxdatav: bool) -> (ready: bool)
    ensures
        ready == (spec_error_of(old(regs).if_flags) is Some || rxdatav),
        ready ==> *final(regs) == *old(regs),
        !ready ==> *final(regs) == (UsartRegs {
            ien: Flags { rxdatav: true, perr: true, ferr: true, rxof: true, ..old(regs).ien },
            ..*old(regs)
        }),
{
    let f = regs.if_flags;
    if f.perr || f.ferr || f.rxof || rxdatav {
        true
    } else {
        regs.ien = Flags { rxdatav: true, perr: true, ferr: true, rxof: true, ..regs.ien };
        false
    }
}

/// The GPIO routing registers of USART0.
#[derive(Clone, Copy, Debug, PartialEq, Eq)]
pub struct UsartRoute {
    /// RXROUTE
    pub rx: Route,
    /// TXROUTE
    pub tx: Route,
    /// RTSROUTE
    pub rts: Route,
    /// CTSROUTE
    pub cts: Route,
    /// ROUTEEN.RXPEN
    pub rxpen: bool,
    /// ROUTEEN.TXPEN
    pub txpen: bool,
    /// ROUTEEN.RTSPEN
    pub rtspen: bool,
}

/// USART peripheral instance trait.
pub trait Instance {
    /// The instance number.
    spec fn spec_index() -> u8;

    /// The instance number.
    fn index() -> (r: u8)
        ensures
            r == Self::spec_index(),
    ;
}

impl Instance for USART0 {
    open spec fn spec_index() -> u8 {
        0
    }

    fn index() -> (r: u8) {
        0
    }
}

/// Interrupt handler for USART reception (see [`on_rx_interrupt`]).
pub struct RxInterruptHandler<T: Instance> {
    /// The instance handled.
    pub instance: PhantomData<T>,
}

/// Interrupt handler for USART transmission (see [`on_tx_interrupt`]).
pub struct TxInterruptHandler<T: Instance> {
    /// The instance handled.
    pub instance: PhantomData<T>,
}

/// The USART registers after configuration with `config` (flow control only when a
/// CTS pin is given): reset, enabled, frame format, majority vote, baud rate, and
/// receiver and transmitter enabled.
pub open spec fn spec_configured(regs: UsartRegs, config: Config, has_cts: bool) -> UsartRegs {
    let r = spec_reset(regs);
    UsartRegs {
        en: true,
        frame: Frame { databits: config.data_bits, parity: config.parity, stopbits: config.stop_bits },
        ctrl: Ctrl { ovs: config.oversampling, mvdis: config.majority_vote_disable },
        ctsen: config.hw_flow_control && has_cts,
        clkdiv: spec_clkdiv(REF_FREQ, config.baudrate, config.oversampling),
        cmd: spec_cmd(true, false, true, false),
        ..r
    }
}

/// The routing of USART0 after configuration: RX and TX routed and enabled; RTS
/// routed and enabled and CTS routed when given.
pub open spec fn spec_usart_route(r: UsartRoute, rx: AnyPin, tx: AnyPin, cts: Option<AnyPin>, rts: Option<AnyPin>) -> UsartRoute {
    let r1 = UsartRoute { rx: spec_route(rx), rxpen: true, ..r };
    let r2 = match rts {
        Some(p) => UsartRoute { rts: spec_route(p), rtspen: true, ..r1 },
        None => r1,
    };
    let r3 = UsartRoute { tx: spec_route(tx), txpen: true, ..r2 };
    match cts {
        Some(p) => UsartRoute { cts: spec_route(p), ..r3 },
        None => r3,
    }
}

/// The GPIO registers after the UART pins are configured: RX input; when the
/// instance is routed, RTS push-pull driven high (when given); TX push-pull driven
/// high; when the instance is routed, CTS input (when given).
pub open spec fn spec_uart_pins(g: GpioRegs, rx: AnyPin, tx: AnyPin, cts: Option<AnyPin>, rts: Option<AnyPin>, routed: bool) -> GpioRegs {
    let g1 = spec_gpio_with_mode(g, rx, PortMode::Input);
    let g2 = match rts {
        Some(p) => if routed {
            spec_gpio_with_output(spec_gpio_with_mode(g1, p, PortMode::PushPull), p, true)
        } else {
            g1
        },
        None => g1,
    };
    let g3 = spec_gpio_with_output(spec_gpio_with_mode(g2, tx, PortMode::PushPull), tx, true);
    match cts {
        Some(p) => if routed {
            spec_gpio_with_mode(g3, p, PortMode::Input)
        } else {
            g3
        },
        None => g3,
    }
}

/// Whether a pin can be configured (it exists).
pub open spec fn pin_ok(p: AnyPin) -> bool {
    p.wf()
}

/// USART driver supporting both TX and RX.
pub struct Usart<T: Instance> {
    /// Transmitter half.
    pub tx: UsartTx<T>,
    /// Receiver half.
    pub rx: UsartRx<T>,
}

/// Transmitter half of the USART driver.
pub struct UsartTx<T: Instance> {
    /// The instance driven.
    pub instance: PhantomData<T>,
}

/// Receiver half of the USART driver.
pub struct UsartRx<T: Instance> {
    /// The instance driven.
    pub instance: PhantomData<T>,
}

/// The number of driver halves alive after the two halves are created.
pub const HALVES: u8 = 2;

impl<T: Instance> Usart<T> {
    /// Create a new USART driver without hardware flow control.
    pub fn new(usart: T, rx: AnyPin, tx: AnyPin, config: Config, gpio: &mut GpioRegs, route: &mut UsartRoute, regs: &mut UsartRegs) -> (r: Self)
        requires
            pin_ok(rx),
            pin_ok(tx),
            baud_ok(REF_FREQ, config.baudrate, config.oversampling),
        ensures
            *final(regs) == spec_configured(*old(regs), config, false),
            *final(gpio) == spec_uart_pins(*old(gpio), rx, tx, None, None, T::spec_index() == 0),
            T::spec_index() == 0 ==> *final(route) == spec_usart_route(*old(route), rx, tx, None, None),
            T::spec_index() != 0 ==> *final(route) == *old(route),
    {
        Self::new_inner(usart, rx, tx, None, None, config, gpio, route, regs)
    }

    /// Create a new USART driver with hardware flow control (CTS/RTS).
    pub fn new_with_rtscts(
        usart: T,
        rx: AnyPin,
        tx: AnyPin,
        cts: AnyPin,
        rts: AnyPin,
        config: Config,
        gpio: &mut GpioRegs,
        route: &mut UsartRoute,
        regs: &mut UsartRegs,
    ) -> (r: Self)
        requires
            pin_ok(rx),
            pin_ok(tx),
            pin_ok(cts),
            pin_ok(rts),
            baud_ok(REF_FREQ, config.baudrate, config.oversampling),
        ensures
            *final(regs) == spec_configured(*old(regs), config, true),
            *final(gpio) == spec_uart_pins(*old(gpio), rx, tx, Some(cts), Some(rts), T::spec_index() == 0),
            T::spec_index() == 0 ==> *final(route) == spec_usart_route(*old(route), rx, tx, Some(cts), Some(rts)),
            T::spec_index() != 0 ==> *final(route) == *old(route),
    {
        Self::new_inner(usart, rx, tx, Some(cts), Some(rts), config, gpio, route, regs)
    }

    fn new_inner(
        _usart: T,
        rx: AnyPin,
        tx: AnyPin,
        cts: Option<AnyPin>,
        rts: Option<AnyPin>,
        config: Config,
        gpio: &mut GpioRegs,
        route: &mut UsartRoute,
        regs: &mut UsartRegs,
    ) -> (r: Self)
        requires
            pin_ok(rx),
            pin_ok(tx),
            cts matches Some(p) ==> pin_ok(p),
            rts matches Some(p) ==> pin_ok(p),
            baud_ok(REF_FREQ, config.baudrate, config.oversampling),
        ensures
            *final(regs) == spec_configured(*old(regs), config, cts is Some),
            *final(gpio) == spec_uart_pins(*old(gpio), rx, tx, cts, rts, T::spec_index() == 0),
            T::spec_index() == 0 ==> *final(route) == spec_usart_route(*old(route), rx, tx, cts, rts),
            T::spec_index() != 0 ==> *final(route) == *old(route),
    {
        usart_reset(regs);
        regs.en = true;
        regs.frame = Frame { databits: config.data_bits, parity: config.parity, stopbits: config.stop_bits };
        if config.majority_vote_disable {
            regs.ctrl = Ctrl { mvdis: true, ..regs.ctrl };
        }
        if config.hw_flow_control && cts.is_some() {
            regs.ctsen = true;
        }
        set_baudrate(regs, REF_FREQ, config.baudrate, config.oversampling);
        let index = T::index();
        rx.mode_w(gpio, PortMode::Input);
        if index == 0 {
            let r1 = UsartRoute { rx: route_of(rx), rxpen: true, ..*route };
            let r2 = match rts {
                Some(p) => {
                    p.mode_w(gpio, PortMode::PushPull);
                    p.set_high(gpio);
                    UsartRoute { rts: route_of(p), rtspen: true, ..r1 }
                },
                None => r1,
            };
            *route = r2;
        }
        tx.mode_w(gpio, PortMode::PushPull);
        tx.set_high(gpio);
        if index == 0 {
            let r3 = UsartRoute { tx: route_of(tx), txpen: true, ..*route };
            let r4 = match cts {
                Some(p) => {
                    p.mode_w(gpio, PortMode::Input);
                    UsartRoute { cts: route_of(p), ..r3 }
                },
                None => r3,
            };
            *route = r4;
        }
        regs.cmd = Cmd {
            rxen: true,
            rxdis: false,
            txen: true,
            txdis: false,
            masterdis: false,
            rxblockdis: false,
            txtridis: false,
            cleartx: false,
            clearrx: false,
        };
        Usart { tx: UsartTx { instance: PhantomData }, rx: UsartRx { instance: PhantomData } }
    }

    /// Split the USART into separate TX and RX halves.
    pub fn split(self) -> (r: (UsartTx<T>, UsartRx<T>))
        ensures
            r.0 == self.tx,
            r.1 == self.rx,
    {
        (self.tx, self.rx)
    }

    /// Write bytes, blocking until each is in the transmit buffer.
    pub fn blocking_write(&mut self, data: &[u8], txdata: &mut Vec<u8>) -> (r: Result<(), Error>)
        ensures
            r is Ok,
            final(txdata)@ == old(txdata)@ + data@,
    {
        self.tx.blocking_write(data, txdata)
    }

    /// Read bytes, blocking until the buffer is filled or a receive error is reported.
    pub fn blocking_read<F: Fn(usize) -> Result<u8, Error>>(&mut self, buffer: &mut [u8], receive: F) -> (r: Result<(), Error>)
        requires
            forall|i: usize| call_requires(receive, (i,)),
        ensures
            final(buffer)@.len() == old(buffer)@.len(),
            r is Ok ==> forall|i: int|
                0 <= i < final(buffer)@.len() ==> call_ensures(receive, (i as usize,), Ok::<u8, Error>(#[trigger] final(buffer)@[i])),
            r matches Err(e) ==> exists|k: int|
                0 <= k < old(buffer)@.len() && #[trigger] call_ensures(receive, (k as usize,), Err::<u8, Error>(e))
                    && (forall|j: int| 0 <= j < k ==> call_ensures(receive, (j as usize,), Ok::<u8, Error>(#[trigger] final(buffer)@[j])))
                    && (forall|j: int| k <= j < old(buffer)@.len() ==> #[trigger] final(buffer)@[j] == old(buffer)@[j]),
    {
        self.rx.blocking_read(buffer, receive)
    }

    /// Wait for all data to be transmitted (the caller polls TXC).
    pub fn blocking_flush(&mut self) -> (r: Result<(), Error>)
        ensures
            r is Ok,
    {
        self.tx.blocking_flush()
    }
}

impl<T: Instance> UsartTx<T> {
    /// Write bytes: each is written to TXDATA in turn, here appended to `txdata` (the
    /// caller waits for TXBL before each).
    pub fn blocking_write(&mut self, data: &[u8], txdata: &mut Vec<u8>) -> (r: Result<(), Error>)
        ensures
            r is Ok,
            final(txdata)@ == old(txdata)@ + data@,
    {
        let ghost start = txdata@;
        let mut i: usize = 0;
        while i < data.len()
            invariant
                i <= data@.len(),
                txdata@ == start + data@.subrange(0, i as int),
            decreases data.len() - i,
        {
            txdata.push(data[i]);
            proof {
                assert(data@.subrange(0, i + 1) =~= data@.subrange(0, i as int).push(data@[i as int]));
            }
            i = i + 1;
        }
        proof {
            assert(data@.subrange(0, data@.len() as int) =~= data@);
        }
        Ok(())
    }

    /// Wait for all data to be transmitted (the caller polls TXC).
    pub fn blocking_flush(&mut self) -> (r: Result<(), Error>)
        ensures
            r is Ok,
    {
        Ok(())
    }
}

impl<T: Instance> UsartRx<T> {
    /// Read bytes: `receive` is called for each position in turn; the first error it
    /// reports ends the read.
    pub fn blocking_read<F: Fn(usize) -> Result<u8, Error>>(&mut self, buffer: &mut [u8], receive: F) -> (r: Result<(), Error>)
        requires
            forall|i: usize| call_requires(receive, (i,)),
        ensures
            final(buffer)@.len() == old(buffer)@.len(),
            r is Ok ==> forall|i: int|
                0 <= i < final(buffer)@.len() ==> call_ensures(receive, (i as usize,), Ok::<u8, Error>(#[trigger] final(buffer)@[i])),
            r matches Err(e) ==> exists|k: int|
                0 <= k < old(buffer)@.len() && #[trigger] call_ensures(receive, (k as usize,), Err::<u8, Error>(e))
                    && (forall|j: int| 0 <= j < k ==> call_ensures(receive, (j as usize,), Ok::<u8, Error>(#[trigger] final(buffer)@[j])))
                    && (forall|j: int| k <= j < old(buffer)@.len() ==> #[trigger] final(buffer)@[j] == old(buffer)@[j]),
    {
        let ghost len = buffer@.len();
        let mut i: usize = 0;
        while i < buffer.len()
            invariant
                forall|i: usize| call_requires(receive, (i,)),
                buffer@.len() == len,
                i <= len,
                forall|k: int| i <= k < len ==> buffer@[k] == old(buffer)@[k],
                len == old(buffer)@.len(),
                forall|k: int| 0 <= k < i ==> call_ensures(receive, (k as usize,), Ok::<u8, Error>(#[trigger] buffer@[k])),
            decreases buffer.len() - i,
        {
            let got = receive(i);
            match got {
                Ok(b) => {
                    buffer[i] = b;
                },
                Err(e) => {
                    proof {
                        assert(call_ensures(receive, ((i as int) as usize,), Err::<u8, Error>(e)));
                    }
                    return Err(e);
                },
            }
            i = i + 1;
        }
        Ok(())
    }
}

/// What dropping one driver half does: the count of live halves drops by one, and
/// the last half disables the USART and its routing.
pub fn release_half(live: &mut u8, regs: &mut UsartRegs, route: &mut UsartRoute, index: u8)
    requires
        *old(live) > 0,
    ensures
        *final(live) == *old(live) - 1,
        *old(live) == 1 ==> *final(regs) == spec_disabled(*old(regs)),
        *old(live) == 1 && index == 0 ==> *final(route) == (UsartRoute {
            rxpen: false,
            txpen: false,
            rtspen: false,
            ..*old(route)
        }),
        *old(live) != 1 || index != 0 ==> *final(route) == *old(route),
        *old(live) != 1 ==> *final(regs) == *old(regs),
{
    let was = *live;
    *live = was - 1;
    if was == 1 {
        usart_disable(regs);
        if index == 0 {
            *route = UsartRoute { rxpen: false, txpen: false, rtspen: false, ..*route };
        }
    }
}


/// Configuring the USART starts from a reset, so the result does not depend on what
/// the registers held before.
pub proof fn lemma_configuration_forgets_prior_state(r1: UsartRegs, r2: UsartRegs, config: Config, has_cts: bool)
    ensures
        spec_configured(r1, config, has_cts) == spec_configured(r2, config, has_cts),
{
}

/// The oversampling settings in declaration order, from 16x to 4x.
pub open spec fn ovs_order() -> Seq<Ovs> {
    seq![
        Ovs::X16,
        Ovs::X8,
        Ovs::X6,
        Ovs::X4,
    ]
}

/// Oversampling `XN` samples each bit N times: in declaration order the factors are
/// 16, 8, 6 and 4, each smaller than the one before, so no two settings share a factor.
pub proof fn lemma_oversampling_factors(s: Ovs)
    ensures
        forall|k: int|
            0 <= k < 4 ==> ((#[trigger] ovs_order()[k]).spec_factor() == seq![16u32, 8u32, 6u32, 4u32][k])
                && (forall|j: int| 0 <= j < k ==> ovs_order()[j].spec_factor() > ovs_order()[k].spec_factor()),
        ovs_order().contains(s),
        forall|q: Ovs| #[trigger] q.spec_factor() == s.spec_factor() ==> q == s,
{
    let o = ovs_order();
    assert forall|k: int| 0 <= k < 4 implies (o[k].spec_factor() == seq![16u32, 8u32, 6u32, 4u32][k])
        && (forall|j: int| 0 <= j < k ==> ovs_order()[j].spec_factor() > o[k].spec_factor()) by {
        if k == 0 {
            assert(o[0] == Ovs::X16);
        } else if k == 1 {
            assert(o[1] == Ovs::X8);
        } else if k == 2 {
            assert(o[2] == Ovs::X6);
        } else if k == 3 {
            assert(o[3] == Ovs::X4);
        }
    }
    match s {
        Ovs::X16 => assert(o[0] == s),
        Ovs::X8 => assert(o[1] == s),
        Ovs::X6 => assert(o[2] == s),
        Ovs::X4 => assert(o[3] == s),
    }
}

} // verus!
