//! Inter-Integrated Circuit (I2C) master logic.
//!
//! Configuration is expressed over [`I2cRegs`] and [`I2cRoutes`]. A transaction is
//! the sequence of register writes it performs on the bus, recorded as [`BusOp`]s;
//! what the bus answers comes from `wait`, which polls IF until the flags that end a
//! wait of the given [`Wait`] kind are set and returns them, and from `read`, which
//! reads RXDATA. The decisions taken on each answer are verified here.
use core::marker::PhantomData;

use vstd::array::spec_array_update;
use vstd::prelude::*;

use crate::cmu::{Clken0, CmuRegs};
use crate::gpio::{route_of, spec_gpio_with_mode, spec_gpio_with_output, spec_route, AnyPin, GpioRegs, PortMode, Route};
use crate::peripherals::{I2C0, I2C1};

verus! {

/// Default reference clock (20 MHz), used when the configuration gives 0.
pub const DEFAULT_REF_FREQ: u32 = 20_000_000;

/// Correction factor of the clock divider formula.
pub const I2C_CR_MAX: u32 = 8;

/// I2C clock speed modes.
#[derive(Clone, Copy, Debug, PartialEq, Eq)]
pub enum Speed {
    /// Standard mode (100 kHz)
    Standard,
    /// Fast mode (400 kHz)
    Fast,
    /// Fast mode plus (1 MHz)
    FastPlus,
}

/// Clock low/high ratio (CTRL.CLHR).
#[derive(Clone, Copy, Debug, PartialEq, Eq)]
pub enum Clhr {
    /// 4:4
    Standard,
    /// 6:3
    Asymmetric,
    /// 11:6
    Fast,
}

impl Speed {
    /// The SCL frequency in Hz.
    pub open spec fn spec_frequency(self) -> u32 {
        match self {
            Speed::Standard => 100_000,
            Speed::Fast => 400_000,
            Speed::FastPlus => 1_000_000,
        }
    }

    /// Nlow + Nhigh of the speed's clock ratio.
    pub open spec fn spec_n_sum(self) -> u32 {
        match self {
            Speed::Standard => 8,
            Speed::Fast => 9,
            Speed::FastPlus => 17,
        }
    }

    /// The clock ratio of the speed.
    pub open spec fn spec_clhr(self) -> Clhr {
        match self {
            Speed::Standard => Clhr::Standard,
            Speed::Fast => Clhr::Asymmetric,
            Speed::FastPlus => Clhr::Fast,
        }
    }

    /// Get the frequency in Hz for this speed mode.
    pub fn frequency(&self) -> (r: u32)
        ensures
            r == self.spec_frequency(),
    {
        match self {
            Speed::Standard => 100_000,
            Speed::Fast => 400_000,
            Speed::FastPlus => 1_000_000,
        }
    }

    /// Get the clock low/high ratio for this speed mode.
    pub fn clhr(&self) -> (r: Clhr)
        ensures
            r == self.spec_clhr(),
    {
        match self {
            Speed::Standard => Clhr::Standard,
            Speed::Fast => Clhr::Asymmetric,
            Speed::FastPlus => Clhr::Fast,
        }
    }

    /// Get the Nlow + Nhigh sum for clock division.
    pub fn n_sum(&self) -> (r: u32)
        ensures
            r == self.spec_n_sum(),
    {
        match self {
            Speed::Standard => 8,
            Speed::Fast => 9,
            Speed::FastPlus => 17,
        }
    }
}

impl Default for Speed {
    /// Standard mode.
    fn default() -> (r: Self)
        ensures
            r == Speed::Standard,
    {
        Speed::Standard
    }
}

/// I2C configuration.
#[derive(Clone, Copy, Debug, PartialEq, Eq)]
pub struct Config {
    /// I2C bus speed.
    pub speed: Speed,
    /// Reference clock frequency in Hz; 0 selects the default (20 MHz).
    pub ref_freq: u32,
}

impl Default for Config {
    /// Standard mode, default reference clock.
    fn default() -> (r: Self)
        ensures
            r == (Config { speed: Speed::Standard, ref_freq: 0 }),
    {
        Config { speed: Speed::Standard, ref_freq: 0 }
    }
}

/// I2C error types.
#[derive(Debug, Clone, Copy, PartialEq, Eq)]
pub enum Error {
    /// Bus error - misplaced START/STOP condition.
    Bus,
    /// Arbitration lost - another master took control.
    ArbitrationLoss,
    /// NACK received - device did not acknowledge.
    Nack,
    /// Timeout waiting for operation to complete.
    Timeout,
}

/// The clock divider for a reference clock and speed:
/// `ceil((ref_freq - 8 * f_scl) / (n_sum * f_scl)) - 1`, both subtractions
/// saturating at zero, truncated to the 16-bit field.
pub open spec fn spec_clkdiv(ref_freq: u32, speed: Speed) -> u16 {
    let f: int = speed.spec_frequency() as int;
    let den: int = speed.spec_n_sum() * f;
    let num: int = if ref_freq >= I2C_CR_MAX * f {
        ref_freq - I2C_CR_MAX * f
    } else {
        0
    };
    let c: int = (num + den - 1) / den;
    let d: int = if c >= 1 {
        c - 1
    } else {
        0
    };
    d as u16
}

/// Compute the clock divider for a reference clock and speed.
pub fn clkdiv_for(ref_freq: u32, speed: Speed) -> (r: u16)
    ensures
        r == spec_clkdiv(ref_freq, speed),
{
    let f = speed.frequency();
    let den = speed.n_sum() * f;
    let num: u32 = if ref_freq >= I2C_CR_MAX * f {
        ref_freq - I2C_CR_MAX * f
    } else {
        0
    };
    let q = num / den;
    let c: u32 = if num % den != 0 {
        q + 1
    } else {
        q
    };
    assert(c == (num + den - 1) / den as int) by (nonlinear_arith)
        requires
            den > 0,
            q == num / den,
            c == if num % den != 0 { q + 1 } else { q as int },
    ;
    let d: u32 = if c >= 1 {
        c - 1
    } else {
        0
    };
    d as u16
}

/// The reference clock used for a configuration: the configured one, or 20 MHz for 0.
pub open spec fn spec_ref_freq(config: Config) -> u32 {
    if config.ref_freq == 0 {
        DEFAULT_REF_FREQ
    } else {
        config.ref_freq
    }
}

/// Interrupt flags of IF and IEN that the driver uses.
#[derive(Clone, Copy, Debug, PartialEq, Eq)]
pub struct I2cFlags {
    /// ACK received.
    pub ack: bool,
    /// NACK received.
    pub nack: bool,
    /// Bus error.
    pub buserr: bool,
    /// Arbitration lost.
    pub arblost: bool,
    /// Master STOP condition sent.
    pub mstop: bool,
    /// RX data valid.
    pub rxdatav: bool,
}

/// No flag set.
pub open spec fn no_flags() -> I2cFlags {
    I2cFlags { ack: false, nack: false, buserr: false, arblost: false, mstop: false, rxdatav: false }
}

/// The last CMD write.
#[derive(Clone, Copy, Debug, PartialEq, Eq)]
pub struct I2cCmd {
    /// CMD.CLEARPC
    pub clearpc: bool,
    /// CMD.CLEARTX
    pub cleartx: bool,
    /// CMD.ABORT
    pub abort: bool,
}

/// The I2C register fields used by the driver.
#[derive(Clone, Copy, Debug, PartialEq, Eq)]
pub struct I2cRegs {
    /// EN.EN
    pub en: bool,
    /// CTRL.CLHR
    pub clhr: Clhr,
    /// CLKDIV.DIV
    pub clkdiv: u16,
    /// CTRL, SADDR and SADDRMASK otherwise hold their reset values.
    pub other_cfg_reset: bool,
    /// IEN
    pub ien: I2cFlags,
    /// IF
    pub if_flags: I2cFlags,
    /// The last CMD write.
    pub cmd: I2cCmd,
}

/// The registers after the reset sequence: disabled, pending commands and TX
/// cleared and any transfer aborted, configuration at reset values, interrupts
/// disabled, RX flushed and flags cleared.
pub open spec fn spec_reset(regs: I2cRegs) -> I2cRegs {
    I2cRegs {
        en: false,
        clhr: Clhr::Standard,
        clkdiv: 0,
        other_cfg_reset: true,
        ien: no_flags(),
        if_flags: no_flags(),
        cmd: I2cCmd { clearpc: true, cleartx: true, abort: true },
    }
}

/// Reset the I2C peripheral to its default state (the caller drains RXDATA).
pub fn i2c_reset(regs: &mut I2cRegs)
    ensures
        *final(regs) == spec_reset(*old(regs)),
{
    regs.en = false;
    regs.cmd = I2cCmd { clearpc: true, cleartx: true, abort: true };
    regs.clhr = Clhr::Standard;
    regs.other_cfg_reset = true;
    regs.clkdiv = 0;
    regs.ien = I2cFlags { ack: false, nack: false, buserr: false, arblost: false, mstop: false, rxdatav: false };
    regs.if_flags = I2cFlags { ack: false, nack: false, buserr: false, arblost: false, mstop: false, rxdatav: false };
}

/// Set the bus frequency: the speed's clock ratio and the divider.
pub fn set_bus_freq(regs: &mut I2cRegs, ref_freq: u32, speed: Speed)
    ensures
        *final(regs) == (I2cRegs { clhr: speed.spec_clhr(), clkdiv: spec_clkdiv(ref_freq, speed), ..*old(regs) }),
{
    regs.clhr = speed.clhr();
    regs.clkdiv = clkdiv_for(ref_freq, speed);
}

/// What the I2C interrupt does: every interrupt source is disabled (the task is
/// then woken).
pub fn on_interrupt(regs: &mut I2cRegs)
    ensures
        *final(regs) == (I2cRegs { ien: no_flags(), ..*old(regs) }),
{
    regs.ien = I2cFlags { ack: false, nack: false, buserr: false, arblost: false, mstop: false, rxdatav: false };
}

/// The GPIO routing registers of one I2C controller.
#[derive(Clone, Copy, Debug, PartialEq, Eq)]
pub struct I2cRoute {
    /// SCLROUTE
    pub scl: Route,
    /// SDAROUTE
    pub sda: Route,
    /// ROUTEEN.SCLPEN
    pub sclpen: bool,
    /// ROUTEEN.SDAPEN
    pub sdapen: bool,
}

/// The GPIO routing registers of I2C0 and I2C1.
#[derive(Clone, Copy, Debug, PartialEq, Eq)]
pub struct I2cRoutes {
    /// Routing of I2C0 and I2C1.
    pub i2c: [I2cRoute; 2],
}

/// The routing registers with instance `index` replaced (indices above 1 change
/// nothing).
pub open spec fn spec_with_route(routes: I2cRoutes, index: u8, route: I2cRoute) -> I2cRoutes {
    if index < 2 {
        I2cRoutes { i2c: spec_array_update(routes.i2c, index as int, route) }
    } else {
        routes
    }
}

/// Replace the routing registers of instance `index` (indices above 1 change nothing).
pub fn set_route(routes: &mut I2cRoutes, index: u8, route: I2cRoute)
    ensures
        *final(routes) == spec_with_route(*old(routes), index, route),
{
    if index < 2 {
        let mut e = routes.i2c;
        e[index as usize] = route;
        routes.i2c = e;
        proof {
            assert(routes.i2c =~= spec_array_update(old(routes).i2c, index as int, route));
        }
    }
}

/// I2C peripheral instance trait.
pub trait Instance {
    /// The instance number.
    spec fn spec_index() -> u8;

    /// The instance number.
    fn index() -> (r: u8)
        ensures
            r == Self::spec_index(),
    ;
}

impl Instance for I2C0 {
    open spec fn spec_index() -> u8 {
        0
    }

    fn index() -> (r: u8) {
        0
    }
}

impl Instance for I2C1 {
    open spec fn spec_index() -> u8 {
        1
    }

    fn index() -> (r: u8) {
        1
    }
}

/// Interrupt handler for I2C (see [`on_interrupt`]).
pub struct InterruptHandler<T: Instance> {
    /// The instance handled.
    pub instance: PhantomData<T>,
}

/// The clock gate of an I2C controller switched on (indices above 1 change nothing).
pub open spec fn spec_clock_on(c: Clken0, index: u8) -> Clken0 {
    if index == 0 {
        Clken0 { i2c0: true, ..c }
    } else if index == 1 {
        Clken0 { i2c1: true, ..c }
    } else {
        c
    }
}

/// The configured registers: reset, bus frequency set, enabled.
pub open spec fn spec_configured(regs: I2cRegs, config: Config) -> I2cRegs {
    I2cRegs {
        en: true,
        clhr: config.speed.spec_clhr(),
        clkdiv: spec_clkdiv(spec_ref_freq(config), config.speed),
        ..spec_reset(regs)
    }
}

/// The GPIO registers after the I2C pins are configured: both open-drain with
/// pull-up, driven high.
pub open spec fn spec_i2c_pins(g: GpioRegs, scl: AnyPin, sda: AnyPin) -> GpioRegs {
    let g1 = spec_gpio_with_mode(spec_gpio_with_mode(g, scl, PortMode::WiredAndPullUp), sda, PortMode::WiredAndPullUp);
    spec_gpio_with_output(spec_gpio_with_output(g1, scl, true), sda, true)
}

/// The routing of a configured controller: SCL and SDA routed, the route-enable
/// register written with both enabled.
pub open spec fn spec_i2c_route(scl: AnyPin, sda: AnyPin) -> I2cRoute {
    I2cRoute { scl: spec_route(scl), sda: spec_route(sda), sclpen: true, sdapen: true }
}

/// Whether a pin can be configured (it exists).
pub open spec fn pin_ok(p: AnyPin) -> bool {
    p.wf()
}

/// One register write (or read) performed on the bus during a transaction.
#[derive(Clone, Copy, Debug, PartialEq, Eq)]
pub enum BusOp {
    /// CMD.ABORT
    Abort,
    /// CMD.CLEARPC and CMD.CLEARTX
    ClearPending,
    /// RXDATA drained and the RXDATAV flag cleared.
    FlushRx,
    /// Every IF flag cleared.
    ClearFlags,
    /// TXDATA written with a byte.
    Tx(u8),
    /// CMD.START
    Start,
    /// CMD.STOP
    Stop,
    /// CMD.ACK
    Ack,
    /// CMD.NACK
    Nack,
    /// IF.ACK cleared.
    ClearAck,
    /// IF.MSTOP cleared.
    ClearStop,
    /// RXDATA read.
    Rx,
    /// CMD.ABORT and CMD.STOP in one write.
    AbortStop,
}

/// What a wait polls for.
#[derive(Clone, Copy, Debug, PartialEq, Eq)]
pub enum Wait {
    /// The acknowledge of the byte just sent (ACK, NACK, bus error or arbitration lost).
    Ack,
    /// Received data (RXDATAV, bus error or arbitration lost).
    RxData,
    /// The STOP condition (MSTOP or bus error).
    Stop,
}

/// Whether a set of flags ends a wait of the given kind.
pub open spec fn ends_wait(w: Wait, f: I2cFlags) -> bool {
    match w {
        Wait::Ack => f.buserr || f.arblost || f.nack || f.ack,
        Wait::RxData => f.buserr || f.arblost || f.rxdatav,
        Wait::Stop => f.mstop || f.buserr,
    }
}

/// The result of a wait that ended with flags `f`: bus error, then arbitration loss,
/// then (for an acknowledge) NACK are failures; MSTOP is checked before the bus error
/// when waiting for STOP.
pub open spec fn spec_outcome(w: Wait, f: I2cFlags) -> Result<(), Error> {
    match w {
        Wait::Ack => if f.buserr {
            Err(Error::Bus)
        } else if f.arblost {
            Err(Error::ArbitrationLoss)
        } else if f.nack {
            Err(Error::Nack)
        } else {
            Ok(())
        },
        Wait::RxData => if f.buserr {
            Err(Error::Bus)
        } else if f.arblost {
            Err(Error::ArbitrationLoss)
        } else {
            Ok(())
        },
        Wait::Stop => if f.mstop {
            Ok(())
        } else {
            Err(Error::Bus)
        },
    }
}

/// The writes that follow the end of a wait: clearing ACK after an acknowledge,
/// MSTOP after the STOP condition, nothing after received data; on failure all flags
/// are cleared, and a NACK is answered with STOP.
pub open spec fn spec_after(w: Wait, f: I2cFlags) -> Seq<BusOp> {
    match spec_outcome(w, f) {
        Ok(()) => match w {
            Wait::Ack => seq![BusOp::ClearAck],
            Wait::RxData => Seq::empty(),
            Wait::Stop => seq![BusOp::ClearStop],
        },
        Err(Error::Nack) => seq![BusOp::ClearFlags, BusOp::Stop],
        Err(_) => seq![BusOp::ClearFlags],
    }
}

/// Decide the result of a wait that ended with flags `f`, and record the writes
/// that follow it.
pub fn wait_outcome(w: Wait, f: I2cFlags, ops: &mut Vec<BusOp>) -> (r: Result<(), Error>)
    ensures
        r == spec_outcome(w, f),
        final(ops)@ == old(ops)@ + spec_after(w, f),
{
    let r: Result<(), Error> = match w {
        Wait::Ack => if f.buserr {
            Err(Error::Bus)
        } else if f.arblost {
            Err(Error::ArbitrationLoss)
        } else if f.nack {
            Err(Error::Nack)
        } else {
            Ok(())
        },
        Wait::RxData => if f.buserr {
            Err(Error::Bus)
        } else if f.arblost {
            Err(Error::ArbitrationLoss)
        } else {
            Ok(())
        },
        Wait::Stop => if f.mstop {
            Ok(())
        } else {
            Err(Error::Bus)
        },
    };
    match r {
        Ok(()) => match w {
            Wait::Ack => ops.push(BusOp::ClearAck),
            Wait::RxData => {},
            Wait::Stop => ops.push(BusOp::ClearStop),
        },
        Err(Error::Nack) => {
            ops.push(BusOp::ClearFlags);
            ops.push(BusOp::Stop);
        },
        Err(_) => ops.push(BusOp::ClearFlags),
    }
    proof {
        assert(ops@ =~= old(ops)@ + spec_after(w, f));
    }
    r
}

/// The writes that open a transaction: ABORT when the bus is busy, then clearing
/// pending commands and TX, flushing RX and clearing the flags.
pub open spec fn spec_prelude(busy: bool) -> Seq<BusOp> {
    (if busy {
        seq![BusOp::Abort]
    } else {
        Seq::empty()
    }) + seq![BusOp::ClearPending, BusOp::FlushRx, BusOp::ClearFlags]
}

/// The address byte: the 7-bit address shifted left, with the read bit.
pub open spec fn spec_address_byte(address: u8, read: bool) -> u8 {
    if read {
        ((address << 1u8) | 1u8) as u8
    } else {
        (address << 1u8) as u8
    }
}

/// The address byte: the 7-bit address shifted left, with the read bit.
pub fn address_byte(address: u8, read: bool) -> (r: u8)
    ensures
        r == spec_address_byte(address, read),
{
    if read {
        (address << 1) | 1
    } else {
        address << 1
    }
}

/// The writes of the first `k` data bytes sent, each acknowledged.
pub open spec fn spec_sent(data: Seq<u8>, k: nat) -> Seq<BusOp>
    decreases k,
{
    if k == 0 {
        Seq::empty()
    } else {
        spec_sent(data, (k - 1) as nat) + seq![BusOp::Tx(data[k - 1]), BusOp::ClearAck]
    }
}

/// The writes after data byte `i` of `n` is received: ACK for all but the last
/// byte, and NACK pre-armed after the last-but-one.
pub open spec fn spec_after_byte(i: int, n: int) -> Seq<BusOp> {
    seq![BusOp::Rx] + (if i < n - 1 {
        seq![BusOp::Ack]
    } else {
        Seq::empty()
    }) + (if i == n - 2 {
        seq![BusOp::Nack]
    } else {
        Seq::empty()
    })
}

/// The writes of the first `k` bytes of an `n`-byte read.
pub open spec fn spec_received(k: nat, n: int) -> Seq<BusOp>
    decreases k,
{
    if k == 0 {
        Seq::empty()
    } else {
        spec_received((k - 1) as nat, n) + spec_after_byte(k - 1, n)
    }
}

/// The writes of a read phase of `n` bytes after its address was acknowledged: NACK
/// pre-armed for a single byte, then each byte.
pub open spec fn spec_read_phase(n: int) -> Seq<BusOp> {
    (if n == 1 {
        seq![BusOp::Nack]
    } else {
        Seq::empty()
    }) + spec_received(n as nat, n)
}

/// The writes of a complete write transaction in which every byte is acknowledged.
pub open spec fn spec_write_ops(busy: bool, address: u8, data: Seq<u8>) -> Seq<BusOp> {
    spec_prelude(busy) + seq![BusOp::Tx(spec_address_byte(address, false)), BusOp::Start, BusOp::ClearAck]
        + spec_sent(data, data.len()) + seq![BusOp::Stop, BusOp::ClearStop]
}

/// The writes of a complete read transaction of `n` bytes.
pub open spec fn spec_read_ops(busy: bool, address: u8, n: int) -> Seq<BusOp> {
    spec_prelude(busy) + seq![BusOp::Tx(spec_address_byte(address, true)), BusOp::Start, BusOp::ClearAck]
        + spec_read_phase(n) + seq![BusOp::Stop, BusOp::ClearStop]
}

/// The writes of a complete write-then-read transaction: the write phase, a
/// repeated START with the read address, and the read phase.
pub open spec fn spec_write_read_ops(busy: bool, address: u8, write: Seq<u8>, n: int) -> Seq<BusOp> {
    spec_prelude(busy) + seq![BusOp::Tx(spec_address_byte(address, false)), BusOp::Start, BusOp::ClearAck]
        + spec_sent(write, write.len()) + seq![BusOp::Start, BusOp::Tx(spec_address_byte(address, true)), BusOp::ClearAck]
        + spec_read_phase(n) + seq![BusOp::Stop, BusOp::ClearStop]
}

/// The bus answers every wait: what `wait` returns ends the wait asked for; `read(i)`
/// reads RXDATA for byte `i` of a read phase.
pub open spec fn bus_ok<W: Fn(Wait) -> I2cFlags, R: Fn(usize) -> u8>(wait: W, read: R) -> bool {
    &&& forall|w: Wait| call_requires(wait, (w,))
    &&& forall|i: usize| call_requires(read, (i,))
    &&& forall|w: Wait, f: I2cFlags| call_ensures(wait, (w,), f) ==> ends_wait(w, f)
}

/// I2C driver.
pub struct I2c<T: Instance> {
    /// The instance driven.
    pub instance: PhantomData<T>,
}

impl<T: Instance> I2c<T> {
    /// Create a new I2C driver: clock on, controller reset, bus frequency set, pins
    /// configured and routed, controller enabled.
    pub fn new(
        _i2c: T,
        scl: AnyPin,
        sda: AnyPin,
        config: Config,
        cmu: &mut CmuRegs,
        gpio: &mut GpioRegs,
        routes: &mut I2cRoutes,
        regs: &mut I2cRegs,
    ) -> (r: Self)
        requires
            pin_ok(scl),
            pin_ok(sda),
        ensures
            *final(cmu) == (CmuRegs { clken0: spec_clock_on(old(cmu).clken0, T::spec_index()), ..*old(cmu) }),
            *final(regs) == spec_configured(*old(regs), config),
            *final(gpio) == spec_i2c_pins(*old(gpio), scl, sda),
            *final(routes) == spec_with_route(*old(routes), T::spec_index(), spec_i2c_route(scl, sda)),
    {
        let index = T::index();
        if index == 0 {
            cmu.clken0 = Clken0 { i2c0: true, ..cmu.clken0 };
        } else if index == 1 {
            cmu.clken0 = Clken0 { i2c1: true, ..cmu.clken0 };
        }
        i2c_reset(regs);
        let ref_freq = if config.ref_freq == 0 {
            DEFAULT_REF_FREQ
        } else {
            config.ref_freq
        };
        set_bus_freq(regs, ref_freq, config.speed);
        scl.mode_w(gpio, PortMode::WiredAndPullUp);
        sda.mode_w(gpio, PortMode::WiredAndPullUp);
        scl.set_high(gpio);
        sda.set_high(gpio);
        set_route(routes, index, I2cRoute { scl: route_of(scl), sda: route_of(sda), sclpen: true, sdapen: true });
        regs.en = true;
        I2c { instance: PhantomData }
    }

    /// Tear the driver down: the controller is disabled and the route-enable
    /// register written with nothing enabled.
    pub fn release(self, regs: &mut I2cRegs, routes: &mut I2cRoutes)
        ensures
            *final(regs) == (I2cRegs { en: false, ..*old(regs) }),
            *final(routes) == spec_with_route(
                *old(routes),
                T::spec_index(),
                I2cRoute { sclpen: false, sdapen: false, ..old(routes).i2c[if T::spec_index() < 2 { T::spec_index() as int } else { 0 }] },
            ),
    {
        regs.en = false;
        let index = T::index();
        if index < 2 {
            let r0 = routes.i2c[index as usize];
            set_route(routes, index, I2cRoute { sclpen: false, sdapen: false, ..r0 });
        }
    }

    fn prelude(busy: bool, ops: &mut Vec<BusOp>)
        ensures
            final(ops)@ == old(ops)@ + spec_prelude(busy),
    {
        if busy {
            ops.push(BusOp::Abort);
        }
        ops.push(BusOp::ClearPending);
        ops.push(BusOp::FlushRx);
        ops.push(BusOp::ClearFlags);
        proof {
            assert(ops@ =~= old(ops)@ + spec_prelude(busy));
        }
    }

    /// Send data bytes, each followed by a wait for its acknowledge.
    fn send_bytes<W: Fn(Wait) -> I2cFlags, R: Fn(usize) -> u8>(data: &[u8], wait: &W, read: &R, ops: &mut Vec<BusOp>) -> (r: Result<(), Error>)
        requires
            bus_ok(*wait, *read),
        ensures
            r is Ok ==> final(ops)@ == old(ops)@ + spec_sent(data@, data@.len()),
            r matches Err(e) ==> fails_with(*wait, e, old(ops)@, final(ops)@, spec_sent(data@, data@.len())),
    {
        let ghost start = ops@;
        let mut i: usize = 0;
        while i < data.len()
            invariant
                bus_ok(*wait, *read),
                i <= data@.len(),
                start == old(ops)@,
                ops@ == start + spec_sent(data@, i as nat),
            decreases data.len() - i,
        {
            let b = data[i];
            ops.push(BusOp::Tx(b));
            let ghost mid = ops@;
            let f = wait(Wait::Ack);
            let r = wait_outcome(Wait::Ack, f, ops);
            match r {
                Ok(()) => {},
                Err(e) => {
                    proof {
                        assert(ops@ =~= start + spec_sent(data@, i as nat) + seq![BusOp::Tx(data@[i as int])]
                            + spec_after(Wait::Ack, f));
                        lemma_sent_prefix(data@, (i + 1) as nat, data@.len());
                        let p = spec_sent(data@, i as nat) + seq![BusOp::Tx(data@[i as int])];
                        assert(p.is_prefix_of(spec_sent(data@, (i + 1) as nat))) by {
                            assert(spec_sent(data@, (i + 1) as nat).subrange(0, p.len() as int) =~= p);
                        }
                        assert(ops@ =~= start + p + spec_after(Wait::Ack, f));
                        lemma_fails_with(*wait, e, start, ops@, spec_sent(data@, data@.len()), Wait::Ack, f, p);
                    }
                    return Err(e);
                },
            }
            proof {
                assert(ops@ =~= start + spec_sent(data@, (i + 1) as nat));
            }
            i = i + 1;
        }
        Ok(())
    }

    /// Receive the bytes of a read phase into `buffer`.
    fn receive_bytes<W: Fn(Wait) -> I2cFlags, R: Fn(usize) -> u8>(buffer: &mut [u8], wait: &W, read: &R, ops: &mut Vec<BusOp>) -> (r: Result<(), Error>)
        requires
            bus_ok(*wait, *read),
        ensures
            final(buffer)@.len() == old(buffer)@.len(),
            r is Ok ==> final(ops)@ == old(ops)@ + spec_read_phase(old(buffer)@.len() as int),
            r is Ok ==> forall|i: int| 0 <= i < final(buffer)@.len() ==> call_ensures(*read, (i as usize,), #[trigger] final(buffer)@[i]),
            r matches Err(e) ==> fails_with(*wait, e, old(ops)@, final(ops)@, spec_read_phase(old(buffer)@.len() as int)),
    {
        let n = buffer.len();
        let ghost start = ops@;
        let ghost pre: Seq<BusOp> = if n == 1 {
            seq![BusOp::Nack]
        } else {
            Seq::empty()
        };
        if n == 1 {
            ops.push(BusOp::Nack);
        }
        proof {
            assert(ops@ =~= start + pre + spec_received(0, n as int));
        }
        let mut i: usize = 0;
        while i < n
            invariant
                bus_ok(*wait, *read),
                n == buffer@.len(),
                n == old(buffer)@.len(),
                i <= n,
                start == old(ops)@,
                pre == (if n == 1 { seq![BusOp::Nack] } else { Seq::<BusOp>::empty() }),
                ops@ == start + pre + spec_received(i as nat, n as int),
                forall|k: int| 0 <= k < i ==> call_ensures(*read, (k as usize,), #[trigger] buffer@[k]),
            decreases n - i,
        {
            let f = wait(Wait::RxData);
            let r = wait_outcome(Wait::RxData, f, ops);
            match r {
                Ok(()) => {},
                Err(e) => {
                    proof {
                        lemma_received_prefix(i as nat, n as nat, n as int);
                        let p = pre + spec_received(i as nat, n as int);
                        assert(p.is_prefix_of(spec_read_phase(n as int))) by {
                            assert(spec_received(n as nat, n as int).subrange(
                                0,
                                spec_received(i as nat, n as int).len() as int,
                            ) =~= spec_received(i as nat, n as int));
                            assert(spec_read_phase(n as int).subrange(0, p.len() as int) =~= p);
                        }
                        assert(ops@ =~= start + p + spec_after(Wait::RxData, f));
                        lemma_fails_with(*wait, e, start, ops@, spec_read_phase(n as int), Wait::RxData, f, p);
                    }
                    return Err(e);
                },
            }
            let b = read(i);
            ops.push(BusOp::Rx);
            buffer[i] = b;
            if i < n - 1 {
                ops.push(BusOp::Ack);
                if i == n - 2 {
                    ops.push(BusOp::Nack);
                }
            }
            proof {
                assert(ops@ =~= start + pre + spec_received((i + 1) as nat, n as int));
            }
            i = i + 1;
        }
        proof {
            assert(ops@ =~= old(ops)@ + spec_read_phase(n as int));
        }
        Ok(())
    }

    /// Wait for an event and decide its outcome.
    fn await_event<W: Fn(Wait) -> I2cFlags, R: Fn(usize) -> u8>(kind: Wait, wait: &W, read: &R, ops: &mut Vec<BusOp>) -> (r: Result<(), Error>)
        requires
            bus_ok(*wait, *read),
        ensures
            exists|f: I2cFlags| #![trigger spec_after(kind, f)]
                call_ensures(*wait, (kind,), f) && r == spec_outcome(kind, f) && final(ops)@ == old(ops)@ + spec_after(kind, f),
    {
        let f = wait(kind);
        let r = wait_outcome(kind, f, ops);
        proof {
            assert(call_ensures(*wait, (kind,), f) && r == spec_outcome(kind, f) && ops@ == old(ops)@ + spec_after(kind, f));
        }
        r
    }

    /// Write data to a device (blocking): START with the write address, each byte
    /// acknowledged, then STOP. `busy` is STATE.BUSY when the transaction starts.
    #[verifier::spinoff_prover]
    #[verifier::rlimit(60)]
    pub fn blocking_write<W: Fn(Wait) -> I2cFlags, R: Fn(usize) -> u8>(
        &mut self,
        address: u8,
        data: &[u8],
        busy: bool,
        wait: W,
        read: R,
        ops: &mut Vec<BusOp>,
    ) -> (r: Result<(), Error>)
        requires
            bus_ok(wait, read),
        ensures
            r is Ok ==> final(ops)@ == old(ops)@ + spec_write_ops(busy, address, data@),
            r matches Err(e) ==> fails_with(wait, e, old(ops)@, final(ops)@, spec_write_ops(busy, address, data@)),
    {
        let ghost start = ops@;
        let ghost success = spec_write_ops(busy, address, data@);
        Self::prelude(busy, ops);
        let aw = address_byte(address, false);
        ops.push(BusOp::Tx(aw));
        ops.push(BusOp::Start);
        let ghost a0 = ops@;
        let r1 = Self::await_event(Wait::Ack, &wait, &read, ops);
        if let Err(e) = r1 {
            proof {
                let f = choose|f: I2cFlags| #![trigger spec_after(Wait::Ack, f)]
                    call_ensures(wait, (Wait::Ack,), f) && r1 == spec_outcome(Wait::Ack, f) && ops@ == a0 + spec_after(Wait::Ack, f);
                let p = spec_prelude(busy) + seq![BusOp::Tx(aw), BusOp::Start];
                assert(success.subrange(0, p.len() as int) =~= p);
                assert(ops@ =~= start + p + spec_after(Wait::Ack, f));
                lemma_fails_with(wait, e, start, ops@, success, Wait::Ack, f, p);
            }
            return Err(e);
        }
        let ghost a1 = ops@;
        let r2 = Self::send_bytes(data, &wait, &read, ops);
        if let Err(e) = r2 {
            proof {
                let a = spec_prelude(busy) + seq![BusOp::Tx(aw), BusOp::Start, BusOp::ClearAck];
                assert(a1 =~= start + a);
                lemma_fails_in_context(wait, e, start, a, a1, ops@, spec_sent(data@, data@.len()), seq![BusOp::Stop, BusOp::ClearStop]);
                assert(a + spec_sent(data@, data@.len()) + seq![BusOp::Stop, BusOp::ClearStop] =~= success);
            }
            return Err(e);
        }
        ops.push(BusOp::Stop);
        let ghost a2 = ops@;
        let r3 = Self::await_event(Wait::Stop, &wait, &read, ops);
        if let Err(e) = r3 {
            proof {
                let f = choose|f: I2cFlags| #![trigger spec_after(Wait::Stop, f)]
                    call_ensures(wait, (Wait::Stop,), f) && r3 == spec_outcome(Wait::Stop, f) && ops@ == a2 + spec_after(Wait::Stop, f);
                let p = spec_prelude(busy) + seq![BusOp::Tx(aw), BusOp::Start, BusOp::ClearAck] + spec_sent(data@, data@.len())
                    + seq![BusOp::Stop];
                assert(success.subrange(0, p.len() as int) =~= p);
                assert(ops@ =~= start + p + spec_after(Wait::Stop, f));
                lemma_fails_with(wait, e, start, ops@, success, Wait::Stop, f, p);
            }
            return Err(e);
        }
        proof {
            assert(ops@ =~= start + success);
        }
        Ok(())
    }
}

impl<T: Instance> I2c<T> {
    /// Read data from a device (blocking): START with the read address, the bytes
    /// received with ACK after all but the last (NACK pre-armed before it), then STOP.
    /// An empty buffer performs nothing.
    #[verifier::spinoff_prover]
    #[verifier::rlimit(60)]
    pub fn blocking_read<W: Fn(Wait) -> I2cFlags, R: Fn(usize) -> u8>(
        &mut self,
        address: u8,
        buffer: &mut [u8],
        busy: bool,
        wait: W,
        read: R,
        ops: &mut Vec<BusOp>,
    ) -> (r: Result<(), Error>)
        requires
            bus_ok(wait, read),
        ensures
            final(buffer)@.len() == old(buffer)@.len(),
            old(buffer)@.len() == 0 ==> r is Ok && final(ops)@ == old(ops)@,
            r is Ok && old(buffer)@.len() > 0 ==> final(ops)@ == old(ops)@ + spec_read_ops(busy, address, old(buffer)@.len() as int),
            r is Ok ==> forall|i: int| 0 <= i < final(buffer)@.len() ==> call_ensures(read, (i as usize,), #[trigger] final(buffer)@[i]),
            r matches Err(e) ==> fails_with(wait, e, old(ops)@, final(ops)@, spec_read_ops(busy, address, old(buffer)@.len() as int)),
    {
        if buffer.len() == 0 {
            return Ok(());
        }
        let ghost n = buffer@.len() as int;
        let ghost start = ops@;
        let ghost success = spec_read_ops(busy, address, n);
        Self::prelude(busy, ops);
        let ar = address_byte(address, true);
        ops.push(BusOp::Tx(ar));
        ops.push(BusOp::Start);
        let ghost a0 = ops@;
        let r1 = Self::await_event(Wait::Ack, &wait, &read, ops);
        if let Err(e) = r1 {
            proof {
                let f = choose|f: I2cFlags| #![trigger spec_after(Wait::Ack, f)]
                    call_ensures(wait, (Wait::Ack,), f) && r1 == spec_outcome(Wait::Ack, f) && ops@ == a0 + spec_after(Wait::Ack, f);
                let p = spec_prelude(busy) + seq![BusOp::Tx(ar), BusOp::Start];
                assert(success.subrange(0, p.len() as int) =~= p);
                assert(ops@ =~= start + p + spec_after(Wait::Ack, f));
                lemma_fails_with(wait, e, start, ops@, success, Wait::Ack, f, p);
            }
            return Err(e);
        }
        let ghost a1 = ops@;
        let r2 = Self::receive_bytes(buffer, &wait, &read, ops);
        if let Err(e) = r2 {
            proof {
                let a = spec_prelude(busy) + seq![BusOp::Tx(ar), BusOp::Start, BusOp::ClearAck];
                assert(a1 =~= start + a);
                lemma_fails_in_context(wait, e, start, a, a1, ops@, spec_read_phase(n), seq![BusOp::Stop, BusOp::ClearStop]);
                assert(a + spec_read_phase(n) + seq![BusOp::Stop, BusOp::ClearStop] =~= success);
            }
            return Err(e);
        }
        ops.push(BusOp::Stop);
        let ghost a2 = ops@;
        let r3 = Self::await_event(Wait::Stop, &wait, &read, ops);
        if let Err(e) = r3 {
            proof {
                let f = choose|f: I2cFlags| #![trigger spec_after(Wait::Stop, f)]
                    call_ensures(wait, (Wait::Stop,), f) && r3 == spec_outcome(Wait::Stop, f) && ops@ == a2 + spec_after(Wait::Stop, f);
                let p = spec_prelude(busy) + seq![BusOp::Tx(ar), BusOp::Start, BusOp::ClearAck] + spec_read_phase(n) + seq![BusOp::Stop];
                assert(success.subrange(0, p.len() as int) =~= p);
                assert(ops@ =~= start + p + spec_after(Wait::Stop, f));
                lemma_fails_with(wait, e, start, ops@, success, Wait::Stop, f, p);
            }
            return Err(e);
        }
        proof {
            assert(ops@ =~= start + success);
        }
        Ok(())
    }

    /// Write then read (blocking): START with the write address and the bytes sent,
    /// a repeated START with the read address and the bytes received, then STOP.
    #[verifier::spinoff_prover]
    #[verifier::rlimit(60)]
    pub fn blocking_write_read<W: Fn(Wait) -> I2cFlags, R: Fn(usize) -> u8>(
        &mut self,
        address: u8,
        write: &[u8],
        buffer: &mut [u8],
        busy: bool,
        wait: W,
        read: R,
        ops: &mut Vec<BusOp>,
    ) -> (r: Result<(), Error>)
        requires
            bus_ok(wait, read),
        ensures
            final(buffer)@.len() == old(buffer)@.len(),
            r is Ok ==> final(ops)@ == old(ops)@ + spec_write_read_ops(busy, address, write@, old(buffer)@.len() as int),
            r is Ok ==> forall|i: int| 0 <= i < final(buffer)@.len() ==> call_ensures(read, (i as usize,), #[trigger] final(buffer)@[i]),
            r matches Err(e) ==> fails_with(
                wait,
                e,
                old(ops)@,
                final(ops)@,
                spec_write_read_ops(busy, address, write@, old(buffer)@.len() as int),
            ),
    {
        let ghost n = buffer@.len() as int;
        let ghost start = ops@;
        let ghost success = spec_write_read_ops(busy, address, write@, n);
        Self::prelude(busy, ops);
        let aw = address_byte(address, false);
        ops.push(BusOp::Tx(aw));
        ops.push(BusOp::Start);
        let ghost a0 = ops@;
        let r1 = Self::await_event(Wait::Ack, &wait, &read, ops);
        if let Err(e) = r1 {
            proof {
                let f = choose|f: I2cFlags| #![trigger spec_after(Wait::Ack, f)]
                    call_ensures(wait, (Wait::Ack,), f) && r1 == spec_outcome(Wait::Ack, f) && ops@ == a0 + spec_after(Wait::Ack, f);
                let p = spec_prelude(busy) + seq![BusOp::Tx(aw), BusOp::Start];
                assert(success.subrange(0, p.len() as int) =~= p);
                assert(ops@ =~= start + p + spec_after(Wait::Ack, f));
                lemma_fails_with(wait, e, start, ops@, success, Wait::Ack, f, p);
            }
            return Err(e);
        }
        let ghost a1 = ops@;
        let r2 = Self::send_bytes(write, &wait, &read, ops);
        if let Err(e) = r2 {
            proof {
                let a = spec_prelude(busy) + seq![BusOp::Tx(aw), BusOp::Start, BusOp::ClearAck];
                let rest = seq![BusOp::Start, BusOp::Tx(spec_address_byte(address, true)), BusOp::ClearAck] + spec_read_phase(n)
                    + seq![BusOp::Stop, BusOp::ClearStop];
                assert(a1 =~= start + a);
                lemma_fails_in_context(wait, e, start, a, a1, ops@, spec_sent(write@, write@.len()), rest);
                assert(a + spec_sent(write@, write@.len()) + rest =~= success);
            }
            return Err(e);
        }
        let ar = address_byte(address, true);
        ops.push(BusOp::Start);
        ops.push(BusOp::Tx(ar));
        let ghost a2 = ops@;
        let r3 = Self::await_event(Wait::Ack, &wait, &read, ops);
        if let Err(e) = r3 {
            proof {
                let f = choose|f: I2cFlags| #![trigger spec_after(Wait::Ack, f)]
                    call_ensures(wait, (Wait::Ack,), f) && r3 == spec_outcome(Wait::Ack, f) && ops@ == a2 + spec_after(Wait::Ack, f);
                let p = spec_prelude(busy) + seq![BusOp::Tx(aw), BusOp::Start, BusOp::ClearAck] + spec_sent(write@, write@.len())
                    + seq![BusOp::Start, BusOp::Tx(ar)];
                assert(success.subrange(0, p.len() as int) =~= p);
                assert(ops@ =~= start + p + spec_after(Wait::Ack, f));
                lemma_fails_with(wait, e, start, ops@, success, Wait::Ack, f, p);
            }
            return Err(e);
        }
        let ghost a3 = ops@;
        let r4 = Self::receive_bytes(buffer, &wait, &read, ops);
        if let Err(e) = r4 {
            proof {
                let a = spec_prelude(busy) + seq![BusOp::Tx(aw), BusOp::Start, BusOp::ClearAck] + spec_sent(write@, write@.len())
                    + seq![BusOp::Start, BusOp::Tx(ar), BusOp::ClearAck];
                assert(a3 =~= start + a);
                lemma_fails_in_context(wait, e, start, a, a3, ops@, spec_read_phase(n), seq![BusOp::Stop, BusOp::ClearStop]);
                assert(a + spec_read_phase(n) + seq![BusOp::Stop, BusOp::ClearStop] =~= success);
            }
            return Err(e);
        }
        ops.push(BusOp::Stop);
        let ghost a4 = ops@;
        let r5 = Self::await_event(Wait::Stop, &wait, &read, ops);
        if let Err(e) = r5 {
            proof {
                let f = choose|f: I2cFlags| #![trigger spec_after(Wait::Stop, f)]
                    call_ensures(wait, (Wait::Stop,), f) && r5 == spec_outcome(Wait::Stop, f) && ops@ == a4 + spec_after(Wait::Stop, f);
                let p = spec_prelude(busy) + seq![BusOp::Tx(aw), BusOp::Start, BusOp::ClearAck] + spec_sent(write@, write@.len())
                    + seq![BusOp::Start, BusOp::Tx(ar), BusOp::ClearAck] + spec_read_phase(n) + seq![BusOp::Stop];
                assert(success.subrange(0, p.len() as int) =~= p);
                assert(ops@ =~= start + p + spec_after(Wait::Stop, f));
                lemma_fails_with(wait, e, start, ops@, success, Wait::Stop, f, p);
            }
            return Err(e);
        }
        proof {
            assert(ops@ =~= start + success);
        }
        Ok(())
    }
}

/// The answer of one poll of an asynchronous wait.
#[derive(Clone, Copy, Debug, PartialEq, Eq)]
pub enum PollOutcome {
    /// The wait is over with this result.
    Ready(Result<(), Error>),
    /// Not yet: the interrupts that end the wait were enabled.
    Pending,
}

/// One poll of an asynchronous acknowledge wait, given the IF flags and
/// STATE.NACKED: errors as for the blocking wait (a NACK is answered with STOP, the
/// caller then waits for the bus to be released, and the flags are cleared); ACK
/// cleared on success; otherwise the ACK, NACK, bus error and arbitration interrupts
/// are enabled.
pub fn poll_ack(f: I2cFlags, nacked: bool, regs: &mut I2cRegs, ops: &mut Vec<BusOp>) -> (r: PollOutcome)
    ensures
        f.buserr ==> r == PollOutcome::Ready(Err(Error::Bus)) && final(ops)@ == old(ops)@.push(BusOp::ClearFlags),
        !f.buserr && f.arblost ==> r == PollOutcome::Ready(Err(Error::ArbitrationLoss)) && final(ops)@ == old(ops)@.push(
            BusOp::ClearFlags,
        ),
        !f.buserr && !f.arblost && (f.nack || nacked) ==> r == PollOutcome::Ready(Err(Error::Nack)) && final(ops)@
            == old(ops)@ + seq![BusOp::Stop, BusOp::ClearFlags],
        !f.buserr && !f.arblost && !f.nack && !nacked && f.ack ==> r == PollOutcome::Ready(Ok(())) && final(ops)@
            == old(ops)@.push(BusOp::ClearAck),
        r is Ready ==> *final(regs) == *old(regs),
        !f.buserr && !f.arblost && !f.nack && !nacked && !f.ack ==> r == PollOutcome::Pending && final(ops)@ == old(ops)@
            && *final(regs) == (I2cRegs { ien: I2cFlags { ack: true, nack: true, buserr: true, arblost: true, ..no_flags() }, ..*old(regs) }),
{
    if f.buserr {
        ops.push(BusOp::ClearFlags);
        return PollOutcome::Ready(Err(Error::Bus));
    }
    if f.arblost {
        ops.push(BusOp::ClearFlags);
        return PollOutcome::Ready(Err(Error::ArbitrationLoss));
    }
    if f.nack || nacked {
        ops.push(BusOp::Stop);
        ops.push(BusOp::ClearFlags);
        proof {
            assert(ops@ =~= old(ops)@ + seq![BusOp::Stop, BusOp::ClearFlags]);
        }
        return PollOutcome::Ready(Err(Error::Nack));
    }
    if f.ack {
        ops.push(BusOp::ClearAck);
        return PollOutcome::Ready(Ok(()));
    }
    regs.ien = I2cFlags { ack: true, nack: true, buserr: true, arblost: true, mstop: false, rxdatav: false };
    PollOutcome::Pending
}

/// One poll of an asynchronous receive wait, given the IF flags, STATE.NACKED,
/// STATE.BUSY, STATE.MASTER and STATUS.RXDATAV: bus error, arbitration loss and NACK
/// fail as for an acknowledge wait; a bus that is neither busy nor mastered means the
/// transfer was aborted (bus error); data ends the wait; otherwise the RX data, bus
/// error and arbitration interrupts are enabled.
pub fn poll_rxdata(
    f: I2cFlags,
    nacked: bool,
    busy: bool,
    master: bool,
    rxdatav: bool,
    regs: &mut I2cRegs,
    ops: &mut Vec<BusOp>,
) -> (r: PollOutcome)
    ensures
        f.buserr ==> r == PollOutcome::Ready(Err(Error::Bus)) && final(ops)@ == old(ops)@.push(BusOp::ClearFlags),
        !f.buserr && f.arblost ==> r == PollOutcome::Ready(Err(Error::ArbitrationLoss)) && final(ops)@ == old(ops)@.push(
            BusOp::ClearFlags,
        ),
        !f.buserr && !f.arblost && nacked ==> r == PollOutcome::Ready(Err(Error::Nack)) && final(ops)@ == old(ops)@
            + seq![BusOp::Stop, BusOp::ClearFlags],
        !f.buserr && !f.arblost && !nacked && !busy && !master ==> r == PollOutcome::Ready(Err(Error::Bus)) && final(ops)@
            == old(ops)@.push(BusOp::ClearFlags),
        !f.buserr && !f.arblost && !nacked && (busy || master) && rxdatav ==> r == PollOutcome::Ready(Ok(()))
            && final(ops)@ == old(ops)@,
        r is Ready ==> *final(regs) == *old(regs),
        !f.buserr && !f.arblost && !nacked && (busy || master) && !rxdatav ==> r == PollOutcome::Pending && final(ops)@
            == old(ops)@ && *final(regs) == (I2cRegs { ien: I2cFlags { rxdatav: true, buserr: true, arblost: true, ..no_flags() }, ..*old(regs) }),
{
    if f.buserr {
        ops.push(BusOp::ClearFlags);
        return PollOutcome::Ready(Err(Error::Bus));
    }
    if f.arblost {
        ops.push(BusOp::ClearFlags);
        return PollOutcome::Ready(Err(Error::ArbitrationLoss));
    }
    if nacked {
        ops.push(BusOp::Stop);
        ops.push(BusOp::ClearFlags);
        proof {
            assert(ops@ =~= old(ops)@ + seq![BusOp::Stop, BusOp::ClearFlags]);
        }
        return PollOutcome::Ready(Err(Error::Nack));
    }
    if !busy && !master {
        ops.push(BusOp::ClearFlags);
        return PollOutcome::Ready(Err(Error::Bus));
    }
    if rxdatav {
        return PollOutcome::Ready(Ok(()));
    }
    regs.ien = I2cFlags { ack: false, nack: false, buserr: true, arblost: true, mstop: false, rxdatav: true };
    PollOutcome::Pending
}

/// One poll of an asynchronous STOP wait: MSTOP ends it (and is cleared), a bus
/// error fails it (flags cleared); otherwise the MSTOP and bus error interrupts are
/// enabled.
pub fn poll_stop(f: I2cFlags, regs: &mut I2cRegs, ops: &mut Vec<BusOp>) -> (r: PollOutcome)
    ensures
        f.mstop ==> r == PollOutcome::Ready(Ok(())) && final(ops)@ == old(ops)@.push(BusOp::ClearStop),
        !f.mstop && f.buserr ==> r == PollOutcome::Ready(Err(Error::Bus)) && final(ops)@ == old(ops)@.push(BusOp::ClearFlags),
        r is Ready ==> *final(regs) == *old(regs),
        !f.mstop && !f.buserr ==> r == PollOutcome::Pending && final(ops)@ == old(ops)@ && *final(regs) == (I2cRegs {
            ien: I2cFlags { mstop: true, buserr: true, ..no_flags() },
            ..*old(regs)
        }),
{
    if f.mstop {
        ops.push(BusOp::ClearStop);
        return PollOutcome::Ready(Ok(()));
    }
    if f.buserr {
        ops.push(BusOp::ClearFlags);
        return PollOutcome::Ready(Err(Error::Bus));
    }
    regs.ien = I2cFlags { ack: false, nack: false, buserr: true, arblost: false, mstop: true, rxdatav: false };
    PollOutcome::Pending
}

/// The opening of an asynchronous write-then-read: interrupts disabled, a busy or
/// NACKed bus aborted with STOP (the caller then waits for it to become idle), then
/// the usual clearing writes.
pub fn recovery_prelude(busy: bool, nacked: bool, regs: &mut I2cRegs, ops: &mut Vec<BusOp>)
    ensures
        *final(regs) == (I2cRegs { ien: no_flags(), ..*old(regs) }),
        final(ops)@ == old(ops)@ + (if busy || nacked {
            seq![BusOp::AbortStop]
        } else {
            Seq::empty()
        }) + seq![BusOp::ClearPending, BusOp::FlushRx, BusOp::ClearFlags],
{
    regs.ien = I2cFlags { ack: false, nack: false, buserr: false, arblost: false, mstop: false, rxdatav: false };
    if busy || nacked {
        ops.push(BusOp::AbortStop);
    }
    ops.push(BusOp::ClearPending);
    ops.push(BusOp::FlushRx);
    ops.push(BusOp::ClearFlags);
    proof {
        assert(ops@ =~= old(ops)@ + (if busy || nacked {
            seq![BusOp::AbortStop]
        } else {
            Seq::empty()
        }) + seq![BusOp::ClearPending, BusOp::FlushRx, BusOp::ClearFlags]);
    }
}

/// The kind of one operation of a multi-operation transaction.
#[derive(Clone, Copy, Debug, PartialEq, Eq, Structural)]
pub enum OpKind {
    /// Read into a buffer.
    Read,
    /// Write a buffer.
    Write,
}

/// How a multi-operation transaction is carried out.
#[derive(Clone, Copy, Debug, PartialEq, Eq)]
pub enum TransactionPlan {
    /// No operation: nothing is done.
    Empty,
    /// One operation as one transaction.
    Single(OpKind),
    /// A write followed by a read, with a repeated START.
    WriteRead,
    /// Each operation as a transaction of its own, in turn, stopping at the first
    /// error.
    EachInTurn,
}

/// Choose how to carry out a transaction made of operations of the given kinds.
pub fn plan_transaction(kinds: &[OpKind]) -> (r: TransactionPlan)
    ensures
        kinds@.len() == 0 ==> r == TransactionPlan::Empty,
        kinds@.len() == 1 ==> r == TransactionPlan::Single(kinds@[0]),
        kinds@.len() == 2 && kinds@[0] == OpKind::Write && kinds@[1] == OpKind::Read ==> r == TransactionPlan::WriteRead,
        kinds@.len() == 2 && !(kinds@[0] == OpKind::Write && kinds@[1] == OpKind::Read) ==> r == TransactionPlan::EachInTurn,
        kinds@.len() > 2 ==> r == TransactionPlan::EachInTurn,
{
    if kinds.len() == 0 {
        TransactionPlan::Empty
    } else if kinds.len() == 1 {
        TransactionPlan::Single(kinds[0])
    } else if kinds.len() == 2 && kinds[0] == OpKind::Write && kinds[1] == OpKind::Read {
        TransactionPlan::WriteRead
    } else {
        TransactionPlan::EachInTurn
    }
}

/// A transaction failed with `e`: some wait ended with flags whose outcome is `e`,
/// and the writes performed are a prefix of those of the successful transaction
/// followed by the writes that answer the failure.
pub open spec fn fails_with<W: Fn(Wait) -> I2cFlags>(wait: W, e: Error, before: Seq<BusOp>, after: Seq<BusOp>, success: Seq<BusOp>) -> bool {
    exists|w: Wait, f: I2cFlags, p: Seq<BusOp>|
        #![trigger call_ensures(wait, (w,), f), p.is_prefix_of(success)]
        call_ensures(wait, (w,), f) && spec_outcome(w, f) == Err::<(), Error>(e) && p.is_prefix_of(success)
            && after == before + p + spec_after(w, f)
}

proof fn lemma_fails_with<W: Fn(Wait) -> I2cFlags>(
    wait: W,
    e: Error,
    before: Seq<BusOp>,
    after: Seq<BusOp>,
    success: Seq<BusOp>,
    w: Wait,
    f: I2cFlags,
    p: Seq<BusOp>,
)
    requires
        call_ensures(wait, (w,), f),
        spec_outcome(w, f) == Err::<(), Error>(e),
        p.is_prefix_of(success),
        after == before + p + spec_after(w, f),
    ensures
        fails_with(wait, e, before, after, success),
{
}

proof fn lemma_fails_in_context<W: Fn(Wait) -> I2cFlags>(
    wait: W,
    e: Error,
    start: Seq<BusOp>,
    a: Seq<BusOp>,
    mid: Seq<BusOp>,
    after: Seq<BusOp>,
    phase: Seq<BusOp>,
    rest: Seq<BusOp>,
)
    requires
        mid == start + a,
        fails_with(wait, e, mid, after, phase),
    ensures
        fails_with(wait, e, start, after, a + phase + rest),
{
    let (w, f, p) = choose|w: Wait, f: I2cFlags, p: Seq<BusOp>|
        #![trigger call_ensures(wait, (w,), f), p.is_prefix_of(phase)]
        call_ensures(wait, (w,), f) && spec_outcome(w, f) == Err::<(), Error>(e) && p.is_prefix_of(phase)
            && after == mid + p + spec_after(w, f);
    let q = a + p;
    assert((a + phase + rest).subrange(0, q.len() as int) =~= q) by {
        assert(phase.subrange(0, p.len() as int) =~= p);
    }
    assert(after =~= start + q + spec_after(w, f));
    lemma_fails_with(wait, e, start, after, a + phase + rest, w, f, q);
}

/// The writes of the first `k` bytes sent begin those of the first `n`.
proof fn lemma_sent_prefix(data: Seq<u8>, k: nat, n: nat)
    requires
        k <= n,
    ensures
        spec_sent(data, k).is_prefix_of(spec_sent(data, n)),
        spec_sent(data, n).len() == 2 * n,
    decreases n,
{
    if n > 0 {
        lemma_sent_prefix(data, if k == n { (n - 1) as nat } else { k }, (n - 1) as nat);
        if k < n {
            assert(spec_sent(data, n).subrange(0, spec_sent(data, k).len() as int) =~= spec_sent(data, (n - 1) as nat).subrange(
                0,
                spec_sent(data, k).len() as int,
            ));
        }
    }
}

/// The writes of the first `k` bytes received begin those of the first `m`.
proof fn lemma_received_prefix(k: nat, m: nat, n: int)
    requires
        k <= m,
    ensures
        spec_received(k, n).is_prefix_of(spec_received(m, n)),
    decreases m,
{
    if m > 0 && k < m {
        lemma_received_prefix(k, (m - 1) as nat, n);
        assert(spec_received(m, n).subrange(0, spec_received(k, n).len() as int) =~= spec_received((m - 1) as nat, n).subrange(
            0,
            spec_received(k, n).len() as int,
        ));
    }
}


/// Configuring the controller starts from a reset, so the result does not depend
/// on what the registers held before.
pub proof fn lemma_configuration_forgets_prior_state(r1: I2cRegs, r2: I2cRegs, config: Config)
    ensures
        spec_configured(r1, config) == spec_configured(r2, config),
{
}

/// The bus speeds in declaration order.
pub open spec fn speed_order() -> Seq<Speed> {
    seq![
        Speed::Standard,
        Speed::Fast,
        Speed::FastPlus,
    ]
}

/// Each bus speed runs at its documented SCL frequency with its clock ratio: in
/// declaration order 100 kHz with 4:4 (Nlow + Nhigh = 8), 400 kHz with 6:3 (9) and
/// 1 MHz with 11:6 (17); the frequencies rise and no two speeds share one.
pub proof fn lemma_speed_parameters(s: Speed)
    ensures
        forall|k: int|
            0 <= k < 3 ==> ((#[trigger] speed_order()[k]).spec_frequency() == seq![100_000u32, 400_000u32, 1_000_000u32][k])
                && (speed_order()[k].spec_n_sum() == seq![8u32, 9u32, 17u32][k])
                && (speed_order()[k].spec_clhr() == seq![Clhr::Standard, Clhr::Asymmetric, Clhr::Fast][k]),
        speed_order().contains(s),
        forall|q: Speed| #[trigger] q.spec_frequency() == s.spec_frequency() ==> q == s,
{
    let o = speed_order();
    assert forall|k: int| 0 <= k < 3 implies (o[k].spec_frequency() == seq![100_000u32, 400_000u32, 1_000_000u32][k])
        && (o[k].spec_n_sum() == seq![8u32, 9u32, 17u32][k])
        && (o[k].spec_clhr() == seq![Clhr::Standard, Clhr::Asymmetric, Clhr::Fast][k]) by {
        if k == 0 {
            assert(o[0] == Speed::Standard);
        } else if k == 1 {
            assert(o[1] == Speed::Fast);
        } else if k == 2 {
            assert(o[2] == Speed::FastPlus);
        }
    }
    match s {
        Speed::Standard => assert(o[0] == s),
        Speed::Fast => assert(o[1] == s),
        Speed::FastPlus => assert(o[2] == s),
    }
}

} // verus!
