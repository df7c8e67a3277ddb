//! Serial Peripheral Interface (SPI) master logic over a EUSART in synchronous mode.
//!
//! Configuration is expressed over the EUSART register model. Bytes written are
//! appended to a `Vec<u8>` standing for TXDATA; the full-duplex transfers take
//! `exchange`, a function that shifts one byte out and returns the byte shifted in at
//! the same time (the FIFO polling it performs is the caller's).
use core::marker::PhantomData;

use vstd::prelude::*;

use crate::gpio::{route_of, spec_gpio_with_mode, spec_route, AnyPin, GpioRegs, PortMode};
use crate::peripherals::{EUSART0, EUSART1};
use crate::usart::eusart::{
    cfg0_reset, eusart_disable, eusart_reset, framecfg_reset, get_route, set_route, spec_cmd, spec_disabled,
    spec_reset, spec_route_of, spec_with_route, Cfg0, Cfg2, Clkpha, Clkpol, Cmd, Databits, EusartRegs, EusartRoute,
    EusartRoutes, Framecfg, Ovs, Parity, Stopbits,
};

verus! {

/// Reference clock assumed for the SPI bit rate (20 MHz).
pub const REF_FREQ: u32 = 20_000_000;

/// SPI clock mode combining polarity and phase.
#[derive(Clone, Copy, Debug, PartialEq, Eq)]
pub enum ClockMode {
    /// Clock idle low, sample on rising edge (CPOL=0, CPHA=0)
    Mode0,
    /// Clock idle low, sample on falling edge (CPOL=0, CPHA=1)
    Mode1,
    /// Clock idle high, sample on falling edge (CPOL=1, CPHA=0)
    Mode2,
    /// Clock idle high, sample on rising edge (CPOL=1, CPHA=1)
    Mode3,
}

impl ClockMode {
    /// The clock polarity of a mode: idle high for modes 2 and 3.
    pub open spec fn spec_polarity(self) -> Clkpol {
        match self {
            ClockMode::Mode0 | ClockMode::Mode1 => Clkpol::IdleLow,
            ClockMode::Mode2 | ClockMode::Mode3 => Clkpol::IdleHigh,
        }
    }

    /// The clock phase of a mode: sample on the trailing edge for modes 1 and 3.
    pub open spec fn spec_phase(self) -> Clkpha {
        match self {
            ClockMode::Mode0 | ClockMode::Mode2 => Clkpha::SampleLeading,
            ClockMode::Mode1 | ClockMode::Mode3 => Clkpha::SampleTrailing,
        }
    }

    /// Get the clock polarity for this mode.
    pub fn polarity(&self) -> (r: Clkpol)
        ensures
            r == self.spec_polarity(),
    {
        match self {
            ClockMode::Mode0 | ClockMode::Mode1 => Clkpol::IdleLow,
            ClockMode::Mode2 | ClockMode::Mode3 => Clkpol::IdleHigh,
        }
    }

    /// Get the clock phase for this mode.
    pub fn phase(&self) -> (r: Clkpha)
        ensures
            r == self.spec_phase(),
    {
        match self {
            ClockMode::Mode0 | ClockMode::Mode2 => Clkpha::SampleLeading,
            ClockMode::Mode1 | ClockMode::Mode3 => Clkpha::SampleTrailing,
        }
    }

    /// The mode of a (polarity idle-high, phase capture-on-second-edge) pair.
    pub fn from_polarity_phase(idle_high: bool, second_edge: bool) -> (r: ClockMode)
        ensures
            r.spec_polarity() == (if idle_high { Clkpol::IdleHigh } else { Clkpol::IdleLow }),
            r.spec_phase() == (if second_edge { Clkpha::SampleTrailing } else { Clkpha::SampleLeading }),
    {
        match (idle_high, second_edge) {
            (false, false) => ClockMode::Mode0,
            (false, true) => ClockMode::Mode1,
            (true, false) => ClockMode::Mode2,
            (true, true) => ClockMode::Mode3,
        }
    }
}

impl Default for ClockMode {
    /// Mode 0.
    fn default() -> (r: Self)
        ensures
            r == ClockMode::Mode0,
    {
        ClockMode::Mode0
    }
}

/// SPI configuration.
#[derive(Clone, Copy, Debug, PartialEq, Eq)]
pub struct Config {
    /// Bit rate in bits per second.
    pub bitrate: u32,
    /// SPI clock mode (polarity and phase).
    pub clock_mode: ClockMode,
    /// Send MSB first if true, LSB first if false.
    pub msb_first: bool,
}

impl Default for Config {
    /// 1 MHz, mode 0, MSB first.
    fn default() -> (r: Self)
        ensures
            r == (Config { bitrate: 1_000_000, clock_mode: ClockMode::Mode0, msb_first: true }),
    {
        Config { bitrate: 1_000_000, clock_mode: ClockMode::Mode0, msb_first: true }
    }
}

/// SPI error types.
#[derive(Debug, Clone, Copy, PartialEq, Eq)]
pub enum Error {
    /// TX FIFO overflow.
    TxOverflow,
    /// RX FIFO overflow.
    RxOverflow,
    /// Other error.
    Other,
}

/// The synchronous clock divider for a bit rate: `ref_freq / bitrate - 1`,
/// saturating at zero and capped at 255.
pub open spec fn spec_sdiv(ref_freq: u32, bitrate: u32) -> u8 {
    let q: int = (ref_freq / bitrate) as int;
    if q == 0 {
        0
    } else if q - 1 > 255 {
        255
    } else {
        (q - 1) as u8
    }
}

/// Compute the synchronous clock divider for a bit rate.
pub fn sdiv_for(ref_freq: u32, bitrate: u32) -> (r: u8)
    requires
        bitrate > 0,
    ensures
        r == spec_sdiv(ref_freq, bitrate),
{
    let q = ref_freq / bitrate;
    if q == 0 {
        0
    } else if q - 1 > 255 {
        255
    } else {
        (q - 1) as u8
    }
}

/// The EUSART registers after synchronous master configuration: reset, CFG2 with
/// master mode, clock mode, force load and the divider, CFG0 synchronous with the bit
/// order, 8-bit frames, enabled, and TX and RX enabled.
pub open spec fn spec_sync_master(regs: EusartRegs, clkpol: Clkpol, clkpha: Clkpha, msb_first: bool, bitrate: u32) -> EusartRegs {
    EusartRegs {
        en: true,
        cfg2: Cfg2 {
            master: true,
            clkpol,
            clkpha,
            forceload: true,
            sdiv: spec_sdiv(REF_FREQ, bitrate),
        },
        cfg0: Cfg0 { sync: true, msbf: msb_first, ..cfg0_reset() },
        framecfg: framecfg_reset(),
        cmd: spec_cmd(true, false, true, false),
        ..spec_reset(regs)
    }
}

/// Configure a EUSART as a synchronous (SPI) master (the caller waits for DISABLING,
/// SYNCBUSY, TXENS/RXENS and TXIDLE between the writes).
pub fn sync_master_init(regs: &mut EusartRegs, clkpol: Clkpol, clkpha: Clkpha, msb_first: bool, bitrate: u32)
    requires
        bitrate > 0,
    ensures
        *final(regs) == spec_sync_master(*old(regs), clkpol, clkpha, msb_first, bitrate),
{
    eusart_reset(regs);
    regs.cfg2 = Cfg2 { master: true, clkpol, clkpha, forceload: true, sdiv: 0 };
    regs.cfg0 = Cfg0 { sync: true, msbf: msb_first, ovs: Ovs::X16, mvdis: false };
    regs.framecfg = Framecfg { databits: Databits::Eight, parity: Parity::NoParity, stopbits: Stopbits::One };
    regs.en = true;
    let sdiv = sdiv_for(REF_FREQ, bitrate);
    regs.en = false;
    regs.cfg2 = Cfg2 { sdiv, ..regs.cfg2 };
    regs.en = true;
    regs.cmd = Cmd { rxen: true, rxdis: false, txen: true, txdis: false };
}

/// EUSART instance usable for SPI.
pub trait Instance {
    /// The instance number.
    spec fn spec_index() -> u8;

    /// The instance number.
    fn index() -> (r: u8)
        ensures
            r == Self::spec_index(),
    ;
}

impl Instance for EUSART0 {
    open spec fn spec_index() -> u8 {
        0
    }

    fn index() -> (r: u8) {
        0
    }
}

impl Instance for EUSART1 {
    open spec fn spec_index() -> u8 {
        1
    }

    fn index() -> (r: u8) {
        1
    }
}

/// The routing of an SPI master: MOSI on TX and SCLK routed and enabled, MISO on RX
/// routed and enabled when given.
pub open spec fn spec_spi_route(r: EusartRoute, sclk: AnyPin, mosi: AnyPin, miso: Option<AnyPin>) -> EusartRoute {
    let r1 = EusartRoute { tx: spec_route(mosi), sclk: spec_route(sclk), txpen: true, sclkpen: true, ..r };
    match miso {
        Some(p) => EusartRoute { rx: spec_route(p), rxpen: true, ..r1 },
        None => r1,
    }
}

/// The GPIO registers after the SPI pins are configured: SCLK and MOSI push-pull,
/// MISO input when given.
pub open spec fn spec_spi_pins(g: GpioRegs, sclk: AnyPin, mosi: AnyPin, miso: Option<AnyPin>) -> GpioRegs {
    let g1 = spec_gpio_with_mode(spec_gpio_with_mode(g, sclk, PortMode::PushPull), mosi, PortMode::PushPull);
    match miso {
        Some(p) => spec_gpio_with_mode(g1, p, PortMode::Input),
        None => g1,
    }
}

/// Whether a pin can be configured.
pub open spec fn pin_ok(p: AnyPin) -> bool {
    p.wf()
}

/// SPI driver using EUSART in synchronous master mode.
pub struct Spi<T: Instance> {
    /// The instance driven.
    pub instance: PhantomData<T>,
}

/// The larger of two lengths.
pub open spec fn spec_max(a: nat, b: nat) -> nat {
    if a > b {
        a
    } else {
        b
    }
}

/// Byte `i` sent by a full-duplex transfer: that of `write`, or zero past its end.
pub open spec fn spec_tx_byte(write: Seq<u8>, i: int) -> u8 {
    if i < write.len() {
        write[i]
    } else {
        0
    }
}

impl<T: Instance> Spi<T> {
    /// Create a new full-duplex SPI driver (with MISO).
    pub fn new(
        eusart: T,
        sclk: AnyPin,
        mosi: AnyPin,
        miso: AnyPin,
        config: Config,
        gpio: &mut GpioRegs,
        routes: &mut EusartRoutes,
        regs: &mut EusartRegs,
    ) -> (r: Self)
        requires
            pin_ok(sclk),
            pin_ok(mosi),
            pin_ok(miso),
            config.bitrate > 0,
        ensures
            *final(regs) == spec_sync_master(
                *old(regs),
                config.clock_mode.spec_polarity(),
                config.clock_mode.spec_phase(),
                config.msb_first,
                config.bitrate,
            ),
            *final(gpio) == spec_spi_pins(*old(gpio), sclk, mosi, Some(miso)),
            *final(routes) == spec_with_route(
                *old(routes),
                T::spec_index(),
                spec_spi_route(spec_route_of(*old(routes), T::spec_index()), sclk, mosi, Some(miso)),
            ),
    {
        Self::new_inner(eusart, sclk, mosi, Some(miso), config, gpio, routes, regs)
    }

    /// Create a new TX-only SPI driver (no MISO).
    pub fn new_txonly(
        eusart: T,
        sclk: AnyPin,
        mosi: AnyPin,
        config: Config,
        gpio: &mut GpioRegs,
        routes: &mut EusartRoutes,
        regs: &mut EusartRegs,
    ) -> (r: Self)
        requires
            pin_ok(sclk),
            pin_ok(mosi),
            config.bitrate > 0,
        ensures
            *final(regs) == spec_sync_master(
                *old(regs),
                config.clock_mode.spec_polarity(),
                config.clock_mode.spec_phase(),
                config.msb_first,
                config.bitrate,
            ),
            *final(gpio) == spec_spi_pins(*old(gpio), sclk, mosi, None),
            *final(routes) == spec_with_route(
                *old(routes),
                T::spec_index(),
                spec_spi_route(spec_route_of(*old(routes), T::spec_index()), sclk, mosi, None),
            ),
    {
        Self::new_inner(eusart, sclk, mosi, None, config, gpio, routes, regs)
    }

    fn new_inner(
        _eusart: T,
        sclk: AnyPin,
        mosi: AnyPin,
        miso: Option<AnyPin>,
        config: Config,
        gpio: &mut GpioRegs,
        routes: &mut EusartRoutes,
        regs: &mut EusartRegs,
    ) -> (r: Self)
        requires
            pin_ok(sclk),
            pin_ok(mosi),
            miso matches Some(p) ==> pin_ok(p),
            config.bitrate > 0,
        ensures
            *final(regs) == spec_sync_master(
                *old(regs),
                config.clock_mode.spec_polarity(),
                config.clock_mode.spec_phase(),
                config.msb_first,
                config.bitrate,
            ),
            *final(gpio) == spec_spi_pins(*old(gpio), sclk, mosi, miso),
            *final(routes) == spec_with_route(
                *old(routes),
                T::spec_index(),
                spec_spi_route(spec_route_of(*old(routes), T::spec_index()), sclk, mosi, miso),
            ),
    {
        sync_master_init(regs, config.clock_mode.polarity(), config.clock_mode.phase(), config.msb_first, config.bitrate);
        sclk.mode_w(gpio, PortMode::PushPull);
        mosi.mode_w(gpio, PortMode::PushPull);
        if let Some(p) = miso {
            p.mode_w(gpio, PortMode::Input);
        }
        let index = T::index();
        let r0 = get_route(routes, index);
        let r1 = EusartRoute { tx: route_of(mosi), sclk: route_of(sclk), txpen: true, sclkpen: true, ..r0 };
        let r2 = match miso {
            Some(p) => EusartRoute { rx: route_of(p), rxpen: true, ..r1 },
            None => r1,
        };
        set_route(routes, index, r2);
        Spi { instance: PhantomData }
    }

    /// Blocking write: each byte of `data` is written to TXDATA in turn, here
    /// appended to `txdata` (the caller waits for TX complete after each and discards
    /// the byte received with it).
    pub fn blocking_write(&mut self, data: &[u8], txdata: &mut Vec<u8>) -> (r: Result<(), Error>)
        ensures
            r is Ok,
            final(txdata)@ == old(txdata)@ + data@,
    {
        let ghost start = txdata@;
        let mut i: usize = 0;
        while i < data.len()
            invariant
                i <= data@.len(),
                txdata@ == start + data@.subrange(0, i as int),
            decreases data.len() - i,
        {
            txdata.push(data[i]);
            proof {
                assert(data@.subrange(0, i + 1) =~= data@.subrange(0, i as int).push(data@[i as int]));
            }
            i = i + 1;
        }
        proof {
            assert(data@.subrange(0, data@.len() as int) =~= data@);
        }
        Ok(())
    }

    /// Blocking read: zeros are sent and each received byte is stored in turn.
    /// `exchange(i, b)` shifts `b` out as byte `i` of the transfer and returns the byte
    /// shifted in with it.
    pub fn blocking_read<F: Fn(usize, u8) -> u8>(&mut self, buffer: &mut [u8], exchange: F) -> (r: Result<(), Error>)
        requires
            forall|i: usize, b: u8| call_requires(exchange, (i, b)),
        ensures
            r is Ok,
            final(buffer)@.len() == old(buffer)@.len(),
            forall|i: int|
                0 <= i < final(buffer)@.len() ==> call_ensures(exchange, (i as usize, 0u8), #[trigger] final(buffer)@[i]),
    {
        let mut i: usize = 0;
        let ghost len = buffer@.len();
        while i < buffer.len()
            invariant
                forall|i: usize, b: u8| call_requires(exchange, (i, b)),
                buffer@.len() == len,
                forall|k: int| 0 <= k < i ==> call_ensures(exchange, (k as usize, 0u8), #[trigger] buffer@[k]),
            decreases buffer.len() - i,
        {
            let rx = exchange(i, 0);
            buffer[i] = rx;
            i = i + 1;
        }
        Ok(())
    }

    /// Blocking full-duplex transfer over the longer of the two buffers: byte `i` of
    /// `write` (zero past its end) is written to TXDATA, here appended to `txdata`,
    /// and exchanged as byte `i` of the transfer; the byte received with it is stored
    /// at position `i` of `read` (dropped past its end).
    pub fn blocking_transfer<F: Fn(usize, u8) -> u8>(
        &mut self,
        read: &mut [u8],
        write: &[u8],
        txdata: &mut Vec<u8>,
        exchange: F,
    ) -> (r: Result<(), Error>)
        requires
            forall|i: usize, b: u8| call_requires(exchange, (i, b)),
        ensures
            r is Ok,
            final(read)@.len() == old(read)@.len(),
            final(txdata)@ == old(txdata)@ + Seq::new(
                spec_max(old(read)@.len(), write@.len()),
                |i: int| spec_tx_byte(write@, i),
            ),
            forall|i: int|
                0 <= i < final(read)@.len() ==> call_ensures(exchange, (i as usize, spec_tx_byte(write@, i)), #[trigger] final(read)@[i]),
    {
        let len = if read.len() > write.len() { read.len() } else { write.len() };
        let ghost rlen = read@.len();
        let ghost start = txdata@;
        let mut i: usize = 0;
        while i < len
            invariant
                forall|i: usize, b: u8| call_requires(exchange, (i, b)),
                read@.len() == rlen,
                len >= rlen,
                len == spec_max(rlen, write@.len()),
                i <= len,
                txdata@ == start + Seq::new(i as nat, |k: int| spec_tx_byte(write@, k)),
                forall|k: int| 0 <= k < i && k < rlen ==> call_ensures(exchange, (k as usize, spec_tx_byte(write@, k)), #[trigger] read@[k]),
            decreases len - i,
        {
            let tx: u8 = if i < write.len() { write[i] } else { 0 };
            txdata.push(tx);
            proof {
                assert(Seq::new((i + 1) as nat, |k: int| spec_tx_byte(write@, k)) =~= Seq::new(
                    i as nat,
                    |k: int| spec_tx_byte(write@, k),
                ).push(tx));
            }
            let rx = exchange(i, tx);
            if i < read.len() {
                read[i] = rx;
            }
            i = i + 1;
        }
        Ok(())
    }

    /// Blocking transfer in place: byte `i` is exchanged as byte `i` of the transfer
    /// and replaced by the byte received with it.
    pub fn blocking_transfer_in_place<F: Fn(usize, u8) -> u8>(&mut self, data: &mut [u8], exchange: F) -> (r: Result<(), Error>)
        requires
            forall|i: usize, b: u8| call_requires(exchange, (i, b)),
        ensures
            r is Ok,
            final(data)@.len() == old(data)@.len(),
            forall|i: int|
                0 <= i < final(data)@.len() ==> call_ensures(exchange, (i as usize, old(data)@[i]), #[trigger] final(data)@[i]),
    {
        let ghost orig = data@;
        let mut i: usize = 0;
        while i < data.len()
            invariant
                forall|i: usize, b: u8| call_requires(exchange, (i, b)),
                data@.len() == orig.len(),
                forall|k: int| i <= k < orig.len() ==> data@[k] == orig[k],
                forall|k: int| 0 <= k < i ==> call_ensures(exchange, (k as usize, orig[k]), #[trigger] data@[k]),
            decreases data.len() - i,
        {
            let tx = data[i];
            let rx = exchange(i, tx);
            data[i] = rx;
            i = i + 1;
        }
        Ok(())
    }

    /// Flush the TX FIFO: the caller waits for TX complete; nothing is written.
    pub fn blocking_flush(&mut self) -> (r: Result<(), Error>)
        ensures
            r is Ok,
    {
        Ok(())
    }

    /// Flush the RX FIFO: `pending` is the number of bytes waiting in it, each of which
    /// is read and discarded; the number of reads is returned.
    pub fn rx_flush(&mut self, pending: usize) -> (r: usize)
        ensures
            r == pending,
    {
        pending
    }

    /// Tear the driver down: the EUSART is disabled and its SPI pins unrouted.
    pub fn release(self, regs: &mut EusartRegs, routes: &mut EusartRoutes)
        ensures
            *final(regs) == spec_disabled(*old(regs)),
            *final(routes) == spec_with_route(
                *old(routes),
                T::spec_index(),
                EusartRoute { txpen: false, sclkpen: false, rxpen: false, ..spec_route_of(*old(routes), T::spec_index()) },
            ),
    {
        eusart_disable(regs);
        let index = T::index();
        let r0 = get_route(routes, index);
        set_route(routes, index, EusartRoute { txpen: false, sclkpen: false, rxpen: false, ..r0 });
    }
}


/// Configuring an SPI master starts from a reset, so the result does not depend on
/// what the registers held before.
pub proof fn lemma_master_configuration_forgets_prior_state(
    r1: EusartRegs,
    r2: EusartRegs,
    clkpol: Clkpol,
    clkpha: Clkpha,
    msb_first: bool,
    bitrate: u32,
)
    ensures
        spec_sync_master(r1, clkpol, clkpha, msb_first, bitrate) == spec_sync_master(r2, clkpol, clkpha, msb_first, bitrate),
{
}

/// The SPI clock modes in declaration order, mode 0 to mode 3.
pub open spec fn clock_mode_order() -> Seq<ClockMode> {
    seq![
        ClockMode::Mode0,
        ClockMode::Mode1,
        ClockMode::Mode2,
        ClockMode::Mode3,
    ]
}

/// SPI mode k is CPOL = k / 2 and CPHA = k % 2: modes 2 and 3 idle high, modes 1 and 3
/// sample on the trailing edge, and no two modes share both polarity and phase.
pub proof fn lemma_clock_mode_bits(m: ClockMode)
    ensures
        forall|k: int|
            0 <= k < 4 ==> ((#[trigger] clock_mode_order()[k]).spec_polarity() == (if k >= 2 { Clkpol::IdleHigh } else { Clkpol::IdleLow }))
                && (clock_mode_order()[k].spec_phase() == (if k % 2 == 1 { Clkpha::SampleTrailing } else { Clkpha::SampleLeading })),
        clock_mode_order().contains(m),
        forall|q: ClockMode| #[trigger] q.spec_polarity() == m.spec_polarity() && q.spec_phase() == m.spec_phase() ==> q == m,
{
    let o = clock_mode_order();
    assert forall|k: int| 0 <= k < 4 implies (o[k].spec_polarity() == (if k >= 2 { Clkpol::IdleHigh } else { Clkpol::IdleLow }))
        && (o[k].spec_phase() == (if k % 2 == 1 { Clkpha::SampleTrailing } else { Clkpha::SampleLeading })) by {
        if k == 0 {
            assert(o[0] == ClockMode::Mode0);
        } else if k == 1 {
            assert(o[1] == ClockMode::Mode1);
        } else if k == 2 {
            assert(o[2] == ClockMode::Mode2);
        } else if k == 3 {
            assert(o[3] == ClockMode::Mode3);
        }
    }
    match m {
        ClockMode::Mode0 => assert(o[0] == m),
        ClockMode::Mode1 => assert(o[1] == m),
        ClockMode::Mode2 => assert(o[2] == m),
        ClockMode::Mode3 => assert(o[3] == m),
    }
}

} // verus!
