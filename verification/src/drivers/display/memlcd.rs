//! Memory LCD driver using EUSART in synchronous master mode.
//!
//! The low-level [`MemLcdSpi`] configures a EUSART as a transmit-only SPI master and
//! turns the bytes handed to it into the words written to TXDATA (bit-reversed when
//! the display wants LSB-first bytes). The high-level [`MemLcd`] keeps a
//! 128x128 one-bit framebuffer (a 0 bit is a black pixel), drives chip select,
//! DISP_ENABLE and EXTCOMIN, and produces the command streams of the
//! Sharp LS013B7DH03 protocol.
//!
//! The words written to TXDATA are modelled as a growing `Vec<u8>`; waiting for FIFO
//! space, for TX complete and the chip-select setup and hold delays are the caller's.
use core::marker::PhantomData;

use vstd::prelude::*;

use crate::cmu::{Clken1, CmuRegs};
use crate::gpio::{route_of, spec_route, AnyPin, GpioRegs, Level, Output, PortMode};
use crate::peripherals::{EUSART0, EUSART1};
use crate::spi::{pin_ok, spec_max, spec_spi_pins, spec_sync_master, sync_master_init};
use crate::usart::eusart::{
    eusart_disable, get_route, set_route, spec_cmd, spec_disabled, spec_route_of, spec_with_route, Clkpha, Clkpol,
    Cmd, EusartRegs, EusartRoute, EusartRoutes,
};

verus! {

/// The CMU with the clock of EUSART `index` gated off in CLKEN1 (other instances have
/// no clock bit there).
pub open spec fn spec_eusart_clock_off(cmu: CmuRegs, index: u8) -> CmuRegs {
    if index == 0 {
        CmuRegs { clken1: Clken1 { eusart0: false, ..cmu.clken1 }, ..cmu }
    } else if index == 1 {
        CmuRegs { clken1: Clken1 { eusart1: false, ..cmu.clken1 }, ..cmu }
    } else {
        cmu
    }
}

/// SPI clock mode combining polarity and phase.
#[derive(Clone, Copy, Debug, PartialEq, Eq)]
pub enum ClockMode {
    /// Clock idle low, sample on rising edge (CPOL=0, CPHA=0)
    Mode0,
    /// Clock idle low, sample on falling edge (CPOL=0, CPHA=1)
    Mode1,
    /// Clock idle high, sample on falling edge (CPOL=1, CPHA=0)
    Mode2,
    /// Clock idle high, sample on rising edge (CPOL=1, CPHA=1)
    Mode3,
}

impl ClockMode {
    /// The clock polarity of a mode: idle high for modes 2 and 3.
    pub open spec fn spec_polarity(self) -> Clkpol {
        match self {
            ClockMode::Mode0 | ClockMode::Mode1 => Clkpol::IdleLow,
            ClockMode::Mode2 | ClockMode::Mode3 => Clkpol::IdleHigh,
        }
    }

    /// The clock phase of a mode: sample on the trailing edge for modes 1 and 3.
    pub open spec fn spec_phase(self) -> Clkpha {
        match self {
            ClockMode::Mode0 | ClockMode::Mode2 => Clkpha::SampleLeading,
            ClockMode::Mode1 | ClockMode::Mode3 => Clkpha::SampleTrailing,
        }
    }

    /// Get the clock polarity for this mode.
    pub fn polarity(&self) -> (r: Clkpol)
        ensures
            r == self.spec_polarity(),
    {
        match self {
            ClockMode::Mode0 | ClockMode::Mode1 => Clkpol::IdleLow,
            ClockMode::Mode2 | ClockMode::Mode3 => Clkpol::IdleHigh,
        }
    }

    /// Get the clock phase for this mode.
    pub fn phase(&self) -> (r: Clkpha)
        ensures
            r == self.spec_phase(),
    {
        match self {
            ClockMode::Mode0 | ClockMode::Mode2 => Clkpha::SampleLeading,
            ClockMode::Mode1 | ClockMode::Mode3 => Clkpha::SampleTrailing,
        }
    }
}

impl Default for ClockMode {
    /// Mode 0.
    fn default() -> (r: Self)
        ensures
            r == ClockMode::Mode0,
    {
        ClockMode::Mode0
    }
}

/// Memory LCD SPI configuration.
#[derive(Clone, Copy, Debug, PartialEq, Eq)]
pub struct Config {
    /// Bit rate in bits per second.
    pub bitrate: u32,
    /// SPI clock mode (polarity and phase).
    pub clock_mode: ClockMode,
    /// Send MSB first (required for most memory LCDs).
    pub msb_first: bool,
    /// Reverse the bits of each byte before transmission.
    pub reverse_bits: bool,
}

/// The memory LCD SPI configuration under its longer name.
pub type SpiConfig = Config;

impl Default for Config {
    /// 1.1 MHz, mode 0, MSB first, bytes not reversed.
    fn default() -> (r: Self)
        ensures
            r == (Config { bitrate: 1_100_000, clock_mode: ClockMode::Mode0, msb_first: true, reverse_bits: false }),
    {
        Config { bitrate: 1_100_000, clock_mode: ClockMode::Mode0, msb_first: true, reverse_bits: false }
    }
}

/// Memory LCD SPI error types.
#[derive(Debug, Clone, Copy, PartialEq, Eq)]
pub enum Error {
    /// TX FIFO overflow.
    TxOverflow,
}

/// Whether bit `i` of `v` is set.
pub open spec fn bit8(v: u8, i: u8) -> bool {
    (v >> i) & 1 == 1
}

/// The byte with the bits of `b` in the opposite order: bit `i` moves to bit `7 - i`.
pub open spec fn spec_reverse_bits(b: u8) -> u8 {
    ((b & 0x01) << 7u8) | ((b & 0x02) << 5u8) | ((b & 0x04) << 3u8) | ((b & 0x08) << 1u8)
        | ((b & 0x10) >> 1u8) | ((b & 0x20) >> 3u8) | ((b & 0x40) >> 5u8) | ((b & 0x80) >> 7u8)
}

/// Reverse the bits of a byte (for LSB-first displays).
pub fn reverse_bits_u8(byte: u8) -> (r: u8)
    ensures
        r == spec_reverse_bits(byte),
{
    let a: u8 = (byte & 0xF0) >> 4 | (byte & 0x0F) << 4;
    let b: u8 = (a & 0xCC) >> 2 | (a & 0x33) << 2;
    let c: u8 = (b & 0xAA) >> 1 | (b & 0x55) << 1;
    assert(c == spec_reverse_bits(byte)) by (bit_vector)
        requires
            a == (byte & 0xF0) >> 4 | (byte & 0x0F) << 4,
            b == (a & 0xCC) >> 2 | (a & 0x33) << 2,
            c == (b & 0xAA) >> 1 | (b & 0x55) << 1,
    ;
    c
}

/// Bit reversal moves bit `7 - i` to bit `i`, and reversing twice gives the byte back.
pub proof fn lemma_reverse_bits(b: u8)
    ensures
        forall|i: u8| i < 8 ==> bit8(spec_reverse_bits(b), i) == bit8(b, (7 - i) as u8),
        spec_reverse_bits(spec_reverse_bits(b)) == b,
{
    assert(forall|i: u8| i < 8 ==> (((spec_reverse_bits(b) >> i) & 1 == 1) == ((b >> ((7 - i) as u8)) & 1 == 1)))
        by (bit_vector);
    assert(spec_reverse_bits(spec_reverse_bits(b)) == b) by (bit_vector);
}

/// The word written to TXDATA for a byte.
pub open spec fn spec_wire(reverse_bits: bool, b: u8) -> u8 {
    if reverse_bits {
        spec_reverse_bits(b)
    } else {
        b
    }
}

/// Byte `i` sent by a full-duplex transfer: that of `write`, or 0xFF past its end.
pub open spec fn spec_lcd_tx_byte(write: Seq<u8>, i: int) -> u8 {
    if i < write.len() {
        write[i]
    } else {
        0xFF
    }
}

/// The words written to TXDATA for a sequence of bytes.
pub open spec fn spec_wire_seq(reverse_bits: bool, s: Seq<u8>) -> Seq<u8> {
    s.map_values(|b: u8| spec_wire(reverse_bits, b))
}

/// EUSART peripheral instance usable by the memory LCD.
pub trait Instance {
    /// The instance number.
    spec fn spec_index() -> u8;

    /// The instance number.
    fn index() -> (r: u8)
        ensures
            r == Self::spec_index(),
    ;
}

impl Instance for EUSART0 {
    open spec fn spec_index() -> u8 {
        0
    }

    fn index() -> (r: u8) {
        0
    }
}

impl Instance for EUSART1 {
    open spec fn spec_index() -> u8 {
        1
    }

    fn index() -> (r: u8) {
        1
    }
}

/// The routing of the display SPI: MOSI on TX and SCLK, the route-enable register
/// written with only TX and SCLK enabled.
pub open spec fn spec_lcd_route(r: EusartRoute, sclk: AnyPin, mosi: AnyPin) -> EusartRoute {
    EusartRoute {
        tx: spec_route(mosi),
        sclk: spec_route(sclk),
        txpen: true,
        sclkpen: true,
        rxpen: false,
        rtspen: false,
        ..r
    }
}

/// Memory LCD SPI driver using EUSART in synchronous master mode.
pub struct MemLcdSpi<T: Instance> {
    /// The instance driven.
    pub instance: PhantomData<T>,
    /// Whether bytes are bit-reversed before transmission.
    pub reverse_bits: bool,
}

impl<T: Instance> MemLcdSpi<T> {
    /// Create a new memory LCD SPI driver: the EUSART becomes a synchronous master,
    /// SCLK and MOSI push-pull outputs routed to it.
    pub fn new(
        _eusart: T,
        sclk: AnyPin,
        mosi: AnyPin,
        config: Config,
        gpio: &mut GpioRegs,
        routes: &mut EusartRoutes,
        regs: &mut EusartRegs,
    ) -> (r: Self)
        requires
            pin_ok(sclk),
            pin_ok(mosi),
            config.bitrate > 0,
        ensures
            r.reverse_bits == config.reverse_bits,
            *final(regs) == spec_sync_master(
                *old(regs),
                config.clock_mode.spec_polarity(),
                config.clock_mode.spec_phase(),
                config.msb_first,
                config.bitrate,
            ),
            *final(gpio) == spec_spi_pins(*old(gpio), sclk, mosi, None),
            *final(routes) == spec_with_route(
                *old(routes),
                T::spec_index(),
                spec_lcd_route(spec_route_of(*old(routes), T::spec_index()), sclk, mosi),
            ),
    {
        sync_master_init(
            regs,
            config.clock_mode.polarity(),
            config.clock_mode.phase(),
            config.msb_first,
            config.bitrate,
        );
        sclk.mode_w(gpio, PortMode::PushPull);
        mosi.mode_w(gpio, PortMode::PushPull);
        let index = T::index();
        let r0 = get_route(routes, index);
        set_route(
            routes,
            index,
            EusartRoute { tx: route_of(mosi), sclk: route_of(sclk), txpen: true, sclkpen: true, rxpen: false, rtspen: false, ..r0 },
        );
        MemLcdSpi { instance: PhantomData, reverse_bits: config.reverse_bits }
    }

    /// Transmit data: each byte (bit-reversed when configured) is written to TXDATA,
    /// here appended to `txdata`.
    pub fn tx(&mut self, data: &[u8], txdata: &mut Vec<u8>) -> (r: Result<(), Error>)
        ensures
            r is Ok,
            *final(self) == *old(self),
            final(txdata)@ == old(txdata)@ + spec_wire_seq(old(self).reverse_bits, data@),
    {
        let ghost start = txdata@;
        let mut i: usize = 0;
        while i < data.len()
            invariant
                i <= data@.len(),
                txdata@ == start + spec_wire_seq(self.reverse_bits, data@.subrange(0, i as int)),
            decreases data.len() - i,
        {
            let b = data[i];
            let w = if self.reverse_bits {
                reverse_bits_u8(b)
            } else {
                b
            };
            txdata.push(w);
            proof {
                assert(spec_wire_seq(self.reverse_bits, data@.subrange(0, i + 1)) =~= spec_wire_seq(
                    self.reverse_bits,
                    data@.subrange(0, i as int),
                ).push(w));
            }
            i = i + 1;
        }
        proof {
            assert(data@.subrange(0, data@.len() as int) =~= data@);
        }
        Ok(())
    }

    /// The byte put on the wire for `b`: bit-reversed when configured.
    fn wire(&self, b: u8) -> (r: u8)
        ensures
            r == spec_wire(self.reverse_bits, b),
    {
        if self.reverse_bits {
            reverse_bits_u8(b)
        } else {
            b
        }
    }

    /// Read bytes: for each position 0xFF is sent and the byte received stored
    /// (both through the bit order of the display). `exchange(i, b)` shifts `b` out as
    /// byte `i` of the transfer and returns the byte shifted in with it.
    pub fn read<F: Fn(usize, u8) -> u8>(&mut self, words: &mut [u8], exchange: F) -> (r: Result<(), Error>)
        requires
            forall|i: usize, b: u8| call_requires(exchange, (i, b)),
        ensures
            r is Ok,
            *final(self) == *old(self),
            final(words)@.len() == old(words)@.len(),
            forall|i: int|
                0 <= i < final(words)@.len() ==> call_ensures(
                    exchange,
                    (i as usize, spec_wire(old(self).reverse_bits, 0xFF)),
                    spec_wire(old(self).reverse_bits, #[trigger] final(words)@[i]),
                ),
    {
        let ghost len = words@.len();
        let mut i: usize = 0;
        while i < words.len()
            invariant
                forall|i: usize, b: u8| call_requires(exchange, (i, b)),
                words@.len() == len,
                len == old(words)@.len(),
                *self == *old(self),
                forall|k: int|
                    0 <= k < i ==> call_ensures(
                        exchange,
                        (k as usize, spec_wire(self.reverse_bits, 0xFF)),
                        spec_wire(self.reverse_bits, #[trigger] words@[k]),
                    ),
            decreases words.len() - i,
        {
            let tx = self.wire(0xFF);
            let rx = exchange(i, tx);
            let v = self.wire(rx);
            proof {
                lemma_reverse_bits(rx);
            }
            words[i] = v;
            i = i + 1;
        }
        Ok(())
    }

    /// Write bytes (as [`tx`](Self::tx)); the caller then waits for TX complete and
    /// flushes RX.
    pub fn write(&mut self, words: &[u8], txdata: &mut Vec<u8>) -> (r: Result<(), Error>)
        ensures
            r is Ok,
            *final(self) == *old(self),
            final(txdata)@ == old(txdata)@ + spec_wire_seq(old(self).reverse_bits, words@),
    {
        self.tx(words, txdata)
    }

    /// Full-duplex transfer over the longer of the two buffers: byte `i` sent is that
    /// of `write`, or 0xFF past its end, written to TXDATA (here appended to `txdata`)
    /// and exchanged as byte `i` of the transfer; the byte received with it is stored
    /// at position `i` of `read`, or discarded past its end. All bytes go through the
    /// bit order of the display.
    pub fn transfer<F: Fn(usize, u8) -> u8>(
        &mut self,
        read: &mut [u8],
        write: &[u8],
        txdata: &mut Vec<u8>,
        exchange: F,
    ) -> (r: Result<(), Error>)
        requires
            forall|i: usize, b: u8| call_requires(exchange, (i, b)),
        ensures
            r is Ok,
            *final(self) == *old(self),
            final(read)@.len() == old(read)@.len(),
            final(txdata)@ == old(txdata)@ + Seq::new(
                spec_max(old(read)@.len(), write@.len()),
                |i: int| spec_wire(old(self).reverse_bits, spec_lcd_tx_byte(write@, i)),
            ),
            forall|i: int|
                0 <= i < final(read)@.len() ==> call_ensures(
                    exchange,
                    (i as usize, spec_wire(old(self).reverse_bits, spec_lcd_tx_byte(write@, i))),
                    spec_wire(old(self).reverse_bits, #[trigger] final(read)@[i]),
                ),
    {
        let ghost rlen = read@.len();
        let ghost start = txdata@;
        let len = if read.len() > write.len() {
            read.len()
        } else {
            write.len()
        };
        let mut i: usize = 0;
        while i < len
            invariant
                forall|i: usize, b: u8| call_requires(exchange, (i, b)),
                read@.len() == rlen,
                rlen == old(read)@.len(),
                len == spec_max(rlen, write@.len()),
                i <= len,
                *self == *old(self),
                txdata@ == start + Seq::new(
                    i as nat,
                    |k: int| spec_wire(self.reverse_bits, spec_lcd_tx_byte(write@, k)),
                ),
                forall|k: int|
                    0 <= k < i && k < rlen ==> call_ensures(
                        exchange,
                        (k as usize, spec_wire(self.reverse_bits, spec_lcd_tx_byte(write@, k))),
                        spec_wire(self.reverse_bits, #[trigger] read@[k]),
                    ),
            decreases len - i,
        {
            let b: u8 = if i < write.len() {
                write[i]
            } else {
                0xFF
            };
            let tx = self.wire(b);
            txdata.push(tx);
            proof {
                assert(Seq::new((i + 1) as nat, |k: int| spec_wire(self.reverse_bits, spec_lcd_tx_byte(write@, k)))
                    =~= Seq::new(i as nat, |k: int| spec_wire(self.reverse_bits, spec_lcd_tx_byte(write@, k))).push(tx));
            }
            let rx = exchange(i, tx);
            if i < read.len() {
                let v = self.wire(rx);
                proof {
                    lemma_reverse_bits(rx);
                }
                read[i] = v;
            }
            i = i + 1;
        }
        Ok(())
    }

    /// Transfer in place: byte `i` is exchanged as byte `i` of the transfer and
    /// replaced by the byte received with it (both through the bit order of the
    /// display).
    pub fn transfer_in_place<F: Fn(usize, u8) -> u8>(&mut self, words: &mut [u8], exchange: F) -> (r: Result<(), Error>)
        requires
            forall|i: usize, b: u8| call_requires(exchange, (i, b)),
        ensures
            r is Ok,
            *final(self) == *old(self),
            final(words)@.len() == old(words)@.len(),
            forall|i: int|
                0 <= i < final(words)@.len() ==> call_ensures(
                    exchange,
                    (i as usize, spec_wire(old(self).reverse_bits, old(words)@[i])),
                    spec_wire(old(self).reverse_bits, #[trigger] final(words)@[i]),
                ),
    {
        let ghost orig = words@;
        let mut i: usize = 0;
        while i < words.len()
            invariant
                forall|i: usize, b: u8| call_requires(exchange, (i, b)),
                words@.len() == orig.len(),
                orig == old(words)@,
                *self == *old(self),
                forall|k: int| i <= k < orig.len() ==> words@[k] == orig[k],
                forall|k: int|
                    0 <= k < i ==> call_ensures(
                        exchange,
                        (k as usize, spec_wire(self.reverse_bits, orig[k])),
                        spec_wire(self.reverse_bits, #[trigger] words@[k]),
                    ),
            decreases words.len() - i,
        {
            let tx = self.wire(words[i]);
            let rx = exchange(i, tx);
            let v = self.wire(rx);
            proof {
                lemma_reverse_bits(rx);
            }
            words[i] = v;
            i = i + 1;
        }
        Ok(())
    }

    /// Flush: the caller waits for TX complete.
    pub fn flush(&mut self) -> (r: Result<(), Error>)
        ensures
            r is Ok,
    {
        Ok(())
    }

    /// Wait for all data to be transmitted: the caller polls TX complete; nothing is
    /// written.
    pub fn wait(&self) {
    }

    /// Flush the RX FIFO: `pending` is the number of bytes waiting in it, each of which
    /// is read and discarded; the number of reads is returned.
    pub fn rx_flush(&self, pending: usize) -> (r: usize)
        ensures
            r == pending,
    {
        pending
    }

    /// Shut the SPI peripheral down: the EUSART is disabled, the route-enable register
    /// written with nothing enabled, and the EUSART's clock turned off.
    pub fn shutdown(self, regs: &mut EusartRegs, routes: &mut EusartRoutes, cmu: &mut CmuRegs)
        ensures
            *final(regs) == spec_disabled(*old(regs)),
            *final(cmu) == spec_eusart_clock_off(*old(cmu), T::spec_index()),
            *final(routes) == spec_with_route(
                *old(routes),
                T::spec_index(),
                EusartRoute {
                    txpen: false,
                    sclkpen: false,
                    rxpen: false,
                    rtspen: false,
                    ..spec_route_of(*old(routes), T::spec_index())
                },
            ),
    {
        eusart_disable(regs);
        let index = T::index();
        let r0 = get_route(routes, index);
        set_route(routes, index, EusartRoute { txpen: false, sclkpen: false, rxpen: false, rtspen: false, ..r0 });
        if index == 0 {
            cmu.clken1 = Clken1 { eusart0: false, ..cmu.clken1 };
        } else if index == 1 {
            cmu.clken1 = Clken1 { eusart1: false, ..cmu.clken1 };
        }
    }

    /// Prepare for EM2/EM3: TX and SCLK routing disabled, the rest of the route-enable
    /// register kept.
    pub fn enter_em23(&self, routes: &mut EusartRoutes)
        ensures
            *final(routes) == spec_with_route(
                *old(routes),
                T::spec_index(),
                EusartRoute { txpen: false, sclkpen: false, ..spec_route_of(*old(routes), T::spec_index()) },
            ),
    {
        let index = T::index();
        let r0 = get_route(routes, index);
        set_route(routes, index, EusartRoute { txpen: false, sclkpen: false, ..r0 });
    }

    /// Leave EM2/EM3: the EUSART enabled with TX and RX, TX and SCLK routing enabled.
    pub fn exit_em23(&self, regs: &mut EusartRegs, routes: &mut EusartRoutes)
        ensures
            *final(regs) == (EusartRegs { en: true, cmd: spec_cmd(true, false, true, false), ..*old(regs) }),
            *final(routes) == spec_with_route(
                *old(routes),
                T::spec_index(),
                EusartRoute { txpen: true, sclkpen: true, ..spec_route_of(*old(routes), T::spec_index()) },
            ),
    {
        regs.en = true;
        regs.cmd = Cmd { rxen: true, rxdis: false, txen: true, txdis: false };
        let index = T::index();
        let r0 = get_route(routes, index);
        set_route(routes, index, EusartRoute { txpen: true, sclkpen: true, ..r0 });
    }
}


/// Display width in pixels (LS013B7DH03).
pub const DISPLAY_WIDTH: usize = 128;

/// Display height in pixels (LS013B7DH03).
pub const DISPLAY_HEIGHT: usize = 128;

/// Framebuffer size in bytes (1 bit per pixel).
pub const FRAMEBUFFER_SIZE: usize = DISPLAY_WIDTH / 8 * DISPLAY_HEIGHT;

/// Bytes per display line.
pub const ROW_BYTES: usize = DISPLAY_WIDTH / 8;

/// Update command.
pub const CMD_UPDATE: u8 = 0x01;

/// All-clear command.
pub const CMD_ALL_CLEAR: u8 = 0x04;

/// Chip-select setup time before the first byte (from the datasheet), in µs.
pub const SCS_SETUP_US: u32 = 6;

/// Chip-select hold time after the last byte (from the datasheet), in µs.
pub const SCS_HOLD_US: u32 = 2;

/// The busy-wait cycles for a chip-select time: about 20 cycles per microsecond at
/// 20 MHz.
pub fn scs_delay_cycles(us: u32) -> (r: u32)
    requires
        us * 20 <= u32::MAX,
    ensures
        r == us * 20,
{
    us * 20
}

/// Configuration for the high-level [`MemLcd`] driver.
#[derive(Clone, Copy, Debug, PartialEq, Eq)]
pub struct MemLcdConfig {
    /// Enable automatic EXTCOMIN toggling.
    pub extcomin_auto_toggle: bool,
    /// EXTCOMIN toggle frequency in Hz.
    pub extcomin_frequency_hz: u32,
}

impl Default for MemLcdConfig {
    /// Automatic toggling at 60 Hz.
    fn default() -> (r: Self)
        ensures
            r == (MemLcdConfig { extcomin_auto_toggle: true, extcomin_frequency_hz: 60 }),
    {
        MemLcdConfig { extcomin_auto_toggle: true, extcomin_frequency_hz: 60 }
    }
}

/// Whether a pixel position lies on the display.
pub open spec fn in_bounds(x: i32, y: i32) -> bool {
    0 <= x < DISPLAY_WIDTH && 0 <= y < DISPLAY_HEIGHT
}

/// The framebuffer byte that holds pixel `(x, y)`: lines of 16 bytes, 8 pixels per
/// byte.
pub open spec fn pixel_byte(x: int, y: int) -> int {
    y * (ROW_BYTES as int) + x / 8
}

/// Whether pixel `(x, y)` is white: its bit (`x % 8` of its byte) is set.
pub open spec fn pixel_white(fb: Seq<u8>, x: int, y: int) -> bool {
    bit8(fb[pixel_byte(x, y)], (x % 8) as u8)
}

/// The framebuffer after pixel `(x, y)` is drawn: black (bit cleared) when `on`, white
/// (bit set) otherwise; a position off the display changes nothing.
pub open spec fn spec_draw_pixel(fb: Seq<u8>, x: i32, y: i32, on: bool) -> Seq<u8> {
    if in_bounds(x, y) {
        let i = pixel_byte(x as int, y as int);
        let m: u8 = 1u8 << ((x % 8) as u8);
        fb.update(i, if on { fb[i] & !m } else { fb[i] | m })
    } else {
        fb
    }
}

/// A framebuffer whose every byte is `v`.
pub open spec fn spec_filled(v: u8) -> Seq<u8> {
    Seq::new(FRAMEBUFFER_SIZE as nat, |i: int| v)
}

/// What follows the pixel data of line `row`: the next line's address after a
/// 0xFF dummy byte, or two dummy bytes after the last line.
pub open spec fn spec_row_trailer(row: int) -> Seq<u8> {
    if row == DISPLAY_HEIGHT - 1 {
        seq![0xFFu8, 0xFFu8]
    } else {
        seq![0xFFu8, (row + 2) as u8]
    }
}

/// The pixel data and trailers of the first `n` lines.
pub open spec fn spec_rows(fb: Seq<u8>, n: nat) -> Seq<u8>
    decreases n,
{
    if n == 0 {
        Seq::empty()
    } else {
        let row = n - 1;
        spec_rows(fb, (n - 1) as nat) + fb.subrange(row * ROW_BYTES, row * ROW_BYTES + ROW_BYTES) + spec_row_trailer(
            row,
        )
    }
}

/// The byte stream that writes a whole framebuffer: the update command with line
/// address 1, then each line's 16 bytes followed by its trailer.
pub open spec fn spec_frame(fb: Seq<u8>) -> Seq<u8> {
    seq![CMD_UPDATE, 1u8] + spec_rows(fb, DISPLAY_HEIGHT as nat)
}

/// The byte stream of the hardware clear command.
pub open spec fn spec_clear_command() -> Seq<u8> {
    seq![CMD_ALL_CLEAR, 0x00u8]
}

/// The GPIO registers after an output is created on `pin` driven low.
pub open spec fn spec_output_low(g: GpioRegs, pin: AnyPin) -> GpioRegs {
    crate::gpio::spec_gpio_with_output(crate::gpio::spec_gpio_with_mode(g, pin, PortMode::PushPull), pin, false)
}

/// High-level memory LCD driver with framebuffer and EXTCOMIN handling.
pub struct MemLcd<T: Instance> {
    /// The SPI link.
    pub spi: MemLcdSpi<T>,
    /// Chip select (active high).
    pub cs: Output,
    /// DISP_ENABLE.
    pub enable: Output,
    /// EXTCOMIN, when driven by this driver.
    pub extcomin: Option<Output>,
    /// Framebuffer: 1 bit per pixel, 0 is black.
    pub framebuffer: [u8; FRAMEBUFFER_SIZE],
    /// Driver configuration.
    pub config: MemLcdConfig,
}

proof fn lemma_pulse_low(g0: GpioRegs, g1: GpioRegs, g2: GpioRegs, pin: AnyPin)
    requires
        pin.wf(),
        g1.ports@ == crate::gpio::spec_with_output(g0, pin, true),
        g2.ports@ == crate::gpio::spec_with_output(g1, pin, false),
    ensures
        g2 == crate::gpio::spec_gpio_with_output(g0, pin, false),
{
    let d = g0.ports[pin.port_ix()].dout;
    let p = pin.pin_ix();
    assert((d | (1u16 << p)) & !(1u16 << p) == d & !(1u16 << p)) by (bit_vector)
        requires
            p < 16,
    ;
    assert(g2.ports =~= crate::gpio::spec_gpio_with_output(g0, pin, false).ports);
}

impl<T: Instance> MemLcd<T> {
    /// Create the driver with an EXTCOMIN pin: the SPI link as [`MemLcdSpi::new`],
    /// chip select, enable and EXTCOMIN driven low, the framebuffer white.
    pub fn new(
        eusart: T,
        sclk: AnyPin,
        mosi: AnyPin,
        cs: AnyPin,
        enable: AnyPin,
        extcomin: AnyPin,
        spi_config: Config,
        config: MemLcdConfig,
        gpio: &mut GpioRegs,
        routes: &mut EusartRoutes,
        regs: &mut EusartRegs,
    ) -> (r: Self)
        requires
            pin_ok(sclk),
            pin_ok(mosi),
            pin_ok(cs),
            pin_ok(enable),
            pin_ok(extcomin),
            spi_config.bitrate > 0,
        ensures
            r.spi.reverse_bits == spi_config.reverse_bits,
            r.cs.pin.pin == cs,
            r.enable.pin.pin == enable,
            r.extcomin matches Some(e) && e.pin.pin == extcomin,
            r.framebuffer@ == spec_filled(0xFF),
            r.config == config,
            *final(regs) == spec_sync_master(
                *old(regs),
                spi_config.clock_mode.spec_polarity(),
                spi_config.clock_mode.spec_phase(),
                spi_config.msb_first,
                spi_config.bitrate,
            ),
            *final(gpio) == spec_output_low(
                spec_output_low(spec_output_low(spec_spi_pins(*old(gpio), sclk, mosi, None), cs), enable),
                extcomin,
            ),
            *final(routes) == spec_with_route(
                *old(routes),
                T::spec_index(),
                spec_lcd_route(spec_route_of(*old(routes), T::spec_index()), sclk, mosi),
            ),
    {
        let spi = MemLcdSpi::new(eusart, sclk, mosi, spi_config, gpio, routes, regs);
        let cs_out = Output::new(cs, Level::Low, gpio);
        let en_out = Output::new(enable, Level::Low, gpio);
        let ext_out = Output::new(extcomin, Level::Low, gpio);
        let fb = [0xFFu8; FRAMEBUFFER_SIZE];
        proof {
            assert(fb@ =~= spec_filled(0xFF));
        }
        MemLcd { spi, cs: cs_out, enable: en_out, extcomin: Some(ext_out), framebuffer: fb, config }
    }

    /// Create the driver without an EXTCOMIN pin (toggled elsewhere): as
    /// [`new`](Self::new) otherwise.
    pub fn new_without_extcomin(
        eusart: T,
        sclk: AnyPin,
        mosi: AnyPin,
        cs: AnyPin,
        enable: AnyPin,
        spi_config: Config,
        config: MemLcdConfig,
        gpio: &mut GpioRegs,
        routes: &mut EusartRoutes,
        regs: &mut EusartRegs,
    ) -> (r: Self)
        requires
            pin_ok(sclk),
            pin_ok(mosi),
            pin_ok(cs),
            pin_ok(enable),
            spi_config.bitrate > 0,
        ensures
            r.spi.reverse_bits == spi_config.reverse_bits,
            r.cs.pin.pin == cs,
            r.enable.pin.pin == enable,
            r.extcomin is None,
            r.framebuffer@ == spec_filled(0xFF),
            r.config == config,
            *final(regs) == spec_sync_master(
                *old(regs),
                spi_config.clock_mode.spec_polarity(),
                spi_config.clock_mode.spec_phase(),
                spi_config.msb_first,
                spi_config.bitrate,
            ),
            *final(gpio) == spec_output_low(spec_output_low(spec_spi_pins(*old(gpio), sclk, mosi, None), cs), enable),
            *final(routes) == spec_with_route(
                *old(routes),
                T::spec_index(),
                spec_lcd_route(spec_route_of(*old(routes), T::spec_index()), sclk, mosi),
            ),
    {
        let spi = MemLcdSpi::new(eusart, sclk, mosi, spi_config, gpio, routes, regs);
        let cs_out = Output::new(cs, Level::Low, gpio);
        let en_out = Output::new(enable, Level::Low, gpio);
        let fb = [0xFFu8; FRAMEBUFFER_SIZE];
        proof {
            assert(fb@ =~= spec_filled(0xFF));
        }
        MemLcd { spi, cs: cs_out, enable: en_out, extcomin: None, framebuffer: fb, config }
    }

    /// Power the display on: DISP_ENABLE high.
    pub fn power_on(&mut self, gpio: &mut GpioRegs)
        requires
            old(self).enable.pin.pin.wf(),
        ensures
            *final(self) == *old(self),
            final(gpio).ports@ == crate::gpio::spec_with_output(*old(gpio), old(self).enable.pin.pin, true),
    {
        self.enable.set_high(gpio);
    }

    /// Power the display off: DISP_ENABLE low.
    pub fn power_off(&mut self, gpio: &mut GpioRegs)
        requires
            old(self).enable.pin.pin.wf(),
        ensures
            *final(self) == *old(self),
            final(gpio).ports@ == crate::gpio::spec_with_output(*old(gpio), old(self).enable.pin.pin, false),
    {
        self.enable.set_low(gpio);
    }

    /// Whether the display is powered: DISP_ENABLE is driven high.
    pub fn is_powered(&self, gpio: &GpioRegs) -> (r: bool)
        requires
            self.enable.pin.pin.wf(),
        ensures
            r == self.enable.pin.out_of(*gpio),
    {
        self.enable.is_set_high(gpio)
    }

    /// Toggle EXTCOMIN when this driver holds it; otherwise nothing happens.
    pub fn toggle_extcomin(&mut self, gpio: &mut GpioRegs)
        requires
            old(self).extcomin matches Some(e) ==> e.pin.pin.wf(),
        ensures
            *final(self) == *old(self),
            match old(self).extcomin {
                Some(e) => final(gpio).ports@ == crate::gpio::spec_with_output(
                    *old(gpio),
                    e.pin.pin,
                    !e.pin.out_of(*old(gpio)),
                ),
                None => *final(gpio) == *old(gpio),
            },
    {
        match &mut self.extcomin {
            Some(e) => e.toggle(gpio),
            None => {},
        }
    }

    /// Enable or disable automatic EXTCOMIN toggling (the caller publishes the flag to
    /// the toggling task).
    pub fn set_extcomin_auto_toggle(&mut self, enabled: bool)
        ensures
            *final(self) == (MemLcd {
                config: MemLcdConfig { extcomin_auto_toggle: enabled, ..old(self).config },
                ..*old(self)
            }),
    {
        self.config = MemLcdConfig { extcomin_auto_toggle: enabled, ..self.config };
    }

    /// Whether automatic EXTCOMIN toggling is enabled.
    pub fn is_extcomin_auto_toggle(&self) -> (r: bool)
        ensures
            r == self.config.extcomin_auto_toggle,
    {
        self.config.extcomin_auto_toggle
    }

    /// The configured EXTCOMIN frequency in Hz.
    pub fn extcomin_frequency_hz(&self) -> (r: u32)
        ensures
            r == self.config.extcomin_frequency_hz,
    {
        self.config.extcomin_frequency_hz
    }

    /// Clear the display with the hardware clear command and the framebuffer to
    /// white: chip select is raised, the command sent, and chip select lowered (the
    /// caller waits [`scs_delay_cycles`] of [`SCS_SETUP_US`] after raising it and of
    /// [`SCS_HOLD_US`] before lowering it, and for TX complete).
    pub fn clear_hw(&mut self, gpio: &mut GpioRegs, txdata: &mut Vec<u8>)
        requires
            old(self).cs.pin.pin.wf(),
        ensures
            *final(self) == (MemLcd { framebuffer: final(self).framebuffer, ..*old(self) }),
            final(self).framebuffer@ == spec_filled(0xFF),
            final(txdata)@ == old(txdata)@ + spec_wire_seq(old(self).spi.reverse_bits, spec_clear_command()),
            *final(gpio) == crate::gpio::spec_gpio_with_output(*old(gpio), old(self).cs.pin.pin, false),
    {
        let ghost g0 = *gpio;
        self.cs.set_high(gpio);
        let ghost g1 = *gpio;
        let cmd: [u8; 2] = [CMD_ALL_CLEAR, 0x00];
        let _ = self.spi.tx(cmd.as_slice(), txdata);
        proof {
            assert(cmd@ =~= spec_clear_command());
        }
        self.spi.wait();
        self.cs.set_low(gpio);
        proof {
            lemma_pulse_low(g0, g1, *gpio, self.cs.pin.pin);
        }
        self.clear_buffer();
    }

    /// Clear the framebuffer to white without updating the display.
    pub fn clear_buffer(&mut self)
        ensures
            *final(self) == (MemLcd { framebuffer: final(self).framebuffer, ..*old(self) }),
            final(self).framebuffer@ == spec_filled(0xFF),
    {
        self.fill_buffer(true);
    }

    /// Fill the framebuffer with white (0xFF) or black (0x00) without updating the
    /// display.
    pub fn fill_buffer(&mut self, white: bool)
        ensures
            *final(self) == (MemLcd { framebuffer: final(self).framebuffer, ..*old(self) }),
            final(self).framebuffer@ == spec_filled(if white { 0xFFu8 } else { 0x00u8 }),
    {
        let pattern: u8 = if white {
            0xFF
        } else {
            0x00
        };
        let fb = [pattern; FRAMEBUFFER_SIZE];
        proof {
            assert(fb@ =~= spec_filled(pattern));
        }
        self.framebuffer = fb;
    }

    /// Transfer the whole framebuffer to the display: chip select is raised, the frame
    /// stream sent, and chip select lowered (with the waits of
    /// [`clear_hw`](Self::clear_hw)).
    pub fn flush_display(&mut self, gpio: &mut GpioRegs, txdata: &mut Vec<u8>)
        requires
            old(self).cs.pin.pin.wf(),
        ensures
            *final(self) == *old(self),
            final(txdata)@ == old(txdata)@ + spec_wire_seq(old(self).spi.reverse_bits, spec_frame(old(self).framebuffer@)),
            *final(gpio) == crate::gpio::spec_gpio_with_output(*old(gpio), old(self).cs.pin.pin, false),
    {
        let ghost g0 = *gpio;
        self.cs.set_high(gpio);
        let ghost g1 = *gpio;
        let ghost start = txdata@;
        let ghost rev = self.spi.reverse_bits;
        let ghost fbs = self.framebuffer@;
        let cmd: [u8; 2] = [CMD_UPDATE, 1];
        let _ = self.spi.tx(cmd.as_slice(), txdata);
        proof {
            assert(cmd@ =~= seq![CMD_UPDATE, 1u8]);
            assert(spec_rows(fbs, 0) =~= Seq::<u8>::empty());
            assert(seq![CMD_UPDATE, 1u8] + spec_rows(fbs, 0) =~= seq![CMD_UPDATE, 1u8]);
        }
        let mut row: usize = 0;
        while row < DISPLAY_HEIGHT
            invariant
                row <= DISPLAY_HEIGHT,
                self.spi.reverse_bits == rev,
                self.framebuffer@ == fbs,
                fbs.len() == FRAMEBUFFER_SIZE,
                *self == *old(self),
                txdata@ == start + spec_wire_seq(rev, seq![CMD_UPDATE, 1u8] + spec_rows(fbs, row as nat)),
            decreases DISPLAY_HEIGHT - row,
        {
            let start_ix = row * ROW_BYTES;
            let end_ix = start_ix + ROW_BYTES;
            let fb_slice: &[u8] = self.framebuffer.as_slice();
            let line: &[u8] = &fb_slice[start_ix..end_ix];
            let ghost before = txdata@;
            let _ = self.spi.tx(line, txdata);
            let trailer: [u8; 2] = if row == DISPLAY_HEIGHT - 1 {
                [0xFF, 0xFF]
            } else {
                [0xFF, (row + 2) as u8]
            };
            let _ = self.spi.tx(trailer.as_slice(), txdata);
            proof {
                assert(trailer@ =~= spec_row_trailer(row as int));
                let prefix = seq![CMD_UPDATE, 1u8] + spec_rows(fbs, row as nat);
                let chunk = fbs.subrange(start_ix as int, end_ix as int);
                assert(spec_rows(fbs, (row + 1) as nat) == spec_rows(fbs, row as nat) + chunk + spec_row_trailer(
                    row as int,
                ));
                assert(seq![CMD_UPDATE, 1u8] + spec_rows(fbs, (row + 1) as nat) =~= prefix + chunk
                    + spec_row_trailer(row as int));
                assert(spec_wire_seq(rev, prefix + chunk + spec_row_trailer(row as int)) =~= spec_wire_seq(rev, prefix)
                    + spec_wire_seq(rev, chunk) + spec_wire_seq(rev, spec_row_trailer(row as int)));
            }
            row = row + 1;
        }
        self.spi.wait();
        self.cs.set_low(gpio);
        proof {
            lemma_pulse_low(g0, g1, *gpio, self.cs.pin.pin);
        }
    }

    /// The framebuffer.
    pub fn framebuffer(&self) -> (r: &[u8; FRAMEBUFFER_SIZE])
        ensures
            *r == self.framebuffer,
    {
        &self.framebuffer
    }

    /// The framebuffer, for direct modification (call
    /// [`flush_display`](Self::flush_display) afterwards).
    pub fn framebuffer_mut(&mut self) -> (r: &mut [u8; FRAMEBUFFER_SIZE])
        ensures
            *r == old(self).framebuffer,
            *final(self) == (MemLcd { framebuffer: *final(r), ..*old(self) }),
    {
        &mut self.framebuffer
    }

    /// The underlying SPI driver, for direct use.
    pub fn spi_mut(&mut self) -> (r: &mut MemLcdSpi<T>)
        ensures
            *r == old(self).spi,
            *final(self) == (MemLcd { spi: *final(r), ..*old(self) }),
    {
        &mut self.spi
    }

    /// The EXTCOMIN output, when this driver holds it.
    pub fn extcomin_pin_mut(&mut self) -> (r: Option<&mut Output>)
        ensures
            r is Some <==> old(self).extcomin is Some,
            r matches Some(p) ==> old(self).extcomin == Some(*p),
            r matches Some(p) ==> *final(self) == (MemLcd { extcomin: Some(*final(p)), ..*old(self) }),
            r is None ==> *final(self) == *old(self),
    {
        self.extcomin.as_mut()
    }

    /// The underlying SPI driver.
    pub fn spi(&self) -> (r: &MemLcdSpi<T>)
        ensures
            *r == self.spi,
    {
        &self.spi
    }

    /// Whether this driver holds an EXTCOMIN pin.
    pub fn has_extcomin(&self) -> (r: bool)
        ensures
            r == self.extcomin is Some,
    {
        self.extcomin.is_some()
    }

    /// Draw one pixel: black when `on`, white otherwise; positions off the display are
    /// ignored.
    pub fn draw_pixel(&mut self, x: i32, y: i32, on: bool)
        ensures
            *final(self) == (MemLcd { framebuffer: final(self).framebuffer, ..*old(self) }),
            final(self).framebuffer@ == spec_draw_pixel(old(self).framebuffer@, x, y, on),
    {
        if x >= 0 && x < 128 && y >= 0 && y < 128 {
            let xu = x as usize;
            let yu = y as usize;
            let byte_idx = yu * ROW_BYTES + xu / 8;
            let bit_idx = (xu % 8) as u8;
            let m: u8 = 1u8 << bit_idx;
            let mut fb = self.framebuffer;
            if on {
                fb[byte_idx] = fb[byte_idx] & !m;
            } else {
                fb[byte_idx] = fb[byte_idx] | m;
            }
            proof {
                assert(fb@ =~= spec_draw_pixel(old(self).framebuffer@, x, y, on));
            }
            self.framebuffer = fb;
        }
    }
}

/// Drawing a pixel and reading a pixel back: the pixel drawn reads as white exactly
/// when drawn white, every other pixel keeps its color.
pub proof fn lemma_draw_pixel_reads_back(fb: Seq<u8>, x: i32, y: i32, on: bool, x2: i32, y2: i32)
    requires
        fb.len() == FRAMEBUFFER_SIZE,
        in_bounds(x, y),
        in_bounds(x2, y2),
    ensures
        pixel_white(spec_draw_pixel(fb, x, y, on), x2 as int, y2 as int) == (if x2 == x && y2 == y {
            !on
        } else {
            pixel_white(fb, x2 as int, y2 as int)
        }),
{
    let i = pixel_byte(x as int, y as int);
    let i2 = pixel_byte(x2 as int, y2 as int);
    let b: u8 = (x % 8) as u8;
    let b2: u8 = (x2 % 8) as u8;
    assert(ROW_BYTES == 16 && FRAMEBUFFER_SIZE == 2048);
    assert(0 <= i < 2048 && 0 <= i2 < 2048) by (nonlinear_arith)
        requires
            i == y * 16 + x / 8,
            i2 == y2 * 16 + x2 / 8,
            0 <= x < 128,
            0 <= y < 128,
            0 <= x2 < 128,
            0 <= y2 < 128,
    ;
    let v = fb[i];
    if i == i2 {
        assert(y == y2 && x / 8 == x2 / 8) by (nonlinear_arith)
            requires
                y * 16 + x / 8 == y2 * 16 + x2 / 8,
                0 <= x < 128,
                0 <= y < 128,
                0 <= x2 < 128,
                0 <= y2 < 128,
        ;
        assert(bit8(v & !(1u8 << b), b2) == (b2 != b && bit8(v, b2))) by (bit_vector)
            requires
                b < 8,
                b2 < 8,
        ;
        assert(bit8(v | (1u8 << b), b2) == (b2 == b || bit8(v, b2))) by (bit_vector)
            requires
                b < 8,
                b2 < 8,
        ;
    }
}

/// The EXTCOMIN toggle frequency for a display frequency: two edges per period.
pub fn extcomin_toggle_frequency(frequency_hz: u32) -> (r: u32)
    requires
        frequency_hz * 2 <= u32::MAX,
    ensures
        r == frequency_hz * 2,
{
    frequency_hz * 2
}

/// One tick of the EXTCOMIN task: the pin is toggled only when automatic toggling is
/// enabled.
pub fn extcomin_tick(auto_enabled: bool) -> (toggle: bool)
    ensures
        toggle == auto_enabled,
{
    auto_enabled
}

/// The SPI clock modes in declaration order, mode 0 to mode 3.
pub open spec fn clock_mode_order() -> Seq<ClockMode> {
    seq![
        ClockMode::Mode0,
        ClockMode::Mode1,
        ClockMode::Mode2,
        ClockMode::Mode3,
    ]
}

/// SPI mode k is CPOL = k / 2 and CPHA = k % 2: modes 2 and 3 idle high, modes 1 and 3
/// sample on the trailing edge, and no two modes share both polarity and phase.
pub proof fn lemma_clock_mode_bits(m: ClockMode)
    ensures
        forall|k: int|
            0 <= k < 4 ==> ((#[trigger] clock_mode_order()[k]).spec_polarity() == (if k >= 2 { Clkpol::IdleHigh } else { Clkpol::IdleLow }))
                && (clock_mode_order()[k].spec_phase() == (if k % 2 == 1 { Clkpha::SampleTrailing } else { Clkpha::SampleLeading })),
        clock_mode_order().contains(m),
        forall|q: ClockMode| #[trigger] q.spec_polarity() == m.spec_polarity() && q.spec_phase() == m.spec_phase() ==> q == m,
{
    let o = clock_mode_order();
    assert forall|k: int| 0 <= k < 4 implies (o[k].spec_polarity() == (if k >= 2 { Clkpol::IdleHigh } else { Clkpol::IdleLow }))
        && (o[k].spec_phase() == (if k % 2 == 1 { Clkpha::SampleTrailing } else { Clkpha::SampleLeading })) by {
        if k == 0 {
            assert(o[0] == ClockMode::Mode0);
        } else if k == 1 {
            assert(o[1] == ClockMode::Mode1);
        } else if k == 2 {
            assert(o[2] == ClockMode::Mode2);
        } else if k == 3 {
            assert(o[3] == ClockMode::Mode3);
        }
    }
    match m {
        ClockMode::Mode0 => assert(o[0] == m),
        ClockMode::Mode1 => assert(o[1] == m),
        ClockMode::Mode2 => assert(o[2] == m),
        ClockMode::Mode3 => assert(o[3] == m),
    }
}

} // verus!
