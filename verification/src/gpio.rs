//! General purpose input/output (GPIO) logic.
//!
//! Pin operations are expressed over [`GpioRegs`], a model of the four GPIO ports'
//! mode, output and input registers. A pin is identified by `pin_port`, the port
//! number times 16 plus the pin number within the port.
use vstd::array::spec_array_update;
use vstd::prelude::*;

verus! {

/// Digital input or output level.
#[derive(Clone, Copy, Debug, Eq, PartialEq)]
pub enum Level {
    /// Logical low.
    Low,
    /// Logical high.
    High,
}

impl Level {
    /// The level of a boolean: `true` is high.
    pub open spec fn spec_from_bool(val: bool) -> Level {
        if val {
            Level::High
        } else {
            Level::Low
        }
    }

    /// The level of a boolean: `true` is high.
    pub fn from_bool(val: bool) -> (r: Level)
        ensures
            r == Level::spec_from_bool(val),
    {
        match val {
            true => Level::High,
            false => Level::Low,
        }
    }

    /// The boolean of a level: high is `true`.
    pub fn to_bool(self) -> (r: bool)
        ensures
            r == (self == Level::High),
    {
        match self {
            Level::Low => false,
            Level::High => true,
        }
    }
}

impl From<bool> for Level {
    /// `true` is high.
    fn from(val: bool) -> (r: Level) {
        Level::from_bool(val)
    }
}

impl vstd::std_specs::convert::FromSpecImpl<bool> for Level {
    open spec fn obeys_from_spec() -> bool {
        true
    }

    open spec fn from_spec(val: bool) -> Level {
        Level::spec_from_bool(val)
    }
}

impl From<Level> for bool {
    /// High is `true`.
    fn from(level: Level) -> (r: bool) {
        level.to_bool()
    }
}

impl vstd::std_specs::convert::FromSpecImpl<Level> for bool {
    open spec fn obeys_from_spec() -> bool {
        true
    }

    open spec fn from_spec(level: Level) -> bool {
        level == Level::High
    }
}

/// Pin mode of a GPIO pin (MODEx field values).
#[derive(Clone, Copy, Debug, Eq, PartialEq)]
pub enum PortMode {
    /// Input and output disabled.
    Disabled,
    /// Input enabled.
    Input,
    /// Input enabled with pull (direction from DOUT).
    InputPull,
    /// Input enabled with pull and filter.
    InputPullFilter,
    /// Push-pull output.
    PushPull,
    /// Push-pull output with alternate control.
    PushPullAlt,
    /// Wired-OR output.
    WiredOr,
    /// Wired-OR output with pull-down.
    WiredOrPullDown,
    /// Open-drain output.
    WiredAnd,
    /// Open-drain output with filter.
    WiredAndFilter,
    /// Open-drain output with pull-up.
    WiredAndPullUp,
    /// Open-drain output with pull-up and filter.
    WiredAndPullUpFilter,
    /// Open-drain output with alternate control.
    WiredAndAlt,
    /// Open-drain output with alternate control and filter.
    WiredAndAltFilter,
    /// Open-drain output with alternate control and pull-up.
    WiredAndAltPullUp,
    /// Open-drain output with alternate control, pull-up and filter.
    WiredAndAltPullUpFilter,
}

/// The mode, output and input registers of one GPIO port.
#[derive(Clone, Copy, Debug, Eq, PartialEq)]
pub struct GpioPortRegs {
    /// MODEL: modes of pins 0 to 7.
    pub model: [PortMode; 8],
    /// MODEH: modes of pins 8 to 15.
    pub modeh: [PortMode; 8],
    /// DOUT.DOUT
    pub dout: u16,
    /// DIN.DIN
    pub din: u16,
}

/// The GPIO register model: ports A to D.
#[derive(Clone, Copy, Debug, Eq, PartialEq)]
pub struct GpioRegs {
    /// Ports A, B, C and D.
    pub ports: [GpioPortRegs; 4],
}

/// The mode of `pin`: field `pin` of MODEL for pins 0 to 7 of a port, field `pin - 8`
/// of MODEH for pins 8 to 15.
pub open spec fn spec_pin_mode(regs: GpioRegs, pin: AnyPin) -> PortMode {
    let p = regs.ports[pin.port_ix()];
    if pin.pin_ix() < 8 {
        p.model[pin.pin_ix() as int]
    } else {
        p.modeh[pin.pin_ix() - 8]
    }
}

/// The GPIO registers after the mode of `pin` is written: its field of MODEL (pins 0
/// to 7) or MODEH (pins 8 to 15), nothing else.
pub open spec fn spec_gpio_with_mode(regs: GpioRegs, pin: AnyPin, mode: PortMode) -> GpioRegs {
    let p = regs.ports[pin.port_ix()];
    GpioRegs {
        ports: spec_array_update(
            regs.ports,
            pin.port_ix(),
            if pin.pin_ix() < 8 {
                GpioPortRegs { model: spec_array_update(p.model, pin.pin_ix() as int, mode), ..p }
            } else {
                GpioPortRegs { modeh: spec_array_update(p.modeh, pin.pin_ix() - 8, mode), ..p }
            },
        ),
    }
}

/// The GPIO registers after the output bit of `pin` is written with `high`.
pub open spec fn spec_gpio_with_output(regs: GpioRegs, pin: AnyPin, high: bool) -> GpioRegs {
    let p = regs.ports[pin.port_ix()];
    GpioRegs {
        ports: spec_array_update(
            regs.ports,
            pin.port_ix(),
            GpioPortRegs {
                dout: if high { p.dout | (1u16 << pin.pin_ix()) } else { p.dout & !(1u16 << pin.pin_ix()) },
                ..p
            },
        ),
    }
}

/// Bit `pin` of a 16-bit register value.
pub open spec fn bit16(v: u16, pin: u8) -> bool {
    (v >> pin) & 1 == 1
}

/// Type-erased GPIO pin.
#[derive(Clone, Copy, Debug, Eq, PartialEq)]
pub struct AnyPin {
    /// Port number times 16 plus pin number.
    pub pin_port: u8,
}

/// Interface of a pin that drivers can configure.
pub trait Pin {
    /// The pin's port number times 16 plus its pin number.
    spec fn spec_pin_port(&self) -> u8;

    /// The pin's port number times 16 plus its pin number.
    fn pin_port(&self) -> (r: u8)
        ensures
            r == self.spec_pin_port(),
    ;

    /// Number of the pin within the port (0..15).
    fn pin(&self) -> (r: u8)
        ensures
            r == self.spec_pin_port() % 16,
    {
        self.pin_port() % 16
    }

    /// Number of the port (A is 0).
    fn port(&self) -> (r: u8)
        ensures
            r == self.spec_pin_port() / 16,
    {
        self.pin_port() / 16
    }
}

impl Pin for AnyPin {
    open spec fn spec_pin_port(&self) -> u8 {
        self.pin_port
    }

    fn pin_port(&self) -> (r: u8) {
        self.pin_port
    }
}

impl AnyPin {
    /// A pin exists on ports A to D.
    pub open spec fn wf(self) -> bool {
        self.pin_port < 64
    }

    /// The port index of the pin.
    pub open spec fn port_ix(self) -> int {
        (self.pin_port / 16) as int
    }

    /// The pin index within its port.
    pub open spec fn pin_ix(self) -> u8 {
        self.pin_port % 16
    }

    /// Create an [AnyPin] for a specific pin.
    pub fn steal(pin_port: u8) -> (r: AnyPin)
        ensures
            r.pin_port == pin_port,
    {
        AnyPin { pin_port }
    }

    /// Whether the pin's input level is high.
    pub fn din(&self, regs: &GpioRegs) -> (r: bool)
        requires
            self.wf(),
        ensures
            r == bit16(regs.ports[self.port_ix()].din, self.pin_ix()),
    {
        let port = (self.pin_port / 16) as usize;
        let pin = self.pin_port % 16;
        let din = regs.ports[port].din;
        assert(((din & (1u16 << pin)) != 0) == ((din >> pin) & 1 == 1)) by (bit_vector)
            requires pin < 16;
        din & (1u16 << pin) != 0
    }

    /// Whether the pin's output register bit is set.
    pub fn dout_r(&self, regs: &GpioRegs) -> (r: bool)
        requires
            self.wf(),
        ensures
            r == bit16(regs.ports[self.port_ix()].dout, self.pin_ix()),
    {
        let port = (self.pin_port / 16) as usize;
        let pin = self.pin_port % 16;
        let dout = regs.ports[port].dout;
        assert(((dout & (1u16 << pin)) != 0) == ((dout >> pin) & 1 == 1)) by (bit_vector)
            requires pin < 16;
        dout & (1u16 << pin) != 0
    }

    /// The pin's mode: from MODEL for pins 0 to 7, MODEH for pins 8 to 15.
    pub fn mode_r(&self, regs: &GpioRegs) -> (r: PortMode)
        requires
            self.wf(),
        ensures
            r == spec_pin_mode(*regs, *self),
    {
        let port = (self.pin_port / 16) as usize;
        let pin = (self.pin_port % 16) as usize;
        if pin < 8 {
            regs.ports[port].model[pin]
        } else {
            regs.ports[port].modeh[pin - 8]
        }
    }

    /// Write the pin's mode (its field of MODEL or MODEH); nothing else changes.
    pub fn mode_w(&self, regs: &mut GpioRegs, val: PortMode)
        requires
            self.wf(),
        ensures
            *final(regs) == spec_gpio_with_mode(*old(regs), *self, val),
    {
        let port = (self.pin_port / 16) as usize;
        let pin = (self.pin_port % 16) as usize;
        let mut ports = regs.ports;
        let p = ports[port];
        if pin < 8 {
            let mut model = p.model;
            model[pin] = val;
            ports[port] = GpioPortRegs { model, ..p };
            proof {
                assert(model =~= spec_array_update(p.model, pin as int, val));
            }
        } else {
            let mut modeh = p.modeh;
            modeh[pin - 8] = val;
            ports[port] = GpioPortRegs { modeh, ..p };
            proof {
                assert(modeh =~= spec_array_update(p.modeh, pin - 8, val));
            }
        }
        regs.ports = ports;
        proof {
            let expected = spec_gpio_with_mode(*old(regs), *self, val);
            assert(regs.ports =~= expected.ports);
        }
    }

    /// Set the output as high: only this pin's DOUT bit is set.
    pub fn set_high(&self, regs: &mut GpioRegs)
        requires
            self.wf(),
        ensures
            *final(regs) == spec_gpio_with_output(*old(regs), *self, true),
            final(regs).ports@ == old(regs).ports@.update(
                self.port_ix(),
                GpioPortRegs {
                    dout: old(regs).ports[self.port_ix()].dout | (1u16 << self.pin_ix()),
                    ..old(regs).ports[self.port_ix()]
                },
            ),
    {
        let port = (self.pin_port / 16) as usize;
        let pin = self.pin_port % 16;
        let mut ports = regs.ports;
        let p = ports[port];
        ports[port] = GpioPortRegs { dout: p.dout | (1u16 << pin), ..p };
        regs.ports = ports;
        proof {
            assert(regs.ports =~= spec_gpio_with_output(*old(regs), *self, true).ports);
        }
    }

    /// Set the output as low: only this pin's DOUT bit is cleared.
    pub fn set_low(&self, regs: &mut GpioRegs)
        requires
            self.wf(),
        ensures
            *final(regs) == spec_gpio_with_output(*old(regs), *self, false),
            final(regs).ports@ == old(regs).ports@.update(
                self.port_ix(),
                GpioPortRegs {
                    dout: old(regs).ports[self.port_ix()].dout & !(1u16 << self.pin_ix()),
                    ..old(regs).ports[self.port_ix()]
                },
            ),
    {
        let port = (self.pin_port / 16) as usize;
        let pin = self.pin_port % 16;
        let mut ports = regs.ports;
        let p = ports[port];
        ports[port] = GpioPortRegs { dout: p.dout & !(1u16 << pin), ..p };
        regs.ports = ports;
        proof {
            assert(regs.ports =~= spec_gpio_with_output(*old(regs), *self, false).ports);
        }
    }
}

/// After setting a pin high its output bit reads set, after setting it low it
/// reads clear, and the output bits of every other pin of the port are unchanged.
pub proof fn lemma_set_high_low_bits(dout: u16, pin: u8, other: u8)
    requires
        pin < 16,
        other < 16,
        other != pin,
    ensures
        bit16(dout | (1u16 << pin), pin),
        !bit16(dout & !(1u16 << pin), pin),
        bit16(dout | (1u16 << pin), other) == bit16(dout, other),
        bit16(dout & !(1u16 << pin), other) == bit16(dout, other),
{
    assert(
        ((dout | (1u16 << pin)) >> pin) & 1 == 1
        && !(((dout & !(1u16 << pin)) >> pin) & 1 == 1)
        && ((((dout | (1u16 << pin)) >> other) & 1 == 1) == ((dout >> other) & 1 == 1))
        && ((((dout & !(1u16 << pin)) >> other) & 1 == 1) == ((dout >> other) & 1 == 1))
    ) by (bit_vector)
        requires pin < 16, other < 16, other != pin;
}

/// Whether a mode is one of the input modes accepted by [`Flex::set_as_input`].
pub open spec fn is_input_mode(mode: PortMode) -> bool {
    mode == PortMode::Input || mode == PortMode::InputPull || mode == PortMode::InputPullFilter
}

/// Whether a mode is one of the modes accepted by [`Flex::set_as_input_output`].
pub open spec fn is_input_output_mode(mode: PortMode) -> bool {
    !(mode == PortMode::Disabled || is_input_mode(mode) || mode == PortMode::PushPull)
}

/// GPIO flexible pin: can be disconnected, input, output, or both.
#[derive(Debug, Eq, PartialEq)]
pub struct Flex {
    /// The pin driven.
    pub pin: AnyPin,
}

impl Flex {
    /// Wrap the pin in a `Flex` (nothing is written: the pin stays disconnected).
    pub fn new(pin: AnyPin) -> (r: Self)
        ensures
            r.pin == pin,
    {
        Flex { pin }
    }

    /// The pin is driveable by the mode register operations.
    pub open spec fn wf(&self) -> bool {
        self.pin.wf()
    }

    /// The mode of the pin in a register model.
    pub open spec fn mode_of(&self, regs: GpioRegs) -> PortMode {
        spec_pin_mode(regs, self.pin)
    }

    /// The output bit of the pin in a register model.
    pub open spec fn out_of(&self, regs: GpioRegs) -> bool {
        bit16(regs.ports[self.pin.port_ix()].dout, self.pin.pin_ix())
    }

    /// Put the pin into one of the input modes (any other mode is refused).
    pub fn set_as_input(&mut self, regs: &mut GpioRegs, mode: PortMode)
        requires
            old(self).wf(),
            is_input_mode(mode),
        ensures
            *final(self) == *old(self),
            *final(regs) == spec_gpio_with_mode(*old(regs), old(self).pin, mode),
    {
        self.pin.mode_w(regs, mode);
    }

    /// Put the pin into push-pull output mode.
    pub fn set_as_output(&mut self, regs: &mut GpioRegs)
        requires
            old(self).wf(),
        ensures
            *final(self) == *old(self),
            *final(regs) == spec_gpio_with_mode(*old(regs), old(self).pin, PortMode::PushPull),
    {
        self.pin.mode_w(regs, PortMode::PushPull)
    }

    /// Put the pin into an input + output mode (wired-OR / wired-AND families; the
    /// plain input, push-pull and disabled modes are refused).
    pub fn set_as_input_output(&mut self, regs: &mut GpioRegs, mode: PortMode)
        requires
            old(self).wf(),
            is_input_output_mode(mode),
        ensures
            *final(self) == *old(self),
            *final(regs) == spec_gpio_with_mode(*old(regs), old(self).pin, mode),
    {
        self.pin.mode_w(regs, mode)
    }

    /// Put the pin into disconnected mode.
    pub fn set_as_disabled(&mut self, regs: &mut GpioRegs)
        requires
            old(self).wf(),
        ensures
            *final(self) == *old(self),
            *final(regs) == spec_gpio_with_mode(*old(regs), old(self).pin, PortMode::Disabled),
    {
        self.pin.mode_w(regs, PortMode::Disabled);
    }

    /// Tear the pin down: it is put into disconnected mode.
    pub fn release(self, regs: &mut GpioRegs)
        requires
            self.wf(),
        ensures
            *final(regs) == spec_gpio_with_mode(*old(regs), self.pin, PortMode::Disabled),
    {
        self.pin.mode_w(regs, PortMode::Disabled);
    }

    /// Get whether the pin input level is high.
    pub fn is_high(&self, regs: &GpioRegs) -> (r: bool)
        requires
            self.pin.wf(),
        ensures
            r == bit16(regs.ports[self.pin.port_ix()].din, self.pin.pin_ix()),
    {
        self.pin.din(regs)
    }

    /// Get whether the pin input level is low.
    pub fn is_low(&self, regs: &GpioRegs) -> (r: bool)
        requires
            self.pin.wf(),
        ensures
            r == !bit16(regs.ports[self.pin.port_ix()].din, self.pin.pin_ix()),
    {
        !self.is_high(regs)
    }

    /// Get the pin input level.
    pub fn get_level(&self, regs: &GpioRegs) -> (r: Level)
        requires
            self.pin.wf(),
        ensures
            r == Level::spec_from_bool(bit16(regs.ports[self.pin.port_ix()].din, self.pin.pin_ix())),
    {
        Level::from_bool(self.is_high(regs))
    }

    /// Set the output as high.
    pub fn set_high(&mut self, regs: &mut GpioRegs)
        requires
            old(self).pin.wf(),
        ensures
            *final(self) == *old(self),
            final(regs).ports@ == old(regs).ports@.update(
                old(self).pin.port_ix(),
                GpioPortRegs {
                    dout: old(regs).ports[old(self).pin.port_ix()].dout | (1u16 << old(self).pin.pin_ix()),
                    ..old(regs).ports[old(self).pin.port_ix()]
                },
            ),
    {
        self.pin.set_high(regs)
    }

    /// Set the output as low.
    pub fn set_low(&mut self, regs: &mut GpioRegs)
        requires
            old(self).pin.wf(),
        ensures
            *final(self) == *old(self),
            final(regs).ports@ == old(regs).ports@.update(
                old(self).pin.port_ix(),
                GpioPortRegs {
                    dout: old(regs).ports[old(self).pin.port_ix()].dout & !(1u16 << old(self).pin.pin_ix()),
                    ..old(regs).ports[old(self).pin.port_ix()]
                },
            ),
    {
        self.pin.set_low(regs)
    }

    /// Toggle the output level: set high when the output bit is clear, low otherwise.
    pub fn toggle(&mut self, regs: &mut GpioRegs)
        requires
            old(self).pin.wf(),
        ensures
            *final(self) == *old(self),
            final(regs).ports@ == old(regs).ports@.update(
                old(self).pin.port_ix(),
                GpioPortRegs {
                    dout: if old(self).out_of(*old(regs)) {
                        old(regs).ports[old(self).pin.port_ix()].dout & !(1u16 << old(self).pin.pin_ix())
                    } else {
                        old(regs).ports[old(self).pin.port_ix()].dout | (1u16 << old(self).pin.pin_ix())
                    },
                    ..old(regs).ports[old(self).pin.port_ix()]
                },
            ),
    {
        if self.is_set_low(regs) {
            self.set_high(regs)
        } else {
            self.set_low(regs)
        }
    }

    /// Set the output level.
    pub fn set_level(&mut self, regs: &mut GpioRegs, level: Level)
        requires
            old(self).pin.wf(),
        ensures
            *final(self) == *old(self),
            final(regs).ports@ == old(regs).ports@.update(
                old(self).pin.port_ix(),
                GpioPortRegs {
                    dout: if level == Level::High {
                        old(regs).ports[old(self).pin.port_ix()].dout | (1u16 << old(self).pin.pin_ix())
                    } else {
                        old(regs).ports[old(self).pin.port_ix()].dout & !(1u16 << old(self).pin.pin_ix())
                    },
                    ..old(regs).ports[old(self).pin.port_ix()]
                },
            ),
    {
        match level {
            Level::Low => self.pin.set_low(regs),
            Level::High => self.pin.set_high(regs),
        }
    }

    /// Get whether the output level is set to high.
    pub fn is_set_high(&self, regs: &GpioRegs) -> (r: bool)
        requires
            self.pin.wf(),
        ensures
            r == self.out_of(*regs),
    {
        self.pin.dout_r(regs)
    }

    /// Get whether the output level is set to low.
    pub fn is_set_low(&self, regs: &GpioRegs) -> (r: bool)
        requires
            self.pin.wf(),
        ensures
            r == !self.out_of(*regs),
    {
        !self.is_set_high(regs)
    }

    /// Get the current output level.
    pub fn get_output_level(&self, regs: &GpioRegs) -> (r: Level)
        requires
            self.pin.wf(),
        ensures
            r == Level::spec_from_bool(self.out_of(*regs)),
    {
        Level::from_bool(self.is_set_high(regs))
    }
}

/// The port registers after the output bit of `pin` is written with `high`.
pub open spec fn spec_with_output(regs: GpioRegs, pin: AnyPin, high: bool) -> Seq<GpioPortRegs> {
    regs.ports@.update(
        pin.port_ix(),
        GpioPortRegs {
            dout: if high {
                regs.ports[pin.port_ix()].dout | (1u16 << pin.pin_ix())
            } else {
                regs.ports[pin.port_ix()].dout & !(1u16 << pin.pin_ix())
            },
            ..regs.ports[pin.port_ix()]
        },
    )
}

/// Writing a level to an output and reading the output level back gives the level
/// written; toggling twice restores the output bit.
pub proof fn lemma_output_level_roundtrip(dout: u16, pin: u8)
    requires
        pin < 16,
    ensures
        bit16(dout | (1u16 << pin), pin),
        !bit16(dout & !(1u16 << pin), pin),
        bit16(dout, pin) ==> (dout & !(1u16 << pin)) | (1u16 << pin) == dout,
        !bit16(dout, pin) ==> (dout | (1u16 << pin)) & !(1u16 << pin) == dout,
{
    assert(
        ((dout | (1u16 << pin)) >> pin) & 1 == 1
        && !(((dout & !(1u16 << pin)) >> pin) & 1 == 1)
        && (((dout >> pin) & 1 == 1) ==> (dout & !(1u16 << pin)) | (1u16 << pin) == dout)
        && (!((dout >> pin) & 1 == 1) ==> (dout | (1u16 << pin)) & !(1u16 << pin) == dout)
    ) by (bit_vector)
        requires pin < 16;
}

/// GPIO output driver.
#[derive(Debug, Eq, PartialEq)]
pub struct Output {
    /// The underlying flexible pin.
    pub pin: Flex,
}

impl Output {
    /// Create an output driver: the pin is put in push-pull mode and driven to the
    /// initial level.
    pub fn new(pin: AnyPin, initial_output: Level, regs: &mut GpioRegs) -> (r: Self)
        requires
            pin.wf(),
        ensures
            r.pin.pin == pin,
            *final(regs) == spec_gpio_with_output(
                spec_gpio_with_mode(*old(regs), pin, PortMode::PushPull),
                pin,
                initial_output == Level::High,
            ),
    {
        let mut f = Flex::new(pin);
        f.set_as_output(regs);
        let ghost mid = *regs;
        match initial_output {
            Level::High => f.set_high(regs),
            Level::Low => f.set_low(regs),
        }
        proof {
            let e = spec_gpio_with_output(mid, pin, initial_output == Level::High);
            assert(regs.ports@ =~= e.ports@);
            assert(regs.ports =~= e.ports);
        }
        Output { pin: f }
    }

    /// Set the output as high.
    pub fn set_high(&mut self, regs: &mut GpioRegs)
        requires
            old(self).pin.pin.wf(),
        ensures
            *final(self) == *old(self),
            final(regs).ports@ == spec_with_output(*old(regs), old(self).pin.pin, true),
    {
        self.pin.set_high(regs)
    }

    /// Set the output as low.
    pub fn set_low(&mut self, regs: &mut GpioRegs)
        requires
            old(self).pin.pin.wf(),
        ensures
            *final(self) == *old(self),
            final(regs).ports@ == spec_with_output(*old(regs), old(self).pin.pin, false),
    {
        self.pin.set_low(regs)
    }

    /// Toggle the output level.
    pub fn toggle(&mut self, regs: &mut GpioRegs)
        requires
            old(self).pin.pin.wf(),
        ensures
            *final(self) == *old(self),
            final(regs).ports@ == spec_with_output(*old(regs), old(self).pin.pin, !old(self).pin.out_of(*old(regs))),
    {
        self.pin.toggle(regs)
    }

    /// Set the output level.
    pub fn set_level(&mut self, regs: &mut GpioRegs, level: Level)
        requires
            old(self).pin.pin.wf(),
        ensures
            *final(self) == *old(self),
            final(regs).ports@ == spec_with_output(*old(regs), old(self).pin.pin, level == Level::High),
    {
        self.pin.set_level(regs, level)
    }

    /// Get whether the output level is set to high.
    pub fn is_set_high(&self, regs: &GpioRegs) -> (r: bool)
        requires
            self.pin.pin.wf(),
        ensures
            r == self.pin.out_of(*regs),
    {
        self.pin.is_set_high(regs)
    }

    /// Get whether the output level is set to low.
    pub fn is_set_low(&self, regs: &GpioRegs) -> (r: bool)
        requires
            self.pin.pin.wf(),
        ensures
            r == !self.pin.out_of(*regs),
    {
        self.pin.is_set_low(regs)
    }

    /// Get the current output level.
    pub fn get_output_level(&self, regs: &GpioRegs) -> (r: Level)
        requires
            self.pin.pin.wf(),
        ensures
            r == Level::spec_from_bool(self.pin.out_of(*regs)),
    {
        self.pin.get_output_level(regs)
    }
}

/// GPIO input driver.
#[derive(Debug, Eq, PartialEq)]
pub struct Input {
    /// The underlying flexible pin.
    pub pin: Flex,
}

impl Input {
    /// Create an input driver: the pin is put in the given input mode.
    pub fn new(pin: AnyPin, mode: PortMode, regs: &mut GpioRegs) -> (r: Self)
        requires
            pin.wf(),
            is_input_mode(mode),
        ensures
            r.pin.pin == pin,
            *final(regs) == spec_gpio_with_mode(*old(regs), pin, mode),
    {
        let mut f = Flex::new(pin);
        f.set_as_input(regs, mode);
        Input { pin: f }
    }

    /// Get whether the pin input level is high.
    pub fn is_high(&self, regs: &GpioRegs) -> (r: bool)
        requires
            self.pin.pin.wf(),
        ensures
            r == bit16(regs.ports[self.pin.pin.port_ix()].din, self.pin.pin.pin_ix()),
    {
        self.pin.is_high(regs)
    }

    /// Get whether the pin input level is low.
    pub fn is_low(&self, regs: &GpioRegs) -> (r: bool)
        requires
            self.pin.pin.wf(),
        ensures
            r == !bit16(regs.ports[self.pin.pin.port_ix()].din, self.pin.pin.pin_ix()),
    {
        self.pin.is_low(regs)
    }

    /// Get the pin input level.
    pub fn get_level(&self, regs: &GpioRegs) -> (r: Level)
        requires
            self.pin.pin.wf(),
        ensures
            r == Level::spec_from_bool(bit16(regs.ports[self.pin.pin.port_ix()].din, self.pin.pin.pin_ix())),
    {
        self.pin.get_level(regs)
    }
}

/// GPIO route of one peripheral signal: port and pin.
#[derive(Clone, Copy, Debug, PartialEq, Eq)]
pub struct Route {
    /// Port number (A is 0).
    pub port: u8,
    /// Pin number within the port.
    pub pin: u8,
}

/// The route that places a signal on `pin`.
pub open spec fn spec_route(pin: AnyPin) -> Route {
    Route { port: pin.pin_port / 16, pin: pin.pin_port % 16 }
}

/// The route that places a signal on `pin`.
pub fn route_of(pin: AnyPin) -> (r: Route)
    ensures
        r == spec_route(pin),
{
    Route { port: pin.pin_port / 16, pin: pin.pin_port % 16 }
}

} // verus!
