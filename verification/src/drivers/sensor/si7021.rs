//! Si7021 temperature and humidity sensor driver.
//!
//! Measurements use Hold Master Mode: one write of a command byte followed by a
//! two-byte read. The conversions from raw readings are integer arithmetic on
//! centi-units.
use vstd::prelude::*;

verus! {

/// Default I2C address for the Si7021 sensor
pub const DEFAULT_ADDRESS: u8 = 0x40;

/// Measure Relative Humidity, Hold Master Mode
pub const MEASURE_RH_HOLD: u8 = 0xE5;
/// Measure Relative Humidity, No Hold Master Mode
pub const MEASURE_RH_NOHOLD: u8 = 0xF5;
/// Measure Temperature, Hold Master Mode
pub const MEASURE_TEMP_HOLD: u8 = 0xE3;
/// Measure Temperature, No Hold Master Mode
pub const MEASURE_TEMP_NOHOLD: u8 = 0xF3;
/// Read Temperature from Previous RH Measurement
pub const READ_TEMP_FROM_RH: u8 = 0xE0;
/// Reset
pub const RESET: u8 = 0xFE;

/// Measurement result containing both humidity and temperature.
#[derive(Debug, Clone, Copy, PartialEq, Eq)]
pub struct Measurement {
    /// Relative humidity in centi-percent (e.g., 4523 = 45.23%)
    pub humidity_centi_percent: i32,
    /// Temperature in centi-degrees Celsius (e.g., 2534 = 25.34°C)
    pub temperature_centi_c: i32,
}

/// The raw 16-bit reading of a measurement reply: big-endian, with the two status
/// bits of the low byte cleared.
pub open spec fn spec_raw(hi: u8, lo: u8) -> u16 {
    (hi as int * 256 + (lo as int - lo as int % 4)) as u16
}

/// Relative humidity in centi-percent of a raw reading (RH% = 125 * raw / 65536 - 6):
/// `((raw * 15625) >> 13) - 6000` milli-percent divided by ten, truncated toward zero.
pub open spec fn spec_humidity(raw: u16) -> i32 {
    let milli: int = (raw as int * 15625) / 8192 - 6000;
    if milli >= 0 {
        (milli / 10) as i32
    } else {
        (-((-milli) / 10)) as i32
    }
}

/// Temperature in centi-degrees Celsius of a raw reading:
/// `((raw * 21965) >> 13) - 46850` milli-degrees divided by ten, truncated toward zero.
pub open spec fn spec_temperature(raw: u16) -> i32 {
    let milli: int = (raw as int * 21965) / 8192 - 46850;
    if milli >= 0 {
        (milli / 10) as i32
    } else {
        (-((-milli) / 10)) as i32
    }
}

/// Extract the raw reading from a measurement reply.
pub fn raw_from_bytes(data: [u8; 2]) -> (r: u16)
    ensures
        r == spec_raw(data[0], data[1]),
{
    let b1 = data[1];
    let lo: u8 = b1 & 0xFC;
    assert(lo == b1 - b1 % 4) by (bit_vector)
        requires lo == b1 & 0xFC;
    (data[0] as u16) * 256 + lo as u16
}

/// The result of a humidity measurement whose bus transaction answered `res`: the
/// bus error unchanged, or the humidity of the reply.
pub open spec fn spec_humidity_result<E>(res: Result<[u8; 2], E>) -> Result<i32, E> {
    match res {
        Ok(d) => Ok(spec_humidity(spec_raw(d[0], d[1]))),
        Err(e) => Err(e),
    }
}

/// The result of a temperature measurement whose bus transaction answered `res`: the
/// bus error unchanged, or the temperature of the reply.
pub open spec fn spec_temperature_result<E>(res: Result<[u8; 2], E>) -> Result<i32, E> {
    match res {
        Ok(d) => Ok(spec_temperature(spec_raw(d[0], d[1]))),
        Err(e) => Err(e),
    }
}

/// `bus` is callable with any address and bytes.
pub open spec fn bus_callable<E, B: Fn(u8, [u8; 1]) -> Result<[u8; 2], E>>(bus: B) -> bool {
    forall|address: u8, write: [u8; 1]| call_requires(bus, (address, write))
}

/// Si7021 Temperature and Humidity Sensor Driver.
pub struct Si7021<I2C> {
    /// The bus the sensor is attached to, handed back by `release`; each measurement
    /// runs its transaction through the bus function it is given.
    pub i2c: I2C,
    /// The sensor's I2C address.
    pub address: u8,
}

impl<I2C> Si7021<I2C> {
    /// Create a new Si7021 driver with the default I2C address (0x40).
    pub fn new(i2c: I2C) -> (r: Self)
        ensures
            r.i2c == i2c,
            r.address == DEFAULT_ADDRESS,
    {
        Self { i2c, address: DEFAULT_ADDRESS }
    }

    /// Create a new Si7021 driver with a custom I2C address.
    pub fn new_with_address(i2c: I2C, address: u8) -> (r: Self)
        ensures
            r.i2c == i2c,
            r.address == address,
    {
        Self { i2c, address }
    }

    /// Release the I2C bus.
    pub fn release(self) -> (r: I2C)
        ensures
            r == self.i2c,
    {
        self.i2c
    }

    /// Convert raw humidity data to centi-percent.
    pub fn convert_humidity(raw: u16) -> (r: i32)
        ensures
            r == spec_humidity(raw),
    {
        let raw = raw as u32;
        assert(raw * 15625 <= 65535 * 15625) by (nonlinear_arith)
            requires raw <= 65535;
        let prod: u32 = raw * 15625;
        let milli: u32 = prod >> 13u32;
        assert(milli == prod / 8192) by (bit_vector)
            requires milli == prod >> 13u32;
        assert(milli <= 125_000) by (nonlinear_arith)
            requires milli == prod / 8192, prod <= 65535 * 15625;
        if milli >= 6000 {
            ((milli - 6000) / 10) as i32
        } else {
            -(((6000 - milli) / 10) as i32)
        }
    }

    /// Convert raw temperature data to centi-degrees Celsius.
    pub fn convert_temperature(raw: u16) -> (r: i32)
        ensures
            r == spec_temperature(raw),
    {
        let raw = raw as u32;
        assert(raw * 21965 <= 65535 * 21965) by (nonlinear_arith)
            requires raw <= 65535;
        let prod: u32 = raw * 21965;
        let scaled: u32 = prod >> 13u32;
        assert(scaled == prod / 8192) by (bit_vector)
            requires scaled == prod >> 13u32;
        assert(scaled <= 175_718) by (nonlinear_arith)
            requires scaled == prod / 8192, prod <= 65535 * 21965;
        if scaled >= 46850 {
            ((scaled - 46850) / 10) as i32
        } else {
            -(((46850 - scaled) / 10) as i32)
        }
    }
}

impl<I2C> Si7021<I2C> {
    /// The centi-percent humidity of a measurement reply.
    pub fn humidity_from_reply(data: [u8; 2]) -> (r: i32)
        ensures
            r == spec_humidity(spec_raw(data[0], data[1])),
    {
        Self::convert_humidity(raw_from_bytes(data))
    }

    /// The centi-degree temperature of a measurement reply.
    pub fn temperature_from_reply(data: [u8; 2]) -> (r: i32)
        ensures
            r == spec_temperature(spec_raw(data[0], data[1])),
    {
        Self::convert_temperature(raw_from_bytes(data))
    }
}

/// The bus transactions of the driver.
///
/// A measurement is one write-read transaction: `bus(address, write)` writes the bytes
/// `write` to the device at `address`, reads two bytes back and returns them, or the
/// bus error. A reset is one write: `bus(address, write)` writes the bytes and returns
/// the bus's result. The bus itself is the caller's, so these functions state what
/// they hand to it and what they make of each answer it can give.
impl<I2C> Si7021<I2C> {
    /// Send `command` and read a two-byte reply.
    fn command_read<E, B: Fn(u8, [u8; 1]) -> Result<[u8; 2], E>>(&self, command: u8, bus: &B) -> (r: Result<[u8; 2], E>)
        requires
            bus_callable(*bus),
        ensures
            exists|cmd: [u8; 1]| #[trigger] call_ensures(*bus, (self.address, cmd), r) && cmd@ == seq![command],
    {
        let cmd: [u8; 1] = [command];
        let r = bus(self.address, cmd);
        proof {
            assert(cmd@ =~= seq![command]);
            assert(call_ensures(*bus, (self.address, cmd), r));
        }
        r
    }

    /// Measure relative humidity using Hold Master Mode (blocking): MEASURE_RH_HOLD is
    /// written to the sensor's address and two bytes read; the result is the
    /// centi-percent humidity of the reply, or the bus error unchanged.
    pub fn read_humidity_blocking<E, B: Fn(u8, [u8; 1]) -> Result<[u8; 2], E>>(&mut self, bus: B) -> (r: Result<i32, E>)
        requires
            bus_callable(bus),
        ensures
            *final(self) == *old(self),
            exists|cmd: [u8; 1], res: Result<[u8; 2], E>|
                #[trigger] call_ensures(bus, (old(self).address, cmd), res) && cmd@ == seq![MEASURE_RH_HOLD]
                    && r == spec_humidity_result(res),
    {
        match self.command_read(MEASURE_RH_HOLD, &bus) {
            Ok(data) => Ok(Self::humidity_from_reply(data)),
            Err(e) => Err(e),
        }
    }

    /// Measure temperature using Hold Master Mode (blocking): MEASURE_TEMP_HOLD is
    /// written and two bytes read; the result is the centi-degree temperature of the
    /// reply, or the bus error unchanged.
    pub fn read_temperature_blocking<E, B: Fn(u8, [u8; 1]) -> Result<[u8; 2], E>>(&mut self, bus: B) -> (r: Result<i32, E>)
        requires
            bus_callable(bus),
        ensures
            *final(self) == *old(self),
            exists|cmd: [u8; 1], res: Result<[u8; 2], E>|
                #[trigger] call_ensures(bus, (old(self).address, cmd), res) && cmd@ == seq![MEASURE_TEMP_HOLD]
                    && r == spec_temperature_result(res),
    {
        match self.command_read(MEASURE_TEMP_HOLD, &bus) {
            Ok(data) => Ok(Self::temperature_from_reply(data)),
            Err(e) => Err(e),
        }
    }

    /// Read temperature from the previous humidity measurement (blocking):
    /// READ_TEMP_FROM_RH is written and two bytes read; the result is the centi-degree
    /// temperature of the reply, or the bus error unchanged.
    pub fn read_temperature_from_humidity_blocking<E, B: Fn(u8, [u8; 1]) -> Result<[u8; 2], E>>(
        &mut self,
        bus: B,
    ) -> (r: Result<i32, E>)
        requires
            bus_callable(bus),
        ensures
            *final(self) == *old(self),
            exists|cmd: [u8; 1], res: Result<[u8; 2], E>|
                #[trigger] call_ensures(bus, (old(self).address, cmd), res) && cmd@ == seq![READ_TEMP_FROM_RH]
                    && r == spec_temperature_result(res),
    {
        match self.command_read(READ_TEMP_FROM_RH, &bus) {
            Ok(data) => Ok(Self::temperature_from_reply(data)),
            Err(e) => Err(e),
        }
    }

    /// Measure both humidity and temperature (blocking): a humidity measurement, then,
    /// if it succeeded, the temperature captured with it. The first bus error is
    /// returned unchanged.
    pub fn measure_blocking<E, B: Fn(u8, [u8; 1]) -> Result<[u8; 2], E>>(&mut self, bus: B) -> (r: Result<Measurement, E>)
        requires
            bus_callable(bus),
        ensures
            *final(self) == *old(self),
            exists|c1: [u8; 1], res1: Result<[u8; 2], E>|
                #[trigger] call_ensures(bus, (old(self).address, c1), res1) && c1@ == seq![MEASURE_RH_HOLD] && match res1 {
                    Err(e) => r == Err::<Measurement, E>(e),
                    Ok(d1) => exists|c2: [u8; 1], res2: Result<[u8; 2], E>|
                        #[trigger] call_ensures(bus, (old(self).address, c2), res2) && c2@ == seq![READ_TEMP_FROM_RH]
                            && r == match res2 {
                            Err(e) => Err::<Measurement, E>(e),
                            Ok(d2) => Ok(
                                Measurement {
                                    humidity_centi_percent: spec_humidity(spec_raw(d1[0], d1[1])),
                                    temperature_centi_c: spec_temperature(spec_raw(d2[0], d2[1])),
                                },
                            ),
                        },
                },
    {
        let r1 = self.command_read(MEASURE_RH_HOLD, &bus);
        let d1 = match r1 {
            Ok(d) => d,
            Err(e) => return Err(e),
        };
        let humidity = Self::humidity_from_reply(d1);
        let r2 = self.command_read(READ_TEMP_FROM_RH, &bus);
        let d2 = match r2 {
            Ok(d) => d,
            Err(e) => return Err(e),
        };
        let temperature = Self::temperature_from_reply(d2);
        Ok(Measurement { humidity_centi_percent: humidity, temperature_centi_c: temperature })
    }

    /// Send a soft reset command to the sensor (blocking): RESET is written to the
    /// sensor's address and the bus's result returned unchanged.
    pub fn reset_blocking<E, W: Fn(u8, [u8; 1]) -> Result<(), E>>(&mut self, write: W) -> (r: Result<(), E>)
        requires
            forall|address: u8, bytes: [u8; 1]| call_requires(write, (address, bytes)),
        ensures
            *final(self) == *old(self),
            exists|cmd: [u8; 1]| #[trigger] call_ensures(write, (old(self).address, cmd), r) && cmd@ == seq![RESET],
    {
        let cmd: [u8; 1] = [RESET];
        let r = write(self.address, cmd);
        proof {
            assert(cmd@ =~= seq![RESET]);
            assert(call_ensures(write, (self.address, cmd), r));
        }
        r
    }
}

/// Humidity and temperature readings never decrease as the raw reading grows.
pub proof fn lemma_conversions_monotonic(a: u16, b: u16)
    requires
        a <= b,
    ensures
        spec_humidity(a) <= spec_humidity(b),
        spec_temperature(a) <= spec_temperature(b),
{
    assert((a as int * 15625) / 8192 <= (b as int * 15625) / 8192) by (nonlinear_arith)
        requires a <= b;
    assert((a as int * 21965) / 8192 <= (b as int * 21965) / 8192) by (nonlinear_arith)
        requires a <= b;
    let ma: int = (a as int * 21965) / 8192 - 46850;
    let mb: int = (b as int * 21965) / 8192 - 46850;
    assert(ma <= mb);
    assert(-46850 <= ma) by (nonlinear_arith)
        requires ma == (a as int * 21965) / 8192 - 46850, a >= 0;
    assert(mb <= 200000) by (nonlinear_arith)
        requires mb == (b as int * 21965) / 8192 - 46850, b <= 65535;
    let ha: int = (a as int * 15625) / 8192 - 6000;
    let hb: int = (b as int * 15625) / 8192 - 6000;
    assert(ha <= hb);
    assert(-6000 <= ha) by (nonlinear_arith)
        requires ha == (a as int * 15625) / 8192 - 6000, a >= 0;
    assert(hb <= 200000) by (nonlinear_arith)
        requires hb == (b as int * 15625) / 8192 - 6000, b <= 65535;
    assert((if ha >= 0 { ha / 10 } else { -((-ha) / 10) }) <= (if hb >= 0 { hb / 10 } else { -((-hb) / 10) })) by (nonlinear_arith)
        requires ha <= hb;
    assert((if ma >= 0 { ma / 10 } else { -((-ma) / 10) }) <= (if mb >= 0 { mb / 10 } else { -((-mb) / 10) })) by (nonlinear_arith)
        requires ma <= mb;
}

/// The sensor's command bytes: measuring humidity is 0xE5 while holding the bus and
/// 0xF5 without, measuring temperature 0xE3 and 0xF3, reading the temperature of the
/// last humidity measurement 0xE0, and a reset 0xFE; each no-hold command is its hold
/// command with bit 4 set, and all six differ.
pub proof fn lemma_command_bytes()
    ensures
        MEASURE_RH_HOLD == 0xE5 && MEASURE_TEMP_HOLD == 0xE3 && READ_TEMP_FROM_RH == 0xE0 && RESET == 0xFE,
        MEASURE_RH_NOHOLD == MEASURE_RH_HOLD | 0x10 && MEASURE_TEMP_NOHOLD == MEASURE_TEMP_HOLD | 0x10,
        seq![MEASURE_RH_HOLD, MEASURE_RH_NOHOLD, MEASURE_TEMP_HOLD, MEASURE_TEMP_NOHOLD, READ_TEMP_FROM_RH, RESET].no_duplicates(),
        DEFAULT_ADDRESS == 0x40,
{
    assert(0xE5u8 | 0x10u8 == 0xF5u8) by (bit_vector);
    assert(0xE3u8 | 0x10u8 == 0xF3u8) by (bit_vector);
    let s = seq![MEASURE_RH_HOLD, MEASURE_RH_NOHOLD, MEASURE_TEMP_HOLD, MEASURE_TEMP_NOHOLD, READ_TEMP_FROM_RH, RESET];
    assert(s.no_duplicates()) by {
        assert(s[0] == 0xE5 && s[1] == 0xF5 && s[2] == 0xE3 && s[3] == 0xF3 && s[4] == 0xE0 && s[5] == 0xFE);
    }
}

} // verus!
