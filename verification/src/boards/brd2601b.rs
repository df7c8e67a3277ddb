//! Board support for BRD2601B, the Thunderboard Sense 2 (EFR32MG24).
//!
//! Active-low LEDs, two buttons and the sensors on I2C1.

use vstd::prelude::*;

use crate::gpio::AnyPin;
use crate::peripherals::{
    Peripherals, EUSART0, EUSART1, I2C0, I2C1, IADC0, TIMER0, TIMER1, TIMER2, TIMER3, TIMER4, USART0, WDOG0, WDOG1,
};

verus! {

/// Pin polarity for LEDs.
#[derive(Clone, Copy, Debug, PartialEq, Eq)]
pub enum LedPolarity {
    /// LED is on when pin is high
    ActiveHigh,
    /// LED is on when pin is low
    ActiveLow,
}

/// Board configuration for BRD2601B, the Thunderboard Sense 2 (EFR32MG24).
pub struct Board {
    /// LED 0 (red, PD02, active low).
    pub led0: AnyPin,
    /// LED 1 (green, PA04, active low).
    pub led1: AnyPin,
    /// Push button 0 (PB02, active low with pull-up).
    pub btn0: AnyPin,
    /// Push button 1 (PB03, active low with pull-up).
    pub btn1: AnyPin,
    /// I2C1 SCL for the sensors (PC04).
    pub sensor_scl: AnyPin,
    /// I2C1 SDA for the sensors (PC05).
    pub sensor_sda: AnyPin,
    /// Sensor power enable (PC09).
    pub sensor_enable: AnyPin,
    /// Microphone power enable (PC08).
    pub mic_enable: AnyPin,
}

/// Peripherals not used by the board configuration.
pub struct RemainingPeripherals {
    /// Timer 0.
    pub timer0: TIMER0,
    /// Timer 1.
    pub timer1: TIMER1,
    /// Timer 2.
    pub timer2: TIMER2,
    /// Timer 3.
    pub timer3: TIMER3,
    /// Timer 4.
    pub timer4: TIMER4,
    /// USART 0.
    pub usart0: USART0,
    /// EUSART 0.
    pub eusart0: EUSART0,
    /// EUSART 1.
    pub eusart1: EUSART1,
    /// I2C 0.
    pub i2c0: I2C0,
    /// I2C 1.
    pub i2c1: I2C1,
    /// IADC 0.
    pub iadc0: IADC0,
    /// Watchdog 0.
    pub wdog0: WDOG0,
    /// Watchdog 1.
    pub wdog1: WDOG1,
    /// Pin PA00.
    pub pa00: AnyPin,
    /// Pin PA01.
    pub pa01: AnyPin,
    /// Pin PA02.
    pub pa02: AnyPin,
    /// Pin PA03.
    pub pa03: AnyPin,
    /// Pin PA05.
    pub pa05: AnyPin,
    /// Pin PA06.
    pub pa06: AnyPin,
    /// Pin PA07.
    pub pa07: AnyPin,
    /// Pin PA08.
    pub pa08: AnyPin,
    /// Pin PA09.
    pub pa09: AnyPin,
    /// Pin PB00.
    pub pb00: AnyPin,
    /// Pin PB01.
    pub pb01: AnyPin,
    /// Pin PB04.
    pub pb04: AnyPin,
    /// Pin PB05.
    pub pb05: AnyPin,
    /// Pin PC00.
    pub pc00: AnyPin,
    /// Pin PC01.
    pub pc01: AnyPin,
    /// Pin PC02.
    pub pc02: AnyPin,
    /// Pin PC03.
    pub pc03: AnyPin,
    /// Pin PC06.
    pub pc06: AnyPin,
    /// Pin PC07.
    pub pc07: AnyPin,
    /// Pin PD00.
    pub pd00: AnyPin,
    /// Pin PD01.
    pub pd01: AnyPin,
    /// Pin PD03.
    pub pd03: AnyPin,
    /// Pin PD04.
    pub pd04: AnyPin,
    /// Pin PD05.
    pub pd05: AnyPin,
}

/// The pins the board configuration takes.
pub open spec fn board_pins(b: Board) -> Seq<u8> {
    seq![b.led0.pin_port, b.led1.pin_port, b.btn0.pin_port, b.btn1.pin_port, b.sensor_scl.pin_port, b.sensor_sda.pin_port, b.sensor_enable.pin_port, b.mic_enable.pin_port]
}

/// The pins left for the application.
pub open spec fn remaining_pins(r: RemainingPeripherals) -> Seq<u8> {
    seq![r.pa00.pin_port, r.pa01.pin_port, r.pa02.pin_port, r.pa03.pin_port, r.pa05.pin_port, r.pa06.pin_port, r.pa07.pin_port, r.pa08.pin_port, r.pa09.pin_port, r.pb00.pin_port, r.pb01.pin_port, r.pb04.pin_port, r.pb05.pin_port, r.pc00.pin_port, r.pc01.pin_port, r.pc02.pin_port, r.pc03.pin_port, r.pc06.pin_port, r.pc07.pin_port, r.pd00.pin_port, r.pd01.pin_port, r.pd03.pin_port, r.pd04.pin_port, r.pd05.pin_port]
}

/// No pin is handed out twice.
pub open spec fn all_distinct(s: Seq<u8>) -> bool {
    forall|i: int, j: int| 0 <= i < j < s.len() ==> s[i] != s[j]
}

impl Board {
    /// LED polarity for this board.
    pub fn led_polarity() -> (r: LedPolarity)
        ensures
            r == LedPolarity::ActiveLow,
    {
        LedPolarity::ActiveLow
    }

    /// Split the peripherals: the board's pins, and everything else.
    pub fn new(p: Peripherals) -> (r: (Board, RemainingPeripherals))
        ensures
            r.0.led0.pin_port == 50,
            r.0.led1.pin_port == 4,
            r.0.btn0.pin_port == 18,
            r.0.btn1.pin_port == 19,
            r.0.sensor_scl.pin_port == 36,
            r.0.sensor_sda.pin_port == 37,
            r.0.sensor_enable.pin_port == 41,
            r.0.mic_enable.pin_port == 40,
            r.1.pa00.pin_port == 0,
            r.1.pa01.pin_port == 1,
            r.1.pa02.pin_port == 2,
            r.1.pa03.pin_port == 3,
            r.1.pa05.pin_port == 5,
            r.1.pa06.pin_port == 6,
            r.1.pa07.pin_port == 7,
            r.1.pa08.pin_port == 8,
            r.1.pa09.pin_port == 9,
            r.1.pb00.pin_port == 16,
            r.1.pb01.pin_port == 17,
            r.1.pb04.pin_port == 20,
            r.1.pb05.pin_port == 21,
            r.1.pc00.pin_port == 32,
            r.1.pc01.pin_port == 33,
            r.1.pc02.pin_port == 34,
            r.1.pc03.pin_port == 35,
            r.1.pc06.pin_port == 38,
            r.1.pc07.pin_port == 39,
            r.1.pd00.pin_port == 48,
            r.1.pd01.pin_port == 49,
            r.1.pd03.pin_port == 51,
            r.1.pd04.pin_port == 52,
            r.1.pd05.pin_port == 53,
            all_distinct(board_pins(r.0) + remaining_pins(r.1)),
    {
        let board = Board {
            led0: AnyPin::steal(50),
            led1: AnyPin::steal(4),
            btn0: AnyPin::steal(18),
            btn1: AnyPin::steal(19),
            sensor_scl: AnyPin::steal(36),
            sensor_sda: AnyPin::steal(37),
            sensor_enable: AnyPin::steal(41),
            mic_enable: AnyPin::steal(40),
        };
        let remaining = RemainingPeripherals {
            timer0: p.timer0,
            timer1: p.timer1,
            timer2: p.timer2,
            timer3: p.timer3,
            timer4: p.timer4,
            usart0: p.usart0,
            eusart0: p.eusart0,
            eusart1: p.eusart1,
            i2c0: p.i2c0,
            i2c1: p.i2c1,
            iadc0: p.iadc0,
            wdog0: p.wdog0,
            wdog1: p.wdog1,
            pa00: AnyPin::steal(0),
            pa01: AnyPin::steal(1),
            pa02: AnyPin::steal(2),
            pa03: AnyPin::steal(3),
            pa05: AnyPin::steal(5),
            pa06: AnyPin::steal(6),
            pa07: AnyPin::steal(7),
            pa08: AnyPin::steal(8),
            pa09: AnyPin::steal(9),
            pb00: AnyPin::steal(16),
            pb01: AnyPin::steal(17),
            pb04: AnyPin::steal(20),
            pb05: AnyPin::steal(21),
            pc00: AnyPin::steal(32),
            pc01: AnyPin::steal(33),
            pc02: AnyPin::steal(34),
            pc03: AnyPin::steal(35),
            pc06: AnyPin::steal(38),
            pc07: AnyPin::steal(39),
            pd00: AnyPin::steal(48),
            pd01: AnyPin::steal(49),
            pd03: AnyPin::steal(51),
            pd04: AnyPin::steal(52),
            pd05: AnyPin::steal(53),
        };
        proof {
            let s = board_pins(board) + remaining_pins(remaining);
            assert(all_distinct(s)) by {
                assert(s =~= seq![50u8, 4u8, 18u8, 19u8, 36u8, 37u8, 41u8, 40u8, 0u8, 1u8, 2u8, 3u8, 5u8, 6u8, 7u8, 8u8, 9u8, 16u8, 17u8, 20u8, 21u8, 32u8, 33u8, 34u8, 35u8, 38u8, 39u8, 48u8, 49u8, 51u8, 52u8, 53u8]);
            }
        }
        (board, remaining)
    }
}

} // verus!
