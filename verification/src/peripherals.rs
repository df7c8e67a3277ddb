//! Peripheral instance markers.
//!
//! Each marker names one hardware instance; the driver modules implement their
//! `Instance` traits for the markers they can drive.
use vstd::prelude::*;

verus! {

/// Timer/counter 0.
pub struct TIMER0;
/// Timer/counter 1.
pub struct TIMER1;
/// Timer/counter 2.
pub struct TIMER2;
/// Timer/counter 3.
pub struct TIMER3;
/// Timer/counter 4.
pub struct TIMER4;
/// Watchdog 0.
pub struct WDOG0;
/// Watchdog 1.
pub struct WDOG1;
/// I2C controller 0.
pub struct I2C0;
/// I2C controller 1.
pub struct I2C1;
/// Enhanced USART 0.
pub struct EUSART0;
/// Enhanced USART 1.
pub struct EUSART1;
/// USART 0.
pub struct USART0;
/// Incremental ADC 0.
pub struct IADC0;

/// The peripheral instances, each handed out once.
pub struct Peripherals {
    /// Timer 0.
    pub timer0: TIMER0,
    /// Timer 1.
    pub timer1: TIMER1,
    /// Timer 2.
    pub timer2: TIMER2,
    /// Timer 3.
    pub timer3: TIMER3,
    /// Timer 4.
    pub timer4: TIMER4,
    /// USART 0.
    pub usart0: USART0,
    /// EUSART 0.
    pub eusart0: EUSART0,
    /// EUSART 1.
    pub eusart1: EUSART1,
    /// I2C 0.
    pub i2c0: I2C0,
    /// I2C 1.
    pub i2c1: I2C1,
    /// IADC 0.
    pub iadc0: IADC0,
    /// Watchdog 0.
    pub wdog0: WDOG0,
    /// Watchdog 1.
    pub wdog1: WDOG1,
}

impl Peripherals {
    /// The set of peripheral instances, which can be taken once: `taken` is the flag
    /// that records it, and taking them a second time is refused by the precondition.
    pub fn take(taken: &mut bool) -> (r: Self)
        requires
            !*old(taken),
        ensures
            *final(taken),
    {
        *taken = true;
        Peripherals {
            timer0: TIMER0,
            timer1: TIMER1,
            timer2: TIMER2,
            timer3: TIMER3,
            timer4: TIMER4,
            usart0: USART0,
            eusart0: EUSART0,
            eusart1: EUSART1,
            i2c0: I2C0,
            i2c1: I2C1,
            iadc0: IADC0,
            wdog0: WDOG0,
            wdog1: WDOG1,
        }
    }
}

} // verus!
