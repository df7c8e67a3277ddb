//! Hardware abstraction logic for Silicon Labs EFR32 microcontrollers.
use vstd::prelude::*;

pub mod ble;
pub mod boards;
pub mod bt_empty;
pub mod cmu;
pub mod drivers;
pub mod emu;
pub mod flash;
pub mod gpio;
pub mod i2c;
pub mod iadc;
pub mod ldma;
pub mod peripherals;
pub mod prs;
pub mod radio;
pub mod spi;
pub mod time_driver;
pub mod usart;
pub mod timer;
pub mod wdog;

verus! {

/// Initialise the HAL: GPIO, SYSRTC, LFRCO and USART0 clocks in CLKEN0, both EUSART
/// clocks in CLKEN1, and the peripheral instances handed out, once only (`taken`
/// records it; the caller then starts the time driver, see
/// [`time_driver::rtc_init`]).
pub fn init(cmu: &mut cmu::CmuRegs, taken: &mut bool) -> (r: peripherals::Peripherals)
    requires
        !*old(taken),
    ensures
        *final(taken),
        *final(cmu) == (cmu::CmuRegs {
            clken0: cmu::Clken0 { gpio: true, sysrtc0: true, lfrco: true, usart0: true, ..old(cmu).clken0 },
            clken1: cmu::Clken1 { eusart0: true, eusart1: true, ..old(cmu).clken1 },
            ..*old(cmu)
        }),
{
    let p = peripherals::Peripherals::take(taken);
    cmu.clken0 = cmu::Clken0 { gpio: true, sysrtc0: true, lfrco: true, usart0: true, ..cmu.clken0 };
    cmu.clken1 = cmu::Clken1 { eusart0: true, eusart1: true, ..cmu.clken1 };
    p
}

} // verus!
