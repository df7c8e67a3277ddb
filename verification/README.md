# embassy-silabs

Verified driver logic for Silicon Labs EFR32 (xG24) microcontrollers: clocks and
power (CMU, EMU), GPIO, USART/EUSART, SPI, I2C, timers, IADC, LDMA, flash (MSC),
watchdog, PRS routing, the SYSRTC time base, the memory LCD and Si7021 drivers,
board pin maps, and the start-up decisions of the radio and Bluetooth stacks.

## How the hardware is modelled

Each driver works on a plain-data model of the registers it touches (`GpioRegs`,
`EusartRegs`, `I2cRegs`, `MscRegs`, ...). Every operation states, in its contract,
the exact register state it leaves behind; a whole-register write puts the fields it
does not name back to their reset values. Waiting on status flags is the caller's:
where a driver polls, the library offers the decision taken on each poll
(`poll_*` functions) or takes the observation as an argument (a closure that
exchanges byte `i` of an SPI transfer, reads byte `i` of an I2C or UART reply,
performs one Si7021 bus transaction, or reads the MSC status).

Transfers are described by what they put on the wire: bytes written to a transmit
register are appended to a `Vec<u8>`, I2C transactions are recorded as sequences of
`BusOp`s, flash programming bursts as (address, length) pairs and erased pages as
their addresses, and the flash array is a `FlashMem` whose bytes erase to 0xFF and
program by clearing bits.

## Layout

- `src/` — the verified library (Verus).
- `tests/` — tests of the library on concrete values.
- `app/` — glue to the `embedded-hal`, `embedded-io` and `embedded-storage` traits and
  the floating-point helpers.
