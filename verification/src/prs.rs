//! Peripheral Reflex System (PRS) routing of the radio front-end activity signals.
//!
//! On xG24 the radio activity signals are RACL_PAEN (TX) and RACL_LNAEN (RX). A
//! signal is connected to an asynchronous PRS channel, and the channel is routed to a
//! GPIO pin. Configuration is expressed over [`PrsRegs`] and [`PrsRoutes`].
use vstd::array::spec_array_update;
use vstd::prelude::*;

use crate::cmu::{Clken0, CmuRegs};
use crate::gpio::{route_of, spec_gpio_with_mode, spec_gpio_with_output, spec_route, AnyPin, GpioRegs, PortMode, Route};

verus! {

/// Number of asynchronous PRS channels.
pub const ASYNC_CHANNELS: u8 = 16;

/// RACL PRS source select.
pub const RACL_SOURCESEL: u8 = 0x30;

/// RACL PAEN signal select (TX activity).
pub const RACL_PAEN_SIGSEL: u8 = 0x02;

/// RACL LNAEN signal select (RX activity).
pub const RACL_LNAEN_SIGSEL: u8 = 0x01;

/// Async PRS channel index (0 to 15).
#[derive(Clone, Copy, Debug, PartialEq, Eq)]
pub struct AsyncChannel(u8);

impl AsyncChannel {
    #[verifier::type_invariant]
    spec fn inv(self) -> bool {
        self.0 < ASYNC_CHANNELS
    }

    /// The channel number.
    pub closed spec fn spec_index(self) -> u8 {
        self.0
    }

    /// Create a channel index (channels 0 to 15 exist).
    pub fn new(ch: u8) -> (r: Self)
        requires
            ch < ASYNC_CHANNELS,
        ensures
            r.spec_index() == ch,
    {
        AsyncChannel(ch)
    }

    /// The channel number.
    pub fn index(self) -> (r: u8)
        ensures
            r == self.spec_index(),
            r < ASYNC_CHANNELS,
    {
        proof {
            use_type_invariant(&self);
        }
        self.0
    }
}

/// The fields of one ASYNC_CHx_CTRL register.
#[derive(Clone, Copy, Debug, PartialEq, Eq)]
pub struct AsyncCtrl {
    /// SOURCESEL
    pub sourcesel: u8,
    /// SIGSEL
    pub sigsel: u8,
    /// FNSEL selects A: the channel output is its signal.
    pub fnsel_a: bool,
}

/// The asynchronous channel control registers.
#[derive(Clone, Copy, Debug, PartialEq, Eq)]
pub struct PrsRegs {
    /// ASYNC_CH0_CTRL to ASYNC_CH15_CTRL.
    pub ch: [AsyncCtrl; 16],
}

/// The GPIO routing registers of the PRS.
#[derive(Clone, Copy, Debug, PartialEq, Eq)]
pub struct PrsRoutes {
    /// PRS0_ASYNCH0ROUTE to PRS0_ASYNCH15ROUTE.
    pub asynch: [Route; 16],
    /// PRS0_ROUTEEN: bit `i` enables channel `i`.
    pub routeen: u16,
}

/// The PRS registers after a signal is connected to channel `ch` (its other fields
/// kept).
pub open spec fn spec_connected(p: PrsRegs, ch: u8, sourcesel: u8, sigsel: u8) -> PrsRegs {
    PrsRegs { ch: spec_array_update(p.ch, ch as int, AsyncCtrl { sourcesel, sigsel, fnsel_a: true }) }
}

/// The routing registers after channel `ch` is routed to `pin` and enabled.
pub open spec fn spec_routed(r: PrsRoutes, ch: u8, pin: AnyPin) -> PrsRoutes {
    PrsRoutes { asynch: spec_array_update(r.asynch, ch as int, spec_route(pin)), routeen: r.routeen | (1u16 << ch) }
}

/// Connect a producer signal to an asynchronous channel, passing it through (FNSEL A).
pub fn connect_async(ch: AsyncChannel, sourcesel: u8, sigsel: u8, prs: &mut PrsRegs)
    ensures
        *final(prs) == spec_connected(*old(prs), ch.spec_index(), sourcesel, sigsel),
{
    let i = ch.index();
    let mut c = prs.ch;
    c[i as usize] = AsyncCtrl { sourcesel, sigsel, fnsel_a: true };
    prs.ch = c;
    proof {
        assert(prs.ch =~= spec_array_update(old(prs).ch, i as int, AsyncCtrl { sourcesel, sigsel, fnsel_a: true }));
    }
}

/// Route an asynchronous channel to a GPIO pin and enable the route.
pub fn route_channel_to_pin(ch: AsyncChannel, pin: AnyPin, routes: &mut PrsRoutes)
    ensures
        *final(routes) == spec_routed(*old(routes), ch.spec_index(), pin),
{
    let i = ch.index();
    let mut a = routes.asynch;
    a[i as usize] = route_of(pin);
    let en = routes.routeen | (1u16 << i);
    *routes = PrsRoutes { asynch: a, routeen: en };
    proof {
        assert(routes.asynch =~= spec_array_update(old(routes).asynch, i as int, spec_route(pin)));
    }
}

/// Whether a pin can be configured (it exists).
pub open spec fn pin_ok(p: AnyPin) -> bool {
    p.wf()
}

/// The CMU clock gates after the GPIO and PRS clocks are switched on.
pub open spec fn spec_clocks_on(c: Clken0) -> Clken0 {
    Clken0 { gpio: true, prs: true, ..c }
}

/// The GPIO registers after a pin is made a push-pull output driven low.
pub open spec fn spec_prs_pin(g: GpioRegs, pin: AnyPin) -> GpioRegs {
    spec_gpio_with_output(spec_gpio_with_mode(g, pin, PortMode::PushPull), pin, false)
}

/// Route a RACL signal to a GPIO pin: clocks on, pin push-pull low, signal connected
/// to the channel, channel routed to the pin.
pub fn route_racl_signal(
    ch: AsyncChannel,
    pin: AnyPin,
    sigsel: u8,
    cmu: &mut CmuRegs,
    gpio: &mut GpioRegs,
    prs: &mut PrsRegs,
    routes: &mut PrsRoutes,
)
    requires
        pin_ok(pin),
    ensures
        *final(cmu) == (CmuRegs { clken0: spec_clocks_on(old(cmu).clken0), ..*old(cmu) }),
        *final(gpio) == spec_prs_pin(*old(gpio), pin),
        *final(prs) == spec_connected(*old(prs), ch.spec_index(), RACL_SOURCESEL, sigsel),
        *final(routes) == spec_routed(*old(routes), ch.spec_index(), pin),
{
    cmu.clken0 = Clken0 { gpio: true, prs: true, ..cmu.clken0 };
    pin.mode_w(gpio, PortMode::PushPull);
    pin.set_low(gpio);
    connect_async(ch, RACL_SOURCESEL, sigsel, prs);
    route_channel_to_pin(ch, pin, routes);
}

/// Route RACL PAEN (TX activity) to a GPIO pin.
pub fn route_racl_paen(
    ch: AsyncChannel,
    pin: AnyPin,
    cmu: &mut CmuRegs,
    gpio: &mut GpioRegs,
    prs: &mut PrsRegs,
    routes: &mut PrsRoutes,
)
    requires
        pin_ok(pin),
    ensures
        *final(cmu) == (CmuRegs { clken0: spec_clocks_on(old(cmu).clken0), ..*old(cmu) }),
        *final(gpio) == spec_prs_pin(*old(gpio), pin),
        *final(prs) == spec_connected(*old(prs), ch.spec_index(), RACL_SOURCESEL, RACL_PAEN_SIGSEL),
        *final(routes) == spec_routed(*old(routes), ch.spec_index(), pin),
{
    route_racl_signal(ch, pin, RACL_PAEN_SIGSEL, cmu, gpio, prs, routes);
}

/// Route RACL LNAEN (RX activity) to a GPIO pin.
pub fn route_racl_lnaen(
    ch: AsyncChannel,
    pin: AnyPin,
    cmu: &mut CmuRegs,
    gpio: &mut GpioRegs,
    prs: &mut PrsRegs,
    routes: &mut PrsRoutes,
)
    requires
        pin_ok(pin),
    ensures
        *final(cmu) == (CmuRegs { clken0: spec_clocks_on(old(cmu).clken0), ..*old(cmu) }),
        *final(gpio) == spec_prs_pin(*old(gpio), pin),
        *final(prs) == spec_connected(*old(prs), ch.spec_index(), RACL_SOURCESEL, RACL_LNAEN_SIGSEL),
        *final(routes) == spec_routed(*old(routes), ch.spec_index(), pin),
{
    route_racl_signal(ch, pin, RACL_LNAEN_SIGSEL, cmu, gpio, prs, routes);
}

} // verus!
