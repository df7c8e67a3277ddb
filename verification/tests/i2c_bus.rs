use embassy_silabs::cmu::CmuRegs;
use embassy_silabs::gpio::{AnyPin, GpioPortRegs, GpioRegs, PortMode, Route};
use embassy_silabs::i2c::{
    address_byte, clkdiv_for, plan_transaction, poll_ack, poll_rxdata, poll_stop, recovery_prelude, BusOp, Clhr,
    Config, Error, I2c, I2cCmd, I2cFlags, I2cRegs, I2cRoute, I2cRoutes, OpKind, PollOutcome, Speed, TransactionPlan,
    Wait,
};
use embassy_silabs::peripherals::{I2C0, I2C1};

fn none() -> I2cFlags {
    I2cFlags { ack: false, nack: false, buserr: false, arblost: false, mstop: false, rxdatav: false }
}

fn regs() -> I2cRegs {
    I2cRegs {
        en: false,
        clhr: Clhr::Standard,
        clkdiv: 0,
        other_cfg_reset: false,
        ien: none(),
        if_flags: none(),
        cmd: I2cCmd { clearpc: false, cleartx: false, abort: false },
    }
}

fn gpio() -> GpioRegs {
    let port = GpioPortRegs { model: [PortMode::Disabled; 8], modeh: [PortMode::Disabled; 8], dout: 0, din: 0 };
    GpioRegs { ports: [port; 4] }
}

fn routes() -> I2cRoutes {
    let r = Route { port: 0, pin: 0 };
    I2cRoutes { i2c: [I2cRoute { scl: r, sda: r, sclpen: false, sdapen: false }; 2] }
}

fn bus() -> I2c<I2C1> {
    let mut cmu = CmuRegs::reset();
    let mut g = gpio();
    let mut rt = routes();
    let mut r = regs();
    I2c::new(I2C1, AnyPin::steal(0x25), AnyPin::steal(0x27), Config::default(), &mut cmu, &mut g, &mut rt, &mut r)
}

/// A bus on which every wait succeeds.
fn good(w: Wait) -> I2cFlags {
    match w {
        Wait::Ack => I2cFlags { ack: true, ..none() },
        Wait::RxData => I2cFlags { rxdatav: true, ..none() },
        Wait::Stop => I2cFlags { mstop: true, ..none() },
    }
}

#[test]
fn speed_parameters() {
    assert_eq!(Speed::Standard.frequency(), 100_000);
    assert_eq!(Speed::Fast.frequency(), 400_000);
    assert_eq!(Speed::FastPlus.frequency(), 1_000_000);
    assert_eq!(Speed::Fast.n_sum(), 9);
    assert_eq!(Speed::FastPlus.clhr(), Clhr::Fast);
    assert_eq!(Speed::default(), Speed::Standard);
}

#[test]
fn clock_divider_values() {
    assert_eq!(clkdiv_for(20_000_000, Speed::Standard), 23);
    assert_eq!(clkdiv_for(20_000_000, Speed::Fast), 4);
    assert_eq!(clkdiv_for(20_000_000, Speed::FastPlus), 0);
    assert_eq!(clkdiv_for(39_000_000, Speed::Fast), 9);
    assert_eq!(clkdiv_for(0, Speed::Standard), 0);
}

#[test]
fn address_bytes() {
    assert_eq!(address_byte(0x40, false), 0x80);
    assert_eq!(address_byte(0x40, true), 0x81);
    assert_eq!(address_byte(0x7F, true), 0xFF);
}

#[test]
fn new_configures_controller() {
    let mut cmu = CmuRegs::reset();
    let mut g = gpio();
    let mut rt = routes();
    let mut r = regs();
    let cfg = Config { speed: Speed::Fast, ref_freq: 0 };
    let _i2c = I2c::new(I2C0, AnyPin::steal(0x05), AnyPin::steal(0x06), cfg, &mut cmu, &mut g, &mut rt, &mut r);
    assert!(cmu.clken0.i2c0 && !cmu.clken0.i2c1);
    assert!(r.en);
    assert_eq!(r.clhr, Clhr::Asymmetric);
    assert_eq!(r.clkdiv, 4);
    assert_eq!(g.ports[0].model[5], PortMode::WiredAndPullUp);
    assert_eq!(g.ports[0].dout, (1 << 5) | (1 << 6));
    assert_eq!(rt.i2c[0], I2cRoute { scl: Route { port: 0, pin: 5 }, sda: Route { port: 0, pin: 6 }, sclpen: true, sdapen: true });
}

#[test]
fn write_transaction_ops() {
    let mut i2c = bus();
    let mut ops = Vec::new();
    let r = i2c.blocking_write(0x40, &[0xE5], false, good, |_i| 0, &mut ops);
    assert_eq!(r, Ok(()));
    assert_eq!(
        ops,
        vec![
            BusOp::ClearPending,
            BusOp::FlushRx,
            BusOp::ClearFlags,
            BusOp::Tx(0x80),
            BusOp::Start,
            BusOp::ClearAck,
            BusOp::Tx(0xE5),
            BusOp::ClearAck,
            BusOp::Stop,
            BusOp::ClearStop,
        ]
    );
}

#[test]
fn write_nack_on_address() {
    let mut i2c = bus();
    let mut ops = Vec::new();
    let nack = |w: Wait| match w {
        Wait::Ack => I2cFlags { nack: true, ..none() },
        other => good(other),
    };
    let r = i2c.blocking_write(0x40, &[1, 2], true, nack, |_i| 0, &mut ops);
    assert_eq!(r, Err(Error::Nack));
    assert_eq!(
        ops,
        vec![
            BusOp::Abort,
            BusOp::ClearPending,
            BusOp::FlushRx,
            BusOp::ClearFlags,
            BusOp::Tx(0x80),
            BusOp::Start,
            BusOp::ClearFlags,
            BusOp::Stop,
        ]
    );
}

#[test]
fn read_transaction_acks_and_nack() {
    let mut i2c = bus();
    let mut ops = Vec::new();
    let mut buf = [0u8; 3];
    let r = i2c.blocking_read(0x40, &mut buf, false, good, |i| 0x5A + i as u8, &mut ops);
    assert_eq!(r, Ok(()));
    assert_eq!(buf, [0x5A, 0x5B, 0x5C]);
    assert_eq!(
        &ops[3..],
        &[
            BusOp::Tx(0x81),
            BusOp::Start,
            BusOp::ClearAck,
            BusOp::Rx,
            BusOp::Ack,
            BusOp::Rx,
            BusOp::Ack,
            BusOp::Nack,
            BusOp::Rx,
            BusOp::Stop,
            BusOp::ClearStop,
        ]
    );
}

#[test]
fn read_single_byte_prearms_nack() {
    let mut i2c = bus();
    let mut ops = Vec::new();
    let mut buf = [0u8; 1];
    i2c.blocking_read(0x40, &mut buf, false, good, |_i| 1, &mut ops).unwrap();
    assert_eq!(&ops[3..], &[BusOp::Tx(0x81), BusOp::Start, BusOp::ClearAck, BusOp::Nack, BusOp::Rx, BusOp::Stop, BusOp::ClearStop]);
}

#[test]
fn read_empty_buffer_does_nothing() {
    let mut i2c = bus();
    let mut ops = Vec::new();
    let mut buf: [u8; 0] = [];
    assert_eq!(i2c.blocking_read(0x40, &mut buf, true, good, |_i| 1, &mut ops), Ok(()));
    assert!(ops.is_empty());
}

#[test]
fn write_read_repeated_start() {
    let mut i2c = bus();
    let mut ops = Vec::new();
    let mut buf = [0u8; 2];
    let r = i2c.blocking_write_read(0x40, &[0xE3], &mut buf, false, good, |i| 0x11 * (i as u8 + 1), &mut ops);
    assert_eq!(r, Ok(()));
    assert_eq!(buf, [0x11, 0x22]);
    assert_eq!(
        &ops[3..],
        &[
            BusOp::Tx(0x80),
            BusOp::Start,
            BusOp::ClearAck,
            BusOp::Tx(0xE3),
            BusOp::ClearAck,
            BusOp::Start,
            BusOp::Tx(0x81),
            BusOp::ClearAck,
            BusOp::Rx,
            BusOp::Ack,
            BusOp::Nack,
            BusOp::Rx,
            BusOp::Stop,
            BusOp::ClearStop,
        ]
    );
}

#[test]
fn errors_of_each_kind() {
    let mut i2c = bus();
    let mut ops = Vec::new();
    let bus_err = |w: Wait| match w {
        Wait::Stop => I2cFlags { buserr: true, ..none() },
        other => good(other),
    };
    assert_eq!(i2c.blocking_write(0x10, &[], false, bus_err, |_i| 0, &mut ops), Err(Error::Bus));
    assert_eq!(ops.last(), Some(&BusOp::ClearFlags));
    let mut ops = Vec::new();
    let arb = |w: Wait| match w {
        Wait::RxData => I2cFlags { arblost: true, ..none() },
        other => good(other),
    };
    let mut buf = [0u8; 2];
    assert_eq!(i2c.blocking_read(0x10, &mut buf, false, arb, |_i| 0, &mut ops), Err(Error::ArbitrationLoss));
}

#[test]
fn async_polls() {
    let mut r = regs();
    let mut ops = Vec::new();
    assert_eq!(poll_ack(none(), false, &mut r, &mut ops), PollOutcome::Pending);
    assert!(r.ien.ack && r.ien.nack && r.ien.buserr && r.ien.arblost);
    assert_eq!(poll_ack(none(), true, &mut r, &mut ops), PollOutcome::Ready(Err(Error::Nack)));
    assert_eq!(ops, vec![BusOp::Stop, BusOp::ClearFlags]);
    let mut ops = Vec::new();
    assert_eq!(poll_rxdata(none(), false, false, false, false, &mut r, &mut ops), PollOutcome::Ready(Err(Error::Bus)));
    assert_eq!(poll_rxdata(none(), false, true, true, true, &mut r, &mut ops), PollOutcome::Ready(Ok(())));
    assert_eq!(poll_stop(I2cFlags { mstop: true, ..none() }, &mut r, &mut ops), PollOutcome::Ready(Ok(())));
    let mut ops = Vec::new();
    recovery_prelude(false, true, &mut r, &mut ops);
    assert_eq!(ops, vec![BusOp::AbortStop, BusOp::ClearPending, BusOp::FlushRx, BusOp::ClearFlags]);
    assert_eq!(r.ien, none());
}

#[test]
fn transaction_plans() {
    assert_eq!(plan_transaction(&[]), TransactionPlan::Empty);
    assert_eq!(plan_transaction(&[OpKind::Read]), TransactionPlan::Single(OpKind::Read));
    assert_eq!(plan_transaction(&[OpKind::Write, OpKind::Read]), TransactionPlan::WriteRead);
    assert_eq!(plan_transaction(&[OpKind::Read, OpKind::Write]), TransactionPlan::EachInTurn);
    assert_eq!(plan_transaction(&[OpKind::Write, OpKind::Write, OpKind::Read]), TransactionPlan::EachInTurn);
}

#[test]
fn configuration_ignores_prior_state() {
    let mut cmu = CmuRegs::reset();
    let mut g = gpio();
    let mut rt = routes();
    let mut a = regs();
    let mut b = regs();
    b.en = true;
    b.clkdiv = 99;
    b.ien = I2cFlags { ack: true, ..none() };
    b.if_flags = I2cFlags { nack: true, ..none() };
    let _x = I2c::new(I2C0, AnyPin::steal(0x05), AnyPin::steal(0x06), Config::default(), &mut cmu, &mut g, &mut rt, &mut a);
    let _y = I2c::new(I2C0, AnyPin::steal(0x05), AnyPin::steal(0x06), Config::default(), &mut cmu, &mut g, &mut rt, &mut b);
    assert_eq!(a, b);
}
