use embassy_silabs::gpio::{AnyPin, GpioPortRegs, GpioRegs, PortMode, Route};
use embassy_silabs::peripherals::{EUSART0, EUSART1, USART0};
use embassy_silabs::spi::{sdiv_for, ClockMode, Config as SpiConfig, Spi};
use embassy_silabs::usart::eusart::{
    check_errors, clkdiv_for, release_half, Cfg0, Cfg1, Cfg2, Clkpha, Clkpol, Cmd, Config, Databits, Error, Eusart,
    EusartRegs, EusartRoute, EusartRoutes, Flags, Framecfg, Ovs, Parity, Stopbits,
};
use embassy_silabs::usart::usart as us;

fn gpio() -> GpioRegs {
    let port = GpioPortRegs { model: [PortMode::Disabled; 8], modeh: [PortMode::Disabled; 8], dout: 0, din: 0 };
    GpioRegs { ports: [port; 4] }
}

fn no_flags() -> Flags {
    Flags { txc: false, txfl: false, rxfl: false, rxof: false, perr: false, ferr: false }
}

fn eusart_regs() -> EusartRegs {
    EusartRegs {
        en: false,
        cfg0: Cfg0 { sync: false, msbf: false, ovs: Ovs::X16, mvdis: false },
        cfg1: Cfg1 { ctsen: false },
        cfg2: Cfg2 { master: false, clkpol: Clkpol::IdleLow, clkpha: Clkpha::SampleLeading, forceload: false, sdiv: 0 },
        framecfg: Framecfg { databits: Databits::Eight, parity: Parity::NoParity, stopbits: Stopbits::One },
        clkdiv: 0,
        other_cfg_reset: false,
        ien: no_flags(),
        if_flags: no_flags(),
        cmd: Cmd { rxen: false, rxdis: false, txen: false, txdis: false },
    }
}

fn route0() -> EusartRoute {
    let r = Route { port: 0, pin: 0 };
    EusartRoute { tx: r, rx: r, sclk: r, rts: r, cts: r, txpen: false, rxpen: false, sclkpen: false, rtspen: false }
}

fn routes() -> EusartRoutes {
    EusartRoutes { eusart: [route0(); 2] }
}

#[test]
fn eusart_clkdiv_standard_baud() {
    assert_eq!(clkdiv_for(20_000_000, 115_200, Ovs::X16), 2520);
    assert_eq!(clkdiv_for(20_000_000, 9_600, Ovs::X16), 33072);
}

#[test]
fn eusart_new_configures_uart_and_routes() {
    let mut g = gpio();
    let mut rt = routes();
    let mut regs = eusart_regs();
    let rx = AnyPin::steal(0x05); // PA05
    let tx = AnyPin::steal(0x06); // PA06
    let _e = Eusart::new(EUSART0, rx, tx, Config::default(), &mut g, &mut rt, &mut regs);
    assert!(regs.en);
    assert_eq!(regs.clkdiv, 2520);
    assert!(regs.cmd.rxen && regs.cmd.txen);
    assert!(!regs.cfg1.ctsen);
    assert_eq!(rt.eusart[0].rx, Route { port: 0, pin: 5 });
    assert_eq!(rt.eusart[0].tx, Route { port: 0, pin: 6 });
    assert!(rt.eusart[0].rxpen && rt.eusart[0].txpen);
    assert_eq!(rt.eusart[1], route0());
    assert_eq!(g.ports[0].model[5], PortMode::Input);
    assert_eq!(g.ports[0].model[6], PortMode::PushPull);
    assert_eq!(g.ports[0].dout, 1 << 6);
}

#[test]
fn eusart_check_errors_priority() {
    let mut regs = eusart_regs();
    regs.if_flags = Flags { perr: true, ferr: true, rxof: true, ..no_flags() };
    assert_eq!(check_errors(&mut regs), Err(Error::Parity));
    regs.if_flags = Flags { ferr: true, rxof: true, ..no_flags() };
    assert_eq!(check_errors(&mut regs), Err(Error::Framing));
    regs.if_flags = Flags { rxof: true, ..no_flags() };
    assert_eq!(check_errors(&mut regs), Err(Error::Overflow));
    regs.if_flags = no_flags();
    assert_eq!(check_errors(&mut regs), Ok(()));
}

#[test]
fn eusart_error_messages() {
    assert_eq!(Error::Parity.message(), "Parity error");
    assert_eq!(Error::Overflow.message(), "RX FIFO overflow");
}

#[test]
fn eusart_write_and_read_through_halves() {
    let mut g = gpio();
    let mut rt = routes();
    let mut regs = eusart_regs();
    let mut e = Eusart::new(EUSART1, AnyPin::steal(0x21), AnyPin::steal(0x22), Config::default(), &mut g, &mut rt, &mut regs);
    let mut tx = Vec::new();
    assert_eq!(e.blocking_write(b"hi", &mut tx), Ok(()));
    assert_eq!(tx, b"hi".to_vec());
    let mut buf = [0u8; 3];
    assert_eq!(e.blocking_read(&mut buf, |i| Ok(7 + i as u8)), Ok(()));
    assert_eq!(buf, [7, 8, 9]);
    assert_eq!(e.blocking_read(&mut buf, |i| if i < 1 { Ok(1) } else { Err(Error::Framing) }), Err(Error::Framing));
    assert_eq!(buf, [1, 8, 9]);
}

#[test]
fn eusart_last_half_disables() {
    let mut regs = eusart_regs();
    regs.en = true;
    let mut rt = routes();
    rt.eusart[0].txpen = true;
    rt.eusart[0].rxpen = true;
    let mut live: u8 = 2;
    release_half(&mut live, &mut regs, &mut rt, 0);
    assert_eq!(live, 1);
    assert!(regs.en);
    release_half(&mut live, &mut regs, &mut rt, 0);
    assert_eq!(live, 0);
    assert!(!regs.en);
    assert!(!rt.eusart[0].txpen && !rt.eusart[0].rxpen);
}

fn usart_regs() -> us::UsartRegs {
    let none = us::Flags { txc: false, txbl: false, rxdatav: false, rxof: false, perr: false, ferr: false };
    us::UsartRegs {
        en: false,
        ctrl: us::Ctrl { ovs: us::Ovs::X16, mvdis: false },
        frame: us::Frame { databits: us::Databits::Eight, parity: us::Parity::NoParity, stopbits: us::Stopbits::One },
        ctsen: false,
        clkdiv: 0,
        other_cfg_reset: false,
        ien: none,
        if_flags: none,
        cmd: us::Cmd {
            rxen: false,
            rxdis: false,
            txen: false,
            txdis: false,
            masterdis: false,
            rxblockdis: false,
            txtridis: false,
            cleartx: false,
            clearrx: false,
        },
    }
}

#[test]
fn usart_clkdiv_rounds_to_nearest() {
    let mut regs = usart_regs();
    us::set_baudrate(&mut regs, 20_000_000, 115_200, us::Ovs::X4);
    // 640e6 / 460800 = 1388.9, rounded to 1389: (1389 - 32) * 8
    assert_eq!(regs.clkdiv, 10856);
    assert_eq!(regs.ctrl.ovs, us::Ovs::X4);
    us::set_baudrate(&mut regs, 20_000_000, 9_600, us::Ovs::X16);
    assert_eq!(regs.clkdiv, 33080);
}

#[test]
fn usart_new_with_flow_control() {
    let mut g = gpio();
    let r = Route { port: 0, pin: 0 };
    let mut route = us::UsartRoute { rx: r, tx: r, rts: r, cts: r, rxpen: false, txpen: false, rtspen: false };
    let mut regs = usart_regs();
    let config = us::Config { hw_flow_control: true, majority_vote_disable: true, ..us::Config::default() };
    let _u = us::Usart::new_with_rtscts(
        USART0,
        AnyPin::steal(0x10),
        AnyPin::steal(0x11),
        AnyPin::steal(0x12),
        AnyPin::steal(0x13),
        config,
        &mut g,
        &mut route,
        &mut regs,
    );
    assert!(regs.en && regs.ctsen && regs.ctrl.mvdis);
    assert_eq!(regs.clkdiv, 2520);
    assert_eq!(route.rts, Route { port: 1, pin: 3 });
    assert_eq!(route.cts, Route { port: 1, pin: 2 });
    assert!(route.rtspen && route.rxpen && route.txpen);
    assert_eq!(g.ports[1].dout, (1 << 1) | (1 << 3));
}

#[test]
fn usart_check_errors_clears_reported_flag() {
    let mut regs = usart_regs();
    regs.if_flags.ferr = true;
    regs.if_flags.rxof = true;
    assert_eq!(us::check_errors(&mut regs), Err(us::Error::Framing));
    assert!(regs.if_flags.ferr && !regs.if_flags.rxof);
}

#[test]
fn usart_interrupts_mask_sources() {
    let mut regs = usart_regs();
    regs.ien.rxdatav = true;
    regs.if_flags.rxdatav = true;
    assert!(us::on_rx_interrupt(&mut regs));
    assert!(!regs.ien.rxdatav);
    assert!(!us::on_tx_interrupt(&mut regs));
    assert!(!us::poll_tx_ready(&mut regs, false));
    assert!(regs.ien.txbl);
    assert!(us::poll_tx_ready(&mut regs, true));
}

#[test]
fn spi_divider() {
    assert_eq!(sdiv_for(20_000_000, 1_000_000), 19);
    assert_eq!(sdiv_for(20_000_000, 1_100_000), 17);
    assert_eq!(sdiv_for(20_000_000, 40_000_000), 0);
    assert_eq!(sdiv_for(20_000_000, 10_000), 255);
}

#[test]
fn spi_clock_modes() {
    assert_eq!(ClockMode::Mode3.polarity(), Clkpol::IdleHigh);
    assert_eq!(ClockMode::Mode1.phase(), Clkpha::SampleTrailing);
    assert_eq!(ClockMode::from_polarity_phase(true, false), ClockMode::Mode2);
}

#[test]
fn spi_transfer_exchanges_bytes() {
    let mut g = gpio();
    let mut rt = routes();
    let mut regs = eusart_regs();
    let mut spi = Spi::new(
        EUSART1,
        AnyPin::steal(0x23),
        AnyPin::steal(0x21),
        AnyPin::steal(0x22),
        SpiConfig::default(),
        &mut g,
        &mut rt,
        &mut regs,
    );
    assert!(regs.cfg2.master && regs.cfg0.sync && regs.cfg0.msbf);
    assert_eq!(regs.cfg2.sdiv, 19);
    assert!(rt.eusart[1].sclkpen && rt.eusart[1].rxpen && rt.eusart[1].txpen);
    let mut read = [0u8; 4];
    let mut tx = Vec::new();
    spi.blocking_transfer(&mut read, &[1, 2], &mut tx, |i, b| b.wrapping_add(10 * i as u8)).unwrap();
    assert_eq!(read, [1, 12, 20, 30]);
    assert_eq!(tx, vec![1, 2, 0, 0]);
    let mut short = [0u8; 1];
    let mut tx2 = Vec::new();
    spi.blocking_transfer(&mut short, &[7, 8, 9], &mut tx2, |_i, b| b).unwrap();
    assert_eq!(short, [7]);
    assert_eq!(tx2, vec![7, 8, 9]);
    let mut data = [5u8, 6];
    spi.blocking_transfer_in_place(&mut data, |i, b| !b ^ i as u8).unwrap();
    assert_eq!(data, [!5u8, !6u8 ^ 1]);
}

#[test]
fn spi_write_appends_bytes() {
    let mut g = gpio();
    let mut rt = routes();
    let mut regs = eusart_regs();
    let mut spi = Spi::new_txonly(EUSART0, AnyPin::steal(0x03), AnyPin::steal(0x04), SpiConfig::default(), &mut g, &mut rt, &mut regs);
    assert!(!rt.eusart[0].rxpen);
    let mut tx = vec![9u8];
    assert_eq!(spi.blocking_write(&[1, 2, 3], &mut tx), Ok(()));
    assert_eq!(tx, vec![9, 1, 2, 3]);
    let mut buf = [1u8; 2];
    spi.blocking_read(&mut buf, |i, _b| 0x42 + i as u8).unwrap();
    assert_eq!(buf, [0x42, 0x43]);
}

#[test]
fn eusart_configuration_ignores_prior_state() {
    let mut g = gpio();
    let mut rt = routes();
    let mut a = eusart_regs();
    let mut b = eusart_regs();
    b.en = true;
    b.clkdiv = 1234;
    b.cfg1.ctsen = true;
    b.ien = Flags { txc: true, ..no_flags() };
    b.cfg2.sdiv = 7;
    let _x = Eusart::new(EUSART0, AnyPin::steal(0x05), AnyPin::steal(0x06), Config::default(), &mut g, &mut rt, &mut a);
    let _y = Eusart::new(EUSART0, AnyPin::steal(0x05), AnyPin::steal(0x06), Config::default(), &mut g, &mut rt, &mut b);
    assert_eq!(a, b);
}
