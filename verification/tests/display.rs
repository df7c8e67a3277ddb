use embassy_silabs::drivers::display::memlcd::{
    extcomin_tick, extcomin_toggle_frequency, reverse_bits_u8, ClockMode, Config, MemLcd, MemLcdConfig, MemLcdSpi,
    DISPLAY_HEIGHT, FRAMEBUFFER_SIZE,
};
use embassy_silabs::gpio::{AnyPin, GpioPortRegs, GpioRegs, PortMode, Route};
use embassy_silabs::peripherals::EUSART1;
use embassy_silabs::usart::eusart::{
    Cfg0, Cfg1, Cfg2, Clkpha, Clkpol, Cmd, Databits, EusartRegs, EusartRoute, EusartRoutes, Flags, Framecfg, Ovs,
    Parity, Stopbits,
};

fn gpio() -> GpioRegs {
    let port = GpioPortRegs { model: [PortMode::Disabled; 8], modeh: [PortMode::Disabled; 8], dout: 0, din: 0 };
    GpioRegs { ports: [port; 4] }
}

fn regs() -> EusartRegs {
    let none = Flags { txc: false, txfl: false, rxfl: false, rxof: false, perr: false, ferr: false };
    EusartRegs {
        en: false,
        cfg0: Cfg0 { sync: false, msbf: false, ovs: Ovs::X16, mvdis: false },
        cfg1: Cfg1 { ctsen: false },
        cfg2: Cfg2 { master: false, clkpol: Clkpol::IdleLow, clkpha: Clkpha::SampleLeading, forceload: false, sdiv: 0 },
        framecfg: Framecfg { databits: Databits::Eight, parity: Parity::NoParity, stopbits: Stopbits::One },
        clkdiv: 0,
        other_cfg_reset: false,
        ien: none,
        if_flags: none,
        cmd: Cmd { rxen: false, rxdis: false, txen: false, txdis: false },
    }
}

fn routes() -> EusartRoutes {
    let r = Route { port: 0, pin: 0 };
    let e = EusartRoute { tx: r, rx: r, sclk: r, rts: r, cts: r, txpen: false, rxpen: true, sclkpen: false, rtspen: false };
    EusartRoutes { eusart: [e; 2] }
}

fn display(reverse: bool, g: &mut GpioRegs) -> MemLcd<EUSART1> {
    let mut rt = routes();
    let mut r = regs();
    let spi = Config { reverse_bits: reverse, ..Config::default() };
    MemLcd::new(
        EUSART1,
        AnyPin::steal(0x23), // PC03 clock
        AnyPin::steal(0x21), // PC01 data
        AnyPin::steal(0x20), // PC00 chip select
        AnyPin::steal(0x24), // PC04 enable
        AnyPin::steal(0x26), // PC06 EXTCOMIN
        spi,
        MemLcdConfig::default(),
        g,
        &mut rt,
        &mut r,
    )
}

#[test]
fn reverse_bits_examples() {
    assert_eq!(reverse_bits_u8(0x01), 0x80);
    assert_eq!(reverse_bits_u8(0xA0), 0x05);
    assert_eq!(reverse_bits_u8(0x12), 0x48);
    for b in 0..=255u8 {
        assert_eq!(reverse_bits_u8(reverse_bits_u8(b)), b);
    }
}

#[test]
fn clock_mode_fields() {
    assert_eq!(ClockMode::Mode0.polarity(), Clkpol::IdleLow);
    assert_eq!(ClockMode::Mode2.polarity(), Clkpol::IdleHigh);
    assert_eq!(ClockMode::Mode3.phase(), Clkpha::SampleTrailing);
    assert_eq!(ClockMode::default(), ClockMode::Mode0);
}

#[test]
fn lcd_spi_setup_routes_tx_and_clock_only() {
    let mut g = gpio();
    let mut rt = routes();
    let mut r = regs();
    let mut spi = MemLcdSpi::new(EUSART1, AnyPin::steal(0x23), AnyPin::steal(0x21), Config::default(), &mut g, &mut rt, &mut r);
    assert!(r.en && r.cfg2.master && r.cfg0.sync);
    assert_eq!(r.cfg2.sdiv, 17);
    assert!(rt.eusart[1].txpen && rt.eusart[1].sclkpen && !rt.eusart[1].rxpen);
    assert_eq!(rt.eusart[1].tx, Route { port: 2, pin: 1 });
    let mut tx = Vec::new();
    spi.tx(&[1, 2, 3], &mut tx).unwrap();
    assert_eq!(tx, vec![1, 2, 3]);
    spi.enter_em23(&mut rt);
    assert!(!rt.eusart[1].txpen && !rt.eusart[1].sclkpen);
    spi.exit_em23(&mut r, &mut rt);
    assert!(rt.eusart[1].txpen && rt.eusart[1].sclkpen);
    let mut cmu = embassy_silabs::cmu::CmuRegs::reset();
    embassy_silabs::cmu::Cmu::enable_eusart1(&mut cmu);
    spi.shutdown(&mut r, &mut rt, &mut cmu);
    assert!(!r.en);
    assert!(!cmu.clken1.eusart1);
}

#[test]
fn lcd_spi_reversed_bus_operations() {
    let mut g = gpio();
    let mut rt = routes();
    let mut r = regs();
    let cfg = Config { reverse_bits: true, ..Config::default() };
    let mut spi = MemLcdSpi::new(EUSART1, AnyPin::steal(0x23), AnyPin::steal(0x21), cfg, &mut g, &mut rt, &mut r);
    let mut tx = Vec::new();
    spi.tx(&[0x01, 0x80], &mut tx).unwrap();
    assert_eq!(tx, vec![0x80, 0x01]);
    // The device echoes what it receives: reading back through the bit order gives the byte.
    let mut buf = [0x01u8, 0x03];
    spi.transfer_in_place(&mut buf, |_i, b| b).unwrap();
    assert_eq!(buf, [0x01, 0x03]);
    let mut read = [0u8; 3];
    let mut sent = Vec::new();
    spi.transfer(&mut read, &[0x10], &mut sent, |_i, b| b).unwrap();
    assert_eq!(read, [0x10, 0xFF, 0xFF]);
    assert_eq!(sent, vec![0x08, 0xFF, 0xFF]);
    let mut short = [0u8; 1];
    let mut sent2 = Vec::new();
    spi.transfer(&mut short, &[0x01, 0x02, 0x04], &mut sent2, |_i, b| b).unwrap();
    assert_eq!(short, [0x01]);
    assert_eq!(sent2, vec![0x80, 0x40, 0x20]);
    let mut words = [0u8; 2];
    spi.read(&mut words, |i, _b| if i == 0 { 0x80 } else { 0x01 }).unwrap();
    assert_eq!(words, [0x01, 0x80]);
}

#[test]
fn lcd_new_starts_white_and_low() {
    let mut g = gpio();
    let lcd = display(false, &mut g);
    assert!(lcd.framebuffer().iter().all(|&b| b == 0xFF));
    assert_eq!(lcd.framebuffer().len(), FRAMEBUFFER_SIZE);
    assert!(lcd.has_extcomin());
    assert!(lcd.is_extcomin_auto_toggle());
    assert_eq!(lcd.extcomin_frequency_hz(), 60);
    assert!(!lcd.is_powered(&g));
    assert_eq!(g.ports[2].model[0], PortMode::PushPull);
    assert_eq!(g.ports[2].model[4], PortMode::PushPull);
    assert_eq!(g.ports[2].dout & 0x51, 0);
}

#[test]
fn lcd_power_and_extcomin() {
    let mut g = gpio();
    let mut lcd = display(false, &mut g);
    lcd.power_on(&mut g);
    assert!(lcd.is_powered(&g));
    lcd.power_off(&mut g);
    assert!(!lcd.is_powered(&g));
    lcd.toggle_extcomin(&mut g);
    assert_eq!(g.ports[2].dout & (1 << 6), 1 << 6);
    lcd.toggle_extcomin(&mut g);
    assert_eq!(g.ports[2].dout & (1 << 6), 0);
    lcd.set_extcomin_auto_toggle(false);
    assert!(!lcd.is_extcomin_auto_toggle());
}

#[test]
fn lcd_draw_pixel_reads_back() {
    let mut g = gpio();
    let mut lcd = display(false, &mut g);
    lcd.draw_pixel(10, 3, true);
    // byte 3 * 16 + 10 / 8 = 49, bit 2 cleared
    assert_eq!(lcd.framebuffer()[49], 0xFF & !(1 << 2));
    lcd.draw_pixel(11, 3, true);
    assert_eq!(lcd.framebuffer()[49], 0xFF & !(1 << 2) & !(1 << 3));
    lcd.draw_pixel(10, 3, false);
    assert_eq!(lcd.framebuffer()[49], 0xFF & !(1 << 3));
    // Off the display: nothing changes.
    let before = *lcd.framebuffer();
    lcd.draw_pixel(-1, 0, true);
    lcd.draw_pixel(128, 5, true);
    lcd.draw_pixel(5, 128, true);
    assert_eq!(*lcd.framebuffer(), before);
}

#[test]
fn lcd_fill_and_clear() {
    let mut g = gpio();
    let mut lcd = display(false, &mut g);
    lcd.fill_buffer(false);
    assert!(lcd.framebuffer().iter().all(|&b| b == 0x00));
    lcd.clear_buffer();
    assert!(lcd.framebuffer().iter().all(|&b| b == 0xFF));
    lcd.framebuffer_mut()[0] = 0x0F;
    assert_eq!(lcd.framebuffer()[0], 0x0F);
}

#[test]
fn lcd_flush_display_stream() {
    let mut g = gpio();
    let mut lcd = display(false, &mut g);
    lcd.framebuffer_mut()[16] = 0x00; // first byte of line 1
    let mut tx = Vec::new();
    lcd.flush_display(&mut g, &mut tx);
    assert_eq!(tx.len(), 2 + DISPLAY_HEIGHT * 18);
    assert_eq!(&tx[0..2], &[0x01, 1]);
    assert_eq!(&tx[2..18], &[0xFF; 16]);
    assert_eq!(&tx[18..20], &[0xFF, 2]);
    assert_eq!(tx[20], 0x00);
    assert_eq!(&tx[tx.len() - 2..], &[0xFF, 0xFF]);
    assert_eq!(g.ports[2].dout & 1, 0);
}

#[test]
fn lcd_clear_hw_command() {
    let mut g = gpio();
    let mut lcd = display(true, &mut g);
    lcd.fill_buffer(false);
    let mut tx = Vec::new();
    lcd.clear_hw(&mut g, &mut tx);
    // 0x04 reversed is 0x20
    assert_eq!(tx, vec![0x20, 0x00]);
    assert!(lcd.framebuffer().iter().all(|&b| b == 0xFF));
}

#[test]
fn extcomin_helpers() {
    assert_eq!(extcomin_toggle_frequency(60), 120);
    assert!(extcomin_tick(true));
    assert!(!extcomin_tick(false));
}
