use embassy_silabs::ble;
use embassy_silabs::boards::{brd2601b, brd4186c};
use embassy_silabs::bt_empty::ble_app::{adv_status_note, boot_setup_step, on_connection_closed, sl_bt_msg_id};
use embassy_silabs::bt_empty::ble_runtime::{post_init_pump_done, pump_tick};
use embassy_silabs::bt_empty::delay::{delay_elapsed, delay_ticks};
use embassy_silabs::cmu::{ClocksConfig, Cmu, CmuRegs, HfrcoFreq, WdogClkSel};
use embassy_silabs::drivers::sensor::si7021::{raw_from_bytes, Si7021};
use embassy_silabs::emu::{Emu, EmuRegs, VoltageScale};
use embassy_silabs::gpio::{AnyPin, GpioPortRegs, GpioRegs, Level, PortMode, Route};
use embassy_silabs::iadc::{timebase_for, Iadc, IadcRegs, Input, NegInput, PosInput, Reference, Single};
use embassy_silabs::iadc::{Alignment, Config as IadcConfig, Gain, Oversampling};
use embassy_silabs::peripherals::{Peripherals, IADC0, WDOG0};
use embassy_silabs::prs::{route_racl_paen, AsyncChannel, AsyncCtrl, PrsRegs, PrsRoutes, RACL_PAEN_SIGSEL, RACL_SOURCESEL};
use embassy_silabs::radio;
use embassy_silabs::time_driver::{calc_now, on_interrupt, plan_alarm, AlarmAction, AlarmState, RtcDriver, SysrtcRegs};
use embassy_silabs::timer::Prescaler;
use embassy_silabs::wdog::{Config as WdogConfig, Timeout, Wdog, WdogCfg, WdogRegs};

fn gpio() -> GpioRegs {
    let port = GpioPortRegs { model: [PortMode::Disabled; 8], modeh: [PortMode::Disabled; 8], dout: 0, din: 0 };
    GpioRegs { ports: [port; 4] }
}

#[test]
fn time_from_period_and_counter() {
    assert_eq!(calc_now(0, 5), 5);
    assert_eq!(calc_now(1, 0x8000_0005), 0x8000_0005);
    // The counter wrapped before the period was counted: still one cycle later.
    assert_eq!(calc_now(1, 0x0000_0005), 0x1_0000_0005);
    assert_eq!(calc_now(2, 0x0000_0005), 0x1_0000_0005);
}

#[test]
fn alarm_planning() {
    assert_eq!(plan_alarm(50, 50), AlarmAction::Passed);
    assert_eq!(plan_alarm(100, 50), AlarmAction::Arm { compare: 100 });
    assert_eq!(plan_alarm(51, 50), AlarmAction::Arm { compare: 52 });
    assert_eq!(plan_alarm(0xD000_0000, 0), AlarmAction::Defer { compare: 0xD000_0000 });
    assert_eq!(plan_alarm(0x1_0000_0010, 0x1_0000_0000), AlarmAction::Arm { compare: 0x10 });
}

#[test]
fn rtc_driver_state() {
    let mut regs = SysrtcRegs {
        en: false,
        started: false,
        cmp0value: 0,
        cmp1value: 0,
        cmp0en: false,
        cmp1en: false,
        ien_ovf: false,
        ien_cmp0: false,
        ien_cmp1: false,
    };
    let mut cmu = CmuRegs::reset();
    embassy_silabs::time_driver::rtc_init(&mut cmu, &mut regs);
    assert!(regs.en && regs.started && regs.ien_ovf && regs.ien_cmp0);
    assert_eq!(regs.cmp0value, 0x8000_0000);
    assert!(cmu.clken0.sysrtc0 && cmu.clken0.lfrco);
    let mut d = RtcDriver { period: 0, alarm: AlarmState::new() };
    assert_eq!(d.alarm.timestamp, u64::MAX);
    assert!(d.apply_alarm(1000, 10, &mut regs));
    assert!(regs.ien_cmp1);
    assert_eq!(regs.cmp1value, 1000);
    assert!(!d.apply_alarm(5, 10, &mut regs));
    assert!(!regs.ien_cmp1);
    assert_eq!(d.alarm.timestamp, u64::MAX);
    d.apply_alarm(0x1_0000_0000, 0, &mut regs);
    assert!(!regs.ien_cmp1);
    d.next_period(&mut regs);
    assert_eq!(d.period, 1);
    assert!(regs.ien_cmp1);
    assert_eq!(d.now(7), 0x1_0000_0007);
    d.trigger_alarm(&mut regs);
    assert_eq!(d.alarm.timestamp, u64::MAX);
    let plan = on_interrupt(true, true, false);
    assert_eq!(plan.periods, 2);
    assert!(!plan.trigger);
}

#[test]
fn gpio_output_levels() {
    let mut g = gpio();
    let pin = AnyPin::steal(0x13);
    let mut out = embassy_silabs::gpio::Output::new(pin, Level::High, &mut g);
    assert_eq!(g.ports[1].model[3], PortMode::PushPull);
    assert!(out.is_set_high(&g));
    out.toggle(&mut g);
    assert!(out.is_set_low(&g));
    out.set_level(&mut g, Level::High);
    assert_eq!(out.get_output_level(&g), Level::High);
    assert_eq!(Level::from(true), Level::High);
    assert!(!bool::from(Level::Low));
    assert_eq!(embassy_silabs::gpio::route_of(pin), Route { port: 1, pin: 3 });
}

#[test]
fn gpio_upper_half_pins_use_modeh() {
    let mut g = gpio();
    let before = g;
    let cs = AnyPin::steal(0x28);
    let out = embassy_silabs::gpio::Output::new(cs, Level::High, &mut g);
    assert_eq!(g.ports[2].modeh[0], PortMode::PushPull);
    assert_eq!(g.ports[2].model, before.ports[2].model);
    assert!(out.is_set_high(&g));
    assert_eq!(cs.mode_r(&g), PortMode::PushPull);
    let _input = embassy_silabs::gpio::Input::new(AnyPin::steal(0x1F), PortMode::InputPull, &mut g);
    assert_eq!(g.ports[1].modeh[7], PortMode::InputPull);
}

#[test]
fn clock_gates_and_sources() {
    let mut cmu = CmuRegs::reset();
    Cmu::enable_lfxo(&mut cmu);
    assert!(Cmu::is_lfxo_enabled(&cmu));
    Cmu::disable_lfxo(&mut cmu);
    assert!(!Cmu::is_lfxo_enabled(&cmu));
    Cmu::enable_timer(&mut cmu, 3);
    assert!(cmu.clken0.timer3);
    Cmu::enable_timer(&mut cmu, 9);
    assert_eq!(Cmu::sysclk_frequency(), 38_000_000);
    assert_eq!(HfrcoFreq::Freq19MHz.frequency_hz(), 19_000_000);
    assert_eq!(WdogClkSel::Ulfrco.frequency_hz(), 1_000);
    assert_eq!(WdogClkSel::HclkDiv1024.frequency_hz(), 37_109);
    let cfg = ClocksConfig::new().with_ulfrco(true).with_wdog0_clock(WdogClkSel::Ulfrco);
    cfg.apply(&mut cmu);
    assert!(Cmu::is_ulfrco_enabled(&cmu));
    assert_eq!(cmu.wdog0_clksel, WdogClkSel::Ulfrco);
}

#[test]
fn hal_init_enables_clocks() {
    let mut cmu = CmuRegs::reset();
    let mut taken = false;
    let _p = embassy_silabs::init(&mut cmu, &mut taken);
    assert!(taken);
    assert!(cmu.clken0.gpio && cmu.clken0.sysrtc0 && cmu.clken0.lfrco && cmu.clken0.usart0);
    assert!(cmu.clken1.eusart0 && cmu.clken1.eusart1);
    assert!(!cmu.clken0.i2c0);
}

#[test]
fn watchdog_timeouts_and_feeding() {
    assert_eq!(Timeout::Cycles1k.cycles(), 1025);
    assert_eq!(Timeout::Cycles1k.timeout_ms_ulfrco(), 1025);
    assert_eq!(Timeout::Cycles32k.timeout_ms_lfrco(), 1000);
    let mut cmu = CmuRegs::reset();
    let cfg = WdogCfg {
        debugrun: false,
        em1run: false,
        em2run: false,
        em3run: false,
        em4block: false,
        wdogrstdis: false,
        persel: 0,
        warnsel: 0,
    };
    let mut regs = WdogRegs { en: false, cfg, cmd_clear: false, locked: false, ien_warn: false, if_warn: false };
    let mut w = Wdog::new(WDOG0, WdogConfig::default(), &mut cmu, &mut regs);
    assert!(cmu.clken0.wdog0);
    assert!(w.is_running(&regs));
    w.feed(&mut regs);
    assert!(regs.cmd_clear);
    regs.if_warn = true;
    assert!(w.check_warning(&mut regs));
    assert!(!regs.if_warn);
    assert!(!w.check_warning(&mut regs));
}

#[test]
fn timer_prescalers() {
    assert_eq!(Prescaler::Div1.divisor(), 1);
    assert_eq!(Prescaler::Div8.divisor(), 8);
    assert_eq!(Prescaler::Div1024.divisor(), 1024);
}

#[test]
fn emu_temperature() {
    let regs = EmuRegs {
        em2dbgen: false,
        em4entry: 0,
        em4ioret: false,
        vscale: 0,
        vscalebusy: false,
        cmd_em01vscale1: false,
        cmd_em01vscale2: false,
        locked: false,
        tempavg: 612,
    };
    let mut r2 = regs;
    let emu = Emu::new(&mut r2);
    assert_eq!(emu.read_temperature(&regs), Some(25));
    assert_eq!(emu.read_temperature(&EmuRegs { tempavg: 412, ..regs }), Some(-25));
    assert_eq!(emu.read_temperature(&EmuRegs { tempavg: 0, ..regs }), None);
}

#[test]
fn emu_lock_and_voltage_scale() {
    let mut regs = EmuRegs {
        em2dbgen: false,
        em4entry: 0,
        em4ioret: false,
        vscale: 0,
        vscalebusy: false,
        cmd_em01vscale1: false,
        cmd_em01vscale2: false,
        locked: true,
        tempavg: 612,
    };
    let emu = Emu::new(&mut regs);
    emu.unlock(&mut regs);
    assert!(!emu.is_locked(&regs));
    emu.lock(&mut regs);
    assert!(emu.is_locked(&regs));
    assert_eq!(emu.voltage_scale_level(&regs), VoltageScale::Scale0);
    assert_eq!(emu.voltage_scale_level(&EmuRegs { vscale: 1, ..regs }), VoltageScale::Scale1);
    assert_eq!(emu.voltage_scale_level(&EmuRegs { vscale: 2, ..regs }), VoltageScale::Scale2);
    emu.set_voltage_scale(&mut regs, VoltageScale::Scale2);
    assert!(regs.cmd_em01vscale2 && !regs.cmd_em01vscale1);
    assert_eq!(emu.voltage_scale_level(&regs), VoltageScale::Scale2);
    emu.set_voltage_scale(&mut regs, VoltageScale::Scale1);
    assert_eq!(emu.voltage_scale_level(&regs), VoltageScale::Scale1);
    emu.set_voltage_scale(&mut regs, VoltageScale::Scale0);
    assert!(regs.cmd_em01vscale1 && !regs.cmd_em01vscale2);
    assert_eq!(emu.voltage_scale_level(&regs), VoltageScale::Scale1);
}

#[test]
fn si7021_conversions() {
    assert_eq!(Si7021::<()>::convert_humidity(0x6000), 4087);
    assert_eq!(Si7021::<()>::convert_temperature(0x6600), 2316);
    assert_eq!(Si7021::<()>::convert_temperature(0x3000), -1390);
    assert_eq!(Si7021::<()>::convert_humidity(0), -600);
    assert_eq!(Si7021::<()>::convert_humidity(0x8000), 5650);
    assert_eq!(raw_from_bytes([0x66, 0x03]), 0x6600);
    assert_eq!(Si7021::<()>::humidity_from_reply([0x60, 0x02]), 4087);
    assert_eq!(Si7021::<()>::temperature_from_reply([0x66, 0x01]), 2316);
}

#[test]
fn iadc_inputs_and_scaling() {
    assert_eq!(timebase_for(20_000_000), 19);
    assert_eq!(timebase_for(1_000_000), 0);
    assert_eq!(timebase_for(200_000_000), 127);
    assert_eq!(PosInput::Pin(2, 5).to_raw(), 0x65);
    assert_eq!(PosInput::Avdd.to_raw(), 0x10);
    assert_eq!(NegInput::Gnd.to_raw(), 0x01);
    assert_eq!(Reference::Vddx.voltage_mv(), 3300);
    let mut cmu = CmuRegs::reset();
    let single = Single { portpos: 0, pinpos: 0, portneg: 0, pinneg: 0 };
    let mut regs = IadcRegs {
        en: false,
        timebase: 0,
        osr: Oversampling::Osr2,
        gain: Gain::Gain1,
        refsel: Reference::Internal1V2,
        alignment: Alignment::Right12,
        trigger_immediate_once: false,
        single,
        ien_singledone: false,
        single_started: false,
    };
    let mut adc = Iadc::new(IADC0, IadcConfig::default(), &mut cmu, &mut regs);
    assert!(cmu.clken0.iadc0 && regs.en && regs.trigger_immediate_once);
    assert_eq!(regs.timebase, 19);
    assert_eq!(adc.sample_to_mv(4095), 1210);
    assert_eq!(adc.sample_to_mv(2048), 605);
    assert_eq!(adc.resolution(), 12);
    let input = Input::single_ended(AnyPin::steal(0x25));
    let v = adc.blocking_read(input, &mut regs, || 1234);
    assert_eq!(v, 1234);
    assert_eq!(regs.single, Single { portpos: 6, pinpos: 5, portneg: 0, pinneg: 1 });
    let mut many = [0u16; 3];
    adc.blocking_read_many(Input::avdd(), &mut many, &mut regs, |i| 7 + i as u16);
    assert_eq!(many, [7, 8, 9]);
}

#[test]
fn prs_routing() {
    let ctrl = AsyncCtrl { sourcesel: 0, sigsel: 0, fnsel_a: false };
    let mut prs = PrsRegs { ch: [ctrl; 16] };
    let mut routes = PrsRoutes { asynch: [Route { port: 0, pin: 0 }; 16], routeen: 0 };
    let mut cmu = CmuRegs::reset();
    let mut g = gpio();
    let ch = AsyncChannel::new(3);
    assert_eq!(ch.index(), 3);
    route_racl_paen(ch, AnyPin::steal(0x24), &mut cmu, &mut g, &mut prs, &mut routes);
    assert_eq!(prs.ch[3], AsyncCtrl { sourcesel: RACL_SOURCESEL, sigsel: RACL_PAEN_SIGSEL, fnsel_a: true });
    assert_eq!(prs.ch[2], ctrl);
    assert_eq!(routes.asynch[3], Route { port: 2, pin: 4 });
    assert_eq!(routes.routeen, 1 << 3);
    assert!(cmu.clken0.prs && cmu.clken0.gpio);
    assert_eq!(g.ports[2].model[4], PortMode::PushPull);
}

#[test]
fn board_pin_assignments() {
    let (b, rest) = brd4186c::Board::new(Peripherals::take(&mut false));
    assert_eq!(b.led0.pin_port, 0x12);
    assert_eq!(b.display_cs.pin_port, 0x28);
    assert_eq!(rest.pd05.pin_port, 0x35);
    assert_eq!(brd4186c::Board::led_polarity(), brd4186c::LedPolarity::ActiveHigh);
    let (b2, rest2) = brd2601b::Board::new(Peripherals::take(&mut false));
    assert_eq!(b2.led0.pin_port, 0x32);
    assert_eq!(rest2.pa09.pin_port, 0x09);
    assert_eq!(brd2601b::Board::led_polarity(), brd2601b::LedPolarity::ActiveLow);
}

#[test]
fn ble_init_runs_once() {
    let mut done = false;
    let steps = ble::init(&mut done, ble::INIT_STEPS);
    assert_eq!(steps, (1..=9).collect::<Vec<u32>>());
    assert!(done);
    assert!(ble::init(&mut done, ble::INIT_STEPS).is_empty());
    let mut done2 = false;
    ble::mark_initialized(&mut done2);
    assert!(done2);
}

#[test]
fn radio_events_and_status() {
    let mut ev = 0u32;
    radio::record_events(&mut ev, radio::EVENT_TX_PACKET_SENT);
    radio::record_events(&mut ev, radio::EVENT_TX_ABORTED);
    assert_eq!(radio::take_events(&mut ev), (1 << 24) | (1 << 26));
    assert_eq!(radio::take_events(&mut ev), 0);
    assert_eq!(radio::status_result(0), Ok(()));
    assert_eq!(radio::status_result(3), Err(3));
    let mut once = false;
    assert!(radio::init(&mut once));
    assert!(!radio::init(&mut once));
    assert_eq!(radio::write_tx_fifo(&[1, 2, 3], |ch, _d, len| if ch == 11 && len == 3 { 0 } else { 9 }), Ok(()));
    assert_eq!(radio::tx_packet(15, &[1], |_c, _d, _l| 5), Err(5));
}

#[test]
fn bluetooth_app_decisions() {
    assert_eq!(sl_bt_msg_id(0x2000_0094), 0x2000_0090);
    assert_eq!(adv_status_note(2, 0x0E), 0x0200_000E);
    let s = boot_setup_step(1, 0);
    assert!(s.proceed);
    assert_eq!(s.note, 0x0100_0000);
    assert!(!boot_setup_step(3, 1).proceed);
    let mut pending = false;
    assert_eq!(on_connection_closed(7, &mut pending), 0x0500_0007);
    assert!(!pending);
    on_connection_closed(0, &mut pending);
    assert!(pending);
    assert!(!post_init_pump_done(2, true));
    assert!(post_init_pump_done(3, true));
    assert!(!post_init_pump_done(10, false));
    assert_eq!(pump_tick(0), (1, false));
    assert_eq!(pump_tick(399), (400, true));
    assert_eq!(pump_tick(u32::MAX), (u32::MAX, true));
}

#[test]
fn delay_arithmetic() {
    assert_eq!(delay_ticks(5), 165);
    assert_eq!(delay_ticks(u32::MAX), u32::MAX);
    assert!(!delay_elapsed(100, 50, 100));
    assert!(delay_elapsed(150, 50, 100));
    // Across the counter wrap.
    assert!(delay_elapsed(10, u32::MAX - 100, 100));
    assert!(!delay_elapsed(10, u32::MAX - 5, 100));
}


#[test]
fn board_pins_are_distinct() {
    let (b, r) = brd4186c::Board::new(Peripherals::take(&mut false));
    let mut pins = vec![
        b.led0, b.led1, b.btn0, b.btn1, b.sensor_scl, b.sensor_sda, b.display_mosi, b.display_clk, b.display_cs,
        b.display_extcomin, b.display_enable, b.vcom_enable, b.sensor_enable, r.pa00, r.pa01, r.pa02, r.pa03, r.pa04,
        r.pa05, r.pa06, r.pa07, r.pa08, r.pa09, r.pb05, r.pc00, r.pc02, r.pc04, r.pd00, r.pd01, r.pd02, r.pd04, r.pd05,
    ]
    .into_iter()
    .map(|p| p.pin_port)
    .collect::<Vec<u8>>();
    let n = pins.len();
    pins.sort();
    pins.dedup();
    assert_eq!(pins.len(), n);
}

#[test]
fn sensor_readings_grow_with_raw_value() {
    let mut last_h = i32::MIN;
    let mut last_t = i32::MIN;
    for raw in (0..=0xFFFFu32).step_by(97) {
        let h = Si7021::<()>::convert_humidity(raw as u16);
        let t = Si7021::<()>::convert_temperature(raw as u16);
        assert!(h >= last_h && t >= last_t);
        last_h = h;
        last_t = t;
    }
}

#[test]
fn flex_release_disconnects_pin() {
    let mut g = gpio();
    let pin = AnyPin::steal(0x13);
    let mut flex = embassy_silabs::gpio::Flex::new(pin);
    flex.set_as_output(&mut g);
    assert_eq!(g.ports[1].model[3], PortMode::PushPull);
    flex.release(&mut g);
    assert_eq!(g.ports[1].model[3], PortMode::Disabled);
}

struct FakeSensorBus {
    sent: std::cell::RefCell<Vec<(u8, Vec<u8>)>>,
    replies: std::cell::RefCell<Vec<Result<[u8; 2], u8>>>,
}

impl FakeSensorBus {
    fn new(replies: Vec<Result<[u8; 2], u8>>) -> Self {
        FakeSensorBus { sent: std::cell::RefCell::new(Vec::new()), replies: std::cell::RefCell::new(replies) }
    }

    fn write_read(&self, address: u8, write: [u8; 1]) -> Result<[u8; 2], u8> {
        self.sent.borrow_mut().push((address, write.to_vec()));
        self.replies.borrow_mut().remove(0)
    }

    fn write(&self, address: u8, write: [u8; 1]) -> Result<(), u8> {
        self.sent.borrow_mut().push((address, write.to_vec()));
        Ok(())
    }
}

#[test]
fn si7021_commands_and_replies() {
    let bus = FakeSensorBus::new(vec![Ok([0x80, 0x03]), Ok([0x66, 0x01]), Ok([0x30, 0x00]), Err(7)]);
    let mut sensor = Si7021::new(());
    assert_eq!(sensor.read_humidity_blocking(|a, w| bus.write_read(a, w)), Ok(5650));
    let m = sensor.measure_blocking(|a, w| bus.write_read(a, w)).unwrap();
    assert_eq!(m.humidity_centi_percent, Si7021::<()>::convert_humidity(0x6600));
    assert_eq!(m.temperature_centi_c, -1390);
    assert_eq!(sensor.read_temperature_blocking(|a, w| bus.write_read(a, w)), Err(7));
    assert_eq!(sensor.reset_blocking(|a, w| bus.write(a, w)), Ok(()));
    assert_eq!(
        *bus.sent.borrow(),
        vec![(0x40, vec![0xE5]), (0x40, vec![0xE5]), (0x40, vec![0xE0]), (0x40, vec![0xE3]), (0x40, vec![0xFE])]
    );
}

#[test]
fn si7021_measure_stops_at_first_bus_error() {
    let bus = FakeSensorBus::new(vec![Err(3), Ok([0, 0])]);
    let mut sensor = Si7021::new_with_address((), 0x41);
    assert_eq!(sensor.measure_blocking(|a, w| bus.write_read(a, w)), Err(3));
    assert_eq!(*bus.sent.borrow(), vec![(0x41, vec![0xE5])]);
    assert_eq!(sensor.read_temperature_from_humidity_blocking(|a, w| bus.write_read(a, w)), Ok(Si7021::<()>::convert_temperature(0)));
}
