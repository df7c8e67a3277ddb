use embassy_silabs::cmu::CmuRegs;
use embassy_silabs::gpio::{AnyPin, GpioPortRegs, GpioRegs, PortMode, Route};
use embassy_silabs::peripherals::{TIMER0, TIMER1};
use embassy_silabs::timer::{
    CaptureConfig, CcChannel, CcMode, Channel, Config, CountingMode, Edge, InputCapture, Prescaler, SimplePwm, Timer,
    TimerRegs, TimerRoute, TimerRoutes,
};

fn gpio() -> GpioRegs {
    let port = GpioPortRegs { model: [PortMode::Disabled; 8], modeh: [PortMode::Disabled; 8], dout: 0, din: 0 };
    GpioRegs { ports: [port; 4] }
}

fn cc() -> CcChannel {
    CcChannel {
        mode: CcMode::Off,
        insel_pin: true,
        filt: false,
        outinv: false,
        icedge: Edge::Rising,
        ocb: 0,
        oc: 0,
        icf: [0, 0],
        icf_len: 0,
        ien: false,
    }
}

fn regs() -> TimerRegs {
    TimerRegs {
        en: false,
        presc: 0,
        mode: CountingMode::Up,
        osmen: false,
        cc: [cc(); 3],
        top: 0,
        cnt: 0,
        cmd_start: false,
        cmd_stop: false,
        running: false,
    }
}

fn routes() -> TimerRoutes {
    let r = Route { port: 0, pin: 0 };
    TimerRoutes { timers: [TimerRoute { cc_route: [r; 3], ccpen: [false; 3] }; 5] }
}

#[test]
fn pwm_frequency_and_duty() {
    let mut cmu = CmuRegs::reset();
    let mut g = gpio();
    let mut rt = routes();
    let mut r = regs();
    let mut pwm = SimplePwm::new_ch0(TIMER0, AnyPin::steal(0x02), Config::default(), &mut cmu, &mut g, &mut rt, &mut r);
    assert!(cmu.clken0.timer0);
    pwm.set_frequency(&mut r, 1_000);
    assert_eq!(r.top, 19_999 & 0xFFFF);
    assert_eq!(pwm.max_duty(&r), 19_999);
    pwm.set_duty_percent(&mut r, Channel::Ch0, 50);
    assert_eq!(r.cc[0].ocb, 9_999);
    pwm.set_duty_percent(&mut r, Channel::Ch0, 250);
    assert_eq!(r.cc[0].ocb, 19_999);
    pwm.set_frequency(&mut r, 10);
    assert_eq!(r.top, 0xFFFF);
    pwm.set_frequency(&mut r, 0);
    assert_eq!(r.top, 0xFFFF);
    assert_eq!(pwm.get_frequency(&r), 20_000_000 / 0x1_0000);
    pwm.set_frequency(&mut r, 20_000_000);
    assert_eq!(r.top, 0);
    assert_eq!(pwm.get_frequency(&r), 20_000_000);
}

#[test]
fn capture_measurements() {
    let mut cmu = CmuRegs::reset();
    let mut g = gpio();
    let mut rt = routes();
    let mut r = regs();
    let cfg = CaptureConfig { prescaler: Prescaler::Div2, ..CaptureConfig::default() };
    let mut cap = InputCapture::new_ch0(TIMER1, AnyPin::steal(0x03), cfg, &mut cmu, &mut g, &mut rt, &mut r);
    assert_eq!(cap.frequency(), 10_000_000);
    assert_eq!(cap.measure_pulse_width(100, 350), 250);
    assert_eq!(cap.measure_pulse_width(u32::MAX - 9, 10), 20);
    assert_eq!(cap.measure_frequency(0, 10_000), 1_000);
    assert_eq!(cap.measure_frequency(7, 7), 0);
    assert_eq!(cap.capture_to_us(10), 1);
    assert_eq!(cap.poll_capture(&mut r), None);
    assert!(r.cc[0].ien);
    r.cc[0].icf = [42, 43];
    r.cc[0].icf_len = 2;
    assert_eq!(cap.poll_capture(&mut r), Some(42));
    assert_eq!(r.cc[0].icf_len, 1);
    assert_eq!(cap.try_read(&mut r), Some(43));
    assert_eq!(r.cc[0].icf_len, 0);
    assert_eq!(cap.try_read(&mut r), None);
}

#[test]
fn free_running_timer() {
    let mut cmu = CmuRegs::reset();
    let mut r = regs();
    let mut t = Timer::new(TIMER1, Config { prescaler: Prescaler::Div4, ..Config::default() }, &mut cmu, &mut r);
    assert_eq!(r.top, u32::MAX);
    assert_eq!(t.frequency(), 5_000_000);
    t.set_top(&mut r, 1000);
    assert_eq!(t.top(&r), 1000);
    t.set_counter(&mut r, 5);
    assert_eq!(t.counter(&r), 5);
    t.clear(&mut r);
    assert_eq!(t.counter(&r), 0);
    t.start(&mut r);
    assert!(r.cmd_start);
    t.stop(&mut r);
    assert!(r.cmd_stop);
}
