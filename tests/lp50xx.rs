use lp50xx::{
    get_led_address_offset, resolve_led, Address, ColorMode, Controller, Error, Model,
    MonochromaticMode, Session, Step,
};

/// Runs a plan to its end, reporting each step as performed by `ok`, and
/// returns the steps handed out and the result.
fn run(plan: Vec<Step>, transport: bool, ok: &dyn Fn(&Step) -> bool) -> (Vec<Step>, Result<(), Error>) {
    let mut session = Session::new(plan, transport);
    let mut performed = Vec::new();
    loop {
        let step = match session.current() {
            Some(step) => step,
            None => break,
        };
        let completed = ok(step);
        performed.push(match step {
            Step::Write(a, f) => Step::Write(*a, f.clone()),
            Step::EnableLow => Step::EnableLow,
            Step::EnableHigh => Step::EnableHigh,
            Step::DelayMs(ms) => Step::DelayMs(*ms),
        });
        session.advance(completed);
    }
    (performed, session.result())
}

#[test]
fn correct_led_address_offset() {
    let offset = get_led_address_offset(1, Model::LP5012);
    assert_eq!(offset, 0x00);
    let offset = get_led_address_offset(12, Model::LP5012);
    assert_eq!(offset, 0x00);
    let offset = get_led_address_offset(13, Model::LP5012);
    assert_eq!(offset, 0x01);
    let offset = get_led_address_offset(24, Model::LP5012);
    assert_eq!(offset, 0x01);
    let offset = get_led_address_offset(25, Model::LP5012);
    assert_eq!(offset, 0x02);
}

#[test]
fn led_address_offset_lp5009_boundaries() {
    assert_eq!(get_led_address_offset(9, Model::LP5009), 0);
    assert_eq!(get_led_address_offset(10, Model::LP5009), 1);
    assert_eq!(get_led_address_offset(18, Model::LP5009), 1);
    assert_eq!(get_led_address_offset(19, Model::LP5009), 2);
    assert_eq!(get_led_address_offset(255, Model::LP5009), 2);
}

#[test]
fn pin_counts() {
    assert_eq!(Model::LP5009.get_pin_count(), 9);
    assert_eq!(Model::LP5012.get_pin_count(), 12);
}

#[test]
fn address_encoding() {
    assert_eq!(Address::Broadcast.into_u8(), 0b0001100);
    assert_eq!(Address::Independent(0).into_u8(), 0b0010100);
    assert_eq!(Address::Independent(1).into_u8(), 0b0010101);
    assert_eq!(Address::Independent(2).into_u8(), 0b0010110);
    assert_eq!(Address::Independent(3).into_u8(), 0b0010111);
    for s in 0..4u8 {
        assert_ne!(Address::Independent(s).into_u8(), Address::Broadcast.into_u8());
    }
}

#[test]
fn resolve_led_continuous_and_fixed() {
    assert_eq!(resolve_led(13, Model::LP5012, true, Address::Broadcast), (Address::Independent(1), 1));
    assert_eq!(resolve_led(30, Model::LP5012, true, Address::Broadcast), (Address::Independent(2), 6));
    assert_eq!(resolve_led(5, Model::LP5009, false, Address::Independent(3)), (Address::Independent(3), 5));
}

#[test]
fn brightness_factor_is_clamped() {
    let mut c: Controller<MonochromaticMode> = Controller::new(Model::LP5012).into_monochromatic_mode();
    assert_eq!(c.brightness_factor(), 1000);
    c.set_brightness_factor(0);
    assert_eq!(c.brightness_factor(), 10);
    c.set_brightness_factor(5000);
    assert_eq!(c.brightness_factor(), 1000);
    c.set_brightness_factor(500);
    assert_eq!(c.brightness_factor(), 500);
}

#[test]
fn monochromatic_set_scales_value() {
    let mut c = Controller::new(Model::LP5012).into_monochromatic_mode();
    c.set_brightness_factor(500);
    assert_eq!(c.set(1, 200), vec![Step::Write(Address::Independent(0), vec![0x0B, 100])]);
    c.set_brightness_factor(1000);
    assert_eq!(c.set(1, 255), vec![Step::Write(Address::Independent(0), vec![0x0B, 255])]);
    c.set_brightness_factor(10);
    assert_eq!(c.set(1, 255), vec![Step::Write(Address::Independent(0), vec![0x0B, 3])]);
    c.set_brightness_factor(333);
    assert_eq!(c.set(1, 3), vec![Step::Write(Address::Independent(0), vec![0x0B, 1])]);
}

#[test]
fn monochromatic_set_continuous_chain() {
    let c = Controller::new(Model::LP5012).into_monochromatic_mode();
    assert_eq!(c.set(12, 7), vec![Step::Write(Address::Independent(0), vec![0x0B + 11, 7])]);
    assert_eq!(c.set(13, 7), vec![Step::Write(Address::Independent(1), vec![0x0B, 7])]);
    assert_eq!(c.set(25, 7), vec![Step::Write(Address::Independent(2), vec![0x0B, 7])]);
}

#[test]
fn monochromatic_set_active_address() {
    let mut c = Controller::new(Model::LP5009);
    c.set_continuous_addressing(false);
    c.set_active_address(Address::Independent(2));
    let c = c.into_monochromatic_mode();
    assert_eq!(c.set(9, 40), vec![Step::Write(Address::Independent(2), vec![0x0B + 8, 40])]);
}

#[test]
fn color_set_frames() {
    let c: Controller<ColorMode> = Controller::new(Model::LP5012).into_color_mode();
    assert_eq!(
        c.set(1, (128, [10, 20, 30])),
        vec![
            Step::Write(Address::Broadcast, vec![0x07, 128]),
            Step::Write(Address::Broadcast, vec![0x0B, 10, 20, 30]),
        ]
    );
    assert_eq!(
        c.set(3, (128, [10, 20, 30])),
        vec![
            Step::Write(Address::Broadcast, vec![0x09, 128]),
            Step::Write(Address::Broadcast, vec![0x11, 10, 20, 30]),
        ]
    );
}

#[test]
fn color_set_largest_channel() {
    let c = Controller::new(Model::LP5009).into_color_mode();
    assert_eq!(
        c.set(82, (1, [2, 3, 4])),
        vec![
            Step::Write(Address::Broadcast, vec![0x07 + 81, 1]),
            Step::Write(Address::Broadcast, vec![0xFE, 2, 3, 4]),
        ]
    );
}

#[test]
fn set_without_transport_does_nothing() {
    let c = Controller::new(Model::LP5012).into_color_mode();
    let (performed, result) = run(c.set(1, (1, [1, 1, 1])), false, &|_| true);
    assert!(performed.is_empty());
    assert_eq!(result, Err(Error::NoInterfaceDefined));
    let m = Controller::new(Model::LP5012).into_monochromatic_mode();
    let (performed, result) = run(m.set(4, 9), false, &|_| true);
    assert!(performed.is_empty());
    assert_eq!(result, Err(Error::NoInterfaceDefined));
}

#[test]
fn mode_transition_keeps_settings() {
    let mut c = Controller::new(Model::LP5009);
    c.set_continuous_addressing(false);
    c.set_active_address(Address::Independent(1));
    let mut m = c.into_monochromatic_mode();
    m.set_brightness_factor(250);
    let col = m.into_color_mode();
    assert!(!col.continuous_addressing());
    assert_eq!(col.active_address(), Address::Independent(1));
    assert_eq!(col.model(), Model::LP5009);
    let m2 = col.into_monochromatic_mode();
    assert_eq!(m2.brightness_factor(), 1000);
    assert!(!m2.continuous_addressing());
    assert_eq!(m2.active_address(), Address::Independent(1));
}

#[test]
fn new_controller_defaults() {
    let c = Controller::new(Model::LP5012);
    assert!(c.continuous_addressing());
    assert_eq!(c.active_address(), Address::Broadcast);
    assert_eq!(c.model(), Model::LP5012);
}

#[test]
fn configure_packs_flags() {
    let c = Controller::new(Model::LP5012);
    assert_eq!(
        c.configure(true, false, true, false, false, true),
        vec![Step::Write(Address::Broadcast, vec![0x01, 0b101001])]
    );
    assert_eq!(
        c.configure(true, true, true, true, true, true),
        vec![Step::Write(Address::Broadcast, vec![0x01, 0b111111])]
    );
    assert_eq!(
        c.configure(false, false, false, false, false, false),
        vec![Step::Write(Address::Broadcast, vec![0x01, 0])]
    );
}

#[test]
fn reset_and_enable_sequences() {
    let c = Controller::new(Model::LP5012);
    assert_eq!(
        c.reset(),
        vec![
            Step::Write(Address::Broadcast, vec![0x17, 0xFF]),
            Step::DelayMs(1),
            Step::EnableLow,
            Step::DelayMs(10),
            Step::EnableHigh,
            Step::DelayMs(10),
        ]
    );
    assert_eq!(
        c.enable(),
        vec![
            Step::EnableLow,
            Step::DelayMs(1),
            Step::EnableHigh,
            Step::DelayMs(10),
            Step::Write(Address::Broadcast, vec![0x00, 0b01000000]),
        ]
    );
}

#[test]
fn session_runs_all_steps() {
    let c = Controller::new(Model::LP5012);
    let (performed, result) = run(c.enable(), true, &|_| true);
    assert_eq!(performed, c.enable());
    assert_eq!(result, Ok(()));
}

#[test]
fn session_bus_failure_is_comm_error() {
    let c = Controller::new(Model::LP5012).into_color_mode();
    let (performed, result) = run(c.set(2, (5, [6, 7, 8])), true, &|_| false);
    assert_eq!(performed, vec![Step::Write(Address::Broadcast, vec![0x08, 5])]);
    assert_eq!(result, Err(Error::CommError));
    let second_fails = |s: &Step| !matches!(s, Step::Write(_, f) if f[0] == 0x0E);
    let (performed, result) = run(c.set(2, (5, [6, 7, 8])), true, &second_fails);
    assert_eq!(performed.len(), 2);
    assert_eq!(result, Err(Error::CommError));
}

#[test]
fn session_pin_failure_is_enable_line() {
    let c = Controller::new(Model::LP5012);
    let high_fails = |s: &Step| !matches!(s, Step::EnableHigh);
    let (performed, result) = run(c.enable(), true, &high_fails);
    assert_eq!(performed, vec![Step::EnableLow, Step::DelayMs(1), Step::EnableHigh]);
    assert_eq!(result, Err(Error::EnableLine));
}

#[test]
fn session_delay_cannot_fail() {
    let c = Controller::new(Model::LP5012);
    let delays_fail = |s: &Step| !matches!(s, Step::DelayMs(_));
    let (performed, result) = run(c.reset(), true, &delays_fail);
    assert_eq!(performed.len(), 6);
    assert_eq!(result, Ok(()));
}

#[test]
fn enable_without_transport_stops_at_write() {
    let c = Controller::new(Model::LP5012);
    let (performed, result) = run(c.enable(), false, &|_| true);
    assert_eq!(performed, vec![Step::EnableLow, Step::DelayMs(1), Step::EnableHigh, Step::DelayMs(10)]);
    assert_eq!(result, Err(Error::NoInterfaceDefined));
}

#[test]
fn empty_plan_is_ok() {
    let session = Session::new(Vec::new(), false);
    assert!(session.current().is_none());
    assert_eq!(session.result(), Ok(()));
}

#[test]
fn mode_markers_construct() {
    let _c = ColorMode::new();
    let _m = MonochromaticMode::new();
}
