use motor_control::{Calibration, CalibrationError, Cmd, Decoder};

fn small_range() -> Calibration {
    Calibration {
        center: 1620,
        threshold: 50,
        min_value: 0,
        max_value: 2081,
        min_delay_ms: 1,
        max_delay_ms: 20,
    }
}

fn wide_range() -> Calibration {
    Calibration {
        center: 1650,
        threshold: 30,
        min_value: 1,
        max_value: 2801,
        min_delay_ms: 1,
        max_delay_ms: 20,
    }
}

fn delay_of(cmd: Cmd) -> u32 {
    match cmd {
        Cmd::Forward { delay_ms } | Cmd::Backward { delay_ms } => delay_ms,
        Cmd::Stop => panic!("no delay for Stop"),
    }
}

#[test]
fn concrete_scenario_small_range() {
    let d = Decoder::new(small_range()).unwrap();
    assert_eq!(d.decode(1600), Cmd::Stop);
    assert_eq!(d.decode(0), Cmd::Forward { delay_ms: 1 });
    assert_eq!(d.decode(2081), Cmd::Backward { delay_ms: 1 });
    assert_eq!(d.decode(810), Cmd::Forward { delay_ms: 10 });
}

#[test]
fn dead_zone_edges_stop() {
    let d = Decoder::new(small_range()).unwrap();
    for raw in 1570..=1670 {
        assert_eq!(d.decode(raw), Cmd::Stop);
    }
    assert!(matches!(d.decode(1569), Cmd::Forward { .. }));
    assert!(matches!(d.decode(1671), Cmd::Backward { .. }));
}

#[test]
fn extremes_are_fastest_on_both_calibrations() {
    for cal in [small_range(), wide_range()] {
        let d = Decoder::new(cal).unwrap();
        assert_eq!(d.decode(cal.min_value), Cmd::Forward { delay_ms: cal.min_delay_ms });
        assert_eq!(d.decode(cal.max_value), Cmd::Backward { delay_ms: cal.min_delay_ms });
    }
}

#[test]
fn samples_outside_range_are_clamped() {
    let d = Decoder::new(wide_range()).unwrap();
    assert_eq!(d.decode(0), Cmd::Forward { delay_ms: 1 });
    assert_eq!(d.decode(u32::MAX), Cmd::Backward { delay_ms: 1 });
    assert_eq!(d.decode(5000), Cmd::Backward { delay_ms: 1 });
}

#[test]
fn forward_delay_does_not_grow_away_from_center() {
    let d = Decoder::new(small_range()).unwrap();
    let mut previous = delay_of(d.decode(1));
    for raw in 2..1570 {
        let delay = delay_of(d.decode(raw));
        assert!(previous <= delay);
        previous = delay;
    }
}

#[test]
fn delays_stay_within_bounds() {
    for cal in [small_range(), wide_range()] {
        let d = Decoder::new(cal).unwrap();
        for raw in 0..3000 {
            match d.decode(raw) {
                Cmd::Stop => {}
                Cmd::Forward { delay_ms } | Cmd::Backward { delay_ms } => {
                    assert!(cal.min_delay_ms <= delay_ms && delay_ms <= cal.max_delay_ms);
                }
            }
        }
    }
}

#[test]
fn exact_delays_of_the_linear_map() {
    let d = Decoder::new(small_range()).unwrap();
    // 20 * 1500 / 1620 = 18.5..., floor 18
    assert_eq!(d.decode(1500), Cmd::Forward { delay_ms: 18 });
    // 20 * (2081 - 1850) / 461 = 10.02..., floor 10
    assert_eq!(d.decode(1850), Cmd::Backward { delay_ms: 10 });
    // 20 * 40 / 1620 = 0.49..., floored at the minimum
    assert_eq!(d.decode(40), Cmd::Forward { delay_ms: 1 });
}

#[test]
fn inverted_range_is_refused() {
    let cal = Calibration { min_value: 3000, ..small_range() };
    assert_eq!(Decoder::new(cal).err(), Some(CalibrationError::InvertedRange));
}

#[test]
fn dead_zone_outside_range_is_refused() {
    let touching_min = Calibration { threshold: 1620, ..small_range() };
    assert_eq!(Decoder::new(touching_min).err(), Some(CalibrationError::DeadZoneOutOfRange));
    let touching_max = Calibration { center: 2031, ..small_range() };
    assert_eq!(Decoder::new(touching_max).err(), Some(CalibrationError::DeadZoneOutOfRange));
    let center_below = Calibration { center: 0, threshold: 0, ..small_range() };
    assert_eq!(Decoder::new(center_below).err(), Some(CalibrationError::DeadZoneOutOfRange));
}

#[test]
fn inverted_delays_are_refused() {
    let cal = Calibration { min_delay_ms: 30, ..small_range() };
    assert_eq!(Decoder::new(cal).err(), Some(CalibrationError::InvertedDelays));
}

#[test]
fn valid_calibration_is_kept() {
    let d = Decoder::new(wide_range()).unwrap();
    assert_eq!(d.calibration(), wide_range());
}
