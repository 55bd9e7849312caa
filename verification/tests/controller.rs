use roof_vent::control::{quantize, scale_duty, tick, tick_or_hold};
use roof_vent::device::{Action, CommandError, Device};

fn all_actions() -> Vec<Action> {
    vec![Action::On, Action::Off, Action::Up, Action::Down, Action::SetLevel]
}

fn vent() -> Device {
    Device::new(
        "roof vent".to_string(),
        all_actions(),
        3,
        vec![0, 20, 40, 60, 80, 96],
        1,
    )
}

fn thresholds() -> Vec<u16> {
    vec![680, 1360, 2040, 2720, 3400, 50000]
}

#[test]
fn new_device_starts_off_at_zero() {
    let d = vent();
    assert_eq!(d.action, Action::Off);
    assert_eq!(d.target, 0);
    assert_eq!(d.default_target, 3);
    assert_eq!(d.name, "roof vent");
    assert_eq!(d.freq_khz, 1);
}

#[test]
fn on_jumps_to_default_target() {
    let mut d = vent();
    assert_eq!(d.take_action(Action::On, None), Ok(()));
    assert_eq!(d.target, 3);
    assert_eq!(d.action, Action::On);
}

#[test]
fn off_returns_to_zero() {
    let mut d = vent();
    d.take_action(Action::On, None).unwrap();
    assert_eq!(d.take_action(Action::Off, None), Ok(()));
    assert_eq!(d.target, 0);
    assert_eq!(d.action, Action::Off);
}

#[test]
fn up_then_down_round_trip_from_interior_target() {
    let mut d = vent();
    d.take_action(Action::SetLevel, Some(2)).unwrap();
    d.take_action(Action::Up, None).unwrap();
    assert_eq!(d.target, 3);
    d.take_action(Action::Down, None).unwrap();
    assert_eq!(d.target, 2);
    d.take_action(Action::Down, None).unwrap();
    assert_eq!(d.target, 1);
    d.take_action(Action::Up, None).unwrap();
    assert_eq!(d.target, 2);
}

#[test]
fn up_clamps_at_top_and_down_clamps_at_bottom() {
    let mut d = vent();
    d.take_action(Action::SetLevel, Some(5)).unwrap();
    assert_eq!(d.take_action(Action::Up, None), Ok(()));
    assert_eq!(d.target, 5);
    d.take_action(Action::SetLevel, Some(0)).unwrap();
    assert_eq!(d.take_action(Action::Down, None), Ok(()));
    assert_eq!(d.target, 0);
}

#[test]
fn unsupported_command_is_rejected_without_mutation() {
    let mut d = Device::new(
        "fan".to_string(),
        vec![Action::On, Action::Off],
        1,
        vec![0, 50, 100],
        25,
    );
    d.take_action(Action::On, None).unwrap();
    assert_eq!(
        d.take_action(Action::Up, None),
        Err(CommandError::UnsupportedAction)
    );
    assert_eq!(d.target, 1);
    assert_eq!(d.action, Action::On);
    assert_eq!(
        d.take_action(Action::SetLevel, Some(2)),
        Err(CommandError::UnsupportedAction)
    );
    assert_eq!(d.target, 1);
    assert_eq!(d.action, Action::On);
}

#[test]
fn set_without_level_is_rejected_without_mutation() {
    let mut d = vent();
    d.take_action(Action::On, None).unwrap();
    assert_eq!(
        d.take_action(Action::SetLevel, None),
        Err(CommandError::MissingLevel)
    );
    assert_eq!(d.target, 3);
    assert_eq!(d.action, Action::On);
}

#[test]
fn set_out_of_range_clamps_to_last_index() {
    let mut d = vent();
    assert_eq!(d.take_action(Action::SetLevel, Some(42)), Ok(()));
    assert_eq!(d.target, 5);
    assert_eq!(d.action, Action::SetLevel);
}

#[test]
fn duty_cycle_is_always_a_table_entry() {
    let mut d = vent();
    let table = vec![0, 20, 40, 60, 80, 96];
    for level in 0..10usize {
        d.take_action(Action::SetLevel, Some(level)).unwrap();
        assert!(table.contains(&d.get_duty_cycle()));
    }
    d.take_action(Action::Off, None).unwrap();
    assert!(table.contains(&d.get_duty_cycle()));
}

#[test]
fn quantize_mid_range_reading() {
    assert_eq!(quantize(&thresholds(), 2050), 3);
}

#[test]
fn quantize_below_first_threshold() {
    assert_eq!(quantize(&thresholds(), 50), 0);
}

#[test]
fn quantize_tie_counts_as_exceeded() {
    assert_eq!(quantize(&thresholds(), 680), 1);
    assert_eq!(quantize(&thresholds(), 679), 0);
    assert_eq!(quantize(&thresholds(), 681), 1);
}

#[test]
fn quantize_above_all_thresholds_saturates() {
    assert_eq!(quantize(&thresholds(), 50001), 5);
    assert_eq!(quantize(&vec![10, 20], 65535), 1);
}

#[test]
fn quantize_is_monotone_in_the_reading() {
    let bounds = thresholds();
    let mut previous: usize = 0;
    for reading in (0..=u16::MAX).step_by(7) {
        let bucket = quantize(&bounds, reading);
        assert!(bucket >= previous);
        previous = bucket;
    }
}

#[test]
fn scale_duty_exact_values() {
    assert_eq!(scale_duty(60, 1023), 613);
    assert_eq!(scale_duty(0, 1023), 0);
    assert_eq!(scale_duty(100, 1023), 1023);
    assert_eq!(scale_duty(96, 1023), 982);
    assert_eq!(scale_duty(50, u32::MAX), u32::MAX / 2);
}

#[test]
fn tick_scenario_mid_range() {
    let mut d = vent();
    let duty = tick(&mut d, &thresholds(), 2050, 1023);
    assert_eq!(d.target, 3);
    assert_eq!(d.action, Action::SetLevel);
    assert_eq!(d.get_duty_cycle(), 60);
    assert_eq!(duty, 613);
}

#[test]
fn tick_scenario_below_first_threshold() {
    let mut d = vent();
    d.take_action(Action::On, None).unwrap();
    let duty = tick(&mut d, &thresholds(), 50, 1023);
    assert_eq!(d.target, 0);
    assert_eq!(d.get_duty_cycle(), 0);
    assert_eq!(duty, 0);
}

#[test]
fn tick_without_set_leaves_device_unchanged() {
    let mut d = Device::new(
        "fan".to_string(),
        vec![Action::On, Action::Off],
        1,
        vec![0, 50, 100],
        25,
    );
    d.take_action(Action::On, None).unwrap();
    let duty = tick(&mut d, &thresholds(), 2050, 1000);
    assert_eq!(d.target, 1);
    assert_eq!(d.action, Action::On);
    assert_eq!(duty, 500);
}

#[test]
fn tick_or_hold_keeps_last_duty_on_sensor_fault() {
    let mut d = vent();
    d.take_action(Action::SetLevel, Some(4)).unwrap();
    let duty = tick_or_hold(&mut d, &thresholds(), None, 1023, 818);
    assert_eq!(duty, 818);
    assert_eq!(d.target, 4);
    assert_eq!(d.action, Action::SetLevel);
}

#[test]
fn tick_or_hold_with_reading_behaves_as_tick() {
    let mut d = vent();
    let duty = tick_or_hold(&mut d, &thresholds(), Some(2050), 1023, 0);
    assert_eq!(d.target, 3);
    assert_eq!(duty, 613);
}

#[test]
fn serialized_ups_are_never_lost() {
    let mut d = vent();
    d.take_action(Action::SetLevel, Some(1)).unwrap();
    assert_eq!(d.take_action(Action::Up, None), Ok(()));
    assert_eq!(d.take_action(Action::Up, None), Ok(()));
    assert_eq!(d.target, 3);
}

#[test]
fn supports_reports_membership() {
    let d = Device::new(
        "fan".to_string(),
        vec![Action::On, Action::Off],
        0,
        vec![0, 100],
        25,
    );
    assert!(d.supports(Action::On));
    assert!(d.supports(Action::Off));
    assert!(!d.supports(Action::Up));
    assert!(!d.supports(Action::SetLevel));
}
