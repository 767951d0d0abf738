//! The wheel core under host-report sequences: lifecycle, composition,
//! reset, and tick advancement.

use racing_wheel::fixed::Fixed;
use racing_wheel::hid::{ReportID, ReportType};
use racing_wheel::racing_wheel::RacingWheel;
use racing_wheel::reports::{BlockLoadStatus, SetConfigReport, SetEffectReport, EffectType};

fn test_config() -> SetConfigReport {
    SetConfigReport {
        gain: Fixed(10000),
        expo: Fixed(10000), // linear power curve
        max_rotation: 360,
        spring_gain: Fixed(10000),
        spring_coefficient: Fixed(10000),
        spring_saturation: Fixed(10000),
        spring_deadband: Fixed(0),
        motor_max: Fixed(10000),
        motor_deadband: Fixed(0),
    }
}

fn out_id(n: u8) -> ReportID {
    ReportID(ReportType::Output, n)
}

fn feature_id(n: u8) -> ReportID {
    ReportID(ReportType::Feature, n)
}

/// Sends the wire form of a slot-addressed report built from its RAM
/// image.
fn send(w: &mut RacingWheel, id: u8, idx: u8, body: Vec<u8>) -> Result<Option<bool>, ()> {
    let mut bytes = vec![id, idx];
    bytes.extend(body);
    w.report_request_out(out_id(id), &bytes)
}

fn set_device_gain(w: &mut RacingWheel, gain: i16) {
    let g = gain as u16;
    let bytes = vec![0x0d, (g % 256) as u8, (g / 256) as u8];
    assert_eq!(w.report_request_out(out_id(0x0d), &bytes), Ok(Some(true)));
}

fn descriptor(effect_type: EffectType, duration: Option<u16>, gain: i16) -> SetEffectReport {
    SetEffectReport {
        effect_block_index: 1,
        effect_type,
        duration,
        trigger_repeat_interval: 0,
        sample_period: None,
        gain: Fixed(gain),
        trigger_button: 0,
        axis_x_enable: false,
        axis_y_enable: false,
        direction_enable: false,
        direction_instance_1: 0,
        direction_instance_2: 0,
        start_delay: 0,
        type_specific_block_offset_instance_1: 0,
        type_specific_block_offset_instance_2: 0,
    }
}

fn condition_body(coef: i16, sat: i16, offset: u8) -> Vec<u8> {
    let c = coef as u16;
    let s = sat as u16;
    vec![
        offset & 0x0f,
        0,
        0, // cp_offset
        (c % 256) as u8,
        (c / 256) as u8,
        (c % 256) as u8,
        (c / 256) as u8,
        (s % 256) as u8,
        (s / 256) as u8,
        (s % 256) as u8,
        (s / 256) as u8,
        0,
        0, // dead band
    ]
}

fn create_effect(w: &mut RacingWheel, effect_type: EffectType) -> u8 {
    let code = match effect_type {
        EffectType::ConstantForce => 1,
        EffectType::Ramp => 2,
        EffectType::Square => 3,
        EffectType::Sine => 4,
        EffectType::Triangle => 5,
        EffectType::SawtoothUp => 6,
        EffectType::SawtoothDown => 7,
        EffectType::Spring => 8,
        EffectType::Damper => 9,
        EffectType::Inertia => 10,
        EffectType::Friction => 11,
        EffectType::CustomForceData => 12,
    };
    assert_eq!(
        w.report_request_out(feature_id(0x01), &[0x01, code, 0, 0]),
        Ok(Some(true))
    );
    let bl = w.pid_block_load_report();
    assert!(matches!(bl.block_load_status, BlockLoadStatus::Success));
    bl.effect_block_index
}

fn start(w: &mut RacingWheel, idx: u8) {
    assert_eq!(
        w.report_request_out(out_id(0x0a), &[0x0a, idx, 1, 0]),
        Ok(Some(true))
    );
}

#[test]
fn spring_at_center() {
    let mut w = RacingWheel::new(test_config());
    set_device_gain(&mut w, 10000);
    w.set_steering(0);
    assert_eq!(w.get_force_feedback().value(), 0);
    // steering 0.5 of full scale: 90 degrees on a 360-degree wheel
    w.set_steering(900);
    assert_eq!(w.get_force_feedback().value(), -5000);
}

#[test]
fn spring_saturation_clamps() {
    let mut config = test_config();
    config.spring_coefficient = Fixed(30000); // coefficient 3
    config.spring_saturation = Fixed(5000); // saturation 0.5
    let mut w = RacingWheel::new(config);
    set_device_gain(&mut w, 10000);
    // steering 0.2: raw -0.6, clamped to -0.5
    w.set_steering(360);
    assert_eq!(w.get_force_feedback().value(), -5000);
}

#[test]
fn create_start_stop_free_lifecycle() {
    let mut w = RacingWheel::new(test_config());
    set_device_gain(&mut w, 10000);
    w.set_steering(900); // steering 0.5

    // CreateNewEffect(Spring) then PIDBlockLoad yields index 1
    assert_eq!(
        w.report_request_out(feature_id(0x01), &[0x01, 8, 0, 0]),
        Ok(Some(true))
    );
    let bl = w.pid_block_load_report();
    assert!(matches!(bl.block_load_status, BlockLoadStatus::Success));
    assert_eq!(bl.effect_block_index, 1);
    assert_eq!(bl.ram_pool_available, 15 * 19 + 4096);

    // descriptor + both condition blocks (host spring opposing motion)
    let d = descriptor(EffectType::Spring, None, 10000);
    assert_eq!(send(&mut w, 0x01, 1, d.to_ram()), Ok(Some(true)));
    assert_eq!(send(&mut w, 0x03, 1, condition_body(-10000, 10000, 0)), Ok(Some(true)));
    assert_eq!(send(&mut w, 0x03, 1, condition_body(-10000, 10000, 1)), Ok(Some(true)));

    // start: the host spring doubles the built-in one, clamped at -1
    start(&mut w, 1);
    assert_eq!(w.get_force_feedback().value(), -10000);

    // stop: back to the built-in spring alone
    assert_eq!(
        w.report_request_out(out_id(0x0a), &[0x0a, 1, 3, 0]),
        Ok(Some(true))
    );
    assert_eq!(w.get_force_feedback().value(), -5000);

    // free: the transfer is rejected by design, but the slot empties
    assert_eq!(w.report_request_out(out_id(0x0b), &[0x0b, 1]), Err(()));
    let _ = w.report_request_out(feature_id(0x01), &[0x01, 8, 0, 0]);
    let bl = w.pid_block_load_report();
    assert_eq!(bl.effect_block_index, 1); // slot 1 was free again
}

#[test]
fn pool_fills_up_and_reports_full() {
    let mut w = RacingWheel::new(test_config());
    for i in 1..=16u8 {
        let idx = create_effect(&mut w, EffectType::Spring);
        assert_eq!(idx, i);
    }
    assert_eq!(
        w.report_request_out(feature_id(0x01), &[0x01, 8, 0, 0]),
        Ok(Some(true))
    );
    let bl = w.pid_block_load_report();
    assert!(matches!(bl.block_load_status, BlockLoadStatus::Full));
    assert_eq!(bl.effect_block_index, 0);
    assert_eq!(bl.ram_pool_available, 4096);
}

#[test]
fn block_load_without_create_is_an_error() {
    let mut w = RacingWheel::new(test_config());
    let bl = w.pid_block_load_report();
    assert!(matches!(bl.block_load_status, BlockLoadStatus::Error));
    assert_eq!(bl.effect_block_index, 0);
    assert_eq!(bl.ram_pool_available, 16 * 19 + 4096);
}

#[test]
fn solo_start_stops_the_others() {
    let mut w = RacingWheel::new(test_config());
    let a = create_effect(&mut w, EffectType::ConstantForce);
    let b = create_effect(&mut w, EffectType::ConstantForce);
    let c = create_effect(&mut w, EffectType::ConstantForce);
    start(&mut w, a);
    start(&mut w, b);
    // solo on the third: only it keeps running
    assert_eq!(
        w.report_request_out(out_id(0x0a), &[0x0a, c, 2, 0]),
        Ok(Some(true))
    );
    // feed a constant force into the third slot and check only it plays
    let d = descriptor(EffectType::ConstantForce, None, 10000);
    assert_eq!(send(&mut w, 0x01, c, d.to_ram()), Ok(Some(true)));
    assert_eq!(send(&mut w, 0x05, c, vec![0x10, 0x27]), Ok(Some(true))); // magnitude 1
    set_device_gain(&mut w, 10000);
    assert_eq!(w.get_force_feedback().value(), 10000);
}

#[test]
fn starting_a_missing_slot_is_rejected() {
    let mut w = RacingWheel::new(test_config());
    assert_eq!(w.report_request_out(out_id(0x0a), &[0x0a, 1, 1, 0]), Err(()));
    assert_eq!(w.report_request_out(out_id(0x0a), &[0x0a, 0, 1, 0]), Err(()));
}

#[test]
fn device_reset_clears_everything() {
    let mut w = RacingWheel::new(test_config());
    set_device_gain(&mut w, 10000);
    let a = create_effect(&mut w, EffectType::ConstantForce);
    start(&mut w, a);
    assert_eq!(w.report_request_out(out_id(0x0c), &[0x0c, 4]), Ok(Some(true)));
    // pool empty again: the next allocation hands out slot 1
    let b = create_effect(&mut w, EffectType::ConstantForce);
    assert_eq!(b, 1);
    // device gain dropped to zero with the reset, config survived
    assert_eq!(w.get_config(), test_config());
    w.set_steering(900);
    assert_eq!(w.get_force_feedback().value(), 0); // gain 0 mutes everything
    set_device_gain(&mut w, 10000);
    assert_eq!(w.get_force_feedback().value(), -5000); // spring alone again
}

#[test]
fn stop_all_effects_empties_the_running_set() {
    let mut w = RacingWheel::new(test_config());
    set_device_gain(&mut w, 10000);
    let a = create_effect(&mut w, EffectType::ConstantForce);
    let d = descriptor(EffectType::ConstantForce, None, 10000);
    assert_eq!(send(&mut w, 0x01, a, d.to_ram()), Ok(Some(true)));
    assert_eq!(send(&mut w, 0x05, a, vec![0x10, 0x27]), Ok(Some(true)));
    start(&mut w, a);
    assert_eq!(w.get_force_feedback().value(), 10000);
    assert_eq!(w.report_request_out(out_id(0x0c), &[0x0c, 3]), Ok(Some(true)));
    assert_eq!(w.get_force_feedback().value(), 0);
}

#[test]
fn duration_expiry_drops_the_effect() {
    let mut w = RacingWheel::new(test_config());
    set_device_gain(&mut w, 10000);
    let a = create_effect(&mut w, EffectType::ConstantForce);
    let d = descriptor(EffectType::ConstantForce, Some(100), 10000);
    assert_eq!(send(&mut w, 0x01, a, d.to_ram()), Ok(Some(true)));
    assert_eq!(send(&mut w, 0x05, a, vec![0x10, 0x27]), Ok(Some(true)));
    start(&mut w, a);
    w.advance(99);
    assert_eq!(w.get_force_feedback().value(), 10000);
    w.advance(2);
    assert_eq!(w.get_force_feedback().value(), 0);
}

#[test]
fn incomplete_effect_is_pruned_after_ten_seconds() {
    let mut w = RacingWheel::new(test_config());
    let a = create_effect(&mut w, EffectType::ConstantForce);
    start(&mut w, a);
    // never completed: descriptor only
    let d = descriptor(EffectType::ConstantForce, None, 10000);
    assert_eq!(send(&mut w, 0x01, a, d.to_ram()), Ok(Some(true)));
    w.advance(10_000);
    // still running at exactly ten seconds
    w.advance(1);
    // now pruned; starting it again still works
    start(&mut w, a);
    let _ = w;
}

#[test]
fn advance_derives_steering_velocity() {
    let mut w = RacingWheel::new(test_config());
    w.set_steering(900); // 0.5 of full scale
    w.advance(100); // 0.5 units in 0.1 s: 5 units/s, beyond the scalar range
    w.set_steering(900);
    w.advance(1000); // no movement now
    set_device_gain(&mut w, 10000);
    // a damper reads the velocity; zero velocity gives zero force
    let a = create_effect(&mut w, EffectType::Damper);
    let d = descriptor(EffectType::Damper, None, 10000);
    assert_eq!(send(&mut w, 0x01, a, d.to_ram()), Ok(Some(true)));
    assert_eq!(send(&mut w, 0x03, a, condition_body(-10000, 10000, 0)), Ok(Some(true)));
    assert_eq!(send(&mut w, 0x03, a, condition_body(-10000, 10000, 1)), Ok(Some(true)));
    start(&mut w, a);
    w.set_steering(0);
    assert_eq!(w.get_force_feedback().value(), 0); // spring at center, damper at rest
}

#[test]
fn unknown_reports_are_left_unclaimed() {
    let mut w = RacingWheel::new(test_config());
    assert_eq!(w.report_request_out(out_id(0x20), &[0x20]), Ok(None));
    assert_eq!(
        w.report_request_out(ReportID(ReportType::Input, 0x01), &[0x01]),
        Ok(None)
    );
}

#[test]
fn malformed_reports_are_rejected_without_effect() {
    let mut w = RacingWheel::new(test_config());
    set_device_gain(&mut w, 10000);
    assert_eq!(w.report_request_out(out_id(0x01), &[0x01]), Err(()));
    assert_eq!(w.report_request_out(out_id(0x0d), &[0x0d]), Err(()));
    assert_eq!(w.report_request_out(out_id(0x0c), &[0x0c, 99]), Err(()));
    // the earlier device gain is untouched by the rejected reports
    w.set_steering(900);
    assert_eq!(w.get_force_feedback().value(), -5000);
}

#[test]
fn config_feature_report_replaces_the_config() {
    let mut w = RacingWheel::new(test_config());
    let mut new_config = test_config();
    new_config.max_rotation = 900;
    new_config.spring_gain = Fixed(5000);
    let bytes = new_config.report_bytes();
    assert_eq!(w.report_request_out(feature_id(0x04), &bytes), Ok(Some(true)));
    assert_eq!(w.get_config(), new_config);
}

#[test]
fn pool_report_carries_the_capacity_constants() {
    let w = RacingWheel::new(test_config());
    let p = w.pid_pool_report();
    assert_eq!(p.ram_pool_size, 16 * 19 + 4096);
    assert_eq!(p.simultaneous_effects_max, 8);
    assert_eq!(p.param_block_size_set_effect, 19);
    assert_eq!(p.param_block_size_set_envelope, 12);
    assert_eq!(p.param_block_size_set_condition, 13);
    assert_eq!(p.param_block_size_set_periodic, 10);
    assert_eq!(p.param_block_size_set_constant_force, 2);
    assert_eq!(p.param_block_size_set_ramp_force, 4);
    assert_eq!(p.param_block_size_set_custom_force, 4);
    assert!(p.device_managed_pool);
    assert!(!p.shared_parameter_blocks);
    assert!(p.isochronous_enable);
}

#[test]
fn force_stays_in_unit_range() {
    let mut w = RacingWheel::new(test_config());
    set_device_gain(&mut w, 10000);
    w.set_steering(1800); // hard against the stop
    // two constant forces at full magnitude
    for _ in 0..2 {
        let a = create_effect(&mut w, EffectType::ConstantForce);
        let d = descriptor(EffectType::ConstantForce, None, 10000);
        assert_eq!(send(&mut w, 0x01, a, d.to_ram()), Ok(Some(true)));
        assert_eq!(send(&mut w, 0x05, a, vec![0x10, 0x27]), Ok(Some(true)));
        start(&mut w, a);
    }
    let v = w.get_force_feedback().value();
    assert!((-10000..=10000).contains(&v));
    assert_eq!(v, 10000 - 10000); // +2 clamped to +1, spring pulls -1
}

#[test]
fn wheel_control_events_fire_once() {
    let mut w = RacingWheel::new(test_config());
    assert!(!w.write_config_event());
    assert_eq!(
        w.report_request_out(ReportID(ReportType::Feature, 0x05), &[0x05, 3]),
        Ok(Some(true))
    );
    assert!(w.write_config_event());
    assert!(!w.write_config_event());
    assert_eq!(
        w.report_request_out(ReportID(ReportType::Feature, 0x05), &[0x05, 1]),
        Ok(Some(true))
    );
    assert!(w.reboot_device_event());
    assert!(!w.reboot_device_event());
    assert_eq!(
        w.report_request_out(ReportID(ReportType::Feature, 0x05), &[0x05, 9]),
        Err(())
    );
}

#[test]
fn reset_rotation_event_zeroes_the_axis() {
    let mut w = RacingWheel::new(test_config());
    w.set_steering(900);
    assert!(!w.reset_steering_event());
    assert_eq!(w.get_racing_wheel_report().steering.value(), 5000);
    assert_eq!(
        w.report_request_out(ReportID(ReportType::Feature, 0x05), &[0x05, 2]),
        Ok(Some(true))
    );
    assert!(w.reset_steering_event());
    assert_eq!(w.get_racing_wheel_report().steering.value(), 0);
}
