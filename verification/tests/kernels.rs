//! The force kernels: envelope shape, condition law, and waveforms.

use racing_wheel::effect::{create_spring_effect, Effect, EffectParameter};
use racing_wheel::ffb::{
    calculate_envelope, calculate_force_feedback, condition_force, sawtooth_down_fn,
    sawtooth_up_fn, sine_fn, square_fn, triangle_fn,
};
use racing_wheel::fixed::{Fixed, Frac};
use racing_wheel::motor::{motor_outputs, MotorOutputs};
use racing_wheel::reports::{
    EffectType, SetConditionReport, SetConstantForceReport, SetEffectReport, SetEnvelopeReport,
    SetPeriodicReport,
};

fn descriptor(effect_type: EffectType, duration: Option<u16>, gain: i16) -> SetEffectReport {
    SetEffectReport {
        effect_block_index: 1,
        effect_type,
        duration,
        trigger_repeat_interval: 0,
        sample_period: None,
        gain: Fixed(gain),
        trigger_button: 0,
        axis_x_enable: false,
        axis_y_enable: false,
        direction_enable: false,
        direction_instance_1: 0,
        direction_instance_2: 0,
        start_delay: 0,
        type_specific_block_offset_instance_1: 0,
        type_specific_block_offset_instance_2: 0,
    }
}

fn envelope(attack_level: i16, fade_level: i16, attack_time: u32, fade_time: u32)
    -> SetEnvelopeReport {
    SetEnvelopeReport {
        effect_block_index: 1,
        attack_level: Fixed(attack_level),
        fade_level: Fixed(fade_level),
        attack_time,
        fade_time,
    }
}

#[test]
fn envelope_is_one_without_a_block() {
    assert_eq!(calculate_envelope(None, 0, None).value(), 10000);
    assert_eq!(calculate_envelope(None, 12345, Some(100)).value(), 10000);
}

#[test]
fn envelope_attack_ramps_up() {
    let env = envelope(0, 0, 1000, 0);
    assert_eq!(calculate_envelope(Some(&env), 0, None).value(), 0);
    assert_eq!(calculate_envelope(Some(&env), 250, None).value(), 2500);
    assert_eq!(calculate_envelope(Some(&env), 500, None).value(), 5000);
    assert_eq!(calculate_envelope(Some(&env), 1000, None).value(), 10000);
    // starts at the attack level, not below it
    let env = envelope(4000, 0, 1000, 0);
    assert_eq!(calculate_envelope(Some(&env), 0, None).value(), 4000);
    assert_eq!(calculate_envelope(Some(&env), 500, None).value(), 7000);
}

#[test]
fn envelope_fade_ramps_down() {
    let env = envelope(0, 0, 0, 400);
    let d = Some(1000u16);
    assert_eq!(calculate_envelope(Some(&env), 500, d).value(), 10000);
    assert_eq!(calculate_envelope(Some(&env), 700, d).value(), 7500);
    assert_eq!(calculate_envelope(Some(&env), 800, d).value(), 5000);
    assert_eq!(calculate_envelope(Some(&env), 1000, d).value(), 0);
}

#[test]
fn envelope_stays_in_unit_range() {
    // out-of-range levels are clamped on use
    let env = envelope(-30000, 30000, 10, 10);
    for t in 0..30u32 {
        let v = calculate_envelope(Some(&env), t, Some(20)).value();
        assert!((0..=10000).contains(&v));
    }
}

fn condition(coef: i16, sat: i16, dead_band: i16) -> SetConditionReport {
    SetConditionReport {
        effect_block_index: 1,
        parameter_block_offset: 0,
        type_specific_block_offset_instance_1: 0,
        type_specific_block_offset_instance_2: 0,
        cp_offset: Fixed(0),
        positive_coefficient: Fixed(coef),
        negative_coefficient: Fixed(coef),
        positive_saturation: Fixed(sat),
        negative_saturation: Fixed(sat),
        dead_band: Fixed(dead_band),
    }
}

#[test]
fn condition_force_is_linear_outside_dead_band() {
    let c = condition(-10000, 10000, 0);
    assert_eq!(condition_force(Fixed(0), &c).value(), 0);
    assert_eq!(condition_force(Fixed(5000), &c).value(), -5000);
    assert_eq!(condition_force(Fixed(-5000), &c).value(), 5000);
}

#[test]
fn condition_force_saturates() {
    // coefficient 3, saturation 0.5: raw -0.6 clamps to -0.5
    let c = condition(-30000, 5000, 0);
    assert_eq!(condition_force(Fixed(2000), &c).value(), -5000);
    assert_eq!(condition_force(Fixed(-2000), &c).value(), 5000);
}

#[test]
fn condition_force_dead_band_is_silent() {
    let c = condition(-10000, 10000, 1000);
    assert_eq!(condition_force(Fixed(999), &c).value(), 0);
    assert_eq!(condition_force(Fixed(1000), &c).value(), 0);
    assert_eq!(condition_force(Fixed(-1000), &c).value(), 0);
    assert_eq!(condition_force(Fixed(1001), &c).value(), -1); // 1 unit past the band
    assert_eq!(condition_force(Fixed(2000), &c).value(), -1000);
}

#[test]
fn square_is_minus_one_then_plus_one() {
    for u in 0..500u32 {
        assert_eq!(square_fn(Frac(u, 1000)).value(), -1);
    }
    for u in 500..1000u32 {
        assert_eq!(square_fn(Frac(u, 1000)).value(), 1);
    }
    // mean over a whole even period is zero
    let mut sum: i64 = 0;
    for u in 0..1000u32 {
        sum += square_fn(Frac(u, 1000)).value();
    }
    assert_eq!(sum, 0);
}

#[test]
fn square_flips_at_half_on_odd_periods() {
    // period 3: phases 0 and 1 are below one half, phase 2 is above
    assert_eq!(square_fn(Frac(0, 3)).value(), -1);
    assert_eq!(square_fn(Frac(1, 3)).value(), -1);
    assert_eq!(square_fn(Frac(2, 3)).value(), 1);
    // period 1001: the flip lands exactly where 2u >= p first holds
    for u in 0..1001u32 {
        let expect = if 2 * u >= 1001 { 1 } else { -1 };
        assert_eq!(square_fn(Frac(u, 1001)).value(), expect);
    }
}

#[test]
fn triangle_endpoints_and_continuity() {
    let p = 1000u32;
    assert_eq!(triangle_fn(Frac(0, p)).value(), -(p as i64));
    assert_eq!(triangle_fn(Frac(p / 2, p)).value(), p as i64);
    let mut prev = triangle_fn(Frac(0, p)).value();
    for u in 1..p {
        let v = triangle_fn(Frac(u, p)).value();
        assert!((v - prev).abs() <= 4);
        assert!(v.abs() <= p as i64);
        prev = v;
    }
}

#[test]
fn sawtooth_up_and_down_mirror() {
    let p = 1000u32;
    assert_eq!(sawtooth_up_fn(Frac(0, p)).value(), -(p as i64));
    assert_eq!(sawtooth_up_fn(Frac(p - 1, p)).value(), p as i64 - 2);
    for u in 0..p {
        assert_eq!(
            sawtooth_down_fn(Frac(u, p)).value(),
            -sawtooth_up_fn(Frac(u, p)).value()
        );
    }
}

#[test]
fn sine_matches_the_real_sine_at_grid_points() {
    // with period 256, every phase lands exactly on a table grid point
    let p = 256u32;
    for u in 0..p {
        let v = sine_fn(Frac(u, p)).value();
        let expect = (f64::sin(2.0 * std::f64::consts::PI * (u as f64) / (p as f64)) * 32767.0)
            .round() as i64;
        assert!(
            (v - expect).abs() <= 1,
            "u={} lut={} real={}",
            u,
            v,
            expect
        );
        assert!(v.abs() <= 32767);
    }
}

#[test]
fn sine_quarter_points() {
    let p = 1000u32;
    assert_eq!(sine_fn(Frac(0, p)).value(), 0);
    assert_eq!(sine_fn(Frac(250, p)).value(), 32767);
    assert_eq!(sine_fn(Frac(500, p)).value(), 0);
    assert_eq!(sine_fn(Frac(750, p)).value(), -32767);
}

#[test]
fn compute_returns_zero_past_duration() {
    let effect = Effect {
        effect_report: Some(descriptor(EffectType::ConstantForce, Some(100), 10000)),
        parameter_1: Some(EffectParameter::ConstantForce(SetConstantForceReport {
            effect_block_index: 1,
            magnitude: Fixed(10000),
        })),
        parameter_2: None,
    };
    let at = |t: u32| {
        calculate_force_feedback(&effect, t, Fixed(0), Fixed(0), Fixed(0)).value()
    };
    assert_eq!(at(99), 10000);
    assert_eq!(at(100), 10000);
    assert_eq!(at(101), 0);
}

#[test]
fn periodic_phase_shifts_the_waveform() {
    // sine, magnitude 1, period 1000 ms, phase 90 degrees: +1 at t = 0
    let effect = Effect {
        effect_report: Some(descriptor(EffectType::Sine, None, 10000)),
        parameter_1: Some(EffectParameter::Periodic(SetPeriodicReport {
            effect_block_index: 1,
            magnitude: Fixed(10000),
            offset: Fixed(0),
            phase: 9000,
            period: 1000,
        })),
        parameter_2: None,
    };
    let v = calculate_force_feedback(&effect, 0, Fixed(0), Fixed(0), Fixed(0)).value();
    assert_eq!(v, 10000);
}

#[test]
fn spring_effect_opposes_displacement() {
    let effect = create_spring_effect(
        Fixed(10000),
        None,
        Fixed(0),
        Fixed(-10000),
        Fixed(-10000),
        Fixed(10000),
        Fixed(10000),
        Fixed(0),
    );
    let v = calculate_force_feedback(&effect, 0, Fixed(5000), Fixed(0), Fixed(0)).value();
    assert_eq!(v, -5000);
}

#[test]
fn incomplete_effect_contributes_nothing() {
    let effect = Effect {
        effect_report: Some(descriptor(EffectType::ConstantForce, None, 10000)),
        parameter_1: None,
        parameter_2: None,
    };
    assert_eq!(
        calculate_force_feedback(&effect, 0, Fixed(0), Fixed(0), Fixed(0)).value(),
        0
    );
    assert!(!effect.is_complete());
}

#[test]
fn motor_outputs_split_by_sign_and_deadband() {
    let out = motor_outputs(Fixed(5000), 100, 20000);
    assert_eq!(out, MotorOutputs { enable: true, forward_duty: 10000, reverse_duty: 0 });
    let out = motor_outputs(Fixed(-5000), 100, 20000);
    assert_eq!(out, MotorOutputs { enable: true, forward_duty: 0, reverse_duty: 10000 });
    let out = motor_outputs(Fixed(50), 100, 20000);
    assert_eq!(out, MotorOutputs { enable: false, forward_duty: 0, reverse_duty: 0 });
    // commands beyond full scale are clamped before the split
    let out = motor_outputs(Fixed(30000), 100, 20000);
    assert_eq!(out, MotorOutputs { enable: true, forward_duty: 20000, reverse_duty: 0 });
}
