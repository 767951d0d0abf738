//! The effect pool on its own: allocation order, the custom-force
//! buffer, and the capacity arithmetic.

use racing_wheel::effect::{Effect, EffectParameter};
use racing_wheel::fixed::Fixed;
use racing_wheel::ram_pool::{effect_address, RAMPool};
use racing_wheel::reports::{EffectType, SetConstantForceReport, SetEffectReport};

type Pool = RAMPool<16, 4096>;

fn plain_descriptor(idx: u8) -> SetEffectReport {
    SetEffectReport {
        effect_block_index: idx,
        effect_type: EffectType::ConstantForce,
        duration: None,
        trigger_repeat_interval: 0,
        sample_period: None,
        gain: Fixed(10000),
        trigger_button: 0,
        axis_x_enable: false,
        axis_y_enable: false,
        direction_enable: false,
        direction_instance_1: 0,
        direction_instance_2: 0,
        start_delay: 0,
        type_specific_block_offset_instance_1: 7,
        type_specific_block_offset_instance_2: 9,
    }
}

#[test]
fn new_effect_hands_out_the_lowest_index() {
    let mut pool = Pool::new();
    assert_eq!(pool.new_effect(), Some(1));
    assert_eq!(pool.new_effect(), Some(2));
    assert_eq!(pool.new_effect(), Some(3));
    assert!(pool.free_effect(2).is_ok());
    assert_eq!(pool.new_effect(), Some(2));
}

#[test]
fn free_effect_rejects_bad_indices() {
    let mut pool = Pool::new();
    assert!(pool.free_effect(0).is_err());
    assert!(pool.free_effect(17).is_err());
    assert!(pool.free_effect(1).is_ok());
}

#[test]
fn available_counts_slots_and_buffer() {
    let mut pool = Pool::new();
    assert_eq!(pool.available(), 16 * 19 + 4096);
    assert_eq!(pool.pool_size(), 16 * 19 + 4096);
    let _ = pool.new_effect();
    assert_eq!(pool.available(), 15 * 19 + 4096);
    let addr = pool.allocate(100).unwrap();
    assert_eq!(addr, 0);
    assert_eq!(pool.available(), 15 * 19 + 3996);
}

#[test]
fn custom_buffer_write_and_read_back() {
    let mut pool = Pool::new();
    let addr = pool.allocate(4).unwrap();
    assert!(pool.write_report(&[0xde, 0xad, 0xbe, 0xef], addr).is_ok());
    assert_eq!(pool.read_report(addr, 4).unwrap(), vec![0xde, 0xad, 0xbe, 0xef]);
    assert!(pool.write_report(&[0u8; 5000], 0).is_err());
    assert!(pool.read_report(4093, 4).is_err());
}

#[test]
fn descriptor_and_parameters_live_in_their_slot() {
    let mut pool = Pool::new();
    let idx = pool.new_effect().unwrap();
    assert!(pool.get_effect_report(idx).is_err());
    assert!(pool.set_effect_report(idx, plain_descriptor(idx)).is_ok());
    assert_eq!(pool.get_effect_report(idx).unwrap(), plain_descriptor(idx));
    assert_eq!(pool.get_type_specific_block_offsets(idx).unwrap(), [7, 9]);
    let param = EffectParameter::ConstantForce(SetConstantForceReport {
        effect_block_index: idx,
        magnitude: Fixed(1),
    });
    assert!(pool.set_parameter_1(idx, param).is_ok());
    let effect: &Effect = pool.get_effect(idx).unwrap();
    assert!(effect.effect_report.is_some());
    assert!(matches!(effect.parameter_1, Some(EffectParameter::ConstantForce(_))));
    assert!(effect.parameter_2.is_none());
    // a slot that was never allocated takes no parameters
    assert!(pool.set_parameter_1(5, param).is_err());
}

#[test]
fn effect_addresses_are_back_to_back() {
    assert_eq!(effect_address(1), 0);
    assert_eq!(effect_address(2), 19);
    assert_eq!(effect_address(16), 15 * 19);
}
