//! Byte-level round trips for every report codec.

use racing_wheel::fixed::Fixed;
use racing_wheel::misc::{bitflag, bitflags, bits};
use racing_wheel::reports::{
    BlockLoadStatus, CreateNewEffectReport, CustomForceDataReport, DeviceControl,
    DeviceGainReport, DownloadForceSample, EffectOperation, EffectOperationReport, EffectType,
    PIDBlockFreeReport, PIDBlockLoadReport, PIDDeviceControl, PIDPoolMoveReport, PIDPoolReport,
    PIDStateReport, RacingWheelReport, SetConditionReport, SetConfigReport,
    SetConstantForceReport, SetCustomForceReport, SetEffectReport, SetEnvelopeReport,
    SetPeriodicReport, SetRampForceReport,
};

fn wire(idx: u8, body: Vec<u8>) -> Vec<u8> {
    let mut bytes = vec![0u8, idx];
    bytes.extend(body);
    bytes
}

#[test]
fn bitflags_round_trip() {
    let flags = [true, false, true, true, false, false, true, false];
    let byte = bitflags(&flags);
    assert_eq!(byte, 0b0100_1101);
    for i in 0..8u8 {
        assert_eq!(bitflag(byte, i), flags[i as usize]);
    }
}

#[test]
fn bits_extracts_fields() {
    let byte = 0b11_01_0101u8;
    assert_eq!(bits(byte, 0, 4), 0b0101);
    assert_eq!(bits(byte, 4, 2), 0b01);
    assert_eq!(bits(byte, 6, 2), 0b11);
}

#[test]
fn set_effect_ram_round_trip() {
    let rep = SetEffectReport {
        effect_block_index: 3,
        effect_type: EffectType::Spring,
        duration: Some(500),
        trigger_repeat_interval: 77,
        sample_period: Some(4),
        gain: Fixed(9000),
        trigger_button: 2,
        axis_x_enable: true,
        axis_y_enable: false,
        direction_enable: true,
        direction_instance_1: 5,
        direction_instance_2: 6,
        start_delay: 123,
        type_specific_block_offset_instance_1: 19,
        type_specific_block_offset_instance_2: 32,
    };
    let ram = rep.to_ram();
    assert_eq!(ram.len(), 19);
    let back = SetEffectReport::from_ram(&ram, 3).unwrap();
    assert_eq!(back, rep);
    let w = SetEffectReport::into_report(&wire(3, rep.to_ram())).unwrap();
    assert_eq!(w, rep);
}

#[test]
fn set_effect_duration_sentinels() {
    let mut ram = SetEffectReport {
        effect_block_index: 1,
        effect_type: EffectType::ConstantForce,
        duration: None,
        trigger_repeat_interval: 0,
        sample_period: None,
        gain: Fixed(0),
        trigger_button: 0,
        axis_x_enable: false,
        axis_y_enable: false,
        direction_enable: false,
        direction_instance_1: 0,
        direction_instance_2: 0,
        start_delay: 0,
        type_specific_block_offset_instance_1: 0,
        type_specific_block_offset_instance_2: 0,
    }
    .to_ram();
    // duration word 0 means infinite
    let r = SetEffectReport::from_ram(&ram, 1).unwrap();
    assert_eq!(r.duration, None);
    assert_eq!(r.sample_period, None);
    // duration word 0xffff also means infinite
    ram[1] = 0xff;
    ram[2] = 0xff;
    let r = SetEffectReport::from_ram(&ram, 1).unwrap();
    assert_eq!(r.duration, None);
}

#[test]
fn set_effect_rejects_bad_type() {
    let mut ram = vec![0u8; 19];
    ram[0] = 13;
    assert!(SetEffectReport::from_ram(&ram, 1).is_none());
    ram[0] = 0;
    assert!(SetEffectReport::from_ram(&ram, 1).is_none());
    assert!(SetEffectReport::from_ram(&ram[0..18], 1).is_none());
}

#[test]
fn set_envelope_ram_round_trip() {
    let rep = SetEnvelopeReport {
        effect_block_index: 9,
        attack_level: Fixed(-1234),
        fade_level: Fixed(10000),
        attack_time: 777_777,
        fade_time: 4_000_000_000,
    };
    let ram = rep.to_ram();
    assert_eq!(ram.len(), 12);
    assert_eq!(SetEnvelopeReport::from_ram(&ram, 9).unwrap(), rep);
    assert_eq!(
        SetEnvelopeReport::into_report(&wire(9, rep.to_ram())).unwrap(),
        rep
    );
}

#[test]
fn set_condition_ram_round_trip() {
    let rep = SetConditionReport {
        effect_block_index: 2,
        parameter_block_offset: 1,
        type_specific_block_offset_instance_1: 3,
        type_specific_block_offset_instance_2: 2,
        cp_offset: Fixed(-5),
        positive_coefficient: Fixed(10000),
        negative_coefficient: Fixed(-10000),
        positive_saturation: Fixed(5000),
        negative_saturation: Fixed(5000),
        dead_band: Fixed(17),
    };
    let ram = rep.to_ram();
    assert_eq!(ram.len(), 13);
    assert_eq!(SetConditionReport::from_ram(&ram, 2).unwrap(), rep);
    assert_eq!(ram[0], 1 | (3 << 4) | (2 << 6));
}

#[test]
fn set_periodic_ram_round_trip() {
    let rep = SetPeriodicReport {
        effect_block_index: 4,
        magnitude: Fixed(10000),
        offset: Fixed(-2),
        phase: 9000,
        period: 1000,
    };
    let ram = rep.to_ram();
    assert_eq!(ram.len(), 10);
    assert_eq!(SetPeriodicReport::from_ram(&ram, 4).unwrap(), rep);
}

#[test]
fn set_constant_force_ram_round_trip() {
    let rep = SetConstantForceReport { effect_block_index: 5, magnitude: Fixed(-32768) };
    let ram = rep.to_ram();
    assert_eq!(ram.len(), 2);
    assert_eq!(SetConstantForceReport::from_ram(&ram, 5).unwrap(), rep);
}

#[test]
fn set_ramp_force_ram_round_trip() {
    let rep = SetRampForceReport {
        effect_block_index: 6,
        ramp_start: Fixed(-10000),
        ramp_end: Fixed(10000),
    };
    let ram = rep.to_ram();
    assert_eq!(ram.len(), 4);
    assert_eq!(SetRampForceReport::from_ram(&ram, 6).unwrap(), rep);
}

#[test]
fn set_custom_force_ram_round_trip() {
    let rep = SetCustomForceReport {
        effect_block_index: 7,
        custom_force_data_offset: 304,
        sample_count: 64,
    };
    let ram = rep.to_ram();
    assert_eq!(ram.len(), 4);
    assert_eq!(SetCustomForceReport::from_ram(&ram, 7).unwrap(), rep);
}

#[test]
fn custom_force_data_ram_round_trip() {
    let rep = CustomForceDataReport {
        effect_block_index: 8,
        custom_force_data_offset: 12,
        byte_count: 12,
        custom_force_data: [1, 2, 3, 4, 5, 6, 7, 8, 9, 10, 11, 12],
    };
    let ram = rep.to_ram();
    assert_eq!(ram.len(), 15);
    let back = CustomForceDataReport::from_ram(&ram, 8).unwrap();
    assert_eq!(back, rep);
    assert_eq!(back.to_ram(), ram);
}

#[test]
fn download_force_sample_decode() {
    let r = DownloadForceSample::into_report(&[0, 0x80, 0x7f]).unwrap();
    assert_eq!(r.steering, -128);
    assert_eq!(r.throttle, 127);
}

#[test]
fn effect_operation_decode() {
    let r = EffectOperationReport::into_report(&[0, 3, 2, 9]).unwrap();
    assert_eq!(r.effect_block_index, 3);
    assert!(matches!(r.effect_operation, EffectOperation::EffectStartSolo));
    assert_eq!(r.loop_count, 9);
    assert!(EffectOperationReport::into_report(&[0, 3, 4, 9]).is_none());
    assert!(EffectOperationReport::into_report(&[0, 3, 2]).is_none());
}

#[test]
fn device_control_decode() {
    let r = PIDDeviceControl::into_report(&[0, 4]).unwrap();
    assert!(matches!(r.device_control, DeviceControl::DeviceReset));
    assert!(PIDDeviceControl::into_report(&[0, 7]).is_none());
    assert!(PIDDeviceControl::into_report(&[0]).is_none());
}

#[test]
fn device_gain_decode() {
    let r = DeviceGainReport::into_report(&[0, 0x10, 0x27]).unwrap();
    assert_eq!(r.device_gain.value(), 10000);
}

#[test]
fn block_free_and_pool_move_decode() {
    assert_eq!(
        PIDBlockFreeReport::into_report(&[0, 5]).unwrap().effect_block_index,
        5
    );
    let pm = PIDPoolMoveReport::into_report(&[0, 1, 0, 2, 0, 3, 0]).unwrap();
    assert_eq!((pm.move_source, pm.move_destination, pm.move_length), (1, 2, 3));
}

#[test]
fn create_new_effect_decode() {
    let r = CreateNewEffectReport::into_report(&[0, 8, 0, 0]).unwrap();
    assert!(matches!(r.effect_type, EffectType::Spring));
    assert_eq!(r.byte_count, 0);
    assert!(CreateNewEffectReport::into_report(&[0, 0, 0, 0]).is_none());
}

#[test]
fn racing_wheel_report_bytes() {
    let rep = RacingWheelReport {
        buttons: [true, false, false, false, false, false, false, true],
        steering: Fixed(-1),
        throttle: 258,
    };
    let bytes = rep.report_bytes();
    assert_eq!(bytes, vec![1, 0b1000_0001, 0xff, 0xff, 0x02, 0x01]);
}

#[test]
fn pid_state_report_bytes() {
    let rep = PIDStateReport {
        device_paused: true,
        actuators_enabled: false,
        safety_switch: true,
        actuators_override_switch: false,
        actuator_power: false,
        effect_playing: true,
        effect_block_index: 3,
    };
    let bytes = rep.report_bytes();
    assert_eq!(bytes, vec![2, 0b0000_0101, 0b0000_0111]);
}

#[test]
fn pid_block_load_report_bytes() {
    let rep = PIDBlockLoadReport {
        effect_block_index: 1,
        block_load_status: BlockLoadStatus::Success,
        ram_pool_available: 4381,
    };
    let bytes = rep.report_bytes();
    assert_eq!(bytes, vec![2, 1, 1, (4381 % 256) as u8, (4381 / 256) as u8]);
}

#[test]
fn pid_pool_report_bytes() {
    let rep = PIDPoolReport {
        ram_pool_size: 4400,
        simultaneous_effects_max: 8,
        param_block_size_set_effect: 19,
        param_block_size_set_envelope: 12,
        param_block_size_set_condition: 13,
        param_block_size_set_periodic: 10,
        param_block_size_set_constant_force: 2,
        param_block_size_set_ramp_force: 4,
        param_block_size_set_custom_force: 4,
        device_managed_pool: true,
        shared_parameter_blocks: false,
        isochronous_enable: true,
    };
    let bytes = rep.report_bytes();
    assert_eq!(
        bytes,
        vec![3, (4400 % 256) as u8, (4400 / 256) as u8, 8, 19, 12, 13, 10, 2, 4, 4, 0b101]
    );
}

#[test]
fn config_wire_round_trip() {
    let rep = SetConfigReport {
        gain: Fixed(3000),
        expo: Fixed(8000),
        max_rotation: 900,
        spring_gain: Fixed(4500),
        spring_coefficient: Fixed(-8000),
        spring_saturation: Fixed(10000),
        spring_deadband: Fixed(1),
        motor_max: Fixed(8000),
        motor_deadband: Fixed(10),
    };
    let bytes = rep.report_bytes();
    assert_eq!(bytes.len(), 19);
    assert_eq!(SetConfigReport::into_report(&bytes).unwrap(), rep);
    // short payloads are rejected as an unknown layout version
    assert!(SetConfigReport::into_report(&bytes[0..18]).is_none());
}
