//! One effect slot: the common descriptor plus up to two typed
//! parameter blocks.

use crate::fixed::FixedFFB;
use crate::reports::{
    EffectType, SetConditionReport, SetConstantForceReport, SetCustomForceReport, SetEffectReport,
    SetEnvelopeReport, SetPeriodicReport, SetRampForceReport,
};
use vstd::prelude::*;

verus! {

/// A typed parameter block, one of the six the PID class downloads.
#[derive(Clone, Copy, PartialEq, Eq, Debug)]
pub enum EffectParameter {
    Envelope(SetEnvelopeReport),
    Condition(SetConditionReport),
    Periodic(SetPeriodicReport),
    ConstantForce(SetConstantForceReport),
    RampForce(SetRampForceReport),
    CustomForce(SetCustomForceReport),
}

/// One slot of the effect pool: descriptor and two parameter blocks,
/// each possibly still missing.
#[derive(Clone, Copy, PartialEq, Eq, Debug)]
pub struct Effect {
    pub effect_report: Option<SetEffectReport>,
    pub parameter_1: Option<EffectParameter>,
    pub parameter_2: Option<EffectParameter>,
}

impl Effect {
    /// An effect is complete when its descriptor is set and every
    /// parameter block its type expects has arrived; custom-force
    /// effects expect only the first block.
    pub open spec fn spec_is_complete(self) -> bool {
        match self.effect_report {
            None => false,
            Some(e) => if e.effect_type == EffectType::CustomForceData {
                self.parameter_1 is Some
            } else {
                self.parameter_1 is Some && self.parameter_2 is Some
            },
        }
    }

    /// Whether every parameter block the effect's type expects is set.
    pub fn is_complete(&self) -> (r: bool)
        ensures
            r == self.spec_is_complete(),
    {
        match &self.effect_report {
            None => false,
            Some(e) => {
                if matches!(e.effect_type, EffectType::CustomForceData) {
                    self.parameter_1.is_some()
                } else {
                    self.parameter_1.is_some() && self.parameter_2.is_some()
                }
            },
        }
    }

    /// A slot with nothing downloaded yet.
    pub fn empty() -> (r: Self)
        ensures
            r == (Effect { effect_report: None, parameter_1: None, parameter_2: None }),
    {
        Effect { effect_report: None, parameter_1: None, parameter_2: None }
    }
}

/// A descriptor that carries only a type, a gain, and an optional
/// duration, as the built-in effects use it.
pub fn plain_descriptor(effect_type: EffectType, gain: FixedFFB, duration: Option<u16>) -> (r:
    SetEffectReport)
    ensures
        r == (SetEffectReport {
            effect_block_index: 0,
            effect_type,
            duration,
            trigger_repeat_interval: 0,
            sample_period: None,
            gain,
            trigger_button: 0,
            axis_x_enable: false,
            axis_y_enable: false,
            direction_enable: false,
            direction_instance_1: 0,
            direction_instance_2: 0,
            start_delay: 0,
            type_specific_block_offset_instance_1: 0,
            type_specific_block_offset_instance_2: 0,
        }),
{
    SetEffectReport {
        effect_block_index: 0,
        effect_type,
        duration,
        trigger_repeat_interval: 0,
        sample_period: None,
        gain,
        trigger_button: 0,
        axis_x_enable: false,
        axis_y_enable: false,
        direction_enable: false,
        direction_instance_1: 0,
        direction_instance_2: 0,
        start_delay: 0,
        type_specific_block_offset_instance_1: 0,
        type_specific_block_offset_instance_2: 0,
    }
}

/// The condition block a built-in effect fills both parameter slots
/// with.
pub fn plain_condition(
    cp_offset: FixedFFB,
    positive_coefficient: FixedFFB,
    negative_coefficient: FixedFFB,
    positive_saturation: FixedFFB,
    negative_saturation: FixedFFB,
    dead_band: FixedFFB,
) -> (r: SetConditionReport)
    ensures
        r == (SetConditionReport {
            effect_block_index: 0,
            parameter_block_offset: 0,
            type_specific_block_offset_instance_1: 0,
            type_specific_block_offset_instance_2: 0,
            cp_offset,
            positive_coefficient,
            negative_coefficient,
            positive_saturation,
            negative_saturation,
            dead_band,
        }),
{
    SetConditionReport {
        effect_block_index: 0,
        parameter_block_offset: 0,
        type_specific_block_offset_instance_1: 0,
        type_specific_block_offset_instance_2: 0,
        cp_offset,
        positive_coefficient,
        negative_coefficient,
        positive_saturation,
        negative_saturation,
        dead_band,
    }
}

/// The spring effect a condition set describes.
pub open spec fn spec_condition_effect(
    effect_type: EffectType,
    gain: FixedFFB,
    duration: Option<u16>,
    condition: SetConditionReport,
) -> Effect {
    Effect {
        effect_report: Some(
            SetEffectReport {
                effect_block_index: 0,
                effect_type,
                duration,
                trigger_repeat_interval: 0,
                sample_period: None,
                gain,
                trigger_button: 0,
                axis_x_enable: false,
                axis_y_enable: false,
                direction_enable: false,
                direction_instance_1: 0,
                direction_instance_2: 0,
                start_delay: 0,
                type_specific_block_offset_instance_1: 0,
                type_specific_block_offset_instance_2: 0,
            },
        ),
        parameter_1: Some(EffectParameter::Condition(condition)),
        parameter_2: Some(EffectParameter::Condition(condition)),
    }
}

/// Builds the spring effect the wheel applies unconditionally, from the
/// user configuration.
pub fn create_spring_effect(
    gain: FixedFFB,
    duration: Option<u16>,
    cp_offset: FixedFFB,
    positive_coefficient: FixedFFB,
    negative_coefficient: FixedFFB,
    positive_saturation: FixedFFB,
    negative_saturation: FixedFFB,
    dead_band: FixedFFB,
) -> (r: Effect)
    ensures
        r == spec_condition_effect(
            EffectType::Spring,
            gain,
            duration,
            SetConditionReport {
                effect_block_index: 0,
                parameter_block_offset: 0,
                type_specific_block_offset_instance_1: 0,
                type_specific_block_offset_instance_2: 0,
                cp_offset,
                positive_coefficient,
                negative_coefficient,
                positive_saturation,
                negative_saturation,
                dead_band,
            },
        ),
{
    let condition = plain_condition(
        cp_offset,
        positive_coefficient,
        negative_coefficient,
        positive_saturation,
        negative_saturation,
        dead_band,
    );
    Effect {
        effect_report: Some(plain_descriptor(EffectType::Spring, gain, duration)),
        parameter_1: Some(EffectParameter::Condition(condition)),
        parameter_2: Some(EffectParameter::Condition(condition)),
    }
}

/// Builds a damper effect from the same shape of parameters.
pub fn create_damper_effect(
    gain: FixedFFB,
    duration: Option<u16>,
    cp_offset: FixedFFB,
    positive_coefficient: FixedFFB,
    negative_coefficient: FixedFFB,
    positive_saturation: FixedFFB,
    negative_saturation: FixedFFB,
    dead_band: FixedFFB,
) -> (r: Effect)
    ensures
        r == spec_condition_effect(
            EffectType::Damper,
            gain,
            duration,
            SetConditionReport {
                effect_block_index: 0,
                parameter_block_offset: 0,
                type_specific_block_offset_instance_1: 0,
                type_specific_block_offset_instance_2: 0,
                cp_offset,
                positive_coefficient,
                negative_coefficient,
                positive_saturation,
                negative_saturation,
                dead_band,
            },
        ),
{
    let condition = plain_condition(
        cp_offset,
        positive_coefficient,
        negative_coefficient,
        positive_saturation,
        negative_saturation,
        dead_band,
    );
    Effect {
        effect_report: Some(plain_descriptor(EffectType::Damper, gain, duration)),
        parameter_1: Some(EffectParameter::Condition(condition)),
        parameter_2: Some(EffectParameter::Condition(condition)),
    }
}

} // verus!
