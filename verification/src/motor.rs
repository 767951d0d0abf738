//! The motor driver's decision logic: how one signed torque command
//! becomes an enable flag and two PWM duty cycles for the H-bridge.
//! The pin and timer writes themselves stay with the hardware shell.

use crate::fixed::{clamp_i, sat16, tdiv, Fixed, FixedFFB};
use vstd::prelude::*;

verus! {

/// The strongest command the driver accepts, in `1/10_000` of full
/// scale.
pub const MOTOR_SIGNAL_MAX: i16 = 10_000;

/// What the H-bridge is told for one torque command.
#[derive(Clone, Copy, PartialEq, Eq, Debug)]
pub struct MotorOutputs {
    pub enable: bool,
    pub forward_duty: u16,
    pub reverse_duty: u16,
}

/// The clamped command a torque maps to.
pub open spec fn spec_motor_signal(speed: int) -> int {
    clamp_i(speed, -MOTOR_SIGNAL_MAX as int, MOTOR_SIGNAL_MAX as int)
}

/// The duty cycle of the driven side: the command's magnitude scaled
/// onto the timer's full duty range.
pub open spec fn spec_motor_duty(magnitude: int, max_duty: u16) -> int {
    sat16(tdiv(magnitude * max_duty as int, MOTOR_SIGNAL_MAX as int))
}

/// Maps one torque command onto the H-bridge: inside the deadband both
/// sides idle and the bridge is disabled; outside it, exactly the side
/// matching the sign is driven, with the scaled magnitude.
pub fn motor_outputs(speed: FixedFFB, deadband: i16, max_duty: u16) -> (r: MotorOutputs)
    requires
        0 <= deadband <= MOTOR_SIGNAL_MAX,
        max_duty <= 0x7fff,
    ensures
        ({
            let s = spec_motor_signal(speed@);
            if s > deadband {
                r == (MotorOutputs {
                    enable: true,
                    forward_duty: spec_motor_duty(s, max_duty) as u16,
                    reverse_duty: 0,
                })
            } else if s < -deadband {
                r == (MotorOutputs {
                    enable: true,
                    forward_duty: 0,
                    reverse_duty: spec_motor_duty(-s, max_duty) as u16,
                })
            } else {
                r == (MotorOutputs { enable: false, forward_duty: 0, reverse_duty: 0 })
            }
        }),
{
    let clamped: FixedFFB = speed.clamp(Fixed(-MOTOR_SIGNAL_MAX), Fixed(MOTOR_SIGNAL_MAX));
    let magnitude: FixedFFB = if clamped.0 >= 0 {
        clamped
    } else {
        Fixed(-clamped.0)
    };
    proof {
        crate::fixed::lemma_frac_shrink(max_duty as int, magnitude@, MOTOR_SIGNAL_MAX as int);
        vstd::arithmetic::mul::lemma_mul_is_commutative(magnitude@, max_duty as int);
        vstd::arithmetic::div_mod::lemma_div_pos_is_pos(
            magnitude@ * max_duty as int,
            MOTOR_SIGNAL_MAX as int,
        );
    }
    let duty_frac = magnitude.to_frac(max_duty as i16);
    let duty: u16 = duty_frac.value() as u16;
    if clamped.0 > deadband {
        MotorOutputs { enable: true, forward_duty: duty, reverse_duty: 0 }
    } else if clamped.0 < -deadband {
        MotorOutputs { enable: true, forward_duty: 0, reverse_duty: duty }
    } else {
        MotorOutputs { enable: false, forward_duty: 0, reverse_duty: 0 }
    }
}

} // verus!
