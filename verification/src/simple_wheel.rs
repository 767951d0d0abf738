//! A plain joystick profile without force feedback, kept for bring-up:
//! one input report with axes and buttons.

use crate::misc::{bitflags, flags_value, lemma_flags_value_bound};
use crate::wire::{hi, lo, put_u16};
use vstd::prelude::*;

verus! {

/// The bring-up wheel: only an input report, no effects.
pub struct SimpleWheel {
    pub report: SimpleWheelReport,
}

impl SimpleWheel {
    /// A wheel with an all-zero report.
    pub fn new() -> (r: Self)
        ensures
            r.report == (SimpleWheelReport {
                buttons: [false, false, false, false, false, false, false, false],
                throttle: 0,
                accelerator: 0,
                brake: 0,
                steering: 0,
            }),
    {
        Self {
            report: SimpleWheelReport {
                buttons: [false, false, false, false, false, false, false, false],
                throttle: 0,
                accelerator: 0,
                brake: 0,
                steering: 0,
            },
        }
    }
}

/// The bring-up wheel's input report.
#[derive(Clone, Copy, PartialEq, Eq, Debug)]
pub struct SimpleWheelReport {
    pub buttons: [bool; 8],
    pub throttle: u16,
    pub accelerator: u16,
    pub brake: u16,
    pub steering: u16,
}

impl SimpleWheelReport {
    /// The wire image sent to the host: the four axes little-endian,
    /// then the button flags.
    pub open spec fn spec_report_bytes(self) -> Seq<u8> {
        seq![
            lo(self.throttle),
            hi(self.throttle),
            lo(self.accelerator),
            hi(self.accelerator),
            lo(self.brake),
            hi(self.brake),
            lo(self.steering),
            hi(self.steering),
            flags_value(self.buttons@) as u8,
        ]
    }

    /// Serializes the report for the interrupt IN endpoint.
    pub fn report_bytes(&self) -> (out: Vec<u8>)
        ensures
            out@ == self.spec_report_bytes(),
    {
        let mut buf: Vec<u8> = Vec::new();
        put_u16(&mut buf, self.throttle);
        put_u16(&mut buf, self.accelerator);
        put_u16(&mut buf, self.brake);
        put_u16(&mut buf, self.steering);
        proof {
            lemma_flags_value_bound(self.buttons@);
            vstd::arithmetic::power2::lemma2_to64();
        }
        buf.push(bitflags(self.buttons.as_slice()));
        proof {
            assert(buf@ =~= self.spec_report_bytes());
        }
        buf
    }
}

} // verus!
