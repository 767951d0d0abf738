//! The PID report records and their byte codecs.
//!
//! Every report exists in up to two byte forms.  The in-pool (RAM) form
//! holds the record's body without the effect-block index, which lives
//! implicitly at the slot's address.  The wire form prepends the report
//! id and, for reports that reference a slot, the effect-block index.
//! All multi-byte integers are little-endian; `duration` treats `0` and
//! `0xFFFF` as the *infinite* sentinel and `sample_period` treats `0` as
//! *unset*.

use crate::fixed::{Fixed, FixedFFB, FixedSteering};
use crate::misc::{bitflag, bitflags, bits, flags_value, lemma_flags_value_bit,
    lemma_flags_value_bound};
use crate::wire::{byte32, hi, le16, le32, lemma_i16_cast_round_trip, lemma_le16_join, lo,
    put_i16, put_u16, put_u32, read_i16, read_u16, read_u32, read_u8};
use vstd::prelude::*;

verus! {

/// The closed set of PID effect types.
#[derive(Clone, Copy, PartialEq, Eq, Debug)]
pub enum EffectType {
    ConstantForce,
    Ramp,
    Square,
    Sine,
    Triangle,
    SawtoothUp,
    SawtoothDown,
    Spring,
    Damper,
    Inertia,
    Friction,
    CustomForceData,
}

/// The wire code of each effect type.
pub open spec fn spec_effect_type_code(t: EffectType) -> u8 {
    match t {
        EffectType::ConstantForce => 1,
        EffectType::Ramp => 2,
        EffectType::Square => 3,
        EffectType::Sine => 4,
        EffectType::Triangle => 5,
        EffectType::SawtoothUp => 6,
        EffectType::SawtoothDown => 7,
        EffectType::Spring => 8,
        EffectType::Damper => 9,
        EffectType::Inertia => 10,
        EffectType::Friction => 11,
        EffectType::CustomForceData => 12,
    }
}

/// The effect type named by a wire code, if any.
pub open spec fn spec_effect_type_from(value: u8) -> Option<EffectType> {
    if value == 1 {
        Some(EffectType::ConstantForce)
    } else if value == 2 {
        Some(EffectType::Ramp)
    } else if value == 3 {
        Some(EffectType::Square)
    } else if value == 4 {
        Some(EffectType::Sine)
    } else if value == 5 {
        Some(EffectType::Triangle)
    } else if value == 6 {
        Some(EffectType::SawtoothUp)
    } else if value == 7 {
        Some(EffectType::SawtoothDown)
    } else if value == 8 {
        Some(EffectType::Spring)
    } else if value == 9 {
        Some(EffectType::Damper)
    } else if value == 10 {
        Some(EffectType::Inertia)
    } else if value == 11 {
        Some(EffectType::Friction)
    } else if value == 12 {
        Some(EffectType::CustomForceData)
    } else {
        None
    }
}

impl EffectType {
    /// The wire code of this effect type.
    pub fn code(self) -> (r: u8)
        ensures
            r == spec_effect_type_code(self),
            spec_effect_type_from(r) == Some(self),
    {
        match self {
            EffectType::ConstantForce => 1,
            EffectType::Ramp => 2,
            EffectType::Square => 3,
            EffectType::Sine => 4,
            EffectType::Triangle => 5,
            EffectType::SawtoothUp => 6,
            EffectType::SawtoothDown => 7,
            EffectType::Spring => 8,
            EffectType::Damper => 9,
            EffectType::Inertia => 10,
            EffectType::Friction => 11,
            EffectType::CustomForceData => 12,
        }
    }

    /// Decodes a wire code; codes outside `1..=12` are rejected.
    pub fn try_from(value: u8) -> (r: Result<Self, ()>)
        ensures
            r == match spec_effect_type_from(value) {
                Some(t) => Ok::<Self, ()>(t),
                None => Err::<Self, ()>(()),
            },
    {
        match value {
            1 => Ok(EffectType::ConstantForce),
            2 => Ok(EffectType::Ramp),
            3 => Ok(EffectType::Square),
            4 => Ok(EffectType::Sine),
            5 => Ok(EffectType::Triangle),
            6 => Ok(EffectType::SawtoothUp),
            7 => Ok(EffectType::SawtoothDown),
            8 => Ok(EffectType::Spring),
            9 => Ok(EffectType::Damper),
            10 => Ok(EffectType::Inertia),
            11 => Ok(EffectType::Friction),
            12 => Ok(EffectType::CustomForceData),
            _ => Err(()),
        }
    }
}

/// Host commands that start and stop a downloaded effect.
#[derive(Clone, Copy, PartialEq, Eq, Debug)]
pub enum EffectOperation {
    EffectStart,
    EffectStartSolo,
    EffectStop,
}

/// The effect operation named by a wire code, if any.
pub open spec fn spec_effect_operation_from(value: u8) -> Option<EffectOperation> {
    if value == 1 {
        Some(EffectOperation::EffectStart)
    } else if value == 2 {
        Some(EffectOperation::EffectStartSolo)
    } else if value == 3 {
        Some(EffectOperation::EffectStop)
    } else {
        None
    }
}

impl EffectOperation {
    /// Decodes a wire code; codes outside `1..=3` are rejected.
    pub fn try_from(value: u8) -> (r: Result<Self, ()>)
        ensures
            r == match spec_effect_operation_from(value) {
                Some(t) => Ok::<Self, ()>(t),
                None => Err::<Self, ()>(()),
            },
    {
        match value {
            1 => Ok(EffectOperation::EffectStart),
            2 => Ok(EffectOperation::EffectStartSolo),
            3 => Ok(EffectOperation::EffectStop),
            _ => Err(()),
        }
    }
}

/// Host commands that act on the device as a whole.
#[derive(Clone, Copy, PartialEq, Eq, Debug)]
pub enum DeviceControl {
    EnableActuators,
    DisableActuators,
    StopAllEffects,
    DeviceReset,
    DevicePause,
    DeviceContinue,
}

/// The device control named by a wire code, if any.
pub open spec fn spec_device_control_from(value: u8) -> Option<DeviceControl> {
    if value == 1 {
        Some(DeviceControl::EnableActuators)
    } else if value == 2 {
        Some(DeviceControl::DisableActuators)
    } else if value == 3 {
        Some(DeviceControl::StopAllEffects)
    } else if value == 4 {
        Some(DeviceControl::DeviceReset)
    } else if value == 5 {
        Some(DeviceControl::DevicePause)
    } else if value == 6 {
        Some(DeviceControl::DeviceContinue)
    } else {
        None
    }
}

impl DeviceControl {
    /// Decodes a wire code; codes outside `1..=6` are rejected.
    pub fn try_from(value: u8) -> (r: Result<Self, ()>)
        ensures
            r == match spec_device_control_from(value) {
                Some(t) => Ok::<Self, ()>(t),
                None => Err::<Self, ()>(()),
            },
    {
        match value {
            1 => Ok(DeviceControl::EnableActuators),
            2 => Ok(DeviceControl::DisableActuators),
            3 => Ok(DeviceControl::StopAllEffects),
            4 => Ok(DeviceControl::DeviceReset),
            5 => Ok(DeviceControl::DevicePause),
            6 => Ok(DeviceControl::DeviceContinue),
            _ => Err(()),
        }
    }
}

/// The outcome the device reports for a block-load request.
#[derive(Clone, Copy, PartialEq, Eq, Debug)]
pub enum BlockLoadStatus {
    Success,
    Full,
    Error,
}

impl BlockLoadStatus {
    /// The wire code of this status.
    pub open spec fn spec_code(self) -> u8 {
        match self {
            BlockLoadStatus::Success => 1,
            BlockLoadStatus::Full => 2,
            BlockLoadStatus::Error => 3,
        }
    }

    /// The wire code of this status.
    pub fn code(self) -> (r: u8)
        ensures
            r == self.spec_code(),
    {
        match self {
            BlockLoadStatus::Success => 1,
            BlockLoadStatus::Full => 2,
            BlockLoadStatus::Error => 3,
        }
    }
}

/// The wire image of an optional duration: `0` stands for *infinite*.
pub open spec fn spec_duration_word(d: Option<u16>) -> u16 {
    match d {
        Some(x) => x,
        None => 0,
    }
}

/// The duration decoded from its wire image: `0` and `0xFFFF` both mean
/// *infinite*.
pub open spec fn spec_duration_from(w: u16) -> Option<u16> {
    if w == 0 || w == 0xffff {
        None
    } else {
        Some(w)
    }
}

/// The wire image of an optional sample period: `0` stands for *unset*.
pub open spec fn spec_period_word(p: Option<u16>) -> u16 {
    match p {
        Some(x) => x,
        None => 0,
    }
}

/// The sample period decoded from its wire image: `0` means *unset*.
pub open spec fn spec_period_from(w: u16) -> Option<u16> {
    if w == 0 {
        None
    } else {
        Some(w)
    }
}

// Set Constant Force Report
/// Parameter block of a constant-force effect.
#[derive(Clone, Copy, PartialEq, Eq, Debug)]
pub struct SetConstantForceReport {
    pub effect_block_index: u8,
    pub magnitude: FixedFFB,
}

impl SetConstantForceReport {
    /// The in-pool image of the record.
    pub open spec fn spec_to_ram(self) -> Seq<u8> {
        seq![
            lo(self.magnitude.0 as u16),
            hi(self.magnitude.0 as u16),
        ]
    }

    /// The record an in-pool image decodes to.
    pub open spec fn spec_from_ram(s: Seq<u8>, idx: u8) -> Option<Self> {
        if s.len() < 2 {
            None
        } else {
            Some(
                SetConstantForceReport {
                    effect_block_index: idx,
                    magnitude: Fixed(le16(s[0], s[1]) as i16),
                },
            )
        }
    }

    /// Serializes the record for the pool.
    pub fn to_ram(&self) -> (out: Vec<u8>)
        ensures
            out@ == self.spec_to_ram(),
    {
        let mut buf: Vec<u8> = Vec::new();
        put_i16(&mut buf, self.magnitude.0);
        proof {
            assert(buf@ =~= self.spec_to_ram());
        }
        buf
    }

    /// Parses the record out of the pool.
    pub fn from_ram(ram: &[u8], effect_block_index: u8) -> (r: Option<Self>)
        ensures
            r == Self::spec_from_ram(ram@, effect_block_index),
    {
        if ram.len() < 2 {
            return None;
        }
        Some(SetConstantForceReport { effect_block_index, magnitude: Fixed(read_i16(ram, 0)) })
    }

    /// The record a full wire image decodes to.
    pub open spec fn spec_into_report(s: Seq<u8>) -> Option<Self> {
        spec_into_report_body(s, |b: Seq<u8>, idx: u8| Self::spec_from_ram(b, idx))
    }

    /// Parses the wire form: report id, block index, then the body.
    pub fn into_report(bytes: &[u8]) -> (r: Option<Self>)
        ensures
            r == Self::spec_into_report(bytes@),
    {
        if bytes.len() < 2 {
            return None;
        }
        let idx: u8 = read_u8(bytes, 1);
        Self::from_ram(vstd::slice::slice_subrange(bytes, 2, bytes.len()), idx)
    }

    /// Decoding an in-pool image recovers the record with the slot's
    /// index.
    pub proof fn lemma_ram_round_trip(self, idx: u8)
        ensures
            Self::spec_from_ram(self.spec_to_ram(), idx) == Some(
                SetConstantForceReport { effect_block_index: idx, ..self },
            ),
    {
        lemma_le16_join(lo(self.magnitude.0 as u16), hi(self.magnitude.0 as u16));
        crate::wire::lemma_le16_split(self.magnitude.0 as u16);
        lemma_i16_cast_round_trip(self.magnitude.0);
    }

    /// Parsing a full wire image (report id, block index, body)
    /// recovers the record with the named index.
    pub proof fn lemma_wire_round_trip(self, id: u8, idx: u8)
        ensures
            Self::spec_into_report(seq![id, idx] + self.spec_to_ram()) == Some(
                SetConstantForceReport { effect_block_index: idx, ..self },
            ),
    {
        let wire = seq![id, idx] + self.spec_to_ram();
        assert(wire.skip(2) =~= self.spec_to_ram());
        self.lemma_ram_round_trip(idx);
    }

}

/// The wire form of a slot-addressed report: the report id, the
/// effect-block index, then the body that also lives in the pool.
pub open spec fn spec_into_report_body<T>(
    s: Seq<u8>,
    from_ram: spec_fn(Seq<u8>, u8) -> Option<T>,
) -> Option<T> {
    if s.len() < 2 {
        None
    } else {
        from_ram(s.skip(2), s[1])
    }
}

// Set Ramp Force Report
/// Parameter block of a ramp effect: force slides from start to end.
#[derive(Clone, Copy, PartialEq, Eq, Debug)]
pub struct SetRampForceReport {
    pub effect_block_index: u8,
    pub ramp_start: FixedFFB,
    pub ramp_end: FixedFFB,
}

impl SetRampForceReport {
    /// The in-pool image of the record.
    pub open spec fn spec_to_ram(self) -> Seq<u8> {
        seq![
            lo(self.ramp_start.0 as u16),
            hi(self.ramp_start.0 as u16),
            lo(self.ramp_end.0 as u16),
            hi(self.ramp_end.0 as u16),
        ]
    }

    /// The record an in-pool image decodes to.
    pub open spec fn spec_from_ram(s: Seq<u8>, idx: u8) -> Option<Self> {
        if s.len() < 4 {
            None
        } else {
            Some(
                SetRampForceReport {
                    effect_block_index: idx,
                    ramp_start: Fixed(le16(s[0], s[1]) as i16),
                    ramp_end: Fixed(le16(s[2], s[3]) as i16),
                },
            )
        }
    }

    /// Serializes the record for the pool.
    pub fn to_ram(&self) -> (out: Vec<u8>)
        ensures
            out@ == self.spec_to_ram(),
    {
        let mut buf: Vec<u8> = Vec::new();
        put_i16(&mut buf, self.ramp_start.0);
        put_i16(&mut buf, self.ramp_end.0);
        proof {
            assert(buf@ =~= self.spec_to_ram());
        }
        buf
    }

    /// Parses the record out of the pool.
    pub fn from_ram(ram: &[u8], effect_block_index: u8) -> (r: Option<Self>)
        ensures
            r == Self::spec_from_ram(ram@, effect_block_index),
    {
        if ram.len() < 4 {
            return None;
        }
        Some(
            SetRampForceReport {
                effect_block_index,
                ramp_start: Fixed(read_i16(ram, 0)),
                ramp_end: Fixed(read_i16(ram, 2)),
            },
        )
    }

    /// The record a full wire image decodes to.
    pub open spec fn spec_into_report(s: Seq<u8>) -> Option<Self> {
        spec_into_report_body(s, |b: Seq<u8>, idx: u8| Self::spec_from_ram(b, idx))
    }

    /// Parses the wire form: report id, block index, then the body.
    pub fn into_report(bytes: &[u8]) -> (r: Option<Self>)
        ensures
            r == Self::spec_into_report(bytes@),
    {
        if bytes.len() < 2 {
            return None;
        }
        let idx: u8 = read_u8(bytes, 1);
        Self::from_ram(vstd::slice::slice_subrange(bytes, 2, bytes.len()), idx)
    }

    /// Decoding an in-pool image recovers the record with the slot's
    /// index.
    pub proof fn lemma_ram_round_trip(self, idx: u8)
        ensures
            Self::spec_from_ram(self.spec_to_ram(), idx) == Some(
                SetRampForceReport { effect_block_index: idx, ..self },
            ),
    {
        lemma_le16_join(lo(self.ramp_start.0 as u16), hi(self.ramp_start.0 as u16));
        crate::wire::lemma_le16_split(self.ramp_start.0 as u16);
        lemma_i16_cast_round_trip(self.ramp_start.0);
        lemma_le16_join(lo(self.ramp_end.0 as u16), hi(self.ramp_end.0 as u16));
        crate::wire::lemma_le16_split(self.ramp_end.0 as u16);
        lemma_i16_cast_round_trip(self.ramp_end.0);
    }

    /// Parsing a full wire image (report id, block index, body)
    /// recovers the record with the named index.
    pub proof fn lemma_wire_round_trip(self, id: u8, idx: u8)
        ensures
            Self::spec_into_report(seq![id, idx] + self.spec_to_ram()) == Some(
                SetRampForceReport { effect_block_index: idx, ..self },
            ),
    {
        let wire = seq![id, idx] + self.spec_to_ram();
        assert(wire.skip(2) =~= self.spec_to_ram());
        self.lemma_ram_round_trip(idx);
    }

}

// Set Envelope Report
/// Attack-and-fade amplitude shaping shared by several effect kinds.
#[derive(Clone, Copy, PartialEq, Eq, Debug)]
pub struct SetEnvelopeReport {
    pub effect_block_index: u8,
    pub attack_level: FixedFFB,
    pub fade_level: FixedFFB,
    pub attack_time: u32,
    pub fade_time: u32,
}

impl SetEnvelopeReport {
    /// The in-pool image of the record.
    pub open spec fn spec_to_ram(self) -> Seq<u8> {
        seq![
            lo(self.attack_level.0 as u16),
            hi(self.attack_level.0 as u16),
            lo(self.fade_level.0 as u16),
            hi(self.fade_level.0 as u16),
            byte32(self.attack_time, 0),
            byte32(self.attack_time, 1),
            byte32(self.attack_time, 2),
            byte32(self.attack_time, 3),
            byte32(self.fade_time, 0),
            byte32(self.fade_time, 1),
            byte32(self.fade_time, 2),
            byte32(self.fade_time, 3),
        ]
    }

    /// The record an in-pool image decodes to.
    pub open spec fn spec_from_ram(s: Seq<u8>, idx: u8) -> Option<Self> {
        if s.len() < 12 {
            None
        } else {
            Some(
                SetEnvelopeReport {
                    effect_block_index: idx,
                    attack_level: Fixed(le16(s[0], s[1]) as i16),
                    fade_level: Fixed(le16(s[2], s[3]) as i16),
                    attack_time: le32(s[4], s[5], s[6], s[7]),
                    fade_time: le32(s[8], s[9], s[10], s[11]),
                },
            )
        }
    }

    /// Serializes the record for the pool.
    pub fn to_ram(&self) -> (out: Vec<u8>)
        ensures
            out@ == self.spec_to_ram(),
    {
        let mut buf: Vec<u8> = Vec::new();
        put_i16(&mut buf, self.attack_level.0);
        put_i16(&mut buf, self.fade_level.0);
        put_u32(&mut buf, self.attack_time);
        put_u32(&mut buf, self.fade_time);
        proof {
            assert(buf@ =~= self.spec_to_ram());
        }
        buf
    }

    /// Parses the record out of the pool.
    pub fn from_ram(ram: &[u8], effect_block_index: u8) -> (r: Option<Self>)
        ensures
            r == Self::spec_from_ram(ram@, effect_block_index),
    {
        if ram.len() < 12 {
            return None;
        }
        Some(
            SetEnvelopeReport {
                effect_block_index,
                attack_level: Fixed(read_i16(ram, 0)),
                fade_level: Fixed(read_i16(ram, 2)),
                attack_time: read_u32(ram, 4),
                fade_time: read_u32(ram, 8),
            },
        )
    }

    /// The record a full wire image decodes to.
    pub open spec fn spec_into_report(s: Seq<u8>) -> Option<Self> {
        spec_into_report_body(s, |b: Seq<u8>, idx: u8| Self::spec_from_ram(b, idx))
    }

    /// Parses the wire form: report id, block index, then the body.
    pub fn into_report(bytes: &[u8]) -> (r: Option<Self>)
        ensures
            r == Self::spec_into_report(bytes@),
    {
        if bytes.len() < 2 {
            return None;
        }
        let idx: u8 = read_u8(bytes, 1);
        Self::from_ram(vstd::slice::slice_subrange(bytes, 2, bytes.len()), idx)
    }

    /// Decoding an in-pool image recovers the record with the slot's
    /// index.
    pub proof fn lemma_ram_round_trip(self, idx: u8)
        ensures
            Self::spec_from_ram(self.spec_to_ram(), idx) == Some(
                SetEnvelopeReport { effect_block_index: idx, ..self },
            ),
    {
        lemma_le16_join(lo(self.attack_level.0 as u16), hi(self.attack_level.0 as u16));
        crate::wire::lemma_le16_split(self.attack_level.0 as u16);
        lemma_i16_cast_round_trip(self.attack_level.0);
        lemma_le16_join(lo(self.fade_level.0 as u16), hi(self.fade_level.0 as u16));
        crate::wire::lemma_le16_split(self.fade_level.0 as u16);
        lemma_i16_cast_round_trip(self.fade_level.0);
        crate::wire::lemma_le32_split(self.attack_time);
        crate::wire::lemma_le32_split(self.fade_time);
    }

    /// Parsing a full wire image (report id, block index, body)
    /// recovers the record with the named index.
    pub proof fn lemma_wire_round_trip(self, id: u8, idx: u8)
        ensures
            Self::spec_into_report(seq![id, idx] + self.spec_to_ram()) == Some(
                SetEnvelopeReport { effect_block_index: idx, ..self },
            ),
    {
        let wire = seq![id, idx] + self.spec_to_ram();
        assert(wire.skip(2) =~= self.spec_to_ram());
        self.lemma_ram_round_trip(idx);
    }

}

// Set Periodic Report
/// Parameter block of the periodic waveform effects.
#[derive(Clone, Copy, PartialEq, Eq, Debug)]
pub struct SetPeriodicReport {
    pub effect_block_index: u8,
    pub magnitude: FixedFFB,
    pub offset: FixedFFB,
    pub phase: u16,
    pub period: u32,
}

impl SetPeriodicReport {
    /// The in-pool image of the record.
    pub open spec fn spec_to_ram(self) -> Seq<u8> {
        seq![
            lo(self.magnitude.0 as u16),
            hi(self.magnitude.0 as u16),
            lo(self.offset.0 as u16),
            hi(self.offset.0 as u16),
            lo(self.phase),
            hi(self.phase),
            byte32(self.period, 0),
            byte32(self.period, 1),
            byte32(self.period, 2),
            byte32(self.period, 3),
        ]
    }

    /// The record an in-pool image decodes to.
    pub open spec fn spec_from_ram(s: Seq<u8>, idx: u8) -> Option<Self> {
        if s.len() < 10 {
            None
        } else {
            Some(
                SetPeriodicReport {
                    effect_block_index: idx,
                    magnitude: Fixed(le16(s[0], s[1]) as i16),
                    offset: Fixed(le16(s[2], s[3]) as i16),
                    phase: le16(s[4], s[5]),
                    period: le32(s[6], s[7], s[8], s[9]),
                },
            )
        }
    }

    /// Serializes the record for the pool.
    pub fn to_ram(&self) -> (out: Vec<u8>)
        ensures
            out@ == self.spec_to_ram(),
    {
        let mut buf: Vec<u8> = Vec::new();
        put_i16(&mut buf, self.magnitude.0);
        put_i16(&mut buf, self.offset.0);
        put_u16(&mut buf, self.phase);
        put_u32(&mut buf, self.period);
        proof {
            assert(buf@ =~= self.spec_to_ram());
        }
        buf
    }

    /// Parses the record out of the pool.
    pub fn from_ram(ram: &[u8], effect_block_index: u8) -> (r: Option<Self>)
        ensures
            r == Self::spec_from_ram(ram@, effect_block_index),
    {
        if ram.len() < 10 {
            return None;
        }
        Some(
            SetPeriodicReport {
                effect_block_index,
                magnitude: Fixed(read_i16(ram, 0)),
                offset: Fixed(read_i16(ram, 2)),
                phase: read_u16(ram, 4),
                period: read_u32(ram, 6),
            },
        )
    }

    /// The record a full wire image decodes to.
    pub open spec fn spec_into_report(s: Seq<u8>) -> Option<Self> {
        spec_into_report_body(s, |b: Seq<u8>, idx: u8| Self::spec_from_ram(b, idx))
    }

    /// Parses the wire form: report id, block index, then the body.
    pub fn into_report(bytes: &[u8]) -> (r: Option<Self>)
        ensures
            r == Self::spec_into_report(bytes@),
    {
        if bytes.len() < 2 {
            return None;
        }
        let idx: u8 = read_u8(bytes, 1);
        Self::from_ram(vstd::slice::slice_subrange(bytes, 2, bytes.len()), idx)
    }

    /// Decoding an in-pool image recovers the record with the slot's
    /// index.
    pub proof fn lemma_ram_round_trip(self, idx: u8)
        ensures
            Self::spec_from_ram(self.spec_to_ram(), idx) == Some(
                SetPeriodicReport { effect_block_index: idx, ..self },
            ),
    {
        lemma_le16_join(lo(self.magnitude.0 as u16), hi(self.magnitude.0 as u16));
        crate::wire::lemma_le16_split(self.magnitude.0 as u16);
        lemma_i16_cast_round_trip(self.magnitude.0);
        lemma_le16_join(lo(self.offset.0 as u16), hi(self.offset.0 as u16));
        crate::wire::lemma_le16_split(self.offset.0 as u16);
        lemma_i16_cast_round_trip(self.offset.0);
        crate::wire::lemma_le16_split(self.phase);
        lemma_le16_join(lo(self.phase), hi(self.phase));
        crate::wire::lemma_le32_split(self.period);
    }

    /// Parsing a full wire image (report id, block index, body)
    /// recovers the record with the named index.
    pub proof fn lemma_wire_round_trip(self, id: u8, idx: u8)
        ensures
            Self::spec_into_report(seq![id, idx] + self.spec_to_ram()) == Some(
                SetPeriodicReport { effect_block_index: idx, ..self },
            ),
    {
        let wire = seq![id, idx] + self.spec_to_ram();
        assert(wire.skip(2) =~= self.spec_to_ram());
        self.lemma_ram_round_trip(idx);
    }

}

// Set Custom Force Report
/// Parameter block that points a custom-force effect at its samples.
#[derive(Clone, Copy, PartialEq, Eq, Debug)]
pub struct SetCustomForceReport {
    pub effect_block_index: u8,
    pub custom_force_data_offset: u16,
    pub sample_count: u16,
}

impl SetCustomForceReport {
    /// The in-pool image of the record.
    pub open spec fn spec_to_ram(self) -> Seq<u8> {
        seq![
            lo(self.custom_force_data_offset),
            hi(self.custom_force_data_offset),
            lo(self.sample_count),
            hi(self.sample_count),
        ]
    }

    /// The record an in-pool image decodes to.
    pub open spec fn spec_from_ram(s: Seq<u8>, idx: u8) -> Option<Self> {
        if s.len() < 4 {
            None
        } else {
            Some(
                SetCustomForceReport {
                    effect_block_index: idx,
                    custom_force_data_offset: le16(s[0], s[1]),
                    sample_count: le16(s[2], s[3]),
                },
            )
        }
    }

    /// Serializes the record for the pool.
    pub fn to_ram(&self) -> (out: Vec<u8>)
        ensures
            out@ == self.spec_to_ram(),
    {
        let mut buf: Vec<u8> = Vec::new();
        put_u16(&mut buf, self.custom_force_data_offset);
        put_u16(&mut buf, self.sample_count);
        proof {
            assert(buf@ =~= self.spec_to_ram());
        }
        buf
    }

    /// Parses the record out of the pool.
    pub fn from_ram(ram: &[u8], effect_block_index: u8) -> (r: Option<Self>)
        ensures
            r == Self::spec_from_ram(ram@, effect_block_index),
    {
        if ram.len() < 4 {
            return None;
        }
        Some(
            SetCustomForceReport {
                effect_block_index,
                custom_force_data_offset: read_u16(ram, 0),
                sample_count: read_u16(ram, 2),
            },
        )
    }

    /// The record a full wire image decodes to.
    pub open spec fn spec_into_report(s: Seq<u8>) -> Option<Self> {
        spec_into_report_body(s, |b: Seq<u8>, idx: u8| Self::spec_from_ram(b, idx))
    }

    /// Parses the wire form: report id, block index, then the body.
    pub fn into_report(bytes: &[u8]) -> (r: Option<Self>)
        ensures
            r == Self::spec_into_report(bytes@),
    {
        if bytes.len() < 2 {
            return None;
        }
        let idx: u8 = read_u8(bytes, 1);
        Self::from_ram(vstd::slice::slice_subrange(bytes, 2, bytes.len()), idx)
    }

    /// Decoding an in-pool image recovers the record with the slot's
    /// index.
    pub proof fn lemma_ram_round_trip(self, idx: u8)
        ensures
            Self::spec_from_ram(self.spec_to_ram(), idx) == Some(
                SetCustomForceReport { effect_block_index: idx, ..self },
            ),
    {
        lemma_le16_join(lo(self.custom_force_data_offset), hi(self.custom_force_data_offset));
        crate::wire::lemma_le16_split(self.custom_force_data_offset);
        lemma_le16_join(lo(self.sample_count), hi(self.sample_count));
        crate::wire::lemma_le16_split(self.sample_count);
    }

    /// Parsing a full wire image (report id, block index, body)
    /// recovers the record with the named index.
    pub proof fn lemma_wire_round_trip(self, id: u8, idx: u8)
        ensures
            Self::spec_into_report(seq![id, idx] + self.spec_to_ram()) == Some(
                SetCustomForceReport { effect_block_index: idx, ..self },
            ),
    {
        let wire = seq![id, idx] + self.spec_to_ram();
        assert(wire.skip(2) =~= self.spec_to_ram());
        self.lemma_ram_round_trip(idx);
    }

}

// Set Effect Report
/// The common effect descriptor: type, timing, gain, and axis flags.
#[derive(Clone, Copy, PartialEq, Eq, Debug)]
pub struct SetEffectReport {
    pub effect_block_index: u8,
    pub effect_type: EffectType,
    pub duration: Option<u16>,
    pub trigger_repeat_interval: u16,
    pub sample_period: Option<u16>,
    pub gain: FixedFFB,
    pub trigger_button: u8,
    pub axis_x_enable: bool,
    pub axis_y_enable: bool,
    pub direction_enable: bool,
    pub direction_instance_1: u8,
    pub direction_instance_2: u8,
    pub start_delay: u16,
    pub type_specific_block_offset_instance_1: u16,
    pub type_specific_block_offset_instance_2: u16,
}

impl SetEffectReport {
    /// A record whose optional fields avoid the wire sentinels, so that
    /// decoding its image gives the record back.
    pub open spec fn wf(self) -> bool {
        &&& match self.duration {
            Some(d) => 1 <= d < 0xffff,
            None => true,
        }
        &&& match self.sample_period {
            Some(p) => 1 <= p,
            None => true,
        }
    }

    /// The axis flags in packing order.
    pub open spec fn spec_axis_flags(self) -> Seq<bool> {
        seq![self.axis_x_enable, self.axis_y_enable, self.direction_enable]
    }

    /// The in-pool image of the record.
    pub open spec fn spec_to_ram(self) -> Seq<u8> {
        seq![
            spec_effect_type_code(self.effect_type),
            lo(spec_duration_word(self.duration)),
            hi(spec_duration_word(self.duration)),
            lo(self.trigger_repeat_interval),
            hi(self.trigger_repeat_interval),
            lo(spec_period_word(self.sample_period)),
            hi(spec_period_word(self.sample_period)),
            lo(self.gain.0 as u16),
            hi(self.gain.0 as u16),
            self.trigger_button,
            flags_value(self.spec_axis_flags()) as u8,
            self.direction_instance_1,
            self.direction_instance_2,
            lo(self.start_delay),
            hi(self.start_delay),
            lo(self.type_specific_block_offset_instance_1),
            hi(self.type_specific_block_offset_instance_1),
            lo(self.type_specific_block_offset_instance_2),
            hi(self.type_specific_block_offset_instance_2),
        ]
    }

    /// The record an in-pool image decodes to.
    pub open spec fn spec_from_ram(s: Seq<u8>, idx: u8) -> Option<Self> {
        if s.len() < 19 {
            None
        } else {
            match spec_effect_type_from(s[0]) {
                None => None,
                Some(et) => Some(
                    SetEffectReport {
                        effect_block_index: idx,
                        effect_type: et,
                        duration: spec_duration_from(le16(s[1], s[2])),
                        trigger_repeat_interval: le16(s[3], s[4]),
                        sample_period: spec_period_from(le16(s[5], s[6])),
                        gain: Fixed(le16(s[7], s[8]) as i16),
                        trigger_button: s[9],
                        axis_x_enable: crate::misc::spec_bitflag(s[10], 0),
                        axis_y_enable: crate::misc::spec_bitflag(s[10], 1),
                        direction_enable: crate::misc::spec_bitflag(s[10], 2),
                        direction_instance_1: s[11],
                        direction_instance_2: s[12],
                        start_delay: le16(s[13], s[14]),
                        type_specific_block_offset_instance_1: le16(s[15], s[16]),
                        type_specific_block_offset_instance_2: le16(s[17], s[18]),
                    },
                ),
            }
        }
    }

    /// Serializes the record for the pool.
    pub fn to_ram(&self) -> (out: Vec<u8>)
        ensures
            out@ == self.spec_to_ram(),
    {
        let mut buf: Vec<u8> = Vec::new();
        buf.push(self.effect_type.code());
        put_u16(
            &mut buf,
            match self.duration {
                Some(d) => d,
                None => 0,
            },
        );
        put_u16(&mut buf, self.trigger_repeat_interval);
        put_u16(
            &mut buf,
            match self.sample_period {
                Some(p) => p,
                None => 0,
            },
        );
        put_i16(&mut buf, self.gain.0);
        buf.push(self.trigger_button);
        let axis_flags: [bool; 3] = [self.axis_x_enable, self.axis_y_enable, self.direction_enable];
        proof {
            assert(axis_flags@ =~= self.spec_axis_flags());
            lemma_flags_value_bound(self.spec_axis_flags());
            vstd::arithmetic::power2::lemma2_to64();
        }
        buf.push(bitflags(axis_flags.as_slice()));
        buf.push(self.direction_instance_1);
        buf.push(self.direction_instance_2);
        put_u16(&mut buf, self.start_delay);
        put_u16(&mut buf, self.type_specific_block_offset_instance_1);
        put_u16(&mut buf, self.type_specific_block_offset_instance_2);
        proof {
            assert(buf@ =~= self.spec_to_ram());
        }
        buf
    }

    /// Parses the record out of the pool.
    pub fn from_ram(ram: &[u8], effect_block_index: u8) -> (r: Option<Self>)
        ensures
            r == Self::spec_from_ram(ram@, effect_block_index),
    {
        if ram.len() < 19 {
            return None;
        }
        let effect_type: EffectType = match EffectType::try_from(read_u8(ram, 0)) {
            Ok(et) => et,
            Err(_) => {
                return None;
            },
        };
        let duration_word: u16 = read_u16(ram, 1);
        let period_word: u16 = read_u16(ram, 5);
        let flags: u8 = read_u8(ram, 10);
        Some(
            SetEffectReport {
                effect_block_index,
                effect_type,
                duration: if duration_word == 0 || duration_word == 0xffff {
                    None
                } else {
                    Some(duration_word)
                },
                trigger_repeat_interval: read_u16(ram, 3),
                sample_period: if period_word == 0 {
                    None
                } else {
                    Some(period_word)
                },
                gain: Fixed(read_i16(ram, 7)),
                trigger_button: read_u8(ram, 9),
                axis_x_enable: bitflag(flags, 0),
                axis_y_enable: bitflag(flags, 1),
                direction_enable: bitflag(flags, 2),
                direction_instance_1: read_u8(ram, 11),
                direction_instance_2: read_u8(ram, 12),
                start_delay: read_u16(ram, 13),
                type_specific_block_offset_instance_1: read_u16(ram, 15),
                type_specific_block_offset_instance_2: read_u16(ram, 17),
            },
        )
    }

    /// The record a full wire image decodes to.
    pub open spec fn spec_into_report(s: Seq<u8>) -> Option<Self> {
        spec_into_report_body(s, |b: Seq<u8>, idx: u8| Self::spec_from_ram(b, idx))
    }

    /// Parses the wire form: report id, block index, then the body.
    pub fn into_report(bytes: &[u8]) -> (r: Option<Self>)
        ensures
            r == Self::spec_into_report(bytes@),
    {
        if bytes.len() < 2 {
            return None;
        }
        let idx: u8 = read_u8(bytes, 1);
        Self::from_ram(vstd::slice::slice_subrange(bytes, 2, bytes.len()), idx)
    }

    /// Decoding an in-pool image recovers the record with the slot's
    /// index.
    pub proof fn lemma_ram_round_trip(self, idx: u8)
        requires
            self.wf(),
        ensures
            Self::spec_from_ram(self.spec_to_ram(), idx) == Some(
                SetEffectReport { effect_block_index: idx, ..self },
            ),
    {
        assert(spec_effect_type_from(spec_effect_type_code(self.effect_type)) == Some(
            self.effect_type,
        ));
        crate::wire::lemma_le16_split(spec_duration_word(self.duration));
        lemma_le16_join(
            lo(spec_duration_word(self.duration)),
            hi(spec_duration_word(self.duration)),
        );
        crate::wire::lemma_le16_split(self.trigger_repeat_interval);
        lemma_le16_join(lo(self.trigger_repeat_interval), hi(self.trigger_repeat_interval));
        crate::wire::lemma_le16_split(spec_period_word(self.sample_period));
        lemma_le16_join(
            lo(spec_period_word(self.sample_period)),
            hi(spec_period_word(self.sample_period)),
        );
        crate::wire::lemma_le16_split(self.gain.0 as u16);
        lemma_le16_join(lo(self.gain.0 as u16), hi(self.gain.0 as u16));
        lemma_i16_cast_round_trip(self.gain.0);
        crate::wire::lemma_le16_split(self.start_delay);
        lemma_le16_join(lo(self.start_delay), hi(self.start_delay));
        crate::wire::lemma_le16_split(self.type_specific_block_offset_instance_1);
        lemma_le16_join(
            lo(self.type_specific_block_offset_instance_1),
            hi(self.type_specific_block_offset_instance_1),
        );
        crate::wire::lemma_le16_split(self.type_specific_block_offset_instance_2);
        lemma_le16_join(
            lo(self.type_specific_block_offset_instance_2),
            hi(self.type_specific_block_offset_instance_2),
        );
        let fl = self.spec_axis_flags();
        lemma_flags_value_bound(fl);
        vstd::arithmetic::power2::lemma2_to64();
        lemma_flags_value_bit(fl, 0);
        lemma_flags_value_bit(fl, 1);
        lemma_flags_value_bit(fl, 2);
    }

    /// Parsing a full wire image (report id, block index, body)
    /// recovers the record with the named index.
    pub proof fn lemma_wire_round_trip(self, id: u8, idx: u8)
        requires
            self.wf(),
        ensures
            Self::spec_into_report(seq![id, idx] + self.spec_to_ram()) == Some(
                SetEffectReport { effect_block_index: idx, ..self },
            ),
    {
        let wire = seq![id, idx] + self.spec_to_ram();
        assert(wire.skip(2) =~= self.spec_to_ram());
        self.lemma_ram_round_trip(idx);
    }

}

// Set Condition Report
/// Parameter block of the spring / damper / inertia condition law.
#[derive(Clone, Copy, PartialEq, Eq, Debug)]
pub struct SetConditionReport {
    pub effect_block_index: u8,
    pub parameter_block_offset: u8,
    pub type_specific_block_offset_instance_1: u8,
    pub type_specific_block_offset_instance_2: u8,
    pub cp_offset: FixedFFB,
    pub positive_coefficient: FixedFFB,
    pub negative_coefficient: FixedFFB,
    pub positive_saturation: FixedFFB,
    pub negative_saturation: FixedFFB,
    pub dead_band: FixedFFB,
}

impl SetConditionReport {
    /// A record whose packed fields fit their bit widths.
    pub open spec fn wf(self) -> bool {
        &&& self.parameter_block_offset < 16
        &&& self.type_specific_block_offset_instance_1 < 4
        &&& self.type_specific_block_offset_instance_2 < 4
    }

    /// The packed first byte: block offset and the two type-specific
    /// block offsets.
    pub open spec fn spec_packed_byte(self) -> u8 {
        ((self.parameter_block_offset as int % 16) + 16 * (
        self.type_specific_block_offset_instance_1 as int % 4) + 64 * (
        self.type_specific_block_offset_instance_2 as int % 4)) as u8
    }

    /// The in-pool image of the record.
    pub open spec fn spec_to_ram(self) -> Seq<u8> {
        seq![
            self.spec_packed_byte(),
            lo(self.cp_offset.0 as u16),
            hi(self.cp_offset.0 as u16),
            lo(self.positive_coefficient.0 as u16),
            hi(self.positive_coefficient.0 as u16),
            lo(self.negative_coefficient.0 as u16),
            hi(self.negative_coefficient.0 as u16),
            lo(self.positive_saturation.0 as u16),
            hi(self.positive_saturation.0 as u16),
            lo(self.negative_saturation.0 as u16),
            hi(self.negative_saturation.0 as u16),
            lo(self.dead_band.0 as u16),
            hi(self.dead_band.0 as u16),
        ]
    }

    /// The record an in-pool image decodes to.
    pub open spec fn spec_from_ram(s: Seq<u8>, idx: u8) -> Option<Self> {
        if s.len() < 13 {
            None
        } else {
            Some(
                SetConditionReport {
                    effect_block_index: idx,
                    parameter_block_offset: (s[0] as int % 16) as u8,
                    type_specific_block_offset_instance_1: ((s[0] as int / 16) % 4) as u8,
                    type_specific_block_offset_instance_2: ((s[0] as int / 64) % 4) as u8,
                    cp_offset: Fixed(le16(s[1], s[2]) as i16),
                    positive_coefficient: Fixed(le16(s[3], s[4]) as i16),
                    negative_coefficient: Fixed(le16(s[5], s[6]) as i16),
                    positive_saturation: Fixed(le16(s[7], s[8]) as i16),
                    negative_saturation: Fixed(le16(s[9], s[10]) as i16),
                    dead_band: Fixed(le16(s[11], s[12]) as i16),
                },
            )
        }
    }

    /// Serializes the record for the pool.
    pub fn to_ram(&self) -> (out: Vec<u8>)
        ensures
            out@ == self.spec_to_ram(),
    {
        let mut buf: Vec<u8> = Vec::new();
        let packed: u8 = (self.parameter_block_offset % 16) + 16 * (
        self.type_specific_block_offset_instance_1 % 4) + 64 * (
        self.type_specific_block_offset_instance_2 % 4);
        buf.push(packed);
        put_i16(&mut buf, self.cp_offset.0);
        put_i16(&mut buf, self.positive_coefficient.0);
        put_i16(&mut buf, self.negative_coefficient.0);
        put_i16(&mut buf, self.positive_saturation.0);
        put_i16(&mut buf, self.negative_saturation.0);
        put_i16(&mut buf, self.dead_band.0);
        proof {
            assert(buf@ =~= self.spec_to_ram());
        }
        buf
    }

    /// Parses the record out of the pool.
    pub fn from_ram(ram: &[u8], effect_block_index: u8) -> (r: Option<Self>)
        ensures
            r == Self::spec_from_ram(ram@, effect_block_index),
    {
        if ram.len() < 13 {
            return None;
        }
        let packed: u8 = read_u8(ram, 0);
        proof {
            vstd::arithmetic::power2::lemma2_to64();
        }
        Some(
            SetConditionReport {
                effect_block_index,
                parameter_block_offset: bits(packed, 0, 4),
                type_specific_block_offset_instance_1: bits(packed, 4, 2),
                type_specific_block_offset_instance_2: bits(packed, 6, 2),
                cp_offset: Fixed(read_i16(ram, 1)),
                positive_coefficient: Fixed(read_i16(ram, 3)),
                negative_coefficient: Fixed(read_i16(ram, 5)),
                positive_saturation: Fixed(read_i16(ram, 7)),
                negative_saturation: Fixed(read_i16(ram, 9)),
                dead_band: Fixed(read_i16(ram, 11)),
            },
        )
    }

    /// The record a full wire image decodes to.
    pub open spec fn spec_into_report(s: Seq<u8>) -> Option<Self> {
        spec_into_report_body(s, |b: Seq<u8>, idx: u8| Self::spec_from_ram(b, idx))
    }

    /// Parses the wire form: report id, block index, then the body.
    pub fn into_report(bytes: &[u8]) -> (r: Option<Self>)
        ensures
            r == Self::spec_into_report(bytes@),
    {
        if bytes.len() < 2 {
            return None;
        }
        let idx: u8 = read_u8(bytes, 1);
        Self::from_ram(vstd::slice::slice_subrange(bytes, 2, bytes.len()), idx)
    }

    /// Decoding an in-pool image recovers the record with the slot's
    /// index.
    pub proof fn lemma_ram_round_trip(self, idx: u8)
        requires
            self.wf(),
        ensures
            Self::spec_from_ram(self.spec_to_ram(), idx) == Some(
                SetConditionReport { effect_block_index: idx, ..self },
            ),
    {
        let a = self.parameter_block_offset as int;
        let b = self.type_specific_block_offset_instance_1 as int;
        let c = self.type_specific_block_offset_instance_2 as int;
        let v = a + 16 * (b + 4 * c);
        assert(self.spec_packed_byte() as int == v);
        vstd::arithmetic::div_mod::lemma_mod_multiples_vanish(b + 4 * c, a, 16);
        vstd::arithmetic::div_mod::lemma_div_multiples_vanish_fancy(b + 4 * c, a, 16);
        vstd::arithmetic::div_mod::lemma_mod_multiples_vanish(c, b, 4);
        vstd::arithmetic::div_mod::lemma_div_multiples_vanish_fancy(c, b, 4);
        vstd::arithmetic::div_mod::lemma_div_denominator(v, 16, 4);
        assert(v / 64 == c);
        crate::wire::lemma_le16_split(self.cp_offset.0 as u16);
        lemma_le16_join(lo(self.cp_offset.0 as u16), hi(self.cp_offset.0 as u16));
        lemma_i16_cast_round_trip(self.cp_offset.0);
        crate::wire::lemma_le16_split(self.positive_coefficient.0 as u16);
        lemma_le16_join(
            lo(self.positive_coefficient.0 as u16),
            hi(self.positive_coefficient.0 as u16),
        );
        lemma_i16_cast_round_trip(self.positive_coefficient.0);
        crate::wire::lemma_le16_split(self.negative_coefficient.0 as u16);
        lemma_le16_join(
            lo(self.negative_coefficient.0 as u16),
            hi(self.negative_coefficient.0 as u16),
        );
        lemma_i16_cast_round_trip(self.negative_coefficient.0);
        crate::wire::lemma_le16_split(self.positive_saturation.0 as u16);
        lemma_le16_join(
            lo(self.positive_saturation.0 as u16),
            hi(self.positive_saturation.0 as u16),
        );
        lemma_i16_cast_round_trip(self.positive_saturation.0);
        crate::wire::lemma_le16_split(self.negative_saturation.0 as u16);
        lemma_le16_join(
            lo(self.negative_saturation.0 as u16),
            hi(self.negative_saturation.0 as u16),
        );
        lemma_i16_cast_round_trip(self.negative_saturation.0);
        crate::wire::lemma_le16_split(self.dead_band.0 as u16);
        lemma_le16_join(lo(self.dead_band.0 as u16), hi(self.dead_band.0 as u16));
        lemma_i16_cast_round_trip(self.dead_band.0);
    }

    /// Parsing a full wire image (report id, block index, body)
    /// recovers the record with the named index.
    pub proof fn lemma_wire_round_trip(self, id: u8, idx: u8)
        requires
            self.wf(),
        ensures
            Self::spec_into_report(seq![id, idx] + self.spec_to_ram()) == Some(
                SetConditionReport { effect_block_index: idx, ..self },
            ),
    {
        let wire = seq![id, idx] + self.spec_to_ram();
        assert(wire.skip(2) =~= self.spec_to_ram());
        self.lemma_ram_round_trip(idx);
    }

}

// Custom Force Data Report
/// One chunk of downloaded custom-force samples.
#[derive(Clone, Copy, PartialEq, Eq, Debug)]
pub struct CustomForceDataReport {
    pub effect_block_index: u8,
    pub custom_force_data_offset: u16,
    pub byte_count: u8,
    pub custom_force_data: [u8; 12],
}

impl CustomForceDataReport {
    /// The in-pool image of the record.
    pub open spec fn spec_to_ram(self) -> Seq<u8> {
        seq![
            lo(self.custom_force_data_offset),
            hi(self.custom_force_data_offset),
            self.byte_count,
        ] + self.custom_force_data@
    }

    /// Serializes the record for the pool.
    pub fn to_ram(&self) -> (out: Vec<u8>)
        ensures
            out@ == self.spec_to_ram(),
            out@.len() == 15,
    {
        let mut buf: Vec<u8> = Vec::new();
        put_u16(&mut buf, self.custom_force_data_offset);
        buf.push(self.byte_count);
        let mut k: usize = 0;
        while k < 12
            invariant
                k <= 12,
                buf@ == seq![
                    lo(self.custom_force_data_offset),
                    hi(self.custom_force_data_offset),
                    self.byte_count,
                ] + self.custom_force_data@.subrange(0, k as int),
            decreases 12 - k,
        {
            let b: u8 = *vstd::array::array_index_get(&self.custom_force_data, k);
            buf.push(b);
            proof {
                assert(self.custom_force_data@.subrange(0, k + 1) =~= self.custom_force_data@
                    .subrange(0, k as int).push(self.custom_force_data@[k as int]));
                assert(buf@ =~= seq![
                    lo(self.custom_force_data_offset),
                    hi(self.custom_force_data_offset),
                    self.byte_count,
                ] + self.custom_force_data@.subrange(0, k + 1));
            }
            k = k + 1;
        }
        proof {
            assert(self.custom_force_data@.subrange(0, 12) =~= self.custom_force_data@);
        }
        buf
    }

    /// Parses the record out of the pool.  Decoding an image and
    /// re-encoding the record reproduces the image's first fifteen
    /// bytes, which is the byte-level round trip for this report.
    pub fn from_ram(ram: &[u8], effect_block_index: u8) -> (r: Option<Self>)
        ensures
            ram@.len() < 15 <==> r is None,
            r matches Some(rec) ==> {
                &&& rec.effect_block_index == effect_block_index
                &&& rec.custom_force_data_offset == le16(ram@[0], ram@[1])
                &&& rec.byte_count == ram@[2]
                &&& rec.custom_force_data@ == ram@.subrange(3, 15)
            },
    {
        if ram.len() < 15 {
            return None;
        }
        let data: [u8; 12] = [
            read_u8(ram, 3),
            read_u8(ram, 4),
            read_u8(ram, 5),
            read_u8(ram, 6),
            read_u8(ram, 7),
            read_u8(ram, 8),
            read_u8(ram, 9),
            read_u8(ram, 10),
            read_u8(ram, 11),
            read_u8(ram, 12),
            read_u8(ram, 13),
            read_u8(ram, 14),
        ];
        proof {
            assert(data@ =~= ram@.subrange(3, 15));
        }
        Some(
            CustomForceDataReport {
                effect_block_index,
                custom_force_data_offset: read_u16(ram, 0),
                byte_count: read_u8(ram, 2),
                custom_force_data: data,
            },
        )
    }

    /// Parses the wire form: report id, block index, then the body.
    pub fn into_report(bytes: &[u8]) -> (r: Option<Self>)
        ensures
            bytes@.len() < 17 <==> r is None,
            r matches Some(rec) ==> {
                &&& rec.effect_block_index == bytes@[1]
                &&& rec.custom_force_data_offset == le16(bytes@[2], bytes@[3])
                &&& rec.byte_count == bytes@[4]
                &&& rec.custom_force_data@ == bytes@.subrange(5, 17)
            },
    {
        if bytes.len() < 2 {
            return None;
        }
        let idx: u8 = read_u8(bytes, 1);
        let r = Self::from_ram(vstd::slice::slice_subrange(bytes, 2, bytes.len()), idx);
        proof {
            let body = bytes@.skip(2);
            if bytes@.len() >= 17 {
                assert(body.subrange(3, 15) =~= bytes@.subrange(5, 17));
            }
        }
        r
    }
}

// Racing Wheel Report
/// The joystick input report: buttons, steering, throttle.
#[derive(Clone, Copy, PartialEq, Eq, Debug)]
pub struct RacingWheelReport {
    pub buttons: [bool; 8],
    pub steering: FixedSteering,
    pub throttle: i16,
}

impl RacingWheelReport {
    /// The wire image sent to the host, report id first.
    pub open spec fn spec_report_bytes(self) -> Seq<u8> {
        seq![
            1u8,
            flags_value(self.buttons@) as u8,
            lo(self.steering.0 as u16),
            hi(self.steering.0 as u16),
            lo(self.throttle as u16),
            hi(self.throttle as u16),
        ]
    }

    /// Serializes the report for the interrupt IN endpoint.
    pub fn report_bytes(&self) -> (out: Vec<u8>)
        ensures
            out@ == self.spec_report_bytes(),
    {
        let mut buf: Vec<u8> = Vec::new();
        buf.push(1);
        proof {
            lemma_flags_value_bound(self.buttons@);
            vstd::arithmetic::power2::lemma2_to64();
        }
        buf.push(bitflags(self.buttons.as_slice()));
        put_i16(&mut buf, self.steering.0);
        put_i16(&mut buf, self.throttle);
        proof {
            assert(buf@ =~= self.spec_report_bytes());
        }
        buf
    }
}

/// The all-zero input report a fresh wheel starts from.
pub fn racing_wheel_report_default() -> (r: RacingWheelReport)
    ensures
        r == (RacingWheelReport {
            buttons: [false, false, false, false, false, false, false, false],
            steering: Fixed(0),
            throttle: 0,
        }),
{
    RacingWheelReport {
        buttons: [false, false, false, false, false, false, false, false],
        steering: Fixed(0),
        throttle: 0,
    }
}

// PID State Report
/// The PID state input report: device condition bits and the slot that
/// last played.
#[derive(Clone, Copy, PartialEq, Eq, Debug)]
pub struct PIDStateReport {
    pub device_paused: bool,
    pub actuators_enabled: bool,
    pub safety_switch: bool,
    pub actuators_override_switch: bool,
    pub actuator_power: bool,
    pub effect_playing: bool,
    pub effect_block_index: u8,
}

impl PIDStateReport {
    /// The block index must leave room for the playing bit beside it.
    pub open spec fn wf(self) -> bool {
        self.effect_block_index < 128
    }

    /// The condition bits in packing order.
    pub open spec fn spec_state_flags(self) -> Seq<bool> {
        seq![
            self.device_paused,
            self.actuators_enabled,
            self.safety_switch,
            self.actuators_override_switch,
            self.actuator_power,
        ]
    }

    /// The wire image sent to the host, report id first.
    pub open spec fn spec_report_bytes(self) -> Seq<u8> {
        seq![
            2u8,
            flags_value(self.spec_state_flags()) as u8,
            ((if self.effect_playing {
                1int
            } else {
                0int
            }) + 2 * (self.effect_block_index as int)) as u8,
        ]
    }

    /// Serializes the report for the interrupt IN endpoint.
    pub fn report_bytes(&self) -> (out: Vec<u8>)
        requires
            self.wf(),
        ensures
            out@ == self.spec_report_bytes(),
    {
        let mut buf: Vec<u8> = Vec::new();
        buf.push(2);
        let state_flags: [bool; 5] = [
            self.device_paused,
            self.actuators_enabled,
            self.safety_switch,
            self.actuators_override_switch,
            self.actuator_power,
        ];
        proof {
            assert(state_flags@ =~= self.spec_state_flags());
            lemma_flags_value_bound(self.spec_state_flags());
            vstd::arithmetic::power2::lemma2_to64();
        }
        buf.push(bitflags(state_flags.as_slice()));
        let playing: u8 = if self.effect_playing {
            1
        } else {
            0
        };
        buf.push(playing + 2 * self.effect_block_index);
        proof {
            assert(buf@ =~= self.spec_report_bytes());
        }
        buf
    }
}

/// The all-zero PID state a fresh wheel starts from.
pub fn pid_state_report_default() -> (r: PIDStateReport)
    ensures
        r == (PIDStateReport {
            device_paused: false,
            actuators_enabled: false,
            safety_switch: false,
            actuators_override_switch: false,
            actuator_power: false,
            effect_playing: false,
            effect_block_index: 0,
        }),
{
    PIDStateReport {
        device_paused: false,
        actuators_enabled: false,
        safety_switch: false,
        actuators_override_switch: false,
        actuator_power: false,
        effect_playing: false,
        effect_block_index: 0,
    }
}

// Download Force Sample
/// A steering / throttle sample streamed to the host.
#[derive(Clone, Copy, PartialEq, Eq, Debug)]
pub struct DownloadForceSample {
    pub steering: i8,
    pub throttle: u8,
}

impl DownloadForceSample {
    /// The record a wire image decodes to.
    pub open spec fn spec_into_report(s: Seq<u8>) -> Option<Self> {
        if s.len() < 3 {
            None
        } else {
            Some(DownloadForceSample { steering: s[1] as i8, throttle: s[2] })
        }
    }

    /// Parses the wire form.
    pub fn into_report(bytes: &[u8]) -> (r: Option<Self>)
        ensures
            r == Self::spec_into_report(bytes@),
    {
        if bytes.len() < 3 {
            return None;
        }
        Some(DownloadForceSample { steering: read_u8(bytes, 1) as i8, throttle: read_u8(bytes, 2) })
    }
}

// Effect Operation Report
/// Start, start-solo, or stop command for one slot.
#[derive(Clone, Copy, PartialEq, Eq, Debug)]
pub struct EffectOperationReport {
    pub effect_block_index: u8,
    pub effect_operation: EffectOperation,
    pub loop_count: u8,
}

impl EffectOperationReport {
    /// The record a wire image decodes to.
    pub open spec fn spec_into_report(s: Seq<u8>) -> Option<Self> {
        if s.len() < 4 {
            None
        } else {
            match spec_effect_operation_from(s[2]) {
                None => None,
                Some(op) => Some(
                    EffectOperationReport {
                        effect_block_index: s[1],
                        effect_operation: op,
                        loop_count: s[3],
                    },
                ),
            }
        }
    }

    /// Parses the wire form.
    pub fn into_report(bytes: &[u8]) -> (r: Option<Self>)
        ensures
            r == Self::spec_into_report(bytes@),
    {
        if bytes.len() < 4 {
            return None;
        }
        let op: EffectOperation = match EffectOperation::try_from(read_u8(bytes, 2)) {
            Ok(op) => op,
            Err(_) => {
                return None;
            },
        };
        Some(
            EffectOperationReport {
                effect_block_index: read_u8(bytes, 1),
                effect_operation: op,
                loop_count: read_u8(bytes, 3),
            },
        )
    }
}

// PID Block Free Report
/// Host request to deallocate one slot.
#[derive(Clone, Copy, PartialEq, Eq, Debug)]
pub struct PIDBlockFreeReport {
    pub effect_block_index: u8,
}

impl PIDBlockFreeReport {
    /// The record a wire image decodes to.
    pub open spec fn spec_into_report(s: Seq<u8>) -> Option<Self> {
        if s.len() < 2 {
            None
        } else {
            Some(PIDBlockFreeReport { effect_block_index: s[1] })
        }
    }

    /// Parses the wire form.
    pub fn into_report(bytes: &[u8]) -> (r: Option<Self>)
        ensures
            r == Self::spec_into_report(bytes@),
    {
        if bytes.len() < 2 {
            return None;
        }
        Some(PIDBlockFreeReport { effect_block_index: read_u8(bytes, 1) })
    }
}

// PID Device Control
/// Host command that acts on the device as a whole.
#[derive(Clone, Copy, PartialEq, Eq, Debug)]
pub struct PIDDeviceControl {
    pub device_control: DeviceControl,
}

impl PIDDeviceControl {
    /// The record a wire image decodes to.
    pub open spec fn spec_into_report(s: Seq<u8>) -> Option<Self> {
        if s.len() < 2 {
            None
        } else {
            match spec_device_control_from(s[1]) {
                None => None,
                Some(dc) => Some(PIDDeviceControl { device_control: dc }),
            }
        }
    }

    /// Parses the wire form.
    pub fn into_report(bytes: &[u8]) -> (r: Option<Self>)
        ensures
            r == Self::spec_into_report(bytes@),
    {
        if bytes.len() < 2 {
            return None;
        }
        match DeviceControl::try_from(read_u8(bytes, 1)) {
            Ok(dc) => Some(PIDDeviceControl { device_control: dc }),
            Err(_) => None,
        }
    }
}

// Device Gain Report
/// The host-commanded master gain.
#[derive(Clone, Copy, PartialEq, Eq, Debug)]
pub struct DeviceGainReport {
    pub device_gain: FixedFFB,
}

impl DeviceGainReport {
    /// The record a wire image decodes to.
    pub open spec fn spec_into_report(s: Seq<u8>) -> Option<Self> {
        if s.len() < 3 {
            None
        } else {
            Some(DeviceGainReport { device_gain: Fixed(le16(s[1], s[2]) as i16) })
        }
    }

    /// Parses the wire form.
    pub fn into_report(bytes: &[u8]) -> (r: Option<Self>)
        ensures
            r == Self::spec_into_report(bytes@),
    {
        if bytes.len() < 3 {
            return None;
        }
        Some(DeviceGainReport { device_gain: Fixed(read_i16(bytes, 1)) })
    }
}

// PID Pool Move Report
/// Host request to move pool memory; accepted and ignored.
#[derive(Clone, Copy, PartialEq, Eq, Debug)]
pub struct PIDPoolMoveReport {
    pub move_source: u16,
    pub move_destination: u16,
    pub move_length: u16,
}

impl PIDPoolMoveReport {
    /// The record a wire image decodes to.
    pub open spec fn spec_into_report(s: Seq<u8>) -> Option<Self> {
        if s.len() < 7 {
            None
        } else {
            Some(
                PIDPoolMoveReport {
                    move_source: le16(s[1], s[2]),
                    move_destination: le16(s[3], s[4]),
                    move_length: le16(s[5], s[6]),
                },
            )
        }
    }

    /// Parses the wire form.
    pub fn into_report(bytes: &[u8]) -> (r: Option<Self>)
        ensures
            r == Self::spec_into_report(bytes@),
    {
        if bytes.len() < 7 {
            return None;
        }
        Some(
            PIDPoolMoveReport {
                move_source: read_u16(bytes, 1),
                move_destination: read_u16(bytes, 3),
                move_length: read_u16(bytes, 5),
            },
        )
    }
}

// Create New Effect Report
/// Host announcement of the effect it will download next.
#[derive(Clone, Copy, PartialEq, Eq, Debug)]
pub struct CreateNewEffectReport {
    pub effect_type: EffectType,
    pub byte_count: u16,
}

impl CreateNewEffectReport {
    /// The record a wire image decodes to.
    pub open spec fn spec_into_report(s: Seq<u8>) -> Option<Self> {
        if s.len() < 4 {
            None
        } else {
            match spec_effect_type_from(s[1]) {
                None => None,
                Some(et) => Some(
                    CreateNewEffectReport { effect_type: et, byte_count: le16(s[2], s[3]) },
                ),
            }
        }
    }

    /// Parses the wire form.
    pub fn into_report(bytes: &[u8]) -> (r: Option<Self>)
        ensures
            r == Self::spec_into_report(bytes@),
    {
        if bytes.len() < 4 {
            return None;
        }
        match EffectType::try_from(read_u8(bytes, 1)) {
            Ok(et) => Some(
                CreateNewEffectReport { effect_type: et, byte_count: read_u16(bytes, 2) },
            ),
            Err(_) => None,
        }
    }
}

// PID Block Load Report
/// The device's answer to a create-new-effect request.
#[derive(Clone, Copy, PartialEq, Eq, Debug)]
pub struct PIDBlockLoadReport {
    pub effect_block_index: u8,
    pub block_load_status: BlockLoadStatus,
    pub ram_pool_available: u16,
}

impl PIDBlockLoadReport {
    /// The wire image sent to the host, report id first.
    pub open spec fn spec_report_bytes(self) -> Seq<u8> {
        seq![
            2u8,
            self.effect_block_index,
            self.block_load_status.spec_code(),
            lo(self.ram_pool_available),
            hi(self.ram_pool_available),
        ]
    }

    /// Serializes the report for a GET_REPORT answer.
    pub fn report_bytes(&self) -> (out: Vec<u8>)
        ensures
            out@ == self.spec_report_bytes(),
    {
        let mut buf: Vec<u8> = Vec::new();
        buf.push(2);
        buf.push(self.effect_block_index);
        buf.push(self.block_load_status.code());
        put_u16(&mut buf, self.ram_pool_available);
        proof {
            assert(buf@ =~= self.spec_report_bytes());
        }
        buf
    }
}

// PID Pool Report
/// The device's capacity constants.
#[derive(Clone, Copy, PartialEq, Eq, Debug)]
pub struct PIDPoolReport {
    pub ram_pool_size: u16,
    pub simultaneous_effects_max: u8,
    pub param_block_size_set_effect: u8,
    pub param_block_size_set_envelope: u8,
    pub param_block_size_set_condition: u8,
    pub param_block_size_set_periodic: u8,
    pub param_block_size_set_constant_force: u8,
    pub param_block_size_set_ramp_force: u8,
    pub param_block_size_set_custom_force: u8,
    pub device_managed_pool: bool,
    pub shared_parameter_blocks: bool,
    pub isochronous_enable: bool,
}

impl PIDPoolReport {
    /// The capability bits in packing order.
    pub open spec fn spec_pool_flags(self) -> Seq<bool> {
        seq![self.device_managed_pool, self.shared_parameter_blocks, self.isochronous_enable]
    }

    /// The wire image sent to the host, report id first.
    pub open spec fn spec_report_bytes(self) -> Seq<u8> {
        seq![
            3u8,
            lo(self.ram_pool_size),
            hi(self.ram_pool_size),
            self.simultaneous_effects_max,
            self.param_block_size_set_effect,
            self.param_block_size_set_envelope,
            self.param_block_size_set_condition,
            self.param_block_size_set_periodic,
            self.param_block_size_set_constant_force,
            self.param_block_size_set_ramp_force,
            self.param_block_size_set_custom_force,
            flags_value(self.spec_pool_flags()) as u8,
        ]
    }

    /// Serializes the report for a GET_REPORT answer.
    pub fn report_bytes(&self) -> (out: Vec<u8>)
        ensures
            out@ == self.spec_report_bytes(),
    {
        let mut buf: Vec<u8> = Vec::new();
        buf.push(3);
        put_u16(&mut buf, self.ram_pool_size);
        buf.push(self.simultaneous_effects_max);
        buf.push(self.param_block_size_set_effect);
        buf.push(self.param_block_size_set_envelope);
        buf.push(self.param_block_size_set_condition);
        buf.push(self.param_block_size_set_periodic);
        buf.push(self.param_block_size_set_constant_force);
        buf.push(self.param_block_size_set_ramp_force);
        buf.push(self.param_block_size_set_custom_force);
        let pool_flags: [bool; 3] = [
            self.device_managed_pool,
            self.shared_parameter_blocks,
            self.isochronous_enable,
        ];
        proof {
            assert(pool_flags@ =~= self.spec_pool_flags());
            lemma_flags_value_bound(self.spec_pool_flags());
            vstd::arithmetic::power2::lemma2_to64();
        }
        buf.push(bitflags(pool_flags.as_slice()));
        proof {
            assert(buf@ =~= self.spec_report_bytes());
        }
        buf
    }
}

// Set Configuration Report
/// The user-owned configuration record, integer-quantized: force-unit
/// fields and `expo` count `1/10_000` of full scale, `max_rotation` is
/// in degrees.  `expo` names the exponent of the power curve the host
/// shell applies to the composed torque; `1.0` leaves it linear.
#[derive(Clone, Copy, PartialEq, Eq, Debug)]
pub struct SetConfigReport {
    pub gain: FixedFFB,
    pub expo: FixedFFB,
    pub max_rotation: u16,
    pub spring_gain: FixedFFB,
    pub spring_coefficient: FixedFFB,
    pub spring_saturation: FixedFFB,
    pub spring_deadband: FixedFFB,
    pub motor_max: FixedFFB,
    pub motor_deadband: FixedFFB,
}

impl SetConfigReport {
    /// The wire image, report id first; the same bytes are accepted on
    /// the way in.
    pub open spec fn spec_report_bytes(self) -> Seq<u8> {
        seq![
            4u8,
            lo(self.gain.0 as u16),
            hi(self.gain.0 as u16),
            lo(self.expo.0 as u16),
            hi(self.expo.0 as u16),
            lo(self.max_rotation),
            hi(self.max_rotation),
            lo(self.spring_gain.0 as u16),
            hi(self.spring_gain.0 as u16),
            lo(self.spring_coefficient.0 as u16),
            hi(self.spring_coefficient.0 as u16),
            lo(self.spring_saturation.0 as u16),
            hi(self.spring_saturation.0 as u16),
            lo(self.spring_deadband.0 as u16),
            hi(self.spring_deadband.0 as u16),
            lo(self.motor_max.0 as u16),
            hi(self.motor_max.0 as u16),
            lo(self.motor_deadband.0 as u16),
            hi(self.motor_deadband.0 as u16),
        ]
    }

    /// The record a wire image decodes to; a payload too short for
    /// every field is rejected.
    pub open spec fn spec_into_report(s: Seq<u8>) -> Option<Self> {
        if s.len() < 19 {
            None
        } else {
            Some(
                SetConfigReport {
                    gain: Fixed(le16(s[1], s[2]) as i16),
                    expo: Fixed(le16(s[3], s[4]) as i16),
                    max_rotation: le16(s[5], s[6]),
                    spring_gain: Fixed(le16(s[7], s[8]) as i16),
                    spring_coefficient: Fixed(le16(s[9], s[10]) as i16),
                    spring_saturation: Fixed(le16(s[11], s[12]) as i16),
                    spring_deadband: Fixed(le16(s[13], s[14]) as i16),
                    motor_max: Fixed(le16(s[15], s[16]) as i16),
                    motor_deadband: Fixed(le16(s[17], s[18]) as i16),
                },
            )
        }
    }

    /// Serializes the record for a GET_REPORT answer.
    pub fn report_bytes(&self) -> (out: Vec<u8>)
        ensures
            out@ == self.spec_report_bytes(),
    {
        let mut buf: Vec<u8> = Vec::new();
        buf.push(4);
        put_i16(&mut buf, self.gain.0);
        put_i16(&mut buf, self.expo.0);
        put_u16(&mut buf, self.max_rotation);
        put_i16(&mut buf, self.spring_gain.0);
        put_i16(&mut buf, self.spring_coefficient.0);
        put_i16(&mut buf, self.spring_saturation.0);
        put_i16(&mut buf, self.spring_deadband.0);
        put_i16(&mut buf, self.motor_max.0);
        put_i16(&mut buf, self.motor_deadband.0);
        proof {
            assert(buf@ =~= self.spec_report_bytes());
        }
        buf
    }

    /// Parses the wire form.
    pub fn into_report(bytes: &[u8]) -> (r: Option<Self>)
        ensures
            r == Self::spec_into_report(bytes@),
    {
        if bytes.len() < 19 {
            return None;
        }
        Some(
            SetConfigReport {
                gain: Fixed(read_i16(bytes, 1)),
                expo: Fixed(read_i16(bytes, 3)),
                max_rotation: read_u16(bytes, 5),
                spring_gain: Fixed(read_i16(bytes, 7)),
                spring_coefficient: Fixed(read_i16(bytes, 9)),
                spring_saturation: Fixed(read_i16(bytes, 11)),
                spring_deadband: Fixed(read_i16(bytes, 13)),
                motor_max: Fixed(read_i16(bytes, 15)),
                motor_deadband: Fixed(read_i16(bytes, 17)),
            },
        )
    }

    /// Parsing the emitted image gives the record back.
    pub proof fn lemma_wire_round_trip(self)
        ensures
            Self::spec_into_report(self.spec_report_bytes()) == Some(self),
    {
        crate::wire::lemma_le16_split(self.gain.0 as u16);
        lemma_le16_join(lo(self.gain.0 as u16), hi(self.gain.0 as u16));
        lemma_i16_cast_round_trip(self.gain.0);
        crate::wire::lemma_le16_split(self.expo.0 as u16);
        lemma_le16_join(lo(self.expo.0 as u16), hi(self.expo.0 as u16));
        lemma_i16_cast_round_trip(self.expo.0);
        crate::wire::lemma_le16_split(self.max_rotation);
        lemma_le16_join(lo(self.max_rotation), hi(self.max_rotation));
        crate::wire::lemma_le16_split(self.spring_gain.0 as u16);
        lemma_le16_join(lo(self.spring_gain.0 as u16), hi(self.spring_gain.0 as u16));
        lemma_i16_cast_round_trip(self.spring_gain.0);
        crate::wire::lemma_le16_split(self.spring_coefficient.0 as u16);
        lemma_le16_join(lo(self.spring_coefficient.0 as u16), hi(self.spring_coefficient.0 as u16));
        lemma_i16_cast_round_trip(self.spring_coefficient.0);
        crate::wire::lemma_le16_split(self.spring_saturation.0 as u16);
        lemma_le16_join(lo(self.spring_saturation.0 as u16), hi(self.spring_saturation.0 as u16));
        lemma_i16_cast_round_trip(self.spring_saturation.0);
        crate::wire::lemma_le16_split(self.spring_deadband.0 as u16);
        lemma_le16_join(lo(self.spring_deadband.0 as u16), hi(self.spring_deadband.0 as u16));
        lemma_i16_cast_round_trip(self.spring_deadband.0);
        crate::wire::lemma_le16_split(self.motor_max.0 as u16);
        lemma_le16_join(lo(self.motor_max.0 as u16), hi(self.motor_max.0 as u16));
        lemma_i16_cast_round_trip(self.motor_max.0);
        crate::wire::lemma_le16_split(self.motor_deadband.0 as u16);
        lemma_le16_join(lo(self.motor_deadband.0 as u16), hi(self.motor_deadband.0 as u16));
        lemma_i16_cast_round_trip(self.motor_deadband.0);
    }
}

impl Default for SetConfigReport {
    /// The all-zero configuration: no gain, no base spring, no motor
    /// range, until the user configures the device.
    fn default() -> (r: Self)
        ensures
            r == (SetConfigReport {
                gain: Fixed(0),
                expo: Fixed(0),
                max_rotation: 0,
                spring_gain: Fixed(0),
                spring_coefficient: Fixed(0),
                spring_saturation: Fixed(0),
                spring_deadband: Fixed(0),
                motor_max: Fixed(0),
                motor_deadband: Fixed(0),
            }),
    {
        SetConfigReport {
            gain: Fixed(0),
            expo: Fixed(0),
            max_rotation: 0,
            spring_gain: Fixed(0),
            spring_coefficient: Fixed(0),
            spring_saturation: Fixed(0),
            spring_deadband: Fixed(0),
            motor_max: Fixed(0),
            motor_deadband: Fixed(0),
        }
    }
}

} // verus!
