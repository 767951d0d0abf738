//! The wheel core: the effect pool, the running-effect set, the axis
//! state, the user configuration, and the per-tick advance / force API
//! that the motor driver consumes.

use crate::effect::{create_spring_effect, spec_condition_effect, Effect, EffectParameter};
use crate::ffb::{
    calculate_force_feedback, lemma_i16_scale, spec_compute, spec_level,
};
use crate::fixed::{
    clamp_i, lemma_unit_mul_bound, sat16, tdiv, tdiv64, Fixed, FixedFFB, FixedSteering,
};
use crate::hid::{ReportID, ReportType};
use crate::misc::FixedSet;
use crate::ram_pool::{count_allocated, RAMPool, EFFECT_SLOT_SIZE};
use crate::reports::{
    pid_state_report_default, racing_wheel_report_default, BlockLoadStatus, PIDBlockLoadReport,
    PIDPoolReport, PIDStateReport, RacingWheelReport, SetConditionReport, SetConfigReport,
    CreateNewEffectReport, EffectType,
};
use vstd::prelude::*;

verus! {

/// The number of effect slots in the pool.
pub const MAX_EFFECTS: usize = 16;

/// The most effects that can play at once.
pub const MAX_SIMULTANEOUS_EFFECTS: usize = 8;

/// The bytes reserved for downloaded custom-force samples.
pub const CUSTOM_DATA_BUFFER_SIZE: usize = 4096;

/// One currently-playing effect: its 1-based slot index and the
/// milliseconds it has accumulated since it was started.
#[derive(Clone, Copy, PartialEq, Eq, Debug)]
pub struct RunningEffect {
    pub index: u8,
    pub time: u32,
}

impl RunningEffect {
    /// A freshly started effect: no time accumulated yet.
    pub fn new(index: u8) -> (r: Self)
        ensures
            r.index == index,
            r.time == 0,
    {
        Self { index, time: 0 }
    }
}

/// The wheel core.
pub struct RacingWheel {
    ram_pool: RAMPool<MAX_EFFECTS, CUSTOM_DATA_BUFFER_SIZE>,
    next_effect: Option<CreateNewEffectReport>,
    running_effects: FixedSet<MAX_SIMULTANEOUS_EFFECTS>,
    device_gain: FixedFFB,
    racing_wheel_report: RacingWheelReport,
    pid_state_report: PIDStateReport,
    steering_prev: FixedSteering,
    steering_velocity: FixedSteering,
    config: SetConfigReport,
    write_config_event: bool,
    reboot_device_event: bool,
    reset_steering_event: bool,
}

impl RacingWheel {
    /// The pool's slots; the wire index of `slots()[i]` is `i + 1`.
    pub closed spec fn slots(&self) -> Seq<Option<Effect>> {
        self.ram_pool.slots()
    }

    /// How many bytes of the custom-force buffer are handed out.
    pub closed spec fn alloc_mark(&self) -> int {
        self.ram_pool.spec_allocated()
    }

    /// The custom-force buffer's contents.
    pub closed spec fn buffer(&self) -> Seq<u8> {
        self.ram_pool.buffer()
    }

    /// The recorded create-new-effect announcement, if one is pending.
    pub closed spec fn pending(&self) -> Option<CreateNewEffectReport> {
        self.next_effect
    }

    /// The running-effect entries in iteration order.
    pub closed spec fn running(&self) -> Seq<RunningEffect> {
        self.running_effects@
    }

    /// The host-commanded master gain, in `1/10_000` units.
    pub closed spec fn gain(&self) -> int {
        self.device_gain@
    }

    /// The current input report (buttons, steering, throttle).
    pub closed spec fn input(&self) -> RacingWheelReport {
        self.racing_wheel_report
    }

    /// The current PID state report.
    pub closed spec fn state(&self) -> PIDStateReport {
        self.pid_state_report
    }

    /// The steering position remembered by the previous tick.
    pub closed spec fn prev(&self) -> int {
        self.steering_prev@
    }

    /// The steering velocity derived at the last tick, in axis units
    /// per second.
    pub closed spec fn velocity(&self) -> int {
        self.steering_velocity@
    }

    /// The user-owned configuration.
    pub closed spec fn config(&self) -> SetConfigReport {
        self.config
    }

    /// The pending maintenance events, in the order write-config,
    /// reboot, reset-steering.
    pub closed spec fn events(&self) -> (bool, bool, bool) {
        (self.write_config_event, self.reboot_device_event, self.reset_steering_event)
    }

    /// How many pool slots are allocated.
    pub open spec fn allocated_slots(&self) -> int {
        count_allocated(self.slots())
    }

    /// Well-formedness: the pool and the running set are well formed,
    /// the slot sequence has its fixed length, the PID state can be
    /// serialized, and every running entry names an allocated slot.
    pub open spec fn wf(&self) -> bool {
        &&& self.ram_pool_wf()
        &&& self.slots().len() == MAX_EFFECTS
        &&& self.running_wf()
        &&& self.state().wf()
        &&& forall|i: int|
            0 <= i < self.running().len() ==> 1 <= #[trigger] self.running()[i].index
                <= MAX_EFFECTS && self.slots()[self.running()[i].index - 1] is Some
    }

    /// The pool part of well-formedness.
    pub closed spec fn ram_pool_wf(&self) -> bool {
        self.ram_pool.wf()
    }

    /// The running-set part of well-formedness: within capacity, no
    /// two entries share an index.
    pub closed spec fn running_wf(&self) -> bool {
        self.running_effects.wf()
    }

    /// A fresh core around an externally-owned configuration: empty
    /// pool, empty running set, zero gains and axis state.
    pub fn new(config: SetConfigReport) -> (r: Self)
        ensures
            r.wf(),
            forall|i: int| 0 <= i < MAX_EFFECTS ==> r.slots()[i] is None,
            r.allocated_slots() == 0,
            r.alloc_mark() == 0,
            r.pending() is None,
            r.running().len() == 0,
            r.gain() == 0,
            r.input() == (RacingWheelReport {
                buttons: [false, false, false, false, false, false, false, false],
                steering: Fixed(0),
                throttle: 0,
            }),
            r.state() == pid_state_default(),
            r.prev() == 0,
            r.velocity() == 0,
            r.config() == config,
            r.events() == (false, false, false),
    {
        let r = RacingWheel {
            ram_pool: RAMPool::new(),
            next_effect: None,
            running_effects: FixedSet::new(),
            device_gain: Fixed(0),
            racing_wheel_report: racing_wheel_report_default(),
            pid_state_report: pid_state_report_default(),
            steering_prev: Fixed(0),
            steering_velocity: Fixed(0),
            config,
            write_config_event: false,
            reboot_device_event: false,
            reset_steering_event: false,
        };
        proof {
            lemma_count_empty(r.slots());
        }
        r
    }

    /// Maps a steering angle in tenths of a degree onto the axis scale:
    /// `±max_rotation/2` degrees is full travel `±1`.
    pub fn set_steering(&mut self, steering_decidegrees: i16)
        requires
            old(self).wf(),
        ensures
            final(self).wf(),
            final(self).input().steering@ == spec_steering_map(
                steering_decidegrees as int,
                old(self).config().max_rotation as int,
            ),
            final(self).input().buttons == old(self).input().buttons,
            final(self).input().throttle == old(self).input().throttle,
            spec_same_but_input(old(self), final(self)),
    {
        let mapped: i16 = if self.config.max_rotation == 0 {
            0
        } else {
            let v: i64 = tdiv64(
                (steering_decidegrees as i64) * 2000,
                self.config.max_rotation as i64,
            );
            if -0x8000 <= v && v <= 0x7fff {
                v as i16
            } else {
                0
            }
        };
        self.racing_wheel_report.steering = Fixed(mapped);
    }

    /// Records the throttle value for the next input report.
    pub fn set_throttle(&mut self, throttle: i16)
        requires
            old(self).wf(),
        ensures
            final(self).wf(),
            final(self).input().throttle == throttle,
            final(self).input().buttons == old(self).input().buttons,
            final(self).input().steering == old(self).input().steering,
            spec_same_but_input(old(self), final(self)),
    {
        self.racing_wheel_report.throttle = throttle;
    }

    /// Records the button states for the next input report.
    pub fn set_buttons(&mut self, buttons: [bool; 8])
        requires
            old(self).wf(),
        ensures
            final(self).wf(),
            final(self).input().buttons == buttons,
            final(self).input().throttle == old(self).input().throttle,
            final(self).input().steering == old(self).input().steering,
            spec_same_but_input(old(self), final(self)),
    {
        self.racing_wheel_report.buttons = buttons;
    }

    /// The composed torque command, in `[-1, +1]` of full scale: the
    /// clamped sum of every running effect's force plus the built-in
    /// spring, scaled by the device gain, the configured gain, and the
    /// motor ceiling.  The host shell applies the configured `expo`
    /// power curve to this result, before the motor deadband; that
    /// shaping is floating point and lives outside the core.
    pub fn get_force_feedback(&self) -> (r: FixedFFB)
        requires
            self.wf(),
        ensures
            r@ == spec_total_force(
                self.slots(),
                self.running(),
                self.config(),
                self.gain(),
                self.input().steering@,
                self.velocity(),
            ),
            -10000 <= r@ <= 10000,
    {
        let mut total: FixedFFB = Fixed(0);
        let n: usize = self.running_effects.size();
        let mut i: usize = 0;
        proof {
            assert(self.running().subrange(0, 0) =~= Seq::<RunningEffect>::empty());
        }
        while i < n
            invariant
                i <= n,
                n == self.running().len(),
                self.wf(),
                total@ == spec_running_sum(
                    self.slots(),
                    self.running().subrange(0, i as int),
                    self.input().steering@,
                    self.velocity(),
                ),
                -10000 <= total@ <= 10000,
            decreases n - i,
        {
            let re: RunningEffect = self.running_effects.get(i);
            let force: FixedFFB = match self.ram_pool.get_effect(re.index) {
                Some(effect) => calculate_force_feedback(
                    effect,
                    re.time,
                    self.racing_wheel_report.steering,
                    self.steering_velocity,
                    Fixed(0),
                ),
                None => Fixed(0),
            };
            proof {
                let pre = self.running().subrange(0, i as int);
                let next = self.running().subrange(0, i + 1);
                assert(next.drop_last() =~= pre);
                assert(force@ == spec_contribution(
                    self.slots(),
                    re,
                    self.input().steering@,
                    self.velocity(),
                ));
            }
            total = add_unit_clamped(total, force);
            i = i + 1;
        }
        proof {
            assert(self.running().subrange(0, n as int) =~= self.running());
        }
        let spring: Effect = base_spring_effect(&self.config);
        let spring_force: FixedFFB = calculate_force_feedback(
            &spring,
            0,
            self.racing_wheel_report.steering,
            Fixed(0),
            Fixed(0),
        );
        let with_spring: FixedFFB = add_unit_clamped(total, spring_force);
        let dg: FixedFFB = Fixed(clamp_level(self.device_gain.0));
        let cg: FixedFFB = Fixed(clamp_level(self.config.gain.0));
        let mm: FixedFFB = Fixed(clamp_level(self.config.motor_max.0));
        proof {
            lemma_unit_mul_bound(with_spring@, dg@);
            lemma_i16_scale(with_spring@, dg@);
        }
        let f1: FixedFFB = with_spring.mul(dg);
        proof {
            lemma_unit_mul_bound(f1@, cg@);
            lemma_i16_scale(f1@, cg@);
        }
        let f2: FixedFFB = f1.mul(cg);
        proof {
            lemma_unit_mul_bound(f2@, mm@);
            lemma_i16_scale(f2@, mm@);
        }
        f2.mul(mm)
    }
}

/// Clamps a gain into `[0, 10000]` counts, as the composition uses
/// every gain.
fn clamp_level(l: i16) -> (r: i16)
    ensures
        r as int == spec_level(l as int),
{
    if l < 0 {
        0
    } else if l > 10000 {
        10000
    } else {
        l
    }
}

/// Adds two forces and clamps the sum back into `[-1, +1]`, as every
/// combining step of the composition does.
fn add_unit_clamped(a: FixedFFB, b: FixedFFB) -> (r: FixedFFB)
    ensures
        r@ == clamp_i(a@ + b@, -10000, 10000),
{
    let s: i32 = (a.0 as i32) + (b.0 as i32);
    let c: i32 = if s < -10000 {
        -10000
    } else if s > 10000 {
        10000
    } else {
        s
    };
    Fixed(c as i16)
}

/// The fresh PID state report.
pub open spec fn pid_state_default() -> PIDStateReport {
    PIDStateReport {
        device_paused: false,
        actuators_enabled: false,
        safety_switch: false,
        actuators_override_switch: false,
        actuator_power: false,
        effect_playing: false,
        effect_block_index: 0,
    }
}

/// The steering mapping: tenths of a degree to axis counts, with the
/// widened intermediate narrowed saturating like every fixed-point
/// product.
pub open spec fn spec_steering_map(decidegrees: int, max_rotation: int) -> int {
    if max_rotation == 0 {
        0
    } else {
        sat16(tdiv(decidegrees * 2000, max_rotation))
    }
}

/// Everything except the input report is unchanged.
pub open spec fn spec_same_but_input(a: &RacingWheel, b: &RacingWheel) -> bool {
    &&& a.slots() == b.slots()
    &&& a.alloc_mark() == b.alloc_mark()
    &&& a.buffer() == b.buffer()
    &&& a.pending() == b.pending()
    &&& a.running() == b.running()
    &&& a.gain() == b.gain()
    &&& a.state() == b.state()
    &&& a.prev() == b.prev()
    &&& a.velocity() == b.velocity()
    &&& a.config() == b.config()
    &&& a.events() == b.events()
}

/// The force one running entry contributes: the force of its slot's
/// effect at its elapsed time, or nothing if the slot is gone.
pub open spec fn spec_contribution(
    slots: Seq<Option<Effect>>,
    re: RunningEffect,
    pos: int,
    vel: int,
) -> int {
    if 1 <= re.index <= slots.len() {
        match slots[re.index - 1] {
            Some(e) => spec_compute(e, re.time as int, pos, vel, 0),
            None => 0,
        }
    } else {
        0
    }
}

/// The clamped sum of the running effects' forces, combined in
/// iteration order with a clamp at every step.
pub open spec fn spec_running_sum(
    slots: Seq<Option<Effect>>,
    running: Seq<RunningEffect>,
    pos: int,
    vel: int,
) -> int
    decreases running.len(),
{
    if running.len() == 0 {
        0
    } else {
        clamp_i(
            spec_running_sum(slots, running.drop_last(), pos, vel) + spec_contribution(
                slots,
                running.last(),
                pos,
                vel,
            ),
            -10000,
            10000,
        )
    }
}

/// The running sum always stays inside `[-1, +1]`.
pub proof fn lemma_running_sum_bounds(
    slots: Seq<Option<Effect>>,
    running: Seq<RunningEffect>,
    pos: int,
    vel: int,
)
    ensures
        -10000 <= spec_running_sum(slots, running, pos, vel) <= 10000,
    decreases running.len(),
{
    if running.len() > 0 {
        lemma_running_sum_bounds(slots, running.drop_last(), pos, vel);
    }
}

/// A coefficient negated with saturation: the minimum has no 16-bit
/// negation and saturates to the maximum.
pub open spec fn spec_neg_coef(c: int) -> int {
    if c == -0x8000 {
        0x7fff
    } else {
        -c
    }
}

/// The built-in centering spring described by the configuration: its
/// coefficient opposes the displacement.
pub open spec fn spec_base_spring(config: SetConfigReport) -> Effect {
    spec_condition_effect(
        EffectType::Spring,
        config.spring_gain,
        None,
        SetConditionReport {
            effect_block_index: 0,
            parameter_block_offset: 0,
            type_specific_block_offset_instance_1: 0,
            type_specific_block_offset_instance_2: 0,
            cp_offset: Fixed(0),
            positive_coefficient: Fixed(spec_neg_coef(config.spring_coefficient@) as i16),
            negative_coefficient: Fixed(spec_neg_coef(config.spring_coefficient@) as i16),
            positive_saturation: config.spring_saturation,
            negative_saturation: config.spring_saturation,
            dead_band: config.spring_deadband,
        },
    )
}

/// Builds the built-in spring from the configuration.
fn base_spring_effect(config: &SetConfigReport) -> (r: Effect)
    ensures
        r == spec_base_spring(*config),
{
    let c: i16 = config.spring_coefficient.0;
    let neg_c: i16 = if c == i16::MIN {
        i16::MAX
    } else {
        -c
    };
    create_spring_effect(
        config.spring_gain,
        None,
        Fixed(0),
        Fixed(neg_c),
        Fixed(neg_c),
        config.spring_saturation,
        config.spring_saturation,
        config.spring_deadband,
    )
}

/// The composed torque command of a wheel state.
pub open spec fn spec_total_force(
    slots: Seq<Option<Effect>>,
    running: Seq<RunningEffect>,
    config: SetConfigReport,
    device_gain: int,
    pos: int,
    vel: int,
) -> int {
    let sum = spec_running_sum(slots, running, pos, vel);
    let with_spring = clamp_i(
        sum + spec_compute(spec_base_spring(config), 0, pos, 0, 0),
        -10000,
        10000,
    );
    let f1 = tdiv(with_spring * spec_level(device_gain), 10000);
    let f2 = tdiv(f1 * spec_level(config.gain@), 10000);
    tdiv(f2 * spec_level(config.motor_max@), 10000)
}

/// An all-free slot sequence holds no allocations.
proof fn lemma_count_empty(s: Seq<Option<Effect>>)
    requires
        forall|i: int| 0 <= i < s.len() ==> s[i] is None,
    ensures
        count_allocated(s) == 0,
    decreases s.len(),
{
    if s.len() > 0 {
        lemma_count_empty(s.drop_last());
    }
}

impl RacingWheel {
    /// One running entry advanced by a tick, its time saturating at
    /// the top of its 32-bit range.
    pub open spec fn spec_advance_entry(re: RunningEffect, delta: int) -> RunningEffect {
        RunningEffect {
            index: re.index,
            time: (if re.time + delta <= 0xffff_ffff {
                re.time + delta
            } else {
                0xffff_ffff
            }) as u32,
        }
    }

    /// Whether an advanced entry stays in the running set: its slot
    /// must still be allocated, a finite duration must not have
    /// elapsed, and an incomplete effect is pruned after ten seconds.
    pub open spec fn spec_keep(slots: Seq<Option<Effect>>, re: RunningEffect) -> bool {
        &&& 1 <= re.index <= slots.len()
        &&& match slots[re.index - 1] {
            Some(e) => {
                &&& match e.effect_report {
                    Some(er) => match er.duration {
                        Some(d) => d >= re.time,
                        None => true,
                    },
                    None => true,
                }
                &&& !(re.time > 10000 && !e.spec_is_complete())
            },
            None => false,
        }
    }

    /// The running set after one tick: every entry advanced, the
    /// expired and the long-incomplete ones dropped, order kept.
    pub open spec fn spec_advance_running(
        slots: Seq<Option<Effect>>,
        running: Seq<RunningEffect>,
        delta: int,
    ) -> Seq<RunningEffect>
        decreases running.len(),
    {
        if running.len() == 0 {
            Seq::empty()
        } else {
            let pre = Self::spec_advance_running(slots, running.drop_last(), delta);
            let adv = Self::spec_advance_entry(running.last(), delta);
            if Self::spec_keep(slots, adv) {
                pre.push(adv)
            } else {
                pre
            }
        }
    }

    /// Whether some running entry carries the index.
    pub open spec fn spec_running_has(s: Seq<RunningEffect>, index: u8) -> bool {
        exists|j: int| 0 <= j < s.len() && s[j].index == index
    }

    /// Advancing keeps the set no larger, keeps indices pairwise
    /// distinct, and keeps only indices of allocated slots.
    pub proof fn lemma_advance_running_props(
        slots: Seq<Option<Effect>>,
        running: Seq<RunningEffect>,
        delta: int,
    )
        requires
            forall|i: int, j: int| 0 <= i < j < running.len() ==> running[i].index != running[j].index,
        ensures
            Self::spec_advance_running(slots, running, delta).len() <= running.len(),
            forall|i: int, j: int|
                0 <= i < j < Self::spec_advance_running(slots, running, delta).len()
                    ==> Self::spec_advance_running(slots, running, delta)[i].index
                    != Self::spec_advance_running(slots, running, delta)[j].index,
            forall|k: int|
                0 <= k < Self::spec_advance_running(slots, running, delta).len() ==> {
                    let e = #[trigger] Self::spec_advance_running(slots, running, delta)[k];
                    &&& Self::spec_running_has(running, e.index)
                    &&& 1 <= e.index <= slots.len()
                    &&& slots[e.index - 1] is Some
                },
        decreases running.len(),
    {
        if running.len() > 0 {
            let pre_src = running.drop_last();
            Self::lemma_advance_running_props(slots, pre_src, delta);
            let pre = Self::spec_advance_running(slots, pre_src, delta);
            let adv = Self::spec_advance_entry(running.last(), delta);
            let out = Self::spec_advance_running(slots, running, delta);
            assert forall|k: int|
                0 <= k < out.len() implies {
                let e = #[trigger] out[k];
                &&& Self::spec_running_has(running, e.index)
                &&& 1 <= e.index <= slots.len()
                &&& slots[e.index - 1] is Some
            } by {
                if Self::spec_keep(slots, adv) && k == out.len() - 1 {
                    assert(running[running.len() - 1].index == adv.index);
                } else {
                    assert(out[k] == pre[k]);
                    let j = choose|j: int|
                        0 <= j < pre_src.len() && pre_src[j].index == pre[k].index;
                    assert(running[j].index == pre[k].index);
                }
            }
            if Self::spec_keep(slots, adv) {
                assert forall|i: int, j: int| 0 <= i < j < out.len() implies out[i].index
                    != out[j].index by {
                    if j == out.len() - 1 {
                        let m = choose|m: int|
                            0 <= m < pre_src.len() && pre_src[m].index == pre[i].index;
                        assert(running[m].index == out[i].index);
                        assert(running[running.len() - 1].index == adv.index);
                    }
                }
            }
        }
    }

    /// One control tick: derives the steering velocity, remembers the
    /// position, and advances or prunes every running effect.
    pub fn advance(&mut self, delta_time_ms: u32)
        requires
            old(self).wf(),
            delta_time_ms > 0,
        ensures
            final(self).wf(),
            final(self).velocity() == sat16(
                tdiv(
                    (old(self).input().steering@ - old(self).prev()) * 1000,
                    delta_time_ms as int,
                ),
            ),
            final(self).prev() == old(self).input().steering@,
            final(self).running() == Self::spec_advance_running(
                old(self).slots(),
                old(self).running(),
                delta_time_ms as int,
            ),
            final(self).slots() == old(self).slots(),
            final(self).alloc_mark() == old(self).alloc_mark(),
            final(self).buffer() == old(self).buffer(),
            final(self).pending() == old(self).pending(),
            final(self).gain() == old(self).gain(),
            final(self).input() == old(self).input(),
            final(self).state() == old(self).state(),
            final(self).config() == old(self).config(),
            final(self).events() == old(self).events(),
    {
        let diff: i64 = (self.racing_wheel_report.steering.0 as i64) - (self.steering_prev.0
            as i64);
        let v: i64 = tdiv64(diff * 1000, delta_time_ms as i64);
        proof {
            assert(-0x8000_0000 <= diff * 1000 <= 0x8000_0000) by (nonlinear_arith)
                requires
                    -0x1_0000 <= diff <= 0x1_0000,
            ;
        }
        self.steering_velocity = Fixed(
            if -0x8000 <= v && v <= 0x7fff {
                v as i16
            } else {
                0
            },
        );
        self.steering_prev = self.racing_wheel_report.steering;
        let ghost slots = self.slots();
        let ghost src = self.running();
        let n: usize = self.running_effects.size();
        let mut kept: Vec<RunningEffect> = Vec::new();
        let mut i: usize = 0;
        proof {
            assert(src.subrange(0, 0) =~= Seq::<RunningEffect>::empty());
        }
        while i < n
            invariant
                i <= n,
                n == src.len(),
                self.wf(),
                src == self.running(),
                slots == self.slots(),
                delta_time_ms > 0,
                kept@ == Self::spec_advance_running(
                    slots,
                    src.subrange(0, i as int),
                    delta_time_ms as int,
                ),
            decreases n - i,
        {
            proof {
                let pre = src.subrange(0, i as int);
                let next = src.subrange(0, i + 1);
                assert(next.drop_last() =~= pre);
            }
            let re: RunningEffect = self.running_effects.get(i);
            let new_time: u32 = if re.time > u32::MAX - delta_time_ms {
                u32::MAX
            } else {
                re.time + delta_time_ms
            };
            let adv = RunningEffect { index: re.index, time: new_time };
            let keep: bool = match self.ram_pool.get_effect(adv.index) {
                Some(effect) => {
                    let duration_ok: bool = match &effect.effect_report {
                        Some(er) => match er.duration {
                            Some(d) => d as u32 >= adv.time,
                            None => true,
                        },
                        None => true,
                    };
                    let timed_out: bool = adv.time > 10000 && !effect.is_complete();
                    duration_ok && !timed_out
                },
                None => false,
            };
            if keep {
                kept.push(adv);
            }
            i = i + 1;
        }
        proof {
            assert(src.subrange(0, n as int) =~= src);
            Self::lemma_advance_running_props(slots, src, delta_time_ms as int);
        }
        self.running_effects = FixedSet::from_vec(kept);
    }
}

/// The input report and derived axis state are unchanged.
pub open spec fn spec_same_axis_io(a: &RacingWheel, b: &RacingWheel) -> bool {
    &&& a.input() == b.input()
    &&& a.prev() == b.prev()
    &&& a.velocity() == b.velocity()
}

/// Nothing about the wheel changed.
pub open spec fn spec_unchanged(a: &RacingWheel, b: &RacingWheel) -> bool {
    &&& spec_same_but_input(a, b)
    &&& a.input() == b.input()
}

/// Only the pool's slots may differ.
pub open spec fn spec_same_except_slots(a: &RacingWheel, b: &RacingWheel) -> bool {
    &&& spec_same_axis_io(a, b)
    &&& a.alloc_mark() == b.alloc_mark()
    &&& a.buffer() == b.buffer()
    &&& a.pending() == b.pending()
    &&& a.running() == b.running()
    &&& a.gain() == b.gain()
    &&& a.state() == b.state()
    &&& a.config() == b.config()
    &&& a.events() == b.events()
}

/// Only the running set may differ.
pub open spec fn spec_same_except_running(a: &RacingWheel, b: &RacingWheel) -> bool {
    &&& spec_same_axis_io(a, b)
    &&& a.slots() == b.slots()
    &&& a.alloc_mark() == b.alloc_mark()
    &&& a.buffer() == b.buffer()
    &&& a.pending() == b.pending()
    &&& a.gain() == b.gain()
    &&& a.state() == b.state()
    &&& a.config() == b.config()
    &&& a.events() == b.events()
}

/// Only the pool's slots and the running set may differ.
pub open spec fn spec_same_except_slots_running(a: &RacingWheel, b: &RacingWheel) -> bool {
    &&& spec_same_axis_io(a, b)
    &&& a.alloc_mark() == b.alloc_mark()
    &&& a.buffer() == b.buffer()
    &&& a.pending() == b.pending()
    &&& a.gain() == b.gain()
    &&& a.state() == b.state()
    &&& a.config() == b.config()
    &&& a.events() == b.events()
}

/// Only the pending create-new-effect record may differ.
pub open spec fn spec_same_except_pending(a: &RacingWheel, b: &RacingWheel) -> bool {
    &&& spec_same_axis_io(a, b)
    &&& a.slots() == b.slots()
    &&& a.alloc_mark() == b.alloc_mark()
    &&& a.buffer() == b.buffer()
    &&& a.running() == b.running()
    &&& a.gain() == b.gain()
    &&& a.state() == b.state()
    &&& a.config() == b.config()
    &&& a.events() == b.events()
}

/// Only the device gain may differ.
pub open spec fn spec_same_except_gain(a: &RacingWheel, b: &RacingWheel) -> bool {
    &&& spec_same_axis_io(a, b)
    &&& a.slots() == b.slots()
    &&& a.alloc_mark() == b.alloc_mark()
    &&& a.buffer() == b.buffer()
    &&& a.pending() == b.pending()
    &&& a.running() == b.running()
    &&& a.state() == b.state()
    &&& a.config() == b.config()
    &&& a.events() == b.events()
}

/// Only the PID state bits may differ.
pub open spec fn spec_same_except_state(a: &RacingWheel, b: &RacingWheel) -> bool {
    &&& spec_same_axis_io(a, b)
    &&& a.slots() == b.slots()
    &&& a.alloc_mark() == b.alloc_mark()
    &&& a.buffer() == b.buffer()
    &&& a.pending() == b.pending()
    &&& a.running() == b.running()
    &&& a.gain() == b.gain()
    &&& a.config() == b.config()
    &&& a.events() == b.events()
}

/// Only the maintenance-event flags may differ.
pub open spec fn spec_same_except_events(a: &RacingWheel, b: &RacingWheel) -> bool {
    &&& spec_same_axis_io(a, b)
    &&& a.slots() == b.slots()
    &&& a.alloc_mark() == b.alloc_mark()
    &&& a.buffer() == b.buffer()
    &&& a.pending() == b.pending()
    &&& a.running() == b.running()
    &&& a.gain() == b.gain()
    &&& a.state() == b.state()
    &&& a.config() == b.config()
}

/// Only the configuration may differ.
pub open spec fn spec_same_except_config(a: &RacingWheel, b: &RacingWheel) -> bool {
    &&& spec_same_axis_io(a, b)
    &&& a.slots() == b.slots()
    &&& a.alloc_mark() == b.alloc_mark()
    &&& a.buffer() == b.buffer()
    &&& a.pending() == b.pending()
    &&& a.running() == b.running()
    &&& a.gain() == b.gain()
    &&& a.state() == b.state()
    &&& a.events() == b.events()
}

/// Whether the 1-based index names an allocated slot.
pub open spec fn spec_slot_some(slots: Seq<Option<Effect>>, idx: u8) -> bool {
    1 <= idx <= slots.len() && slots[idx - 1] is Some
}

/// The slot at `idx` had its descriptor replaced, everything else as
/// before.
pub open spec fn spec_descriptor_set(
    a: &RacingWheel,
    b: &RacingWheel,
    rep: crate::reports::SetEffectReport,
) -> bool {
    &&& spec_same_except_slots(a, b)
    &&& a.slots()[rep.effect_block_index - 1] matches Some(e) && b.slots() == a.slots().update(
        rep.effect_block_index - 1,
        Some(Effect { effect_report: Some(rep), parameter_1: e.parameter_1, parameter_2: e.parameter_2 }),
    )
}

/// The slot at `idx` had its first parameter block replaced.
pub open spec fn spec_param_1_set(
    a: &RacingWheel,
    b: &RacingWheel,
    idx: u8,
    p: EffectParameter,
) -> bool {
    &&& spec_same_except_slots(a, b)
    &&& a.slots()[idx - 1] matches Some(e) && b.slots() == a.slots().update(
        idx - 1,
        Some(Effect { effect_report: e.effect_report, parameter_1: Some(p), parameter_2: e.parameter_2 }),
    )
}

/// The slot at `idx` had its second parameter block replaced.
pub open spec fn spec_param_2_set(
    a: &RacingWheel,
    b: &RacingWheel,
    idx: u8,
    p: EffectParameter,
) -> bool {
    &&& spec_same_except_slots(a, b)
    &&& a.slots()[idx - 1] matches Some(e) && b.slots() == a.slots().update(
        idx - 1,
        Some(Effect { effect_report: e.effect_report, parameter_1: e.parameter_1, parameter_2: Some(p) }),
    )
}

/// A freshly reset wheel around a kept configuration.
pub open spec fn spec_fresh_with(b: &RacingWheel, config: SetConfigReport) -> bool {
    &&& (forall|i: int| 0 <= i < MAX_EFFECTS ==> b.slots()[i] is None)
    &&& b.allocated_slots() == 0
    &&& b.alloc_mark() == 0
    &&& b.pending() is None
    &&& b.running().len() == 0
    &&& b.gain() == 0
    &&& b.prev() == 0
    &&& b.velocity() == 0
    &&& b.state() == pid_state_default()
    &&& b.config() == config
    &&& b.events() == (false, false, false)
}

impl RacingWheel {
    /// Handles one inbound (SET_REPORT or interrupt OUT) report: parses
    /// the bytes, mutates the state, and says whether the transfer is
    /// accepted (`Ok(Some(true))`), unclaimed (`Ok(None)`), or rejected
    /// (`Err`).  A parse failure or an index that names no allocated
    /// slot rejects the transfer and changes nothing.  Deallocating a
    /// slot intentionally rejects the transfer after it has taken
    /// effect.
    pub fn report_request_out(&mut self, report_id: ReportID, data: &[u8]) -> (r: Result<
        Option<bool>,
        (),
    >)
        requires
            old(self).wf(),
        ensures
            final(self).wf(),
            report_id == ReportID(ReportType::Output, 0x01) ==> match
                crate::reports::SetEffectReport::spec_into_report(data@) {
                Some(rep) => if spec_slot_some(old(self).slots(), rep.effect_block_index) {
                    r == Ok::<Option<bool>, ()>(Some(true)) && spec_descriptor_set(
                        old(self),
                        final(self),
                        rep,
                    )
                } else {
                    r == Err::<Option<bool>, ()>(()) && spec_unchanged(old(self), final(self))
                },
                None => r == Err::<Option<bool>, ()>(()) && spec_unchanged(old(self), final(self)),
            },
            report_id == ReportID(ReportType::Output, 0x02) ==> match
                crate::reports::SetEnvelopeReport::spec_into_report(data@) {
                Some(rep) => if spec_slot_some(old(self).slots(), rep.effect_block_index) {
                    r == Ok::<Option<bool>, ()>(Some(true)) && spec_param_2_set(
                        old(self),
                        final(self),
                        rep.effect_block_index,
                        EffectParameter::Envelope(rep),
                    )
                } else {
                    r == Err::<Option<bool>, ()>(()) && spec_unchanged(old(self), final(self))
                },
                None => r == Err::<Option<bool>, ()>(()) && spec_unchanged(old(self), final(self)),
            },
            report_id == ReportID(ReportType::Output, 0x03) ==> match
                crate::reports::SetConditionReport::spec_into_report(data@) {
                Some(rep) => if spec_slot_some(old(self).slots(), rep.effect_block_index) {
                    if rep.parameter_block_offset == 0 {
                        r == Ok::<Option<bool>, ()>(Some(true)) && spec_param_1_set(
                            old(self),
                            final(self),
                            rep.effect_block_index,
                            EffectParameter::Condition(rep),
                        )
                    } else if rep.parameter_block_offset == 1 {
                        r == Ok::<Option<bool>, ()>(Some(true)) && spec_param_2_set(
                            old(self),
                            final(self),
                            rep.effect_block_index,
                            EffectParameter::Condition(rep),
                        )
                    } else {
                        r == Ok::<Option<bool>, ()>(Some(true)) && spec_unchanged(
                            old(self),
                            final(self),
                        )
                    }
                } else {
                    r == Err::<Option<bool>, ()>(()) && spec_unchanged(old(self), final(self))
                },
                None => r == Err::<Option<bool>, ()>(()) && spec_unchanged(old(self), final(self)),
            },
            report_id == ReportID(ReportType::Output, 0x04) ==> match
                crate::reports::SetPeriodicReport::spec_into_report(data@) {
                Some(rep) => if spec_slot_some(old(self).slots(), rep.effect_block_index) {
                    r == Ok::<Option<bool>, ()>(Some(true)) && spec_param_1_set(
                        old(self),
                        final(self),
                        rep.effect_block_index,
                        EffectParameter::Periodic(rep),
                    )
                } else {
                    r == Err::<Option<bool>, ()>(()) && spec_unchanged(old(self), final(self))
                },
                None => r == Err::<Option<bool>, ()>(()) && spec_unchanged(old(self), final(self)),
            },
            report_id == ReportID(ReportType::Output, 0x05) ==> match
                crate::reports::SetConstantForceReport::spec_into_report(data@) {
                Some(rep) => if spec_slot_some(old(self).slots(), rep.effect_block_index) {
                    r == Ok::<Option<bool>, ()>(Some(true)) && spec_param_1_set(
                        old(self),
                        final(self),
                        rep.effect_block_index,
                        EffectParameter::ConstantForce(rep),
                    )
                } else {
                    r == Err::<Option<bool>, ()>(()) && spec_unchanged(old(self), final(self))
                },
                None => r == Err::<Option<bool>, ()>(()) && spec_unchanged(old(self), final(self)),
            },
            report_id == ReportID(ReportType::Output, 0x06) ==> match
                crate::reports::SetRampForceReport::spec_into_report(data@) {
                Some(rep) => if spec_slot_some(old(self).slots(), rep.effect_block_index) {
                    r == Ok::<Option<bool>, ()>(Some(true)) && spec_param_1_set(
                        old(self),
                        final(self),
                        rep.effect_block_index,
                        EffectParameter::RampForce(rep),
                    )
                } else {
                    r == Err::<Option<bool>, ()>(()) && spec_unchanged(old(self), final(self))
                },
                None => r == Err::<Option<bool>, ()>(()) && spec_unchanged(old(self), final(self)),
            },
            report_id == ReportID(ReportType::Output, 0x07) ==> {
                &&& spec_unchanged(old(self), final(self))
                &&& r == if data@.len() >= 17 {
                    Ok::<Option<bool>, ()>(Some(true))
                } else {
                    Err::<Option<bool>, ()>(())
                }
            },
            report_id == ReportID(ReportType::Output, 0x0A) ==> match
                crate::reports::EffectOperationReport::spec_into_report(data@) {
                Some(rep) => {
                    let idx = rep.effect_block_index;
                    match rep.effect_operation {
                        crate::reports::EffectOperation::EffectStart => if spec_slot_some(
                            old(self).slots(),
                            idx,
                        ) {
                            r == Ok::<Option<bool>, ()>(Some(true)) && spec_same_except_running(
                                old(self),
                                final(self),
                            ) && final(self).running() == (if Self::spec_running_has(
                                old(self).running(),
                                idx,
                            ) || old(self).running().len() >= MAX_SIMULTANEOUS_EFFECTS {
                                old(self).running()
                            } else {
                                old(self).running().push(RunningEffect { index: idx, time: 0 })
                            })
                        } else {
                            r == Err::<Option<bool>, ()>(()) && spec_unchanged(
                                old(self),
                                final(self),
                            )
                        },
                        crate::reports::EffectOperation::EffectStartSolo => if spec_slot_some(
                            old(self).slots(),
                            idx,
                        ) {
                            r == Ok::<Option<bool>, ()>(Some(true)) && spec_same_except_running(
                                old(self),
                                final(self),
                            ) && final(self).running() == seq![RunningEffect { index: idx, time: 0 }]
                        } else {
                            r == Err::<Option<bool>, ()>(()) && spec_unchanged(
                                old(self),
                                final(self),
                            )
                        },
                        crate::reports::EffectOperation::EffectStop => {
                            r == Ok::<Option<bool>, ()>(Some(true)) && spec_same_except_running(
                                old(self),
                                final(self),
                            ) && final(self).running() == old(self).running().filter(
                                |e: RunningEffect| e.index != idx,
                            )
                        },
                    }
                },
                None => r == Err::<Option<bool>, ()>(()) && spec_unchanged(old(self), final(self)),
            },
            report_id == ReportID(ReportType::Output, 0x0B) ==> match
                crate::reports::PIDBlockFreeReport::spec_into_report(data@) {
                Some(rep) => {
                    let idx = rep.effect_block_index;
                    if 1 <= idx <= MAX_EFFECTS {
                        &&& r == Err::<Option<bool>, ()>(())
                        &&& spec_same_except_slots_running(old(self), final(self))
                        &&& final(self).slots() == old(self).slots().update(
                            idx - 1,
                            None::<Effect>,
                        )
                        &&& final(self).running() == old(self).running().filter(
                            |e: RunningEffect| e.index != idx,
                        )
                        &&& final(self).allocated_slots() == old(self).allocated_slots() - (
                        if old(self).slots()[idx - 1] is Some {
                            1int
                        } else {
                            0int
                        })
                    } else {
                        r == Err::<Option<bool>, ()>(()) && spec_unchanged(old(self), final(self))
                    }
                },
                None => r == Err::<Option<bool>, ()>(()) && spec_unchanged(old(self), final(self)),
            },
            report_id == ReportID(ReportType::Output, 0x0C) ==> match
                crate::reports::PIDDeviceControl::spec_into_report(data@) {
                Some(rep) => r == Ok::<Option<bool>, ()>(Some(true)) && match rep.device_control {
                    crate::reports::DeviceControl::EnableActuators => spec_same_except_state(
                        old(self),
                        final(self),
                    ) && final(self).state() == (PIDStateReport {
                        actuators_enabled: true,
                        ..old(self).state()
                    }),
                    crate::reports::DeviceControl::DisableActuators => spec_same_except_state(
                        old(self),
                        final(self),
                    ) && final(self).state() == (PIDStateReport {
                        actuators_enabled: false,
                        ..old(self).state()
                    }),
                    crate::reports::DeviceControl::StopAllEffects => spec_same_except_running(
                        old(self),
                        final(self),
                    ) && final(self).running().len() == 0,
                    crate::reports::DeviceControl::DeviceReset => spec_fresh_with(
                        final(self),
                        old(self).config(),
                    ),
                    crate::reports::DeviceControl::DevicePause => spec_same_except_state(
                        old(self),
                        final(self),
                    ) && final(self).state() == (PIDStateReport {
                        device_paused: true,
                        ..old(self).state()
                    }),
                    crate::reports::DeviceControl::DeviceContinue => spec_same_except_state(
                        old(self),
                        final(self),
                    ) && final(self).state() == (PIDStateReport {
                        device_paused: false,
                        ..old(self).state()
                    }),
                },
                None => r == Err::<Option<bool>, ()>(()) && spec_unchanged(old(self), final(self)),
            },
            report_id == ReportID(ReportType::Output, 0x0D) ==> match
                crate::reports::DeviceGainReport::spec_into_report(data@) {
                Some(rep) => r == Ok::<Option<bool>, ()>(Some(true)) && spec_same_except_gain(
                    old(self),
                    final(self),
                ) && final(self).gain() == rep.device_gain@,
                None => r == Err::<Option<bool>, ()>(()) && spec_unchanged(old(self), final(self)),
            },
            report_id == ReportID(ReportType::Output, 0x0E) ==> match
                crate::reports::SetCustomForceReport::spec_into_report(data@) {
                Some(rep) => if spec_slot_some(old(self).slots(), rep.effect_block_index) {
                    r == Ok::<Option<bool>, ()>(Some(true)) && spec_param_1_set(
                        old(self),
                        final(self),
                        rep.effect_block_index,
                        EffectParameter::CustomForce(rep),
                    )
                } else {
                    r == Err::<Option<bool>, ()>(()) && spec_unchanged(old(self), final(self))
                },
                None => r == Err::<Option<bool>, ()>(()) && spec_unchanged(old(self), final(self)),
            },
            report_id == ReportID(ReportType::Output, 0x0F) ==> {
                &&& spec_unchanged(old(self), final(self))
                &&& r == if data@.len() >= 7 {
                    Ok::<Option<bool>, ()>(Some(true))
                } else {
                    Err::<Option<bool>, ()>(())
                }
            },
            report_id == ReportID(ReportType::Feature, 0x01) ==> match
                crate::reports::CreateNewEffectReport::spec_into_report(data@) {
                Some(rep) => r == Ok::<Option<bool>, ()>(Some(true)) && spec_same_except_pending(
                    old(self),
                    final(self),
                ) && final(self).pending() == Some(rep),
                None => r == Err::<Option<bool>, ()>(()) && spec_unchanged(old(self), final(self)),
            },
            report_id == ReportID(ReportType::Feature, 0x04) ==> match
                crate::reports::SetConfigReport::spec_into_report(data@) {
                Some(rep) => r == Ok::<Option<bool>, ()>(Some(true)) && spec_same_except_config(
                    old(self),
                    final(self),
                ) && final(self).config() == rep,
                None => r == Err::<Option<bool>, ()>(()) && spec_unchanged(old(self), final(self)),
            },
            report_id == ReportID(ReportType::Feature, 0x05) ==> {
                if data@.len() >= 2 {
                    match crate::control::spec_wheel_device_control_from(data@[1]) {
                        Some(ctl) => r == Ok::<Option<bool>, ()>(Some(true))
                            && spec_same_except_events(old(self), final(self))
                            && final(self).events() == match ctl {
                            crate::control::WheelDeviceControl::WriteConfig => (
                                true,
                                old(self).events().1,
                                old(self).events().2,
                            ),
                            crate::control::WheelDeviceControl::Reboot => (
                                old(self).events().0,
                                true,
                                old(self).events().2,
                            ),
                            crate::control::WheelDeviceControl::ResetRotation => (
                                old(self).events().0,
                                old(self).events().1,
                                true,
                            ),
                        },
                        None => r == Err::<Option<bool>, ()>(()) && spec_unchanged(
                            old(self),
                            final(self),
                        ),
                    }
                } else {
                    r == Err::<Option<bool>, ()>(()) && spec_unchanged(old(self), final(self))
                }
            },
            !(report_id.0 == ReportType::Output && (1 <= report_id.1 <= 7 || 0x0A <= report_id.1
                <= 0x0F)) && !(report_id.0 == ReportType::Feature && (report_id.1 == 0x01
                || report_id.1 == 0x04 || report_id.1 == 0x05)) ==> r == Ok::<Option<bool>, ()>(
                None,
            ) && spec_unchanged(old(self), final(self)),
            report_id == ReportID(ReportType::Output, 0x08) || report_id == ReportID(
                ReportType::Output,
                0x09,
            ) ==> r == Ok::<Option<bool>, ()>(None) && spec_unchanged(old(self), final(self)),
    {
        match (report_id.0, report_id.1) {
            (ReportType::Output, 0x01) => {
                let rep = match crate::reports::SetEffectReport::into_report(data) {
                    Some(rep) => rep,
                    None => {
                        return Err(());
                    },
                };
                match self.ram_pool.set_effect_report(rep.effect_block_index, rep) {
                    Ok(_) => {
                        proof {
                            self.lemma_slot_update_keeps_running(old(self));
                        }
                        Ok(Some(true))
                    },
                    Err(_) => Err(()),
                }
            },
            (ReportType::Output, 0x02) => {
                let rep = match crate::reports::SetEnvelopeReport::into_report(data) {
                    Some(rep) => rep,
                    None => {
                        return Err(());
                    },
                };
                match self.ram_pool.set_parameter_2(
                    rep.effect_block_index,
                    EffectParameter::Envelope(rep),
                ) {
                    Ok(_) => {
                        proof {
                            self.lemma_slot_update_keeps_running(old(self));
                        }
                        Ok(Some(true))
                    },
                    Err(_) => Err(()),
                }
            },
            (ReportType::Output, 0x03) => {
                let rep = match crate::reports::SetConditionReport::into_report(data) {
                    Some(rep) => rep,
                    None => {
                        return Err(());
                    },
                };
                if self.ram_pool.get_effect(rep.effect_block_index).is_none() {
                    return Err(());
                }
                if rep.parameter_block_offset == 0 {
                    let res = self.ram_pool.set_parameter_1(
                        rep.effect_block_index,
                        EffectParameter::Condition(rep),
                    );
                    proof {
                        self.lemma_slot_update_keeps_running(old(self));
                    }
                    Ok(Some(true))
                } else if rep.parameter_block_offset == 1 {
                    let res = self.ram_pool.set_parameter_2(
                        rep.effect_block_index,
                        EffectParameter::Condition(rep),
                    );
                    proof {
                        self.lemma_slot_update_keeps_running(old(self));
                    }
                    Ok(Some(true))
                } else {
                    Ok(Some(true))
                }
            },
            (ReportType::Output, 0x04) => {
                let rep = match crate::reports::SetPeriodicReport::into_report(data) {
                    Some(rep) => rep,
                    None => {
                        return Err(());
                    },
                };
                match self.ram_pool.set_parameter_1(
                    rep.effect_block_index,
                    EffectParameter::Periodic(rep),
                ) {
                    Ok(_) => {
                        proof {
                            self.lemma_slot_update_keeps_running(old(self));
                        }
                        Ok(Some(true))
                    },
                    Err(_) => Err(()),
                }
            },
            (ReportType::Output, 0x05) => {
                let rep = match crate::reports::SetConstantForceReport::into_report(data) {
                    Some(rep) => rep,
                    None => {
                        return Err(());
                    },
                };
                match self.ram_pool.set_parameter_1(
                    rep.effect_block_index,
                    EffectParameter::ConstantForce(rep),
                ) {
                    Ok(_) => {
                        proof {
                            self.lemma_slot_update_keeps_running(old(self));
                        }
                        Ok(Some(true))
                    },
                    Err(_) => Err(()),
                }
            },
            (ReportType::Output, 0x06) => {
                let rep = match crate::reports::SetRampForceReport::into_report(data) {
                    Some(rep) => rep,
                    None => {
                        return Err(());
                    },
                };
                match self.ram_pool.set_parameter_1(
                    rep.effect_block_index,
                    EffectParameter::RampForce(rep),
                ) {
                    Ok(_) => {
                        proof {
                            self.lemma_slot_update_keeps_running(old(self));
                        }
                        Ok(Some(true))
                    },
                    Err(_) => Err(()),
                }
            },
            (ReportType::Output, 0x07) => {
                match crate::reports::CustomForceDataReport::into_report(data) {
                    Some(_) => Ok(Some(true)),
                    None => Err(()),
                }
            },
            (ReportType::Output, 0x0A) => {
                let rep = match crate::reports::EffectOperationReport::into_report(data) {
                    Some(rep) => rep,
                    None => {
                        return Err(());
                    },
                };
                let idx: u8 = rep.effect_block_index;
                match rep.effect_operation {
                    crate::reports::EffectOperation::EffectStart => {
                        if self.ram_pool.get_effect(idx).is_none() {
                            return Err(());
                        }
                        let _ = self.running_effects.insert(RunningEffect::new(idx));
                        Ok(Some(true))
                    },
                    crate::reports::EffectOperation::EffectStartSolo => {
                        if self.ram_pool.get_effect(idx).is_none() {
                            return Err(());
                        }
                        self.running_effects = FixedSet::new();
                        let _ = self.running_effects.insert(RunningEffect::new(idx));
                        Ok(Some(true))
                    },
                    crate::reports::EffectOperation::EffectStop => {
                        let _ = self.running_effects.remove(RunningEffect::new(idx));
                        proof {
                            crate::misc::lemma_filter_subset(
                                old(self).running(),
                                |e: RunningEffect| e.index != idx,
                            );
                        }
                        Ok(Some(true))
                    },
                }
            },
            (ReportType::Output, 0x0B) => {
                let rep = match crate::reports::PIDBlockFreeReport::into_report(data) {
                    Some(rep) => rep,
                    None => {
                        return Err(());
                    },
                };
                let idx: u8 = rep.effect_block_index;
                proof {
                    if 1 <= idx <= MAX_EFFECTS {
                        crate::ram_pool::lemma_count_allocated_update(
                            old(self).slots(),
                            idx - 1,
                            None::<Effect>,
                        );
                    }
                }
                match self.ram_pool.free_effect(idx) {
                    Ok(_) => {
                        let _ = self.running_effects.remove(RunningEffect::new(idx));
                        proof {
                            crate::misc::lemma_filter_subset(
                                old(self).running(),
                                |e: RunningEffect| e.index != idx,
                            );
                        }
                        Err(())
                    },
                    Err(_) => Err(()),
                }
            },
            (ReportType::Output, 0x0C) => {
                let rep = match crate::reports::PIDDeviceControl::into_report(data) {
                    Some(rep) => rep,
                    None => {
                        return Err(());
                    },
                };
                match rep.device_control {
                    crate::reports::DeviceControl::EnableActuators => {
                        self.pid_state_report.actuators_enabled = true;
                    },
                    crate::reports::DeviceControl::DisableActuators => {
                        self.pid_state_report.actuators_enabled = false;
                    },
                    crate::reports::DeviceControl::StopAllEffects => {
                        self.running_effects = FixedSet::new();
                    },
                    crate::reports::DeviceControl::DeviceReset => {
                        let config = self.config;
                        *self = Self::new(config);
                    },
                    crate::reports::DeviceControl::DevicePause => {
                        self.pid_state_report.device_paused = true;
                    },
                    crate::reports::DeviceControl::DeviceContinue => {
                        self.pid_state_report.device_paused = false;
                    },
                }
                Ok(Some(true))
            },
            (ReportType::Output, 0x0D) => {
                let rep = match crate::reports::DeviceGainReport::into_report(data) {
                    Some(rep) => rep,
                    None => {
                        return Err(());
                    },
                };
                self.device_gain = rep.device_gain;
                Ok(Some(true))
            },
            (ReportType::Output, 0x0E) => {
                let rep = match crate::reports::SetCustomForceReport::into_report(data) {
                    Some(rep) => rep,
                    None => {
                        return Err(());
                    },
                };
                match self.ram_pool.set_parameter_1(
                    rep.effect_block_index,
                    EffectParameter::CustomForce(rep),
                ) {
                    Ok(_) => {
                        proof {
                            self.lemma_slot_update_keeps_running(old(self));
                        }
                        Ok(Some(true))
                    },
                    Err(_) => Err(()),
                }
            },
            (ReportType::Output, 0x0F) => {
                match crate::reports::PIDPoolMoveReport::into_report(data) {
                    Some(_) => Ok(Some(true)),
                    None => Err(()),
                }
            },
            (ReportType::Feature, 0x01) => {
                let rep = match crate::reports::CreateNewEffectReport::into_report(data) {
                    Some(rep) => rep,
                    None => {
                        return Err(());
                    },
                };
                self.next_effect = Some(rep);
                Ok(Some(true))
            },
            (ReportType::Feature, 0x05) => {
                if data.len() < 2 {
                    return Err(());
                }
                match crate::control::WheelDeviceControl::try_from(crate::wire::read_u8(data, 1)) {
                    Err(_) => Err(()),
                    Ok(crate::control::WheelDeviceControl::WriteConfig) => {
                        self.write_config_event = true;
                        Ok(Some(true))
                    },
                    Ok(crate::control::WheelDeviceControl::Reboot) => {
                        self.reboot_device_event = true;
                        Ok(Some(true))
                    },
                    Ok(crate::control::WheelDeviceControl::ResetRotation) => {
                        self.reset_steering_event = true;
                        Ok(Some(true))
                    },
                }
            },
            (ReportType::Feature, 0x04) => {
                let rep = match crate::reports::SetConfigReport::into_report(data) {
                    Some(rep) => rep,
                    None => {
                        return Err(());
                    },
                };
                self.config = rep;
                Ok(Some(true))
            },
            _ => Ok(None),
        }
    }

    /// A slot update that keeps the slot allocated keeps every running
    /// entry's slot allocated.
    proof fn lemma_slot_update_keeps_running(&self, pre: &Self)
        requires
            pre.wf(),
            self.running() == pre.running(),
            self.running_wf() == pre.running_wf(),
            self.slots().len() == pre.slots().len(),
            forall|j: int|
                0 <= j < pre.slots().len() && pre.slots()[j] is Some
                    ==> #[trigger] self.slots()[j] is Some,
        ensures
            forall|i: int|
                0 <= i < self.running().len() ==> 1 <= #[trigger] self.running()[i].index
                    <= MAX_EFFECTS && self.slots()[self.running()[i].index - 1] is Some,
    {
    }
}

/// The pool capacity the wheel reports: free slots in slot-size units
/// plus the custom bytes not yet handed out.
pub open spec fn spec_available(w: &RacingWheel) -> int {
    (MAX_EFFECTS - count_allocated(w.slots())) * EFFECT_SLOT_SIZE as int + (
    CUSTOM_DATA_BUFFER_SIZE - w.alloc_mark())
}

/// The smallest free slot position, as `new_effect` picks it.
pub open spec fn spec_has_free_slot(slots: Seq<Option<Effect>>) -> bool {
    exists|i: int| 0 <= i < slots.len() && slots[i] is None
}

impl RacingWheel {
    /// Answers the block-load query: consumes the pending
    /// create-new-effect announcement and allocates the lowest free
    /// slot.  Without a pending announcement the answer is an error;
    /// with a full pool it is `Full`.  A successful answer raises the
    /// allocated-slot count by exactly one; nothing else moves it
    /// together with a consumed announcement.
    pub fn pid_block_load_report(&mut self) -> (r: PIDBlockLoadReport)
        requires
            old(self).wf(),
        ensures
            final(self).wf(),
            final(self).pending() is None,
            spec_same_axis_io(old(self), final(self)),
            final(self).alloc_mark() == old(self).alloc_mark(),
            final(self).buffer() == old(self).buffer(),
            final(self).running() == old(self).running(),
            final(self).gain() == old(self).gain(),
            final(self).state() == old(self).state(),
            final(self).config() == old(self).config(),
            final(self).events() == old(self).events(),
            match old(self).pending() {
                None => {
                    &&& final(self).slots() == old(self).slots()
                    &&& r == (PIDBlockLoadReport {
                        effect_block_index: 0,
                        block_load_status: BlockLoadStatus::Error,
                        ram_pool_available: spec_available(old(self)) as u16,
                    })
                },
                Some(_) => {
                    if spec_has_free_slot(old(self).slots()) {
                        &&& r.block_load_status == BlockLoadStatus::Success
                        &&& 1 <= r.effect_block_index <= MAX_EFFECTS
                        &&& old(self).slots()[r.effect_block_index - 1] is None
                        &&& forall|j: int|
                            0 <= j < r.effect_block_index - 1 ==> old(self).slots()[j] is Some
                        &&& final(self).slots() == old(self).slots().update(
                            r.effect_block_index - 1,
                            Some(
                                Effect {
                                    effect_report: None,
                                    parameter_1: None,
                                    parameter_2: None,
                                },
                            ),
                        )
                        &&& final(self).allocated_slots() == old(self).allocated_slots() + 1
                        &&& r.ram_pool_available == spec_available(final(self)) as u16
                    } else {
                        &&& final(self).slots() == old(self).slots()
                        &&& r == (PIDBlockLoadReport {
                            effect_block_index: 0,
                            block_load_status: BlockLoadStatus::Full,
                            ram_pool_available: spec_available(old(self)) as u16,
                        })
                    }
                },
            },
    {
        proof {
            crate::ram_pool::lemma_count_allocated_bounds(self.slots());
        }
        if self.next_effect.is_some() {
            self.next_effect = None;
            let ghost pre_slots = self.slots();
            match self.ram_pool.new_effect() {
                Some(index) => {
                    proof {
                        crate::ram_pool::lemma_count_allocated_update(
                            pre_slots,
                            index - 1,
                            Some(
                                Effect {
                                    effect_report: None,
                                    parameter_1: None,
                                    parameter_2: None,
                                },
                            ),
                        );
                        crate::ram_pool::lemma_count_allocated_bounds(self.slots());
                    }
                    let available: usize = self.ram_pool.available();
                    PIDBlockLoadReport {
                        effect_block_index: index,
                        block_load_status: BlockLoadStatus::Success,
                        ram_pool_available: available as u16,
                    }
                },
                None => {
                    let available: usize = self.ram_pool.available();
                    PIDBlockLoadReport {
                        effect_block_index: 0,
                        block_load_status: BlockLoadStatus::Full,
                        ram_pool_available: available as u16,
                    }
                },
            }
        } else {
            let available: usize = self.ram_pool.available();
            PIDBlockLoadReport {
                effect_block_index: 0,
                block_load_status: BlockLoadStatus::Error,
                ram_pool_available: available as u16,
            }
        }
    }

    /// Answers the pool query with the device's capacity constants.
    pub fn pid_pool_report(&self) -> (r: PIDPoolReport)
        requires
            self.wf(),
        ensures
            r == (PIDPoolReport {
                ram_pool_size: (MAX_EFFECTS * EFFECT_SLOT_SIZE + CUSTOM_DATA_BUFFER_SIZE) as u16,
                simultaneous_effects_max: MAX_SIMULTANEOUS_EFFECTS as u8,
                param_block_size_set_effect: 19,
                param_block_size_set_envelope: 12,
                param_block_size_set_condition: 13,
                param_block_size_set_periodic: 10,
                param_block_size_set_constant_force: 2,
                param_block_size_set_ramp_force: 4,
                param_block_size_set_custom_force: 4,
                device_managed_pool: true,
                shared_parameter_blocks: false,
                isochronous_enable: true,
            }),
    {
        let pool_size: usize = self.ram_pool.pool_size();
        PIDPoolReport {
            ram_pool_size: pool_size as u16,
            simultaneous_effects_max: MAX_SIMULTANEOUS_EFFECTS as u8,
            param_block_size_set_effect: 19,
            param_block_size_set_envelope: 12,
            param_block_size_set_condition: 13,
            param_block_size_set_periodic: 10,
            param_block_size_set_constant_force: 2,
            param_block_size_set_ramp_force: 4,
            param_block_size_set_custom_force: 4,
            device_managed_pool: true,
            shared_parameter_blocks: false,
            isochronous_enable: true,
        }
    }

    /// The current input report, for the interrupt IN endpoint.
    pub fn get_racing_wheel_report(&self) -> (r: RacingWheelReport)
        ensures
            r == self.input(),
    {
        self.racing_wheel_report
    }

    /// The current PID state report, for the interrupt IN endpoint.
    pub fn get_pid_state_report(&self) -> (r: PIDStateReport)
        ensures
            r == self.state(),
    {
        self.pid_state_report
    }

    /// The effective configuration, for the configuration feature
    /// report.
    pub fn get_config(&self) -> (r: SetConfigReport)
        ensures
            r == self.config(),
    {
        self.config
    }

    /// Whether the host asked for the configuration to be persisted;
    /// asking consumes the event.
    pub fn write_config_event(&mut self) -> (r: bool)
        requires
            old(self).wf(),
        ensures
            final(self).wf(),
            r == old(self).events().0,
            spec_same_except_events(old(self), final(self)),
            final(self).events() == (false, old(self).events().1, old(self).events().2),
    {
        let fired: bool = self.write_config_event;
        self.write_config_event = false;
        fired
    }

    /// Whether the host asked for a reboot; asking consumes the event.
    pub fn reboot_device_event(&mut self) -> (r: bool)
        requires
            old(self).wf(),
        ensures
            final(self).wf(),
            r == old(self).events().1,
            spec_same_except_events(old(self), final(self)),
            final(self).events() == (old(self).events().0, false, old(self).events().2),
    {
        let fired: bool = self.reboot_device_event;
        self.reboot_device_event = false;
        fired
    }

    /// Whether the host asked for the rotation to be re-zeroed; asking
    /// consumes the event and zeroes the axis state.
    pub fn reset_steering_event(&mut self) -> (r: bool)
        requires
            old(self).wf(),
        ensures
            final(self).wf(),
            r == old(self).events().2,
            final(self).events() == (old(self).events().0, old(self).events().1, false),
            final(self).slots() == old(self).slots(),
            final(self).alloc_mark() == old(self).alloc_mark(),
            final(self).buffer() == old(self).buffer(),
            final(self).pending() == old(self).pending(),
            final(self).running() == old(self).running(),
            final(self).gain() == old(self).gain(),
            final(self).state() == old(self).state(),
            final(self).config() == old(self).config(),
            r ==> final(self).input() == (RacingWheelReport {
                steering: Fixed(0),
                ..old(self).input()
            }) && final(self).prev() == 0 && final(self).velocity() == 0,
            !r ==> final(self).input() == old(self).input() && final(self).prev() == old(
                self,
            ).prev() && final(self).velocity() == old(self).velocity(),
    {
        if self.reset_steering_event {
            self.reset_steering_event = false;
            self.racing_wheel_report.steering = Fixed(0);
            self.steering_prev = Fixed(0);
            self.steering_velocity = Fixed(0);
            return true;
        }
        false
    }

    /// The running set never holds two entries with one index.
    pub proof fn lemma_running_distinct(&self)
        requires
            self.wf(),
        ensures
            forall|i: int, j: int|
                0 <= i < j < self.running().len() ==> self.running()[i].index
                    != self.running()[j].index,
    {
    }
}

/// With no host effect running, the composed force is the built-in
/// spring's contribution alone, scaled by the gains — in particular
/// right after a device reset.
pub proof fn lemma_force_after_reset(w: &RacingWheel, pos: int, vel: int)
    requires
        w.running().len() == 0,
    ensures
        spec_total_force(w.slots(), w.running(), w.config(), w.gain(), pos, vel) == ({
            let spring = clamp_i(
                spec_compute(spec_base_spring(w.config()), 0, pos, 0, 0),
                -10000,
                10000,
            );
            let f1 = tdiv(spring * spec_level(w.gain()), 10000);
            let f2 = tdiv(f1 * spec_level(w.config().gain@), 10000);
            tdiv(f2 * spec_level(w.config().motor_max@), 10000)
        }),
{
}

} // verus!
