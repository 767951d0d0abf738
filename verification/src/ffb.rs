//! The force-feedback kernels: pure functions from an effect's
//! parameters, the elapsed time, and the axis state to a signed force.
//!
//! Forces count in `1/10_000` of full scale throughout.  Gains,
//! envelope levels, and saturations are clamped into `[0, 1]` on use,
//! as the data model requires; coefficients and magnitudes keep their
//! full signed range.

use crate::effect::{Effect, EffectParameter};
use crate::fixed::{
    clamp_i, tdiv, tdiv64, lemma_frac_shrink, lemma_unit_mul_bound, Fixed, FixedFFB,
    FixedSteering, Frac, FracI64, FracU32,
};
use crate::reports::{
    EffectType, SetConditionReport, SetConstantForceReport, SetEffectReport, SetEnvelopeReport,
    SetPeriodicReport, SetRampForceReport,
};
use vstd::math::abs;
use vstd::prelude::*;

verus! {

/// An envelope level or gain clamped into `[0, 1]` in force units.
pub open spec fn spec_level(l: int) -> int {
    clamp_i(l, 0, 10000)
}

/// The effect gain, clamped into `[0, 1]` on use.
pub open spec fn spec_gain(e: SetEffectReport) -> int {
    spec_level(e.gain@)
}

/// The envelope factor in `[0, 10000]`: starts at one, limited by the
/// attack ramp while `t < attack_time` and by the fade ramp while the
/// remaining finite duration is shorter than `fade_time`.
pub open spec fn spec_envelope(env: SetEnvelopeReport, time: int, duration: Option<u16>) -> int {
    let a = spec_level(env.attack_level@);
    let r1 = if time < env.attack_time {
        let fade = a + (10000 - a) * time / (env.attack_time as int);
        if fade < 10000 {
            fade
        } else {
            10000int
        }
    } else {
        10000int
    };
    match duration {
        Some(d) => {
            let f = spec_level(env.fade_level@);
            if time <= d && time + env.fade_time > d {
                let fade = f + (10000 - f) * (d - time) / (env.fade_time as int);
                if fade < r1 {
                    fade
                } else {
                    r1
                }
            } else {
                r1
            }
        },
        None => r1,
    }
}

/// The envelope factor of an optional envelope block: one when absent.
pub open spec fn spec_envelope_opt(
    env: Option<SetEnvelopeReport>,
    time: int,
    duration: Option<u16>,
) -> int {
    match env {
        Some(e) => spec_envelope(e, time, duration),
        None => 10000,
    }
}

/// An attack or fade ramp stays inside `[level, 10000]`.
proof fn lemma_ramp_term_bounds(l: int, t: int, span: int)
    requires
        0 <= l <= 10000,
        0 <= t < span,
    ensures
        0 <= l + (10000 - l) * t / span <= 10000,
{
    lemma_frac_shrink(10000 - l, t, span);
    assert(tdiv((10000 - l) * t, span) == (10000 - l) * t / span);
    assert((10000 - l) * t >= 0) by (nonlinear_arith)
        requires
            10000 - l >= 0,
            t >= 0,
    ;
    vstd::arithmetic::div_mod::lemma_div_pos_is_pos((10000 - l) * t, span);
}

/// The envelope factor always lies in `[0, 1]`.
pub proof fn lemma_envelope_bounds(env: SetEnvelopeReport, time: int, duration: Option<u16>)
    requires
        time >= 0,
    ensures
        0 <= spec_envelope(env, time, duration) <= 10000,
{
    let a = spec_level(env.attack_level@);
    if time < env.attack_time {
        lemma_ramp_term_bounds(a, time, env.attack_time as int);
    }
    match duration {
        Some(d) => {
            let f = spec_level(env.fade_level@);
            if time <= d && time + env.fade_time > d {
                lemma_ramp_term_bounds(f, d - time, env.fade_time as int);
            }
        },
        None => {},
    }
}

/// Evaluates the optional envelope at a point in time.
pub fn calculate_envelope(
    envelope: Option<&SetEnvelopeReport>,
    time: u32,
    duration: Option<u16>,
) -> (r: FixedFFB)
    ensures
        r@ == spec_envelope_opt(
            match envelope {
                Some(e) => Some(*e),
                None => None,
            },
            time as int,
            duration,
        ),
        0 <= r@ <= 10000,
{
    let env: &SetEnvelopeReport = match envelope {
        Some(e) => e,
        None => {
            return Fixed(10000);
        },
    };
    proof {
        lemma_envelope_bounds(*env, time as int, duration);
    }
    let a: i64 = clamp_level(env.attack_level.0) as i64;
    let mut result: i64 = 10000;
    if time < env.attack_time {
        proof {
            lemma_ramp_term_bounds(a as int, time as int, env.attack_time as int);
            assert(tdiv((10000 - a as int) * (time as int), env.attack_time as int) == (10000
                - a as int) * (time as int) / (env.attack_time as int));
            lemma_frac_shrink(10000 - a as int, time as int, env.attack_time as int);
        }
        proof {
            assert(0 <= (10000 - a as int) * (time as int) <= 0x10000000000000) by (nonlinear_arith)
                requires
                    0 <= a <= 10000,
                    0 <= (time as int) < 0x1_0000_0000,
            ;
        }
        let fade: i64 = a + tdiv64((10000 - a) * (time as i64), env.attack_time as i64);
        if fade < result {
            result = fade;
        }
    }
    match duration {
        Some(d) => {
            if time <= d as u32 && (time as u64) + (env.fade_time as u64) > (d as u64) {
                let f: i64 = clamp_level(env.fade_level.0) as i64;
                proof {
                    lemma_ramp_term_bounds(f as int, d - time, env.fade_time as int);
                    assert(tdiv((10000 - f as int) * (d - time), env.fade_time as int) == (10000
                        - f as int) * (d - time) / (env.fade_time as int));
                    lemma_frac_shrink(10000 - f as int, d - time, env.fade_time as int);
                }
                proof {
                    assert(0 <= (10000 - f as int) * (d - time) <= 0x10000000000000)
                        by (nonlinear_arith)
                        requires
                            0 <= f <= 10000,
                            0 <= d - time < 0x1_0000_0000,
                    ;
                }
                let fade: i64 = f + tdiv64(
                    (10000 - f) * ((d as i64) - (time as i64)),
                    env.fade_time as i64,
                );
                if fade < result {
                    result = fade;
                }
            }
        },
        None => {},
    }
    Fixed(result as i16)
}

/// Clamps a level into `[0, 10000]` counts.
fn clamp_level(l: i16) -> (r: i16)
    ensures
        r as int == spec_level(l as int),
{
    if l < 0 {
        0
    } else if l > 10000 {
        10000
    } else {
        l
    }
}

/// The raw condition force before the effect gain: piecewise linear in
/// the metric around the dead band, clamped by the saturations.
pub open spec fn spec_condition_force(metric: int, c: SetConditionReport) -> int {
    let cp = c.cp_offset@;
    let db = if c.dead_band@ >= 0 {
        c.dead_band@
    } else {
        0
    };
    let raw = if metric < cp - db {
        tdiv(c.negative_coefficient@ * (metric - (cp - db)), 10000)
    } else if metric > cp + db {
        tdiv(c.positive_coefficient@ * (metric - (cp + db)), 10000)
    } else {
        0
    };
    clamp_i(
        raw,
        -spec_level(c.negative_saturation@),
        spec_level(c.positive_saturation@),
    )
}

/// Evaluates the condition law on a metric (position, velocity, or
/// acceleration).
pub fn condition_force(metric: FixedSteering, condition: &SetConditionReport) -> (r: FixedFFB)
    ensures
        r@ == spec_condition_force(metric@, *condition),
        -10000 <= r@ <= 10000,
{
    let m: i64 = metric.0 as i64;
    let cp: i64 = condition.cp_offset.0 as i64;
    let db0: i64 = condition.dead_band.0 as i64;
    let db: i64 = if db0 >= 0 {
        db0
    } else {
        0
    };
    proof {
        let nc = condition.negative_coefficient.0 as int;
        let pc = condition.positive_coefficient.0 as int;
        assert(-0x1_0000_0000_0000 <= nc * (m - (cp - db)) <= 0x1_0000_0000_0000)
            by (nonlinear_arith)
            requires
                -0x8000 <= nc <= 0x7fff,
                -0x2_0000 <= (m as int) - ((cp as int) - (db as int)) <= 0x2_0000,
                m == m as int && cp == cp as int && db == db as int,
        ;
        assert(-0x1_0000_0000_0000 <= pc * (m - (cp + db)) <= 0x1_0000_0000_0000)
            by (nonlinear_arith)
            requires
                -0x8000 <= pc <= 0x7fff,
                -0x2_0000 <= (m as int) - ((cp as int) + (db as int)) <= 0x2_0000,
                m == m as int && cp == cp as int && db == db as int,
        ;
    }
    let raw: i64 = if m < cp - db {
        tdiv64((condition.negative_coefficient.0 as i64) * (m - (cp - db)), 10000)
    } else if m > cp + db {
        tdiv64((condition.positive_coefficient.0 as i64) * (m - (cp + db)), 10000)
    } else {
        0
    };
    let nsat: i64 = clamp_level(condition.negative_saturation.0) as i64;
    let psat: i64 = clamp_level(condition.positive_saturation.0) as i64;
    let clamped: i64 = if raw < -nsat {
        -nsat
    } else if raw > psat {
        psat
    } else {
        raw
    };
    Fixed(clamped as i16)
}

/// One quarter wave of the sine, sampled at 65 points scaled by
/// `32767`; entry `k` is `round(sin(k * pi / 128) * 32767)`.
#[verifier::opaque]
pub open spec fn spec_sine_table(k: int) -> int {
    if k == 0 {
        0int
    } else if k == 1 {
        804int
    } else if k == 2 {
        1607int
    } else if k == 3 {
        2410int
    } else if k == 4 {
        3211int
    } else if k == 5 {
        4011int
    } else if k == 6 {
        4807int
    } else if k == 7 {
        5601int
    } else if k == 8 {
        6392int
    } else if k == 9 {
        7179int
    } else if k == 10 {
        7961int
    } else if k == 11 {
        8739int
    } else if k == 12 {
        9511int
    } else if k == 13 {
        10278int
    } else if k == 14 {
        11038int
    } else if k == 15 {
        11792int
    } else if k == 16 {
        12539int
    } else if k == 17 {
        13278int
    } else if k == 18 {
        14009int
    } else if k == 19 {
        14732int
    } else if k == 20 {
        15446int
    } else if k == 21 {
        16150int
    } else if k == 22 {
        16845int
    } else if k == 23 {
        17530int
    } else if k == 24 {
        18204int
    } else if k == 25 {
        18867int
    } else if k == 26 {
        19519int
    } else if k == 27 {
        20159int
    } else if k == 28 {
        20787int
    } else if k == 29 {
        21402int
    } else if k == 30 {
        22004int
    } else if k == 31 {
        22594int
    } else if k == 32 {
        23169int
    } else if k == 33 {
        23731int
    } else if k == 34 {
        24278int
    } else if k == 35 {
        24811int
    } else if k == 36 {
        25329int
    } else if k == 37 {
        25831int
    } else if k == 38 {
        26318int
    } else if k == 39 {
        26789int
    } else if k == 40 {
        27244int
    } else if k == 41 {
        27683int
    } else if k == 42 {
        28105int
    } else if k == 43 {
        28510int
    } else if k == 44 {
        28897int
    } else if k == 45 {
        29268int
    } else if k == 46 {
        29621int
    } else if k == 47 {
        29955int
    } else if k == 48 {
        30272int
    } else if k == 49 {
        30571int
    } else if k == 50 {
        30851int
    } else if k == 51 {
        31113int
    } else if k == 52 {
        31356int
    } else if k == 53 {
        31580int
    } else if k == 54 {
        31785int
    } else if k == 55 {
        31970int
    } else if k == 56 {
        32137int
    } else if k == 57 {
        32284int
    } else if k == 58 {
        32412int
    } else if k == 59 {
        32520int
    } else if k == 60 {
        32609int
    } else if k == 61 {
        32678int
    } else if k == 62 {
        32727int
    } else if k == 63 {
        32757int
    } else {
        32767int
    }
}

/// Looks up one quarter-wave sample.
fn sine_table(k: u64) -> (r: i16)
    requires
        k <= 64,
    ensures
        r as int == spec_sine_table(k as int),
        0 <= r <= 32767,
{
    proof {
        reveal(spec_sine_table);
    }
    if k == 0 {
        0
    } else if k == 1 {
        804
    } else if k == 2 {
        1607
    } else if k == 3 {
        2410
    } else if k == 4 {
        3211
    } else if k == 5 {
        4011
    } else if k == 6 {
        4807
    } else if k == 7 {
        5601
    } else if k == 8 {
        6392
    } else if k == 9 {
        7179
    } else if k == 10 {
        7961
    } else if k == 11 {
        8739
    } else if k == 12 {
        9511
    } else if k == 13 {
        10278
    } else if k == 14 {
        11038
    } else if k == 15 {
        11792
    } else if k == 16 {
        12539
    } else if k == 17 {
        13278
    } else if k == 18 {
        14009
    } else if k == 19 {
        14732
    } else if k == 20 {
        15446
    } else if k == 21 {
        16150
    } else if k == 22 {
        16845
    } else if k == 23 {
        17530
    } else if k == 24 {
        18204
    } else if k == 25 {
        18867
    } else if k == 26 {
        19519
    } else if k == 27 {
        20159
    } else if k == 28 {
        20787
    } else if k == 29 {
        21402
    } else if k == 30 {
        22004
    } else if k == 31 {
        22594
    } else if k == 32 {
        23169
    } else if k == 33 {
        23731
    } else if k == 34 {
        24278
    } else if k == 35 {
        24811
    } else if k == 36 {
        25329
    } else if k == 37 {
        25831
    } else if k == 38 {
        26318
    } else if k == 39 {
        26789
    } else if k == 40 {
        27244
    } else if k == 41 {
        27683
    } else if k == 42 {
        28105
    } else if k == 43 {
        28510
    } else if k == 44 {
        28897
    } else if k == 45 {
        29268
    } else if k == 46 {
        29621
    } else if k == 47 {
        29955
    } else if k == 48 {
        30272
    } else if k == 49 {
        30571
    } else if k == 50 {
        30851
    } else if k == 51 {
        31113
    } else if k == 52 {
        31356
    } else if k == 53 {
        31580
    } else if k == 54 {
        31785
    } else if k == 55 {
        31970
    } else if k == 56 {
        32137
    } else if k == 57 {
        32284
    } else if k == 58 {
        32412
    } else if k == 59 {
        32520
    } else if k == 60 {
        32609
    } else if k == 61 {
        32678
    } else if k == 62 {
        32727
    } else if k == 63 {
        32757
    } else {
        32767
    }
}

/// Every table entry lies in `[0, 32767]`.
pub proof fn lemma_sine_table_bounds(k: int)
    ensures
        0 <= spec_sine_table(k) <= 32767,
{
    reveal(spec_sine_table);
}

/// Every waveform value stays inside the full-scale amplitude its
/// denominator names; for the sine that is the table's `32767`.
pub proof fn lemma_sine_wave_bounds(u: int, p: int)
    ensures
        -32767 <= spec_sine_wave(u, p) <= 32767,
{
    let t4 = 4 * u;
    let t4a = if t4 >= 2 * p {
        t4 - 2 * p
    } else {
        t4
    };
    let t4b = if t4a >= p {
        2 * p - t4a
    } else {
        t4a
    };
    lemma_sine_table_bounds(t4b * 64 / p);
    if t4 >= 2 * p {
        assert(spec_sine_wave(u, p) == (-1) * spec_sine_table(t4b * 64 / p));
        assert((-1) * spec_sine_table(t4b * 64 / p) == -spec_sine_table(t4b * 64 / p));
    } else {
        assert(spec_sine_wave(u, p) == 1 * spec_sine_table(t4b * 64 / p));
        assert(1 * spec_sine_table(t4b * 64 / p) == spec_sine_table(t4b * 64 / p));
    }
}

/// The square waveform over one period: `-1` while the phase is below
/// half the period, `+1` from half the period on, scaled by the
/// fraction's unit denominator.
pub open spec fn spec_square_wave(u: int, p: int) -> int {
    if 2 * u >= p {
        1
    } else {
        -1
    }
}

/// The quarter-wave folded sine over one period, scaled by `32767`.
pub open spec fn spec_sine_wave(u: int, p: int) -> int {
    let t4 = 4 * u;
    let sign: int = if t4 >= 2 * p {
        -1
    } else {
        1
    };
    let t4a = if t4 >= 2 * p {
        t4 - 2 * p
    } else {
        t4
    };
    let t4b = if t4a >= p {
        2 * p - t4a
    } else {
        t4a
    };
    sign * spec_sine_table(t4b * 64 / p)
}

/// The triangle waveform over one period, scaled by the period.
pub open spec fn spec_triangle_wave(u: int, p: int) -> int {
    let s = if 2 * u < p {
        2 * u
    } else {
        2 * p - 2 * u
    };
    2 * s - p
}

/// The rising sawtooth over one period, scaled by the period.
pub open spec fn spec_sawtooth_up_wave(u: int, p: int) -> int {
    2 * u - p
}

/// The falling sawtooth over one period, scaled by the period.
pub open spec fn spec_sawtooth_down_wave(u: int, p: int) -> int {
    p - 2 * u
}

/// Square waveform on a time-over-period fraction.
pub fn square_fn(time: FracU32) -> (r: FracI64)
    requires
        time.1 > 0,
    ensures
        r.0 == spec_square_wave(time.0 as int % time.1 as int, time.1 as int),
        r.1 == 1,
        -1 <= r.0 <= 1,
{
    let t: u32 = time.0 % time.1;
    if 2 * (t as u64) >= time.1 as u64 {
        Frac(1, 1)
    } else {
        Frac(-1, 1)
    }
}

/// Sine waveform on a time-over-period fraction, from the quarter-wave
/// table.
pub fn sine_fn(time: FracU32) -> (r: FracI64)
    requires
        time.1 > 0,
    ensures
        r.0 == spec_sine_wave(time.0 as int % time.1 as int, time.1 as int),
        r.1 == 32767,
        -32767 <= r.0 <= 32767,
{
    let p: u64 = time.1 as u64;
    let u: u64 = (time.0 as u64) % p;
    let t4: u64 = 4 * u;
    let (sign, t4a): (i64, u64) = if t4 >= 2 * p {
        (-1, t4 - 2 * p)
    } else {
        (1, t4)
    };
    let t4b: u64 = if t4a >= p {
        2 * p - t4a
    } else {
        t4a
    };
    proof {
        assert((t4b * 64) as int / p as int <= 64) by {
            assert(t4b * 64 <= p * 64) by (nonlinear_arith)
                requires
                    t4b <= p,
            ;
            vstd::arithmetic::div_mod::lemma_div_is_ordered(
                (t4b * 64) as int,
                (p * 64) as int,
                p as int,
            );
            vstd::arithmetic::div_mod::lemma_div_by_multiple(64, p as int);
            assert(p * 64 == 64 * p) by (nonlinear_arith);
        }
        vstd::arithmetic::div_mod::lemma_div_pos_is_pos((t4b * 64) as int, p as int);
    }
    let index: u64 = (t4b * 64) / p;
    let sample: i16 = sine_table(index);
    proof {
        let ps = time.1 as int;
        let us = time.0 as int % ps;
        let t4s = 4 * us;
        let t4as: int = if t4s >= 2 * ps {
            t4s - 2 * ps
        } else {
            t4s
        };
        let t4bs: int = if t4as >= ps {
            2 * ps - t4as
        } else {
            t4as
        };
        assert(u as int == us);
        assert(t4 as int == t4s);
        assert(t4a as int == t4as);
        assert(t4b as int == t4bs);
        assert(index as int == t4bs * 64 / ps);
        assert(sample as int == spec_sine_table(t4bs * 64 / ps));
    }
    let num: i64 = if sign < 0 {
        -(sample as i64)
    } else {
        sample as i64
    };
    proof {
        let ps = time.1 as int;
        let us = time.0 as int % ps;
        let t4s = 4 * us;
        let t4as: int = if t4s >= 2 * ps {
            t4s - 2 * ps
        } else {
            t4s
        };
        let t4bs: int = if t4as >= ps {
            2 * ps - t4as
        } else {
            t4as
        };
        let sign_s: int = if t4s >= 2 * ps {
            -1
        } else {
            1
        };
        assert((sign < 0) == (t4s >= 2 * ps));
        assert(spec_sine_wave(us, ps) == sign_s * spec_sine_table(t4bs * 64 / ps));
        assert(num as int == sign_s * spec_sine_table(t4bs * 64 / ps));
    }
    Frac(num, 32767)
}

/// Triangle waveform on a time-over-period fraction.
pub fn triangle_fn(time: FracU32) -> (r: FracI64)
    requires
        time.1 > 0,
    ensures
        r.0 == spec_triangle_wave(time.0 as int % time.1 as int, time.1 as int),
        r.1 == time.1 as int,
        -(time.1 as int) <= r.0 <= time.1 as int,
{
    let p: i64 = time.1 as i64;
    let u: i64 = ((time.0 % time.1) as i64);
    let s: i64 = if 2 * u < p {
        2 * u
    } else {
        2 * p - 2 * u
    };
    Frac(2 * s - p, p)
}

/// Rising sawtooth waveform on a time-over-period fraction.
pub fn sawtooth_up_fn(time: FracU32) -> (r: FracI64)
    requires
        time.1 > 0,
    ensures
        r.0 == spec_sawtooth_up_wave(time.0 as int % time.1 as int, time.1 as int),
        r.1 == time.1 as int,
        -(time.1 as int) <= r.0 <= time.1 as int,
{
    let p: i64 = time.1 as i64;
    let u: i64 = ((time.0 % time.1) as i64);
    Frac(2 * u - p, p)
}

/// Falling sawtooth waveform on a time-over-period fraction.
pub fn sawtooth_down_fn(time: FracU32) -> (r: FracI64)
    requires
        time.1 > 0,
    ensures
        r.0 == spec_sawtooth_down_wave(time.0 as int % time.1 as int, time.1 as int),
        r.1 == time.1 as int,
        -(time.1 as int) <= r.0 <= time.1 as int,
{
    let p: i64 = time.1 as i64;
    let u: i64 = ((time.0 % time.1) as i64);
    Frac(p - 2 * u, p)
}

/// An optional borrowed record as an optional value.
pub open spec fn spec_opt<T>(o: Option<&T>) -> Option<T> {
    match o {
        Some(x) => Some(*x),
        None => None,
    }
}

/// Scaling a 16-bit value by a factor in `[0, 1]` keeps it in 16 bits,
/// shrinks it toward zero, and keeps its sign.
pub proof fn lemma_i16_scale(m: int, k: int)
    requires
        -0x8000 <= m <= 0x7fff,
        0 <= k <= 10000,
    ensures
        -0x8000 <= tdiv(m * k, 10000) <= 0x7fff,
        -abs(m) <= tdiv(m * k, 10000) <= abs(m),
        m >= 0 ==> 0 <= tdiv(m * k, 10000) <= m,
        m < 0 ==> tdiv(m * k, 10000) <= 0,
{
    lemma_frac_shrink(m, k, 10000);
    assert(m >= 0 && k >= 0 ==> m * k >= 0) by (nonlinear_arith);
    assert(m < 0 && k >= 0 ==> m * k <= 0) by (nonlinear_arith);
    if m * k >= 0 {
        vstd::arithmetic::div_mod::lemma_div_pos_is_pos(m * k, 10000);
    }
}

/// The constant-force kernel: magnitude shaped by the envelope, then by
/// the clamped effect gain.
pub open spec fn spec_constant_ffb(
    e: SetEffectReport,
    cf: SetConstantForceReport,
    env: Option<SetEnvelopeReport>,
    t: int,
) -> int {
    let f1 = tdiv(cf.magnitude@ * spec_envelope_opt(env, t, e.duration), 10000);
    tdiv(f1 * spec_gain(e), 10000)
}

/// Evaluates the constant-force kernel.
pub fn constant_ffb(
    effect: &SetEffectReport,
    constant_force: &SetConstantForceReport,
    envelope: Option<&SetEnvelopeReport>,
    time: u32,
) -> (r: FixedFFB)
    ensures
        r@ == spec_constant_ffb(*effect, *constant_force, spec_opt(envelope), time as int),
{
    let env: FixedFFB = calculate_envelope(envelope, time, effect.duration);
    let g: FixedFFB = Fixed(clamp_level(effect.gain.0));
    proof {
        lemma_i16_scale(constant_force.magnitude@, env@);
        lemma_i16_scale(tdiv(constant_force.magnitude@ * env@, 10000), g@);
    }
    let f1: FixedFFB = constant_force.magnitude.mul(env);
    f1.mul(g)
}

/// The ramp kernel: force slides linearly from start to end over the
/// finite duration, then is shaped like a constant force.  Without a
/// finite duration, or past it, the ramp contributes nothing.
pub open spec fn spec_ramp_ffb(
    e: SetEffectReport,
    rf: SetRampForceReport,
    env: Option<SetEnvelopeReport>,
    t: int,
) -> int {
    match e.duration {
        None => 0,
        Some(d) => if d == 0 || t > d {
            0
        } else {
            let base = rf.ramp_start@ + tdiv((rf.ramp_end@ - rf.ramp_start@) * t, d as int);
            let f1 = tdiv(base * spec_envelope_opt(env, t, e.duration), 10000);
            tdiv(f1 * spec_gain(e), 10000)
        },
    }
}

/// Evaluates the ramp kernel.
pub fn ramp_ffb(
    effect: &SetEffectReport,
    ramp_force: &SetRampForceReport,
    envelope: Option<&SetEnvelopeReport>,
    time: u32,
) -> (r: FixedFFB)
    ensures
        r@ == spec_ramp_ffb(*effect, *ramp_force, spec_opt(envelope), time as int),
{
    let d: u16 = match effect.duration {
        None => {
            return Fixed(0);
        },
        Some(d) => d,
    };
    if d == 0 || time > d as u32 {
        return Fixed(0);
    }
    let rs: i64 = ramp_force.ramp_start.0 as i64;
    let delta: i64 = (ramp_force.ramp_end.0 as i64) - rs;
    proof {
        assert(-0x2_0000_0000 <= delta * (time as int) <= 0x2_0000_0000) by (nonlinear_arith)
            requires
                -0x1_0000 <= delta <= 0x1_0000,
                0 <= (time as int) <= 0xffff,
        ;
        lemma_frac_shrink(delta as int, time as int, d as int);
        assert(delta >= 0 ==> delta * (time as int) >= 0) by (nonlinear_arith);
        assert(delta < 0 ==> delta * (time as int) <= 0) by (nonlinear_arith);
        if delta * (time as int) >= 0 {
            vstd::arithmetic::div_mod::lemma_div_pos_is_pos(delta * (time as int), d as int);
        }
    }
    let scaled: i64 = tdiv64(delta * (time as i64), d as i64);
    let base: FixedFFB = Fixed((rs + scaled) as i16);
    let env: FixedFFB = calculate_envelope(envelope, time, effect.duration);
    let g: FixedFFB = Fixed(clamp_level(effect.gain.0));
    proof {
        lemma_i16_scale(base@, env@);
        lemma_i16_scale(tdiv(base@ * env@, 10000), g@);
    }
    let f1: FixedFFB = base.mul(env);
    f1.mul(g)
}

/// The condition kernel: the raw condition force scaled by the clamped
/// effect gain.
pub open spec fn spec_condition_ffb(e: SetEffectReport, c: SetConditionReport, metric: int) -> int {
    tdiv(spec_condition_force(metric, c) * spec_gain(e), 10000)
}

/// Evaluates the condition kernel on one metric.
pub fn condition_ffb(
    effect: &SetEffectReport,
    condition_1: &SetConditionReport,
    metric: FixedSteering,
) -> (r: FixedFFB)
    ensures
        r@ == spec_condition_ffb(*effect, *condition_1, metric@),
        -10000 <= r@ <= 10000,
{
    let force: FixedFFB = condition_force(metric, condition_1);
    let g: FixedFFB = Fixed(clamp_level(effect.gain.0));
    proof {
        lemma_i16_scale(force@, g@);
        lemma_unit_mul_bound(force@, g@);
    }
    force.mul(g)
}

/// The periodic kernel: the waveform phase within the period, the
/// waveform value scaled by the magnitude, then envelope and gain.
pub open spec fn spec_periodic_ffb(
    e: SetEffectReport,
    p: SetPeriodicReport,
    env: Option<SetEnvelopeReport>,
    t: int,
) -> int {
    if p.period == 0 {
        0
    } else {
        let tau = t + (p.phase * p.period) / 36000;
        let u = tau % (p.period as int);
        let is_wave = e.effect_type == EffectType::Square || e.effect_type == EffectType::Sine
            || e.effect_type == EffectType::Triangle || e.effect_type == EffectType::SawtoothUp
            || e.effect_type == EffectType::SawtoothDown;
        if !is_wave {
            0
        } else {
            let wnum = if e.effect_type == EffectType::Square {
                spec_square_wave(u, p.period as int)
            } else if e.effect_type == EffectType::Sine {
                spec_sine_wave(u, p.period as int)
            } else if e.effect_type == EffectType::Triangle {
                spec_triangle_wave(u, p.period as int)
            } else if e.effect_type == EffectType::SawtoothUp {
                spec_sawtooth_up_wave(u, p.period as int)
            } else {
                spec_sawtooth_down_wave(u, p.period as int)
            };
            let wden = if e.effect_type == EffectType::Square {
                1int
            } else if e.effect_type == EffectType::Sine {
                32767int
            } else {
                p.period as int
            };
            let f0 = crate::fixed::sat16(tdiv(p.magnitude@ * wnum, wden));
            let f1 = tdiv(f0 * spec_envelope_opt(env, t, e.duration), 10000);
            tdiv(f1 * spec_gain(e), 10000)
        }
    }
}

/// Evaluates the periodic kernel, choosing the waveform by the
/// descriptor's effect type.
pub fn periodic_ffb(
    effect: &SetEffectReport,
    periodic: &SetPeriodicReport,
    envelope: Option<&SetEnvelopeReport>,
    time: u32,
) -> (r: FixedFFB)
    ensures
        r@ == spec_periodic_ffb(*effect, *periodic, spec_opt(envelope), time as int),
{
    if periodic.period == 0 {
        return Fixed(0);
    }
    proof {
        assert((periodic.phase as int) * (periodic.period as int) <= 0xffff * 0xffff_ffff
            && 0 <= (periodic.phase as int) * (periodic.period as int)) by (nonlinear_arith)
            requires
                0 <= (periodic.phase as int) <= 0xffff,
                0 <= (periodic.period as int) <= 0xffff_ffff,
        ;
    }
    let phase_shift: u64 = ((periodic.phase as u64) * (periodic.period as u64)) / 36000;
    let tau: u64 = (time as u64) + phase_shift;
    let v: u32 = (tau % (periodic.period as u64)) as u32;
    proof {
        assert(phase_shift as int == (periodic.phase as int) * (periodic.period as int) / 36000);
        assert(tau as int == time as int + (periodic.phase as int) * (periodic.period as int)
            / 36000);
        assert(v as int == tau as int % (periodic.period as int));
    }
    let frac: FracU32 = Frac(v, periodic.period);
    let w: FracI64 = match effect.effect_type {
        EffectType::Square => square_fn(frac),
        EffectType::Sine => sine_fn(frac),
        EffectType::Triangle => triangle_fn(frac),
        EffectType::SawtoothUp => sawtooth_up_fn(frac),
        EffectType::SawtoothDown => sawtooth_down_fn(frac),
        _ => {
            return Fixed(0);
        },
    };
    proof {
        vstd::arithmetic::div_mod::lemma_mod_division_less_than_divisor(
            tau as int,
            periodic.period as int,
        );
        vstd::arithmetic::div_mod::lemma_small_mod(v as nat, periodic.period as nat);
        assert(v as int % (periodic.period as int) == v as int);
    }
    let force0: FixedFFB = periodic.magnitude.mul_frac_i64(w);
    let env: FixedFFB = calculate_envelope(envelope, time, effect.duration);
    let g: FixedFFB = Fixed(clamp_level(effect.gain.0));
    proof {
        lemma_i16_scale(force0@, env@);
        lemma_i16_scale(tdiv(force0@ * env@, 10000), g@);
    }
    let f1: FixedFFB = force0.mul(env);
    f1.mul(g)
}

/// Whether the descriptor's finite duration lies behind the elapsed
/// time, so that the effect contributes nothing.
pub open spec fn spec_past_duration(e: SetEffectReport, t: int) -> bool {
    match e.duration {
        Some(d) => t > d,
        None => false,
    }
}

/// The force of one effect at one point in time: zero past a finite
/// duration, else the kernel selected by the parameter blocks and the
/// effect type.
pub open spec fn spec_compute(effect: Effect, t: int, pos: int, vel: int, acc: int) -> int {
    match effect.effect_report {
        None => 0,
        Some(e) => {
            if spec_past_duration(e, t) {
                0
            } else {
                match (effect.parameter_1, effect.parameter_2) {
                    (Some(EffectParameter::ConstantForce(p1)), None) => spec_constant_ffb(
                        e,
                        p1,
                        None,
                        t,
                    ),
                    (
                        Some(EffectParameter::ConstantForce(p1)),
                        Some(EffectParameter::Envelope(p2)),
                    ) => spec_constant_ffb(e, p1, Some(p2), t),
                    (Some(EffectParameter::RampForce(p1)), None) => spec_ramp_ffb(e, p1, None, t),
                    (Some(EffectParameter::RampForce(p1)), Some(EffectParameter::Envelope(p2))) =>
                        spec_ramp_ffb(e, p1, Some(p2), t),
                    (Some(EffectParameter::CustomForce(_)), _) => 0,
                    (Some(EffectParameter::Periodic(p1)), None) => spec_periodic_ffb(
                        e,
                        p1,
                        None,
                        t,
                    ),
                    (Some(EffectParameter::Periodic(p1)), Some(EffectParameter::Envelope(p2))) =>
                        spec_periodic_ffb(e, p1, Some(p2), t),
                    (Some(EffectParameter::Condition(p1)), _) => {
                        if e.effect_type == EffectType::Spring {
                            spec_condition_ffb(e, p1, pos)
                        } else if e.effect_type == EffectType::Damper {
                            spec_condition_ffb(e, p1, vel)
                        } else if e.effect_type == EffectType::Inertia {
                            spec_condition_ffb(e, p1, acc)
                        } else {
                            0
                        }
                    },
                    _ => 0,
                }
            }
        },
    }
}

/// A complete effect past its finite duration contributes no force.
pub proof fn lemma_compute_past_duration(effect: Effect, t: int, pos: int, vel: int, acc: int)
    requires
        effect.effect_report matches Some(e) && spec_past_duration(e, t),
    ensures
        spec_compute(effect, t, pos, vel, acc) == 0,
{
}

/// Evaluates one effect's force at one point in time.
pub fn calculate_force_feedback(
    effect: &Effect,
    time: u32,
    position: FixedSteering,
    velocity: FixedSteering,
    acceleration: FixedSteering,
) -> (r: FixedFFB)
    ensures
        r@ == spec_compute(*effect, time as int, position@, velocity@, acceleration@),
{
    let e: SetEffectReport = match effect.effect_report {
        None => {
            return Fixed(0);
        },
        Some(e) => e,
    };
    match e.duration {
        Some(d) => {
            if time > d as u32 {
                return Fixed(0);
            }
        },
        None => {},
    }
    match (effect.parameter_1, effect.parameter_2) {
        (Some(EffectParameter::ConstantForce(p1)), None) => constant_ffb(&e, &p1, None, time),
        (Some(EffectParameter::ConstantForce(p1)), Some(EffectParameter::Envelope(p2))) =>
            constant_ffb(&e, &p1, Some(&p2), time),
        (Some(EffectParameter::RampForce(p1)), None) => ramp_ffb(&e, &p1, None, time),
        (Some(EffectParameter::RampForce(p1)), Some(EffectParameter::Envelope(p2))) => ramp_ffb(
            &e,
            &p1,
            Some(&p2),
            time,
        ),
        (Some(EffectParameter::CustomForce(_)), _) => Fixed(0),
        (Some(EffectParameter::Periodic(p1)), None) => periodic_ffb(&e, &p1, None, time),
        (Some(EffectParameter::Periodic(p1)), Some(EffectParameter::Envelope(p2))) => periodic_ffb(
            &e,
            &p1,
            Some(&p2),
            time,
        ),
        (Some(EffectParameter::Condition(p1)), _) => {
            match e.effect_type {
                EffectType::Spring => condition_ffb(&e, &p1, position),
                EffectType::Damper => condition_ffb(&e, &p1, velocity),
                EffectType::Inertia => condition_ffb(&e, &p1, acceleration),
                _ => Fixed(0),
            }
        },
        _ => Fixed(0),
    }
}

/// The envelope is monotone non-decreasing over the attack window, as
/// long as the fade window has not opened (it never opens for an
/// infinite duration, and not before `duration - fade_time`).
pub proof fn lemma_envelope_attack_monotone(
    env: SetEnvelopeReport,
    t1: int,
    t2: int,
    duration: Option<u16>,
)
    requires
        0 <= t1 <= t2 <= env.attack_time,
        match duration {
            Some(d) => t2 <= d && t2 + env.fade_time <= d,
            None => true,
        },
    ensures
        spec_envelope(env, t1, duration) <= spec_envelope(env, t2, duration),
{
    let a = spec_level(env.attack_level@);
    let span = env.attack_time as int;
    lemma_envelope_bounds(env, t1, duration);
    lemma_envelope_bounds(env, t2, duration);
    if t2 < env.attack_time {
        assert((10000 - a) * t1 <= (10000 - a) * t2) by (nonlinear_arith)
            requires
                t1 <= t2,
                0 <= 10000 - a,
        ;
        vstd::arithmetic::div_mod::lemma_div_is_ordered(
            (10000 - a) * t1,
            (10000 - a) * t2,
            span,
        );
    } else {
        if t1 < env.attack_time {
            lemma_ramp_term_bounds(a, t1, span);
        }
    }
}

/// The envelope is monotone non-increasing over the fade window of a
/// finite duration, once the attack window has closed.
pub proof fn lemma_envelope_fade_monotone(env: SetEnvelopeReport, t1: int, t2: int, d: u16)
    requires
        env.attack_time <= t1 <= t2 <= d,
    ensures
        spec_envelope(env, t2, Some(d)) <= spec_envelope(env, t1, Some(d)),
{
    let f = spec_level(env.fade_level@);
    let span = env.fade_time as int;
    lemma_envelope_bounds(env, t1, Some(d));
    lemma_envelope_bounds(env, t2, Some(d));
    if t1 + env.fade_time > d {
        assert(t2 + env.fade_time > d);
        assert((10000 - f) * (d - t2) <= (10000 - f) * (d - t1)) by (nonlinear_arith)
            requires
                d - t2 <= d - t1,
                0 <= 10000 - f,
        ;
        vstd::arithmetic::div_mod::lemma_div_is_ordered(
            (10000 - f) * (d - t2),
            (10000 - f) * (d - t1),
            span,
        );
    } else {
        if t2 + env.fade_time > d {
            lemma_ramp_term_bounds(f, d - t2, span);
        }
    }
}

/// The square wave is `-1` exactly while the phase ratio is below one
/// half, and `+1` exactly from one half on.
pub proof fn lemma_square_halves(u: int, p: int)
    requires
        0 < p,
        0 <= u < p,
    ensures
        2 * u < p <==> spec_square_wave(u, p) == -1,
        2 * u >= p <==> spec_square_wave(u, p) == 1,
{
}

/// Over an even period the square wave has mean zero: the value at `u`
/// cancels the value half a period later.
pub proof fn lemma_square_mean_zero(u: int, p: int)
    requires
        0 < p,
        p % 2 == 0,
        0 <= u < p / 2,
    ensures
        spec_square_wave(u, p) + spec_square_wave(u + p / 2, p) == 0,
{
    vstd::arithmetic::div_mod::lemma_fundamental_div_mod(p, 2);
}

/// The triangle wave starts at `-1`, peaks at `+1` half way, and steps
/// by at most `4/p` between samples, which is its discrete continuity.
pub proof fn lemma_triangle_shape(u: int, p: int)
    requires
        0 < p,
    ensures
        spec_triangle_wave(0, p) == -p,
        p % 2 == 0 ==> spec_triangle_wave(p / 2, p) == p,
        0 <= u < p - 1 ==> -4 <= spec_triangle_wave(u + 1, p) - spec_triangle_wave(u, p) <= 4,
        -p <= spec_triangle_wave(u, p) || u < 0 || u >= p,
{
    vstd::arithmetic::div_mod::lemma_fundamental_div_mod(p, 2);
}

/// The rising sawtooth starts at `-1` and ends one sample short of
/// `+1`; the falling sawtooth is its negation everywhere.
pub proof fn lemma_sawtooth_shape(u: int, p: int)
    requires
        0 < p,
    ensures
        spec_sawtooth_up_wave(0, p) == -p,
        spec_sawtooth_up_wave(p - 1, p) == p - 2,
        spec_sawtooth_down_wave(u, p) == -spec_sawtooth_up_wave(u, p),
{
}

} // verus!
