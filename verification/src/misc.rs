//! Small shared helpers: bit-flag packing for report bytes, a clamped
//! integer signal, and the fixed-capacity set of running effects.

use crate::racing_wheel::RunningEffect;
use vstd::arithmetic::div_mod::{
    lemma_div_denominator, lemma_div_multiples_vanish_fancy, lemma_mod_multiples_vanish,
};
use vstd::arithmetic::power2::{lemma2_to64, lemma_pow2_pos, lemma_pow2_unfold, pow2};
use vstd::pervasive::VecAdditionalExecFns;
use vstd::prelude::*;
use vstd::slice::slice_index_get;

verus! {

/// The byte that packs a list of flags, bit `i` holding flag `i`.
pub open spec fn flags_value(s: Seq<bool>) -> int
    decreases s.len(),
{
    if s.len() == 0 {
        0
    } else {
        (if s[0] {
            1int
        } else {
            0int
        }) + 2 * flags_value(s.subrange(1, s.len() as int))
    }
}

/// A list of `n` flags packs into fewer than `2^n`.
pub proof fn lemma_flags_value_bound(s: Seq<bool>)
    ensures
        0 <= flags_value(s) < pow2(s.len()),
    decreases s.len(),
{
    if s.len() == 0 {
        lemma2_to64();
    } else {
        lemma_flags_value_bound(s.subrange(1, s.len() as int));
        lemma_pow2_unfold(s.len());
    }
}

/// Bit `i` of the packed byte is flag `i`.
pub proof fn lemma_flags_value_bit(s: Seq<bool>, i: nat)
    requires
        i < s.len(),
    ensures
        (flags_value(s) / pow2(i) as int) % 2 == (if s[i as int] {
            1int
        } else {
            0int
        }),
    decreases i,
{
    let b0: int = if s[0] {
        1
    } else {
        0
    };
    let rest = s.subrange(1, s.len() as int);
    lemma_flags_value_bound(rest);
    if i == 0 {
        lemma2_to64();
        lemma_mod_multiples_vanish(flags_value(rest), b0, 2);
    } else {
        lemma_pow2_unfold(i);
        lemma_pow2_pos((i - 1) as nat);
        lemma_div_multiples_vanish_fancy(flags_value(rest), b0, 2);
        lemma_div_denominator(flags_value(s), 2, pow2((i - 1) as nat) as int);
        lemma_flags_value_bit(rest, (i - 1) as nat);
    }
}

/// `2^i` for a bit position inside one byte.
fn pow2_u16(i: u8) -> (r: u16)
    requires
        i <= 8,
    ensures
        r as int == pow2(i as nat),
{
    proof {
        lemma2_to64();
    }
    if i == 0 {
        1
    } else if i == 1 {
        2
    } else if i == 2 {
        4
    } else if i == 3 {
        8
    } else if i == 4 {
        16
    } else if i == 5 {
        32
    } else if i == 6 {
        64
    } else if i == 7 {
        128
    } else {
        256
    }
}

/// Packs up to eight flags into one byte, flag `i` at bit `i`.
pub fn bitflags(flags: &[bool]) -> (r: u8)
    requires
        flags@.len() <= 8,
    ensures
        r as int == flags_value(flags@),
{
    let len: usize = flags.len();
    let mut acc: u8 = 0;
    let mut j: usize = len;
    while j > 0
        invariant
            j <= len,
            len == flags@.len() <= 8,
            acc as int == flags_value(flags@.subrange(j as int, len as int)),
        decreases j,
    {
        j = j - 1;
        proof {
            let tail = flags@.subrange(j + 1, len as int);
            lemma_flags_value_bound(tail);
            lemma2_to64();
            assert(flags@.subrange(j as int, len as int).subrange(
                1,
                flags@.subrange(j as int, len as int).len() as int,
            ) =~= tail);
        }
        let b: u8 = if *slice_index_get(flags, j) {
            1
        } else {
            0
        };
        acc = 2 * acc + b;
    }
    proof {
        assert(flags@.subrange(0, len as int) =~= flags@);
    }
    acc
}

/// Whether bit `i` of a packed byte is set.
pub open spec fn spec_bitflag(flags: u8, i: nat) -> bool {
    (flags as int / pow2(i) as int) % 2 == 1
}

/// Reads flag `i` back out of a packed byte.
pub fn bitflag(flags: u8, i: u8) -> (r: bool)
    requires
        i < 8,
    ensures
        r == spec_bitflag(flags, i as nat),
{
    let p: u16 = pow2_u16(i);
    proof {
        lemma_pow2_pos(i as nat);
    }
    ((flags as u16) / p) % 2 == 1
}

/// Extracts the `n_bits`-wide field that starts at bit `start`.
pub fn bits(byte: u8, start: u8, n_bits: u8) -> (r: u8)
    requires
        start < 8,
        0 < n_bits <= 8,
        start + n_bits <= 8,
    ensures
        r as int == (byte as int / pow2(start as nat) as int) % pow2(n_bits as nat) as int,
{
    let ps: u16 = pow2_u16(start);
    let pn: u16 = pow2_u16(n_bits);
    proof {
        lemma_pow2_pos(start as nat);
        lemma_pow2_pos(n_bits as nat);
        lemma2_to64();
    }
    (((byte as u16) / ps) % pn) as u8
}

/// An integer signal clamped into a closed run-time range.
pub struct DSignal {
    pub value: i32,
    pub min: i32,
    pub max: i32,
}

impl DSignal {
    /// Well-formedness: the value lies inside the range.
    pub open spec fn wf(&self) -> bool {
        self.min <= self.value <= self.max
    }

    /// Clamps `value` into `[min, max]`.
    pub fn new(value: i32, min: i32, max: i32) -> (r: Self)
        requires
            min <= max,
        ensures
            r.wf(),
            r.min == min,
            r.max == max,
            r.value == if value < min {
                min as int
            } else if value > max {
                max as int
            } else {
                value as int
            },
    {
        let clamped: i32 = if value < min {
            min
        } else if value > max {
            max
        } else {
            value
        };
        Self { value: clamped, min, max }
    }

    /// Rescales the signal linearly onto `[min, max]`.
    pub fn convert(self, min: i32, max: i32) -> (r: DSignal)
        requires
            self.wf(),
            self.min < self.max,
            min <= max,
            (max - min) * (self.max - self.min) <= u64::MAX,
        ensures
            r.wf(),
            r.min == min,
            r.max == max,
            r.value == min + (self.value - self.min) * (max - min) / (self.max - self.min),
    {
        let value: u64 = ((self.value as i64) - (self.min as i64)) as u64;
        let span_new: u64 = ((max as i64) - (min as i64)) as u64;
        let span_old: u64 = ((self.max as i64) - (self.min as i64)) as u64;
        proof {
            assert(value * span_new <= span_old * span_new) by (nonlinear_arith)
                requires
                    0 <= value <= span_old,
                    0 <= span_new,
            ;
            vstd::arithmetic::div_mod::lemma_div_pos_is_pos((value * span_new) as int,
                span_old as int);
            vstd::arithmetic::div_mod::lemma_div_is_ordered((value * span_new) as int,
                (span_old * span_new) as int, span_old as int);
            vstd::arithmetic::div_mod::lemma_div_by_multiple(span_new as int, span_old as int);
            assert(span_old * span_new == span_new * span_old) by (nonlinear_arith);
        }
        let scaled: u64 = (value * span_new) / span_old;
        let value2: i32 = ((scaled as i64) + (min as i64)) as i32;
        Self { value: value2, min, max }
    }

    /// The clamped value.
    pub fn value(&self) -> (r: i32)
        ensures
            r == self.value,
    {
        self.value
    }

    /// The lower bound of the range.
    pub fn min(&self) -> (r: i32)
        ensures
            r == self.min,
    {
        self.min
    }

    /// The upper bound of the range.
    pub fn max(&self) -> (r: i32)
        ensures
            r == self.max,
    {
        self.max
    }
}

/// Fixed-capacity insertion set of running effects, deduplicated by slot
/// index; insertion order is kept for iteration.
pub struct FixedSet<const N: usize> {
    items: Vec<RunningEffect>,
}

impl<const N: usize> View for FixedSet<N> {
    type V = Seq<RunningEffect>;

    closed spec fn view(&self) -> Seq<RunningEffect> {
        self.items@
    }
}

impl<const N: usize> FixedSet<N> {
    /// Well-formedness: within capacity and no two entries share an index.
    pub open spec fn wf(&self) -> bool {
        &&& self@.len() <= N
        &&& forall|i: int, j: int|
            0 <= i < j < self@.len() ==> self@[i].index != self@[j].index
    }

    /// Whether some entry carries the index.
    pub open spec fn spec_contains_index(&self, index: u8) -> bool {
        exists|i: int| 0 <= i < self@.len() && self@[i].index == index
    }

    /// The empty set.
    pub fn new() -> (r: Self)
        ensures
            r.wf(),
            r@.len() == 0,
    {
        Self { items: Vec::new() }
    }

    /// The number of entries.
    pub fn size(&self) -> (r: usize)
        ensures
            r == self@.len(),
    {
        self.items.len()
    }

    /// Whether some entry carries the index.
    pub fn contains_index(&self, index: u8) -> (r: bool)
        ensures
            r == self.spec_contains_index(index),
    {
        let mut i: usize = 0;
        while i < self.items.len()
            invariant
                i <= self@.len(),
                forall|k: int| 0 <= k < i ==> self@[k].index != index,
            decreases self@.len() - i,
        {
            if self.items[i].index == index {
                return true;
            }
            i = i + 1;
        }
        false
    }

    /// Inserts unless the set is full or the index is already present;
    /// reports whether the entry went in.
    pub fn insert(&mut self, elem: RunningEffect) -> (r: bool)
        requires
            old(self).wf(),
        ensures
            final(self).wf(),
            r == (old(self)@.len() < N && !old(self).spec_contains_index(elem.index)),
            r ==> final(self)@ == old(self)@.push(elem),
            !r ==> final(self)@ == old(self)@,
    {
        if self.items.len() >= N || self.contains_index(elem.index) {
            return false;
        }
        self.items.push(elem);
        true
    }

    /// Removes the entry with the element's index, if any; reports
    /// whether the set kept its size, as a free-slot check would see it.
    pub fn remove(&mut self, v: RunningEffect) -> (r: bool)
        requires
            old(self).wf(),
        ensures
            final(self).wf(),
            final(self)@ == old(self)@.filter(|e: RunningEffect| e.index != v.index),
            r == (final(self)@.len() == old(self)@.len()),
    {
        let n_prev: usize = self.items.len();
        let mut kept: Vec<RunningEffect> = Vec::new();
        let mut i: usize = 0;
        proof {
            assert(self@.subrange(0, 0) =~= Seq::<RunningEffect>::empty());
            assert(Seq::<RunningEffect>::empty().filter(|e: RunningEffect| e.index != v.index)
                =~= Seq::<RunningEffect>::empty());
        }
        while i < self.items.len()
            invariant
                self.wf(),
                i <= self@.len(),
                kept@ == self@.subrange(0, i as int).filter(
                    |e: RunningEffect| e.index != v.index,
                ),
            decreases self@.len() - i,
        {
            proof {
                let prefix = self@.subrange(0, i as int);
                let next = self@.subrange(0, i + 1);
                assert(next.drop_last() =~= prefix);
                reveal_with_fuel(Seq::filter, 2);
            }
            let e: RunningEffect = self.items[i];
            if e.index != v.index {
                kept.push(e);
            }
            i = i + 1;
        }
        proof {
            assert(self@.subrange(0, self@.len() as int) =~= self@);
            self@.lemma_filter_len(|e: RunningEffect| e.index != v.index);
            lemma_filter_keeps_distinct_indices(self@, v.index);
        }
        self.items = kept;
        self.items.len() == n_prev
    }

    /// Builds a set from entries already known to fit and to carry
    /// pairwise distinct indices.
    pub fn from_vec(items: Vec<RunningEffect>) -> (r: Self)
        requires
            items@.len() <= N,
            forall|i: int, j: int| 0 <= i < j < items@.len() ==> items@[i].index != items@[j].index,
        ensures
            r.wf(),
            r@ == items@,
    {
        Self { items }
    }

    /// The entry at an iteration position.
    pub fn get(&self, i: usize) -> (r: RunningEffect)
        requires
            i < self@.len(),
        ensures
            r == self@[i as int],
    {
        self.items[i]
    }

    /// Replaces the entry at an iteration position, keeping its index.
    pub fn set_at(&mut self, i: usize, elem: RunningEffect)
        requires
            old(self).wf(),
            i < old(self)@.len(),
            elem.index == old(self)@[i as int].index,
        ensures
            final(self).wf(),
            final(self)@ == old(self)@.update(i as int, elem),
    {
        self.items.set(i, elem);
    }
}

/// Every entry of a filtered sequence already stood in the sequence it
/// was filtered from.
pub proof fn lemma_filter_subset(s: Seq<RunningEffect>, pred: spec_fn(RunningEffect) -> bool)
    ensures
        forall|i: int|
            0 <= i < s.filter(pred).len() ==> s.contains(#[trigger] s.filter(pred)[i]),
    decreases s.len(),
{
    reveal_with_fuel(Seq::filter, 2);
    if s.len() > 0 {
        let pre = s.drop_last();
        lemma_filter_subset(pre, pred);
        let f = s.filter(pred);
        let fpre = pre.filter(pred);
        assert forall|i: int| 0 <= i < f.len() implies s.contains(f[i]) by {
            if pred(s.last()) && i == f.len() - 1 {
                assert(s[s.len() - 1] == f[i]);
            } else {
                assert(f[i] == fpre[i]);
                assert(pre.contains(fpre[i]));
                let j = choose|j: int| 0 <= j < pre.len() && pre[j] == fpre[i];
                assert(s[j] == fpre[i]);
            }
        }
    }
}

/// Dropping one index keeps the remaining indices pairwise distinct.
pub proof fn lemma_filter_keeps_distinct_indices(s: Seq<RunningEffect>, index: u8)
    requires
        forall|i: int, j: int| 0 <= i < j < s.len() ==> s[i].index != s[j].index,
    ensures
        ({
            let f = s.filter(|e: RunningEffect| e.index != index);
            forall|i: int, j: int| 0 <= i < j < f.len() ==> f[i].index != f[j].index
        }),
    decreases s.len(),
{
    let pred = |e: RunningEffect| e.index != index;
    reveal_with_fuel(Seq::filter, 2);
    if s.len() > 0 {
        let pre = s.drop_last();
        lemma_filter_keeps_distinct_indices(pre, index);
        lemma_filter_subset(pre, pred);
        let f = s.filter(pred);
        let fpre = pre.filter(pred);
        assert forall|i: int, j: int| 0 <= i < j < f.len() implies f[i].index != f[j].index by {
            if pred(s.last()) && j == f.len() - 1 {
                assert(f[i] == fpre[i]);
                assert(pre.contains(fpre[i]));
                let k = choose|k: int| 0 <= k < pre.len() && pre[k] == fpre[i];
                assert(s[k] == f[i]);
                assert(s[k].index != s[s.len() - 1].index);
            } else {
                assert(f[i] == fpre[i] && f[j] == fpre[j]);
            }
        }
    }
}

} // verus!
