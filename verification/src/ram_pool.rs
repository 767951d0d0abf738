//! The effect pool: a fixed array of slots, 1-based on the wire, plus a
//! byte buffer reserved for custom-force samples.

use crate::effect::{Effect, EffectParameter};
use crate::reports::SetEffectReport;
use vstd::pervasive::VecAdditionalExecFns;
use vstd::prelude::*;

verus! {

/// The in-pool size of one slot, as reported to the host: the size of
/// the common effect descriptor.
pub const EFFECT_SLOT_SIZE: usize = 19;

/// Fixed-capacity pool of effect slots with an auxiliary byte buffer.
pub struct RAMPool<const MAX_EFFECTS: usize, const CUSTOM_DATA_BUFFER_SIZE: usize> {
    custom_data_buffer: Vec<u8>,
    allocated: usize,
    effects: Vec<Option<Effect>>,
}

impl<const MAX_EFFECTS: usize, const CUSTOM_DATA_BUFFER_SIZE: usize> RAMPool<
    MAX_EFFECTS,
    CUSTOM_DATA_BUFFER_SIZE,
> {
    /// The slots, in index order; the wire index of `slots()[i]` is
    /// `i + 1`.
    pub closed spec fn slots(&self) -> Seq<Option<Effect>> {
        self.effects@
    }

    /// How many bytes of the custom-force buffer are handed out.
    pub closed spec fn spec_allocated(&self) -> int {
        self.allocated as int
    }

    /// The custom-force buffer's contents.
    pub closed spec fn buffer(&self) -> Seq<u8> {
        self.custom_data_buffer@
    }

    /// Well-formedness: both stores have their fixed sizes and the
    /// bump allocator stays inside the buffer.
    pub open spec fn wf(&self) -> bool {
        &&& self.slots().len() == MAX_EFFECTS
        &&& self.buffer().len() == CUSTOM_DATA_BUFFER_SIZE
        &&& 0 <= self.spec_allocated() <= CUSTOM_DATA_BUFFER_SIZE
    }

    /// How many slots are allocated.
    pub open spec fn spec_allocated_slots(&self) -> int {
        count_allocated(self.slots())
    }

    /// An empty pool: every slot free, no buffer bytes handed out.
    pub fn new() -> (r: Self)
        requires
            MAX_EFFECTS * EFFECT_SLOT_SIZE + CUSTOM_DATA_BUFFER_SIZE <= usize::MAX,
        ensures
            r.wf(),
            forall|i: int| 0 <= i < MAX_EFFECTS ==> r.slots()[i] is None,
            r.spec_allocated() == 0,
            forall|i: int| 0 <= i < CUSTOM_DATA_BUFFER_SIZE ==> r.buffer()[i] == 0,
    {
        let mut effects: Vec<Option<Effect>> = Vec::new();
        let mut i: usize = 0;
        while i < MAX_EFFECTS
            invariant
                i <= MAX_EFFECTS,
                effects@.len() == i,
                forall|j: int| 0 <= j < i ==> effects@[j] is None,
            decreases MAX_EFFECTS - i,
        {
            effects.push(None);
            i = i + 1;
        }
        let mut custom_data_buffer: Vec<u8> = Vec::new();
        let mut k: usize = 0;
        while k < CUSTOM_DATA_BUFFER_SIZE
            invariant
                k <= CUSTOM_DATA_BUFFER_SIZE,
                custom_data_buffer@.len() == k,
                forall|j: int| 0 <= j < k ==> custom_data_buffer@[j] == 0,
            decreases CUSTOM_DATA_BUFFER_SIZE - k,
        {
            custom_data_buffer.push(0);
            k = k + 1;
        }
        RAMPool { custom_data_buffer, allocated: 0, effects }
    }

    /// Hands out `length` bytes of the custom-force buffer, or fails
    /// when they would not fit.
    pub fn allocate(&mut self, length: usize) -> (r: Result<usize, ()>)
        requires
            old(self).wf(),
        ensures
            final(self).wf(),
            final(self).slots() == old(self).slots(),
            final(self).buffer() == old(self).buffer(),
            match r {
                Ok(address) => {
                    &&& old(self).spec_allocated() + length < CUSTOM_DATA_BUFFER_SIZE
                    &&& address == old(self).spec_allocated()
                    &&& final(self).spec_allocated() == old(self).spec_allocated() + length
                },
                Err(_) => {
                    &&& old(self).spec_allocated() + length >= CUSTOM_DATA_BUFFER_SIZE
                    &&& final(self).spec_allocated() == old(self).spec_allocated()
                },
            },
    {
        if length >= CUSTOM_DATA_BUFFER_SIZE - self.allocated {
            return Err(());
        }
        let address: usize = self.allocated;
        self.allocated = self.allocated + length;
        Ok(address)
    }

    /// Stores a serialized report image in the custom-force buffer, or
    /// fails when it would not fit.
    pub fn write_report(&mut self, ram_image: &[u8], address: usize) -> (r: Result<(), ()>)
        requires
            old(self).wf(),
        ensures
            final(self).wf(),
            final(self).slots() == old(self).slots(),
            final(self).spec_allocated() == old(self).spec_allocated(),
            match r {
                Ok(_) => {
                    &&& address + ram_image@.len() <= CUSTOM_DATA_BUFFER_SIZE
                    &&& final(self).buffer() == old(self).buffer().subrange(0, address as int)
                        + ram_image@ + old(self).buffer().skip(address + ram_image@.len())
                },
                Err(_) => {
                    &&& address + ram_image@.len() > CUSTOM_DATA_BUFFER_SIZE
                    &&& final(self).buffer() == old(self).buffer()
                },
            },
    {
        let n: usize = ram_image.len();
        if n > CUSTOM_DATA_BUFFER_SIZE || address > CUSTOM_DATA_BUFFER_SIZE - n {
            return Err(());
        }
        let mut k: usize = 0;
        while k < n
            invariant
                k <= n,
                n == ram_image@.len(),
                address + n <= CUSTOM_DATA_BUFFER_SIZE,
                self.wf(),
                self.slots() == old(self).slots(),
                self.spec_allocated() == old(self).spec_allocated(),
                self.buffer().len() == old(self).buffer().len(),
                forall|j: int| 0 <= j < address ==> self.buffer()[j] == old(self).buffer()[j],
                forall|j: int|
                    0 <= j < k ==> self.buffer()[address + j] == ram_image@[j],
                forall|j: int|
                    address + n <= j < CUSTOM_DATA_BUFFER_SIZE ==> self.buffer()[j] == old(
                        self,
                    ).buffer()[j],
            decreases n - k,
        {
            let b: u8 = *vstd::slice::slice_index_get(ram_image, k);
            self.custom_data_buffer.set(address + k, b);
            k = k + 1;
        }
        proof {
            assert(self.buffer() =~= old(self).buffer().subrange(0, address as int) + ram_image@
                + old(self).buffer().skip(address + ram_image@.len()));
        }
        Ok(())
    }

    /// Reads `length` bytes back out of the custom-force buffer.
    pub fn read_report(&self, address: usize, length: usize) -> (r: Result<Vec<u8>, ()>)
        requires
            self.wf(),
        ensures
            match r {
                Ok(bytes) => {
                    &&& address + length <= CUSTOM_DATA_BUFFER_SIZE
                    &&& bytes@ == self.buffer().subrange(
                        address as int,
                        address + length,
                    )
                },
                Err(_) => address + length > CUSTOM_DATA_BUFFER_SIZE,
            },
    {
        if length > CUSTOM_DATA_BUFFER_SIZE || address > CUSTOM_DATA_BUFFER_SIZE - length {
            return Err(());
        }
        let mut out: Vec<u8> = Vec::new();
        let mut k: usize = 0;
        while k < length
            invariant
                k <= length,
                address + length <= CUSTOM_DATA_BUFFER_SIZE,
                self.wf(),
                out@ == self.buffer().subrange(address as int, address + k),
            decreases length - k,
        {
            let b: u8 = self.custom_data_buffer[address + k];
            out.push(b);
            proof {
                assert(self.buffer().subrange(address as int, address + k + 1) =~= self.buffer()
                    .subrange(address as int, address + k).push(self.buffer()[address + k]));
            }
            k = k + 1;
        }
        Ok(out)
    }

    /// Allocates the lowest free slot and returns its 1-based index, or
    /// nothing when the pool is full.
    pub fn new_effect(&mut self) -> (r: Option<u8>)
        requires
            old(self).wf(),
            MAX_EFFECTS < 255,
        ensures
            final(self).wf(),
            final(self).spec_allocated() == old(self).spec_allocated(),
            final(self).buffer() == old(self).buffer(),
            match r {
                Some(index) => {
                    &&& 1 <= index <= MAX_EFFECTS
                    &&& old(self).slots()[index - 1] is None
                    &&& forall|j: int| 0 <= j < index - 1 ==> old(self).slots()[j] is Some
                    &&& final(self).slots() == old(self).slots().update(
                        index - 1,
                        Some(Effect { effect_report: None, parameter_1: None, parameter_2: None }),
                    )
                },
                None => {
                    &&& forall|j: int| 0 <= j < MAX_EFFECTS ==> old(self).slots()[j] is Some
                    &&& final(self).slots() == old(self).slots()
                },
            },
    {
        let mut i: usize = 0;
        while i < MAX_EFFECTS
            invariant
                i <= MAX_EFFECTS < 255,
                self.wf(),
                self == old(self),
                forall|j: int| 0 <= j < i ==> self.slots()[j] is Some,
            decreases MAX_EFFECTS - i,
        {
            if self.effects[i].is_none() {
                self.effects.set(i, Some(Effect::empty()));
                return Some((i as u8) + 1);
            }
            i = i + 1;
        }
        None
    }

    /// Clears the slot at a 1-based index; an index that names no slot
    /// fails.
    pub fn free_effect(&mut self, effect_block_index: u8) -> (r: Result<(), ()>)
        requires
            old(self).wf(),
        ensures
            final(self).wf(),
            final(self).spec_allocated() == old(self).spec_allocated(),
            final(self).buffer() == old(self).buffer(),
            match r {
                Ok(_) => {
                    &&& 1 <= effect_block_index <= MAX_EFFECTS
                    &&& final(self).slots() == old(self).slots().update(
                        effect_block_index - 1,
                        None::<Effect>,
                    )
                },
                Err(_) => {
                    &&& !(1 <= effect_block_index <= MAX_EFFECTS)
                    &&& final(self).slots() == old(self).slots()
                },
            },
    {
        if effect_block_index == 0 || (effect_block_index as usize) > MAX_EFFECTS {
            return Err(());
        }
        self.effects.set((effect_block_index - 1) as usize, None);
        Ok(())
    }

    /// The slot at a 1-based index, when it is allocated.
    pub fn get_effect(&self, effect_block_index: u8) -> (r: Option<&Effect>)
        requires
            self.wf(),
        ensures
            r is Some <==> (1 <= effect_block_index <= MAX_EFFECTS && self.slots()[
                effect_block_index - 1] is Some),
            r matches Some(e) ==> self.slots()[effect_block_index - 1] == Some(*e),
    {
        if effect_block_index == 0 || (effect_block_index as usize) > MAX_EFFECTS {
            return None;
        }
        self.effects[(effect_block_index - 1) as usize].as_ref()
    }

    /// Replaces the descriptor of the slot at a 1-based index; an index
    /// that names no allocated slot fails.
    pub fn set_effect_report(&mut self, effect_block_index: u8, report: SetEffectReport) -> (r:
        Result<(), ()>)
        requires
            old(self).wf(),
        ensures
            final(self).wf(),
            final(self).spec_allocated() == old(self).spec_allocated(),
            final(self).buffer() == old(self).buffer(),
            match r {
                Ok(_) => {
                    &&& 1 <= effect_block_index <= MAX_EFFECTS
                    &&& old(self).slots()[effect_block_index - 1] matches Some(e)
                        && final(self).slots() == old(self).slots().update(
                        effect_block_index - 1,
                        Some(Effect { effect_report: Some(report), ..e }),
                    )
                },
                Err(_) => {
                    &&& !(1 <= effect_block_index <= MAX_EFFECTS && old(self).slots()[
                        effect_block_index - 1] is Some)
                    &&& final(self).slots() == old(self).slots()
                },
            },
    {
        if effect_block_index == 0 || (effect_block_index as usize) > MAX_EFFECTS {
            return Err(());
        }
        let i: usize = (effect_block_index - 1) as usize;
        match self.effects[i] {
            None => Err(()),
            Some(e) => {
                self.effects.set(
                    i,
                    Some(
                        Effect {
                            effect_report: Some(report),
                            parameter_1: e.parameter_1,
                            parameter_2: e.parameter_2,
                        },
                    ),
                );
                Ok(())
            },
        }
    }

    /// Replaces the first parameter block of the slot at a 1-based
    /// index; an index that names no allocated slot fails.
    pub fn set_parameter_1(&mut self, effect_block_index: u8, parameter: EffectParameter) -> (r:
        Result<(), ()>)
        requires
            old(self).wf(),
        ensures
            final(self).wf(),
            final(self).spec_allocated() == old(self).spec_allocated(),
            final(self).buffer() == old(self).buffer(),
            match r {
                Ok(_) => {
                    &&& 1 <= effect_block_index <= MAX_EFFECTS
                    &&& old(self).slots()[effect_block_index - 1] matches Some(e)
                        && final(self).slots() == old(self).slots().update(
                        effect_block_index - 1,
                        Some(Effect { parameter_1: Some(parameter), ..e }),
                    )
                },
                Err(_) => {
                    &&& !(1 <= effect_block_index <= MAX_EFFECTS && old(self).slots()[
                        effect_block_index - 1] is Some)
                    &&& final(self).slots() == old(self).slots()
                },
            },
    {
        if effect_block_index == 0 || (effect_block_index as usize) > MAX_EFFECTS {
            return Err(());
        }
        let i: usize = (effect_block_index - 1) as usize;
        match self.effects[i] {
            None => Err(()),
            Some(e) => {
                self.effects.set(
                    i,
                    Some(
                        Effect {
                            effect_report: e.effect_report,
                            parameter_1: Some(parameter),
                            parameter_2: e.parameter_2,
                        },
                    ),
                );
                Ok(())
            },
        }
    }

    /// Replaces the second parameter block of the slot at a 1-based
    /// index; an index that names no allocated slot fails.
    pub fn set_parameter_2(&mut self, effect_block_index: u8, parameter: EffectParameter) -> (r:
        Result<(), ()>)
        requires
            old(self).wf(),
        ensures
            final(self).wf(),
            final(self).spec_allocated() == old(self).spec_allocated(),
            final(self).buffer() == old(self).buffer(),
            match r {
                Ok(_) => {
                    &&& 1 <= effect_block_index <= MAX_EFFECTS
                    &&& old(self).slots()[effect_block_index - 1] matches Some(e)
                        && final(self).slots() == old(self).slots().update(
                        effect_block_index - 1,
                        Some(Effect { parameter_2: Some(parameter), ..e }),
                    )
                },
                Err(_) => {
                    &&& !(1 <= effect_block_index <= MAX_EFFECTS && old(self).slots()[
                        effect_block_index - 1] is Some)
                    &&& final(self).slots() == old(self).slots()
                },
            },
    {
        if effect_block_index == 0 || (effect_block_index as usize) > MAX_EFFECTS {
            return Err(());
        }
        let i: usize = (effect_block_index - 1) as usize;
        match self.effects[i] {
            None => Err(()),
            Some(e) => {
                self.effects.set(
                    i,
                    Some(
                        Effect {
                            effect_report: e.effect_report,
                            parameter_1: e.parameter_1,
                            parameter_2: Some(parameter),
                        },
                    ),
                );
                Ok(())
            },
        }
    }


    /// The descriptor stored in the slot at a 1-based index; an index
    /// that names no allocated slot, or a slot whose descriptor has
    /// not arrived, fails.
    pub fn get_effect_report(&self, effect_block_index: u8) -> (r: Result<SetEffectReport, ()>)
        requires
            self.wf(),
        ensures
            match r {
                Ok(rep) => {
                    &&& 1 <= effect_block_index <= MAX_EFFECTS
                    &&& self.slots()[effect_block_index - 1] matches Some(e) && e.effect_report
                        == Some(rep)
                },
                Err(_) => !(1 <= effect_block_index <= MAX_EFFECTS && (self.slots()[
                    effect_block_index - 1] matches Some(e) && e.effect_report is Some)),
            },
    {
        if effect_block_index == 0 || (effect_block_index as usize) > MAX_EFFECTS {
            return Err(());
        }
        match &self.effects[(effect_block_index - 1) as usize] {
            None => Err(()),
            Some(e) => match e.effect_report {
                None => Err(()),
                Some(rep) => Ok(rep),
            },
        }
    }

    /// The two type-specific block offsets of a slot's descriptor.
    pub fn get_type_specific_block_offsets(&self, effect_block_index: u8) -> (r: Result<
        [usize; 2],
        (),
    >)
        requires
            self.wf(),
        ensures
            match r {
                Ok(offsets) => {
                    &&& 1 <= effect_block_index <= MAX_EFFECTS
                    &&& self.slots()[effect_block_index - 1] matches Some(e)
                        && e.effect_report matches Some(rep) && offsets@ == seq![
                        rep.type_specific_block_offset_instance_1 as usize,
                        rep.type_specific_block_offset_instance_2 as usize,
                    ]
                },
                Err(_) => !(1 <= effect_block_index <= MAX_EFFECTS && (self.slots()[
                    effect_block_index - 1] matches Some(e) && e.effect_report is Some)),
            },
    {
        match self.get_effect_report(effect_block_index) {
            Err(_) => Err(()),
            Ok(rep) => {
                let offsets: [usize; 2] = [
                    rep.type_specific_block_offset_instance_1 as usize,
                    rep.type_specific_block_offset_instance_2 as usize,
                ];
                proof {
                    assert(offsets@ =~= seq![
                        rep.type_specific_block_offset_instance_1 as usize,
                        rep.type_specific_block_offset_instance_2 as usize,
                    ]);
                }
                Ok(offsets)
            },
        }
    }

    /// Free capacity: free slots in slot-size units plus the custom
    /// bytes not yet handed out.
    pub fn available(&self) -> (r: usize)
        requires
            self.wf(),
            MAX_EFFECTS * EFFECT_SLOT_SIZE + CUSTOM_DATA_BUFFER_SIZE <= usize::MAX,
        ensures
            r == (MAX_EFFECTS - self.spec_allocated_slots()) * EFFECT_SLOT_SIZE as int + (
            CUSTOM_DATA_BUFFER_SIZE - self.spec_allocated()),
    {
        let mut free: usize = 0;
        let mut i: usize = 0;
        while i < MAX_EFFECTS
            invariant
                i <= MAX_EFFECTS,
                self.wf(),
                free == i - count_allocated(self.slots().subrange(0, i as int)),
                count_allocated(self.slots().subrange(0, i as int)) <= i,
                0 <= count_allocated(self.slots().subrange(0, i as int)),
            decreases MAX_EFFECTS - i,
        {
            proof {
                let pre = self.slots().subrange(0, i as int);
                let next = self.slots().subrange(0, i + 1);
                assert(next.drop_last() =~= pre);
            }
            if self.effects[i].is_none() {
                free = free + 1;
            }
            i = i + 1;
        }
        proof {
            assert(self.slots().subrange(0, MAX_EFFECTS as int) =~= self.slots());
            lemma_count_allocated_bounds(self.slots());
            assert(free * EFFECT_SLOT_SIZE as int <= MAX_EFFECTS * EFFECT_SLOT_SIZE as int)
                by (nonlinear_arith)
                requires
                    0 <= free <= MAX_EFFECTS,
                    EFFECT_SLOT_SIZE as int > 0,
            ;
            assert((MAX_EFFECTS - self.spec_allocated_slots()) * EFFECT_SLOT_SIZE as int == free
                * EFFECT_SLOT_SIZE as int) by (nonlinear_arith)
                requires
                    free == MAX_EFFECTS - self.spec_allocated_slots(),
            ;
        }
        free * EFFECT_SLOT_SIZE + (CUSTOM_DATA_BUFFER_SIZE - self.allocated)
    }

    /// The pool's constant total size in bytes.
    pub fn pool_size(&self) -> (r: usize)
        requires
            MAX_EFFECTS * EFFECT_SLOT_SIZE + CUSTOM_DATA_BUFFER_SIZE <= usize::MAX,
        ensures
            r == MAX_EFFECTS * EFFECT_SLOT_SIZE as int + CUSTOM_DATA_BUFFER_SIZE,
    {
        proof {
            assert(MAX_EFFECTS * EFFECT_SLOT_SIZE as int >= 0) by (nonlinear_arith);
        }
        MAX_EFFECTS * EFFECT_SLOT_SIZE + CUSTOM_DATA_BUFFER_SIZE
    }
}

/// The RAM address of a slot's descriptor block, as reported to the
/// host: slots are laid out back to back from address zero.
pub fn effect_address(effect_block_index: u8) -> (r: usize)
    requires
        effect_block_index >= 1,
    ensures
        r == (effect_block_index - 1) * EFFECT_SLOT_SIZE as int,
{
    proof {
        assert((effect_block_index - 1) * (EFFECT_SLOT_SIZE as int) <= 255 * 19)
            by (nonlinear_arith)
            requires
                0 <= (effect_block_index as int) - 1 <= 255,
        ;
        assert((effect_block_index - 1) * (EFFECT_SLOT_SIZE as int) >= 0) by (nonlinear_arith)
            requires
                0 <= (effect_block_index as int) - 1,
        ;
    }
    ((effect_block_index - 1) as usize) * EFFECT_SLOT_SIZE
}

/// Replacing an allocated slot's contents leaves the allocated-slot
/// count alone: only a block-load allocation raises it and only a
/// block free lowers it.
pub proof fn lemma_count_unchanged_on_replace(s: Seq<Option<Effect>>, i: int, e: Effect)
    requires
        0 <= i < s.len(),
        s[i] is Some,
    ensures
        count_allocated(s.update(i, Some(e))) == count_allocated(s),
{
    lemma_count_allocated_update(s, i, Some(e));
}

/// The number of allocated slots in a slot sequence.
pub open spec fn count_allocated(s: Seq<Option<Effect>>) -> int
    decreases s.len(),
{
    if s.len() == 0 {
        0
    } else {
        count_allocated(s.drop_last()) + (if s.last() is Some {
            1int
        } else {
            0int
        })
    }
}

/// How replacing one slot moves the allocated-slot count.
pub proof fn lemma_count_allocated_update(s: Seq<Option<Effect>>, i: int, v: Option<Effect>)
    requires
        0 <= i < s.len(),
    ensures
        count_allocated(s.update(i, v)) == count_allocated(s) - (if s[i] is Some {
            1int
        } else {
            0int
        }) + (if v is Some {
            1int
        } else {
            0int
        }),
    decreases s.len(),
{
    let s2 = s.update(i, v);
    if i == s.len() - 1 {
        assert(s2.drop_last() =~= s.drop_last());
    } else {
        assert(s2.drop_last() =~= s.drop_last().update(i, v));
        lemma_count_allocated_update(s.drop_last(), i, v);
    }
}

/// The allocated-slot count never exceeds the slot count.
pub proof fn lemma_count_allocated_bounds(s: Seq<Option<Effect>>)
    ensures
        0 <= count_allocated(s) <= s.len(),
    decreases s.len(),
{
    if s.len() > 0 {
        lemma_count_allocated_bounds(s.drop_last());
    }
}

} // verus!
