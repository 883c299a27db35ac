//! A generational arena: values addressed by index-plus-generation
//! handles. Removing a value bumps its slot's generation, so a stale
//! handle can never reach a later occupant of the same slot.

use vstd::pervasive::VecAdditionalExecFns;
use vstd::prelude::*;

verus! {

/// An opaque, generation-checked reference into one typed table.
#[derive(Clone, Copy, PartialEq, Eq, Structural, Debug, Hash)]
pub struct Handle {
    pub index: usize,
    pub generation: u64,
}

pub struct Slot<T> {
    pub generation: u64,
    pub value: Option<T>,
}

pub struct Arena<T> {
    pub slots: Vec<Slot<T>>,
    pub free: Vec<usize>,
}

impl<T> Arena<T> {
    /// Free-list indexes point at distinct empty slots whose
    /// generations can still grow, and a live slot's generation can
    /// still grow too (a slot whose generation is exhausted is simply
    /// never reused).
    pub open spec fn wf(self) -> bool {
        &&& forall|i: int|
            0 <= i < self.free@.len() ==> (#[trigger] self.free@[i] as int) < self.slots@.len()
                && self.slots@[self.free@[i] as int].value is None && self.slots@[self.free@[
                i
            ] as int].generation < 0xffff_ffff_ffff_ffff
        &&& forall|i: int, j: int|
            0 <= i < j < self.free@.len() ==> self.free@[i] != self.free@[j]
        &&& forall|k: int|
            0 <= k < self.slots@.len() && (#[trigger] self.slots@[k].value) is Some ==> self.slots@[
                k
            ].generation < 0xffff_ffff_ffff_ffff
    }

    /// Whether a handle currently refers to a live value.
    pub open spec fn valid(self, h: Handle) -> bool {
        &&& (h.index as int) < self.slots@.len()
        &&& self.slots@[h.index as int].generation == h.generation
        &&& self.slots@[h.index as int].value is Some
    }

    /// The live value a handle refers to.
    pub open spec fn value_of(self, h: Handle) -> T
        recommends
            self.valid(h),
    {
        self.slots@[h.index as int].value->Some_0
    }

    /// Every handle to another slot reaches exactly what it did before.
    pub open spec fn others_unchanged(self, later: Self, h: Handle) -> bool {
        forall|h2: Handle|
            h2.index != h.index ==> (later.valid(h2) == self.valid(h2) && (self.valid(h2)
                ==> later.value_of(h2) == self.value_of(h2)))
    }

    pub fn new() -> (r: Arena<T>)
        ensures
            r.wf(),
            r.slots@.len() == 0,
            forall|h: Handle| !r.valid(h),
    {
        Arena { slots: Vec::new(), free: Vec::new() }
    }

    /// Store a value and hand back a fresh handle: one that was not
    /// valid before, while every previously live handle still reaches
    /// its old value.
    pub fn insert(&mut self, value: T) -> (h: Handle)
        requires
            old(self).wf(),
        ensures
            final(self).wf(),
            !old(self).valid(h),
            final(self).valid(h),
            final(self).value_of(h) == value,
            old(self).others_unchanged(*final(self), h),
            forall|h2: Handle| final(self).valid(h2) ==> old(self).valid(h2) || h2 == h,
            forall|h2: Handle|
                old(self).valid(h2) ==> final(self).valid(h2) && final(self).value_of(h2) == old(
                    self,
                ).value_of(h2),
            h.generation == final(self).slots@[h.index as int].generation,
            final(self).slots@.len() >= old(self).slots@.len(),
            forall|j: int|
                0 <= j < old(self).slots@.len() ==> (#[trigger] final(self).slots@[j]).generation
                    == old(self).slots@[j].generation,
    {
        if let Some(idx) = self.free.pop() {
            let generation: u64 = self.slots[idx].generation;
            self.slots.set(idx, Slot { generation, value: Some(value) });
            Handle { index: idx, generation }
        } else {
            let idx: usize = self.slots.len();
            self.slots.push(Slot { generation: 0, value: Some(value) });
            Handle { index: idx, generation: 0 }
        }
    }

    /// Take a value out. The slot's generation is bumped, so the
    /// handle (and any copy of it) goes stale for good.
    pub fn remove(&mut self, h: Handle) -> (r: Option<T>)
        requires
            old(self).wf(),
        ensures
            final(self).wf(),
            old(self).valid(h) ==> r == Some(old(self).value_of(h)),
            !old(self).valid(h) ==> r is None && *final(self) == *old(self),
            !final(self).valid(h),
            old(self).others_unchanged(*final(self), h),
            forall|h2: Handle| final(self).valid(h2) ==> old(self).valid(h2),
            forall|h2: Handle|
                h2 != h && old(self).valid(h2) ==> final(self).valid(h2) && final(self).value_of(h2)
                    == old(self).value_of(h2),
            old(self).valid(h) ==> final(self).slots@[h.index as int].generation == h.generation
                + 1,
            final(self).slots@.len() == old(self).slots@.len(),
    {
        if h.index >= self.slots.len() {
            return None;
        }
        let live: bool = self.slots[h.index].generation == h.generation && self.slots[
            h.index
        ].value.is_some();
        if !live {
            return None;
        }
        let generation: u64 = self.slots[h.index].generation;
        let mut taken: Slot<T> = Slot { generation: generation + 1, value: None };
        self.slots.set_and_swap(h.index, &mut taken);
        if generation + 1 < 0xffff_ffff_ffff_ffff {
            self.free.push(h.index);
            proof {
                assert forall|i: int, j: int|
                    0 <= i < j < self.free@.len() implies self.free@[i] != self.free@[j] by {
                    if j == self.free@.len() - 1 {
                        assert(old(self).slots@[self.free@[i] as int].value is None);
                    }
                }
            }
        }
        taken.value
    }

    /// Look a handle up; `None` exactly on a stale or foreign handle.
    pub fn get(&self, h: Handle) -> (r: Option<&T>)
        ensures
            (match r {
                Some(v) => self.valid(h) && *v == self.value_of(h),
                None => !self.valid(h),
            }),
    {
        if h.index < self.slots.len() && self.slots[h.index].generation == h.generation {
            self.slots[h.index].value.as_ref()
        } else {
            None
        }
    }

    /// Whether the handle is live.
    pub fn contains(&self, h: Handle) -> (r: bool)
        ensures
            r == self.valid(h),
    {
        h.index < self.slots.len() && self.slots[h.index].generation == h.generation && self.slots[
            h.index
        ].value.is_some()
    }
}

} // verus!
