//! The frame ring: a fixed number of frame slots bounding how far the CPU may
//! run ahead of the GPU.
//!
//! Each slot owns a command-recording context, a CPU-wait fence and an
//! acquisition semaphore (held by the driving code), and a per-frame
//! descriptor allocator (modelled here). A slot whose work has been submitted
//! is `in_flight` until its fence has been waited on; only then may its
//! command context and descriptor memory be reused.

use vstd::prelude::*;

use crate::descriptors::DescriptorAllocatorGrowable;
use crate::descriptors::DescriptorPool;
use crate::descriptors::DescriptorSetHandle;
use crate::descriptors::PoolSizeRatio;
use crate::descriptors::DESCRIPTOR_TYPE_COMBINED_IMAGE_SAMPLER;
use crate::descriptors::DESCRIPTOR_TYPE_STORAGE_BUFFER;
use crate::descriptors::DESCRIPTOR_TYPE_STORAGE_IMAGE;
use crate::descriptors::DESCRIPTOR_TYPE_UNIFORM_BUFFER;

verus! {

/// Number of frame slots in the ring, and so the bound on CPU-ahead-of-GPU
/// slack.
pub const FRAMES_IN_FLIGHT: usize = 2;

/// What waiting on a fence with an unbounded timeout reported.
#[derive(Clone, Copy, Debug, PartialEq, Eq, Structural)]
pub enum FenceWait {
    /// The fence signaled: the guarded work is complete.
    Signaled,
    /// The wait failed or timed out: treated as device loss, fatal.
    Failed,
}

/// Sets each per-frame descriptor allocator's first pool is sized for.
pub const FRAME_DESCRIPTOR_SETS: u32 = 1000;

/// The ring index reached after one more frame: the ring cycles with period
/// [`FRAMES_IN_FLIGHT`].
pub open spec fn next_frame_index(i: nat) -> nat {
    (i + 1) % (FRAMES_IN_FLIGHT as nat)
}

/// The ring index after `n` frames starting from `start`.
pub open spec fn index_after(start: nat, n: nat) -> nat {
    (start + n) % (FRAMES_IN_FLIGHT as nat)
}

/// The frame-ring index cycles with period [`FRAMES_IN_FLIGHT`]: after any
/// further [`FRAMES_IN_FLIGHT`] frames the same slot is current again.
pub proof fn lemma_frame_index_cycles(start: nat, n: nat)
    ensures
        index_after(start, n + (FRAMES_IN_FLIGHT as nat)) == index_after(start, n),
{
    let f = FRAMES_IN_FLIGHT as nat;
    vstd::arithmetic::div_mod::lemma_add_mod_noop((start + n) as int, f as int, f as int);
    vstd::arithmetic::div_mod::lemma_mod_self_0(f as int);
    vstd::arithmetic::div_mod::lemma_mod_twice((start + n) as int, f as int);
}

/// Advancing once from the index reached after `n` frames lands on the index
/// reached after `n + 1` frames.
pub proof fn lemma_index_after_step(start: nat, n: nat)
    ensures
        next_frame_index(index_after(start, n)) == index_after(start, n + 1),
{
    let f = FRAMES_IN_FLIGHT as int;
    let s = (start + n) as int;
    vstd::arithmetic::div_mod::lemma_add_mod_noop(s, 1, f);
    vstd::arithmetic::div_mod::lemma_mod_twice(s + 1, f);
    vstd::arithmetic::div_mod::lemma_small_mod(1, f as nat);
}

/// The per-slot state: the synchronization bookkeeping for one in-flight
/// frame, and the frame's descriptor allocator.
pub struct FrameData {
    in_flight: bool,
    uses: u64,
    frame_descriptors: DescriptorAllocatorGrowable,
}

impl FrameData {
    /// Whether work recorded in this slot has been submitted and its fence
    /// not yet waited on.
    pub closed spec fn spec_in_flight(&self) -> bool {
        self.in_flight
    }

    /// How many times this slot's begin protocol has completed.
    pub closed spec fn spec_uses(&self) -> u64 {
        self.uses
    }

    /// This slot's descriptor allocator.
    pub closed spec fn spec_frame_descriptors(&self) -> DescriptorAllocatorGrowable {
        self.frame_descriptors
    }

    /// The slot's allocator is well-formed.
    pub open spec fn wf(&self) -> bool {
        self.spec_frame_descriptors().wf()
    }

    /// A fresh slot: nothing submitted, never used, a fresh per-frame
    /// descriptor allocator sized from the given ratios.
    pub fn new(ratios: Vec<PoolSizeRatio>) -> (r: Self)
        ensures
            r.wf(),
            !r.spec_in_flight(),
            r.spec_uses() == 0,
            r.spec_frame_descriptors().spec_ratios() == ratios@,
            r.spec_frame_descriptors().ready_pools() == seq![
                DescriptorPool { id: 0, capacity: FRAME_DESCRIPTOR_SETS, used: 0 },
            ],
            r.spec_frame_descriptors().full_pools() == Seq::<DescriptorPool>::empty(),
    {
        Self {
            in_flight: false,
            uses: 0,
            frame_descriptors: DescriptorAllocatorGrowable::new(FRAME_DESCRIPTOR_SETS, ratios),
        }
    }

    pub fn in_flight(&self) -> (r: bool)
        ensures
            r == self.spec_in_flight(),
    {
        self.in_flight
    }

    pub fn uses(&self) -> (r: u64)
        ensures
            r == self.spec_uses(),
    {
        self.uses
    }

    pub fn frame_descriptors(&self) -> (r: &DescriptorAllocatorGrowable)
        ensures
            *r == self.spec_frame_descriptors(),
    {
        &self.frame_descriptors
    }

    pub fn frame_descriptors_mut(&mut self) -> (r: &mut DescriptorAllocatorGrowable)
        ensures
            *r == old(self).spec_frame_descriptors(),
            final(self).spec_frame_descriptors() == *final(r),
            final(self).spec_in_flight() == old(self).spec_in_flight(),
            final(self).spec_uses() == old(self).spec_uses(),
    {
        &mut self.frame_descriptors
    }

    /// Release this slot's objects at shutdown: the descriptor pools go away
    /// and nothing is in flight any more.
    pub fn destroy(&mut self)
        requires
            old(self).wf(),
        ensures
            final(self).wf(),
            !final(self).spec_in_flight(),
            final(self).spec_uses() == old(self).spec_uses(),
            final(self).spec_frame_descriptors().ready_pools() == Seq::<DescriptorPool>::empty(),
            final(self).spec_frame_descriptors().full_pools() == Seq::<DescriptorPool>::empty(),
    {
        self.in_flight = false;
        self.frame_descriptors.destroy_pools();
    }
}

/// The ratios every per-frame descriptor allocator is sized from.
pub fn default_frame_ratios() -> (r: Vec<PoolSizeRatio>)
    ensures
        r@.len() == 4,
        r@[0].spec_descriptor_type() == DESCRIPTOR_TYPE_STORAGE_IMAGE && r@[0].spec_ratio() == 3,
        r@[1].spec_descriptor_type() == DESCRIPTOR_TYPE_STORAGE_BUFFER && r@[1].spec_ratio() == 3,
        r@[2].spec_descriptor_type() == DESCRIPTOR_TYPE_UNIFORM_BUFFER && r@[2].spec_ratio() == 3,
        r@[3].spec_descriptor_type() == DESCRIPTOR_TYPE_COMBINED_IMAGE_SAMPLER && r@[3].spec_ratio()
            == 4,
{
    let mut ratios: Vec<PoolSizeRatio> = Vec::new();
    ratios.push(PoolSizeRatio::new(DESCRIPTOR_TYPE_STORAGE_IMAGE, 3));
    ratios.push(PoolSizeRatio::new(DESCRIPTOR_TYPE_STORAGE_BUFFER, 3));
    ratios.push(PoolSizeRatio::new(DESCRIPTOR_TYPE_UNIFORM_BUFFER, 3));
    ratios.push(PoolSizeRatio::new(DESCRIPTOR_TYPE_COMBINED_IMAGE_SAMPLER, 4));
    ratios
}

/// The ring of [`FRAMES_IN_FLIGHT`] frame slots and the running frame index.
pub struct Frames {
    frames: Vec<FrameData>,
    frame_index: usize,
}

impl Frames {
    /// The slots, in ring order.
    pub closed spec fn slots(&self) -> Seq<FrameData> {
        self.frames@
    }

    /// The index of the slot the next frame will use.
    pub closed spec fn spec_frame_index(&self) -> usize {
        self.frame_index
    }

    /// Exactly [`FRAMES_IN_FLIGHT`] slots, a valid index, well-formed slots.
    pub open spec fn wf(&self) -> bool {
        &&& self.slots().len() == FRAMES_IN_FLIGHT
        &&& self.spec_frame_index() < FRAMES_IN_FLIGHT
        &&& forall|i: int| 0 <= i < self.slots().len() ==> (#[trigger] self.slots()[i]).wf()
    }

    /// The slot the next frame will use.
    pub open spec fn current(&self) -> FrameData {
        self.slots()[self.spec_frame_index() as int]
    }

    /// Build the ring: exactly [`FRAMES_IN_FLIGHT`] fresh slots, index zero.
    /// Any slot-creation failure in the driving code aborts startup instead,
    /// since the ring size is fixed and required.
    pub fn new() -> (r: Self)
        ensures
            r.wf(),
            r.spec_frame_index() == 0,
            forall|i: int|
                0 <= i < r.slots().len() ==> !(#[trigger] r.slots()[i]).spec_in_flight()
                    && r.slots()[i].spec_uses() == 0,
    {
        let mut frames: Vec<FrameData> = Vec::new();
        let mut i: usize = 0;
        while i < FRAMES_IN_FLIGHT
            invariant
                i <= FRAMES_IN_FLIGHT,
                frames@.len() == i,
                forall|k: int|
                    0 <= k < i as int ==> (#[trigger] frames@[k]).wf()
                        && !frames@[k].spec_in_flight() && frames@[k].spec_uses() == 0,
            decreases FRAMES_IN_FLIGHT - i,
        {
            frames.push(FrameData::new(default_frame_ratios()));
            i += 1;
        }
        Self { frames, frame_index: 0 }
    }

    pub fn frame_index(&self) -> (r: usize)
        ensures
            r == self.spec_frame_index(),
    {
        self.frame_index
    }

    /// The slot at the given ring position.
    pub fn slot(&self, i: usize) -> (r: &FrameData)
        requires
            i < self.slots().len(),
        ensures
            *r == self.slots()[i as int],
    {
        &self.frames[i]
    }

    /// The slot for the current frame.
    pub fn get_current_frame(&self) -> (r: &FrameData)
        requires
            self.wf(),
        ensures
            *r == self.current(),
    {
        &self.frames[self.frame_index % FRAMES_IN_FLIGHT]
    }

    /// Mutable access to the slot for the current frame.
    pub fn get_current_frame_mut(&mut self) -> (r: &mut FrameData)
        requires
            old(self).wf(),
        ensures
            *r == old(self).current(),
            final(self).slots() == old(self).slots().update(
                old(self).spec_frame_index() as int,
                *final(r),
            ),
            final(self).spec_frame_index() == old(self).spec_frame_index(),
    {
        let i = self.frame_index % FRAMES_IN_FLIGHT;
        &mut self.frames[i]
    }

    /// Move on to the next frame slot; the index cycles with period
    /// [`FRAMES_IN_FLIGHT`].
    pub fn advance(&mut self)
        requires
            old(self).wf(),
        ensures
            final(self).wf(),
            final(self).slots() == old(self).slots(),
            final(self).spec_frame_index() as nat == next_frame_index(
                old(self).spec_frame_index() as nat,
            ),
    {
        self.frame_index = (self.frame_index + 1) % FRAMES_IN_FLIGHT;
    }

    /// The begin-of-frame protocol for the current slot, run after its fence
    /// has been waited on and reset: the slot is no longer in flight, its
    /// command context may be reused, and its descriptor pools are all reset
    /// and ready (their memory reclaimed, no pool destroyed).
    pub fn begin_current(&mut self)
        requires
            old(self).wf(),
            old(self).current().spec_uses() < u64::MAX,
        ensures
            final(self).wf(),
            final(self).spec_frame_index() == old(self).spec_frame_index(),
            final(self).slots().len() == old(self).slots().len(),
            !final(self).current().spec_in_flight(),
            final(self).current().spec_uses() == old(self).current().spec_uses() + 1,
            final(self).current().spec_frame_descriptors().full_pools() == Seq::<
                DescriptorPool,
            >::empty(),
            final(self).current().spec_frame_descriptors().live_handles() =~= Set::<
                DescriptorSetHandle,
            >::empty(),
            final(self).current().spec_frame_descriptors().spec_ratios() == old(
                self,
            ).current().spec_frame_descriptors().spec_ratios(),
            final(self).current().spec_frame_descriptors().capacity() == old(
                self,
            ).current().spec_frame_descriptors().capacity(),
            final(self).current().spec_frame_descriptors().next_id() == old(
                self,
            ).current().spec_frame_descriptors().next_id(),
            final(self).current().spec_frame_descriptors().ready_pools().len() == old(
                self,
            ).current().spec_frame_descriptors().pools().len(),
            forall|i: int|
                0 <= i < old(self).current().spec_frame_descriptors().pools().len()
                    ==> #[trigger] final(self).current().spec_frame_descriptors().ready_pools()[i]
                    == (DescriptorPool {
                    used: 0,
                    ..old(self).current().spec_frame_descriptors().pools()[i]
                }),
            forall|i: int|
                0 <= i < old(self).slots().len() && i != old(self).spec_frame_index() as int
                    ==> #[trigger] final(self).slots()[i] == old(self).slots()[i],
    {
        let slot = self.get_current_frame_mut();
        slot.in_flight = false;
        slot.uses = slot.uses + 1;
        slot.frame_descriptors.clear_pools();
    }

    /// Mark the current slot's work as submitted: its fence will stay
    /// unsignaled until the device finishes, and the slot may not be reused
    /// before that fence is waited on again.
    pub fn submit_current(&mut self)
        requires
            old(self).wf(),
        ensures
            final(self).wf(),
            final(self).spec_frame_index() == old(self).spec_frame_index(),
            final(self).slots().len() == old(self).slots().len(),
            final(self).current().spec_in_flight(),
            final(self).current().spec_uses() == old(self).current().spec_uses(),
            final(self).current().spec_frame_descriptors() == old(
                self,
            ).current().spec_frame_descriptors(),
            forall|i: int|
                0 <= i < old(self).slots().len() && i != old(self).spec_frame_index() as int
                    ==> #[trigger] final(self).slots()[i] == old(self).slots()[i],
    {
        let slot = self.get_current_frame_mut();
        slot.in_flight = true;
    }

    /// Tear the ring down at shutdown: every slot's objects are released.
    pub fn destroy(&mut self)
        requires
            old(self).wf(),
        ensures
            final(self).wf(),
            final(self).slots().len() == old(self).slots().len(),
            forall|i: int|
                0 <= i < final(self).slots().len() ==> !(
                #[trigger] final(self).slots()[i]).spec_in_flight()
                    && final(self).slots()[i].spec_frame_descriptors().ready_pools() == Seq::<
                    DescriptorPool,
                >::empty() && final(self).slots()[i].spec_frame_descriptors().full_pools() == Seq::<
                    DescriptorPool,
                >::empty(),
    {
        let ghost pre = *old(self);
        let mut i: usize = 0;
        while i < self.frames.len()
            invariant
                pre.wf(),
                self.frames@.len() == pre.slots().len(),
                self.frame_index == pre.spec_frame_index(),
                i <= self.frames@.len(),
                forall|k: int|
                    i as int <= k < self.frames@.len() ==> #[trigger] self.frames@[k]
                        == pre.slots()[k],
                forall|k: int|
                    0 <= k < i as int ==> (#[trigger] self.frames@[k]).wf()
                        && !self.frames@[k].spec_in_flight()
                        && self.frames@[k].spec_frame_descriptors().ready_pools() == Seq::<
                        DescriptorPool,
                    >::empty() && self.frames@[k].spec_frame_descriptors().full_pools() == Seq::<
                        DescriptorPool,
                    >::empty(),
            decreases self.frames@.len() - i,
        {
            let slot = &mut self.frames[i];
            proof {
                assert(pre.slots()[i as int].wf());
            }
            slot.destroy();
            i += 1;
        }
    }
}

} // verus!
