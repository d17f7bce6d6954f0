//! Descriptor-set allocation: a fixed single-pool allocator for long-lived
//! sets, and a growable allocator that keeps "ready" and "full" pool lists and
//! grows the capacity of newly created pools geometrically.
//!
//! Pools and descriptor sets are modelled as plain records. A pool with
//! `used < capacity` still has room; a set handle is the pair of the pool's id
//! and the slot index the set was carved from, so a handle returned by a
//! successful allocation is never a repeat of an earlier one (until an
//! explicit reset returns the memory).

use vstd::prelude::*;

verus! {

/// Ceiling on the sets-per-pool capacity that the growable allocator will
/// request for any newly created pool.
pub const MAX_POOL_CAPACITY: u32 = 4092;

/// Descriptor-type ids, matching the numbering the graphics API uses.
pub const DESCRIPTOR_TYPE_COMBINED_IMAGE_SAMPLER: u32 = 1;
/// Descriptor-type id for storage images.
pub const DESCRIPTOR_TYPE_STORAGE_IMAGE: u32 = 3;
/// Descriptor-type id for uniform buffers.
pub const DESCRIPTOR_TYPE_UNIFORM_BUFFER: u32 = 6;
/// Descriptor-type id for storage buffers.
pub const DESCRIPTOR_TYPE_STORAGE_BUFFER: u32 = 7;

/// How many descriptors of one type a pool holds per set it is sized for.
#[derive(Clone, Copy, Debug, PartialEq, Eq, Structural)]
pub struct PoolSizeRatio {
    descriptor_type: u32,
    ratio: u32,
}

impl PoolSizeRatio {
    /// The descriptor type this ratio speaks of.
    pub closed spec fn spec_descriptor_type(self) -> u32 {
        self.descriptor_type
    }

    /// The sets-per-pool multiplier.
    pub closed spec fn spec_ratio(self) -> u32 {
        self.ratio
    }

    pub fn new(descriptor_type: u32, ratio: u32) -> (r: Self)
        ensures
            r.spec_descriptor_type() == descriptor_type,
            r.spec_ratio() == ratio,
    {
        Self { descriptor_type, ratio }
    }

    pub fn descriptor_type(&self) -> (r: u32)
        ensures
            r == self.spec_descriptor_type(),
    {
        self.descriptor_type
    }

    pub fn ratio(&self) -> (r: u32)
        ensures
            r == self.spec_ratio(),
    {
        self.ratio
    }
}

/// One entry of the descriptor-count request that a pool is created with:
/// `descriptor_count` descriptors of type `descriptor_type`.
#[derive(Clone, Copy, Debug, PartialEq, Eq, Structural)]
pub struct PoolSize {
    pub descriptor_type: u32,
    pub descriptor_count: u32,
}

/// The per-type descriptor counts for a pool sized for `set_count` sets:
/// each ratio scaled by the set count.
pub fn compute_pool_sizes(ratios: &Vec<PoolSizeRatio>, set_count: u32) -> (r: Vec<PoolSize>)
    requires
        forall|i: int|
            0 <= i < ratios@.len() ==> (#[trigger] ratios@[i].spec_ratio()) * set_count
                <= u32::MAX,
    ensures
        r@.len() == ratios@.len(),
        forall|i: int|
            0 <= i < r@.len() ==> #[trigger] r@[i] == (PoolSize {
                descriptor_type: ratios@[i].spec_descriptor_type(),
                descriptor_count: (ratios@[i].spec_ratio() * set_count) as u32,
            }),
{
    let mut sizes: Vec<PoolSize> = Vec::new();
    let mut i: usize = 0;
    while i < ratios.len()
        invariant
            i <= ratios@.len(),
            sizes@.len() == i,
            forall|k: int|
                0 <= k < ratios@.len() ==> (#[trigger] ratios@[k].spec_ratio()) * set_count
                    <= u32::MAX,
            forall|k: int|
                0 <= k < i as int ==> #[trigger] sizes@[k] == (PoolSize {
                    descriptor_type: ratios@[k].spec_descriptor_type(),
                    descriptor_count: (ratios@[k].spec_ratio() * set_count) as u32,
                }),
        decreases ratios@.len() - i,
    {
        let ratio = ratios[i];
        sizes.push(PoolSize {
            descriptor_type: ratio.descriptor_type(),
            descriptor_count: ratio.ratio() * set_count,
        });
        i += 1;
    }
    sizes
}

/// A descriptor pool as the allocator tracks it: an identity, the number of
/// sets it was created for, and how many have been carved from it since its
/// last reset.
#[derive(Clone, Copy, Debug, PartialEq, Eq, Structural)]
pub struct DescriptorPool {
    pub id: u64,
    pub capacity: u32,
    pub used: u32,
}

impl DescriptorPool {
    /// Whether one more set can be carved from this pool.
    pub open spec fn has_space(self) -> bool {
        self.used < self.capacity
    }
}

/// A descriptor set, identified by the pool it was carved from and the slot
/// index inside that pool.
#[derive(Clone, Copy, Debug, PartialEq, Eq, Structural)]
pub struct DescriptorSetHandle {
    pub pool_id: u64,
    pub index: u32,
}

/// Why an allocation request failed.
#[derive(Clone, Copy, Debug, PartialEq, Eq, Structural)]
pub enum DescriptorAllocError {
    /// Both the pool tried first and the retry pool were exhausted.
    Exhausted,
}

/// The capacity the growable allocator will use for the pool created after
/// one more exhaustion event: half again as large, capped.
pub open spec fn grown_capacity(c: nat) -> nat {
    if c + c / 2 <= MAX_POOL_CAPACITY as nat {
        c + c / 2
    } else {
        MAX_POOL_CAPACITY as nat
    }
}

/// Created-pool capacity after `k` consecutive exhaustion events, starting
/// from a first pool of capacity `c0`.
pub open spec fn capacity_sequence(c0: nat, k: nat) -> nat
    decreases k,
{
    if k == 0 {
        c0
    } else {
        grown_capacity(capacity_sequence(c0, (k - 1) as nat))
    }
}

/// The growable allocator over "ready" and "full" pool lists. `allocate` pops a ready pool
/// (creating one at the current capacity when none is ready), carves a set
/// from it, and pushes it back to "ready"; a pool with no room left moves to
/// "full" and the request is retried once against another pool. `clear_pools`
/// resets every pool and returns it to "ready".
pub struct DescriptorAllocatorGrowable {
    ratios: Vec<PoolSizeRatio>,
    ready_pool: Vec<DescriptorPool>,
    full_pool: Vec<DescriptorPool>,
    pool_capacity: u32,
    next_pool_id: u64,
}

impl DescriptorAllocatorGrowable {
    /// The declared (type, multiplier) pairs every pool is sized from.
    pub closed spec fn spec_ratios(&self) -> Seq<PoolSizeRatio> {
        self.ratios@
    }

    /// Pools with (possibly) free capacity, in stack order: the last is tried
    /// first.
    pub closed spec fn ready_pools(&self) -> Seq<DescriptorPool> {
        self.ready_pool@
    }

    /// Pools set aside after an allocation failed on them.
    pub closed spec fn full_pools(&self) -> Seq<DescriptorPool> {
        self.full_pool@
    }

    /// The sets-per-pool capacity the next created pool will be given.
    pub closed spec fn capacity(&self) -> u32 {
        self.pool_capacity
    }

    /// The id the next created pool will carry; ids are never reused.
    pub closed spec fn next_id(&self) -> u64 {
        self.next_pool_id
    }

    /// All pools the allocator tracks: ready first, then full.
    pub open spec fn pools(&self) -> Seq<DescriptorPool> {
        self.ready_pools() + self.full_pools()
    }

    /// Well-formedness: no pool over-committed, ids below the id counter and
    /// pairwise distinct (so no pool is in both lists), capacity capped.
    pub open spec fn wf(&self) -> bool {
        &&& forall|i: int|
            0 <= i < self.pools().len() ==> (#[trigger] self.pools()[i]).used
                <= self.pools()[i].capacity
        &&& forall|i: int|
            0 <= i < self.pools().len() ==> (#[trigger] self.pools()[i]).id < self.next_id()
        &&& forall|i: int, j: int|
            0 <= i < j < self.pools().len() ==> (#[trigger] self.pools()[i]).id != (
            #[trigger] self.pools()[j]).id
        &&& self.capacity() <= MAX_POOL_CAPACITY
    }

    /// The handles of all descriptor sets currently carved out of some pool.
    pub open spec fn live_handles(&self) -> Set<DescriptorSetHandle> {
        Set::new(
            |h: DescriptorSetHandle|
                exists|i: int|
                    0 <= i < self.pools().len() && (#[trigger] self.pools()[i]).id == h.pool_id
                        && h.index < self.pools()[i].used,
        )
    }

    /// The pool an allocation will be tried on first: the top ready pool, or
    /// a pool created at the current capacity when none is ready.
    pub open spec fn first_candidate(s: Self) -> DescriptorPool {
        if s.ready_pools().len() > 0 {
            s.ready_pools().last()
        } else {
            DescriptorPool { id: s.next_id(), capacity: s.capacity(), used: 0 }
        }
    }

    /// The pool the retry will use when the first candidate is exhausted.
    pub open spec fn second_candidate(s: Self) -> DescriptorPool {
        let n = s.ready_pools().len() as int;
        if n >= 2 {
            s.ready_pools()[n - 2]
        } else if n == 1 {
            DescriptorPool { id: s.next_id(), capacity: s.capacity(), used: 0 }
        } else {
            DescriptorPool {
                id: (s.next_id() + 1) as u64,
                capacity: grown_capacity(s.capacity() as nat) as u32,
                used: 0,
            }
        }
    }

    /// An allocation request succeeds exactly when the pool tried first or
    /// the retry pool has room.
    pub open spec fn alloc_succeeds(s: Self) -> bool {
        Self::first_candidate(s).has_space() || Self::second_candidate(s).has_space()
    }

    /// The handle a successful allocation returns.
    pub open spec fn alloc_handle(s: Self) -> DescriptorSetHandle {
        let c1 = Self::first_candidate(s);
        if c1.has_space() {
            DescriptorSetHandle { pool_id: c1.id, index: c1.used }
        } else {
            let c2 = Self::second_candidate(s);
            DescriptorSetHandle { pool_id: c2.id, index: c2.used }
        }
    }

    /// Exact state transition of `allocate`. On a first-try success the pool
    /// goes back on top of "ready" with one more set used; on a retry success
    /// the exhausted pool has moved to "full" first; on failure both
    /// candidates were exhausted, the first is kept in "full" and the retry
    /// pool is surrendered (its object leaks to the device until teardown).
    pub open spec fn alloc_post(
        pre: Self,
        post: Self,
        r: Result<DescriptorSetHandle, DescriptorAllocError>,
    ) -> bool {
        let n = pre.ready_pools().len() as int;
        let c1 = Self::first_candidate(pre);
        let c2 = Self::second_candidate(pre);
        let c1b = DescriptorPool { used: (c1.used + 1) as u32, ..c1 };
        let c2b = DescriptorPool { used: (c2.used + 1) as u32, ..c2 };
        &&& post.spec_ratios() == pre.spec_ratios()
        &&& if c1.has_space() {
            &&& r == Ok::<_, DescriptorAllocError>(
                DescriptorSetHandle { pool_id: c1.id, index: c1.used },
            )
            &&& post.full_pools() == pre.full_pools()
            &&& if n > 0 {
                &&& post.ready_pools() == pre.ready_pools().update(n - 1, c1b)
                &&& post.capacity() == pre.capacity()
                &&& post.next_id() == pre.next_id()
            } else {
                &&& post.ready_pools() == seq![c1b]
                &&& post.capacity() as nat == grown_capacity(pre.capacity() as nat)
                &&& post.next_id() == pre.next_id() + 1
            }
        } else if c2.has_space() {
            &&& r == Ok::<_, DescriptorAllocError>(
                DescriptorSetHandle { pool_id: c2.id, index: c2.used },
            )
            &&& post.full_pools() == pre.full_pools().push(c1)
            &&& if n >= 2 {
                &&& post.ready_pools() == pre.ready_pools().subrange(0, n - 2).push(c2b)
                &&& post.capacity() == pre.capacity()
                &&& post.next_id() == pre.next_id()
            } else if n == 1 {
                &&& post.ready_pools() == seq![c2b]
                &&& post.capacity() as nat == grown_capacity(pre.capacity() as nat)
                &&& post.next_id() == pre.next_id() + 1
            } else {
                &&& post.ready_pools() == seq![c2b]
                &&& post.capacity() as nat == grown_capacity(grown_capacity(pre.capacity() as nat))
                &&& post.next_id() == pre.next_id() + 2
            }
        } else {
            &&& r == Err::<DescriptorSetHandle, _>(DescriptorAllocError::Exhausted)
            &&& post.full_pools() == pre.full_pools().push(c1)
            &&& if n >= 2 {
                &&& post.ready_pools() == pre.ready_pools().subrange(0, n - 2)
                &&& post.capacity() == pre.capacity()
                &&& post.next_id() == pre.next_id()
            } else if n == 1 {
                &&& post.ready_pools() == Seq::<DescriptorPool>::empty()
                &&& post.capacity() as nat == grown_capacity(pre.capacity() as nat)
                &&& post.next_id() == pre.next_id() + 1
            } else {
                &&& post.ready_pools() == Seq::<DescriptorPool>::empty()
                &&& post.capacity() as nat == grown_capacity(grown_capacity(pre.capacity() as nat))
                &&& post.next_id() == pre.next_id() + 2
            }
        }
    }

    /// A fresh allocator: one ready pool sized for `max_sets` sets; the next
    /// created pool will already be half again as large (capped).
    pub fn new(max_sets: u32, ratios: Vec<PoolSizeRatio>) -> (r: Self)
        ensures
            r.wf(),
            r.spec_ratios() == ratios@,
            r.ready_pools() == seq![DescriptorPool { id: 0, capacity: max_sets, used: 0 }],
            r.full_pools() == Seq::<DescriptorPool>::empty(),
            r.capacity() as nat == grown_capacity(max_sets as nat),
            r.next_id() == 1,
            r.live_handles() == Set::<DescriptorSetHandle>::empty(),
    {
        let half = max_sets / 2;
        let pool_capacity = if max_sets >= MAX_POOL_CAPACITY {
            MAX_POOL_CAPACITY
        } else if max_sets + half >= MAX_POOL_CAPACITY {
            MAX_POOL_CAPACITY
        } else {
            max_sets + half
        };
        let mut ready_pool: Vec<DescriptorPool> = Vec::new();
        ready_pool.push(DescriptorPool { id: 0, capacity: max_sets, used: 0 });
        let r = Self {
            ratios,
            ready_pool,
            full_pool: Vec::new(),
            pool_capacity,
            next_pool_id: 1,
        };
        proof {
            assert(r.ready_pools() =~= seq![
                DescriptorPool { id: 0, capacity: max_sets, used: 0 },
            ]);
            assert(r.full_pools() =~= Seq::<DescriptorPool>::empty());
            assert(r.pools() =~= seq![DescriptorPool { id: 0, capacity: max_sets, used: 0 }]);
            assert(r.live_handles() =~= Set::<DescriptorSetHandle>::empty());
        }
        r
    }

    /// An allocator that owns nothing and can hand nothing out; a placeholder
    /// until a real one is installed.
    pub fn uninit() -> (r: Self)
        ensures
            r.wf(),
            r.spec_ratios() == Seq::<PoolSizeRatio>::empty(),
            r.ready_pools() == Seq::<DescriptorPool>::empty(),
            r.full_pools() == Seq::<DescriptorPool>::empty(),
            r.capacity() == 0,
            r.next_id() == 0,
    {
        let r = Self {
            ratios: Vec::new(),
            ready_pool: Vec::new(),
            full_pool: Vec::new(),
            pool_capacity: 0,
            next_pool_id: 0,
        };
        proof {
            assert(r.ready_pools() =~= Seq::<DescriptorPool>::empty());
            assert(r.full_pools() =~= Seq::<DescriptorPool>::empty());
        }
        r
    }

    /// Pop the top ready pool, or create one at the current capacity (growing
    /// the capacity for the next creation).
    fn get_pool(&mut self) -> (r: DescriptorPool)
        requires
            old(self).wf(),
            old(self).next_id() < u64::MAX,
        ensures
            final(self).wf(),
            final(self).spec_ratios() == old(self).spec_ratios(),
            final(self).full_pools() == old(self).full_pools(),
            r == Self::first_candidate(*old(self)),
            r.used <= r.capacity,
            old(self).ready_pools().len() > 0 ==> {
                &&& final(self).ready_pools() == old(self).ready_pools().drop_last()
                &&& final(self).capacity() == old(self).capacity()
                &&& final(self).next_id() == old(self).next_id()
            },
            old(self).ready_pools().len() == 0 ==> {
                &&& final(self).ready_pools() == old(self).ready_pools()
                &&& final(self).capacity() as nat == grown_capacity(old(self).capacity() as nat)
                &&& final(self).next_id() == old(self).next_id() + 1
            },
            r.id < final(self).next_id(),
            forall|i: int|
                0 <= i < final(self).pools().len() ==> (#[trigger] final(self).pools()[i]).id != r.id,
    {
        match self.ready_pool.pop() {
            Some(pool) => {
                proof {
                    let pre = *old(self);
                    let n = pre.ready_pools().len() as int;
                    let m = self.pools().len() as int;
                    assert(pre.pools()[n - 1] == pool);
                    assert forall|i: int| 0 <= i < m implies #[trigger] self.pools()[i] == (
                    if i < n - 1 {
                        pre.pools()[i]
                    } else {
                        pre.pools()[i + 1]
                    }) by {
                        if i < n - 1 {
                            assert(self.pools()[i] == self.ready_pools()[i]);
                            assert(pre.pools()[i] == pre.ready_pools()[i]);
                        } else {
                            assert(self.pools()[i] == self.full_pools()[i - (n - 1)]);
                            assert(pre.pools()[i + 1] == pre.full_pools()[i + 1 - n]);
                        }
                    };
                    assert forall|i: int| 0 <= i < m implies (#[trigger] self.pools()[i]).id
                        != pool.id by {
                        if i < n - 1 {
                            assert(pre.pools()[i].id != pre.pools()[n - 1].id);
                        } else {
                            assert(pre.pools()[i + 1].id != pre.pools()[n - 1].id);
                        }
                    };
                    assert forall|i: int, j: int| 0 <= i < j < m implies (
                    #[trigger] self.pools()[i]).id != (#[trigger] self.pools()[j]).id by {
                        let a = if i < n - 1 { i } else { i + 1 };
                        let b = if j < n - 1 { j } else { j + 1 };
                        assert(pre.pools()[a].id != pre.pools()[b].id);
                    };
                    assert forall|i: int| 0 <= i < m implies (#[trigger] self.pools()[i]).used
                        <= self.pools()[i].capacity by {
                        let a = if i < n - 1 { i } else { i + 1 };
                        assert(pre.pools()[a].used <= pre.pools()[a].capacity);
                    };
                    assert forall|i: int| 0 <= i < m implies (#[trigger] self.pools()[i]).id
                        < self.next_id() by {
                        let a = if i < n - 1 { i } else { i + 1 };
                        assert(pre.pools()[a].id < pre.next_id());
                    };
                }
                pool
            },
            None => {
                let pool = DescriptorPool {
                    id: self.next_pool_id,
                    capacity: self.pool_capacity,
                    used: 0,
                };
                self.next_pool_id = self.next_pool_id + 1;
                let c = self.pool_capacity;
                let half = c / 2;
                self.pool_capacity = if c + half >= MAX_POOL_CAPACITY {
                    MAX_POOL_CAPACITY
                } else {
                    c + half
                };
                proof {
                    let pre = *old(self);
                    assert(self.pools() == pre.pools());
                    assert forall|i: int| 0 <= i < self.pools().len() implies (
                    #[trigger] self.pools()[i]).id != pool.id && self.pools()[i].id
                        < self.next_id() by {
                        assert(pre.pools()[i].id < pre.next_id());
                    };
                }
                pool
            },
        }
    }
    /// Allocate one descriptor set. A pool is popped from "ready" (or created
    /// at the current capacity); if it is exhausted it moves to "full" and the
    /// request is retried once on another pool; a second exhaustion is
    /// reported to the caller. The returned handle was never handed out
    /// before.
    pub fn allocate(&mut self) -> (r: Result<DescriptorSetHandle, DescriptorAllocError>)
        requires
            old(self).wf(),
            old(self).next_id() + 1 < u64::MAX,
        ensures
            final(self).wf(),
            Self::alloc_post(*old(self), *final(self), r),
            r is Ok <==> Self::alloc_succeeds(*old(self)),
            r matches Ok(h) ==> h == Self::alloc_handle(*old(self))
                && !old(self).live_handles().contains(h) && final(self).live_handles()
                =~= old(self).live_handles().insert(h),
            r is Err ==> final(self).live_handles().subset_of(old(self).live_handles()),
    {
        let ghost pre = *old(self);
        let ghost n = pre.ready_pools().len() as int;
        let ghost c1 = Self::first_candidate(pre);
        let mut pool = self.get_pool();
        if pool.used < pool.capacity {
            let h = DescriptorSetHandle { pool_id: pool.id, index: pool.used };
            pool.used = pool.used + 1;
            self.ready_pool.push(pool);
            proof {
                Self::lemma_bump_push(pre, *self, c1, h);
                let c1b = DescriptorPool { used: (c1.used + 1) as u32, ..c1 };
                if n > 0 {
                    assert(self.ready_pools() =~= pre.ready_pools().update(n - 1, c1b));
                } else {
                    assert(self.ready_pools() =~= seq![c1b]);
                }
            }
            Ok(h)
        } else {
            self.full_pool.push(pool);
            let ghost s1f = *self;
            proof {
                Self::lemma_move_to_full(pre, s1f, c1);
            }
            let ghost c2 = Self::first_candidate(s1f);
            let mut pool2 = self.get_pool();
            if pool2.used < pool2.capacity {
                let h = DescriptorSetHandle { pool_id: pool2.id, index: pool2.used };
                pool2.used = pool2.used + 1;
                self.ready_pool.push(pool2);
                proof {
                    Self::lemma_bump_push(s1f, *self, c2, h);
                    let c2b = DescriptorPool { used: (c2.used + 1) as u32, ..c2 };
                    assert(self.live_handles() =~= pre.live_handles().insert(h));
                    if n >= 2 {
                        assert(self.ready_pools() =~= pre.ready_pools().subrange(0, n - 2).push(
                            c2b,
                        ));
                    } else {
                        assert(self.ready_pools() =~= seq![c2b]);
                    }
                }
                Ok(h)
            } else {
                proof {
                    Self::lemma_live_shrinks(s1f, *self, c2);
                    if n >= 2 {
                        assert(self.ready_pools() =~= pre.ready_pools().subrange(0, n - 2));
                    } else {
                        assert(self.ready_pools() =~= Seq::<DescriptorPool>::empty());
                    }
                }
                Err(DescriptorAllocError::Exhausted)
            }
        }
    }

    /// One successful carve: the candidate pool `c` gained one used slot and
    /// went back on top of "ready"; the handle is fresh and is the only
    /// addition to the live set.
    proof fn lemma_bump_push(q: Self, post: Self, c: DescriptorPool, h: DescriptorSetHandle)
        requires
            q.wf(),
            c == Self::first_candidate(q),
            c.has_space(),
            h == (DescriptorSetHandle { pool_id: c.id, index: c.used }),
            post.full_pools() == q.full_pools(),
            post.ready_pools() == (if q.ready_pools().len() > 0 {
                q.ready_pools().drop_last()
            } else {
                q.ready_pools()
            }).push(DescriptorPool { used: (c.used + 1) as u32, ..c }),
            q.ready_pools().len() > 0 ==> post.capacity() == q.capacity() && post.next_id()
                == q.next_id(),
            q.ready_pools().len() == 0 ==> c.id == q.next_id() && post.next_id() == q.next_id()
                + 1,
            post.capacity() <= MAX_POOL_CAPACITY,
        ensures
            post.wf(),
            !q.live_handles().contains(h),
            post.live_handles() =~= q.live_handles().insert(h),
    {
        let n = q.ready_pools().len() as int;
        let m = post.pools().len() as int;
        let cb = DescriptorPool { used: (c.used + 1) as u32, ..c };
        if n > 0 {
            assert(q.pools()[n - 1] == c);
            assert(m == q.pools().len());
            assert forall|i: int| 0 <= i < m implies #[trigger] post.pools()[i] == (if i == n - 1 {
                cb
            } else {
                q.pools()[i]
            }) by {
                if i < n {
                    assert(post.pools()[i] == post.ready_pools()[i]);
                    if i < n - 1 {
                        assert(post.ready_pools()[i] == q.ready_pools()[i]);
                        assert(q.pools()[i] == q.ready_pools()[i]);
                    }
                } else {
                    assert(post.pools()[i] == post.full_pools()[i - n]);
                    assert(q.pools()[i] == q.full_pools()[i - n]);
                }
            };
            assert forall|i: int| 0 <= i < m implies (#[trigger] post.pools()[i]).used
                <= post.pools()[i].capacity by {
                assert(q.pools()[i].used <= q.pools()[i].capacity);
            };
            assert forall|i: int| 0 <= i < m implies (#[trigger] post.pools()[i]).id
                < post.next_id() by {
                assert(q.pools()[i].id < q.next_id());
            };
            assert forall|i: int, j: int| 0 <= i < j < m implies (#[trigger] post.pools()[i]).id
                != (#[trigger] post.pools()[j]).id by {
                assert(q.pools()[i].id != q.pools()[j].id);
            };
            assert forall|i: int|
                0 <= i < q.pools().len() implies !((#[trigger] q.pools()[i]).id == h.pool_id
                && h.index < q.pools()[i].used) by {
                if i != n - 1 {
                    assert(q.pools()[i].id != q.pools()[n - 1].id);
                }
            };
            assert(!q.live_handles().contains(h));
            assert forall|h2: DescriptorSetHandle|
                #[trigger] post.live_handles().contains(h2) == q.live_handles().insert(h).contains(
                h2) by {
                if post.live_handles().contains(h2) {
                    let i = choose|i: int|
                        0 <= i < post.pools().len() && (#[trigger] post.pools()[i]).id
                            == h2.pool_id && h2.index < post.pools()[i].used;
                    if i == n - 1 {
                        if h2.index < c.used {
                            assert(q.pools()[n - 1].id == h2.pool_id && h2.index < q.pools()[n
                                - 1].used);
                            assert(q.live_handles().contains(h2));
                        } else {
                            assert(h2 == h);
                        }
                    } else {
                        assert(q.live_handles().contains(h2));
                    }
                }
                if q.live_handles().contains(h2) {
                    let i = choose|i: int|
                        0 <= i < q.pools().len() && (#[trigger] q.pools()[i]).id == h2.pool_id
                            && h2.index < q.pools()[i].used;
                    assert(post.pools()[i].id == h2.pool_id && h2.index < post.pools()[i].used);
                    assert(post.live_handles().contains(h2));
                }
                if h2 == h {
                    assert(post.pools()[n - 1].id == h.pool_id && h.index < post.pools()[n
                        - 1].used);
                    assert(post.live_handles().contains(h2));
                }
            };
            assert(post.live_handles() =~= q.live_handles().insert(h));
        } else {
            assert(m == q.pools().len() + 1);
            assert forall|i: int| 0 <= i < m implies #[trigger] post.pools()[i] == (if i == 0 {
                cb
            } else {
                q.pools()[i - 1]
            }) by {
                if i == 0 {
                    assert(post.pools()[0] == post.ready_pools()[0]);
                } else {
                    assert(post.pools()[i] == post.full_pools()[i - 1]);
                    assert(q.pools()[i - 1] == q.full_pools()[i - 1]);
                }
            };
            assert forall|i: int| 0 <= i < m implies (#[trigger] post.pools()[i]).used
                <= post.pools()[i].capacity by {
                if i > 0 {
                    assert(q.pools()[i - 1].used <= q.pools()[i - 1].capacity);
                }
            };
            assert forall|i: int| 0 <= i < m implies (#[trigger] post.pools()[i]).id
                < post.next_id() by {
                if i > 0 {
                    assert(q.pools()[i - 1].id < q.next_id());
                }
            };
            assert forall|i: int, j: int| 0 <= i < j < m implies (#[trigger] post.pools()[i]).id
                != (#[trigger] post.pools()[j]).id by {
                if i > 0 {
                    assert(q.pools()[i - 1].id != q.pools()[j - 1].id);
                } else {
                    assert(q.pools()[j - 1].id < q.next_id());
                }
            };
            assert forall|i: int|
                0 <= i < q.pools().len() implies !((#[trigger] q.pools()[i]).id == h.pool_id
                && h.index < q.pools()[i].used) by {
                assert(q.pools()[i].id < q.next_id());
            };
            assert(!q.live_handles().contains(h));
            assert forall|h2: DescriptorSetHandle|
                #[trigger] post.live_handles().contains(h2) == q.live_handles().insert(h).contains(
                h2) by {
                if post.live_handles().contains(h2) {
                    let i = choose|i: int|
                        0 <= i < post.pools().len() && (#[trigger] post.pools()[i]).id
                            == h2.pool_id && h2.index < post.pools()[i].used;
                    if i == 0 {
                        assert(h2 == h);
                    } else {
                        assert(q.pools()[i - 1].id == h2.pool_id && h2.index < q.pools()[i
                            - 1].used);
                        assert(q.live_handles().contains(h2));
                    }
                }
                if q.live_handles().contains(h2) {
                    let i = choose|i: int|
                        0 <= i < q.pools().len() && (#[trigger] q.pools()[i]).id == h2.pool_id
                            && h2.index < q.pools()[i].used;
                    assert(post.pools()[i + 1].id == h2.pool_id && h2.index < post.pools()[i
                        + 1].used);
                    assert(post.live_handles().contains(h2));
                }
                if h2 == h {
                    assert(post.pools()[0].id == h.pool_id && h.index < post.pools()[0].used);
                    assert(post.live_handles().contains(h2));
                }
            };
            assert(post.live_handles() =~= q.live_handles().insert(h));
        }
    }

    /// Moving an exhausted pool from the top of "ready" to "full" (or parking
    /// a just-created exhausted pool there) keeps every live set alive, keeps
    /// the allocator well-formed, and makes the retry candidate the next pool
    /// an allocation will be tried on.
    proof fn lemma_move_to_full(q: Self, post: Self, c: DescriptorPool)
        requires
            q.wf(),
            c == Self::first_candidate(q),
            !c.has_space(),
            post.full_pools() == q.full_pools().push(c),
            q.ready_pools().len() > 0 ==> post.ready_pools() == q.ready_pools().drop_last()
                && post.capacity() == q.capacity() && post.next_id() == q.next_id(),
            q.ready_pools().len() == 0 ==> post.ready_pools() == q.ready_pools()
                && post.capacity() as nat == grown_capacity(q.capacity() as nat)
                && post.next_id() == q.next_id() + 1,
            post.capacity() <= MAX_POOL_CAPACITY,
        ensures
            post.wf(),
            post.live_handles() =~= q.live_handles(),
            Self::first_candidate(post) == Self::second_candidate(q),
    {
        let n = q.ready_pools().len() as int;
        let m = post.pools().len() as int;
        if n > 0 {
            assert(q.pools()[n - 1] == c);
            assert(m == q.pools().len());
            assert forall|i: int| 0 <= i < m implies #[trigger] post.pools()[i] == (if i < n - 1 {
                q.pools()[i]
            } else if i < m - 1 {
                q.pools()[i + 1]
            } else {
                q.pools()[n - 1]
            }) by {
                if i < n - 1 {
                    assert(post.pools()[i] == post.ready_pools()[i]);
                    assert(q.pools()[i] == q.ready_pools()[i]);
                } else if i < m - 1 {
                    assert(post.pools()[i] == post.full_pools()[i - (n - 1)]);
                    assert(q.pools()[i + 1] == q.full_pools()[i + 1 - n]);
                } else {
                    assert(post.pools()[i] == post.full_pools()[i - (n - 1)]);
                }
            };
            assert forall|i: int| 0 <= i < m implies (#[trigger] post.pools()[i]).used
                <= post.pools()[i].capacity && post.pools()[i].id < post.next_id() by {
                let a = if i < n - 1 {
                    i
                } else if i < m - 1 {
                    i + 1
                } else {
                    n - 1
                };
                assert(q.pools()[a].used <= q.pools()[a].capacity);
                assert(q.pools()[a].id < q.next_id());
            };
            assert forall|i: int, j: int| 0 <= i < j < m implies (#[trigger] post.pools()[i]).id
                != (#[trigger] post.pools()[j]).id by {
                let a = if i < n - 1 {
                    i
                } else if i < m - 1 {
                    i + 1
                } else {
                    n - 1
                };
                let b = if j < n - 1 {
                    j
                } else if j < m - 1 {
                    j + 1
                } else {
                    n - 1
                };
                if a < b {
                    assert(q.pools()[a].id != q.pools()[b].id);
                } else {
                    assert(q.pools()[b].id != q.pools()[a].id);
                }
            };
            assert forall|h2: DescriptorSetHandle|
                #[trigger] post.live_handles().contains(h2) == q.live_handles().contains(h2) by {
                if post.live_handles().contains(h2) {
                    let i = choose|i: int|
                        0 <= i < post.pools().len() && (#[trigger] post.pools()[i]).id
                            == h2.pool_id && h2.index < post.pools()[i].used;
                    let a = if i < n - 1 {
                        i
                    } else if i < m - 1 {
                        i + 1
                    } else {
                        n - 1
                    };
                    assert(q.pools()[a].id == h2.pool_id && h2.index < q.pools()[a].used);
                    assert(q.live_handles().contains(h2));
                }
                if q.live_handles().contains(h2) {
                    let i = choose|i: int|
                        0 <= i < q.pools().len() && (#[trigger] q.pools()[i]).id == h2.pool_id
                            && h2.index < q.pools()[i].used;
                    let b = if i < n - 1 {
                        i
                    } else if i == n - 1 {
                        m - 1
                    } else {
                        i - 1
                    };
                    assert(post.pools()[b].id == h2.pool_id && h2.index < post.pools()[b].used);
                    assert(post.live_handles().contains(h2));
                }
            };
            assert(post.live_handles() =~= q.live_handles());
        } else {
            assert(c.id == q.next_id());
            assert(m == q.pools().len() + 1);
            assert forall|i: int| 0 <= i < m implies #[trigger] post.pools()[i] == (if i < m - 1 {
                q.pools()[i]
            } else {
                c
            }) by {
                if i < m - 1 {
                    assert(post.pools()[i] == post.full_pools()[i]);
                    assert(q.pools()[i] == q.full_pools()[i]);
                } else {
                    assert(post.pools()[i] == post.full_pools()[i]);
                }
            };
            assert forall|i: int| 0 <= i < m implies (#[trigger] post.pools()[i]).used
                <= post.pools()[i].capacity && post.pools()[i].id < post.next_id() by {
                if i < m - 1 {
                    assert(q.pools()[i].used <= q.pools()[i].capacity);
                    assert(q.pools()[i].id < q.next_id());
                }
            };
            assert forall|i: int, j: int| 0 <= i < j < m implies (#[trigger] post.pools()[i]).id
                != (#[trigger] post.pools()[j]).id by {
                if j < m - 1 {
                    assert(q.pools()[i].id != q.pools()[j].id);
                } else {
                    assert(q.pools()[i].id < q.next_id());
                }
            };
            assert forall|h2: DescriptorSetHandle|
                #[trigger] post.live_handles().contains(h2) == q.live_handles().contains(h2) by {
                if post.live_handles().contains(h2) {
                    let i = choose|i: int|
                        0 <= i < post.pools().len() && (#[trigger] post.pools()[i]).id
                            == h2.pool_id && h2.index < post.pools()[i].used;
                    assert(i < m - 1);
                    assert(q.live_handles().contains(h2));
                }
                if q.live_handles().contains(h2) {
                    let i = choose|i: int|
                        0 <= i < q.pools().len() && (#[trigger] q.pools()[i]).id == h2.pool_id
                            && h2.index < q.pools()[i].used;
                    assert(post.pools()[i].id == h2.pool_id && h2.index < post.pools()[i].used);
                    assert(post.live_handles().contains(h2));
                }
            };
            assert(post.live_handles() =~= q.live_handles());
        }
    }

    /// Popping (or creating and then dropping) a pool can only remove live
    /// sets, never mint ones that were not there.
    proof fn lemma_live_shrinks(q: Self, post: Self, c: DescriptorPool)
        requires
            q.wf(),
            c == Self::first_candidate(q),
            post.full_pools() == q.full_pools(),
            q.ready_pools().len() > 0 ==> post.ready_pools() == q.ready_pools().drop_last(),
            q.ready_pools().len() == 0 ==> post.ready_pools() == q.ready_pools(),
        ensures
            post.live_handles().subset_of(q.live_handles()),
    {
        let n = q.ready_pools().len() as int;
        assert forall|h2: DescriptorSetHandle|
            post.live_handles().contains(h2) implies q.live_handles().contains(h2) by {
            let i = choose|i: int|
                0 <= i < post.pools().len() && (#[trigger] post.pools()[i]).id == h2.pool_id
                    && h2.index < post.pools()[i].used;
            if n > 0 {
                let a = if i < n - 1 {
                    i
                } else {
                    i + 1
                };
                if i < n - 1 {
                    assert(post.pools()[i] == post.ready_pools()[i]);
                    assert(q.pools()[i] == q.ready_pools()[i]);
                } else {
                    assert(post.pools()[i] == post.full_pools()[i - (n - 1)]);
                    assert(q.pools()[i + 1] == q.full_pools()[i + 1 - n]);
                }
                assert(q.pools()[a].id == h2.pool_id && h2.index < q.pools()[a].used);
            } else {
                assert(post.pools()[i] == q.pools()[i]);
            }
            assert(q.live_handles().contains(h2));
        };
    }
    /// Reset every pool (ready and full) and return all of them to "ready",
    /// reclaiming every descriptor set without destroying any pool object.
    /// Done once per frame for the per-frame allocators.
    pub fn clear_pools(&mut self)
        requires
            old(self).wf(),
        ensures
            final(self).wf(),
            final(self).spec_ratios() == old(self).spec_ratios(),
            final(self).capacity() == old(self).capacity(),
            final(self).next_id() == old(self).next_id(),
            final(self).full_pools() == Seq::<DescriptorPool>::empty(),
            final(self).ready_pools().len() == old(self).pools().len(),
            forall|i: int|
                0 <= i < old(self).pools().len() ==> #[trigger] final(self).ready_pools()[i]
                    == (DescriptorPool { used: 0, ..old(self).pools()[i] }),
            final(self).live_handles() =~= Set::<DescriptorSetHandle>::empty(),
    {
        let ghost pre = *old(self);
        let ghost n = pre.ready_pools().len() as int;
        let mut cleared: Vec<DescriptorPool> = Vec::new();
        let mut i: usize = 0;
        while i < self.ready_pool.len()
            invariant
                *self == pre,
                i <= pre.ready_pools().len(),
                cleared@.len() == i,
                forall|k: int|
                    0 <= k < i as int ==> #[trigger] cleared@[k] == (DescriptorPool {
                        used: 0,
                        ..pre.ready_pools()[k]
                    }),
            decreases pre.ready_pools().len() - i,
        {
            let p = self.ready_pool[i];
            cleared.push(DescriptorPool { id: p.id, capacity: p.capacity, used: 0 });
            i += 1;
        }
        let mut j: usize = 0;
        while j < self.full_pool.len()
            invariant
                *self == pre,
                j <= pre.full_pools().len(),
                cleared@.len() == pre.ready_pools().len() + j,
                forall|k: int|
                    0 <= k < pre.ready_pools().len() ==> #[trigger] cleared@[k]
                        == (DescriptorPool { used: 0, ..pre.ready_pools()[k] }),
                forall|k: int|
                    0 <= k < j as int ==> #[trigger] cleared@[pre.ready_pools().len() + k]
                        == (DescriptorPool { used: 0, ..pre.full_pools()[k] }),
            decreases pre.full_pools().len() - j,
        {
            let p = self.full_pool[j];
            cleared.push(DescriptorPool { id: p.id, capacity: p.capacity, used: 0 });
            j += 1;
        }
        self.ready_pool = cleared;
        self.full_pool = Vec::new();
        proof {
            let m = self.pools().len() as int;
            assert(self.full_pools() =~= Seq::<DescriptorPool>::empty());
            assert forall|k: int| 0 <= k < m implies #[trigger] self.pools()[k]
                == (DescriptorPool { used: 0, ..pre.pools()[k] }) by {
                assert(self.pools()[k] == self.ready_pools()[k]);
                if k < n {
                    assert(pre.pools()[k] == pre.ready_pools()[k]);
                } else {
                    assert(self.ready_pools()[pre.ready_pools().len() + (k - n)]
                        == (DescriptorPool { used: 0, ..pre.full_pools()[k - n] }));
                    assert(pre.pools()[k] == pre.full_pools()[k - n]);
                }
            };
            assert forall|i2: int, j2: int| 0 <= i2 < j2 < m implies (
            #[trigger] self.pools()[i2]).id != (#[trigger] self.pools()[j2]).id by {
                assert(pre.pools()[i2].id != pre.pools()[j2].id);
            };
            assert forall|i2: int| 0 <= i2 < m implies (#[trigger] self.pools()[i2]).id
                < self.next_id() by {
                assert(pre.pools()[i2].id < pre.next_id());
            };
            assert forall|h2: DescriptorSetHandle| !(#[trigger] self.live_handles().contains(
                h2,
            )) by {
                if self.live_handles().contains(h2) {
                    let k = choose|k: int|
                        0 <= k < self.pools().len() && (#[trigger] self.pools()[k]).id
                            == h2.pool_id && h2.index < self.pools()[k].used;
                    assert(self.pools()[k].used == 0);
                }
            };
            assert(self.live_handles() =~= Set::<DescriptorSetHandle>::empty());
        }
    }

    /// Release every pool object. Only called at shutdown; afterwards the
    /// allocator tracks nothing.
    pub fn destroy_pools(&mut self)
        requires
            old(self).wf(),
        ensures
            final(self).wf(),
            final(self).spec_ratios() == old(self).spec_ratios(),
            final(self).capacity() == old(self).capacity(),
            final(self).next_id() == old(self).next_id(),
            final(self).ready_pools() == Seq::<DescriptorPool>::empty(),
            final(self).full_pools() == Seq::<DescriptorPool>::empty(),
            final(self).live_handles() =~= Set::<DescriptorSetHandle>::empty(),
    {
        self.ready_pool = Vec::new();
        self.full_pool = Vec::new();
        proof {
            assert(self.ready_pools() =~= Seq::<DescriptorPool>::empty());
            assert(self.full_pools() =~= Seq::<DescriptorPool>::empty());
            assert forall|h2: DescriptorSetHandle| !(#[trigger] self.live_handles().contains(
                h2,
            )) by {}
            assert(self.live_handles() =~= Set::<DescriptorSetHandle>::empty());
        }
    }

    /// Number of pools currently on the "ready" list.
    pub fn ready_count(&self) -> (r: usize)
        ensures
            r == self.ready_pools().len(),
    {
        self.ready_pool.len()
    }

    /// Number of pools currently on the "full" list.
    pub fn full_count(&self) -> (r: usize)
        ensures
            r == self.full_pools().len(),
    {
        self.full_pool.len()
    }

    /// The sets-per-pool capacity the next created pool will be given.
    pub fn pool_capacity(&self) -> (r: u32)
        ensures
            r == self.capacity(),
    {
        self.pool_capacity
    }

    /// The identities of the pools on the "ready" list, in list order.
    pub fn ready_pool_ids(&self) -> (r: Vec<u64>)
        ensures
            r@.len() == self.ready_pools().len(),
            forall|i: int| 0 <= i < r@.len() ==> #[trigger] r@[i] == self.ready_pools()[i].id,
    {
        let mut ids: Vec<u64> = Vec::new();
        let mut i: usize = 0;
        while i < self.ready_pool.len()
            invariant
                i <= self.ready_pools().len(),
                ids@.len() == i,
                forall|k: int| 0 <= k < i as int ==> #[trigger] ids@[k] == self.ready_pools()[k].id,
            decreases self.ready_pools().len() - i,
        {
            ids.push(self.ready_pool[i].id);
            i += 1;
        }
        ids
    }

    /// The identities of the pools on the "full" list, in list order.
    pub fn full_pool_ids(&self) -> (r: Vec<u64>)
        ensures
            r@.len() == self.full_pools().len(),
            forall|i: int| 0 <= i < r@.len() ==> #[trigger] r@[i] == self.full_pools()[i].id,
    {
        let mut ids: Vec<u64> = Vec::new();
        let mut i: usize = 0;
        while i < self.full_pool.len()
            invariant
                i <= self.full_pools().len(),
                ids@.len() == i,
                forall|k: int| 0 <= k < i as int ==> #[trigger] ids@[k] == self.full_pools()[k].id,
            decreases self.full_pools().len() - i,
        {
            ids.push(self.full_pool[i].id);
            i += 1;
        }
        ids
    }

    /// No pool is on the "ready" and the "full" list at once: the two lists
    /// never share a pool identity.
    pub proof fn lemma_ready_full_disjoint(&self)
        requires
            self.wf(),
        ensures
            forall|i: int, j: int|
                0 <= i < self.ready_pools().len() && 0 <= j < self.full_pools().len()
                    ==> (#[trigger] self.ready_pools()[i]).id != (
                #[trigger] self.full_pools()[j]).id,
    {
        let n = self.ready_pools().len() as int;
        assert forall|i: int, j: int|
            0 <= i < self.ready_pools().len() && 0 <= j < self.full_pools().len() implies (
        #[trigger] self.ready_pools()[i]).id != (#[trigger] self.full_pools()[j]).id by {
            assert(self.pools()[i] == self.ready_pools()[i]);
            assert(self.pools()[n + j] == self.full_pools()[j]);
            assert(self.pools()[i].id != self.pools()[n + j].id);
        };
    }

    /// Two successful allocations (with no reset in between) never hand out
    /// the same descriptor set: each handle is absent from the live set it is
    /// added to, as `allocate` ensures.
    pub proof fn lemma_successive_handles_distinct(
        s0: Self,
        s1: Self,
        s2: Self,
        h1: DescriptorSetHandle,
        h2: DescriptorSetHandle,
    )
        requires
            !s0.live_handles().contains(h1),
            s1.live_handles() == s0.live_handles().insert(h1),
            !s1.live_handles().contains(h2),
            s2.live_handles() == s1.live_handles().insert(h2),
        ensures
            h1 != h2,
    {
        assert(s1.live_handles().contains(h1));
    }
}

/// Total descriptors over all ratios when each is scaled by `set_count`.
pub open spec fn spec_sizes_total(ratios: Seq<PoolSizeRatio>, set_count: u32) -> int
    decreases ratios.len(),
{
    if ratios.len() == 0 {
        0
    } else {
        spec_sizes_total(ratios.drop_last(), set_count) + ratios.last().spec_ratio() * set_count
    }
}

/// The fixed allocator: one pool sized once, exactly to a declared set of
/// (type, ratio) pairs, for long-lived descriptor sets. Allocation is a
/// direct carve from that pool; `clear_descriptors` returns the whole pool's
/// memory at once.
pub struct DescriptorAllocator {
    max_sets: u32,
    used: u32,
    pool_sizes: Vec<PoolSize>,
}

impl DescriptorAllocator {
    /// The number of sets the pool was created for.
    pub closed spec fn spec_max_sets(&self) -> u32 {
        self.max_sets
    }

    /// How many sets are currently carved from the pool.
    pub closed spec fn spec_used(&self) -> u32 {
        self.used
    }

    /// The per-type descriptor counts the pool was created with.
    pub closed spec fn spec_pool_sizes(&self) -> Seq<PoolSize> {
        self.pool_sizes@
    }

    /// The pool is never over-committed.
    pub open spec fn wf(&self) -> bool {
        self.spec_used() <= self.spec_max_sets()
    }

    /// A fresh allocator whose single pool holds `max_sets` sets, with one
    /// pool-size entry per declared ratio, each scaled by `max_sets`. The
    /// declared ratios must account for the pool exactly: their scaled
    /// counts sum to `max_sets`.
    pub fn new(max_sets: u32, ratios: Vec<PoolSizeRatio>) -> (r: Self)
        requires
            forall|i: int|
                0 <= i < ratios@.len() ==> (#[trigger] ratios@[i].spec_ratio()) * max_sets
                    <= u32::MAX,
            spec_sizes_total(ratios@, max_sets) == max_sets,
        ensures
            r.wf(),
            r.spec_max_sets() == max_sets,
            r.spec_used() == 0,
            r.spec_pool_sizes().len() == ratios@.len(),
            forall|i: int|
                0 <= i < ratios@.len() ==> #[trigger] r.spec_pool_sizes()[i] == (PoolSize {
                    descriptor_type: ratios@[i].spec_descriptor_type(),
                    descriptor_count: (ratios@[i].spec_ratio() * max_sets) as u32,
                }),
    {
        let pool_sizes = compute_pool_sizes(&ratios, max_sets);
        Self { max_sets, used: 0, pool_sizes }
    }

    /// The per-type descriptor counts the pool was created with.
    pub fn pool_sizes(&self) -> (r: &Vec<PoolSize>)
        ensures
            r@ == self.spec_pool_sizes(),
    {
        &self.pool_sizes
    }

    /// Carve one set from the pool; fails exactly when the pool is already
    /// fully committed. A successful call returns the slot index, which was
    /// never returned before since the last reset.
    pub fn allocate(&mut self) -> (r: Result<u32, DescriptorAllocError>)
        requires
            old(self).wf(),
        ensures
            final(self).wf(),
            final(self).spec_max_sets() == old(self).spec_max_sets(),
            final(self).spec_pool_sizes() == old(self).spec_pool_sizes(),
            r is Ok <==> old(self).spec_used() < old(self).spec_max_sets(),
            r matches Ok(idx) ==> idx == old(self).spec_used() && final(self).spec_used()
                == old(self).spec_used() + 1,
            r is Err ==> *final(self) == *old(self),
    {
        if self.used < self.max_sets {
            let idx = self.used;
            self.used = self.used + 1;
            Ok(idx)
        } else {
            Err(DescriptorAllocError::Exhausted)
        }
    }

    /// Reset the whole pool at once: every set's memory is returned.
    pub fn clear_descriptors(&mut self)
        ensures
            final(self).wf(),
            final(self).spec_max_sets() == old(self).spec_max_sets(),
            final(self).spec_pool_sizes() == old(self).spec_pool_sizes(),
            final(self).spec_used() == 0,
    {
        self.used = 0;
    }

    /// Release the pool object; afterwards nothing can be allocated.
    pub fn destroy_pool(&mut self)
        ensures
            final(self).wf(),
            final(self).spec_max_sets() == 0,
            final(self).spec_used() == 0,
            final(self).spec_pool_sizes() == Seq::<PoolSize>::empty(),
    {
        self.max_sets = 0;
        self.used = 0;
        self.pool_sizes = Vec::new();
        proof {
            assert(self.spec_pool_sizes() =~= Seq::<PoolSize>::empty());
        }
    }
}

/// Once it starts at or below the cap, the capacity sequence never leaves
/// `[c, 4092]`: it is nondecreasing and capped.
pub proof fn lemma_capacity_sequence_bounded(c0: nat, k: nat)
    requires
        c0 <= MAX_POOL_CAPACITY as nat,
    ensures
        capacity_sequence(c0, k) <= MAX_POOL_CAPACITY as nat,
        capacity_sequence(c0, k) <= capacity_sequence(c0, k + 1),
    decreases k,
{
    if k > 0 {
        lemma_capacity_sequence_bounded(c0, (k - 1) as nat);
    }
}

/// Once the sequence has grown past the cap it stays there.
pub proof fn lemma_capacity_sequence_capped(c0: nat, k: nat)
    requires
        capacity_sequence(c0, k) == MAX_POOL_CAPACITY as nat,
    ensures
        forall|j: nat| j >= k ==> capacity_sequence(c0, j) == MAX_POOL_CAPACITY as nat,
{
    assert forall|j: nat| j >= k implies capacity_sequence(c0, j) == MAX_POOL_CAPACITY as nat by {
        lemma_capacity_sequence_capped_step(c0, k, j);
    }
}

proof fn lemma_capacity_sequence_capped_step(c0: nat, k: nat, j: nat)
    requires
        capacity_sequence(c0, k) == MAX_POOL_CAPACITY as nat,
        j >= k,
    ensures
        capacity_sequence(c0, j) == MAX_POOL_CAPACITY as nat,
    decreases j - k,
{
    if j > k {
        lemma_capacity_sequence_capped_step(c0, k, (j - 1) as nat);
    }
}

} // verus!
