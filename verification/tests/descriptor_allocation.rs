use vkguide::descriptors::compute_pool_sizes;
use vkguide::descriptors::DescriptorAllocError;
use vkguide::descriptors::DescriptorAllocator;
use vkguide::descriptors::DescriptorAllocatorGrowable;
use vkguide::descriptors::PoolSizeRatio;
use vkguide::descriptors::DESCRIPTOR_TYPE_COMBINED_IMAGE_SAMPLER;
use vkguide::descriptors::DESCRIPTOR_TYPE_STORAGE_BUFFER;
use vkguide::descriptors::DESCRIPTOR_TYPE_STORAGE_IMAGE;
use vkguide::descriptors::DESCRIPTOR_TYPE_UNIFORM_BUFFER;
use vkguide::frames::default_frame_ratios;

fn test_ratios() -> Vec<PoolSizeRatio> {
    vec![
        PoolSizeRatio::new(DESCRIPTOR_TYPE_STORAGE_IMAGE, 3),
        PoolSizeRatio::new(DESCRIPTOR_TYPE_COMBINED_IMAGE_SAMPLER, 4),
    ]
}

#[test]
fn capacity_growth_sequence_from_ten() {
    // Starting capacity 10: each exhaustion event creates a pool half again
    // as large, capped at 4092: 10 -> 15 -> 22 -> 33 -> ... -> 4092.
    let expected_created: [u32; 16] =
        [15, 22, 33, 49, 73, 109, 163, 244, 366, 549, 823, 1234, 1851, 2776, 4092, 4092];
    let mut alloc = DescriptorAllocatorGrowable::new(10, test_ratios());
    assert_eq!(alloc.pool_capacity(), 15);
    let mut free_in_current: u32 = 10;
    for &created in &expected_created {
        // The counter holds the capacity the next created pool will get.
        assert_eq!(alloc.pool_capacity(), created);
        for _ in 0..free_in_current {
            alloc.allocate().expect("pool should still have room");
        }
        let full_before = alloc.full_count();
        // The next request finds the pool exhausted: it moves to "full" and a
        // fresh pool of the predicted capacity serves the request.
        alloc.allocate().expect("retry on a fresh pool should succeed");
        assert_eq!(alloc.full_count(), full_before + 1);
        let grown = created + created / 2;
        let next = if grown > 4092 { 4092 } else { grown };
        assert_eq!(alloc.pool_capacity(), next);
        free_in_current = created - 1;
    }
}

#[test]
fn allocation_handles_never_repeat() {
    let mut alloc = DescriptorAllocatorGrowable::new(3, test_ratios());
    let mut seen: Vec<(u64, u32)> = Vec::new();
    for _ in 0..10 {
        let h = alloc.allocate().expect("allocation should succeed");
        let key = (h.pool_id, h.index);
        assert!(!seen.contains(&key), "a descriptor set was handed out twice");
        seen.push(key);
    }
}

#[test]
fn ready_and_full_lists_stay_disjoint() {
    let mut alloc = DescriptorAllocatorGrowable::new(2, test_ratios());
    for _ in 0..9 {
        alloc.allocate().expect("allocation should succeed");
        let ready = alloc.ready_pool_ids();
        let full = alloc.full_pool_ids();
        for r in &ready {
            assert!(!full.contains(r), "a pool is on both lists at once");
        }
    }
}

#[test]
fn clear_pools_resets_everything_to_ready() {
    let mut alloc = DescriptorAllocatorGrowable::new(2, test_ratios());
    // Exhaust the first pool twice over so several pools exist and one is
    // parked on "full".
    for _ in 0..7 {
        alloc.allocate().expect("allocation should succeed");
    }
    assert!(alloc.full_count() > 0);
    let pools_total = alloc.ready_count() + alloc.full_count();
    alloc.clear_pools();
    assert_eq!(alloc.full_count(), 0);
    assert_eq!(alloc.ready_count(), pools_total);
    // All pool memory is reclaimed: the same pools serve new requests.
    let h = alloc.allocate().expect("allocation after clear should succeed");
    assert_eq!(h.index, 0);
}

#[test]
fn zero_capacity_allocator_reports_exhaustion() {
    let mut alloc = DescriptorAllocatorGrowable::new(0, test_ratios());
    assert_eq!(alloc.allocate(), Err(DescriptorAllocError::Exhausted));
    // The capacity counter stays at zero: half again of nothing is nothing.
    assert_eq!(alloc.pool_capacity(), 0);
}

#[test]
fn destroy_pools_releases_everything() {
    let mut alloc = DescriptorAllocatorGrowable::new(4, test_ratios());
    for _ in 0..6 {
        alloc.allocate().expect("allocation should succeed");
    }
    alloc.destroy_pools();
    assert_eq!(alloc.ready_count(), 0);
    assert_eq!(alloc.full_count(), 0);
}

#[test]
fn fixed_allocator_is_a_single_pool() {
    // One pool sized exactly to the declared ratios: a single ratio of 1
    // accounts for all 3 sets.
    let ratios = vec![PoolSizeRatio::new(DESCRIPTOR_TYPE_STORAGE_IMAGE, 1)];
    let mut alloc = DescriptorAllocator::new(3, ratios);
    assert_eq!(alloc.pool_sizes().len(), 1);
    assert_eq!(alloc.pool_sizes()[0].descriptor_type, DESCRIPTOR_TYPE_STORAGE_IMAGE);
    assert_eq!(alloc.pool_sizes()[0].descriptor_count, 3);
    assert_eq!(alloc.allocate(), Ok(0));
    assert_eq!(alloc.allocate(), Ok(1));
    assert_eq!(alloc.allocate(), Ok(2));
    assert_eq!(alloc.allocate(), Err(DescriptorAllocError::Exhausted));
    alloc.clear_descriptors();
    assert_eq!(alloc.allocate(), Ok(0));
    alloc.destroy_pool();
    assert_eq!(alloc.allocate(), Err(DescriptorAllocError::Exhausted));
    assert!(alloc.pool_sizes().is_empty());
}

#[test]
fn pool_sizes_scale_ratios_by_set_count() {
    let ratios = default_frame_ratios();
    let sizes = compute_pool_sizes(&ratios, 1000);
    assert_eq!(sizes.len(), 4);
    assert_eq!(sizes[0].descriptor_type, DESCRIPTOR_TYPE_STORAGE_IMAGE);
    assert_eq!(sizes[0].descriptor_count, 3000);
    assert_eq!(sizes[1].descriptor_type, DESCRIPTOR_TYPE_STORAGE_BUFFER);
    assert_eq!(sizes[1].descriptor_count, 3000);
    assert_eq!(sizes[2].descriptor_type, DESCRIPTOR_TYPE_UNIFORM_BUFFER);
    assert_eq!(sizes[2].descriptor_count, 3000);
    assert_eq!(sizes[3].descriptor_type, DESCRIPTOR_TYPE_COMBINED_IMAGE_SAMPLER);
    assert_eq!(sizes[3].descriptor_count, 4000);
}
