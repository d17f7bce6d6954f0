use vkguide::frames::Frames;
use vkguide::frames::FRAMES_IN_FLIGHT;

#[test]
fn ring_index_cycles_with_period_two() {
    let mut frames = Frames::new();
    assert_eq!(FRAMES_IN_FLIGHT, 2);
    assert_eq!(frames.frame_index(), 0);
    frames.advance();
    assert_eq!(frames.frame_index(), 1);
    frames.advance();
    assert_eq!(frames.frame_index(), 0);
    frames.advance();
    assert_eq!(frames.frame_index(), 1);
}

#[test]
fn begin_protocol_resets_the_current_slot_only() {
    let mut frames = Frames::new();
    frames.begin_current();
    assert_eq!(frames.slot(0).uses(), 1);
    assert_eq!(frames.slot(1).uses(), 0);
    frames.submit_current();
    assert!(frames.slot(0).in_flight());
    assert!(!frames.slot(1).in_flight());
    frames.advance();
    frames.begin_current();
    assert_eq!(frames.slot(1).uses(), 1);
    assert!(!frames.slot(1).in_flight());
    // The begin protocol of slot 1 left slot 0's submission untouched.
    assert!(frames.slot(0).in_flight());
}

#[test]
fn begin_clears_the_frames_descriptor_pools() {
    let mut frames = Frames::new();
    frames.begin_current();
    let before = {
        let slot = frames.get_current_frame_mut();
        let alloc = slot.frame_descriptors_mut();
        alloc.allocate().expect("per-frame allocation should succeed");
        alloc.allocate().expect("per-frame allocation should succeed");
        alloc.ready_count() + alloc.full_count()
    };
    frames.submit_current();
    frames.advance();
    frames.advance();
    // Back on slot 0: the begin protocol reclaims its descriptor memory
    // without destroying any pool.
    frames.begin_current();
    let slot = frames.get_current_frame();
    let alloc = slot.frame_descriptors();
    assert_eq!(alloc.full_count(), 0);
    assert_eq!(alloc.ready_count() + alloc.full_count(), before);
}

#[test]
fn destroy_releases_every_slot() {
    let mut frames = Frames::new();
    frames.begin_current();
    frames.submit_current();
    frames.destroy();
    for i in 0..FRAMES_IN_FLIGHT {
        assert!(!frames.slot(i).in_flight());
        assert_eq!(frames.slot(i).frame_descriptors().ready_count(), 0);
        assert_eq!(frames.slot(i).frame_descriptors().full_count(), 0);
    }
}
