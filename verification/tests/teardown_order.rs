use vkguide::teardown::canonical_destroy_order;
use vkguide::teardown::GpuObject;
use vkguide::teardown::Teardown;
use vkguide::teardown::TeardownError;

#[test]
fn destroy_refused_before_device_idle() {
    let mut t = Teardown::new();
    assert_eq!(t.destroy(GpuObject::FrameRing), Err(TeardownError::DeviceNotIdle));
}

#[test]
fn device_before_its_children_is_detected() {
    let mut t = Teardown::new();
    t.confirm_device_idle();
    assert_eq!(t.destroy(GpuObject::Device), Err(TeardownError::DependentsAlive));
    t.destroy(GpuObject::FrameRing).expect("the frame ring has no children");
    t.destroy(GpuObject::GpuResources).expect("resources have no children");
    t.destroy(GpuObject::DescriptorAllocators).expect("allocators have no children");
    // The swapchain is still alive: the device must still wait.
    assert_eq!(t.destroy(GpuObject::Device), Err(TeardownError::DependentsAlive));
    t.destroy(GpuObject::Swapchain).expect("the swapchain may go now");
    t.destroy(GpuObject::Device).expect("all children gone: the device may go");
}

#[test]
fn surface_before_swapchain_is_detected() {
    let mut t = Teardown::new();
    t.confirm_device_idle();
    assert_eq!(t.destroy(GpuObject::Surface), Err(TeardownError::DependentsAlive));
}

#[test]
fn double_destroy_is_detected() {
    let mut t = Teardown::new();
    t.confirm_device_idle();
    t.destroy(GpuObject::FrameRing).expect("first destroy should succeed");
    assert_eq!(t.destroy(GpuObject::FrameRing), Err(TeardownError::AlreadyDestroyed));
}

#[test]
fn canonical_order_tears_everything_down() {
    let mut t = Teardown::new();
    t.confirm_device_idle();
    let order = canonical_destroy_order();
    assert_eq!(order.len(), 8);
    for o in &order {
        t.destroy(*o).expect("the canonical order never violates ownership");
    }
    for o in &order {
        assert!(t.is_destroyed(*o));
    }
}

#[test]
fn destroy_all_walks_the_tree_leaves_first() {
    let mut t = Teardown::new();
    t.confirm_device_idle();
    t.destroy_all().expect("the built-in teardown cannot be refused");
    assert!(t.is_destroyed(GpuObject::Instance));
    assert!(t.is_destroyed(GpuObject::Device));
}
