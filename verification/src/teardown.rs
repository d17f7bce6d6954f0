//! The ordered destruction protocol.
//!
//! GPU objects form an ownership tree, and destruction must walk it leaves
//! first, after the device has gone idle: frame ring, dependent GPU
//! resources and descriptor allocators, then the swapchain, then the device,
//! then the surface, the debug messenger and finally the instance.
//! Destroying an owner while something it owns is still alive is undefined
//! behaviour at the API level, so the checker here makes it a detectable
//! logic error instead.

use vstd::prelude::*;

verus! {

/// The teardown-relevant object classes, leaves first in the canonical
/// order.
#[derive(Clone, Copy, Debug, PartialEq, Eq, Structural)]
pub enum GpuObject {
    /// The frame ring: command pools, fences, semaphores, per-frame
    /// descriptor pools.
    FrameRing,
    /// Dependent images and buffers, via their owning allocator.
    GpuResources,
    /// The long-lived descriptor allocators.
    DescriptorAllocators,
    /// The swapchain object, its image views and per-image semaphores.
    Swapchain,
    /// The logical device.
    Device,
    /// The window surface.
    Surface,
    /// The debug/validation messenger.
    DebugMessenger,
    /// The instance.
    Instance,
}

/// Whether `owner` may only be destroyed after `child`: the ownership edges
/// of the teardown tree.
pub open spec fn spec_owned_by(child: GpuObject, owner: GpuObject) -> bool {
    ||| (owner == GpuObject::Device && (child == GpuObject::FrameRing || child
        == GpuObject::GpuResources || child == GpuObject::DescriptorAllocators || child
        == GpuObject::Swapchain))
    ||| (owner == GpuObject::Surface && child == GpuObject::Swapchain)
    ||| (owner == GpuObject::Instance && (child == GpuObject::Device || child
        == GpuObject::Surface || child == GpuObject::DebugMessenger))
}

/// Why a destroy request was refused.
#[derive(Clone, Copy, Debug, PartialEq, Eq, Structural)]
pub enum TeardownError {
    /// The device was never confirmed idle; work may still be in flight.
    DeviceNotIdle,
    /// The object was already destroyed: a double free.
    AlreadyDestroyed,
    /// Something the object owns is still alive.
    DependentsAlive,
}

/// The teardown checker: which objects are gone, and whether device idleness
/// was confirmed before any of them went.
pub struct Teardown {
    device_idle: bool,
    frame_ring_destroyed: bool,
    gpu_resources_destroyed: bool,
    descriptor_allocators_destroyed: bool,
    swapchain_destroyed: bool,
    device_destroyed: bool,
    surface_destroyed: bool,
    debug_messenger_destroyed: bool,
    instance_destroyed: bool,
}

impl Teardown {
    /// Whether the device has been confirmed idle.
    pub closed spec fn spec_device_idle(&self) -> bool {
        self.device_idle
    }

    /// Whether the given object has been destroyed.
    pub closed spec fn spec_destroyed(&self, o: GpuObject) -> bool {
        match o {
            GpuObject::FrameRing => self.frame_ring_destroyed,
            GpuObject::GpuResources => self.gpu_resources_destroyed,
            GpuObject::DescriptorAllocators => self.descriptor_allocators_destroyed,
            GpuObject::Swapchain => self.swapchain_destroyed,
            GpuObject::Device => self.device_destroyed,
            GpuObject::Surface => self.surface_destroyed,
            GpuObject::DebugMessenger => self.debug_messenger_destroyed,
            GpuObject::Instance => self.instance_destroyed,
        }
    }

    /// Everything `o` owns is already gone.
    pub open spec fn spec_children_destroyed(&self, o: GpuObject) -> bool {
        forall|c: GpuObject| spec_owned_by(c, o) ==> self.spec_destroyed(c)
    }

    /// A destroy of `o` is legal now: idleness confirmed, `o` still alive,
    /// nothing it owns left alive.
    pub open spec fn spec_destroy_ok(&self, o: GpuObject) -> bool {
        &&& self.spec_device_idle()
        &&& !self.spec_destroyed(o)
        &&& self.spec_children_destroyed(o)
    }

    /// A fresh checker: everything alive, idleness not yet confirmed.
    pub fn new() -> (r: Self)
        ensures
            !r.spec_device_idle(),
            forall|o: GpuObject| !r.spec_destroyed(o),
    {
        let r = Self {
            device_idle: false,
            frame_ring_destroyed: false,
            gpu_resources_destroyed: false,
            descriptor_allocators_destroyed: false,
            swapchain_destroyed: false,
            device_destroyed: false,
            surface_destroyed: false,
            debug_messenger_destroyed: false,
            instance_destroyed: false,
        };
        proof {
            assert forall|o: GpuObject| !r.spec_destroyed(o) by {}
        }
        r
    }

    /// Record that the device was waited idle; only then may anything be
    /// destroyed.
    pub fn confirm_device_idle(&mut self)
        ensures
            final(self).spec_device_idle(),
            forall|o: GpuObject| final(self).spec_destroyed(o) == old(self).spec_destroyed(o),
    {
        self.device_idle = true;
    }

    pub fn device_idle(&self) -> (r: bool)
        ensures
            r == self.spec_device_idle(),
    {
        self.device_idle
    }

    pub fn is_destroyed(&self, o: GpuObject) -> (r: bool)
        ensures
            r == self.spec_destroyed(o),
    {
        match o {
            GpuObject::FrameRing => self.frame_ring_destroyed,
            GpuObject::GpuResources => self.gpu_resources_destroyed,
            GpuObject::DescriptorAllocators => self.descriptor_allocators_destroyed,
            GpuObject::Swapchain => self.swapchain_destroyed,
            GpuObject::Device => self.device_destroyed,
            GpuObject::Surface => self.surface_destroyed,
            GpuObject::DebugMessenger => self.debug_messenger_destroyed,
            GpuObject::Instance => self.instance_destroyed,
        }
    }

    /// Destroy `o`, or refuse: succeeds exactly when the device was
    /// confirmed idle, `o` is still alive, and everything `o` owns is
    /// already gone. A refusal names the first violated condition and
    /// changes nothing.
    pub fn destroy(&mut self, o: GpuObject) -> (r: Result<(), TeardownError>)
        ensures
            r is Ok <==> old(self).spec_destroy_ok(o),
            r is Ok ==> final(self).spec_destroyed(o) && final(self).spec_device_idle() == old(
                self,
            ).spec_device_idle() && forall|p: GpuObject|
                p != o ==> final(self).spec_destroyed(p) == old(self).spec_destroyed(p),
            r is Err ==> *final(self) == *old(self),
            !old(self).spec_device_idle() ==> r == Err::<(), TeardownError>(
                TeardownError::DeviceNotIdle,
            ),
            old(self).spec_device_idle() && old(self).spec_destroyed(o) ==> r == Err::<
                (),
                TeardownError,
            >(TeardownError::AlreadyDestroyed),
            old(self).spec_device_idle() && !old(self).spec_destroyed(o) && !old(
                self,
            ).spec_children_destroyed(o) ==> r == Err::<(), TeardownError>(
                TeardownError::DependentsAlive,
            ),
    {
        if !self.device_idle {
            return Err(TeardownError::DeviceNotIdle);
        }
        if self.is_destroyed(o) {
            return Err(TeardownError::AlreadyDestroyed);
        }
        let children_gone = match o {
            GpuObject::Device => self.frame_ring_destroyed && self.gpu_resources_destroyed
                && self.descriptor_allocators_destroyed && self.swapchain_destroyed,
            GpuObject::Surface => self.swapchain_destroyed,
            GpuObject::Instance => self.device_destroyed && self.surface_destroyed
                && self.debug_messenger_destroyed,
            _ => true,
        };
        proof {
            if children_gone {
                assert forall|c: GpuObject| spec_owned_by(c, o) implies self.spec_destroyed(
                    c,
                ) by {}
            } else {
                match o {
                    GpuObject::Device => {
                        if !self.frame_ring_destroyed {
                            assert(spec_owned_by(GpuObject::FrameRing, o) && !self.spec_destroyed(
                                GpuObject::FrameRing,
                            ));
                        } else if !self.gpu_resources_destroyed {
                            assert(spec_owned_by(GpuObject::GpuResources, o)
                                && !self.spec_destroyed(GpuObject::GpuResources));
                        } else if !self.descriptor_allocators_destroyed {
                            assert(spec_owned_by(GpuObject::DescriptorAllocators, o)
                                && !self.spec_destroyed(GpuObject::DescriptorAllocators));
                        } else {
                            assert(spec_owned_by(GpuObject::Swapchain, o) && !self.spec_destroyed(
                                GpuObject::Swapchain,
                            ));
                        }
                    },
                    GpuObject::Surface => {
                        assert(spec_owned_by(GpuObject::Swapchain, o) && !self.spec_destroyed(
                            GpuObject::Swapchain,
                        ));
                    },
                    GpuObject::Instance => {
                        if !self.device_destroyed {
                            assert(spec_owned_by(GpuObject::Device, o) && !self.spec_destroyed(
                                GpuObject::Device,
                            ));
                        } else if !self.surface_destroyed {
                            assert(spec_owned_by(GpuObject::Surface, o) && !self.spec_destroyed(
                                GpuObject::Surface,
                            ));
                        } else {
                            assert(spec_owned_by(GpuObject::DebugMessenger, o)
                                && !self.spec_destroyed(GpuObject::DebugMessenger));
                        }
                    },
                    _ => {},
                }
                assert(!self.spec_children_destroyed(o));
            }
        }
        if !children_gone {
            return Err(TeardownError::DependentsAlive);
        }
        match o {
            GpuObject::FrameRing => self.frame_ring_destroyed = true,
            GpuObject::GpuResources => self.gpu_resources_destroyed = true,
            GpuObject::DescriptorAllocators => self.descriptor_allocators_destroyed = true,
            GpuObject::Swapchain => self.swapchain_destroyed = true,
            GpuObject::Device => self.device_destroyed = true,
            GpuObject::Surface => self.surface_destroyed = true,
            GpuObject::DebugMessenger => self.debug_messenger_destroyed = true,
            GpuObject::Instance => self.instance_destroyed = true,
        }
        proof {
            assert forall|p: GpuObject| p != o implies self.spec_destroyed(p) == old(
                self,
            ).spec_destroyed(p) by {}
        }
        Ok(())
    }

    /// Run the whole canonical teardown, leaves first: frame ring, GPU
    /// resources, descriptor allocators, swapchain, device, surface, debug
    /// messenger, instance. From a fully alive state with the device idle it
    /// cannot be refused, and afterwards everything is gone.
    pub fn destroy_all(&mut self) -> (r: Result<(), TeardownError>)
        requires
            old(self).spec_device_idle(),
            forall|o: GpuObject| !old(self).spec_destroyed(o),
        ensures
            r is Ok,
            final(self).spec_device_idle(),
            forall|o: GpuObject| final(self).spec_destroyed(o),
    {
        self.destroy(GpuObject::FrameRing)?;
        self.destroy(GpuObject::GpuResources)?;
        self.destroy(GpuObject::DescriptorAllocators)?;
        self.destroy(GpuObject::Swapchain)?;
        self.destroy(GpuObject::Device)?;
        self.destroy(GpuObject::Surface)?;
        self.destroy(GpuObject::DebugMessenger)?;
        self.destroy(GpuObject::Instance)?;
        proof {
            assert forall|o: GpuObject| self.spec_destroyed(o) by {}
        }
        Ok(())
    }
}

/// The canonical destroy order of the exit protocol, leaves first.
pub fn canonical_destroy_order() -> (r: Vec<GpuObject>)
    ensures
        r@ == seq![
            GpuObject::FrameRing,
            GpuObject::GpuResources,
            GpuObject::DescriptorAllocators,
            GpuObject::Swapchain,
            GpuObject::Device,
            GpuObject::Surface,
            GpuObject::DebugMessenger,
            GpuObject::Instance,
        ],
{
    let mut order: Vec<GpuObject> = Vec::new();
    order.push(GpuObject::FrameRing);
    order.push(GpuObject::GpuResources);
    order.push(GpuObject::DescriptorAllocators);
    order.push(GpuObject::Swapchain);
    order.push(GpuObject::Device);
    order.push(GpuObject::Surface);
    order.push(GpuObject::DebugMessenger);
    order.push(GpuObject::Instance);
    proof {
        assert(order@ =~= seq![
            GpuObject::FrameRing,
            GpuObject::GpuResources,
            GpuObject::DescriptorAllocators,
            GpuObject::Swapchain,
            GpuObject::Device,
            GpuObject::Surface,
            GpuObject::DebugMessenger,
            GpuObject::Instance,
        ]);
    }
    order
}

/// Destroying an owner while something it owns is alive is always refused:
/// in particular the device cannot go before its command pools, descriptor
/// pools or swapchain.
pub proof fn lemma_owner_refused_while_child_alive(t: Teardown, child: GpuObject, owner: GpuObject)
    requires
        spec_owned_by(child, owner),
        !t.spec_destroyed(child),
    ensures
        !t.spec_destroy_ok(owner),
{
}

} // verus!
