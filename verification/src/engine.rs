//! The render loop's per-iteration state machine.
//!
//! Each iteration moves through wait → acquire → record → submit → present →
//! advance. Acquisition and presentation can both report that the swapchain
//! has gone stale; either way the rest of the iteration is skipped, the
//! swapchain is flagged for recreation on the next iteration, and the frame
//! ring keeps its state. The driving code performs the device calls and
//! feeds each outcome into the matching transition here; the contracts pin
//! down what every outcome does to the engine's state.

use vstd::prelude::*;

use crate::barriers::ImageLayout;
use crate::descriptors::DescriptorPool;
use crate::descriptors::DescriptorSetHandle;
use crate::frames::next_frame_index;
use crate::frames::FenceWait;
use crate::frames::Frames;
use crate::swapchain::Swapchain;

verus! {

/// Where the loop stands inside the current iteration.
#[derive(Clone, Copy, Debug, PartialEq, Eq, Structural)]
pub enum Phase {
    /// Waiting on the current slot's fence (the top of an iteration).
    WaitPreviousFrame,
    /// The slot is reset; an image must be acquired next.
    AcquireImage,
    /// An image is held; the frame's commands are being recorded.
    RecordCommands,
    /// Recording is closed; the work must be submitted.
    Submit,
    /// Work is submitted; the image must be handed to the presentation
    /// engine.
    Present,
}

/// What image acquisition reported.
#[derive(Clone, Copy, Debug, PartialEq, Eq, Structural)]
pub enum AcquireOutcome {
    /// An image was acquired and is current.
    Success { image_index: u32 },
    /// An image was acquired but flagged stale; it must not be drawn to.
    Suboptimal { image_index: u32 },
    /// The swapchain no longer matches the surface; nothing was acquired.
    OutOfDate,
    /// Any other acquisition failure: fatal.
    Failed,
}

/// What presentation reported.
#[derive(Clone, Copy, Debug, PartialEq, Eq, Structural)]
pub enum PresentOutcome {
    /// The image was queued for presentation.
    Success,
    /// Presented, but the swapchain is stale.
    Suboptimal,
    /// The swapchain no longer matches the surface.
    OutOfDate,
    /// Any other presentation failure: fatal.
    Failed,
}

/// How an iteration step failed; all of these are fatal to the process, not
/// to the frame.
#[derive(Clone, Copy, Debug, PartialEq, Eq, Structural)]
pub enum RenderError {
    /// A fence wait failed or timed out.
    DeviceLost,
    /// Acquisition failed for a reason other than staleness.
    AcquireFailed,
    /// Presentation failed for a reason other than staleness.
    PresentFailed,
    /// The presentation engine named an image the swapchain does not have.
    InvalidImageIndex,
}

/// What `handle_acquire` tells the caller to do with the iteration.
#[derive(Clone, Copy, Debug, PartialEq, Eq, Structural)]
pub enum AcquireAction {
    /// Draw into the image with this index.
    Proceed { image_index: u32 },
    /// Skip drawing and presenting this iteration; the swapchain is flagged
    /// for recreation.
    SkipFrame,
}

/// How one whole iteration ended.
#[derive(Clone, Copy, Debug, PartialEq, Eq, Structural)]
pub enum FrameOutcome {
    /// The frame was drawn and queued for presentation into this image.
    Drawn { image_index: u32 },
    /// The iteration was skipped; the swapchain will be recreated first.
    SkippedStale,
}

/// The images the recorded commands touch.
#[derive(Clone, Copy, Debug, PartialEq, Eq, Structural)]
pub enum RecordTarget {
    /// The offscreen color image the frame is rendered into.
    DrawImage,
    /// The depth buffer.
    DepthImage,
    /// The acquired swapchain image.
    SwapchainImage,
}

/// One recorded command: a declared layout transition or a batch of work
/// between transitions.
#[derive(Clone, Copy, Debug, PartialEq, Eq, Structural)]
pub enum RecordStep {
    /// A barrier moving `target` from layout `from` to layout `to`.
    Transition { target: RecordTarget, from: ImageLayout, to: ImageLayout },
    /// The background compute dispatch into the draw image.
    DispatchBackground,
    /// The geometry pass into the draw image.
    DrawGeometry,
    /// Blit the draw image into the acquired swapchain image.
    CopyDrawToSwapchain,
    /// The UI overlay pass into the swapchain image.
    DrawGui,
}

/// The layout `target` is in after the first `n` steps: the `to` of its most
/// recent transition, or undefined before any.
pub open spec fn layout_after(steps: Seq<RecordStep>, target: RecordTarget, n: int) -> ImageLayout
    decreases n,
{
    if n <= 0 {
        ImageLayout::Undefined
    } else {
        match steps[n - 1] {
            RecordStep::Transition { target: t, from, to } => if t == target {
                to
            } else {
                layout_after(steps, target, n - 1)
            },
            _ => layout_after(steps, target, n - 1),
        }
    }
}

/// Every transition declares as its `from` exactly the layout its target is
/// in at that point, starting from undefined.
pub open spec fn transitions_consistent(steps: Seq<RecordStep>) -> bool {
    forall|n: int|
        0 <= n < steps.len() ==> match #[trigger] steps[n] {
            RecordStep::Transition { target, from, to } => from == layout_after(steps, target, n),
            _ => true,
        }
}

/// The frame's fixed command plan: background compute into the draw image,
/// geometry on top, blit into the acquired swapchain image, UI overlay, then
/// hand-off to the presentation engine — with every layout transition
/// declared in between.
pub open spec fn spec_record_plan() -> Seq<RecordStep> {
    seq![
        RecordStep::Transition {
            target: RecordTarget::DrawImage,
            from: ImageLayout::Undefined,
            to: ImageLayout::General,
        },
        RecordStep::DispatchBackground,
        RecordStep::Transition {
            target: RecordTarget::DrawImage,
            from: ImageLayout::General,
            to: ImageLayout::ColorAttachment,
        },
        RecordStep::Transition {
            target: RecordTarget::DepthImage,
            from: ImageLayout::Undefined,
            to: ImageLayout::DepthAttachment,
        },
        RecordStep::DrawGeometry,
        RecordStep::Transition {
            target: RecordTarget::DrawImage,
            from: ImageLayout::ColorAttachment,
            to: ImageLayout::TransferSrc,
        },
        RecordStep::Transition {
            target: RecordTarget::SwapchainImage,
            from: ImageLayout::Undefined,
            to: ImageLayout::TransferDst,
        },
        RecordStep::CopyDrawToSwapchain,
        RecordStep::Transition {
            target: RecordTarget::SwapchainImage,
            from: ImageLayout::TransferDst,
            to: ImageLayout::ColorAttachment,
        },
        RecordStep::DrawGui,
        RecordStep::Transition {
            target: RecordTarget::SwapchainImage,
            from: ImageLayout::ColorAttachment,
            to: ImageLayout::PresentSrc,
        },
    ]
}

/// The frame's command plan is layout-consistent: each of the three images
/// moves through its transitions in an unbroken chain from undefined.
pub proof fn lemma_record_plan_consistent()
    ensures
        transitions_consistent(spec_record_plan()),
{
    let steps = spec_record_plan();
    assert forall|n: int| 0 <= n < steps.len() implies match #[trigger] steps[n] {
        RecordStep::Transition { target, from, to } => from == layout_after(steps, target, n),
        _ => true,
    } by {
        reveal_with_fuel(layout_after, 12);
        assert(steps.len() == 11);
    }
}

/// The drawable area: the offscreen draw image clamped to the swapchain's
/// extent, dimension by dimension. (The driving code may further scale this
/// down by its render-scale factor.)
pub fn clamped_draw_extent(draw: crate::swapchain::Extent2D, swap: crate::swapchain::Extent2D)
    -> (r: crate::swapchain::Extent2D)
    ensures
        r.width == if draw.width < swap.width {
            draw.width
        } else {
            swap.width
        },
        r.height == if draw.height < swap.height {
            draw.height
        } else {
            swap.height
        },
{
    crate::swapchain::Extent2D {
        width: if draw.width < swap.width {
            draw.width
        } else {
            swap.width
        },
        height: if draw.height < swap.height {
            draw.height
        } else {
            swap.height
        },
    }
}

/// Work-group counts for the background compute dispatch: the draw extent
/// divided into 16-by-16 tiles, rounded up.
pub fn dispatch_group_counts(extent: crate::swapchain::Extent2D) -> (r: (u32, u32))
    ensures
        r.0 == (extent.width + 15) / 16,
        r.1 == (extent.height + 15) / 16,
{
    let x = ((extent.width as u64 + 15) / 16) as u32;
    let y = ((extent.height as u64 + 15) / 16) as u32;
    (x, y)
}

/// The engine's orchestration state: the frame ring, the swapchain, where
/// the loop stands, the most recently acquired image, and the deferred
/// recreation and occlusion flags.
pub struct Engine {
    frames: Frames,
    swapchain: Swapchain,
    phase: Phase,
    current_image: u32,
    resize_swapchain: bool,
    render: bool,
}

impl Engine {
    /// The frame ring.
    pub closed spec fn spec_frames(&self) -> Frames {
        self.frames
    }

    /// The swapchain model.
    pub closed spec fn spec_swapchain(&self) -> Swapchain {
        self.swapchain
    }

    /// Where the loop stands.
    pub closed spec fn spec_phase(&self) -> Phase {
        self.phase
    }

    /// The image index returned by the most recent acquisition; meaningful
    /// from recording through presentation.
    pub closed spec fn spec_current_image(&self) -> u32 {
        self.current_image
    }

    /// Whether the swapchain must be recreated before the next frame.
    pub closed spec fn spec_resize_swapchain(&self) -> bool {
        self.resize_swapchain
    }

    /// Whether the window is visible and frames should be drawn.
    pub closed spec fn spec_render(&self) -> bool {
        self.render
    }

    /// Well-formedness: ring and swapchain well-formed; from reset through
    /// submission the current slot is not in flight (its fence was waited on
    /// and reset before any reuse); while an image is held its index is
    /// valid.
    pub open spec fn wf(&self) -> bool {
        &&& self.spec_frames().wf()
        &&& self.spec_swapchain().wf()
        &&& (self.spec_phase() == Phase::AcquireImage || self.spec_phase()
            == Phase::RecordCommands || self.spec_phase() == Phase::Submit)
            ==> !self.spec_frames().current().spec_in_flight()
        &&& (self.spec_phase() == Phase::RecordCommands || self.spec_phase() == Phase::Submit
            || self.spec_phase() == Phase::Present) ==> self.spec_current_image()
            < self.spec_swapchain().spec_image_count()
    }

    /// A fresh engine: a new frame ring at index zero, the given swapchain,
    /// the loop at the top of an iteration, nothing flagged.
    pub fn new(swapchain: Swapchain) -> (r: Self)
        requires
            swapchain.wf(),
        ensures
            r.wf(),
            r.spec_swapchain() == swapchain,
            r.spec_phase() == Phase::WaitPreviousFrame,
            r.spec_frames().spec_frame_index() == 0,
            !r.spec_resize_swapchain(),
            r.spec_render(),
            forall|i: int|
                0 <= i < r.spec_frames().slots().len() ==> !(
                #[trigger] r.spec_frames().slots()[i]).spec_in_flight()
                    && r.spec_frames().slots()[i].spec_uses() == 0,
    {
        Self {
            frames: Frames::new(),
            swapchain,
            phase: Phase::WaitPreviousFrame,
            current_image: 0,
            resize_swapchain: false,
            render: true,
        }
    }

    pub fn frames(&self) -> (r: &Frames)
        ensures
            *r == self.spec_frames(),
    {
        &self.frames
    }

    pub fn swapchain(&self) -> (r: &Swapchain)
        ensures
            *r == self.spec_swapchain(),
    {
        &self.swapchain
    }

    pub fn phase(&self) -> (r: Phase)
        ensures
            r == self.spec_phase(),
    {
        self.phase
    }

    pub fn current_image(&self) -> (r: u32)
        ensures
            r == self.spec_current_image(),
    {
        self.current_image
    }

    pub fn needs_resize(&self) -> (r: bool)
        ensures
            r == self.spec_resize_swapchain(),
    {
        self.resize_swapchain
    }

    pub fn is_rendering(&self) -> (r: bool)
        ensures
            r == self.spec_render(),
    {
        self.render
    }

    /// A window resize: flag the swapchain for recreation; nothing is torn
    /// down inside the event, the recreation is deferred to the top of the
    /// next iteration.
    pub fn resize(&mut self)
        requires
            old(self).wf(),
        ensures
            final(self).wf(),
            final(self).spec_resize_swapchain(),
            final(self).spec_frames() == old(self).spec_frames(),
            final(self).spec_swapchain() == old(self).spec_swapchain(),
            final(self).spec_phase() == old(self).spec_phase(),
            final(self).spec_current_image() == old(self).spec_current_image(),
            final(self).spec_render() == old(self).spec_render(),
    {
        self.resize_swapchain = true;
    }

    /// An occlusion event: a hidden window pauses drawing without tearing
    /// any state down; an uncovered window resumes it.
    pub fn set_occluded(&mut self, occluded: bool)
        requires
            old(self).wf(),
        ensures
            final(self).wf(),
            final(self).spec_render() == !occluded,
            final(self).spec_frames() == old(self).spec_frames(),
            final(self).spec_swapchain() == old(self).spec_swapchain(),
            final(self).spec_phase() == old(self).spec_phase(),
            final(self).spec_current_image() == old(self).spec_current_image(),
            final(self).spec_resize_swapchain() == old(self).spec_resize_swapchain(),
    {
        self.render = !occluded;
    }

    /// Install the freshly created replacement swapchain, clearing the
    /// recreation flag. Run only at the top of an iteration, after the old
    /// swapchain was destroyed under an idle device.
    pub fn install_swapchain(&mut self, swapchain: Swapchain)
        requires
            old(self).wf(),
            old(self).spec_phase() == Phase::WaitPreviousFrame,
            swapchain.wf(),
        ensures
            final(self).wf(),
            final(self).spec_swapchain() == swapchain,
            !final(self).spec_resize_swapchain(),
            final(self).spec_frames() == old(self).spec_frames(),
            final(self).spec_phase() == old(self).spec_phase(),
            final(self).spec_current_image() == old(self).spec_current_image(),
            final(self).spec_render() == old(self).spec_render(),
    {
        self.swapchain = swapchain;
        self.resize_swapchain = false;
    }

    /// The begin protocol's effect on the ring, `pre` to `post`: same slot
    /// current, no longer in flight, used once more, its descriptor pools
    /// all reset and back on "ready" — identities and capacities kept, no
    /// live set left — and every other slot untouched.
    pub open spec fn slot_begun(pre: Self, post: Self) -> bool {
        let pa = pre.spec_frames().current().spec_frame_descriptors();
        let qa = post.spec_frames().current().spec_frame_descriptors();
        &&& post.spec_frames().spec_frame_index() == pre.spec_frames().spec_frame_index()
        &&& post.spec_frames().slots().len() == pre.spec_frames().slots().len()
        &&& !post.spec_frames().current().spec_in_flight()
        &&& post.spec_frames().current().spec_uses() == pre.spec_frames().current().spec_uses()
            + 1
        &&& qa.full_pools() == Seq::<DescriptorPool>::empty()
        &&& qa.live_handles() =~= Set::<DescriptorSetHandle>::empty()
        &&& qa.spec_ratios() == pa.spec_ratios()
        &&& qa.capacity() == pa.capacity()
        &&& qa.next_id() == pa.next_id()
        &&& qa.ready_pools().len() == pa.pools().len()
        &&& forall|i: int|
            0 <= i < pa.pools().len() ==> #[trigger] qa.ready_pools()[i] == (DescriptorPool {
                used: 0,
                ..pa.pools()[i]
            })
        &&& forall|i: int|
            0 <= i < pre.spec_frames().slots().len() && i != pre.spec_frames().spec_frame_index()
                as int ==> #[trigger] post.spec_frames().slots()[i]
                == pre.spec_frames().slots()[i]
    }

    /// The top of an iteration: the current slot's fence has been waited on
    /// with an unbounded timeout. On success the fence is reset and the
    /// slot's command context and descriptor pools are reset for reuse; a
    /// failed wait is device loss, fatal, and changes nothing.
    pub fn begin_frame(&mut self, wait: FenceWait) -> (r: Result<(), RenderError>)
        requires
            old(self).wf(),
            old(self).spec_phase() == Phase::WaitPreviousFrame,
            !old(self).spec_resize_swapchain(),
            old(self).spec_frames().current().spec_uses() < u64::MAX,
        ensures
            final(self).wf(),
            r is Ok <==> wait == FenceWait::Signaled,
            wait == FenceWait::Failed ==> r == Err::<(), RenderError>(RenderError::DeviceLost)
                && *final(self) == *old(self),
            wait == FenceWait::Signaled ==> {
                &&& final(self).spec_phase() == Phase::AcquireImage
                &&& final(self).spec_swapchain() == old(self).spec_swapchain()
                &&& final(self).spec_resize_swapchain() == old(self).spec_resize_swapchain()
                &&& final(self).spec_render() == old(self).spec_render()
                &&& Self::slot_begun(*old(self), *final(self))
            },
    {
        match wait {
            FenceWait::Signaled => {
                self.frames.begin_current();
                self.phase = Phase::AcquireImage;
                Ok(())
            },
            FenceWait::Failed => Err(RenderError::DeviceLost),
        }
    }

    /// React to what acquisition reported. Staleness (reported outright or
    /// as a suboptimal image) short-circuits the iteration: drawing and
    /// presenting are skipped, the swapchain is flagged for recreation, and
    /// the frame ring's state — index and every slot — is untouched. A
    /// usable image index becomes current and recording may begin.
    pub fn handle_acquire(&mut self, outcome: AcquireOutcome) -> (r: Result<
        AcquireAction,
        RenderError,
    >)
        requires
            old(self).wf(),
            old(self).spec_phase() == Phase::AcquireImage,
        ensures
            final(self).wf(),
            final(self).spec_frames() == old(self).spec_frames(),
            final(self).spec_swapchain() == old(self).spec_swapchain(),
            final(self).spec_render() == old(self).spec_render(),
            r is Ok <==> match outcome {
                AcquireOutcome::Failed => false,
                AcquireOutcome::Success { image_index } => image_index < old(
                    self,
                ).spec_swapchain().spec_image_count(),
                _ => true,
            },
            outcome == AcquireOutcome::Failed ==> r == Err::<AcquireAction, RenderError>(
                RenderError::AcquireFailed,
            ) && *final(self) == *old(self),
            (outcome matches AcquireOutcome::Suboptimal { .. } || outcome
                == AcquireOutcome::OutOfDate) ==> r == Ok::<AcquireAction, RenderError>(
                AcquireAction::SkipFrame,
            ) && final(self).spec_resize_swapchain() && final(self).spec_phase()
                == Phase::WaitPreviousFrame,
            outcome matches AcquireOutcome::Success { image_index } ==> if image_index < old(
                self,
            ).spec_swapchain().spec_image_count() {
                &&& r == Ok::<AcquireAction, RenderError>(
                    AcquireAction::Proceed { image_index },
                )
                &&& final(self).spec_phase() == Phase::RecordCommands
                &&& final(self).spec_current_image() == image_index
                &&& final(self).spec_resize_swapchain() == old(self).spec_resize_swapchain()
            } else {
                &&& r == Err::<AcquireAction, RenderError>(RenderError::InvalidImageIndex)
                &&& *final(self) == *old(self)
            },
    {
        match outcome {
            AcquireOutcome::Success { image_index } => {
                if image_index < self.swapchain.image_count() {
                    self.current_image = image_index;
                    self.phase = Phase::RecordCommands;
                    Ok(AcquireAction::Proceed { image_index })
                } else {
                    Err(RenderError::InvalidImageIndex)
                }
            },
            AcquireOutcome::Suboptimal { .. } | AcquireOutcome::OutOfDate => {
                self.resize_swapchain = true;
                self.phase = Phase::WaitPreviousFrame;
                Ok(AcquireAction::SkipFrame)
            },
            AcquireOutcome::Failed => Err(RenderError::AcquireFailed),
        }
    }

    /// Produce the frame's command plan. Recording is strictly
    /// single-producer, single-buffer: the one primary context of the
    /// current slot records the whole frame between its fence reset and its
    /// submission.
    pub fn record_commands(&mut self) -> (r: Vec<RecordStep>)
        requires
            old(self).wf(),
            old(self).spec_phase() == Phase::RecordCommands,
        ensures
            final(self).wf(),
            r@ == spec_record_plan(),
            final(self).spec_phase() == Phase::Submit,
            final(self).spec_frames() == old(self).spec_frames(),
            final(self).spec_swapchain() == old(self).spec_swapchain(),
            final(self).spec_current_image() == old(self).spec_current_image(),
            final(self).spec_resize_swapchain() == old(self).spec_resize_swapchain(),
            final(self).spec_render() == old(self).spec_render(),
    {
        let mut steps: Vec<RecordStep> = Vec::new();
        steps.push(RecordStep::Transition {
            target: RecordTarget::DrawImage,
            from: ImageLayout::Undefined,
            to: ImageLayout::General,
        });
        steps.push(RecordStep::DispatchBackground);
        steps.push(RecordStep::Transition {
            target: RecordTarget::DrawImage,
            from: ImageLayout::General,
            to: ImageLayout::ColorAttachment,
        });
        steps.push(RecordStep::Transition {
            target: RecordTarget::DepthImage,
            from: ImageLayout::Undefined,
            to: ImageLayout::DepthAttachment,
        });
        steps.push(RecordStep::DrawGeometry);
        steps.push(RecordStep::Transition {
            target: RecordTarget::DrawImage,
            from: ImageLayout::ColorAttachment,
            to: ImageLayout::TransferSrc,
        });
        steps.push(RecordStep::Transition {
            target: RecordTarget::SwapchainImage,
            from: ImageLayout::Undefined,
            to: ImageLayout::TransferDst,
        });
        steps.push(RecordStep::CopyDrawToSwapchain);
        steps.push(RecordStep::Transition {
            target: RecordTarget::SwapchainImage,
            from: ImageLayout::TransferDst,
            to: ImageLayout::ColorAttachment,
        });
        steps.push(RecordStep::DrawGui);
        steps.push(RecordStep::Transition {
            target: RecordTarget::SwapchainImage,
            from: ImageLayout::ColorAttachment,
            to: ImageLayout::PresentSrc,
        });
        self.phase = Phase::Submit;
        proof {
            assert(steps@ =~= spec_record_plan());
        }
        steps
    }

    /// Submit the recorded work: the current slot goes in flight behind its
    /// fence. Returns the index of the render-complete semaphore to signal,
    /// which is the index of the *acquired image* — never the frame-ring
    /// slot index, since the presentation engine may return images out of
    /// frame order.
    pub fn submit_frame(&mut self) -> (r: u32)
        requires
            old(self).wf(),
            old(self).spec_phase() == Phase::Submit,
        ensures
            final(self).wf(),
            r == old(self).spec_current_image(),
            r < old(self).spec_swapchain().spec_render_semaphore_count(),
            final(self).spec_phase() == Phase::Present,
            final(self).spec_swapchain() == old(self).spec_swapchain(),
            final(self).spec_current_image() == old(self).spec_current_image(),
            final(self).spec_resize_swapchain() == old(self).spec_resize_swapchain(),
            final(self).spec_render() == old(self).spec_render(),
            final(self).spec_frames().spec_frame_index() == old(
                self,
            ).spec_frames().spec_frame_index(),
            final(self).spec_frames().current().spec_in_flight(),
            final(self).spec_frames().current().spec_uses() == old(
                self,
            ).spec_frames().current().spec_uses(),
            forall|i: int|
                0 <= i < old(self).spec_frames().slots().len() && i != old(
                    self,
                ).spec_frames().spec_frame_index() as int
                    ==> #[trigger] final(self).spec_frames().slots()[i] == old(
                    self,
                ).spec_frames().slots()[i],
    {
        self.frames.submit_current();
        self.phase = Phase::Present;
        self.current_image
    }

    /// React to what presentation reported, then advance the ring. Staleness
    /// flags recreation but the frame still counts: the ring advances either
    /// way, exactly as a successful present does. Any other failure is fatal
    /// and leaves the engine as it stands.
    pub fn handle_present(&mut self, outcome: PresentOutcome) -> (r: Result<(), RenderError>)
        requires
            old(self).wf(),
            old(self).spec_phase() == Phase::Present,
        ensures
            final(self).wf(),
            r is Ok <==> !(outcome == PresentOutcome::Failed),
            outcome == PresentOutcome::Failed ==> r == Err::<(), RenderError>(
                RenderError::PresentFailed,
            ) && *final(self) == *old(self),
            r is Ok ==> {
                &&& final(self).spec_phase() == Phase::WaitPreviousFrame
                &&& final(self).spec_swapchain() == old(self).spec_swapchain()
                &&& final(self).spec_render() == old(self).spec_render()
                &&& final(self).spec_frames().slots() == old(self).spec_frames().slots()
                &&& final(self).spec_frames().spec_frame_index() as nat == next_frame_index(
                    old(self).spec_frames().spec_frame_index() as nat,
                )
                &&& final(self).spec_resize_swapchain() == (old(self).spec_resize_swapchain()
                    || outcome == PresentOutcome::Suboptimal || outcome
                    == PresentOutcome::OutOfDate)
            },
    {
        match outcome {
            PresentOutcome::Success => {},
            PresentOutcome::Suboptimal | PresentOutcome::OutOfDate => {
                self.resize_swapchain = true;
            },
            PresentOutcome::Failed => {
                return Err(RenderError::PresentFailed);
            },
        }
        self.frames.advance();
        self.phase = Phase::WaitPreviousFrame;
        Ok(())
    }

    /// One whole frame iteration, with the three device outcomes supplied:
    /// wait for the slot's fence, acquire, record, submit, present, advance.
    /// A stale acquire skips the rest of the iteration without advancing the
    /// ring and without touching any slot's state beyond the begin protocol.
    /// Every fatal outcome — failed wait, failed acquire, an image the
    /// swapchain does not have, failed present — is surfaced as the matching
    /// error and never advances the ring.
    pub fn render(&mut self, wait: FenceWait, acquired: AcquireOutcome, presented: PresentOutcome)
        -> (r: Result<FrameOutcome, RenderError>)
        requires
            old(self).wf(),
            old(self).spec_phase() == Phase::WaitPreviousFrame,
            !old(self).spec_resize_swapchain(),
            old(self).spec_frames().current().spec_uses() < u64::MAX,
        ensures
            final(self).wf(),
            final(self).spec_swapchain() == old(self).spec_swapchain(),
            final(self).spec_render() == old(self).spec_render(),
            final(self).spec_frames().slots().len() == old(self).spec_frames().slots().len(),
            r is Ok <==> (wait == FenceWait::Signaled && match acquired {
                AcquireOutcome::Failed => false,
                AcquireOutcome::Success { image_index } => image_index < old(
                    self,
                ).spec_swapchain().spec_image_count() && presented != PresentOutcome::Failed,
                _ => true,
            }),
            wait == FenceWait::Failed ==> r == Err::<FrameOutcome, RenderError>(
                RenderError::DeviceLost,
            ) && *final(self) == *old(self),
            wait == FenceWait::Signaled && acquired == AcquireOutcome::Failed ==> r == Err::<
                FrameOutcome,
                RenderError,
            >(RenderError::AcquireFailed) && final(self).spec_phase() == Phase::AcquireImage
                && Self::slot_begun(*old(self), *final(self)),
            acquired matches AcquireOutcome::Success { image_index } ==> ((wait
                == FenceWait::Signaled && image_index >= old(
                self,
            ).spec_swapchain().spec_image_count()) ==> r == Err::<FrameOutcome, RenderError>(
                RenderError::InvalidImageIndex,
            ) && final(self).spec_phase() == Phase::AcquireImage && Self::slot_begun(
                *old(self),
                *final(self),
            )),
            acquired matches AcquireOutcome::Success { image_index } ==> ((wait
                == FenceWait::Signaled && image_index < old(
                self,
            ).spec_swapchain().spec_image_count() && presented == PresentOutcome::Failed) ==> r
                == Err::<FrameOutcome, RenderError>(RenderError::PresentFailed) && final(self).spec_phase() == Phase::Present && final(self).spec_frames().current().spec_in_flight()),
            r is Err ==> final(self).spec_frames().spec_frame_index() == old(
                self,
            ).spec_frames().spec_frame_index() && !final(self).spec_resize_swapchain() && forall|
                i: int,
            |
                0 <= i < old(self).spec_frames().slots().len() && i != old(
                    self,
                ).spec_frames().spec_frame_index() as int
                    ==> #[trigger] final(self).spec_frames().slots()[i] == old(
                    self,
                ).spec_frames().slots()[i],
            r matches Ok(o) ==> {
                &&& final(self).spec_phase() == Phase::WaitPreviousFrame
                &&& forall|i: int|
                    0 <= i < old(self).spec_frames().slots().len() && i != old(
                        self,
                    ).spec_frames().spec_frame_index() as int
                        ==> #[trigger] final(self).spec_frames().slots()[i] == old(
                        self,
                    ).spec_frames().slots()[i]
                &&& (o matches FrameOutcome::Drawn { image_index } ==> {
                    &&& acquired == (AcquireOutcome::Success { image_index })
                    &&& image_index < old(self).spec_swapchain().spec_image_count()
                    &&& presented != PresentOutcome::Failed
                    &&& final(self).spec_frames().spec_frame_index() as nat == next_frame_index(
                        old(self).spec_frames().spec_frame_index() as nat,
                    )
                    &&& final(self).spec_resize_swapchain() == (presented
                        == PresentOutcome::Suboptimal || presented == PresentOutcome::OutOfDate)
                    &&& final(self).spec_frames().slots()[old(
                        self,
                    ).spec_frames().spec_frame_index() as int].spec_uses() == old(
                        self,
                    ).spec_frames().current().spec_uses() + 1
                    &&& final(self).spec_frames().slots()[old(
                        self,
                    ).spec_frames().spec_frame_index() as int].spec_in_flight()
                })
                &&& (o == FrameOutcome::SkippedStale ==> {
                    &&& (acquired matches AcquireOutcome::Suboptimal { .. } || acquired
                        == AcquireOutcome::OutOfDate)
                    &&& final(self).spec_resize_swapchain()
                    &&& Self::slot_begun(*old(self), *final(self))
                })
            },
            acquired matches AcquireOutcome::Success { image_index } ==> ((wait
                == FenceWait::Signaled && image_index < old(
                self,
            ).spec_swapchain().spec_image_count() && presented != PresentOutcome::Failed) ==> r
                == Ok::<FrameOutcome, RenderError>(FrameOutcome::Drawn { image_index })),
            (acquired matches AcquireOutcome::Suboptimal { .. } || acquired
                == AcquireOutcome::OutOfDate) && wait == FenceWait::Signaled ==> r == Ok::<
                FrameOutcome,
                RenderError,
            >(FrameOutcome::SkippedStale),
    {
        self.begin_frame(wait)?;
        let action = self.handle_acquire(acquired)?;
        match action {
            AcquireAction::SkipFrame => Ok(FrameOutcome::SkippedStale),
            AcquireAction::Proceed { image_index } => {
                let _steps = self.record_commands();
                let _semaphore_index = self.submit_frame();
                self.handle_present(presented)?;
                Ok(FrameOutcome::Drawn { image_index })
            },
        }
    }

    /// While a frame is being recorded, its slot's fence has already been
    /// waited on and reset: command-context reuse never races the device.
    pub proof fn lemma_recording_slot_not_in_flight(&self)
        requires
            self.wf(),
            self.spec_phase() == Phase::RecordCommands,
        ensures
            !self.spec_frames().current().spec_in_flight(),
    {
    }
}

} // verus!
