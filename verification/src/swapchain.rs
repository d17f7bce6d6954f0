//! Swapchain negotiation and the swapchain model.
//!
//! Construction negotiates a surface format (with a hard-coded fallback), a
//! present mode (falling back to the always-available queued mode), an image
//! count clamped to the surface's limits, an extent, and a pre-transform.
//! The negotiation is a pure function of the surface state, so recreating
//! with the same surface state yields the same choices. The swapchain itself
//! keeps one presentation-complete semaphore per image — indexed by image,
//! not by frame slot, since the presentation engine may hand images back out
//! of frame order.

use vstd::prelude::*;

verus! {

/// Default image format id (a 32-bit BGRA unsigned-normalized format, in the
/// graphics API's numbering).
pub const IMAGE_FORMAT: u32 = 44;

/// Default color-space id (sRGB nonlinear, in the graphics API's numbering).
pub const COLOR_SPACE: u32 = 0;

/// Present-mode id of the queued ("first in, first out") mode, the one mode
/// every presentation engine must support.
pub const PRESENT_MODE_FIFO: u32 = 2;

/// Surface-transform bit meaning "no transform".
pub const TRANSFORM_IDENTITY: u32 = 1;

/// Extent means "undefined; take the window's size" when its width carries
/// this marker value.
pub const EXTENT_UNDEFINED: u32 = 0xFFFF_FFFF;

/// A pixel format paired with a color space, as the surface advertises them.
#[derive(Clone, Copy, Debug, PartialEq, Eq, Structural)]
pub struct SurfaceFormat {
    pub format: u32,
    pub color_space: u32,
}

/// A two-dimensional pixel size.
#[derive(Clone, Copy, Debug, PartialEq, Eq, Structural)]
pub struct Extent2D {
    pub width: u32,
    pub height: u32,
}

/// What the surface reports about itself at planning time.
#[derive(Clone, Copy, Debug, PartialEq, Eq, Structural)]
pub struct SurfaceCaps {
    /// Fewest images the presentation engine will work with.
    pub min_image_count: u32,
    /// Most images it will work with; zero means no limit.
    pub max_image_count: u32,
    /// The surface's current size; a width of [`EXTENT_UNDEFINED`] means the
    /// window decides.
    pub current_extent: Extent2D,
    /// The surface's current transform bits.
    pub current_transform: u32,
}

/// Whether the advertised format list carries the desired entry.
pub open spec fn formats_contain(formats: Seq<SurfaceFormat>, f: SurfaceFormat) -> bool {
    exists|i: int| 0 <= i < formats.len() && formats[i] == f
}

/// The format negotiation: the desired pair if the surface advertises it,
/// else the hard-coded default.
pub open spec fn spec_surface_format(
    formats: Seq<SurfaceFormat>,
    desired: SurfaceFormat,
) -> SurfaceFormat {
    if formats_contain(formats, desired) {
        desired
    } else {
        SurfaceFormat { format: IMAGE_FORMAT, color_space: COLOR_SPACE }
    }
}

/// The desired format and color space when the surface advertises the pair,
/// the default pair otherwise.
pub fn choose_surface_format(formats: &Vec<SurfaceFormat>, desired: SurfaceFormat) -> (r:
    SurfaceFormat)
    ensures
        r == spec_surface_format(formats@, desired),
{
    let mut i: usize = 0;
    while i < formats.len()
        invariant
            i <= formats@.len(),
            forall|k: int| 0 <= k < i as int ==> formats@[k] != desired,
        decreases formats@.len() - i,
    {
        let f = formats[i];
        if f.format == desired.format && f.color_space == desired.color_space {
            proof {
                assert(formats@[i as int] == desired);
            }
            return desired;
        }
        i += 1;
    }
    SurfaceFormat { format: IMAGE_FORMAT, color_space: COLOR_SPACE }
}

/// The present-mode negotiation: the desired mode if advertised, else the
/// always-available queued mode.
pub open spec fn spec_present_mode(modes: Seq<u32>, desired: u32) -> u32 {
    if modes.contains(desired) {
        desired
    } else {
        PRESENT_MODE_FIFO
    }
}

/// The desired present mode when the surface advertises it, else the queued
/// mode.
pub fn choose_present_mode(modes: &Vec<u32>, desired: u32) -> (r: u32)
    ensures
        r == spec_present_mode(modes@, desired),
{
    let mut i: usize = 0;
    while i < modes.len()
        invariant
            i <= modes@.len(),
            forall|k: int| 0 <= k < i as int ==> modes@[k] != desired,
        decreases modes@.len() - i,
    {
        if modes[i] == desired {
            proof {
                assert(modes@[i as int] == desired);
            }
            return desired;
        }
        i += 1;
    }
    proof {
        assert(!modes@.contains(desired));
    }
    PRESENT_MODE_FIFO
}

/// The image count asked of the presentation engine: one more than the
/// minimum, clamped to the maximum where one is declared.
pub open spec fn spec_image_count(caps: SurfaceCaps) -> int {
    if caps.max_image_count > 0 && caps.min_image_count + 1 > caps.max_image_count {
        caps.max_image_count as int
    } else {
        caps.min_image_count + 1
    }
}

/// One more image than the surface's minimum, clamped to its maximum.
pub fn clamp_image_count(caps: &SurfaceCaps) -> (r: u32)
    requires
        caps.min_image_count < u32::MAX,
    ensures
        r == spec_image_count(*caps),
{
    let mut count = caps.min_image_count + 1;
    if caps.max_image_count > 0 && count > caps.max_image_count {
        count = caps.max_image_count;
    }
    count
}

/// The swapchain extent: the surface's current extent, unless the surface
/// leaves it undefined, in which case the window's size.
pub open spec fn spec_extent(caps: SurfaceCaps, window: Extent2D) -> Extent2D {
    if caps.current_extent.width == EXTENT_UNDEFINED {
        window
    } else {
        caps.current_extent
    }
}

/// The surface's extent, or the window's size where the surface leaves the
/// choice open.
pub fn choose_extent(caps: &SurfaceCaps, window: Extent2D) -> (r: Extent2D)
    ensures
        r == spec_extent(*caps, window),
{
    if caps.current_extent.width == EXTENT_UNDEFINED {
        window
    } else {
        caps.current_extent
    }
}

/// The pre-transform: identity where the surface supports it, else whatever
/// the surface currently applies.
pub open spec fn spec_pre_transform(caps: SurfaceCaps) -> u32 {
    if caps.current_transform & TRANSFORM_IDENTITY == TRANSFORM_IDENTITY {
        TRANSFORM_IDENTITY
    } else {
        caps.current_transform
    }
}

/// Identity where supported, else the surface's current transform.
pub fn choose_pre_transform(caps: &SurfaceCaps) -> (r: u32)
    ensures
        r == spec_pre_transform(*caps),
{
    if caps.current_transform & TRANSFORM_IDENTITY == TRANSFORM_IDENTITY {
        TRANSFORM_IDENTITY
    } else {
        caps.current_transform
    }
}

/// Everything the driving code needs to create the swapchain object.
#[derive(Clone, Copy, Debug, PartialEq, Eq, Structural)]
pub struct SwapchainPlan {
    pub format: u32,
    pub color_space: u32,
    pub image_count: u32,
    pub extent: Extent2D,
    pub pre_transform: u32,
    pub present_mode: u32,
}

/// The whole negotiation as one function of the surface state: format and
/// color space, image count, extent, pre-transform, present mode.
pub open spec fn spec_plan(
    caps: SurfaceCaps,
    formats: Seq<SurfaceFormat>,
    modes: Seq<u32>,
    window: Extent2D,
    desired_format: SurfaceFormat,
    desired_mode: u32,
) -> SwapchainPlan {
    SwapchainPlan {
        format: spec_surface_format(formats, desired_format).format,
        color_space: spec_surface_format(formats, desired_format).color_space,
        image_count: spec_image_count(caps) as u32,
        extent: spec_extent(caps, window),
        pre_transform: spec_pre_transform(caps),
        present_mode: spec_present_mode(modes, desired_mode),
    }
}

/// Negotiate the swapchain parameters against the surface's advertised
/// capabilities, formats and modes.
pub fn plan_swapchain(
    caps: &SurfaceCaps,
    formats: &Vec<SurfaceFormat>,
    modes: &Vec<u32>,
    window: Extent2D,
    desired_format: SurfaceFormat,
    desired_mode: u32,
) -> (r: SwapchainPlan)
    requires
        caps.min_image_count < u32::MAX,
    ensures
        r == spec_plan(*caps, formats@, modes@, window, desired_format, desired_mode),
{
    let chosen = choose_surface_format(formats, desired_format);
    SwapchainPlan {
        format: chosen.format,
        color_space: chosen.color_space,
        image_count: clamp_image_count(caps),
        extent: choose_extent(caps, window),
        pre_transform: choose_pre_transform(caps),
        present_mode: choose_present_mode(modes, desired_mode),
    }
}

/// Negotiation is a function of the surface state alone: recreating the
/// swapchain twice in a row against the same surface state yields the same
/// image count and the same format both times.
pub proof fn lemma_recreate_idempotent(
    caps: SurfaceCaps,
    formats: Seq<SurfaceFormat>,
    modes: Seq<u32>,
    window: Extent2D,
    desired_format: SurfaceFormat,
    desired_mode: u32,
)
    ensures
        ({
            let first = spec_plan(caps, formats, modes, window, desired_format, desired_mode);
            let second = spec_plan(caps, formats, modes, window, desired_format, desired_mode);
            first.image_count == second.image_count && first.format == second.format && first
                == second
        }),
{
}

/// The swapchain model: how many presentable images the presentation engine
/// actually created, one image view and one render-complete semaphore per
/// image, and the chosen extent and format.
pub struct Swapchain {
    image_count: u32,
    image_view_count: u32,
    render_semaphore_count: u32,
    extent: Extent2D,
    format: u32,
}

impl Swapchain {
    /// Number of presentable images.
    pub closed spec fn spec_image_count(&self) -> u32 {
        self.image_count
    }

    /// Number of per-image views.
    pub closed spec fn spec_image_view_count(&self) -> u32 {
        self.image_view_count
    }

    /// Number of per-image render-complete semaphores.
    pub closed spec fn spec_render_semaphore_count(&self) -> u32 {
        self.render_semaphore_count
    }

    /// The extent the swapchain was created with.
    pub closed spec fn spec_extent(&self) -> Extent2D {
        self.extent
    }

    /// The format the swapchain was created with.
    pub closed spec fn spec_format(&self) -> u32 {
        self.format
    }

    /// One view and one render-complete semaphore exist for every image.
    pub open spec fn wf(&self) -> bool {
        &&& self.spec_image_view_count() == self.spec_image_count()
        &&& self.spec_render_semaphore_count() == self.spec_image_count()
    }

    /// Record a created swapchain: the plan's extent and format, and the
    /// image count the presentation engine actually returned (it may exceed
    /// the requested count). One view and one semaphore are created per
    /// actual image — per image, not per frame slot, since presentation may
    /// return images out of frame order.
    pub fn new(plan: &SwapchainPlan, actual_image_count: u32) -> (r: Self)
        ensures
            r.wf(),
            r.spec_image_count() == actual_image_count,
            r.spec_image_view_count() == actual_image_count,
            r.spec_render_semaphore_count() == actual_image_count,
            r.spec_extent() == plan.extent,
            r.spec_format() == plan.format,
    {
        Self {
            image_count: actual_image_count,
            image_view_count: actual_image_count,
            render_semaphore_count: actual_image_count,
            extent: plan.extent,
            format: plan.format,
        }
    }

    pub fn image_view_count(&self) -> (r: u32)
        ensures
            r == self.spec_image_view_count(),
    {
        self.image_view_count
    }

    pub fn image_count(&self) -> (r: u32)
        ensures
            r == self.spec_image_count(),
    {
        self.image_count
    }

    pub fn render_semaphore_count(&self) -> (r: u32)
        ensures
            r == self.spec_render_semaphore_count(),
    {
        self.render_semaphore_count
    }

    pub fn extent(&self) -> (r: Extent2D)
        ensures
            r == self.spec_extent(),
    {
        self.extent
    }

    pub fn format(&self) -> (r: u32)
        ensures
            r == self.spec_format(),
    {
        self.format
    }

    /// Destroy the swapchain object, its image views and its per-image
    /// semaphores; run only once the device is idle or the frame ring has
    /// drained, so no in-flight commands reference the old images.
    pub fn destroy(&mut self)
        ensures
            final(self).wf(),
            final(self).spec_image_count() == 0,
            final(self).spec_image_view_count() == 0,
            final(self).spec_render_semaphore_count() == 0,
    {
        self.image_count = 0;
        self.image_view_count = 0;
        self.render_semaphore_count = 0;
    }
}

} // verus!
