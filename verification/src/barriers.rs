//! Image-layout transitions: each declared change of how an image's memory
//! will be accessed next carries the access-flag pair the device needs to
//! insert the right barrier.

use vstd::prelude::*;

verus! {

/// Access-flag bit: transfer reads (in the graphics API's numbering).
pub const ACCESS_TRANSFER_READ: u64 = 0x800;

/// Access-flag bit: transfer writes.
pub const ACCESS_TRANSFER_WRITE: u64 = 0x1000;

/// Access-flag bit: any read.
pub const ACCESS_MEMORY_READ: u64 = 0x8000;

/// Access-flag bit: any write.
pub const ACCESS_MEMORY_WRITE: u64 = 0x10000;

/// Access-flag bit: color-attachment reads.
pub const ACCESS_COLOR_ATTACHMENT_READ: u64 = 0x80;

/// Access-flag bit: color-attachment writes.
pub const ACCESS_COLOR_ATTACHMENT_WRITE: u64 = 0x100;

/// Access-flag bit: non-coherent color-attachment reads.
pub const ACCESS_COLOR_ATTACHMENT_READ_NONCOHERENT: u64 = 0x80000;

/// The image layouts the frame's transitions move between.
#[derive(Clone, Copy, Debug, PartialEq, Eq, Structural)]
pub enum ImageLayout {
    Undefined,
    General,
    ColorAttachment,
    DepthAttachment,
    TransferSrc,
    TransferDst,
    PresentSrc,
    ShaderReadOnly,
}

/// Which aspect of the image a barrier speaks of.
#[derive(Clone, Copy, Debug, PartialEq, Eq, Structural)]
pub enum ImageAspect {
    Color,
    Depth,
}

/// The access flags declared for one side of a layout transition.
pub open spec fn spec_layout_access_flags(layout: ImageLayout) -> u64 {
    match layout {
        ImageLayout::TransferDst => ACCESS_TRANSFER_WRITE,
        ImageLayout::TransferSrc => ACCESS_TRANSFER_READ,
        ImageLayout::PresentSrc => 0,
        ImageLayout::ColorAttachment => ACCESS_COLOR_ATTACHMENT_READ
            | ACCESS_COLOR_ATTACHMENT_WRITE | ACCESS_COLOR_ATTACHMENT_READ_NONCOHERENT,
        _ => ACCESS_MEMORY_WRITE | ACCESS_MEMORY_READ,
    }
}

/// The access flags to declare for an image in the given layout.
pub fn layout_access_flags(layout: ImageLayout) -> (r: u64)
    ensures
        r == spec_layout_access_flags(layout),
{
    match layout {
        ImageLayout::TransferDst => ACCESS_TRANSFER_WRITE,
        ImageLayout::TransferSrc => ACCESS_TRANSFER_READ,
        ImageLayout::PresentSrc => 0,
        ImageLayout::ColorAttachment => ACCESS_COLOR_ATTACHMENT_READ
            | ACCESS_COLOR_ATTACHMENT_WRITE | ACCESS_COLOR_ATTACHMENT_READ_NONCOHERENT,
        _ => ACCESS_MEMORY_WRITE | ACCESS_MEMORY_READ,
    }
}

/// The image aspect a transition's barrier must name: depth when moving into
/// the depth-attachment layout, color otherwise.
pub open spec fn spec_barrier_aspect(new_layout: ImageLayout) -> ImageAspect {
    if new_layout == ImageLayout::DepthAttachment {
        ImageAspect::Depth
    } else {
        ImageAspect::Color
    }
}

/// The aspect to put in the barrier for a transition into `new_layout`.
pub fn barrier_aspect(new_layout: ImageLayout) -> (r: ImageAspect)
    ensures
        r == spec_barrier_aspect(new_layout),
{
    if new_layout == ImageLayout::DepthAttachment {
        ImageAspect::Depth
    } else {
        ImageAspect::Color
    }
}

} // verus!
