//! The texture-upload plan: how large the staging buffer for an image's
//! texels must be, and the layout transitions that bracket the synchronous
//! copy into the image.
//!
//! The upload itself runs through the immediate-submission path: transition
//! the fresh image into the transfer-destination layout, copy the staging
//! buffer in, then transition it into the shader-read layout the samplers
//! expect.

use vstd::prelude::*;

use crate::barriers::ImageLayout;

verus! {

/// Number of texels in a `width` by `height` by `depth` image.
pub open spec fn spec_texel_count(width: u32, height: u32, depth: u32) -> int {
    width * height * depth
}

/// Staging-buffer size in bytes for an image of 4-byte texels.
pub fn image_byte_size(width: u32, height: u32, depth: u32) -> (r: u64)
    requires
        spec_texel_count(width, height, depth) * 4 <= u64::MAX,
    ensures
        r == spec_texel_count(width, height, depth) * 4,
{
    proof {
        assert((width as int) * (height as int) <= 0xFFFF_FFFF * 0xFFFF_FFFF) by (nonlinear_arith)
            requires
                width <= 0xFFFF_FFFFu32,
                height <= 0xFFFF_FFFFu32,
        ;
        assert((width as int) * (height as int) * (depth as int) <= spec_texel_count(
            width,
            height,
            depth,
        ) * 4) by (nonlinear_arith);
    }
    let texels = (width as u64 * height as u64) * depth as u64;
    texels * 4
}

/// Whether a texel slice of the given length fills the image exactly; an
/// upload with any other length is refused before it reaches the device.
pub fn data_len_matches(data_len: usize, width: u32, height: u32, depth: u32) -> (r: bool)
    requires
        spec_texel_count(width, height, depth) * 4 <= u64::MAX,
    ensures
        r == (data_len == spec_texel_count(width, height, depth)),
{
    proof {
        assert((width as int) * (height as int) <= 0xFFFF_FFFF * 0xFFFF_FFFF) by (nonlinear_arith)
            requires
                width <= 0xFFFF_FFFFu32,
                height <= 0xFFFF_FFFFu32,
        ;
        assert((width as int) * (height as int) * (depth as int) <= spec_texel_count(
            width,
            height,
            depth,
        ) * 4) by (nonlinear_arith);
    }
    let texels = (width as u64 * height as u64) * depth as u64;
    data_len as u64 == texels
}

/// The two transitions bracketing a texture upload: into the
/// transfer-destination layout for the copy, then into the shader-read
/// layout for sampling. The second picks up exactly where the first ends.
pub fn upload_transitions() -> (r: Vec<(ImageLayout, ImageLayout)>)
    ensures
        r@.len() == 2,
        r@[0] == (ImageLayout::Undefined, ImageLayout::TransferDst),
        r@[1] == (ImageLayout::TransferDst, ImageLayout::ShaderReadOnly),
        r@[0].1 == r@[1].0,
{
    let mut steps: Vec<(ImageLayout, ImageLayout)> = Vec::new();
    steps.push((ImageLayout::Undefined, ImageLayout::TransferDst));
    steps.push((ImageLayout::TransferDst, ImageLayout::ShaderReadOnly));
    steps
}

} // verus!
