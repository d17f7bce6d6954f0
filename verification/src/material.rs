//! Material classification: which pipeline a material pass draws with, and
//! which blend configuration a pipeline is built with.

use vstd::prelude::*;

verus! {

/// The pass a material instance belongs to.
#[derive(Clone, Copy, Debug, PartialEq, Eq, Structural)]
pub enum MaterialPass {
    /// The ordinary opaque color pass.
    MainColor,
    /// The transparency pass.
    Transparent,
    /// Anything else; drawn with the opaque pipeline.
    Other,
}

/// The blend modes a pipeline can be built with.
#[derive(Clone, Copy, Debug, PartialEq, Eq, Structural)]
pub enum Blending {
    /// Source scaled by its alpha, added onto the destination.
    Additive,
    /// Source scaled by its alpha over the destination.
    Alpha,
}

/// Which of the two material pipelines a pass draws with.
#[derive(Clone, Copy, Debug, PartialEq, Eq, Structural)]
pub enum MaterialPipelineKind {
    /// The depth-tested opaque pipeline.
    Opaque,
    /// The blending transparent pipeline.
    Transparent,
}

/// The blend configuration a pipeline's color attachment gets.
#[derive(Clone, Copy, Debug, PartialEq, Eq, Structural)]
pub enum BlendConfig {
    /// Blending off; the source overwrites.
    Disabled,
    /// Additive blending.
    AdditiveBlend,
    /// Alpha blending.
    AlphaBlend,
}

/// The pipeline a material pass selects: transparent materials draw with the
/// transparent pipeline, everything else with the opaque one.
pub open spec fn spec_pass_pipeline(pass: MaterialPass) -> MaterialPipelineKind {
    match pass {
        MaterialPass::Transparent => MaterialPipelineKind::Transparent,
        MaterialPass::MainColor => MaterialPipelineKind::Opaque,
        MaterialPass::Other => MaterialPipelineKind::Opaque,
    }
}

/// Select the pipeline for a material pass.
pub fn pass_pipeline(pass: MaterialPass) -> (r: MaterialPipelineKind)
    ensures
        r == spec_pass_pipeline(pass),
{
    match pass {
        MaterialPass::MainColor | MaterialPass::Other => MaterialPipelineKind::Opaque,
        MaterialPass::Transparent => MaterialPipelineKind::Transparent,
    }
}

/// The blend configuration a requested blend mode maps to; no request means
/// blending off.
pub open spec fn spec_blend_config(blending: Option<Blending>) -> BlendConfig {
    match blending {
        Option::None => BlendConfig::Disabled,
        Option::Some(Blending::Additive) => BlendConfig::AdditiveBlend,
        Option::Some(Blending::Alpha) => BlendConfig::AlphaBlend,
    }
}

/// Select the color attachment's blend configuration.
pub fn blend_config(blending: Option<Blending>) -> (r: BlendConfig)
    ensures
        r == spec_blend_config(blending),
{
    match blending {
        Option::None => BlendConfig::Disabled,
        Option::Some(Blending::Additive) => BlendConfig::AdditiveBlend,
        Option::Some(Blending::Alpha) => BlendConfig::AlphaBlend,
    }
}

} // verus!
