use vkguide::barriers::layout_access_flags;
use vkguide::barriers::barrier_aspect;
use vkguide::barriers::ImageAspect;
use vkguide::barriers::ImageLayout;
use vkguide::engine::clamped_draw_extent;
use vkguide::engine::dispatch_group_counts;
use vkguide::frames::FenceWait;
use vkguide::immediate::ImmediateSubmit;
use vkguide::material::blend_config;
use vkguide::material::pass_pipeline;
use vkguide::material::BlendConfig;
use vkguide::material::Blending;
use vkguide::material::MaterialPass;
use vkguide::material::MaterialPipelineKind;
use vkguide::mesh::build_surfaces;
use vkguide::mesh::rebase_indices;
use vkguide::mesh::staging_buffer_layout;
use vkguide::swapchain::Extent2D;
use vkguide::texture::data_len_matches;
use vkguide::texture::image_byte_size;
use vkguide::texture::upload_transitions;
use vkguide::version::get_api;
use vkguide::version::make_api_version;
use vkguide::version::PORTABILITY_MACOS_VERSION;

#[test]
fn immediate_submission_blocks_until_its_fence() {
    let mut imm = ImmediateSubmit::new();
    assert!(!imm.in_use());
    imm.submit(FenceWait::Signaled).expect("a clean submission completes");
    assert_eq!(imm.completed(), 1);
    assert!(!imm.in_use());
    imm.begin_submit();
    assert!(imm.in_use());
    let err = imm.finish_submit(FenceWait::Failed);
    assert!(err.is_err());
    // A failed fence wait leaves the context unusable: the fence was never
    // observed signaled, so reuse stays forbidden.
    assert!(imm.in_use());
    assert_eq!(imm.completed(), 1);
}

#[test]
fn transition_access_flags_match_declared_layouts() {
    assert_eq!(layout_access_flags(ImageLayout::TransferDst), 0x1000);
    assert_eq!(layout_access_flags(ImageLayout::TransferSrc), 0x800);
    assert_eq!(layout_access_flags(ImageLayout::PresentSrc), 0);
    assert_eq!(layout_access_flags(ImageLayout::ColorAttachment), 0x80 | 0x100 | 0x80000);
    assert_eq!(layout_access_flags(ImageLayout::General), 0x8000 | 0x10000);
    assert_eq!(layout_access_flags(ImageLayout::Undefined), 0x8000 | 0x10000);
}

#[test]
fn depth_transitions_use_the_depth_aspect() {
    assert_eq!(barrier_aspect(ImageLayout::DepthAttachment), ImageAspect::Depth);
    assert_eq!(barrier_aspect(ImageLayout::ColorAttachment), ImageAspect::Color);
    assert_eq!(barrier_aspect(ImageLayout::TransferDst), ImageAspect::Color);
}

#[test]
fn dispatch_covers_extent_in_sixteen_wide_tiles() {
    assert_eq!(dispatch_group_counts(Extent2D { width: 800, height: 600 }), (50, 38));
    assert_eq!(dispatch_group_counts(Extent2D { width: 1, height: 16 }), (1, 1));
    assert_eq!(dispatch_group_counts(Extent2D { width: 17, height: 0 }), (2, 0));
}

#[test]
fn draw_extent_clamped_to_swapchain() {
    let draw = Extent2D { width: 1980, height: 1080 };
    let swap = Extent2D { width: 800, height: 1200 };
    assert_eq!(clamped_draw_extent(draw, swap), Extent2D { width: 800, height: 1080 });
}

#[test]
fn material_pass_selects_pipeline() {
    assert_eq!(pass_pipeline(MaterialPass::MainColor), MaterialPipelineKind::Opaque);
    assert_eq!(pass_pipeline(MaterialPass::Other), MaterialPipelineKind::Opaque);
    assert_eq!(pass_pipeline(MaterialPass::Transparent), MaterialPipelineKind::Transparent);
}

#[test]
fn blend_modes_map_to_configs() {
    assert_eq!(blend_config(None), BlendConfig::Disabled);
    assert_eq!(blend_config(Some(Blending::Additive)), BlendConfig::AdditiveBlend);
    assert_eq!(blend_config(Some(Blending::Alpha)), BlendConfig::AlphaBlend);
}

#[test]
fn surfaces_lie_back_to_back_in_the_index_buffer() {
    let counts = vec![3u32, 4, 5];
    let surfaces = build_surfaces(&counts);
    assert_eq!(surfaces.len(), 3);
    assert_eq!(surfaces[0].start_index(), 0);
    assert_eq!(surfaces[0].count(), 3);
    assert_eq!(surfaces[1].start_index(), 3);
    assert_eq!(surfaces[1].count(), 4);
    assert_eq!(surfaces[2].start_index(), 7);
    assert_eq!(surfaces[2].count(), 5);
}

#[test]
fn indices_rebased_by_merged_vertex_count() {
    let indices = vec![0u32, 1, 2, 1];
    let rebased = rebase_indices(&indices, 10);
    assert_eq!(rebased, vec![10, 11, 12, 11]);
}

#[test]
fn texture_upload_plan_sizes_and_transitions() {
    assert_eq!(image_byte_size(16, 16, 1), 1024);
    assert_eq!(image_byte_size(1, 1, 1), 4);
    assert!(data_len_matches(256, 16, 16, 1));
    assert!(!data_len_matches(255, 16, 16, 1));
    let steps = upload_transitions();
    assert_eq!(steps.len(), 2);
    assert_eq!(steps[0], (ImageLayout::Undefined, ImageLayout::TransferDst));
    assert_eq!(steps[1], (ImageLayout::TransferDst, ImageLayout::ShaderReadOnly));
    // The copy's bracket is a chain: the second transition starts exactly
    // where the first ended.
    assert_eq!(steps[0].1, steps[1].0);
}

#[test]
fn staging_buffer_holds_vertices_then_indices() {
    let (total, index_offset) = staging_buffer_layout(4096, 512);
    assert_eq!(total, 4608);
    assert_eq!(index_offset, 4096);
}

#[test]
fn api_version_packs_and_unpacks() {
    let v = make_api_version(0, 1, 3, 216);
    assert_eq!(v, PORTABILITY_MACOS_VERSION);
    assert_eq!(get_api(v), (0, 1, 3, 216));
    let v2 = make_api_version(1, 2, 10, 4095);
    assert_eq!(get_api(v2), (1, 2, 10, 4095));
}
