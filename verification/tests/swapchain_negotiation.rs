use vkguide::swapchain::choose_extent;
use vkguide::swapchain::choose_present_mode;
use vkguide::swapchain::choose_pre_transform;
use vkguide::swapchain::choose_surface_format;
use vkguide::swapchain::clamp_image_count;
use vkguide::swapchain::plan_swapchain;
use vkguide::swapchain::Extent2D;
use vkguide::swapchain::SurfaceCaps;
use vkguide::swapchain::SurfaceFormat;
use vkguide::swapchain::Swapchain;
use vkguide::swapchain::COLOR_SPACE;
use vkguide::swapchain::EXTENT_UNDEFINED;
use vkguide::swapchain::IMAGE_FORMAT;
use vkguide::swapchain::PRESENT_MODE_FIFO;
use vkguide::swapchain::TRANSFORM_IDENTITY;

fn caps(min: u32, max: u32, extent_w: u32) -> SurfaceCaps {
    SurfaceCaps {
        min_image_count: min,
        max_image_count: max,
        current_extent: Extent2D { width: extent_w, height: 600 },
        current_transform: TRANSFORM_IDENTITY,
    }
}

#[test]
fn desired_format_kept_when_advertised() {
    let formats = vec![
        SurfaceFormat { format: 50, color_space: 0 },
        SurfaceFormat { format: 44, color_space: 0 },
    ];
    let desired = SurfaceFormat { format: 44, color_space: 0 };
    assert_eq!(choose_surface_format(&formats, desired), desired);
}

#[test]
fn unsupported_format_falls_back_to_default() {
    let formats = vec![SurfaceFormat { format: 50, color_space: 7 }];
    let desired = SurfaceFormat { format: 44, color_space: 0 };
    let chosen = choose_surface_format(&formats, desired);
    assert_eq!(chosen.format, IMAGE_FORMAT);
    assert_eq!(chosen.color_space, COLOR_SPACE);
}

#[test]
fn unsupported_present_mode_falls_back_to_fifo() {
    let modes = vec![0u32, 2];
    assert_eq!(choose_present_mode(&modes, 1), PRESENT_MODE_FIFO);
    assert_eq!(choose_present_mode(&modes, 0), 0);
}

#[test]
fn image_count_is_min_plus_one_clamped_to_max() {
    assert_eq!(clamp_image_count(&caps(2, 0, 800)), 3);
    assert_eq!(clamp_image_count(&caps(2, 8, 800)), 3);
    assert_eq!(clamp_image_count(&caps(3, 3, 800)), 3);
    assert_eq!(clamp_image_count(&caps(4, 3, 800)), 3);
}

#[test]
fn undefined_surface_extent_takes_window_size() {
    let window = Extent2D { width: 1080, height: 720 };
    let fixed = choose_extent(&caps(2, 3, 800), window);
    assert_eq!(fixed, Extent2D { width: 800, height: 600 });
    let free = choose_extent(&caps(2, 3, EXTENT_UNDEFINED), window);
    assert_eq!(free, window);
}

#[test]
fn identity_transform_preferred_when_supported() {
    let mut c = caps(2, 3, 800);
    c.current_transform = 0b101;
    assert_eq!(choose_pre_transform(&c), TRANSFORM_IDENTITY);
    c.current_transform = 0b100;
    assert_eq!(choose_pre_transform(&c), 0b100);
}

#[test]
fn recreation_with_same_surface_state_is_idempotent() {
    let c = caps(2, 3, 800);
    let formats = vec![SurfaceFormat { format: 44, color_space: 0 }];
    let modes = vec![2u32];
    let window = Extent2D { width: 1080, height: 720 };
    let desired = SurfaceFormat { format: 44, color_space: 0 };
    let first = plan_swapchain(&c, &formats, &modes, window, desired, 2);
    let second = plan_swapchain(&c, &formats, &modes, window, desired, 2);
    assert_eq!(first, second);
    assert_eq!(first.image_count, second.image_count);
    assert_eq!(first.format, second.format);
    let sc1 = Swapchain::new(&first, 3);
    let sc2 = Swapchain::new(&second, 3);
    assert_eq!(sc1.image_count(), sc2.image_count());
    assert_eq!(sc1.format(), sc2.format());
}

#[test]
fn one_render_semaphore_per_image() {
    let c = caps(2, 0, 800);
    let formats = vec![SurfaceFormat { format: 44, color_space: 0 }];
    let modes = vec![2u32];
    let plan = plan_swapchain(
        &c,
        &formats,
        &modes,
        Extent2D { width: 1080, height: 720 },
        SurfaceFormat { format: 44, color_space: 0 },
        2,
    );
    // The presentation engine may create more images than requested; the
    // views and semaphores follow the actual count.
    let sc = Swapchain::new(&plan, 5);
    assert_eq!(sc.image_count(), 5);
    assert_eq!(sc.image_view_count(), 5);
    assert_eq!(sc.render_semaphore_count(), 5);
}
