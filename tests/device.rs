use font::device::{graphics_queue_family, severity_level, supports_surface_format, swapchain_image_count, Level};

#[test]
fn first_graphics_family_is_chosen() {
    // transfer only, compute only, graphics+compute, graphics
    assert_eq!(graphics_queue_family(&[0x4, 0x2, 0x3, 0x1]), Some(2));
    assert_eq!(graphics_queue_family(&[0xF]), Some(0));
}

#[test]
fn no_graphics_family() {
    assert_eq!(graphics_queue_family(&[]), None);
    assert_eq!(graphics_queue_family(&[0x2, 0x4, 0x8]), None);
}

#[test]
fn severities_map_to_levels() {
    assert_eq!(severity_level(0x1), Some(Level::Info));
    assert_eq!(severity_level(0x10), Some(Level::Info));
    assert_eq!(severity_level(0x100), Some(Level::Warn));
    assert_eq!(severity_level(0x1000), Some(Level::Error));
    assert_eq!(severity_level(0x1001), None);
    assert_eq!(severity_level(0), None);
}

#[test]
fn surface_format_lookup() {
    // (B8G8R8A8_UNORM, SRGB_NONLINEAR) and (R8G8B8A8_UNORM, SRGB_NONLINEAR)
    let formats = [(37, 0), (44, 0)];
    assert!(supports_surface_format(&formats, 44, 0));
    assert!(supports_surface_format(&formats, 37, 0));
    assert!(!supports_surface_format(&formats, 44, 1));
    assert!(!supports_surface_format(&[], 44, 0));
}

#[test]
fn one_more_image_than_minimum() {
    assert_eq!(swapchain_image_count(2), 3);
    assert_eq!(swapchain_image_count(0), 1);
}
