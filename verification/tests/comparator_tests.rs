use frame_comp::comparator::{
    bar_fraction_from_pixel, create_comparators, select_source, BarFraction, ComparatorCreateInfo,
    CompositeSource, Extent2D, RenderTargetComparator, Viewport,
};
use frame_comp::Error;

fn info() -> ComparatorCreateInfo {
    ComparatorCreateInfo {
        device: 0x10,
        descriptor_pool: 0x20,
        format: 44,
        extent: Extent2D { width: 1820, height: 1090 },
        in_image_views: [0x30, 0x40],
        out_image_view: 0x50,
        viewport: None,
    }
}

#[test]
fn bar_fraction_clamps_negative_pointer_to_zero() {
    let b = bar_fraction_from_pixel(-50, 1024);
    assert_eq!(b.num, 0);
    assert_eq!(b.den, 1024);
}

#[test]
fn bar_fraction_clamps_overshoot_to_one() {
    let b = bar_fraction_from_pixel(5000, 1024);
    assert_eq!(b.num, 1024);
    assert_eq!(b.den, 1024);
}

#[test]
fn bar_fraction_in_range_is_exact() {
    let b = bar_fraction_from_pixel(256, 1024);
    assert_eq!(b.num, 256);
    assert_eq!(b.den, 1024);
    assert!(b.num <= b.den);
}

#[test]
fn half_bar_on_100px_splits_at_50() {
    let half = BarFraction { num: 50, den: 100 };
    for x in 0..50u32 {
        assert_eq!(select_source(x, 100, &half), CompositeSource::Color);
    }
    for x in 50..100u32 {
        assert_eq!(select_source(x, 100, &half), CompositeSource::Grayscale);
    }
}

#[test]
fn composite_row_has_hard_edge() {
    let half = BarFraction { num: 1, den: 2 };
    let mut comparator_info = info();
    comparator_info.extent = Extent2D { width: 100, height: 50 };
    let comparator = RenderTargetComparator::new(&comparator_info).unwrap();
    let row = comparator.composite_row(&half);
    assert_eq!(row.len(), 100);
    assert_eq!(row[49], CompositeSource::Color);
    assert_eq!(row[50], CompositeSource::Grayscale);
    // No blending: every pixel reads exactly one of the two sources, and the
    // sources switch exactly once, at the bar.
    for x in 0..100 {
        let expected = if x < 50 {
            CompositeSource::Color
        } else {
            CompositeSource::Grayscale
        };
        assert_eq!(row[x], expected);
    }
}

#[test]
fn bar_at_zero_shows_only_grayscale() {
    let zero = BarFraction { num: 0, den: 1024 };
    assert_eq!(select_source(0, 100, &zero), CompositeSource::Grayscale);
}

#[test]
fn bar_at_one_shows_only_color() {
    let one = BarFraction { num: 1024, den: 1024 };
    assert_eq!(select_source(99, 100, &one), CompositeSource::Color);
}

#[test]
fn new_applies_full_extent_viewport_default() {
    let c = RenderTargetComparator::new(&info()).unwrap();
    assert_eq!(
        c.config.viewport,
        Some(Viewport { x: 0, y: 0, width: 1820, height: 1090 })
    );
}

#[test]
fn new_keeps_custom_viewport() {
    let mut i = info();
    let custom = Viewport { x: 10, y: 20, width: 300, height: 400 };
    i.viewport = Some(custom);
    let c = RenderTargetComparator::new(&i).unwrap();
    assert_eq!(c.config.viewport, Some(custom));
}

#[test]
fn null_handles_fail_construction() {
    for field in 0..5 {
        let mut i = info();
        match field {
            0 => i.device = 0,
            1 => i.descriptor_pool = 0,
            2 => i.in_image_views[0] = 0,
            3 => i.in_image_views[1] = 0,
            _ => i.out_image_view = 0,
        }
        let r = RenderTargetComparator::new(&i);
        assert!(matches!(r, Err(Error::ConfigurationInvalid)));
    }
}

#[test]
fn zero_extent_fails_construction() {
    let mut i = info();
    i.extent = Extent2D { width: 0, height: 1090 };
    assert!(matches!(
        RenderTargetComparator::new(&i),
        Err(Error::ConfigurationInvalid)
    ));
    let mut j = info();
    j.extent = Extent2D { width: 1820, height: 0 };
    assert!(matches!(
        RenderTargetComparator::new(&j),
        Err(Error::ConfigurationInvalid)
    ));
}

#[test]
fn one_comparator_per_swapchain_image() {
    let views = vec![0x100, 0x200, 0x300];
    let extent = Extent2D { width: 1820, height: 1090 };
    let comps = create_comparators(0x10, 0x20, 44, extent, 0x30, 0x40, &views).unwrap();
    assert_eq!(comps.len(), 3);
    for (k, c) in comps.iter().enumerate() {
        assert_eq!(c.config.out_image_view, views[k]);
        assert_eq!(c.config.in_image_views, [0x30, 0x40]);
        assert_eq!(c.config.device, 0x10);
        assert_eq!(c.config.descriptor_pool, 0x20);
        assert_eq!(
            c.config.viewport,
            Some(Viewport { x: 0, y: 0, width: 1820, height: 1090 })
        );
    }
}

#[test]
fn shared_handles_are_validated_even_without_images() {
    let views: Vec<u64> = Vec::new();
    let extent = Extent2D { width: 1820, height: 1090 };
    let comps = create_comparators(0x10, 0x20, 44, extent, 0x30, 0x40, &views).unwrap();
    assert!(comps.is_empty());
    assert!(matches!(
        create_comparators(0, 0x20, 44, extent, 0x30, 0x40, &views),
        Err(Error::ConfigurationInvalid)
    ));
    assert!(matches!(
        create_comparators(0x10, 0x20, 44, extent, 0, 0x40, &views),
        Err(Error::ConfigurationInvalid)
    ));
}

#[test]
fn null_swapchain_view_fails_comparator_creation() {
    let views = vec![0x100, 0, 0x300];
    let extent = Extent2D { width: 1820, height: 1090 };
    let r = create_comparators(0x10, 0x20, 44, extent, 0x30, 0x40, &views);
    assert!(matches!(r, Err(Error::ConfigurationInvalid)));
}
