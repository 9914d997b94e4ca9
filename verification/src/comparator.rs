//! Render-target comparator: configuration and compositing decisions.
//!
//! The comparator samples two previously rendered images (the color-resolve
//! output and the grayscale depth-resolve output) and writes one composited
//! frame, split at a vertical bar. One comparator instance exists per
//! swapchain output image, because each owns a distinct output view. The GPU
//! objects live at the unverified edge; this module owns the configuration
//! validation and the per-pixel source decision, which is a pure function of
//! screen-space position and the bar fraction.

use vstd::prelude::*;

use crate::Error;

verus! {

/// A width and height in pixels.
#[derive(Clone, Copy, Debug, PartialEq, Eq, Structural)]
pub struct Extent2D {
    pub width: u32,
    pub height: u32,
}

/// A render viewport in whole pixels. Depth range is the full [0,1] range and
/// is not configurable here.
#[derive(Clone, Copy, Debug, PartialEq, Eq, Structural)]
pub struct Viewport {
    pub x: u32,
    pub y: u32,
    pub width: u32,
    pub height: u32,
}

/// The viewport covering the whole output extent: the documented default when
/// no custom viewport is given.
pub open spec fn full_extent_viewport(extent: Extent2D) -> Viewport {
    Viewport { x: 0, y: 0, width: extent.width, height: extent.height }
}

/// The horizontal split point as an exact fraction `num / den` of the output
/// width. Valid values lie in [0,1]: `0 < den` and `num <= den`.
#[derive(Clone, Copy, Debug, PartialEq, Eq, Structural)]
pub struct BarFraction {
    pub num: u32,
    pub den: u32,
}

/// `b` denotes a fraction in [0,1].
pub open spec fn bar_wf(b: BarFraction) -> bool {
    0 < b.den && b.num <= b.den
}

/// The pixel coordinate `x` clamped to the [0, width] range.
pub open spec fn clamped_pixel(x: int, width: int) -> int {
    if x < 0 {
        0
    } else if x > width {
        width
    } else {
        x
    }
}

/// Normalize a horizontal pixel coordinate to a bar fraction of the surface
/// width, clamping out-of-range input to the [0,1] range first: a pointer
/// left of the surface maps to fraction 0 and one right of it to fraction 1,
/// never to a value outside [0,1].
pub fn bar_fraction_from_pixel(x: i64, width: u32) -> (b: BarFraction)
    requires
        width > 0,
    ensures
        bar_wf(b),
        b.den == width,
        b.num == clamped_pixel(x as int, width as int),
{
    let num: u32 = if x < 0 {
        0
    } else if x > width as i64 {
        width
    } else {
        x as u32
    };
    BarFraction { num, den: width }
}

/// Which source image a composited output pixel is read from.
#[derive(Clone, Copy, Debug, PartialEq, Eq, Structural)]
pub enum CompositeSource {
    /// The color-resolve image (left of the bar).
    Color,
    /// The grayscale depth-resolve image (right of the bar, bar included).
    Grayscale,
}

/// The color source is selected exactly when `x / width < bar`, that is when
/// `x * den < num * width`. There is no blending: the edge at the boundary is
/// hard.
pub open spec fn selects_color(x: int, width: int, bar: BarFraction) -> bool {
    x * bar.den < bar.num * width
}

/// Decide the source image for the output pixel in column `x` of an output
/// `width` pixels wide, given the bar fraction snapshot of this frame.
pub fn select_source(x: u32, width: u32, bar: &BarFraction) -> (s: CompositeSource)
    requires
        x < width,
        bar_wf(*bar),
    ensures
        s == CompositeSource::Color <==> selects_color(x as int, width as int, *bar),
        s == CompositeSource::Color || s == CompositeSource::Grayscale,
{
    proof {
        assert((x as int) * (bar.den as int) <= u32::MAX as int * u32::MAX as int)
            by (nonlinear_arith)
            requires x <= u32::MAX && bar.den <= u32::MAX;
        assert((bar.num as int) * (width as int) <= u32::MAX as int * u32::MAX as int)
            by (nonlinear_arith)
            requires bar.num <= u32::MAX && width <= u32::MAX;
    }
    if (x as u64) * (bar.den as u64) < (bar.num as u64) * (width as u64) {
        CompositeSource::Color
    } else {
        CompositeSource::Grayscale
    }
}

/// Configuration of one comparator instance. Handles are raw non-zero
/// graphics-API object ids; the device and descriptor pool are shared, not
/// owned. `in_image_views` is in fixed
/// order: index 0 is the color-resolve source, index 1 the grayscale-resolve
/// source. A missing viewport defaults to the full output extent.
#[derive(Clone, Copy, Debug)]
pub struct ComparatorCreateInfo {
    pub device: u64,
    pub descriptor_pool: u64,
    pub format: u32,
    pub extent: Extent2D,
    pub in_image_views: [u64; 2],
    pub out_image_view: u64,
    pub viewport: Option<Viewport>,
}

/// All required fields are set: no handle is null and the output extent has
/// non-zero width and height.
pub open spec fn comparator_config_valid(c: ComparatorCreateInfo) -> bool {
    &&& c.device != 0
    &&& c.descriptor_pool != 0
    &&& c.in_image_views@[0] != 0
    &&& c.in_image_views@[1] != 0
    &&& c.out_image_view != 0
    &&& c.extent.width > 0
    &&& c.extent.height > 0
}

/// `c` with its viewport default applied.
pub open spec fn with_default_viewport(c: ComparatorCreateInfo) -> ComparatorCreateInfo {
    ComparatorCreateInfo {
        viewport: match c.viewport {
            Some(v) => Some(v),
            None => Some(full_extent_viewport(c.extent)),
        },
        ..c
    }
}

/// A validated comparator: its configuration is complete and its viewport is
/// resolved. The GPU pipeline and descriptor set built from it live at the
/// unverified edge.
#[derive(Clone, Copy, Debug)]
pub struct RenderTargetComparator {
    pub config: ComparatorCreateInfo,
}

impl RenderTargetComparator {
    /// Validate a configuration and construct the comparator, applying the
    /// full-extent viewport default. Fails with `ConfigurationInvalid`, before
    /// any GPU call would be made, exactly when a required handle is null or
    /// the extent has a zero dimension.
    pub fn new(info: &ComparatorCreateInfo) -> (r: Result<RenderTargetComparator, Error>)
        ensures
            match r {
                Ok(c) => {
                    &&& comparator_config_valid(*info)
                    &&& c.config == with_default_viewport(*info)
                    &&& comparator_config_valid(c.config)
                },
                Err(e) => {
                    &&& e == Error::ConfigurationInvalid
                    &&& !comparator_config_valid(*info)
                },
            },
    {
        if info.device == 0
            || info.descriptor_pool == 0
            || info.in_image_views[0] == 0
            || info.in_image_views[1] == 0
            || info.out_image_view == 0
            || info.extent.width == 0
            || info.extent.height == 0
        {
            return Err(Error::ConfigurationInvalid);
        }
        let viewport: Viewport = match info.viewport {
            Some(v) => v,
            None => Viewport { x: 0, y: 0, width: info.extent.width, height: info.extent.height },
        };
        Ok(RenderTargetComparator { config: ComparatorCreateInfo { viewport: Some(viewport), ..*info } })
    }

    /// Decide, for every column of one output row, which source image the
    /// composited pixel is read from, given the bar-fraction snapshot taken at
    /// frame-record time. Column `x` reads the color source exactly when
    /// `x / width` is below the bar fraction.
    pub fn composite_row(&self, bar: &BarFraction) -> (row: Vec<CompositeSource>)
        requires
            bar_wf(*bar),
            comparator_config_valid(self.config),
        ensures
            row@.len() == self.config.extent.width,
            forall|i: int| 0 <= i < row@.len() ==>
                (row@[i] == CompositeSource::Color
                    <==> selects_color(i, self.config.extent.width as int, *bar)),
    {
        let width = self.config.extent.width;
        let mut row: Vec<CompositeSource> = Vec::new();
        let mut x: u32 = 0;
        while x < width
            invariant
                0 <= x <= width,
                bar_wf(*bar),
                row@.len() == x,
                forall|i: int| 0 <= i < row@.len() ==>
                    (row@[i] == CompositeSource::Color
                        <==> selects_color(i, width as int, *bar)),
            decreases width - x,
        {
            let s = select_source(x, width, bar);
            row.push(s);
            x = x + 1;
        }
        row
    }
}

/// Build one validated comparator per swapchain output image. Every instance
/// shares the device, descriptor pool, format, extent and the two input views
/// (color-resolve first, grayscale-resolve second) and differs only in its
/// output view; each gets the full-extent viewport, as the viewer draws the
/// comparison over the whole surface.
///
/// Fails with `ConfigurationInvalid` exactly when some shared handle is null,
/// the extent has a zero dimension, or some output view is null.
pub fn create_comparators(
    device: u64,
    descriptor_pool: u64,
    format: u32,
    extent: Extent2D,
    color_resolve_view: u64,
    grayscale_view: u64,
    swapchain_image_views: &Vec<u64>,
) -> (r: Result<Vec<RenderTargetComparator>, Error>)
    ensures
        match r {
            Ok(comps) => {
                &&& device != 0
                &&& descriptor_pool != 0
                &&& color_resolve_view != 0
                &&& grayscale_view != 0
                &&& extent.width > 0
                &&& extent.height > 0
                &&& forall|i: int| 0 <= i < swapchain_image_views@.len()
                    ==> swapchain_image_views@[i] != 0
                &&& comps@.len() == swapchain_image_views@.len()
                &&& forall|i: int| 0 <= i < comps@.len() ==>
                    #[trigger] comps@[i].config == (ComparatorCreateInfo {
                        device,
                        descriptor_pool,
                        format,
                        extent,
                        in_image_views: comps@[i].config.in_image_views,
                        out_image_view: swapchain_image_views@[i],
                        viewport: Some(full_extent_viewport(extent)),
                    })
                &&& forall|i: int| 0 <= i < comps@.len() ==> {
                    &&& #[trigger] comps@[i].config.in_image_views@[0] == color_resolve_view
                    &&& comps@[i].config.in_image_views@[1] == grayscale_view
                    &&& comparator_config_valid(comps@[i].config)
                }
            },
            Err(e) => {
                &&& e == Error::ConfigurationInvalid
                &&& {
                    ||| device == 0
                    ||| descriptor_pool == 0
                    ||| color_resolve_view == 0
                    ||| grayscale_view == 0
                    ||| extent.width == 0
                    ||| extent.height == 0
                    ||| exists|i: int|
                        0 <= i < swapchain_image_views@.len()
                            && swapchain_image_views@[i] == 0
                }
            },
        },
{
    if device == 0 || descriptor_pool == 0 || color_resolve_view == 0 || grayscale_view == 0
        || extent.width == 0 || extent.height == 0 {
        return Err(Error::ConfigurationInvalid);
    }
    let viewport = Viewport { x: 0, y: 0, width: extent.width, height: extent.height };
    let mut comps: Vec<RenderTargetComparator> = Vec::new();
    let mut i: usize = 0;
    while i < swapchain_image_views.len()
        invariant
            0 <= i <= swapchain_image_views@.len(),
            comps@.len() == i,
            device != 0,
            descriptor_pool != 0,
            color_resolve_view != 0,
            grayscale_view != 0,
            extent.width > 0,
            extent.height > 0,
            viewport == full_extent_viewport(extent),
            forall|k: int| 0 <= k < comps@.len() ==>
                #[trigger] comps@[k].config == (ComparatorCreateInfo {
                    device,
                    descriptor_pool,
                    format,
                    extent,
                    in_image_views: comps@[k].config.in_image_views,
                    out_image_view: swapchain_image_views@[k],
                    viewport: Some(full_extent_viewport(extent)),
                }),
            forall|k: int| 0 <= k < comps@.len() ==> {
                &&& #[trigger] comps@[k].config.in_image_views@[0] == color_resolve_view
                &&& comps@[k].config.in_image_views@[1] == grayscale_view
                &&& comparator_config_valid(comps@[k].config)
            },
        decreases swapchain_image_views@.len() - i,
    {
        let info = ComparatorCreateInfo {
            device,
            descriptor_pool,
            format,
            extent,
            in_image_views: [color_resolve_view, grayscale_view],
            out_image_view: swapchain_image_views[i],
            viewport: Some(viewport),
        };
        let comparator = match RenderTargetComparator::new(&info) {
            Ok(c) => c,
            Err(e) => {
                proof {
                    assert(info.in_image_views@[0] == color_resolve_view);
                    assert(info.in_image_views@[1] == grayscale_view);
                    assert(swapchain_image_views@[i as int] == 0);
                }
                return Err(e);
            },
        };
        comps.push(comparator);
        i = i + 1;
    }
    proof {
        assert forall|k: int| 0 <= k < swapchain_image_views@.len() implies
            swapchain_image_views@[k] != 0 by {
            assert(comparator_config_valid(comps@[k].config));
            assert(comps@[k].config.out_image_view == swapchain_image_views@[k]);
        }
    }
    Ok(comps)
}

} // verus!
