//! Swapchain-dependent state: bar fraction, resize flag, rebuild.
//!
//! Everything built against one swapchain — the render pass and the per-image
//! comparators — must be discarded together and rebuilt when the surface is
//! resized. The engine tracks those handles with an explicit `resized` flag:
//! the flag is raised by the resize event, no frame is recorded while it is
//! raised, and it is cleared exactly once by a successful rebuild, which
//! replaces every swapchain-dependent handle and advances a generation
//! counter. A frame snapshot also fixes the bar fraction once per frame, so a
//! value changed mid-recording cannot be observed twice within one frame.

use vstd::prelude::*;

use crate::comparator::{bar_fraction_from_pixel, bar_wf, clamped_pixel, BarFraction, Extent2D};

verus! {

/// How close to the left or right surface edge, in pixels, a drag update is
/// still rejected, so the bar cannot snap to the very edge.
pub const DRAG_EDGE_MARGIN: u32 = 10;

/// `x` lies inside the drag-active window of a surface `width` pixels wide:
/// at least the margin away from either edge.
pub open spec fn in_drag_window(x: int, width: int) -> bool {
    DRAG_EDGE_MARGIN <= x && x + DRAG_EDGE_MARGIN <= width
}

/// The bar fraction after a pointer update: while dragging inside the
/// drag-active window the bar follows the pointer, normalized by the surface
/// width; otherwise the previous fraction is kept.
pub open spec fn bar_update_spec(bar: BarFraction, x: int, width: int, dragging: bool)
    -> BarFraction {
    if dragging && in_drag_window(x, width) {
        BarFraction { num: x as u32, den: width as u32 }
    } else {
        bar
    }
}

/// The swapchain-dependent state of the viewer. Handles are raw non-zero
/// graphics-API object ids owned by the unverified edge; the engine only
/// decides which of them a frame may be recorded against.
#[derive(Clone, Debug)]
pub struct FrameEngine {
    /// The current bar fraction, normalized to the surface width.
    pub bar: BarFraction,
    /// The surface was resized (or nothing is built yet): the current handles
    /// are stale and must not be used until `rebuild` replaces them.
    pub resized: bool,
    /// The current surface size in pixels.
    pub extent: Extent2D,
    /// The render pass handle of the current swapchain, if one is built.
    pub render_pass: Option<u64>,
    /// One comparator handle per swapchain image of the current swapchain.
    pub comparators: Vec<u64>,
    /// Grows by one with every rebuild; handles of earlier generations are
    /// gone.
    pub generation: u64,
}

/// The engine's invariant: the bar fraction lies in [0,1] and no tracked
/// handle is null.
pub open spec fn engine_wf(e: FrameEngine) -> bool {
    &&& bar_wf(e.bar)
    &&& e.render_pass matches Some(h) ==> h != 0
    &&& forall|i: int| 0 <= i < e.comparators@.len() ==> e.comparators@[i] != 0
}

/// The engine after a successful rebuild: the resize flag is cleared, the
/// prior render-pass and comparator handles are discarded in favour of the
/// new ones, and the generation advances.
pub open spec fn rebuild_spec(e: FrameEngine, render_pass: u64, comparators: Vec<u64>)
    -> FrameEngine {
    FrameEngine {
        resized: false,
        render_pass: Some(render_pass),
        comparators,
        generation: (e.generation + 1) as u64,
        ..e
    }
}

/// What a frame is recorded against: the current render-pass handle and the
/// bar fraction as of frame-record time — or nothing, while the handles are
/// stale or not yet built.
pub open spec fn frame_snapshot(e: FrameEngine) -> Option<(u64, BarFraction)> {
    match e.render_pass {
        Some(h) => if !e.resized {
            Some((h, e.bar))
        } else {
            None
        },
        None => None,
    }
}

impl FrameEngine {
    /// A fresh engine for a surface of the given size: nothing is built yet,
    /// so the resize flag starts raised and the first rebuild must come
    /// before the first frame. The bar starts at the given pointer position,
    /// clamped to the surface.
    pub fn new(extent: Extent2D, initial_mouse_x: i64) -> (e: FrameEngine)
        requires
            extent.width > 0,
        ensures
            engine_wf(e),
            e.resized,
            e.render_pass == None::<u64>,
            e.comparators@.len() == 0,
            e.generation == 0,
            e.extent == extent,
            e.bar.den == extent.width,
            e.bar.num == clamped_pixel(initial_mouse_x as int, extent.width as int),
    {
        FrameEngine {
            bar: bar_fraction_from_pixel(initial_mouse_x, extent.width),
            resized: true,
            extent,
            render_pass: None,
            comparators: Vec::new(),
            generation: 0,
        }
    }

    /// Note a resize to a non-zero surface: the tracked handles become stale
    /// and no frame is recorded until `rebuild` replaces them.
    pub fn mark_resized(&mut self, extent: Extent2D)
        requires
            engine_wf(*old(self)),
            extent.width > 0,
            extent.height > 0,
        ensures
            engine_wf(*final(self)),
            *final(self) == (FrameEngine { resized: true, extent, ..*old(self) }),
            frame_snapshot(*final(self)) == None::<(u64, BarFraction)>,
    {
        self.resized = true;
        self.extent = extent;
    }

    /// Apply a pointer update: while the left button drags the bar inside the
    /// drag-active window, the bar follows the pointer normalized by the
    /// surface width; updates outside that window, or without dragging, keep
    /// the previous fraction. Nothing else changes.
    pub fn update_bar(&mut self, mouse_x: i64, dragging: bool)
        requires
            engine_wf(*old(self)),
        ensures
            engine_wf(*final(self)),
            final(self).bar == bar_update_spec(
                old(self).bar,
                mouse_x as int,
                old(self).extent.width as int,
                dragging,
            ),
            *final(self) == (FrameEngine { bar: final(self).bar, ..*old(self) }),
    {
        if dragging && mouse_x >= DRAG_EDGE_MARGIN as i64 && mouse_x <= self.extent.width as i64
            - DRAG_EDGE_MARGIN as i64 {
            self.bar = bar_fraction_from_pixel(mouse_x, self.extent.width);
        }
    }

    /// Install the handles built for the recreated swapchain. The prior
    /// render-pass and comparator handles are discarded, the generation
    /// advances, and the resize flag — which this call requires to be raised —
    /// is cleared, exactly once per successful rebuild: a second clearing
    /// would need a new resize first.
    pub fn rebuild(&mut self, render_pass: u64, comparators: Vec<u64>)
        requires
            engine_wf(*old(self)),
            old(self).resized,
            old(self).generation < u64::MAX,
            render_pass != 0,
            forall|i: int| 0 <= i < comparators@.len() ==> comparators@[i] != 0,
        ensures
            engine_wf(*final(self)),
            *final(self) == rebuild_spec(*old(self), render_pass, comparators),
            !final(self).resized,
            frame_snapshot(*final(self)) == Some((render_pass, old(self).bar)),
    {
        self.resized = false;
        self.render_pass = Some(render_pass);
        self.comparators = comparators;
        self.generation = self.generation + 1;
    }

    /// Take the per-frame snapshot: the handle to record against and the bar
    /// fraction fixed for this frame — or nothing while the handles are
    /// stale, so no frame is ever recorded against a discarded handle.
    pub fn begin_frame(&self) -> (r: Option<(u64, BarFraction)>)
        requires
            engine_wf(*self),
        ensures
            r == frame_snapshot(*self),
    {
        if self.resized {
            return None;
        }
        match self.render_pass {
            Some(h) => Some((h, self.bar)),
            None => None,
        }
    }
}

/// While the resize flag is raised the snapshot is empty: no frame is
/// recorded against a stale render-pass or comparator handle.
pub proof fn lemma_no_frame_while_resized(e: FrameEngine)
    requires
        e.resized,
    ensures
        frame_snapshot(e) == None::<(u64, BarFraction)>,
{
}

/// A rebuild from a resized engine clears the resize flag (it was raised
/// before and is down after, so each successful rebuild clears it exactly
/// once), discards the prior render-pass and comparator handles in favour of
/// the new ones, and advances the generation.
pub proof fn lemma_rebuild_refreshes(e: FrameEngine, render_pass: u64, comparators: Vec<u64>)
    requires
        e.resized,
        e.generation < u64::MAX,
    ensures
        !rebuild_spec(e, render_pass, comparators).resized,
        rebuild_spec(e, render_pass, comparators).render_pass == Some(render_pass),
        rebuild_spec(e, render_pass, comparators).comparators == comparators,
        rebuild_spec(e, render_pass, comparators).generation == e.generation + 1,
        frame_snapshot(rebuild_spec(e, render_pass, comparators)) == Some((render_pass, e.bar)),
{
}

} // verus!
