//! Verified core of a split-screen frame-comparison renderer.
//!
//! The library models the decision logic of an interactive viewer that renders
//! a scene twice in one render pass (a shaded color subpass and a derived
//! depth-visualization subpass) and composites the two results side by side,
//! split at a draggable vertical bar. Device queries, window events and GPU
//! submission are collaborators at the edge; they hand this library plain
//! values (queue-family capabilities, format support bits, pixel coordinates,
//! handles) and receive validated descriptions and decisions back.

use vstd::prelude::*;

pub mod comparator;
pub mod depth_format;
pub mod engine;
pub mod limiter;
pub mod queue;
pub mod render_pass;
pub mod window;

verus! {

/// Failure taxonomy of the core.
#[derive(Clone, Copy, Debug, PartialEq, Eq, Structural)]
pub enum Error {
    /// A physical device lacks a required queue capability; the caller may
    /// try the next device.
    MissingQueueFamilies,
    /// No candidate depth format is supported by the physical device.
    NoSupportedDepthFormat,
    /// A comparator was configured with a null handle or a zero-sized extent;
    /// detected before any GPU call is made.
    ConfigurationInvalid,
    /// An underlying graphics-API call failed with the given result code;
    /// raised only by the unverified edge and propagated unchanged.
    ResourceCreationFailure(i32),
}

} // verus!
