//! Render-pass graph builder.
//!
//! One render pass drives both outputs of a frame: subpass 0 renders the
//! scene multisampled and resolves color and depth in-pass (depth through the
//! depth-stencil-resolve extension, taking sample zero), and subpass 1 reads
//! the resolved depth as an input attachment restricted to the depth aspect
//! to synthesize a grayscale visualization — a pure post-process, with no
//! second geometry pass. Two dependencies order external writes before
//! subpass 0 and make subpass 0's late-fragment-test depth write visible to
//! subpass 1's fragment shader.
//!
//! The builder produces an immutable plain description; the unverified edge
//! translates it one field at a time into the graphics API's create-info
//! structures. Layouts, load/store operations and resolve modes are the
//! library's own enums; stage, access and aspect masks keep the API's bit
//! values.

use vstd::prelude::*;

verus! {

/// Pipeline stage bit: fragment shader execution.
pub const PIPELINE_STAGE_FRAGMENT_SHADER: u32 = 0x80;

/// Pipeline stage bit: early fragment tests (depth/stencil load).
pub const PIPELINE_STAGE_EARLY_FRAGMENT_TESTS: u32 = 0x100;

/// Pipeline stage bit: late fragment tests (depth/stencil store).
pub const PIPELINE_STAGE_LATE_FRAGMENT_TESTS: u32 = 0x200;

/// Pipeline stage bit: color attachment output.
pub const PIPELINE_STAGE_COLOR_ATTACHMENT_OUTPUT: u32 = 0x400;

/// Access bit: shader read.
pub const ACCESS_SHADER_READ: u32 = 0x20;

/// Access bit: color attachment write.
pub const ACCESS_COLOR_ATTACHMENT_WRITE: u32 = 0x100;

/// Access bit: depth/stencil attachment write.
pub const ACCESS_DEPTH_STENCIL_ATTACHMENT_WRITE: u32 = 0x400;

/// Image aspect bit: depth.
pub const IMAGE_ASPECT_DEPTH: u32 = 0x2;

/// The dependency endpoint standing for "outside the render pass".
pub const SUBPASS_EXTERNAL: u32 = 0xffff_ffff;

/// Image layout an attachment is in before, during or after a subpass.
#[derive(Clone, Copy, Debug, PartialEq, Eq, Structural)]
pub enum ImageLayout {
    Undefined,
    ColorAttachmentOptimal,
    DepthStencilAttachmentOptimal,
    ShaderReadOnlyOptimal,
}

/// What happens to an attachment's contents when a pass begins.
#[derive(Clone, Copy, Debug, PartialEq, Eq, Structural)]
pub enum AttachmentLoadOp {
    Clear,
    DontCare,
}

/// What happens to an attachment's contents when a pass ends.
#[derive(Clone, Copy, Debug, PartialEq, Eq, Structural)]
pub enum AttachmentStoreOp {
    Store,
    DontCare,
}

/// How a multisampled depth/stencil value is reduced to one sample.
#[derive(Clone, Copy, Debug, PartialEq, Eq, Structural)]
pub enum ResolveMode {
    /// Resolving is disabled for this aspect.
    NoResolve,
    /// Take the value of sample index zero.
    SampleZero,
}

/// Where a subpass binds its pipeline.
#[derive(Clone, Copy, Debug, PartialEq, Eq, Structural)]
pub enum PipelineBindPoint {
    Graphics,
}

/// One image slot of the render pass.
#[derive(Clone, Copy, Debug, PartialEq, Eq, Structural)]
pub struct AttachmentDescription {
    /// Raw format code of the graphics API.
    pub format: u32,
    /// Sample count; resolve targets must use 1.
    pub samples: u32,
    pub load_op: AttachmentLoadOp,
    pub store_op: AttachmentStoreOp,
    pub stencil_load_op: AttachmentLoadOp,
    pub stencil_store_op: AttachmentStoreOp,
    pub initial_layout: ImageLayout,
    pub final_layout: ImageLayout,
}

/// A subpass's reference to an attachment by index, with the layout the
/// attachment is in during the subpass. `aspect_mask` is meaningful only for
/// input attachments; 0 leaves it unrestricted.
#[derive(Clone, Copy, Debug, PartialEq, Eq, Structural)]
pub struct AttachmentReference {
    pub attachment: u32,
    pub layout: ImageLayout,
    pub aspect_mask: u32,
}

/// The depth-stencil-resolve extension record of a subpass: which single-
/// sample attachment receives the resolved depth, and how each aspect is
/// reduced.
#[derive(Clone, Copy, Debug, PartialEq, Eq, Structural)]
pub struct DepthStencilResolve {
    pub depth_resolve_mode: ResolveMode,
    pub stencil_resolve_mode: ResolveMode,
    pub attachment: AttachmentReference,
}

/// One rendering step of the pass and the attachments it touches.
#[derive(Clone, Debug)]
pub struct SubpassDescription {
    pub bind_point: PipelineBindPoint,
    pub color_attachments: Vec<AttachmentReference>,
    pub depth_stencil_attachment: Option<AttachmentReference>,
    pub resolve_attachments: Vec<AttachmentReference>,
    pub input_attachments: Vec<AttachmentReference>,
    pub depth_stencil_resolve: Option<DepthStencilResolve>,
}

/// An execution/memory ordering edge between two subpasses (or the outside).
#[derive(Clone, Copy, Debug, PartialEq, Eq, Structural)]
pub struct SubpassDependency {
    pub src_subpass: u32,
    pub dst_subpass: u32,
    pub src_stage_mask: u32,
    pub src_access_mask: u32,
    pub dst_stage_mask: u32,
    pub dst_access_mask: u32,
}

/// The complete, immutable render-pass description.
#[derive(Clone, Debug)]
pub struct RenderPassDescription {
    pub attachments: Vec<AttachmentDescription>,
    pub subpasses: Vec<SubpassDescription>,
    pub dependencies: Vec<SubpassDependency>,
}

/// Attachment 0: multisampled color target of the scene subpass. Its content
/// is resolved into attachment 2, so it is not stored.
pub open spec fn scene_color_attachment(format: u32, samples: u32) -> AttachmentDescription {
    AttachmentDescription {
        format,
        samples,
        load_op: AttachmentLoadOp::Clear,
        store_op: AttachmentStoreOp::DontCare,
        stencil_load_op: AttachmentLoadOp::DontCare,
        stencil_store_op: AttachmentStoreOp::DontCare,
        initial_layout: ImageLayout::Undefined,
        final_layout: ImageLayout::ColorAttachmentOptimal,
    }
}

/// Attachment 1: multisampled depth/stencil target of the scene subpass. Its
/// content is resolved into attachment 3, so it is not stored.
pub open spec fn scene_depth_attachment(format: u32, samples: u32) -> AttachmentDescription {
    AttachmentDescription {
        format,
        samples,
        load_op: AttachmentLoadOp::Clear,
        store_op: AttachmentStoreOp::DontCare,
        stencil_load_op: AttachmentLoadOp::DontCare,
        stencil_store_op: AttachmentStoreOp::DontCare,
        initial_layout: ImageLayout::Undefined,
        final_layout: ImageLayout::DepthStencilAttachmentOptimal,
    }
}

/// Attachment 2: single-sample color-resolve target; sampled later by the
/// comparator.
pub open spec fn color_resolve_attachment(format: u32) -> AttachmentDescription {
    AttachmentDescription {
        format,
        samples: 1,
        load_op: AttachmentLoadOp::DontCare,
        store_op: AttachmentStoreOp::Store,
        stencil_load_op: AttachmentLoadOp::DontCare,
        stencil_store_op: AttachmentStoreOp::DontCare,
        initial_layout: ImageLayout::Undefined,
        final_layout: ImageLayout::ShaderReadOnlyOptimal,
    }
}

/// Attachment 3: single-sample depth-resolve target, written by subpass 0's
/// depth-stencil resolve and read by subpass 1 as a depth-aspect input
/// attachment.
pub open spec fn depth_resolve_attachment(format: u32) -> AttachmentDescription {
    AttachmentDescription {
        format,
        samples: 1,
        load_op: AttachmentLoadOp::DontCare,
        store_op: AttachmentStoreOp::Store,
        stencil_load_op: AttachmentLoadOp::DontCare,
        stencil_store_op: AttachmentStoreOp::DontCare,
        initial_layout: ImageLayout::Undefined,
        final_layout: ImageLayout::DepthStencilAttachmentOptimal,
    }
}

/// Attachment 4: single-sample color target of the grayscale visualization
/// subpass; sampled later by the comparator.
pub open spec fn grayscale_color_attachment(format: u32) -> AttachmentDescription {
    AttachmentDescription {
        format,
        samples: 1,
        load_op: AttachmentLoadOp::DontCare,
        store_op: AttachmentStoreOp::Store,
        stencil_load_op: AttachmentLoadOp::DontCare,
        stencil_store_op: AttachmentStoreOp::DontCare,
        initial_layout: ImageLayout::Undefined,
        final_layout: ImageLayout::ShaderReadOnlyOptimal,
    }
}

/// Dependency 0: writes from before the pass complete before subpass 0 writes
/// its color and depth attachments.
pub open spec fn external_to_scene_dependency() -> SubpassDependency {
    SubpassDependency {
        src_subpass: SUBPASS_EXTERNAL,
        dst_subpass: 0,
        src_stage_mask: PIPELINE_STAGE_COLOR_ATTACHMENT_OUTPUT
            | PIPELINE_STAGE_EARLY_FRAGMENT_TESTS,
        src_access_mask: 0,
        dst_stage_mask: PIPELINE_STAGE_COLOR_ATTACHMENT_OUTPUT
            | PIPELINE_STAGE_EARLY_FRAGMENT_TESTS,
        dst_access_mask: ACCESS_COLOR_ATTACHMENT_WRITE
            | ACCESS_DEPTH_STENCIL_ATTACHMENT_WRITE,
    }
}

/// Dependency 1: subpass 0's depth write (late fragment tests) completes and
/// is visible before subpass 1's fragment shader reads the resolved depth —
/// the read-after-write hazard across the two subpasses.
pub open spec fn scene_to_visualization_dependency() -> SubpassDependency {
    SubpassDependency {
        src_subpass: 0,
        dst_subpass: 1,
        src_stage_mask: PIPELINE_STAGE_LATE_FRAGMENT_TESTS,
        src_access_mask: ACCESS_DEPTH_STENCIL_ATTACHMENT_WRITE,
        dst_stage_mask: PIPELINE_STAGE_FRAGMENT_SHADER,
        dst_access_mask: ACCESS_SHADER_READ,
    }
}

/// The structural invariants of the two-subpass graph (and the shape that the
/// viewer relies on): five attachments, two subpasses, two dependencies;
/// every resolve target single-sampled; the multisampled pair sharing the
/// configured sample count; the depth-resolve attachment (index 3) declared
/// with the depth/stencil-attachment-optimal final layout, produced by
/// subpass 0's depth-stencil resolve, and consumed by subpass 1 as an input
/// attachment restricted to the depth aspect, under an explicit
/// subpass-0-to-subpass-1 dependency.
pub open spec fn render_pass_wf(rp: RenderPassDescription, msaa_samples: u32) -> bool {
    &&& rp.attachments@.len() == 5
    &&& rp.subpasses@.len() == 2
    &&& rp.dependencies@.len() == 2
    &&& rp.attachments@[0].samples == msaa_samples
    &&& rp.attachments@[1].samples == msaa_samples
    &&& rp.attachments@[2].samples == 1
    &&& rp.attachments@[3].samples == 1
    &&& rp.attachments@[4].samples == 1
    &&& rp.attachments@[3].final_layout == ImageLayout::DepthStencilAttachmentOptimal
    &&& rp.subpasses@[0].depth_stencil_resolve matches Some(r)
        && r.attachment.attachment == 3
        && r.depth_resolve_mode == ResolveMode::SampleZero
        && r.stencil_resolve_mode == ResolveMode::NoResolve
    &&& rp.subpasses@[1].input_attachments@.len() == 1
    &&& rp.subpasses@[1].input_attachments@[0].attachment == 3
    &&& rp.subpasses@[1].input_attachments@[0].aspect_mask == IMAGE_ASPECT_DEPTH
    &&& rp.dependencies@[1].src_subpass == 0
    &&& rp.dependencies@[1].dst_subpass == 1
}

/// Build the two-subpass render-pass description for the given swapchain
/// color format, resolved depth format and multisample level.
///
/// The result always declares exactly 5 attachments (multisampled color,
/// multisampled depth/stencil, color-resolve, depth-resolve, grayscale
/// color), 2 subpasses (scene, depth visualization) and 2 dependencies, wired
/// as `render_pass_wf` states; the postcondition additionally pins every
/// field of every record. The description must be rebuilt — and dependent
/// framebuffers and comparators discarded — whenever the swapchain format,
/// extent or sample level changes.
pub fn create_render_pass(color_format: u32, depth_format: u32, msaa_samples: u32) -> (rp:
    RenderPassDescription)
    requires
        msaa_samples >= 1,
    ensures
        render_pass_wf(rp, msaa_samples),
        rp.attachments@ =~= seq![
            scene_color_attachment(color_format, msaa_samples),
            scene_depth_attachment(depth_format, msaa_samples),
            color_resolve_attachment(color_format),
            depth_resolve_attachment(depth_format),
            grayscale_color_attachment(color_format),
        ],
        rp.subpasses@[0].bind_point == PipelineBindPoint::Graphics,
        rp.subpasses@[0].color_attachments@ =~= seq![
            AttachmentReference {
                attachment: 0,
                layout: ImageLayout::ColorAttachmentOptimal,
                aspect_mask: 0,
            },
        ],
        rp.subpasses@[0].depth_stencil_attachment == Some(
            AttachmentReference {
                attachment: 1,
                layout: ImageLayout::DepthStencilAttachmentOptimal,
                aspect_mask: 0,
            },
        ),
        rp.subpasses@[0].resolve_attachments@ =~= seq![
            AttachmentReference {
                attachment: 2,
                layout: ImageLayout::ColorAttachmentOptimal,
                aspect_mask: 0,
            },
        ],
        rp.subpasses@[0].input_attachments@.len() == 0,
        rp.subpasses@[0].depth_stencil_resolve == Some(
            DepthStencilResolve {
                depth_resolve_mode: ResolveMode::SampleZero,
                stencil_resolve_mode: ResolveMode::NoResolve,
                attachment: AttachmentReference {
                    attachment: 3,
                    layout: ImageLayout::ColorAttachmentOptimal,
                    aspect_mask: 0,
                },
            },
        ),
        rp.subpasses@[1].bind_point == PipelineBindPoint::Graphics,
        rp.subpasses@[1].color_attachments@ =~= seq![
            AttachmentReference {
                attachment: 4,
                layout: ImageLayout::ColorAttachmentOptimal,
                aspect_mask: 0,
            },
        ],
        rp.subpasses@[1].depth_stencil_attachment == None::<AttachmentReference>,
        rp.subpasses@[1].resolve_attachments@.len() == 0,
        rp.subpasses@[1].input_attachments@ =~= seq![
            AttachmentReference {
                attachment: 3,
                layout: ImageLayout::ShaderReadOnlyOptimal,
                aspect_mask: IMAGE_ASPECT_DEPTH,
            },
        ],
        rp.subpasses@[1].depth_stencil_resolve == None::<DepthStencilResolve>,
        rp.dependencies@ =~= seq![
            external_to_scene_dependency(),
            scene_to_visualization_dependency(),
        ],
{
    let color_attachment = AttachmentDescription {
        format: color_format,
        samples: msaa_samples,
        load_op: AttachmentLoadOp::Clear,
        store_op: AttachmentStoreOp::DontCare,
        stencil_load_op: AttachmentLoadOp::DontCare,
        stencil_store_op: AttachmentStoreOp::DontCare,
        initial_layout: ImageLayout::Undefined,
        final_layout: ImageLayout::ColorAttachmentOptimal,
    };
    let depth_stencil_attachment = AttachmentDescription {
        format: depth_format,
        samples: msaa_samples,
        load_op: AttachmentLoadOp::Clear,
        store_op: AttachmentStoreOp::DontCare,
        stencil_load_op: AttachmentLoadOp::DontCare,
        stencil_store_op: AttachmentStoreOp::DontCare,
        initial_layout: ImageLayout::Undefined,
        final_layout: ImageLayout::DepthStencilAttachmentOptimal,
    };
    let color_resolve = AttachmentDescription {
        format: color_format,
        samples: 1,
        load_op: AttachmentLoadOp::DontCare,
        store_op: AttachmentStoreOp::Store,
        stencil_load_op: AttachmentLoadOp::DontCare,
        stencil_store_op: AttachmentStoreOp::DontCare,
        initial_layout: ImageLayout::Undefined,
        final_layout: ImageLayout::ShaderReadOnlyOptimal,
    };
    let depth_resolve = AttachmentDescription {
        format: depth_format,
        samples: 1,
        load_op: AttachmentLoadOp::DontCare,
        store_op: AttachmentStoreOp::Store,
        stencil_load_op: AttachmentLoadOp::DontCare,
        stencil_store_op: AttachmentStoreOp::DontCare,
        initial_layout: ImageLayout::Undefined,
        final_layout: ImageLayout::DepthStencilAttachmentOptimal,
    };
    let grayscale_color = AttachmentDescription {
        format: color_format,
        samples: 1,
        load_op: AttachmentLoadOp::DontCare,
        store_op: AttachmentStoreOp::Store,
        stencil_load_op: AttachmentLoadOp::DontCare,
        stencil_store_op: AttachmentStoreOp::DontCare,
        initial_layout: ImageLayout::Undefined,
        final_layout: ImageLayout::ShaderReadOnlyOptimal,
    };

    let mut attachments: Vec<AttachmentDescription> = Vec::new();
    attachments.push(color_attachment);
    attachments.push(depth_stencil_attachment);
    attachments.push(color_resolve);
    attachments.push(depth_resolve);
    attachments.push(grayscale_color);

    // Subpass 0: scene rendering, with in-pass color and depth resolve.
    let mut color_attachments0: Vec<AttachmentReference> = Vec::new();
    color_attachments0.push(AttachmentReference {
        attachment: 0,
        layout: ImageLayout::ColorAttachmentOptimal,
        aspect_mask: 0,
    });
    let mut resolve_attachments0: Vec<AttachmentReference> = Vec::new();
    resolve_attachments0.push(AttachmentReference {
        attachment: 2,
        layout: ImageLayout::ColorAttachmentOptimal,
        aspect_mask: 0,
    });
    let subpass0 = SubpassDescription {
        bind_point: PipelineBindPoint::Graphics,
        color_attachments: color_attachments0,
        depth_stencil_attachment: Some(AttachmentReference {
            attachment: 1,
            layout: ImageLayout::DepthStencilAttachmentOptimal,
            aspect_mask: 0,
        }),
        resolve_attachments: resolve_attachments0,
        input_attachments: Vec::new(),
        depth_stencil_resolve: Some(DepthStencilResolve {
            depth_resolve_mode: ResolveMode::SampleZero,
            stencil_resolve_mode: ResolveMode::NoResolve,
            attachment: AttachmentReference {
                attachment: 3,
                layout: ImageLayout::ColorAttachmentOptimal,
                aspect_mask: 0,
            },
        }),
    };

    // Subpass 1: depth visualization over the resolved depth.
    let mut color_attachments1: Vec<AttachmentReference> = Vec::new();
    color_attachments1.push(AttachmentReference {
        attachment: 4,
        layout: ImageLayout::ColorAttachmentOptimal,
        aspect_mask: 0,
    });
    let mut input_attachments1: Vec<AttachmentReference> = Vec::new();
    input_attachments1.push(AttachmentReference {
        attachment: 3,
        layout: ImageLayout::ShaderReadOnlyOptimal,
        aspect_mask: IMAGE_ASPECT_DEPTH,
    });
    let subpass1 = SubpassDescription {
        bind_point: PipelineBindPoint::Graphics,
        color_attachments: color_attachments1,
        depth_stencil_attachment: None,
        resolve_attachments: Vec::new(),
        input_attachments: input_attachments1,
        depth_stencil_resolve: None,
    };

    let mut subpasses: Vec<SubpassDescription> = Vec::new();
    subpasses.push(subpass0);
    subpasses.push(subpass1);

    let dependency0 = SubpassDependency {
        src_subpass: SUBPASS_EXTERNAL,
        dst_subpass: 0,
        src_stage_mask: PIPELINE_STAGE_COLOR_ATTACHMENT_OUTPUT
            | PIPELINE_STAGE_EARLY_FRAGMENT_TESTS,
        src_access_mask: 0,
        dst_stage_mask: PIPELINE_STAGE_COLOR_ATTACHMENT_OUTPUT
            | PIPELINE_STAGE_EARLY_FRAGMENT_TESTS,
        dst_access_mask: ACCESS_COLOR_ATTACHMENT_WRITE
            | ACCESS_DEPTH_STENCIL_ATTACHMENT_WRITE,
    };
    let dependency1 = SubpassDependency {
        src_subpass: 0,
        dst_subpass: 1,
        src_stage_mask: PIPELINE_STAGE_LATE_FRAGMENT_TESTS,
        src_access_mask: ACCESS_DEPTH_STENCIL_ATTACHMENT_WRITE,
        dst_stage_mask: PIPELINE_STAGE_FRAGMENT_SHADER,
        dst_access_mask: ACCESS_SHADER_READ,
    };
    let mut dependencies: Vec<SubpassDependency> = Vec::new();
    dependencies.push(dependency0);
    dependencies.push(dependency1);

    RenderPassDescription { attachments, subpasses, dependencies }
}

} // verus!
