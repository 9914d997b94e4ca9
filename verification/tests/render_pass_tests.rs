use frame_comp::render_pass::{
    create_render_pass, AttachmentLoadOp, AttachmentStoreOp, ImageLayout, PipelineBindPoint,
    ResolveMode, ACCESS_COLOR_ATTACHMENT_WRITE, ACCESS_DEPTH_STENCIL_ATTACHMENT_WRITE,
    ACCESS_SHADER_READ, IMAGE_ASPECT_DEPTH, PIPELINE_STAGE_COLOR_ATTACHMENT_OUTPUT,
    PIPELINE_STAGE_EARLY_FRAGMENT_TESTS, PIPELINE_STAGE_FRAGMENT_SHADER,
    PIPELINE_STAGE_LATE_FRAGMENT_TESTS, SUBPASS_EXTERNAL,
};

const COLOR_FORMAT: u32 = 44; // 8-bit BGRA, a common swapchain format code
const DEPTH_FORMAT: u32 = 126; // 32-bit float depth
const SAMPLES: u32 = 4;

#[test]
fn declares_five_attachments_two_subpasses_two_dependencies() {
    let rp = create_render_pass(COLOR_FORMAT, DEPTH_FORMAT, SAMPLES);
    assert_eq!(rp.attachments.len(), 5);
    assert_eq!(rp.subpasses.len(), 2);
    assert_eq!(rp.dependencies.len(), 2);
}

#[test]
fn depth_resolve_attachment_layout_and_input_wiring() {
    let rp = create_render_pass(COLOR_FORMAT, DEPTH_FORMAT, SAMPLES);
    // Attachment 3 is the single-sample depth-resolve target with the
    // depth/stencil-attachment-optimal final layout.
    assert_eq!(rp.attachments[3].format, DEPTH_FORMAT);
    assert_eq!(rp.attachments[3].samples, 1);
    assert_eq!(
        rp.attachments[3].final_layout,
        ImageLayout::DepthStencilAttachmentOptimal
    );
    // It feeds subpass 1 as an input attachment restricted to the depth aspect.
    assert_eq!(rp.subpasses[1].input_attachments.len(), 1);
    assert_eq!(rp.subpasses[1].input_attachments[0].attachment, 3);
    assert_eq!(
        rp.subpasses[1].input_attachments[0].aspect_mask,
        IMAGE_ASPECT_DEPTH
    );
    assert_eq!(
        rp.subpasses[1].input_attachments[0].layout,
        ImageLayout::ShaderReadOnlyOptimal
    );
}

#[test]
fn multisampled_pair_shares_sample_count_and_resolves_are_single_sampled() {
    let rp = create_render_pass(COLOR_FORMAT, DEPTH_FORMAT, SAMPLES);
    assert_eq!(rp.attachments[0].samples, SAMPLES);
    assert_eq!(rp.attachments[1].samples, SAMPLES);
    assert_eq!(rp.attachments[2].samples, 1);
    assert_eq!(rp.attachments[3].samples, 1);
    assert_eq!(rp.attachments[4].samples, 1);
}

#[test]
fn attachment_formats_and_ops() {
    let rp = create_render_pass(COLOR_FORMAT, DEPTH_FORMAT, SAMPLES);
    // Scene color and depth are cleared on load and not stored (they resolve).
    assert_eq!(rp.attachments[0].format, COLOR_FORMAT);
    assert_eq!(rp.attachments[0].load_op, AttachmentLoadOp::Clear);
    assert_eq!(rp.attachments[0].store_op, AttachmentStoreOp::DontCare);
    assert_eq!(
        rp.attachments[0].final_layout,
        ImageLayout::ColorAttachmentOptimal
    );
    assert_eq!(rp.attachments[1].format, DEPTH_FORMAT);
    assert_eq!(rp.attachments[1].load_op, AttachmentLoadOp::Clear);
    assert_eq!(
        rp.attachments[1].final_layout,
        ImageLayout::DepthStencilAttachmentOptimal
    );
    // Both resolve targets and the grayscale target are stored for sampling.
    assert_eq!(rp.attachments[2].store_op, AttachmentStoreOp::Store);
    assert_eq!(
        rp.attachments[2].final_layout,
        ImageLayout::ShaderReadOnlyOptimal
    );
    assert_eq!(rp.attachments[3].store_op, AttachmentStoreOp::Store);
    assert_eq!(rp.attachments[4].format, COLOR_FORMAT);
    assert_eq!(rp.attachments[4].store_op, AttachmentStoreOp::Store);
    assert_eq!(
        rp.attachments[4].final_layout,
        ImageLayout::ShaderReadOnlyOptimal
    );
    // Every attachment starts undefined.
    for a in &rp.attachments {
        assert_eq!(a.initial_layout, ImageLayout::Undefined);
    }
}

#[test]
fn scene_subpass_writes_color_depth_and_resolves_both() {
    let rp = create_render_pass(COLOR_FORMAT, DEPTH_FORMAT, SAMPLES);
    let s0 = &rp.subpasses[0];
    assert_eq!(s0.bind_point, PipelineBindPoint::Graphics);
    assert_eq!(s0.color_attachments.len(), 1);
    assert_eq!(s0.color_attachments[0].attachment, 0);
    assert_eq!(
        s0.color_attachments[0].layout,
        ImageLayout::ColorAttachmentOptimal
    );
    let ds = s0.depth_stencil_attachment.unwrap();
    assert_eq!(ds.attachment, 1);
    assert_eq!(ds.layout, ImageLayout::DepthStencilAttachmentOptimal);
    assert_eq!(s0.resolve_attachments.len(), 1);
    assert_eq!(s0.resolve_attachments[0].attachment, 2);
    assert!(s0.input_attachments.is_empty());
    let dsr = s0.depth_stencil_resolve.unwrap();
    assert_eq!(dsr.depth_resolve_mode, ResolveMode::SampleZero);
    assert_eq!(dsr.stencil_resolve_mode, ResolveMode::NoResolve);
    assert_eq!(dsr.attachment.attachment, 3);
}

#[test]
fn visualization_subpass_reads_depth_writes_grayscale() {
    let rp = create_render_pass(COLOR_FORMAT, DEPTH_FORMAT, SAMPLES);
    let s1 = &rp.subpasses[1];
    assert_eq!(s1.bind_point, PipelineBindPoint::Graphics);
    assert_eq!(s1.color_attachments.len(), 1);
    assert_eq!(s1.color_attachments[0].attachment, 4);
    assert!(s1.depth_stencil_attachment.is_none());
    assert!(s1.resolve_attachments.is_empty());
    assert!(s1.depth_stencil_resolve.is_none());
}

#[test]
fn dependencies_order_external_then_cross_subpass() {
    let rp = create_render_pass(COLOR_FORMAT, DEPTH_FORMAT, SAMPLES);
    let d0 = rp.dependencies[0];
    assert_eq!(d0.src_subpass, SUBPASS_EXTERNAL);
    assert_eq!(d0.dst_subpass, 0);
    assert_eq!(
        d0.src_stage_mask,
        PIPELINE_STAGE_COLOR_ATTACHMENT_OUTPUT | PIPELINE_STAGE_EARLY_FRAGMENT_TESTS
    );
    assert_eq!(d0.src_access_mask, 0);
    assert_eq!(
        d0.dst_stage_mask,
        PIPELINE_STAGE_COLOR_ATTACHMENT_OUTPUT | PIPELINE_STAGE_EARLY_FRAGMENT_TESTS
    );
    assert_eq!(
        d0.dst_access_mask,
        ACCESS_COLOR_ATTACHMENT_WRITE | ACCESS_DEPTH_STENCIL_ATTACHMENT_WRITE
    );
    let d1 = rp.dependencies[1];
    assert_eq!(d1.src_subpass, 0);
    assert_eq!(d1.dst_subpass, 1);
    assert_eq!(d1.src_stage_mask, PIPELINE_STAGE_LATE_FRAGMENT_TESTS);
    assert_eq!(d1.src_access_mask, ACCESS_DEPTH_STENCIL_ATTACHMENT_WRITE);
    assert_eq!(d1.dst_stage_mask, PIPELINE_STAGE_FRAGMENT_SHADER);
    assert_eq!(d1.dst_access_mask, ACCESS_SHADER_READ);
}
