//! Render-target construction and indexed-draw recording against a
//! mock backend context and queue.

use std::cell::RefCell;

use tephra::buffer::GenericBuffer;
use tephra::errors::{AllocationError, RenderError};
use tephra::render::{
    create_framebuffer, create_pipeline, create_render, create_renderpass, vertex_format,
    vertex_input, AttachmentDescription, ClearColor, ClearDepth, ClearValues, CompareOp,
    CreateRender, CullMode, DrawCommand, DrawSubmission, Format, FramebufferDescription,
    FrontFace, ImageDesc, ImageLayout, IndexType, InputRate, LoadOp, PipelineState,
    PipelineStage, PolygonMode, PrimitiveTopology, RenderPassDescription, ShaderModule, StoreOp,
    SubmitApi, SubpassId, VertexFormat, VertexInputData, VertexType,
};

const BACKEND: u64 = 7;

struct MockRenderContext {
    fail_renderpass: bool,
    fail_framebuffer: bool,
    seen_renderpass: RefCell<Option<RenderPassDescription>>,
    seen_framebuffer: RefCell<Option<FramebufferDescription>>,
}

impl MockRenderContext {
    fn new() -> Self {
        MockRenderContext {
            fail_renderpass: false,
            fail_framebuffer: false,
            seen_renderpass: RefCell::new(None),
            seen_framebuffer: RefCell::new(None),
        }
    }
}

impl CreateRender for MockRenderContext {
    fn backend_id(&self) -> u64 {
        BACKEND
    }

    fn surface_resolution(&self) -> (u32, u32) {
        (800, 600)
    }

    fn surface_format(&self) -> Format {
        Format::B8G8R8A8Unorm
    }

    fn create_renderpass(&self, desc: &RenderPassDescription) -> Result<u64, AllocationError> {
        if self.fail_renderpass {
            return Err(AllocationError::DeviceLimitExceeded);
        }
        *self.seen_renderpass.borrow_mut() = Some(*desc);
        Ok(11)
    }

    fn create_framebuffer(&self, desc: &FramebufferDescription) -> Result<u64, AllocationError> {
        if self.fail_framebuffer {
            return Err(AllocationError::DeviceLimitExceeded);
        }
        *self.seen_framebuffer.borrow_mut() = Some(desc.clone());
        Ok(22)
    }
}

#[derive(Default)]
struct MockQueue {
    submissions: Vec<DrawSubmission>,
}

impl SubmitApi for MockQueue {
    fn submit(&mut self, submission: DrawSubmission) {
        self.submissions.push(submission);
    }
}

fn target_images() -> Vec<ImageDesc> {
    vec![
        ImageDesc { format: Format::R8G8B8A8Unorm, width: 800, height: 600, view: 31 },
        ImageDesc { format: Format::D16Unorm, width: 800, height: 600, view: 32 },
    ]
}

fn full_state() -> PipelineState {
    PipelineState {
        vertex_shader: Some(ShaderModule { backend_id: BACKEND, module: 1 }),
        fragment_shader: Some(ShaderModule { backend_id: BACKEND, module: 2 }),
    }
}

fn triangle_layout() -> Vec<VertexInputData> {
    vec![
        VertexInputData { location: 0, binding: 0, offset: 0, vertex_type: VertexType::F32(3) },
        VertexInputData { location: 1, binding: 0, offset: 12, vertex_type: VertexType::F32(4) },
    ]
}

#[test]
fn vertex_format_maps_widths_one_to_four() {
    assert_eq!(vertex_format(VertexType::F32(1)).unwrap(), VertexFormat::R32Sfloat);
    assert_eq!(vertex_format(VertexType::F32(2)).unwrap(), VertexFormat::R32G32Sfloat);
    assert_eq!(vertex_format(VertexType::F32(3)).unwrap(), VertexFormat::R32G32B32Sfloat);
    assert_eq!(vertex_format(VertexType::F32(4)).unwrap(), VertexFormat::R32G32B32A32Sfloat);
}

#[test]
fn vertex_format_rejects_width_zero_and_five_up() {
    assert_eq!(vertex_format(VertexType::F32(0)).unwrap_err(), RenderError::UnsupportedVertexWidth);
    assert_eq!(vertex_format(VertexType::F32(5)).unwrap_err(), RenderError::UnsupportedVertexWidth);
    assert_eq!(
        vertex_format(VertexType::F32(100)).unwrap_err(),
        RenderError::UnsupportedVertexWidth
    );
}

#[test]
fn vertex_input_resolves_each_slot() {
    let attrs = vertex_input(&triangle_layout()).unwrap();
    assert_eq!(attrs.len(), 2);
    assert_eq!(attrs[0].location, 0);
    assert_eq!(attrs[0].offset, 0);
    assert_eq!(attrs[0].format, VertexFormat::R32G32B32Sfloat);
    assert_eq!(attrs[1].location, 1);
    assert_eq!(attrs[1].offset, 12);
    assert_eq!(attrs[1].format, VertexFormat::R32G32B32A32Sfloat);
}

#[test]
fn vertex_input_rejects_any_bad_slot() {
    let mut layout = triangle_layout();
    layout.push(VertexInputData {
        location: 2,
        binding: 0,
        offset: 28,
        vertex_type: VertexType::F32(5),
    });
    assert_eq!(vertex_input(&layout).unwrap_err(), RenderError::UnsupportedVertexWidth);
}

#[test]
fn renderpass_description_has_fixed_attachments_and_barrier() {
    let desc = create_renderpass(&target_images(), Format::R8G8B8A8Unorm);
    let color: AttachmentDescription = desc.color_attachment;
    assert_eq!(color.format, Format::R8G8B8A8Unorm);
    assert_eq!(color.load_op, LoadOp::Clear);
    assert_eq!(color.store_op, StoreOp::Store);
    assert_eq!(color.initial_layout, ImageLayout::Undefined);
    assert_eq!(color.final_layout, ImageLayout::ColorAttachmentOptimal);
    let depth = desc.depth_attachment;
    assert_eq!(depth.format, Format::D16Unorm);
    assert_eq!(depth.load_op, LoadOp::Clear);
    assert_eq!(depth.store_op, StoreOp::DontCare);
    assert_eq!(depth.final_layout, ImageLayout::DepthStencilAttachmentOptimal);
    assert_eq!(desc.subpass.color_attachment.attachment, 0);
    assert_eq!(desc.subpass.depth_stencil_attachment.attachment, 1);
    let dep = desc.dependency;
    assert_eq!(dep.src_subpass, SubpassId::External);
    assert_eq!(dep.dst_subpass, SubpassId::Subpass(0));
    assert_eq!(dep.src_stage_mask, PipelineStage::ColorAttachmentOutput);
    assert_eq!(dep.dst_stage_mask, PipelineStage::ColorAttachmentOutput);
    assert!(!dep.src_access.color_attachment_read && !dep.src_access.color_attachment_write);
    assert!(dep.dst_access.color_attachment_read && dep.dst_access.color_attachment_write);
}

#[test]
fn renderpass_color_attachment_takes_the_presentation_format() {
    let desc = create_renderpass(&target_images(), Format::B8G8R8A8Unorm);
    assert_eq!(desc.color_attachment.format, Format::B8G8R8A8Unorm);
    assert_eq!(desc.depth_attachment.format, Format::D16Unorm);
}

#[test]
fn framebuffer_binds_views_in_order_at_surface_resolution() {
    let fb = create_framebuffer(&target_images(), 11, 800, 600);
    assert_eq!(fb.renderpass, 11);
    assert_eq!(fb.attachments, vec![31, 32]);
    assert_eq!(fb.width, 800);
    assert_eq!(fb.height, 600);
    assert_eq!(fb.layers, 1);
}

#[test]
fn pipeline_carries_stages_and_fixed_function_defaults() {
    let vs = ShaderModule { backend_id: BACKEND, module: 1 };
    let fs = ShaderModule { backend_id: BACKEND, module: 2 };
    let attrs = vertex_input(&triangle_layout()).unwrap();
    let p = create_pipeline(vs, fs, 28, attrs);
    assert_eq!(p.vertex_shader, vs);
    assert_eq!(p.fragment_shader, fs);
    assert_eq!(p.vertex_binding.binding, 0);
    assert_eq!(p.vertex_binding.stride, 28);
    assert_eq!(p.vertex_binding.input_rate, InputRate::PerVertex);
    assert_eq!(p.attributes.len(), 2);
    assert_eq!(p.topology, PrimitiveTopology::TriangleList);
    assert!(!p.primitive_restart);
    assert_eq!(p.cull_mode, CullMode::NoCulling);
    assert_eq!(p.front_face, FrontFace::CounterClockwise);
    assert_eq!(p.polygon_mode, PolygonMode::Fill);
    assert_eq!(p.sample_count, 1);
    assert!(p.depth_test_enable);
    assert!(p.depth_write_enable);
    assert_eq!(p.depth_compare, CompareOp::LessOrEqual);
    assert!(!p.blend_enable);
    assert!(p.dynamic_viewport && p.dynamic_scissor);
}

#[test]
fn create_render_feeds_backend_the_descriptions() {
    let ctx = MockRenderContext::new();
    let render = create_render(&ctx, &target_images()).unwrap();
    let seen_rp = ctx.seen_renderpass.borrow().unwrap();
    assert_eq!(seen_rp, create_renderpass(&target_images(), Format::B8G8R8A8Unorm));
    let seen_fb = ctx.seen_framebuffer.borrow().clone().unwrap();
    assert_eq!(seen_fb.renderpass, 11);
    assert_eq!(seen_fb.attachments, vec![31, 32]);
    assert_eq!(seen_fb.width, 800);
    assert_eq!(seen_fb.height, 600);
    drop(render);
}

#[test]
fn create_render_surfaces_creation_failures() {
    let mut ctx = MockRenderContext::new();
    ctx.fail_renderpass = true;
    assert!(matches!(
        create_render(&ctx, &target_images()),
        Err(AllocationError::DeviceLimitExceeded)
    ));
    let mut ctx = MockRenderContext::new();
    ctx.fail_framebuffer = true;
    assert!(matches!(
        create_render(&ctx, &target_images()),
        Err(AllocationError::DeviceLimitExceeded)
    ));
}

#[test]
fn draw_records_the_exact_command_sequence() {
    let ctx = MockRenderContext::new();
    let render = create_render(&ctx, &target_images()).unwrap();
    let mut queue = MockQueue::default();
    let vbuf = GenericBuffer { backend_id: BACKEND, buffer: 101 };
    let ibuf = GenericBuffer { backend_id: BACKEND, buffer: 102 };
    render
        .draw_indexed(&mut queue, &full_state(), 28, &triangle_layout(), &vbuf, &ibuf, 36)
        .unwrap();
    assert_eq!(queue.submissions.len(), 1);
    let sub = &queue.submissions[0];
    assert!(sub.wait_semaphores.is_empty());
    assert!(sub.signal_semaphores.is_empty());
    let expected = vec![
        DrawCommand::BeginRenderPass {
            renderpass: 11,
            framebuffer: 22,
            width: 800,
            height: 600,
            clear: ClearValues {
                color: ClearColor::TransparentBlack,
                depth: ClearDepth::Farthest,
                stencil: 0,
            },
        },
        DrawCommand::BindPipeline,
        DrawCommand::SetViewport { width: 800, height: 600 },
        DrawCommand::SetScissor { width: 800, height: 600 },
        DrawCommand::BindVertexBuffer { binding: 0, buffer: 101, offset: 0 },
        DrawCommand::BindIndexBuffer { buffer: 102, offset: 0, index_type: IndexType::U32 },
        DrawCommand::DrawIndexed {
            index_count: 36,
            instance_count: 1,
            first_index: 0,
            vertex_offset: 0,
            first_instance: 0,
        },
        DrawCommand::EndRenderPass,
    ];
    assert_eq!(sub.commands, expected);
    assert_eq!(sub.pipeline.topology, PrimitiveTopology::TriangleList);
}

#[test]
fn draw_without_fragment_shader_fails_before_any_submission() {
    let ctx = MockRenderContext::new();
    let render = create_render(&ctx, &target_images()).unwrap();
    let mut queue = MockQueue::default();
    let state = PipelineState {
        vertex_shader: Some(ShaderModule { backend_id: BACKEND, module: 1 }),
        fragment_shader: None,
    };
    let vbuf = GenericBuffer { backend_id: BACKEND, buffer: 101 };
    let ibuf = GenericBuffer { backend_id: BACKEND, buffer: 102 };
    let r = render.draw_indexed(&mut queue, &state, 28, &triangle_layout(), &vbuf, &ibuf, 36);
    assert_eq!(r.unwrap_err(), RenderError::MissingFragmentShader);
    assert!(queue.submissions.is_empty());
}

#[test]
fn draw_without_vertex_shader_fails_before_any_submission() {
    let ctx = MockRenderContext::new();
    let render = create_render(&ctx, &target_images()).unwrap();
    let mut queue = MockQueue::default();
    let state = PipelineState {
        vertex_shader: None,
        fragment_shader: Some(ShaderModule { backend_id: BACKEND, module: 2 }),
    };
    let vbuf = GenericBuffer { backend_id: BACKEND, buffer: 101 };
    let ibuf = GenericBuffer { backend_id: BACKEND, buffer: 102 };
    let r = render.draw_indexed(&mut queue, &state, 28, &triangle_layout(), &vbuf, &ibuf, 36);
    assert_eq!(r.unwrap_err(), RenderError::MissingVertexShader);
    assert!(queue.submissions.is_empty());
}

#[test]
fn draw_refuses_buffers_from_a_foreign_backend() {
    let ctx = MockRenderContext::new();
    let render = create_render(&ctx, &target_images()).unwrap();
    let mut queue = MockQueue::default();
    let foreign = GenericBuffer { backend_id: BACKEND + 1, buffer: 101 };
    let ibuf = GenericBuffer { backend_id: BACKEND, buffer: 102 };
    let r = render.draw_indexed(&mut queue, &full_state(), 28, &triangle_layout(), &foreign, &ibuf, 36);
    assert_eq!(r.unwrap_err(), RenderError::BackendMismatch);
    assert!(queue.submissions.is_empty());
}

#[test]
fn draw_rejects_unsupported_vertex_width_without_submitting() {
    let ctx = MockRenderContext::new();
    let render = create_render(&ctx, &target_images()).unwrap();
    let mut queue = MockQueue::default();
    let layout = vec![VertexInputData {
        location: 0,
        binding: 0,
        offset: 0,
        vertex_type: VertexType::F32(6),
    }];
    let vbuf = GenericBuffer { backend_id: BACKEND, buffer: 101 };
    let ibuf = GenericBuffer { backend_id: BACKEND, buffer: 102 };
    let r = render.draw_indexed(&mut queue, &full_state(), 24, &layout, &vbuf, &ibuf, 3);
    assert_eq!(r.unwrap_err(), RenderError::UnsupportedVertexWidth);
    assert!(queue.submissions.is_empty());
}
