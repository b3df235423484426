//! The per-draw render constructor.
//!
//! From a resolved list of target images and a pipeline-state
//! description this module synthesizes everything one indexed draw
//! needs: a render-pass description with two attachments and a coarse
//! color-output barrier, a framebuffer description binding the target
//! image views at the surface resolution, a graphics-pipeline
//! description combining the two shader stages with fixed-function
//! defaults, and the recorded command sequence. The backend executes a
//! [`DrawSubmission`] through [`SubmitApi`]; the pipeline inside it is
//! transient — created for one draw and destroyed after submission —
//! while the render pass and framebuffer stay on the [`Render`] object
//! for reuse across draws targeting the same images.

use vstd::prelude::*;

use crate::buffer::GenericBuffer;
use crate::errors::{AllocationError, RenderError};

verus! {

/// An opaque, backend-compiled shader stage, tagged with the backend
/// that created it.
#[derive(Clone, Copy, Debug, PartialEq, Eq, Structural)]
pub struct ShaderModule {
    pub backend_id: u64,
    pub module: u64,
}

/// The caller-supplied description of one draw configuration: the two
/// programmable stages. A vertex and a fragment shader are both
/// mandatory for the indexed-draw path.
#[derive(Clone, Copy, Debug, PartialEq, Eq, Structural)]
pub struct PipelineState {
    pub vertex_shader: Option<ShaderModule>,
    pub fragment_shader: Option<ShaderModule>,
}

/// The declared scalar type and component width of one vertex
/// attribute.
#[derive(Clone, Copy, Debug, PartialEq, Eq, Structural)]
pub enum VertexType {
    F32(u32),
}

/// One slot of the caller's vertex input layout.
#[derive(Clone, Copy, Debug, PartialEq, Eq, Structural)]
pub struct VertexInputData {
    pub location: u32,
    pub binding: u32,
    pub offset: u32,
    pub vertex_type: VertexType,
}

/// A vertex attribute format: 32-bit float vectors of one to four
/// components. No other format is supported by this draw path.
#[derive(Clone, Copy, Debug, PartialEq, Eq, Structural)]
pub enum VertexFormat {
    R32Sfloat,
    R32G32Sfloat,
    R32G32B32Sfloat,
    R32G32B32A32Sfloat,
}

/// One resolved vertex attribute of the pipeline's vertex input state.
#[derive(Clone, Copy, Debug, PartialEq, Eq, Structural)]
pub struct VertexInputAttribute {
    pub location: u32,
    pub binding: u32,
    pub offset: u32,
    pub format: VertexFormat,
}

/// The format a declared component width maps to: widths one to four
/// map to the float vector formats of that many components; any other
/// width has no format.
pub open spec fn spec_vertex_format(ty: VertexType) -> Option<VertexFormat> {
    match ty {
        VertexType::F32(size) => if size == 1 {
            Some(VertexFormat::R32Sfloat)
        } else if size == 2 {
            Some(VertexFormat::R32G32Sfloat)
        } else if size == 3 {
            Some(VertexFormat::R32G32B32Sfloat)
        } else if size == 4 {
            Some(VertexFormat::R32G32B32A32Sfloat)
        } else {
            None
        },
    }
}

/// Maps a declared vertex type to its attribute format. Component
/// widths 1, 2, 3 and 4 map to the single-, two-, three- and
/// four-component float formats; width 0 or at least 5 is rejected.
pub fn vertex_format(ty: VertexType) -> (r: Result<VertexFormat, RenderError>)
    ensures
        r matches Ok(f) ==> spec_vertex_format(ty) == Some(f),
        r is Err <==> spec_vertex_format(ty) is None,
        r matches Err(e) ==> e == RenderError::UnsupportedVertexWidth,
{
    match ty {
        VertexType::F32(size) => match size {
            1u32 => Ok(VertexFormat::R32Sfloat),
            2u32 => Ok(VertexFormat::R32G32Sfloat),
            3u32 => Ok(VertexFormat::R32G32B32Sfloat),
            4u32 => Ok(VertexFormat::R32G32B32A32Sfloat),
            _ => Err(RenderError::UnsupportedVertexWidth),
        },
    }
}

/// Whether `a` is the resolved attribute of the layout slot `d`.
pub open spec fn is_attribute_of(a: VertexInputAttribute, d: VertexInputData) -> bool {
    &&& a.location == d.location
    &&& a.binding == d.binding
    &&& a.offset == d.offset
    &&& spec_vertex_format(d.vertex_type) == Some(a.format)
}

/// Resolves the caller's vertex input layout into pipeline vertex
/// attributes, slot for slot. Fails when any slot declares an
/// unsupported component width.
pub fn vertex_input(vertex_layout: &[VertexInputData]) -> (r: Result<
    Vec<VertexInputAttribute>,
    RenderError,
>)
    ensures
        r matches Ok(v) ==> v@.len() == vertex_layout@.len() && (forall|i: int|
            0 <= i < v@.len() ==> is_attribute_of(#[trigger] v@[i], vertex_layout@[i])),
        r is Ok <==> (forall|i: int|
            0 <= i < vertex_layout@.len() ==> spec_vertex_format(
                (#[trigger] vertex_layout@[i]).vertex_type,
            ) is Some),
        r matches Err(e) ==> e == RenderError::UnsupportedVertexWidth,
{
    let mut out: Vec<VertexInputAttribute> = Vec::new();
    let mut i: usize = 0;
    while i < vertex_layout.len()
        invariant
            i <= vertex_layout@.len(),
            out@.len() == i as int,
            forall|j: int| 0 <= j < i ==> is_attribute_of(#[trigger] out@[j], vertex_layout@[j]),
            forall|j: int|
                0 <= j < i ==> spec_vertex_format(
                    (#[trigger] vertex_layout@[j]).vertex_type,
                ) is Some,
        decreases vertex_layout@.len() - i,
    {
        let d = vertex_layout[i];
        let format = match vertex_format(d.vertex_type) {
            Ok(f) => f,
            Err(e) => {
                return Err(e);
            },
        };
        out.push(
            VertexInputAttribute { location: d.location, binding: d.binding, offset: d.offset, format },
        );
        i = i + 1;
    }
    Ok(out)
}

/// How primitives are assembled from vertices.
#[derive(Clone, Copy, Debug, PartialEq, Eq, Structural)]
pub enum PrimitiveTopology {
    PointList,
    LineList,
    TriangleList,
}

/// Which faces the rasterizer discards.
#[derive(Clone, Copy, Debug, PartialEq, Eq, Structural)]
pub enum CullMode {
    NoCulling,
    Front,
    Back,
}

/// The winding order that makes a face front-facing.
#[derive(Clone, Copy, Debug, PartialEq, Eq, Structural)]
pub enum FrontFace {
    CounterClockwise,
    Clockwise,
}

/// How polygons are rasterized.
#[derive(Clone, Copy, Debug, PartialEq, Eq, Structural)]
pub enum PolygonMode {
    Fill,
    Line,
}

/// The depth-test comparison.
#[derive(Clone, Copy, Debug, PartialEq, Eq, Structural)]
pub enum CompareOp {
    Never,
    Less,
    LessOrEqual,
    Always,
}

/// Whether vertex data advances per vertex or per instance.
#[derive(Clone, Copy, Debug, PartialEq, Eq, Structural)]
pub enum InputRate {
    PerVertex,
    PerInstance,
}

/// The width of one index in an index buffer.
#[derive(Clone, Copy, Debug, PartialEq, Eq, Structural)]
pub enum IndexType {
    U16,
    U32,
}

/// The single vertex-buffer binding of the pipeline.
#[derive(Clone, Copy, Debug, PartialEq, Eq, Structural)]
pub struct VertexBindingDescription {
    pub binding: u32,
    pub stride: u32,
    pub input_rate: InputRate,
}

/// A complete graphics-pipeline description for one draw: the two
/// shader stages, the vertex input state and the fixed-function
/// defaults of this draw path. A pipeline built from it lives for
/// exactly one draw submission.
#[derive(Clone, Debug, PartialEq, Eq)]
pub struct PipelineDescription {
    pub vertex_shader: ShaderModule,
    pub fragment_shader: ShaderModule,
    pub vertex_binding: VertexBindingDescription,
    pub attributes: Vec<VertexInputAttribute>,
    pub topology: PrimitiveTopology,
    pub primitive_restart: bool,
    pub cull_mode: CullMode,
    pub front_face: FrontFace,
    pub polygon_mode: PolygonMode,
    pub sample_count: u32,
    pub depth_test_enable: bool,
    pub depth_write_enable: bool,
    pub depth_compare: CompareOp,
    pub blend_enable: bool,
    pub dynamic_viewport: bool,
    pub dynamic_scissor: bool,
}

/// Whether `p` is exactly the pipeline this draw path builds: the two
/// given stages, the vertex input at binding zero with the given
/// stride and attributes, and the fixed-function defaults —
/// triangle-list topology, no culling, counter-clockwise front face,
/// filled polygons, single-sample, depth test enabled with
/// less-or-equal comparison and depth writes on, no blending, and
/// dynamic viewport and scissor.
pub open spec fn pipeline_description_matches(
    p: PipelineDescription,
    vertex_shader: ShaderModule,
    fragment_shader: ShaderModule,
    stride: u32,
    attributes: Seq<VertexInputAttribute>,
) -> bool {
    &&& p.vertex_shader == vertex_shader
    &&& p.fragment_shader == fragment_shader
    &&& p.vertex_binding == (VertexBindingDescription {
        binding: 0,
        stride,
        input_rate: InputRate::PerVertex,
    })
    &&& p.attributes@ == attributes
    &&& p.topology == PrimitiveTopology::TriangleList
    &&& !p.primitive_restart
    &&& p.cull_mode == CullMode::NoCulling
    &&& p.front_face == FrontFace::CounterClockwise
    &&& p.polygon_mode == PolygonMode::Fill
    &&& p.sample_count == 1u32
    &&& p.depth_test_enable
    &&& p.depth_write_enable
    &&& p.depth_compare == CompareOp::LessOrEqual
    &&& !p.blend_enable
    &&& p.dynamic_viewport
    &&& p.dynamic_scissor
}

/// Builds the graphics-pipeline description for one draw from the two
/// shader stages and the resolved vertex input state, filling in the
/// fixed-function defaults of this draw path.
pub fn create_pipeline(
    vertex_shader: ShaderModule,
    fragment_shader: ShaderModule,
    stride: u32,
    attributes: Vec<VertexInputAttribute>,
) -> (p: PipelineDescription)
    ensures
        pipeline_description_matches(p, vertex_shader, fragment_shader, stride, attributes@),
{
    PipelineDescription {
        vertex_shader,
        fragment_shader,
        vertex_binding: VertexBindingDescription {
            binding: 0,
            stride,
            input_rate: InputRate::PerVertex,
        },
        attributes,
        topology: PrimitiveTopology::TriangleList,
        primitive_restart: false,
        cull_mode: CullMode::NoCulling,
        front_face: FrontFace::CounterClockwise,
        polygon_mode: PolygonMode::Fill,
        sample_count: 1,
        depth_test_enable: true,
        depth_write_enable: true,
        depth_compare: CompareOp::LessOrEqual,
        blend_enable: false,
        dynamic_viewport: true,
        dynamic_scissor: true,
    }
}

/// A pixel format of a render-target attachment.
#[derive(Clone, Copy, Debug, PartialEq, Eq, Structural)]
pub enum Format {
    R8G8B8A8Unorm,
    B8G8R8A8Unorm,
    D16Unorm,
}

/// What happens to an attachment's contents when a render pass begins.
#[derive(Clone, Copy, Debug, PartialEq, Eq, Structural)]
pub enum LoadOp {
    Clear,
    Load,
    DontCare,
}

/// What happens to an attachment's contents when a render pass ends.
#[derive(Clone, Copy, Debug, PartialEq, Eq, Structural)]
pub enum StoreOp {
    Store,
    DontCare,
}

/// An image layout an attachment transitions through.
#[derive(Clone, Copy, Debug, PartialEq, Eq, Structural)]
pub enum ImageLayout {
    Undefined,
    ColorAttachmentOptimal,
    DepthStencilAttachmentOptimal,
}

/// One attachment of a render pass.
#[derive(Clone, Copy, Debug, PartialEq, Eq, Structural)]
pub struct AttachmentDescription {
    pub format: Format,
    pub samples: u32,
    pub load_op: LoadOp,
    pub store_op: StoreOp,
    pub stencil_load_op: LoadOp,
    pub stencil_store_op: StoreOp,
    pub initial_layout: ImageLayout,
    pub final_layout: ImageLayout,
}

/// A subpass's reference to one attachment slot.
#[derive(Clone, Copy, Debug, PartialEq, Eq, Structural)]
pub struct AttachmentReference {
    pub attachment: u32,
    pub layout: ImageLayout,
}

/// The single subpass of this draw path: one color and one
/// depth-stencil attachment.
#[derive(Clone, Copy, Debug, PartialEq, Eq, Structural)]
pub struct SubpassDescription {
    pub color_attachment: AttachmentReference,
    pub depth_stencil_attachment: AttachmentReference,
}

/// A subpass named by a dependency: either outside the render pass or
/// one of its subpasses.
#[derive(Clone, Copy, Debug, PartialEq, Eq, Structural)]
pub enum SubpassId {
    External,
    Subpass(u32),
}

/// A pipeline stage a dependency synchronizes on.
#[derive(Clone, Copy, Debug, PartialEq, Eq, Structural)]
pub enum PipelineStage {
    ColorAttachmentOutput,
    BottomOfPipe,
}

/// The memory accesses a dependency orders.
#[derive(Clone, Copy, Debug, PartialEq, Eq, Structural)]
pub struct AccessFlags {
    pub color_attachment_read: bool,
    pub color_attachment_write: bool,
}

/// One execution/memory dependency between two subpasses.
#[derive(Clone, Copy, Debug, PartialEq, Eq, Structural)]
pub struct SubpassDependency {
    pub src_subpass: SubpassId,
    pub dst_subpass: SubpassId,
    pub src_stage_mask: PipelineStage,
    pub dst_stage_mask: PipelineStage,
    pub src_access: AccessFlags,
    pub dst_access: AccessFlags,
}

/// A complete render-pass description: two attachments, one subpass
/// referencing both, and one coarse external barrier.
#[derive(Clone, Copy, Debug, PartialEq, Eq, Structural)]
pub struct RenderPassDescription {
    pub color_attachment: AttachmentDescription,
    pub depth_attachment: AttachmentDescription,
    pub subpass: SubpassDescription,
    pub dependency: SubpassDependency,
}

/// The render pass of this draw path: a cleared, stored color
/// attachment in the given presentation format and a cleared,
/// discarded fixed-format depth attachment; one subpass referencing
/// both; and a single dependency ordering color-attachment writes
/// after any prior external access — it waits on the external
/// color-attachment-output stage and grants read and write access to
/// this pass's color-attachment-output stage.
pub open spec fn renderpass_description(presentation_format: Format) -> RenderPassDescription {
    RenderPassDescription {
        color_attachment: AttachmentDescription {
            format: presentation_format,
            samples: 1,
            load_op: LoadOp::Clear,
            store_op: StoreOp::Store,
            stencil_load_op: LoadOp::DontCare,
            stencil_store_op: StoreOp::DontCare,
            initial_layout: ImageLayout::Undefined,
            final_layout: ImageLayout::ColorAttachmentOptimal,
        },
        depth_attachment: AttachmentDescription {
            format: Format::D16Unorm,
            samples: 1,
            load_op: LoadOp::Clear,
            store_op: StoreOp::DontCare,
            stencil_load_op: LoadOp::DontCare,
            stencil_store_op: StoreOp::DontCare,
            initial_layout: ImageLayout::DepthStencilAttachmentOptimal,
            final_layout: ImageLayout::DepthStencilAttachmentOptimal,
        },
        subpass: SubpassDescription {
            color_attachment: AttachmentReference {
                attachment: 0,
                layout: ImageLayout::ColorAttachmentOptimal,
            },
            depth_stencil_attachment: AttachmentReference {
                attachment: 1,
                layout: ImageLayout::DepthStencilAttachmentOptimal,
            },
        },
        dependency: SubpassDependency {
            src_subpass: SubpassId::External,
            dst_subpass: SubpassId::Subpass(0),
            src_stage_mask: PipelineStage::ColorAttachmentOutput,
            dst_stage_mask: PipelineStage::ColorAttachmentOutput,
            src_access: AccessFlags { color_attachment_read: false, color_attachment_write: false },
            dst_access: AccessFlags { color_attachment_read: true, color_attachment_write: true },
        },
    }
}

/// One resolved target image: pixel format, dimensions and the native
/// view handle, as the dependency-graph resolver hands them over.
#[derive(Clone, Copy, Debug, PartialEq, Eq, Structural)]
pub struct ImageDesc {
    pub format: Format,
    pub width: u32,
    pub height: u32,
    pub view: u64,
}

/// A framebuffer description: one render pass's attachment slots bound
/// to concrete image views, at the active surface resolution.
#[derive(Clone, Debug, PartialEq, Eq)]
pub struct FramebufferDescription {
    pub renderpass: u64,
    pub attachments: Vec<u64>,
    pub width: u32,
    pub height: u32,
    pub layers: u32,
}

/// Builds the render-pass description for a draw over the given target
/// images: the color attachment takes the backend's presentation
/// format; the depth format and the barrier are fixed for this draw
/// path. The image list is taken as resolved by the dependency graph.
pub fn create_renderpass(
    _image_resources: &[ImageDesc],
    presentation_format: Format,
) -> (r: RenderPassDescription)
    ensures
        r == renderpass_description(presentation_format),
{
    RenderPassDescription {
        color_attachment: AttachmentDescription {
            format: presentation_format,
            samples: 1,
            load_op: LoadOp::Clear,
            store_op: StoreOp::Store,
            stencil_load_op: LoadOp::DontCare,
            stencil_store_op: StoreOp::DontCare,
            initial_layout: ImageLayout::Undefined,
            final_layout: ImageLayout::ColorAttachmentOptimal,
        },
        depth_attachment: AttachmentDescription {
            format: Format::D16Unorm,
            samples: 1,
            load_op: LoadOp::Clear,
            store_op: StoreOp::DontCare,
            stencil_load_op: LoadOp::DontCare,
            stencil_store_op: StoreOp::DontCare,
            initial_layout: ImageLayout::DepthStencilAttachmentOptimal,
            final_layout: ImageLayout::DepthStencilAttachmentOptimal,
        },
        subpass: SubpassDescription {
            color_attachment: AttachmentReference {
                attachment: 0,
                layout: ImageLayout::ColorAttachmentOptimal,
            },
            depth_stencil_attachment: AttachmentReference {
                attachment: 1,
                layout: ImageLayout::DepthStencilAttachmentOptimal,
            },
        },
        dependency: SubpassDependency {
            src_subpass: SubpassId::External,
            dst_subpass: SubpassId::Subpass(0),
            src_stage_mask: PipelineStage::ColorAttachmentOutput,
            dst_stage_mask: PipelineStage::ColorAttachmentOutput,
            src_access: AccessFlags { color_attachment_read: false, color_attachment_write: false },
            dst_access: AccessFlags { color_attachment_read: true, color_attachment_write: true },
        },
    }
}

/// Builds the framebuffer description binding the given render pass's
/// slots to the target images' view handles, in order, with one layer
/// at the given surface resolution.
pub fn create_framebuffer(
    image_resources: &[ImageDesc],
    renderpass: u64,
    surface_width: u32,
    surface_height: u32,
) -> (r: FramebufferDescription)
    ensures
        r.renderpass == renderpass,
        r.attachments@.len() == image_resources@.len(),
        forall|i: int|
            0 <= i < image_resources@.len() ==> r.attachments@[i] == (
            #[trigger] image_resources@[i]).view,
        r.width == surface_width,
        r.height == surface_height,
        r.layers == 1u32,
{
    let mut attachments: Vec<u64> = Vec::new();
    let mut i: usize = 0;
    while i < image_resources.len()
        invariant
            i <= image_resources@.len(),
            attachments@.len() == i as int,
            forall|j: int|
                0 <= j < i ==> attachments@[j] == (#[trigger] image_resources@[j]).view,
        decreases image_resources@.len() - i,
    {
        attachments.push(image_resources[i].view);
        i = i + 1;
    }
    FramebufferDescription {
        renderpass,
        attachments,
        width: surface_width,
        height: surface_height,
        layers: 1,
    }
}

/// The color clear a draw begins with.
#[derive(Clone, Copy, Debug, PartialEq, Eq, Structural)]
pub enum ClearColor {
    TransparentBlack,
}

/// The depth clear a draw begins with.
#[derive(Clone, Copy, Debug, PartialEq, Eq, Structural)]
pub enum ClearDepth {
    Farthest,
}

/// The clear values of one render-pass begin: a full transparent-black
/// color clear and a farthest-depth/zero-stencil clear.
#[derive(Clone, Copy, Debug, PartialEq, Eq, Structural)]
pub struct ClearValues {
    pub color: ClearColor,
    pub depth: ClearDepth,
    pub stencil: u32,
}

/// The clear values every draw of this path begins with.
pub open spec fn clear_values() -> ClearValues {
    ClearValues { color: ClearColor::TransparentBlack, depth: ClearDepth::Farthest, stencil: 0 }
}

/// One recorded command of a draw sequence.
#[derive(Clone, Copy, Debug, PartialEq, Eq, Structural)]
pub enum DrawCommand {
    BeginRenderPass { renderpass: u64, framebuffer: u64, width: u32, height: u32, clear: ClearValues },
    BindPipeline,
    SetViewport { width: u32, height: u32 },
    SetScissor { width: u32, height: u32 },
    BindVertexBuffer { binding: u32, buffer: u64, offset: u64 },
    BindIndexBuffer { buffer: u64, offset: u64, index_type: IndexType },
    DrawIndexed {
        index_count: u32,
        instance_count: u32,
        first_index: u32,
        vertex_offset: i32,
        first_instance: u32,
    },
    EndRenderPass,
}

/// One complete draw handed to the queue: the transient pipeline —
/// owned by this submission alone and destroyed once it is executed —
/// and the recorded command sequence. No semaphores are waited on or
/// signaled; synchronization with the rest of the frame is outside
/// this path.
#[derive(Clone, Debug, PartialEq, Eq)]
pub struct DrawSubmission {
    pub pipeline: PipelineDescription,
    pub commands: Vec<DrawCommand>,
    pub wait_semaphores: Vec<u64>,
    pub signal_semaphores: Vec<u64>,
}

/// The capability to accept recorded draw submissions, provided by a
/// backend's presentation queue.
pub trait SubmitApi: Sized {
    /// Every submission this queue has accepted, in order.
    open spec fn submitted(&self) -> Seq<DrawSubmission> {
        vstd::pervasive::arbitrary()
    }

    /// Accepts one recorded command sequence. The call returns once the
    /// backend has accepted — not necessarily executed — the work.
    fn submit(&mut self, submission: DrawSubmission)
        ensures
            final(self).submitted() == old(self).submitted().push(submission),
    ;
}

/// The capability to create native render passes and framebuffers,
/// provided by a backend context.
pub trait CreateRender: Sized {
    /// A stable identity distinguishing this backend's handles from
    /// another backend's.
    open spec fn id(&self) -> u64 {
        vstd::pervasive::arbitrary()
    }

    /// The backend identity tag, as executable code observes it.
    fn backend_id(&self) -> (r: u64)
        ensures
            r == self.id(),
    ;

    /// The active surface resolution, `(width, height)`.
    open spec fn resolution(&self) -> (u32, u32) {
        vstd::pervasive::arbitrary()
    }

    /// The active surface resolution, as executable code observes it.
    fn surface_resolution(&self) -> (r: (u32, u32))
        ensures
            r == self.resolution(),
    ;

    /// The pixel format the surface presents in.
    open spec fn presentation_format(&self) -> Format {
        vstd::pervasive::arbitrary()
    }

    /// The presentation format, as executable code observes it.
    fn surface_format(&self) -> (r: Format)
        ensures
            r == self.presentation_format(),
    ;

    /// Creates a native render pass from its description; fails with
    /// an allocation error when the backend refuses.
    fn create_renderpass(&self, desc: &RenderPassDescription) -> (r: Result<u64, AllocationError>);

    /// Creates a native framebuffer from its description; fails with
    /// an allocation error when the backend refuses.
    fn create_framebuffer(&self, desc: &FramebufferDescription) -> (r: Result<
        u64,
        AllocationError,
    >);
}

/// A render target: the retained render pass and framebuffer for one
/// set of target images, tagged with the backend that created them.
/// Draws through it build and submit one transient pipeline each.
pub struct Render {
    backend_id: u64,
    renderpass: u64,
    framebuffer: u64,
    surface_width: u32,
    surface_height: u32,
}

impl Render {
    /// The identity of the backend whose handles this target holds.
    pub closed spec fn spec_backend_id(&self) -> u64 {
        self.backend_id
    }

    /// The retained native render-pass handle.
    pub closed spec fn spec_renderpass(&self) -> u64 {
        self.renderpass
    }

    /// The retained native framebuffer handle.
    pub closed spec fn spec_framebuffer(&self) -> u64 {
        self.framebuffer
    }

    /// The surface width this target was created at.
    pub closed spec fn spec_surface_width(&self) -> u32 {
        self.surface_width
    }

    /// The surface height this target was created at.
    pub closed spec fn spec_surface_height(&self) -> u32 {
        self.surface_height
    }
}

/// The validation a draw performs before it records anything: both
/// buffers must come from the drawing backend, both shader stages must
/// be present, and every vertex attribute must have a supported width.
/// The first failing check names the error.
pub open spec fn draw_validate(
    render: Render,
    state: PipelineState,
    vertex_layout: Seq<VertexInputData>,
    vertex_buffer: GenericBuffer,
    index_buffer: GenericBuffer,
) -> Result<(), RenderError> {
    if vertex_buffer.backend_id != render.spec_backend_id() {
        Err(RenderError::BackendMismatch)
    } else if index_buffer.backend_id != render.spec_backend_id() {
        Err(RenderError::BackendMismatch)
    } else if state.vertex_shader is None {
        Err(RenderError::MissingVertexShader)
    } else if state.fragment_shader is None {
        Err(RenderError::MissingFragmentShader)
    } else if exists|i: int|
        0 <= i < vertex_layout.len() && spec_vertex_format(
            (#[trigger] vertex_layout[i]).vertex_type,
        ) is None {
        Err(RenderError::UnsupportedVertexWidth)
    } else {
        Ok(())
    }
}

/// The exact command sequence one draw records: begin the render pass
/// over the full surface with the fixed clears, bind the pipeline, set
/// viewport and scissor to the full surface, bind the vertex buffer at
/// binding zero offset zero, bind the index buffer with 32-bit
/// indices, issue one indexed draw of `len` indices and one instance
/// with zero offsets, and end the render pass.
pub open spec fn draw_commands(
    render: Render,
    vertex_buffer: GenericBuffer,
    index_buffer: GenericBuffer,
    len: u32,
) -> Seq<DrawCommand> {
    seq![
        DrawCommand::BeginRenderPass {
            renderpass: render.spec_renderpass(),
            framebuffer: render.spec_framebuffer(),
            width: render.spec_surface_width(),
            height: render.spec_surface_height(),
            clear: clear_values(),
        },
        DrawCommand::BindPipeline,
        DrawCommand::SetViewport {
            width: render.spec_surface_width(),
            height: render.spec_surface_height(),
        },
        DrawCommand::SetScissor {
            width: render.spec_surface_width(),
            height: render.spec_surface_height(),
        },
        DrawCommand::BindVertexBuffer { binding: 0, buffer: vertex_buffer.buffer, offset: 0 },
        DrawCommand::BindIndexBuffer {
            buffer: index_buffer.buffer,
            offset: 0,
            index_type: IndexType::U32,
        },
        DrawCommand::DrawIndexed {
            index_count: len,
            instance_count: 1,
            first_index: 0,
            vertex_offset: 0,
            first_instance: 0,
        },
        DrawCommand::EndRenderPass,
    ]
}

/// Whether `sub` is exactly the submission one draw produces: the
/// transient pipeline for the given stages and vertex input, the
/// recorded command sequence, and no semaphores either way.
pub open spec fn is_draw_submission(
    sub: DrawSubmission,
    render: Render,
    vertex_shader: ShaderModule,
    fragment_shader: ShaderModule,
    stride: u32,
    vertex_layout: Seq<VertexInputData>,
    vertex_buffer: GenericBuffer,
    index_buffer: GenericBuffer,
    len: u32,
) -> bool {
    &&& pipeline_description_matches(
        sub.pipeline,
        vertex_shader,
        fragment_shader,
        stride,
        sub.pipeline.attributes@,
    )
    &&& sub.pipeline.attributes@.len() == vertex_layout.len()
    &&& forall|i: int|
        0 <= i < vertex_layout.len() ==> is_attribute_of(
            #[trigger] sub.pipeline.attributes@[i],
            vertex_layout[i],
        )
    &&& sub.commands@ == draw_commands(render, vertex_buffer, index_buffer, len)
    &&& sub.wait_semaphores@ == Seq::<u64>::empty()
    &&& sub.signal_semaphores@ == Seq::<u64>::empty()
}

impl Render {
    /// Records and submits one indexed draw. Validation happens before
    /// anything reaches the queue: a handle from a foreign backend, a
    /// missing shader stage or an unsupported vertex width fails the
    /// draw with nothing submitted. On success exactly one submission
    /// is handed to the queue, holding the transient pipeline and the
    /// recorded command sequence.
    pub fn draw_indexed<Q: SubmitApi>(
        &self,
        queue: &mut Q,
        state: &PipelineState,
        stride: u32,
        vertex_layout: &[VertexInputData],
        vertex_buffer: &GenericBuffer,
        index_buffer: &GenericBuffer,
        len: u32,
    ) -> (r: Result<(), RenderError>)
        ensures
            r == draw_validate(*self, *state, vertex_layout@, *vertex_buffer, *index_buffer),
            r is Err ==> final(queue).submitted() == old(queue).submitted(),
            r is Ok ==> final(queue).submitted().len() == old(queue).submitted().len() + 1
                && final(queue).submitted() == old(queue).submitted().push(
                final(queue).submitted().last(),
            ) && (state.vertex_shader matches Some(vs) && (state.fragment_shader matches Some(fs)
                && is_draw_submission(
                final(queue).submitted().last(),
                *self,
                vs,
                fs,
                stride,
                vertex_layout@,
                *vertex_buffer,
                *index_buffer,
                len,
            ))),
    {
        if vertex_buffer.backend_id != self.backend_id {
            return Err(RenderError::BackendMismatch);
        }
        if index_buffer.backend_id != self.backend_id {
            return Err(RenderError::BackendMismatch);
        }
        let vertex_shader = match &state.vertex_shader {
            Some(v) => *v,
            None => {
                return Err(RenderError::MissingVertexShader);
            },
        };
        let fragment_shader = match &state.fragment_shader {
            Some(f) => *f,
            None => {
                return Err(RenderError::MissingFragmentShader);
            },
        };
        let attributes = match vertex_input(vertex_layout) {
            Ok(a) => a,
            Err(e) => {
                return Err(e);
            },
        };
        let pipeline = create_pipeline(vertex_shader, fragment_shader, stride, attributes);
        let mut commands: Vec<DrawCommand> = Vec::new();
        commands.push(
            DrawCommand::BeginRenderPass {
                renderpass: self.renderpass,
                framebuffer: self.framebuffer,
                width: self.surface_width,
                height: self.surface_height,
                clear: ClearValues {
                    color: ClearColor::TransparentBlack,
                    depth: ClearDepth::Farthest,
                    stencil: 0,
                },
            },
        );
        commands.push(DrawCommand::BindPipeline);
        commands.push(
            DrawCommand::SetViewport { width: self.surface_width, height: self.surface_height },
        );
        commands.push(
            DrawCommand::SetScissor { width: self.surface_width, height: self.surface_height },
        );
        commands.push(
            DrawCommand::BindVertexBuffer { binding: 0, buffer: vertex_buffer.buffer, offset: 0 },
        );
        commands.push(
            DrawCommand::BindIndexBuffer {
                buffer: index_buffer.buffer,
                offset: 0,
                index_type: IndexType::U32,
            },
        );
        commands.push(
            DrawCommand::DrawIndexed {
                index_count: len,
                instance_count: 1,
                first_index: 0,
                vertex_offset: 0,
                first_instance: 0,
            },
        );
        commands.push(DrawCommand::EndRenderPass);
        proof {
            assert(commands@ =~= draw_commands(*self, *vertex_buffer, *index_buffer, len));
        }
        let submission = DrawSubmission {
            pipeline,
            commands,
            wait_semaphores: Vec::new(),
            signal_semaphores: Vec::new(),
        };
        queue.submit(submission);
        Ok(())
    }
}

/// Assembles a render target from the backend's identity, the two
/// handles the backend returned, and the surface resolution: each
/// value lands in the retained field of the same name.
pub fn assemble_render(
    backend_id: u64,
    renderpass: u64,
    framebuffer: u64,
    surface_width: u32,
    surface_height: u32,
) -> (r: Render)
    ensures
        r.spec_backend_id() == backend_id,
        r.spec_renderpass() == renderpass,
        r.spec_framebuffer() == framebuffer,
        r.spec_surface_width() == surface_width,
        r.spec_surface_height() == surface_height,
{
    Render { backend_id, renderpass, framebuffer, surface_width, surface_height }
}

/// Builds a render target for one resolved set of images: the render
/// pass in the backend's presentation format, then a framebuffer
/// binding the image views to that pass at the backend's surface
/// resolution. The returned handles and the resolution are retained
/// on the target; either creation failure is surfaced unchanged.
pub fn create_render<C: CreateRender>(ctx: &C, images: &[ImageDesc]) -> (r: Result<
    Render,
    AllocationError,
>)
    ensures
        r matches Ok(render) ==> render.spec_backend_id() == ctx.id() && render.spec_surface_width()
            == ctx.resolution().0 && render.spec_surface_height() == ctx.resolution().1,
{
    let presentation_format = ctx.surface_format();
    let renderpass_desc = create_renderpass(images, presentation_format);
    let renderpass = match ctx.create_renderpass(&renderpass_desc) {
        Ok(h) => h,
        Err(e) => {
            return Err(e);
        },
    };
    let (surface_width, surface_height) = ctx.surface_resolution();
    let framebuffer_desc = create_framebuffer(images, renderpass, surface_width, surface_height);
    let framebuffer = match ctx.create_framebuffer(&framebuffer_desc) {
        Ok(h) => h,
        Err(e) => {
            return Err(e);
        },
    };
    Ok(assemble_render(ctx.backend_id(), renderpass, framebuffer, surface_width, surface_height))
}

} // verus!

