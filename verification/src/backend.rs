//! Trusted bindings to the GPU backend, the OS channel primitives, and the
//! payload types that ride through the event vocabulary.
//!
//! Everything in this module is believed, not verified: the type
//! declarations make outside types nameable, and each wrapper's body holds
//! one outside call, or one value-for-value conversion, and nothing else.
//! A `requires` keeps out the inputs on which the outside call is
//! documented to reject or panic; beyond that, nothing is claimed of what
//! the backend does.

use vstd::prelude::*;
use wgpu::util::DeviceExt;

verus! {

// ---------------------------------------------------------------------------
// GPU backend types.
// ---------------------------------------------------------------------------

#[verifier::external_type_specification]
#[verifier::external_body]
pub struct ExDevice(wgpu::Device);

#[verifier::external_type_specification]
#[verifier::external_body]
pub struct ExQueue(wgpu::Queue);

#[verifier::external_type_specification]
#[verifier::external_body]
pub struct ExSurface<'window>(wgpu::Surface<'window>);

#[verifier::external_type_specification]
#[verifier::external_body]
pub struct ExTextureFormat(wgpu::TextureFormat);

#[verifier::external_type_specification]
#[verifier::external_body]
pub struct ExCompositeAlphaMode(wgpu::CompositeAlphaMode);

#[verifier::external_type_specification]
#[verifier::external_body]
pub struct ExCreateSurfaceError(wgpu::CreateSurfaceError);

#[verifier::external_type_specification]
#[verifier::external_body]
pub struct ExRequestDeviceError(wgpu::RequestDeviceError);

// ---------------------------------------------------------------------------
// GPU backend calls.
// ---------------------------------------------------------------------------

/// Relies on wgpu::Surface::configure: applies the given configuration to
/// the presentable surface, in place, for presentation through `device`.
/// The call panics on a zero-area configuration, so only a well-formed one
/// may be handed over.
#[verifier::external_body]
pub(crate) fn configure_surface(
    surface: &wgpu::Surface<'_>,
    device: &wgpu::Device,
    s: &crate::gpu::SurfaceState,
)
    requires
        s.wf(),
{
    surface.configure(device, &wgpu::SurfaceConfiguration {
        usage: wgpu::TextureUsages::from_bits_truncate(s.usage_bits),
        format: s.format.raw,
        width: s.width,
        height: s.height,
        present_mode: match s.present {
            crate::gpu::PresentPolicy::Vsync => wgpu::PresentMode::AutoVsync,
            crate::gpu::PresentPolicy::NoVsync => wgpu::PresentMode::AutoNoVsync,
        },
        alpha_mode: s.alpha_mode,
        view_formats: Vec::new(),
        desired_maximum_frame_latency: s.frame_latency,
    });
}

#[verifier::external_type_specification]
#[verifier::external_body]
pub struct ExShaderModule(wgpu::ShaderModule);

#[verifier::external_type_specification]
#[verifier::external_body]
pub struct ExPipelineLayout(wgpu::PipelineLayout);

#[verifier::external_type_specification]
#[verifier::external_body]
pub struct ExBindGroupLayout(wgpu::BindGroupLayout);

#[verifier::external_type_specification]
#[verifier::external_body]
pub struct ExBuffer(wgpu::Buffer);

#[verifier::external_type_specification]
#[verifier::external_body]
pub struct ExRenderPipeline(wgpu::RenderPipeline);

#[verifier::external_type_specification]
#[verifier::external_body]
pub struct ExComputePipeline(wgpu::ComputePipeline);

#[verifier::external_type_specification]
#[verifier::external_body]
pub struct ExVertexBufferLayout<'a>(wgpu::VertexBufferLayout<'a>);

#[verifier::external_type_specification]
#[verifier::external_body]
pub struct ExPushConstantRange(wgpu::PushConstantRange);

#[verifier::external_type_specification]
#[verifier::external_body]
pub struct ExColor(wgpu::Color);

#[verifier::external_type_specification]
#[verifier::external_body]
pub struct ExPrimitiveTopology(wgpu::PrimitiveTopology);

#[verifier::external_type_specification]
#[verifier::external_body]
pub struct ExIndexFormat(wgpu::IndexFormat);

#[verifier::external_type_specification]
#[verifier::external_body]
pub struct ExFrontFace(wgpu::FrontFace);

#[verifier::external_type_specification]
#[verifier::external_body]
pub struct ExFace(wgpu::Face);

#[verifier::external_type_specification]
#[verifier::external_body]
pub struct ExPolygonMode(wgpu::PolygonMode);

#[verifier::external_type_specification]
#[verifier::external_body]
pub struct ExCompareFunction(wgpu::CompareFunction);

#[verifier::external_type_specification]
#[verifier::external_body]
pub struct ExPrimitiveState(wgpu::PrimitiveState);

#[verifier::external_type_specification]
#[verifier::external_body]
pub struct ExDepthStencilState(wgpu::DepthStencilState);

#[verifier::external_type_specification]
#[verifier::external_body]
pub struct ExMultisampleState(wgpu::MultisampleState);

#[verifier::external_type_specification]
#[verifier::external_body]
pub struct ExColorTargetState(wgpu::ColorTargetState);

// ---------------------------------------------------------------------------
// Conversions from the library's plain configuration values to the
// backend's types, one value for one value.
// ---------------------------------------------------------------------------

/// Converts a topology to `wgpu::PrimitiveTopology`.
#[verifier::external_body]
pub(crate) fn to_wgpu_topology(t: crate::rendering::Topology) -> wgpu::PrimitiveTopology {
    match t {
        crate::rendering::Topology::PointList => wgpu::PrimitiveTopology::PointList,
        crate::rendering::Topology::LineList => wgpu::PrimitiveTopology::LineList,
        crate::rendering::Topology::LineStrip => wgpu::PrimitiveTopology::LineStrip,
        crate::rendering::Topology::TriangleList => wgpu::PrimitiveTopology::TriangleList,
        crate::rendering::Topology::TriangleStrip => wgpu::PrimitiveTopology::TriangleStrip,
    }
}

/// Converts an index width to `wgpu::IndexFormat`.
#[verifier::external_body]
pub(crate) fn to_wgpu_index_format(k: crate::rendering::IndexKind) -> wgpu::IndexFormat {
    match k {
        crate::rendering::IndexKind::U16 => wgpu::IndexFormat::Uint16,
        crate::rendering::IndexKind::U32 => wgpu::IndexFormat::Uint32,
    }
}

/// Converts a winding order to `wgpu::FrontFace`.
#[verifier::external_body]
pub(crate) fn to_wgpu_front_face(w: crate::rendering::WindingOrder) -> wgpu::FrontFace {
    match w {
        crate::rendering::WindingOrder::CounterClockwise => wgpu::FrontFace::Ccw,
        crate::rendering::WindingOrder::Clockwise => wgpu::FrontFace::Cw,
    }
}

/// Converts a cullable face to `wgpu::Face`.
#[verifier::external_body]
pub(crate) fn to_wgpu_face(c: crate::rendering::CullFace) -> wgpu::Face {
    match c {
        crate::rendering::CullFace::Front => wgpu::Face::Front,
        crate::rendering::CullFace::Back => wgpu::Face::Back,
    }
}

/// Converts a polygon mode to `wgpu::PolygonMode`.
#[verifier::external_body]
pub(crate) fn to_wgpu_polygon_mode(p: crate::rendering::PolygonFill) -> wgpu::PolygonMode {
    match p {
        crate::rendering::PolygonFill::Fill => wgpu::PolygonMode::Fill,
        crate::rendering::PolygonFill::Line => wgpu::PolygonMode::Line,
        crate::rendering::PolygonFill::Point => wgpu::PolygonMode::Point,
    }
}

/// Converts a depth comparison to `wgpu::CompareFunction`.
#[verifier::external_body]
pub(crate) fn to_wgpu_compare(c: crate::rendering::DepthCompare) -> wgpu::CompareFunction {
    match c {
        crate::rendering::DepthCompare::Never => wgpu::CompareFunction::Never,
        crate::rendering::DepthCompare::Less => wgpu::CompareFunction::Less,
        crate::rendering::DepthCompare::Equal => wgpu::CompareFunction::Equal,
        crate::rendering::DepthCompare::LessEqual => wgpu::CompareFunction::LessEqual,
        crate::rendering::DepthCompare::Greater => wgpu::CompareFunction::Greater,
        crate::rendering::DepthCompare::NotEqual => wgpu::CompareFunction::NotEqual,
        crate::rendering::DepthCompare::GreaterEqual => wgpu::CompareFunction::GreaterEqual,
        crate::rendering::DepthCompare::Always => wgpu::CompareFunction::Always,
    }
}

/// Converts a depth format to `wgpu::TextureFormat`.
#[verifier::external_body]
pub(crate) fn to_wgpu_depth_format(f: crate::rendering::DepthFormat) -> wgpu::TextureFormat {
    match f {
        crate::rendering::DepthFormat::Depth32Float => wgpu::TextureFormat::Depth32Float,
    }
}

/// Assembles a `wgpu::PrimitiveState` from already-converted parts.
#[verifier::external_body]
pub(crate) fn make_primitive_state(
    topology: wgpu::PrimitiveTopology,
    strip_index_format: Option<wgpu::IndexFormat>,
    front_face: wgpu::FrontFace,
    cull_mode: Option<wgpu::Face>,
    unclipped_depth: bool,
    polygon_mode: wgpu::PolygonMode,
    conservative: bool,
) -> wgpu::PrimitiveState {
    wgpu::PrimitiveState {
        topology,
        strip_index_format,
        front_face,
        cull_mode,
        unclipped_depth,
        polygon_mode,
        conservative,
    }
}

/// Assembles a `wgpu::DepthStencilState` from already-converted parts,
/// with the backend's default stencil and bias state.
#[verifier::external_body]
pub(crate) fn make_depth_state(
    format: wgpu::TextureFormat,
    depth_write_enabled: bool,
    depth_compare: wgpu::CompareFunction,
) -> wgpu::DepthStencilState {
    wgpu::DepthStencilState {
        format,
        depth_write_enabled,
        depth_compare,
        stencil: wgpu::StencilState::default(),
        bias: wgpu::DepthBiasState::default(),
    }
}

/// Assembles a `wgpu::MultisampleState`.
#[verifier::external_body]
pub(crate) fn make_multisample_state(
    count: u32,
    mask: u64,
    alpha_to_coverage_enabled: bool,
) -> wgpu::MultisampleState {
    wgpu::MultisampleState { count, mask, alpha_to_coverage_enabled }
}

/// Converts a color target to `wgpu::ColorTargetState`.
#[verifier::external_body]
pub(crate) fn to_wgpu_color_target(
    t: &crate::rendering::ColorTargetConfig,
) -> Option<wgpu::ColorTargetState> {
    Some(wgpu::ColorTargetState {
        format: t.format.raw,
        blend: match t.blend {
            crate::rendering::BlendSetting::Replace => Some(wgpu::BlendState::REPLACE),
            crate::rendering::BlendSetting::Disabled => None,
        },
        write_mask: wgpu::ColorWrites::from_bits_truncate(t.write_mask_bits),
    })
}

// ---------------------------------------------------------------------------
// GPU resource construction.
// ---------------------------------------------------------------------------

/// Relies on wgpu::Device::create_buffer: creates a buffer as the
/// configuration describes.  The backend rejects, fatally under its
/// default error handling, a usage set that is empty once truncated to
/// the known `wgpu::BufferUsages` bits, and a buffer mapped at creation
/// whose size is not a multiple of four bytes; both are kept out here.
/// A size beyond the device's buffer limit, or map usages without the
/// mappable-primary-buffers feature, are rejected the same way, but
/// depend on the opaque device and cannot be excluded over plain values.
#[verifier::external_body]
pub(crate) fn create_buffer_raw(
    device: &wgpu::Device,
    cfg: &crate::BufferConfig,
) -> wgpu::Buffer
    requires
        cfg.usage_bits & crate::BUFFER_USAGES_ALL_BITS != 0,
        cfg.mapped_at_creation ==> cfg.size % 4 == 0,
{
    device.create_buffer(&wgpu::BufferDescriptor {
        label: Some(cfg.label.as_str()),
        size: cfg.size,
        usage: wgpu::BufferUsages::from_bits_truncate(cfg.usage_bits),
        mapped_at_creation: cfg.mapped_at_creation,
    })
}

/// Relies on wgpu::util::DeviceExt::create_buffer_init: creates a buffer
/// holding the given starting contents; the call pads the size to the
/// backend's copy alignment itself.  As for `create_buffer_raw`, a usage
/// set that truncates to empty is rejected fatally and is kept out here;
/// device-dependent rejections cannot be.
#[verifier::external_body]
pub(crate) fn create_buffer_init_raw(
    device: &wgpu::Device,
    cfg: &crate::BufferInitConfig,
) -> wgpu::Buffer
    requires
        cfg.usage_bits & crate::BUFFER_USAGES_ALL_BITS != 0,
{
    device.create_buffer_init(&wgpu::util::BufferInitDescriptor {
        label: Some(cfg.label.as_str()),
        contents: cfg.contents.as_slice(),
        usage: wgpu::BufferUsages::from_bits_truncate(cfg.usage_bits),
    })
}

/// Relies on wgpu::Device::create_pipeline_layout: creates the pipeline
/// layout with the given bind-group layouts and push-constant ranges.  The
/// backend rejects, fatally under its default error handling, a range
/// whose start or end is not four-byte aligned, and two ranges whose
/// shader-stage sets intersect: each stage may be served by at most one
/// range.  Both are kept out here.  Any non-empty set of ranges further
/// needs the device's push-constants feature, and each range's end must
/// fit the device's push-constant size limit; those rejections are just
/// as fatal but depend on the opaque device and cannot be excluded over
/// plain values.
#[verifier::external_body]
pub(crate) fn create_pipeline_layout_raw(
    device: &wgpu::Device,
    label: &str,
    bind_group_layouts: &Vec<&wgpu::BindGroupLayout>,
    push_constants: &Vec<crate::rendering::PushConstantConfig>,
) -> wgpu::PipelineLayout
    requires
        forall|i: int| 0 <= i < push_constants@.len() ==> (#[trigger] push_constants@[i]).start % 4
            == 0 && push_constants@[i].end % 4 == 0,
        forall|i: int, j: int| 0 <= i < j < push_constants@.len() ==> ((
        #[trigger] push_constants@[i]).stages_bits & (#[trigger] push_constants@[j]).stages_bits)
            == 0,
{
    let ranges: Vec<wgpu::PushConstantRange> = push_constants.iter().map(|c|
        wgpu::PushConstantRange {
            stages: wgpu::ShaderStages::from_bits_truncate(c.stages_bits),
            range: c.start..c.end,
        }).collect();
    device.create_pipeline_layout(&wgpu::PipelineLayoutDescriptor { label: Some(label),
        bind_group_layouts: bind_group_layouts.as_slice(), push_constant_ranges: ranges.as_slice() })
}

/// Relies on wgpu::Device::create_render_pipeline: creates a render
/// pipeline exactly as the already-converted parts describe.
#[verifier::external_body]
pub(crate) fn create_render_pipeline_raw<'a>(
    device: &wgpu::Device,
    name: &str,
    layout: &wgpu::PipelineLayout,
    vertex: &wgpu::ShaderModule,
    vertex_entry_point: &str,
    vertex_buffers: &'a Vec<wgpu::VertexBufferLayout<'a>>,
    fragment_module: Option<&wgpu::ShaderModule>,
    fragment_entry_point: Option<&str>,
    fragment_targets: &Vec<Option<wgpu::ColorTargetState>>,
    primitive: wgpu::PrimitiveState,
    depth_stencil: wgpu::DepthStencilState,
    multisample: wgpu::MultisampleState,
) -> wgpu::RenderPipeline {
    let vertex = wgpu::VertexState { module: vertex, entry_point: Some(vertex_entry_point),
        compilation_options: Default::default(), buffers: vertex_buffers.as_slice() };
    let fragment = fragment_module.map(|module| wgpu::FragmentState { module,
        entry_point: fragment_entry_point, compilation_options: Default::default(),
        targets: fragment_targets.as_slice() });
    device.create_render_pipeline(&wgpu::RenderPipelineDescriptor { label: Some(name),
        layout: Some(layout), vertex, fragment, primitive, depth_stencil: Some(depth_stencil),
        multisample, multiview: None, cache: None })
}

/// Relies on wgpu::Device::create_compute_pipeline: creates a compute
/// pipeline with the given layout, module and entry point.
#[verifier::external_body]
pub(crate) fn create_compute_pipeline_raw(
    device: &wgpu::Device,
    name: &str,
    layout: &wgpu::PipelineLayout,
    module: &wgpu::ShaderModule,
    entry_point: &str,
) -> wgpu::ComputePipeline {
    device.create_compute_pipeline(&wgpu::ComputePipelineDescriptor {
        label: Some(name),
        layout: Some(layout),
        module,
        entry_point: Some(entry_point),
        compilation_options: Default::default(),
        cache: None,
    })
}

// ---------------------------------------------------------------------------
// Cross-thread message channels.
// ---------------------------------------------------------------------------

#[verifier::external_type_specification]
#[verifier::external_body]
#[verifier::reject_recursive_types(T)]
pub struct ExReceiver<T>(std::sync::mpsc::Receiver<T>);

#[verifier::external_type_specification]
#[verifier::external_body]
#[verifier::reject_recursive_types(T)]
pub struct ExSender<T>(std::sync::mpsc::Sender<T>);

/// Relies on std::sync::mpsc::channel: the two halves of a fresh ordered,
/// unbounded, one-directional message queue.
#[verifier::external_body]
pub(crate) fn create_channel<T>() -> (std::sync::mpsc::Sender<T>, std::sync::mpsc::Receiver<T>) {
    std::sync::mpsc::channel()
}

/// Relies on std::sync::mpsc::Receiver::recv: blocks until a message arrives
/// or every sender is gone; `None` stands for a disconnected channel.
#[verifier::external_body]
pub(crate) fn recv_message<T>(rx: &std::sync::mpsc::Receiver<T>) -> (r: Option<T>) {
    rx.recv().ok()
}

/// Relies on std::sync::mpsc::Sender::send: queues the message in send
/// order; `false` means the receiving half is gone.
#[verifier::external_body]
pub(crate) fn send_message<T>(tx: &std::sync::mpsc::Sender<T>, msg: T) -> (r: bool) {
    tx.send(msg).is_ok()
}

} // verus!
