//! A rendering-engine shim: it owns a single GPU connection and window,
//! hands out opaque handles to GPU resources, and drives a per-frame
//! protocol that hands control between the OS event thread and a long-lived
//! user-logic thread exactly once per frame.
//!
//! The heart of the crate is [`bridge`], the cross-thread synchronization
//! core, together with the handle-based [`registry`] it serves.  Around them
//! stand the [`gpu`] connection state and the [`rendering`] pipeline
//! builder.  Window construction, logger bootstrap and the OS event pump are
//! external collaborators and stay outside the library.

use vstd::prelude::*;

mod backend;
pub mod bridge;
pub mod gpu;
pub mod registry;
pub mod rendering;

use backend::create_buffer_init_raw;
use backend::create_buffer_raw;
use backend::create_compute_pipeline_raw;
use backend::create_pipeline_layout_raw;
use backend::create_render_pipeline_raw;
use backend::make_depth_state;
use backend::make_multisample_state;
use backend::make_primitive_state;
use backend::to_wgpu_color_target;
use backend::to_wgpu_compare;
use backend::to_wgpu_depth_format;
use backend::to_wgpu_face;
use backend::to_wgpu_front_face;
use backend::to_wgpu_index_format;
use backend::to_wgpu_polygon_mode;
use backend::to_wgpu_topology;
use gpu::GpuConnection;
use gpu::SurfaceSizeError;
use gpu::SurfaceState;
use registry::resolves_to;
use registry::ResourceRegistry;
use rendering::PushConstantConfig;
use rendering::ResolvedComputePipeline;
use rendering::ResolvedRenderPipeline;
use rendering::SimpleComputePipelineDescriptor;
use rendering::SimpleRenderPipelineDescriptor;

verus! {

// ---------------------------------------------------------------------------
// The event vocabulary.
// ---------------------------------------------------------------------------

/// The OS-supplied payload types that ride through the event vocabulary.
///
/// The engine forwards these values without reading them, so they stay
/// abstract: the embedding supplies the windowing layer's own types.
pub trait EventPayloads {
    /// Identifies the input device an event came from.
    type DeviceId: Copy;

    /// A keyboard event's full payload.
    type KeyEvent;

    /// The state of the keyboard modifiers.
    type Modifiers;

    /// A composed text-input event.
    type Ime;

    /// The amount a mouse wheel or touchpad scrolled.
    type ScrollDelta;

    /// A touch-screen event's full payload.
    type Touch;

    /// A path to a file dropped on or hovered over the window.
    type FilePath;

    /// The OS handle through which a scale-factor handler may adjust the
    /// window's inner size.
    type SizeWriter;
}

/// A cursor position in physical window coordinates, held as the raw bits
/// of the two coordinates.  The engine stores and copies positions; it
/// never does arithmetic on them.
#[derive(Clone, Copy, PartialEq, Eq, Debug, Structural)]
pub struct CursorPosition {
    /// Bit pattern of the horizontal coordinate.
    pub x_bits: u64,
    /// Bit pattern of the vertical coordinate.
    pub y_bits: u64,
}

impl CursorPosition {
    /// The position tracked before any cursor event arrived: the origin.
    pub fn origin() -> (r: CursorPosition)
        ensures
            r == (CursorPosition { x_bits: 0, y_bits: 0 }),
    {
        CursorPosition { x_bits: 0, y_bits: 0 }
    }
}

/// An analog axis reading, held as the raw bits of the value.
#[derive(Clone, Copy, PartialEq, Eq, Debug, Structural)]
pub struct AxisValue {
    /// Bit pattern of the reading.
    pub bits: u64,
}

/// A window scale factor, held as the raw bits of the value.
#[derive(Clone, Copy, PartialEq, Eq, Debug, Structural)]
pub struct ScaleFactor {
    /// Bit pattern of the factor.
    pub bits: u64,
}

/// Whether a key or button went down or up.
#[derive(Clone, Copy, PartialEq, Eq, Debug, Structural)]
pub enum ButtonState {
    /// The key or button was pressed.
    Pressed,
    /// The key or button was released.
    Released,
}

/// A mouse button.
#[derive(Clone, Copy, PartialEq, Eq, Debug, Structural)]
pub enum MouseButton {
    /// The left button.
    Left,
    /// The right button.
    Right,
    /// The middle button.
    Middle,
    /// The back navigation button.
    Back,
    /// The forward navigation button.
    Forward,
    /// Any other button, by number.
    Other(u16),
}

/// Which phase of a touch or scroll gesture an event reports.
#[derive(Clone, Copy, PartialEq, Eq, Debug, Structural)]
pub enum TouchPhase {
    /// The gesture began.
    Started,
    /// The gesture moved.
    Moved,
    /// The gesture ended.
    Ended,
    /// The gesture was cancelled.
    Cancelled,
}

/// The engine's own event vocabulary: every window event the OS layer
/// reports, translated 1:1, plus one synthetic member,
/// [`WindowEvent::RequestRenderData`], injected by the dispatcher itself
/// and never originating from the OS.
pub enum WindowEvent<V: EventPayloads> {
    /// The window was resized to the given client dimensions.
    Resized {
        /// New client width in pixels.
        width: u32,
        /// New client height in pixels.
        height: u32,
    },
    /// The window moved to the given coordinates.
    Moved {
        /// New horizontal position.
        x: i32,
        /// New vertical position.
        y: i32,
    },
    /// The window is trying to close.
    CloseRequested,
    /// The window was destroyed.
    Destroyed,
    /// A hovered file was dropped on the window.
    DroppedFile(V::FilePath),
    /// A file is hovered over the window; raised once per file.
    HoveredFile(V::FilePath),
    /// A file hover was cancelled; raised once regardless of file count.
    HoveredFileCancelled,
    /// The window gained or lost focus.
    Focused(bool),
    /// A key was pressed.
    KeyboardDown {
        /// The keyboard the event came from.
        device_id: V::DeviceId,
        /// The key event's payload.
        event: V::KeyEvent,
        /// Whether the event was synthesized by the OS.
        is_synthetic: bool,
    },
    /// A key was released.
    KeyboardUp {
        /// The keyboard the event came from.
        device_id: V::DeviceId,
        /// The key event's payload.
        event: V::KeyEvent,
        /// Whether the event was synthesized by the OS.
        is_synthetic: bool,
    },
    /// The keyboard modifiers changed.
    ModifiersChanged(V::Modifiers),
    /// A character was composed through an input method.
    Ime(V::Ime),
    /// The cursor moved inside the window.
    CursorMoved {
        /// The pointer the event came from.
        device_id: V::DeviceId,
        /// The new cursor position.
        position: CursorPosition,
    },
    /// The cursor entered the window's bounds.
    CursorEntered {
        /// The pointer the event came from.
        device_id: V::DeviceId,
    },
    /// The cursor left the window's bounds.
    CursorLeft {
        /// The pointer the event came from.
        device_id: V::DeviceId,
    },
    /// A mouse wheel or touchpad scroll occurred.
    MouseWheel {
        /// The pointer the event came from.
        device_id: V::DeviceId,
        /// How far the wheel scrolled.
        delta: V::ScrollDelta,
        /// Which phase of the gesture this is.
        phase: TouchPhase,
    },
    /// A mouse button was pressed.
    MouseDown {
        /// The pointer the event came from.
        device_id: V::DeviceId,
        /// The button's new state.
        state: ButtonState,
        /// Which button changed.
        button: MouseButton,
    },
    /// A mouse button was released.
    MouseUp {
        /// The pointer the event came from.
        device_id: V::DeviceId,
        /// The button's new state.
        state: ButtonState,
        /// Which button changed.
        button: MouseButton,
    },
    /// An analog control device changed stick position.
    AxisMotion {
        /// The device the event came from.
        device_id: V::DeviceId,
        /// Which axis moved.
        axis: u32,
        /// The axis's new reading.
        value: AxisValue,
    },
    /// The window was touched on a touch-compatible screen.
    Touch(V::Touch),
    /// The window's scale factor changed.
    ScaleFactorChanged {
        /// The new scale factor.
        scale_factor: ScaleFactor,
        /// Handle through which the handler may adjust the inner size.
        inner_size_writer: V::SizeWriter,
    },
    /// The window was totally hidden from view, or shown again.
    Occluded(bool),
    /// An OS event the translation layer does not recognize; mapped
    /// explicitly rather than dropped silently.
    Unknown,
    /// The dispatcher needs render data for the next frame.  In the default
    /// handler the OS thread then blocks until the user thread answers with
    /// [`UserEvent::RenderDataPrepared`].
    RequestRenderData,
}

// ---------------------------------------------------------------------------
// The application object.
// ---------------------------------------------------------------------------

/// Bits of `wgpu::BufferUsages::all()`: every buffer usage the backend
/// knows.  A usage set that holds none of them is rejected by the backend.
pub const BUFFER_USAGES_ALL_BITS: u32 = 0xfff;

/// Describes a new GPU buffer, as plain values.
pub struct BufferConfig {
    /// The buffer's name, used for debugging.
    pub label: String,
    /// Size of the buffer in bytes.
    pub size: u64,
    /// How the buffer may be used, as `wgpu::BufferUsages` bits.
    pub usage_bits: u32,
    /// Whether the buffer is mapped for writing on creation.
    pub mapped_at_creation: bool,
}

/// Describes a new GPU buffer with starting contents.
pub struct BufferInitConfig {
    /// The buffer's name, used for debugging.
    pub label: String,
    /// The bytes the buffer starts with.
    pub contents: Vec<u8>,
    /// How the buffer may be used, as `wgpu::BufferUsages` bits.
    pub usage_bits: u32,
}

/// An app in Heatwave: the GPU connection, the three handle namespaces of
/// GPU objects it owns, the shared pipeline layout every pipeline inherits
/// by default, and the background clear color.
pub struct HeatwaveApp<'window> {
    connection: GpuConnection<'window>,
    buffers: ResourceRegistry<wgpu::Buffer>,
    render_pipelines: ResourceRegistry<wgpu::RenderPipeline>,
    compute_pipelines: ResourceRegistry<wgpu::ComputePipeline>,
    pipeline_layout: wgpu::PipelineLayout,
    skybox: wgpu::Color,
}

impl<'window> HeatwaveApp<'window> {
    /// The connection, for contracts.
    pub closed spec fn spec_connection(self) -> GpuConnection<'window> {
        self.connection
    }

    /// The buffer namespace's contents, for contracts.
    pub closed spec fn spec_buffers(self) -> Seq<wgpu::Buffer> {
        self.buffers@
    }

    /// The render-pipeline namespace's contents, for contracts.
    pub closed spec fn spec_render_pipelines(self) -> Seq<wgpu::RenderPipeline> {
        self.render_pipelines@
    }

    /// The compute-pipeline namespace's contents, for contracts.
    pub closed spec fn spec_compute_pipelines(self) -> Seq<wgpu::ComputePipeline> {
        self.compute_pipelines@
    }

    /// The shared pipeline layout, for contracts.
    pub closed spec fn spec_pipeline_layout(self) -> wgpu::PipelineLayout {
        self.pipeline_layout
    }

    /// The background clear color, for contracts.
    pub closed spec fn spec_skybox(self) -> wgpu::Color {
        self.skybox
    }

    /// An app is well-formed when its connection is.
    pub open spec fn wf(self) -> bool {
        self.spec_connection().wf()
    }

    /// Assembles an app around an established GPU connection: builds the
    /// single shared pipeline layout, once, from the bind-group layouts
    /// and push-constant ranges the startup configuration supplied, with
    /// all three handle namespaces empty.  Each range must be four-byte
    /// aligned and no shader stage may be served by more than one range;
    /// the backend rejects both fatally.
    pub fn from_connection(
        connection: GpuConnection<'window>,
        bind_group_layouts: &Vec<&wgpu::BindGroupLayout>,
        push_constants: &Vec<PushConstantConfig>,
        skybox: wgpu::Color,
    ) -> (r: Self)
        requires
            connection.wf(),
            forall|i: int| 0 <= i < push_constants@.len() ==> (
            #[trigger] push_constants@[i]).start % 4 == 0 && push_constants@[i].end % 4 == 0,
            forall|i: int, j: int| 0 <= i < j < push_constants@.len() ==> ((
            #[trigger] push_constants@[i]).stages_bits & (
            #[trigger] push_constants@[j]).stages_bits) == 0,
        ensures
            r.spec_connection() == connection,
            r.spec_skybox() == skybox,
            r.spec_buffers() == Seq::<wgpu::Buffer>::empty(),
            r.spec_render_pipelines() == Seq::<wgpu::RenderPipeline>::empty(),
            r.spec_compute_pipelines() == Seq::<wgpu::ComputePipeline>::empty(),
            r.wf(),
    {
        let pipeline_layout = create_pipeline_layout_raw(
            connection.device(),
            "Heatwave Render Pipeline Layout",
            bind_group_layouts,
            push_constants,
        );
        HeatwaveApp {
            connection,
            buffers: ResourceRegistry::new(),
            render_pipelines: ResourceRegistry::new(),
            compute_pipelines: ResourceRegistry::new(),
            pipeline_layout,
            skybox,
        }
    }

    /// Adds a new buffer built from the descriptor provided and returns
    /// its handle: fresh, strictly greater than every buffer handle issued
    /// before, and resolving to this buffer from now on.  No other state
    /// changes.  The descriptor must name at least one usage, and a buffer
    /// mapped at creation must have a four-byte-aligned size; the backend
    /// rejects both fatally.
    pub fn add_buffer(&mut self, descriptor: &BufferConfig) -> (id: usize)
        requires
            descriptor.usage_bits & BUFFER_USAGES_ALL_BITS != 0,
            descriptor.mapped_at_creation ==> descriptor.size % 4 == 0,
        ensures
            id == old(self).spec_buffers().len(),
            final(self).spec_buffers().len() == old(self).spec_buffers().len() + 1,
            forall|h: int| 0 <= h < old(self).spec_buffers().len() ==> final(self).spec_buffers()[h] == old(self).spec_buffers()[h],
            final(self).spec_connection() == old(self).spec_connection(),
            final(self).spec_render_pipelines() == old(self).spec_render_pipelines(),
            final(self).spec_compute_pipelines() == old(self).spec_compute_pipelines(),
            final(self).spec_pipeline_layout() == old(self).spec_pipeline_layout(),
            final(self).spec_skybox() == old(self).spec_skybox(),
    {
        let buffer = create_buffer_raw(self.connection.device(), descriptor);
        self.buffers.add(buffer)
    }

    /// Adds a new buffer with starting values and returns its handle, like
    /// [`HeatwaveApp::add_buffer`]; the descriptor must name at least one
    /// usage.
    pub fn add_buffer_with_defaults(&mut self, descriptor: &BufferInitConfig) -> (id: usize)
        requires
            descriptor.usage_bits & BUFFER_USAGES_ALL_BITS != 0,
        ensures
            id == old(self).spec_buffers().len(),
            final(self).spec_buffers().len() == old(self).spec_buffers().len() + 1,
            forall|h: int| 0 <= h < old(self).spec_buffers().len() ==> final(self).spec_buffers()[h] == old(self).spec_buffers()[h],
            final(self).spec_connection() == old(self).spec_connection(),
            final(self).spec_render_pipelines() == old(self).spec_render_pipelines(),
            final(self).spec_compute_pipelines() == old(self).spec_compute_pipelines(),
            final(self).spec_pipeline_layout() == old(self).spec_pipeline_layout(),
            final(self).spec_skybox() == old(self).spec_skybox(),
    {
        let buffer = create_buffer_init_raw(self.connection.device(), descriptor);
        self.buffers.add(buffer)
    }

    /// Produces the fully specified render pipeline description this app
    /// builds for the given descriptor, exactly as
    /// [`SimpleRenderPipelineDescriptor::resolve`] states: a description
    /// without an explicit layout inherits this app's single shared
    /// layout, for any shader modules; an explicit layout is kept
    /// untouched.  A fragment stage without explicit color targets gets
    /// exactly one target synthesized, whose format is the connection's
    /// current surface format, with replace blending and every color
    /// channel enabled; pre-supplied targets pass through unchanged.
    pub fn resolve_render_pipeline<'a>(
        &'a self,
        descriptor: SimpleRenderPipelineDescriptor<
            'a,
            wgpu::ShaderModule,
            wgpu::PipelineLayout,
            wgpu::VertexBufferLayout<'a>,
        >,
    ) -> (r: ResolvedRenderPipeline<
        'a,
        wgpu::ShaderModule,
        wgpu::PipelineLayout,
        wgpu::VertexBufferLayout<'a>,
    >)
        requires
            descriptor.fragment_entry_ok(),
        ensures
            r.name == descriptor.name,
            r.vertex == descriptor.vertex,
            r.vertex_entry_point == descriptor.vertex_entry_point,
            r.vertex_buffer_format == descriptor.vertex_buffer_format,
            descriptor.layout matches Some(l) ==> r.layout == l,
            descriptor.layout is None ==> *(r.layout) == self.spec_pipeline_layout(),
            descriptor.fragment is None ==> r.fragment is None,
            descriptor.fragment matches Some(m) ==> {
                &&& r.fragment matches Some(f)
                &&& f.module == m
                &&& descriptor.fragment_entry_point matches Some(e) && f.entry_point == e
                &&& descriptor.fragment_targets@.len() == 0 ==> f.targets@ == seq![
                    rendering::synthesized_target(self.spec_connection().spec_state().format),
                ]
                &&& descriptor.fragment_targets@.len() > 0 ==> f.targets@
                    == descriptor.fragment_targets@
            },
            r.primitive == rendering::default_primitive(),
            r.depth == rendering::default_depth(),
            r.multisample == rendering::default_multisample(),
    {
        let format = self.connection.surface_config().format;
        descriptor.resolve(&self.pipeline_layout, format)
    }

    /// Produces the fully specified compute pipeline description this app
    /// builds for the given descriptor: only the layout-defaulting rule
    /// applies, exactly as [`SimpleComputePipelineDescriptor::resolve`]
    /// states, against this app's shared layout.
    pub fn resolve_compute_pipeline<'a>(
        &'a self,
        descriptor: SimpleComputePipelineDescriptor<'a, wgpu::ShaderModule, wgpu::PipelineLayout>,
    ) -> (r: ResolvedComputePipeline<'a, wgpu::ShaderModule, wgpu::PipelineLayout>)
        ensures
            r.name == descriptor.name,
            r.module == descriptor.module,
            r.entry_point == descriptor.entry_point,
            descriptor.layout matches Some(l) ==> r.layout == l,
            descriptor.layout is None ==> *(r.layout) == self.spec_pipeline_layout(),
    {
        descriptor.resolve(&self.pipeline_layout)
    }

    /// Adds a new render pipeline built from the descriptor provided and
    /// returns its handle.
    ///
    /// The description handed to the backend is exactly the one
    /// [`HeatwaveApp::resolve_render_pipeline`] states: the layout falls
    /// back to this app's shared layout, a fragment stage without explicit
    /// color targets gets one target synthesized from the connection's
    /// surface format, and the fixed fixed-function defaults are applied.
    pub fn add_render_pipeline<'a>(
        &mut self,
        descriptor: SimpleRenderPipelineDescriptor<
            'a,
            wgpu::ShaderModule,
            wgpu::PipelineLayout,
            wgpu::VertexBufferLayout<'a>,
        >,
    ) -> (id: usize)
        requires
            descriptor.fragment_entry_ok(),
        ensures
            id == old(self).spec_render_pipelines().len(),
            final(self).spec_render_pipelines().len() == old(self).spec_render_pipelines().len()
                + 1,
            forall|h: int| 0 <= h < old(self).spec_render_pipelines().len() ==> final(self).spec_render_pipelines()[h] == old(self).spec_render_pipelines()[h],
            final(self).spec_connection() == old(self).spec_connection(),
            final(self).spec_buffers() == old(self).spec_buffers(),
            final(self).spec_compute_pipelines() == old(self).spec_compute_pipelines(),
            final(self).spec_pipeline_layout() == old(self).spec_pipeline_layout(),
            final(self).spec_skybox() == old(self).spec_skybox(),
    {
        let resolved = self.resolve_render_pipeline(descriptor);
        let primitive = make_primitive_state(
            to_wgpu_topology(resolved.primitive.topology),
            match resolved.primitive.strip_index {
                None => None,
                Some(k) => Some(to_wgpu_index_format(k)),
            },
            to_wgpu_front_face(resolved.primitive.front_face),
            match resolved.primitive.cull {
                None => None,
                Some(f) => Some(to_wgpu_face(f)),
            },
            resolved.primitive.unclipped_depth,
            to_wgpu_polygon_mode(resolved.primitive.polygon_mode),
            resolved.primitive.conservative,
        );
        let depth = make_depth_state(
            to_wgpu_depth_format(resolved.depth.format),
            resolved.depth.write_enabled,
            to_wgpu_compare(resolved.depth.compare),
        );
        let multisample = make_multisample_state(
            resolved.multisample.count,
            resolved.multisample.mask,
            resolved.multisample.alpha_to_coverage,
        );
        let pipeline = match &resolved.fragment {
            None => {
                let no_targets: Vec<Option<wgpu::ColorTargetState>> = Vec::new();
                create_render_pipeline_raw(
                    self.connection.device(),
                    resolved.name.as_str(),
                    resolved.layout,
                    resolved.vertex,
                    resolved.vertex_entry_point.as_str(),
                    &resolved.vertex_buffer_format,
                    None,
                    None,
                    &no_targets,
                    primitive,
                    depth,
                    multisample,
                )
            },
            Some(fragment) => {
                let mut targets: Vec<Option<wgpu::ColorTargetState>> = Vec::new();
                let mut i: usize = 0;
                while i < fragment.targets.len()
                    invariant
                        0 <= i <= fragment.targets@.len(),
                    decreases fragment.targets@.len() - i,
                {
                    targets.push(to_wgpu_color_target(&fragment.targets[i]));
                    i = i + 1;
                }
                create_render_pipeline_raw(
                    self.connection.device(),
                    resolved.name.as_str(),
                    resolved.layout,
                    resolved.vertex,
                    resolved.vertex_entry_point.as_str(),
                    &resolved.vertex_buffer_format,
                    Some(fragment.module),
                    Some(fragment.entry_point.as_str()),
                    &targets,
                    primitive,
                    depth,
                    multisample,
                )
            },
        };
        self.render_pipelines.add(pipeline)
    }

    /// Adds a new compute pipeline built from the descriptor provided and
    /// returns its handle.  The description handed to the backend is
    /// exactly the one [`HeatwaveApp::resolve_compute_pipeline`] states:
    /// only the layout-defaulting rule applies.
    pub fn add_compute_pipeline<'a>(
        &mut self,
        descriptor: SimpleComputePipelineDescriptor<'a, wgpu::ShaderModule, wgpu::PipelineLayout>,
    ) -> (id: usize)
        ensures
            id == old(self).spec_compute_pipelines().len(),
            final(self).spec_compute_pipelines().len() == old(self).spec_compute_pipelines().len()
                + 1,
            forall|h: int| 0 <= h < old(self).spec_compute_pipelines().len() ==> final(self).spec_compute_pipelines()[h] == old(self).spec_compute_pipelines()[h],
            final(self).spec_connection() == old(self).spec_connection(),
            final(self).spec_buffers() == old(self).spec_buffers(),
            final(self).spec_render_pipelines() == old(self).spec_render_pipelines(),
            final(self).spec_pipeline_layout() == old(self).spec_pipeline_layout(),
            final(self).spec_skybox() == old(self).spec_skybox(),
    {
        let resolved = self.resolve_compute_pipeline(descriptor);
        let pipeline = create_compute_pipeline_raw(
            self.connection.device(),
            resolved.name.as_str(),
            resolved.layout,
            resolved.module,
            resolved.entry_point.as_str(),
        );
        self.compute_pipelines.add(pipeline)
    }

    /// The GPU connection.
    pub fn connection(&self) -> (r: &GpuConnection<'window>)
        ensures
            *r == self.spec_connection(),
    {
        &self.connection
    }

    /// The background clear color.
    pub fn skybox(&self) -> (r: &wgpu::Color)
        ensures
            *r == self.spec_skybox(),
    {
        &self.skybox
    }

    /// Applies a new client size to the connection's surface, as
    /// [`GpuConnection::reconfigure`] states: a zero-area size is rejected
    /// without any change of state.  The registries are untouched either
    /// way.
    pub fn reconfigure(&mut self, width: u32, height: u32) -> (r: Result<(), SurfaceSizeError>)
        ensures
            width > 0 && height > 0 ==> r is Ok && final(self).spec_connection().spec_state()
                == (SurfaceState { width, height, ..old(self).spec_connection().spec_state() }),
            !(width > 0 && height > 0) ==> r == Err::<(), SurfaceSizeError>(
                SurfaceSizeError { width, height },
            ) && final(self).spec_connection().spec_state() == old(
                self,
            ).spec_connection().spec_state(),
            final(self).spec_connection().spec_device() == old(self).spec_connection().spec_device(),
            final(self).spec_connection().spec_queue() == old(self).spec_connection().spec_queue(),
            final(self).spec_connection().spec_surface() == old(
                self,
            ).spec_connection().spec_surface(),
            final(self).spec_buffers() == old(self).spec_buffers(),
            final(self).spec_render_pipelines() == old(self).spec_render_pipelines(),
            final(self).spec_compute_pipelines() == old(self).spec_compute_pipelines(),
            final(self).spec_pipeline_layout() == old(self).spec_pipeline_layout(),
            final(self).spec_skybox() == old(self).spec_skybox(),
            old(self).wf() ==> final(self).wf(),
    {
        self.connection.reconfigure(width, height)
    }

    /// Resolves a buffer handle, as [`ResourceRegistry::get`] states:
    /// `None` exactly for a handle this app never issued for a buffer.
    pub fn get_buffer(&self, handle: usize) -> (r: Option<&wgpu::Buffer>)
        ensures
            match r {
                Some(object) => resolves_to(self.spec_buffers(), handle as int) == Some(*object),
                None => resolves_to(self.spec_buffers(), handle as int) is None,
            },
    {
        self.buffers.get(handle)
    }

    /// Resolves a render-pipeline handle.
    pub fn get_render_pipeline(&self, handle: usize) -> (r: Option<&wgpu::RenderPipeline>)
        ensures
            match r {
                Some(object) => resolves_to(self.spec_render_pipelines(), handle as int) == Some(
                    *object,
                ),
                None => resolves_to(self.spec_render_pipelines(), handle as int) is None,
            },
    {
        self.render_pipelines.get(handle)
    }

    /// Resolves a compute-pipeline handle.
    pub fn get_compute_pipeline(&self, handle: usize) -> (r: Option<&wgpu::ComputePipeline>)
        ensures
            match r {
                Some(object) => resolves_to(self.spec_compute_pipelines(), handle as int) == Some(
                    *object,
                ),
                None => resolves_to(self.spec_compute_pipelines(), handle as int) is None,
            },
    {
        self.compute_pipelines.get(handle)
    }
}

/// The messages the user thread sends back to the presenting OS thread.
#[derive(PartialEq, Eq, Debug)]
pub enum UserEvent<RenderData> {
    /// The user thread finished its cleanup and shutdown may complete.
    ReadyToClose,
    /// The render data requested for the next frame.
    RenderDataPrepared(RenderData),
}

} // verus!
