//! Pipeline building: simplified pipeline descriptions, and the defaulting
//! rules that turn one into a fully specified pipeline description.
//!
//! The shader-module, pipeline-layout and vertex-buffer-layout types are
//! type parameters: the builder's rules never look inside them, they only
//! decide which layout a pipeline uses and which color targets its fragment
//! stage writes.

use vstd::prelude::*;

use crate::gpu::SurfaceFormat;
use crate::registry::resolves_to;
use crate::AxisValue;
use crate::ButtonState;
use crate::CursorPosition;
use crate::EventPayloads;
use crate::HeatwaveApp;
use crate::MouseButton;
use crate::ScaleFactor;
use crate::TouchPhase;

verus! {

// ---------------------------------------------------------------------------
// Presentation: the user-supplied callback set and the render callback's
// read access to the app.
// ---------------------------------------------------------------------------

/// Arguments of a key press or release.
pub struct KeyPressEventArgs<V: EventPayloads> {
    /// The keyboard the event came from.
    pub device_id: V::DeviceId,
    /// The key event's payload.
    pub event: V::KeyEvent,
    /// Whether the event was synthesized by the OS.
    pub is_synthetic: bool,
}

/// Arguments of a mouse button press or release, enriched with the last
/// known cursor position, which the OS layer does not supply on button
/// events.
pub struct MousePressEventArgs<V: EventPayloads> {
    /// The pointer the event came from.
    pub device_id: V::DeviceId,
    /// The button's new state.
    pub state: ButtonState,
    /// Which button changed.
    pub button: MouseButton,
    /// The last cursor position the user thread observed.
    pub position: CursorPosition,
}

/// Arguments of a mouse wheel or touchpad scroll.
pub struct MouseScrollEventArgs<V: EventPayloads> {
    /// The pointer the event came from.
    pub device_id: V::DeviceId,
    /// How far the wheel scrolled.
    pub delta: V::ScrollDelta,
    /// Which phase of the gesture this is.
    pub phase: TouchPhase,
}

/// Arguments of an analog axis motion.
pub struct AnalogAxisEventArgs<V: EventPayloads> {
    /// The device the event came from.
    pub device_id: V::DeviceId,
    /// Which axis moved.
    pub axis: u32,
    /// The axis's new reading.
    pub value: AxisValue,
}

/// The render callback's read access to the app: handle resolution in the
/// three registries, the connection, and the clear color.  Rendering is
/// read-only; mutations belong in the event handlers.
pub struct RenderHelper<'a, 'window> {
    app: &'a HeatwaveApp<'window>,
}

impl<'a, 'window> RenderHelper<'a, 'window> {
    /// The app this helper reads, for contracts.
    pub closed spec fn spec_app(self) -> HeatwaveApp<'window> {
        *self.app
    }

    /// Grants read access to the given app.
    pub fn new(app: &'a HeatwaveApp<'window>) -> (r: Self)
        ensures
            r.spec_app() == *app,
    {
        RenderHelper { app }
    }

    /// The app itself, for the connection, the clear color and everything
    /// else the render callback may read.
    pub fn app(&self) -> (r: &'a HeatwaveApp<'window>)
        ensures
            *r == self.spec_app(),
    {
        self.app
    }

    /// Resolves a buffer handle, as [`crate::registry::ResourceRegistry::get`]
    /// states.
    pub fn buffer(&self, handle: usize) -> (r: Option<&'a wgpu::Buffer>)
        ensures
            match r {
                Some(object) => resolves_to(self.spec_app().spec_buffers(), handle as int) == Some(
                    *object,
                ),
                None => resolves_to(self.spec_app().spec_buffers(), handle as int) is None,
            },
    {
        self.app.get_buffer(handle)
    }

    /// Resolves a render-pipeline handle.
    pub fn render_pipeline(&self, handle: usize) -> (r: Option<&'a wgpu::RenderPipeline>)
        ensures
            match r {
                Some(object) => resolves_to(
                    self.spec_app().spec_render_pipelines(),
                    handle as int,
                ) == Some(*object),
                None => resolves_to(self.spec_app().spec_render_pipelines(), handle as int)
                    is None,
            },
    {
        self.app.get_render_pipeline(handle)
    }

    /// Resolves a compute-pipeline handle.
    pub fn compute_pipeline(&self, handle: usize) -> (r: Option<&'a wgpu::ComputePipeline>)
        ensures
            match r {
                Some(object) => resolves_to(
                    self.spec_app().spec_compute_pipelines(),
                    handle as int,
                ) == Some(*object),
                None => resolves_to(self.spec_app().spec_compute_pipelines(), handle as int)
                    is None,
            },
    {
        self.app.get_compute_pipeline(handle)
    }
}

/// The application-supplied callback set: one handler per translated event
/// kind, run on the user-logic thread, plus the render-data packaging hook
/// and the render callback, which runs on the OS thread.
pub trait Presenter<V: EventPayloads>: Sized {
    /// What the user thread packages for each frame and hands over, by
    /// value, to the render callback.
    type RenderData;

    /// Asks if any new rendering should occur this frame.
    fn should_render(&self) -> bool {
        true
    }

    /// Issues the draw calls for the next frame.  Invoked synchronously on
    /// the OS thread, once per completed render exchange, with the
    /// delivered data and read access to the app; it must not block on the
    /// user-logic channel.
    fn render<'a, 'window>(data: Self::RenderData, helper: Option<RenderHelper<'a, 'window>>);

    /// Packages the render data for the next frame.  Invoked on the user
    /// thread for each render-data request.
    fn package_render_data(&mut self) -> Self::RenderData;

    /// The window is closing; runs to completion before the ready-to-close
    /// acknowledgement is sent.
    fn on_exit(&mut self) {
    }

    /// The cursor entered the window's bounds.
    fn on_cursor_enter(&mut self, device_id: V::DeviceId) {
    }

    /// The cursor moved inside the window.
    fn on_cursor_move(&mut self, device_id: V::DeviceId, position: CursorPosition) {
    }

    /// The cursor left the window's bounds.
    fn on_cursor_leave(&mut self, device_id: V::DeviceId) {
    }

    /// An analog control device changed stick position.
    fn on_analog_axis_motion(&mut self, args: AnalogAxisEventArgs<V>) {
    }

    /// A hovered file was dropped on the window.
    fn on_file_drop(&mut self, path: V::FilePath) {
    }

    /// A file is hovered over the window.
    fn on_file_hover(&mut self, path: V::FilePath) {
    }

    /// A file hover was cancelled.
    fn on_file_hover_cancel(&mut self) {
    }

    /// The window gained or lost focus.
    fn on_window_focus_changed(&mut self, focused: bool) {
    }

    /// A character was composed through an input method.
    fn on_ime_input(&mut self, ime: V::Ime) {
    }

    /// A key was pressed.
    fn on_key_press(&mut self, args: KeyPressEventArgs<V>) {
    }

    /// A key was released.
    fn on_key_release(&mut self, args: KeyPressEventArgs<V>) {
    }

    /// The keyboard modifiers changed.
    fn on_modifier_changed(&mut self, modifiers: V::Modifiers) {
    }

    /// A mouse button was pressed.
    fn on_mouse_down(&mut self, args: MousePressEventArgs<V>) {
    }

    /// A mouse button was released.
    fn on_mouse_up(&mut self, args: MousePressEventArgs<V>) {
    }

    /// A mouse wheel or touchpad scroll occurred.
    fn on_mouse_scroll(&mut self, args: MouseScrollEventArgs<V>) {
    }

    /// The window was hidden from view, or shown again.
    fn on_occlusion(&mut self, occluded: bool) {
    }

    /// The window was resized to the given client dimensions.
    fn on_window_resize(&mut self, width: u32, height: u32) {
    }

    /// The window moved to the given coordinates.
    fn on_window_move(&mut self, x: i32, y: i32) {
    }

    /// The window's scale factor changed.
    fn on_scale_factor_change(&mut self, scale_factor: ScaleFactor, writer: V::SizeWriter) {
    }

    /// The window was touched on a touch-compatible screen.
    fn on_touch(&mut self, touch: V::Touch) {
    }

    /// An event the translation layer does not recognize arrived.
    fn on_unknown(&mut self) {
    }
}

/// Bits of `wgpu::ColorWrites::ALL`: red, green, blue and alpha all enabled.
pub const COLOR_WRITES_ALL_BITS: u32 = 0xf;

/// How a color target combines new fragments with what the target holds.
#[derive(Clone, Copy, PartialEq, Eq, Debug, Structural)]
pub enum BlendSetting {
    /// New fragments overwrite old pixels.
    Replace,
    /// Blending is disabled for this target.
    Disabled,
}

/// One color target of a fragment stage.
#[derive(Clone, Copy)]
pub struct ColorTargetConfig {
    /// The target's texture format.
    pub format: SurfaceFormat,
    /// How fragments are combined with the target's contents.
    pub blend: BlendSetting,
    /// Which color channels the stage may write, as `wgpu::ColorWrites` bits.
    pub write_mask_bits: u32,
}

/// The one color target synthesized for a fragment stage that supplies
/// none: the connection's current surface format, replace blending, and
/// every color channel enabled for writing.
pub open spec fn synthesized_target(format: SurfaceFormat) -> ColorTargetConfig {
    ColorTargetConfig { format, blend: BlendSetting::Replace, write_mask_bits: COLOR_WRITES_ALL_BITS }
}

/// How vertices are assembled into primitives.
#[derive(Clone, Copy, PartialEq, Eq, Debug, Structural)]
pub enum Topology {
    /// Each vertex is a point.
    PointList,
    /// Each pair of vertices is a line.
    LineList,
    /// Adjacent vertices form lines.
    LineStrip,
    /// Each three vertices are a triangle.
    TriangleList,
    /// Adjacent triples of vertices form triangles.
    TriangleStrip,
}

/// Which winding order marks the front face of a triangle.
#[derive(Clone, Copy, PartialEq, Eq, Debug, Structural)]
pub enum WindingOrder {
    /// Counter-clockwise vertices face front.
    CounterClockwise,
    /// Clockwise vertices face front.
    Clockwise,
}

/// A face of a triangle, for culling.
#[derive(Clone, Copy, PartialEq, Eq, Debug, Structural)]
pub enum CullFace {
    /// The front face.
    Front,
    /// The back face.
    Back,
}

/// How polygons are rasterised.
#[derive(Clone, Copy, PartialEq, Eq, Debug, Structural)]
pub enum PolygonFill {
    /// Polygons are filled.
    Fill,
    /// Polygons are drawn as line segments.
    Line,
    /// Polygons are drawn as points.
    Point,
}

/// Width of the indices used with strip topologies.
#[derive(Clone, Copy, PartialEq, Eq, Debug, Structural)]
pub enum IndexKind {
    /// 16-bit indices.
    U16,
    /// 32-bit indices.
    U32,
}

/// Primitive assembly and rasterisation state.
#[derive(Clone, Copy, PartialEq, Eq, Debug, Structural)]
pub struct PrimitiveConfig {
    /// How vertices are assembled.
    pub topology: Topology,
    /// Index format for strip topologies, if indexed.
    pub strip_index: Option<IndexKind>,
    /// Which winding order faces front.
    pub front_face: WindingOrder,
    /// Which face, if any, is culled.
    pub cull: Option<CullFace>,
    /// Whether polygon depth is left unclipped.
    pub unclipped_depth: bool,
    /// How polygons are rasterised.
    pub polygon_mode: PolygonFill,
    /// Whether rasterisation is conservative.
    pub conservative: bool,
}

/// The dedicated depth format of this engine's depth testing.
#[derive(Clone, Copy, PartialEq, Eq, Debug, Structural)]
pub enum DepthFormat {
    /// A 32-bit floating-point depth buffer.
    Depth32Float,
}

/// The comparison a depth test applies.
#[derive(Clone, Copy, PartialEq, Eq, Debug, Structural)]
pub enum DepthCompare {
    /// Never passes.
    Never,
    /// Passes for a smaller new value.
    Less,
    /// Passes for an equal new value.
    Equal,
    /// Passes for a smaller or equal new value.
    LessEqual,
    /// Passes for a greater new value.
    Greater,
    /// Passes for an unequal new value.
    NotEqual,
    /// Passes for a greater or equal new value.
    GreaterEqual,
    /// Always passes.
    Always,
}

/// Depth testing state.
#[derive(Clone, Copy, PartialEq, Eq, Debug, Structural)]
pub struct DepthConfig {
    /// Format of the depth buffer.
    pub format: DepthFormat,
    /// Whether passing fragments write their depth.
    pub write_enabled: bool,
    /// The comparison applied by the depth test.
    pub compare: DepthCompare,
}

/// Multisampling state.
#[derive(Clone, Copy, PartialEq, Eq, Debug, Structural)]
pub struct MultisampleConfig {
    /// Samples per pixel.
    pub count: u32,
    /// Which samples a pipeline may modify.
    pub mask: u64,
    /// Whether an extra alpha-derived sample mask is applied.
    pub alpha_to_coverage: bool,
}

/// The fixed primitive state every built render pipeline gets:
/// triangle-list topology, counter-clockwise front faces, back-face
/// culling, filled polygons.
pub open spec fn default_primitive() -> PrimitiveConfig {
    PrimitiveConfig {
        topology: Topology::TriangleList,
        strip_index: None,
        front_face: WindingOrder::CounterClockwise,
        cull: Some(CullFace::Back),
        unclipped_depth: false,
        polygon_mode: PolygonFill::Fill,
        conservative: false,
    }
}

/// The fixed depth state every built render pipeline gets: depth testing
/// enabled against the dedicated depth format with a less-than comparison.
pub open spec fn default_depth() -> DepthConfig {
    DepthConfig { format: DepthFormat::Depth32Float, write_enabled: true, compare: DepthCompare::Less }
}

/// The fixed multisampling state every built render pipeline gets: eight
/// samples per pixel, no sample masked out.
pub open spec fn default_multisample() -> MultisampleConfig {
    MultisampleConfig { count: 8, mask: 0xffff_ffff_ffff_ffff, alpha_to_coverage: false }
}

/// Describes the properties for a new render pipeline, with the
/// fixed-function state left to the builder's defaults.
///
/// `Sh` is the backend's shader-module type, `Ly` its pipeline-layout type
/// and `Vb` its vertex-buffer-layout type; the builder carries values of
/// them through untouched.
pub struct SimpleRenderPipelineDescriptor<'a, Sh, Ly, Vb> {
    /// The name of the pipeline, used for debugging.
    pub name: String,
    /// The module holding the vertex shader.
    pub vertex: &'a Sh,
    /// The module holding the fragment shader, if the pipeline has one.
    pub fragment: Option<&'a Sh>,
    /// Name of the vertex shader's entry point within its module.
    pub vertex_entry_point: String,
    /// Name of the fragment shader's entry point within its module.  A
    /// fragment stage without one is a caller error: there is no sensible
    /// default entry point.
    pub fragment_entry_point: Option<String>,
    /// The format of any vertex buffers used by the pipeline.
    pub vertex_buffer_format: Vec<Vb>,
    /// An explicit pipeline layout; pipelines that supply none share the
    /// connection's layout.
    pub layout: Option<&'a Ly>,
    /// Explicit color targets for the fragment stage; when a fragment stage
    /// supplies none, one is synthesized from the surface format.
    pub fragment_targets: Vec<ColorTargetConfig>,
}

/// A fragment stage of a fully specified pipeline description.
pub struct FragmentConfig<'a, Sh> {
    /// The module holding the fragment shader.
    pub module: &'a Sh,
    /// Name of the entry point within the module.
    pub entry_point: String,
    /// The color targets the stage writes.
    pub targets: Vec<ColorTargetConfig>,
}

/// A fully specified render pipeline description, ready to be handed to the
/// backend.
pub struct ResolvedRenderPipeline<'a, Sh, Ly, Vb> {
    /// The name of the pipeline.
    pub name: String,
    /// The layout the pipeline uses: the explicit one if the description
    /// supplied it, else the connection's shared layout.
    pub layout: &'a Ly,
    /// The module holding the vertex shader.
    pub vertex: &'a Sh,
    /// Name of the vertex shader's entry point.
    pub vertex_entry_point: String,
    /// The format of any vertex buffers used by the pipeline.
    pub vertex_buffer_format: Vec<Vb>,
    /// The fragment stage, if the pipeline has one.
    pub fragment: Option<FragmentConfig<'a, Sh>>,
    /// Primitive assembly and rasterisation state.
    pub primitive: PrimitiveConfig,
    /// Depth testing state.
    pub depth: DepthConfig,
    /// Multisampling state.
    pub multisample: MultisampleConfig,
}

impl<'a, Sh, Ly, Vb> SimpleRenderPipelineDescriptor<'a, Sh, Ly, Vb> {
    /// A fragment stage, if present, names its entry point.
    pub open spec fn fragment_entry_ok(self) -> bool {
        self.fragment is Some ==> self.fragment_entry_point is Some
    }

    /// Produces the fully specified pipeline description: fills in the
    /// shared layout when the description supplies none, synthesizes one
    /// color target from the surface format when a fragment stage supplies
    /// none, passes explicit targets through untouched, and fixes the
    /// fixed-function state to the engine's defaults.
    pub fn resolve(self, shared_layout: &'a Ly, surface_format: SurfaceFormat) -> (r:
        ResolvedRenderPipeline<'a, Sh, Ly, Vb>)
        requires
            self.fragment_entry_ok(),
        ensures
            r.name == self.name,
            r.vertex == self.vertex,
            r.vertex_entry_point == self.vertex_entry_point,
            r.vertex_buffer_format == self.vertex_buffer_format,
            self.layout matches Some(l) ==> r.layout == l,
            self.layout is None ==> r.layout == shared_layout,
            self.fragment is None ==> r.fragment is None,
            self.fragment matches Some(m) ==> {
                &&& r.fragment matches Some(f)
                &&& f.module == m
                &&& self.fragment_entry_point matches Some(e) && f.entry_point == e
                &&& self.fragment_targets@.len() == 0 ==> f.targets@ == seq![
                    synthesized_target(surface_format),
                ]
                &&& self.fragment_targets@.len() > 0 ==> f.targets@ == self.fragment_targets@
            },
            r.primitive == default_primitive(),
            r.depth == default_depth(),
            r.multisample == default_multisample(),
    {
        let SimpleRenderPipelineDescriptor {
            name,
            vertex,
            fragment,
            vertex_entry_point,
            fragment_entry_point,
            vertex_buffer_format,
            layout,
            fragment_targets,
        } = self;
        let layout = match layout {
            Some(l) => l,
            None => shared_layout,
        };
        let fragment = match fragment {
            None => None,
            Some(module) => {
                let entry_point = fragment_entry_point.unwrap();
                let targets = if fragment_targets.len() == 0 {
                    let mut synthesized: Vec<ColorTargetConfig> = Vec::new();
                    synthesized.push(
                        ColorTargetConfig {
                            format: surface_format,
                            blend: BlendSetting::Replace,
                            write_mask_bits: COLOR_WRITES_ALL_BITS,
                        },
                    );
                    proof {
                        assert(synthesized@ =~= seq![synthesized_target(surface_format)]);
                    }
                    synthesized
                } else {
                    fragment_targets
                };
                Some(FragmentConfig { module, entry_point, targets })
            },
        };
        ResolvedRenderPipeline {
            name,
            layout,
            vertex,
            vertex_entry_point,
            vertex_buffer_format,
            fragment,
            primitive: PrimitiveConfig {
                topology: Topology::TriangleList,
                strip_index: None,
                front_face: WindingOrder::CounterClockwise,
                cull: Some(CullFace::Back),
                unclipped_depth: false,
                polygon_mode: PolygonFill::Fill,
                conservative: false,
            },
            depth: DepthConfig {
                format: DepthFormat::Depth32Float,
                write_enabled: true,
                compare: DepthCompare::Less,
            },
            multisample: MultisampleConfig {
                count: 8,
                mask: 0xffff_ffff_ffff_ffff,
                alpha_to_coverage: false,
            },
        }
    }
}

/// Describes the properties for a new compute pipeline.
pub struct SimpleComputePipelineDescriptor<'a, Sh, Ly> {
    /// The name of the pipeline, used for debugging.
    pub name: String,
    /// The module holding the compute shader.
    pub module: &'a Sh,
    /// Name of the compute shader's entry point within its module.
    pub entry_point: String,
    /// An explicit pipeline layout; pipelines that supply none share the
    /// connection's layout.
    pub layout: Option<&'a Ly>,
}

/// A fully specified compute pipeline description.
pub struct ResolvedComputePipeline<'a, Sh, Ly> {
    /// The name of the pipeline.
    pub name: String,
    /// The layout the pipeline uses.
    pub layout: &'a Ly,
    /// The module holding the compute shader.
    pub module: &'a Sh,
    /// Name of the entry point within the module.
    pub entry_point: String,
}

impl<'a, Sh, Ly> SimpleComputePipelineDescriptor<'a, Sh, Ly> {
    /// Produces the fully specified description.  Building a compute
    /// pipeline applies only the layout-defaulting rule.
    pub fn resolve(self, shared_layout: &'a Ly) -> (r: ResolvedComputePipeline<'a, Sh, Ly>)
        ensures
            r.name == self.name,
            r.module == self.module,
            r.entry_point == self.entry_point,
            self.layout matches Some(l) ==> r.layout == l,
            self.layout is None ==> r.layout == shared_layout,
    {
        let SimpleComputePipelineDescriptor { name, module, entry_point, layout } = self;
        let layout = match layout {
            Some(l) => l,
            None => shared_layout,
        };
        ResolvedComputePipeline { name, layout, module, entry_point }
    }
}

/// A push-constant range made available to shaders, as plain values:
/// `wgpu::ShaderStages` bits and the byte range.
#[derive(Clone, Copy, PartialEq, Eq, Debug, Structural)]
pub struct PushConstantConfig {
    /// Which shader stages see the range, as `wgpu::ShaderStages` bits.
    pub stages_bits: u32,
    /// First byte of the range.
    pub start: u32,
    /// One past the last byte of the range.
    pub end: u32,
}

} // verus!
