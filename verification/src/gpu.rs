//! The GPU connection: the device, queue and presentable surface, together
//! with the surface configuration the connection keeps in step with the
//! window's client size.

use vstd::prelude::*;

use crate::backend::configure_surface;

verus! {

/// Bits of `wgpu::TextureUsages::RENDER_ATTACHMENT`, the one usage every
/// presentable surface supports and the only one this engine configures.
pub const RENDER_ATTACHMENT_USAGE_BITS: u32 = 16;

/// A surface texture format together with the one fact the connection logic
/// reads off it: whether the format is sRGB-capable.
#[derive(Clone, Copy)]
pub struct SurfaceFormat {
    /// The backend's format value, carried through untouched.
    pub raw: wgpu::TextureFormat,
    /// Whether `raw` is an sRGB format.
    pub srgb: bool,
}

/// Whether any format in the list is sRGB-capable.
pub open spec fn has_srgb(s: Seq<SurfaceFormat>) -> bool {
    exists|i: int| 0 <= i < s.len() && s[i].srgb
}

/// Index of the first sRGB-capable format in the list.
pub open spec fn first_srgb(s: Seq<SurfaceFormat>) -> int
    decreases s.len(),
{
    if s.len() == 0 {
        0
    } else if s[0].srgb {
        0
    } else {
        1 + first_srgb(s.drop_first())
    }
}

/// The format a connection selects from the surface's supported formats:
/// the first sRGB-capable one, else the first supported one, and nothing
/// only when the surface reports no format at all.
pub open spec fn spec_select_format(s: Seq<SurfaceFormat>) -> Option<SurfaceFormat> {
    if has_srgb(s) {
        Some(s[first_srgb(s)])
    } else if s.len() > 0 {
        Some(s[0])
    } else {
        None
    }
}

proof fn lemma_first_srgb_at(s: Seq<SurfaceFormat>, i: int)
    requires
        0 <= i < s.len(),
        s[i].srgb,
        forall|j: int| 0 <= j < i ==> !s[j].srgb,
    ensures
        has_srgb(s),
        first_srgb(s) == i,
    decreases i,
{
    if i > 0 {
        lemma_first_srgb_at(s.drop_first(), i - 1);
    }
}

/// Picks the surface format for a new connection: prefers an sRGB-capable
/// format among the supported ones, falls back to the first supported
/// format, and reports nothing only for an empty list.
pub fn select_surface_format(formats: &Vec<SurfaceFormat>) -> (r: Option<SurfaceFormat>)
    ensures
        r == spec_select_format(formats@),
{
    let n = formats.len();
    let mut i: usize = 0;
    while i < n
        invariant
            n == formats@.len(),
            0 <= i <= n,
            forall|j: int| 0 <= j < i ==> !formats@[j].srgb,
        decreases n - i,
    {
        if formats[i].srgb {
            proof {
                lemma_first_srgb_at(formats@, i as int);
            }
            return Some(formats[i]);
        }
        i = i + 1;
    }
    if n > 0 {
        assert(!has_srgb(formats@));
        Some(formats[0])
    } else {
        None
    }
}

/// Picks the compositing mode for a new connection: the surface's first
/// reported option, and nothing only for an empty list.
pub fn select_alpha_mode(modes: &Vec<wgpu::CompositeAlphaMode>) -> (r: Option<
    wgpu::CompositeAlphaMode,
>)
    ensures
        modes@.len() > 0 ==> r == Some(modes@[0]),
        modes@.len() == 0 ==> r is None,
{
    if modes.len() > 0 {
        Some(modes[0])
    } else {
        None
    }
}

/// The presentation cadence of the surface.
pub enum PresentPolicy {
    /// Wait for vertical blank; never tears.
    Vsync,
    /// Present as fast as possible.
    NoVsync,
}

/// The connection's surface configuration: what the logic decides about the
/// presentable surface, kept equal to the last-known window client size.
pub struct SurfaceState {
    /// The selected surface texture format.
    pub format: SurfaceFormat,
    /// The compositing mode, taken from the surface's first reported option.
    pub alpha_mode: wgpu::CompositeAlphaMode,
    /// Width of the surface in pixels; always the last-known client width.
    pub width: u32,
    /// Height of the surface in pixels; always the last-known client height.
    pub height: u32,
    /// The presentation cadence; this engine always presents with vsync.
    pub present: PresentPolicy,
    /// How many frames the presentation engine may queue in advance.
    pub frame_latency: u32,
    /// Texture usage bits of the surface textures.
    pub usage_bits: u32,
}

/// The size is rejected whenever either dimension is zero.
#[derive(Clone, Copy, PartialEq, Eq, Debug, Structural)]
pub struct SurfaceSizeError {
    /// The rejected width.
    pub width: u32,
    /// The rejected height.
    pub height: u32,
}

impl SurfaceState {
    /// A configuration is well-formed when its area is not zero.
    pub open spec fn wf(self) -> bool {
        self.width > 0 && self.height > 0
    }

    /// The configuration a fresh connection starts with: the given format
    /// and alpha mode, the window's client size, vsync always on, a frame
    /// latency of two, and render-attachment usage.
    pub fn new(
        format: SurfaceFormat,
        alpha_mode: wgpu::CompositeAlphaMode,
        width: u32,
        height: u32,
    ) -> (r: SurfaceState)
        requires
            width > 0,
            height > 0,
        ensures
            r == (SurfaceState {
                format,
                alpha_mode,
                width,
                height,
                present: PresentPolicy::Vsync,
                frame_latency: 2,
                usage_bits: RENDER_ATTACHMENT_USAGE_BITS,
            }),
            r.wf(),
    {
        SurfaceState {
            format,
            alpha_mode,
            width,
            height,
            present: PresentPolicy::Vsync,
            frame_latency: 2,
            usage_bits: RENDER_ATTACHMENT_USAGE_BITS,
        }
    }

    /// Records a new client size.  A zero-area size is rejected and leaves
    /// the configuration exactly as it was; a valid size replaces the width
    /// and height and nothing else.
    pub fn resize(&mut self, width: u32, height: u32) -> (r: Result<(), SurfaceSizeError>)
        ensures
            width > 0 && height > 0 ==> r is Ok && *final(self) == (SurfaceState {
                width,
                height,
                ..*old(self)
            }),
            !(width > 0 && height > 0) ==> r == Err::<(), SurfaceSizeError>(
                SurfaceSizeError { width, height },
            ) && *final(self) == *old(self),
            old(self).wf() ==> final(self).wf(),
    {
        if width == 0 || height == 0 {
            Err(SurfaceSizeError { width, height })
        } else {
            self.width = width;
            self.height = height;
            Ok(())
        }
    }
}

/// Everything the engine holds of one GPU: the logical device, its command
/// queue, the presentable surface, and the surface's configuration.
pub struct GpuConnection<'window> {
    surface: wgpu::Surface<'window>,
    state: SurfaceState,
    device: wgpu::Device,
    queue: wgpu::Queue,
}

impl<'window> GpuConnection<'window> {
    /// The connection's surface configuration, for contracts.
    pub closed spec fn spec_state(self) -> SurfaceState {
        self.state
    }

    /// The connection's device, for contracts.
    pub closed spec fn spec_device(self) -> wgpu::Device {
        self.device
    }

    /// A connection is well-formed when its surface configuration is.
    pub open spec fn wf(self) -> bool {
        self.spec_state().wf()
    }

    /// Assembles a connection from an already-acquired surface, device and
    /// queue and the configuration selected for them.
    pub fn from_parts(
        surface: wgpu::Surface<'window>,
        device: wgpu::Device,
        queue: wgpu::Queue,
        state: SurfaceState,
    ) -> (r: Self)
        requires
            state.wf(),
        ensures
            r.spec_state() == state,
            r.spec_device() == device,
            r.wf(),
    {
        GpuConnection { surface, state, device, queue }
    }

    /// The device, used to construct GPU resources.
    pub fn device(&self) -> (r: &wgpu::Device)
        ensures
            *r == self.spec_device(),
    {
        &self.device
    }

    /// The connection's command queue, for contracts.
    pub closed spec fn spec_queue(self) -> wgpu::Queue {
        self.queue
    }

    /// The command queue, used to submit and execute command buffers.
    pub fn queue(&self) -> (r: &wgpu::Queue)
        ensures
            *r == self.spec_queue(),
    {
        &self.queue
    }

    /// The connection's surface, for contracts.
    pub closed spec fn spec_surface(self) -> wgpu::Surface<'window> {
        self.surface
    }

    /// The presentable surface, where the GPU draws to.
    pub fn surface(&self) -> (r: &wgpu::Surface<'window>)
        ensures
            *r == self.spec_surface(),
    {
        &self.surface
    }

    /// The current surface configuration.
    pub fn surface_config(&self) -> (r: &SurfaceState)
        ensures
            *r == self.spec_state(),
    {
        &self.state
    }

    /// Applies a new client size to the surface.  A zero-area size is
    /// rejected without touching the stored configuration or the surface;
    /// a valid size updates the stored configuration and reconfigures the
    /// surface in place before the next frame can be requested.
    pub fn reconfigure(&mut self, width: u32, height: u32) -> (r: Result<(), SurfaceSizeError>)
        ensures
            width > 0 && height > 0 ==> r is Ok && final(self).spec_state() == (SurfaceState {
                width,
                height,
                ..old(self).spec_state()
            }),
            !(width > 0 && height > 0) ==> r == Err::<(), SurfaceSizeError>(
                SurfaceSizeError { width, height },
            ) && final(self).spec_state() == old(self).spec_state(),
            final(self).spec_device() == old(self).spec_device(),
            final(self).spec_queue() == old(self).spec_queue(),
            final(self).spec_surface() == old(self).spec_surface(),
            old(self).wf() ==> final(self).wf(),
    {
        let r = self.state.resize(width, height);
        if r.is_ok() {
            configure_surface(&self.surface, &self.device, &self.state);
        }
        r
    }
}

/// Why establishing a GPU connection failed.  Each failure is final: the
/// caller must relax its requirements and connect again, or abort startup.
pub enum GpuConnectionErrorKind {
    /// The backend could not bind a surface to the window.
    SurfaceCreation(wgpu::CreateSurfaceError),
    /// No adapter satisfies the surface-compatibility and power constraints.
    CompatibleAdapterNotFound,
    /// The adapter rejected the device request, e.g. for an unsupported
    /// feature set.
    DeviceRequest(wgpu::RequestDeviceError),
}

/// An error from establishing a GPU connection.
pub struct GpuConnectionError {
    inner: GpuConnectionErrorKind,
}

impl GpuConnectionError {
    /// The error's kind, for contracts.
    pub closed spec fn spec_kind(self) -> GpuConnectionErrorKind {
        self.inner
    }

    /// Wraps a failure kind.
    pub fn new(kind: GpuConnectionErrorKind) -> (r: Self)
        ensures
            r.spec_kind() == kind,
    {
        GpuConnectionError { inner: kind }
    }

    /// Which failure this error reports.
    pub fn kind(&self) -> (r: &GpuConnectionErrorKind)
        ensures
            *r == self.spec_kind(),
    {
        &self.inner
    }
}

} // verus!
