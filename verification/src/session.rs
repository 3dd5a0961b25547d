//! The GPU session: the surface configuration derived from window size and
//! negotiated format, the one-time bootstrap decisions (adapter, device
//! limits, format choice), and the session aggregate that owns the pipeline
//! description, the active shape's buffer models, and the index count the
//! renderer draws with.

use vstd::prelude::*;

use crate::geometry::{
    index_bytes, lemma_catalog_wf, shape_indices, spec_indices, spec_vertex_count, vertex_count,
    Shape,
};
use crate::pipeline::{build_pipeline_plan, spec_pipeline_plan, PipelinePlan, SurfaceFormat};

verus! {

/// A window size in physical pixels, as the event source reports it.
#[derive(Clone, Copy, Debug, PartialEq, Eq, Structural)]
pub struct WindowSize {
    pub width: u32,
    pub height: u32,
}

/// What the surface texture is used for.
#[derive(Clone, Copy, Debug, PartialEq, Eq, Structural)]
pub enum SurfaceUsage {
    RenderAttachment,
    TextureBinding,
}

/// When the presented image is handed to the display.
#[derive(Clone, Copy, Debug, PartialEq, Eq, Structural)]
pub enum PresentMode {
    Fifo,
    Immediate,
    Mailbox,
}

/// How the presented image composites with what is behind the window.
#[derive(Clone, Copy, Debug, PartialEq, Eq, Structural)]
pub enum AlphaMode {
    Auto,
    Opaque,
    Inherit,
}

/// The configuration the surface is (re-)issued with: must match the window
/// size, or the render target and the window desynchronize.
#[derive(Clone, Copy, Debug, PartialEq, Eq, Structural)]
pub struct SurfaceConfig {
    pub usage: SurfaceUsage,
    pub format: SurfaceFormat,
    pub width: u32,
    pub height: u32,
    pub present_mode: PresentMode,
    pub alpha_mode: AlphaMode,
}

/// The configuration the bootstrap builds: render-attachment usage, the
/// negotiated format, the window's pixel size, FIFO presentation, and
/// automatic alpha compositing.
pub open spec fn spec_initial_config(format: SurfaceFormat, width: u32, height: u32) -> SurfaceConfig {
    SurfaceConfig {
        usage: SurfaceUsage::RenderAttachment,
        format,
        width,
        height,
        present_mode: PresentMode::Fifo,
        alpha_mode: AlphaMode::Auto,
    }
}

pub fn initial_config(format: SurfaceFormat, width: u32, height: u32) -> (c: SurfaceConfig)
    ensures
        c == spec_initial_config(format, width, height),
{
    SurfaceConfig {
        usage: SurfaceUsage::RenderAttachment,
        format,
        width,
        height,
        present_mode: PresentMode::Fifo,
        alpha_mode: AlphaMode::Auto,
    }
}

/// The device limit profile requested from the adapter: reduced limits when
/// running inside a constrained embedded or browser host, full defaults
/// otherwise.
#[derive(Clone, Copy, Debug, PartialEq, Eq, Structural)]
pub enum LimitsProfile {
    Standard,
    DownlevelWebgl2,
}

pub fn select_limits(constrained: bool) -> (p: LimitsProfile)
    ensures
        p == (if constrained {
            LimitsProfile::DownlevelWebgl2
        } else {
            LimitsProfile::Standard
        }),
{
    if constrained {
        LimitsProfile::DownlevelWebgl2
    } else {
        LimitsProfile::Standard
    }
}

/// Picks the presentation format: the first one the surface supports.
pub fn first_supported_format(formats: &Vec<SurfaceFormat>) -> (r: Option<SurfaceFormat>)
    ensures
        formats@.len() > 0 ==> r == Some(formats@[0]),
        formats@.len() == 0 ==> r is None,
{
    if formats.len() > 0 {
        Some(formats[0])
    } else {
        None
    }
}

/// Why the one-time session bootstrap failed. Every variant is fatal: no
/// partial session is ever exposed.
#[derive(Clone, Debug, PartialEq, Eq)]
pub enum SessionInitError {
    /// No adapter compatible with the presentation surface exists.
    NoCompatibleAdapter,
    /// The adapter refused to hand out a logical device and queue.
    DeviceRequestFailed,
    /// The backend could not compile or link the shader programs; carries the
    /// backend's diagnostic log text.
    ShaderCompile(String),
}

/// The decisions of a successful bootstrap: the limit profile to request and
/// the configuration to apply to the surface.
#[derive(Clone, Copy, Debug, PartialEq, Eq, Structural)]
pub struct BootstrapPlan {
    pub limits: LimitsProfile,
    pub config: SurfaceConfig,
}

/// The bootstrap's decision chain, over what the host reported: no compatible
/// adapter fails first, a denied device request second; otherwise the plan
/// requests reduced limits in a constrained host and configures the surface
/// with the first supported format at the window's size.
pub fn negotiate_session(
    adapter_available: bool,
    device_granted: bool,
    formats: &Vec<SurfaceFormat>,
    constrained: bool,
    size: WindowSize,
) -> (r: Result<BootstrapPlan, SessionInitError>)
    requires
        adapter_available && device_granted ==> formats@.len() > 0,
    ensures
        !adapter_available ==> r == Err::<BootstrapPlan, SessionInitError>(
            SessionInitError::NoCompatibleAdapter,
        ),
        adapter_available && !device_granted ==> r == Err::<BootstrapPlan, SessionInitError>(
            SessionInitError::DeviceRequestFailed,
        ),
        adapter_available && device_granted ==> r == Ok::<BootstrapPlan, SessionInitError>(
            BootstrapPlan {
                limits: if constrained {
                    LimitsProfile::DownlevelWebgl2
                } else {
                    LimitsProfile::Standard
                },
                config: spec_initial_config(formats@[0], size.width, size.height),
            },
        ),
{
    if !adapter_available {
        return Err(SessionInitError::NoCompatibleAdapter);
    }
    if !device_granted {
        return Err(SessionInitError::DeviceRequestFailed);
    }
    let limits = select_limits(constrained);
    let format = match first_supported_format(formats) {
        Some(f) => f,
        None => {
            return Err(SessionInitError::NoCompatibleAdapter);
        },
    };
    Ok(BootstrapPlan { limits, config: initial_config(format, size.width, size.height) })
}

/// The pipeline-build step of the bootstrap: the backend either accepts the
/// embedded shader text, yielding the fixed pipeline, or reports a diagnostic
/// log, which is fatal and carried in the error.
pub fn link_pipeline(format: SurfaceFormat, compile_log: Option<String>) -> (r: Result<
    PipelinePlan,
    SessionInitError,
>)
    ensures
        compile_log is None ==> r == Ok::<PipelinePlan, SessionInitError>(
            spec_pipeline_plan(format),
        ),
        compile_log matches Some(log) ==> r == Err::<PipelinePlan, SessionInitError>(
            SessionInitError::ShaderCompile(log),
        ),
{
    match compile_log {
        None => Ok(build_pipeline_plan(format)),
        Some(log) => Err(SessionInitError::ShaderCompile(log)),
    }
}

/// The GPU vertex buffer for one shape, as the session tracks it: which shape
/// was uploaded and how many vertex records it holds. The float contents live
/// in the GPU buffer the caller owns.
#[derive(Clone, Copy, Debug, PartialEq, Eq, Structural)]
pub struct VertexBufferModel {
    pub shape: Shape,
    pub vertex_count: u32,
}

/// The GPU index buffer for one shape: which shape was uploaded, and the raw
/// byte payload of its 16-bit index list.
#[derive(Clone, Debug, PartialEq, Eq)]
pub struct IndexBufferModel {
    pub shape: Shape,
    pub bytes: Vec<u8>,
}

/// The session aggregate. The device, queue, surface, compiled pipeline and
/// live GPU buffers are opaque handles the caller owns alongside; this holds
/// everything the rendering decisions read and write.
#[derive(Clone, Debug, PartialEq, Eq)]
pub struct State {
    pub config: SurfaceConfig,
    pub size: WindowSize,
    pub pipeline: PipelinePlan,
    pub vertex_buffer: VertexBufferModel,
    pub index_buffer: IndexBufferModel,
    pub pentagon: bool,
    pub num_indices: u32,
}

impl State {
    /// The geometry the shape-swap flag selects.
    pub open spec fn active_shape(self) -> Shape {
        if self.pentagon {
            Shape::Pentagon
        } else {
            Shape::Alternate
        }
    }

    /// Session invariant: the surface configuration matches the last known
    /// window size; the pipeline is the fixed one for the configured format;
    /// both buffers belong to the active shape — never one shape's vertices
    /// with the other's indices — and the stored index count is exactly the
    /// length of the active shape's index list.
    pub open spec fn wf(self) -> bool {
        &&& self.config.width == self.size.width
        &&& self.config.height == self.size.height
        &&& self.pipeline == spec_pipeline_plan(self.config.format)
        &&& self.vertex_buffer.shape == self.active_shape()
        &&& self.vertex_buffer.vertex_count == spec_vertex_count(self.active_shape())
        &&& self.index_buffer.shape == self.active_shape()
        &&& self.index_buffer.bytes@.len() == 2 * spec_indices(self.active_shape()).len()
        &&& self.num_indices == spec_indices(self.active_shape()).len()
    }

    /// Constructs the session from the bootstrap's decisions: the negotiated
    /// format and the window's initial size. The session starts on the
    /// pentagon, with its buffers uploaded and its 9 indices counted.
    pub fn new(format: SurfaceFormat, size: WindowSize) -> (s: State)
        ensures
            s.wf(),
            s.pentagon == true,
            s.active_shape() == Shape::Pentagon,
            s.config == spec_initial_config(format, size.width, size.height),
            s.size == size,
            s.pipeline == spec_pipeline_plan(format),
            s.num_indices == 9,
    {
        let config = initial_config(format, size.width, size.height);
        let pipeline = build_pipeline_plan(format);
        let indices = shape_indices(Shape::Pentagon);
        let bytes = index_bytes(&indices);
        proof {
            lemma_catalog_wf(Shape::Pentagon);
        }
        let n = indices.len();
        State {
            config,
            size,
            pipeline,
            vertex_buffer: VertexBufferModel {
                shape: Shape::Pentagon,
                vertex_count: vertex_count(Shape::Pentagon),
            },
            index_buffer: IndexBufferModel { shape: Shape::Pentagon, bytes },
            pentagon: true,
            num_indices: n as u32,
        }
    }

    /// What resize does to the session: with a usable size the stored
    /// configuration and last known size follow the window; a degenerate size
    /// (a minimized window) changes nothing.
    pub open spec fn spec_resize(self, new_size: WindowSize) -> State {
        if new_size.width > 0 && new_size.height > 0 {
            State {
                config: SurfaceConfig {
                    usage: self.config.usage,
                    format: self.config.format,
                    width: new_size.width,
                    height: new_size.height,
                    present_mode: self.config.present_mode,
                    alpha_mode: self.config.alpha_mode,
                },
                size: new_size,
                pipeline: self.pipeline,
                vertex_buffer: self.vertex_buffer,
                index_buffer: self.index_buffer,
                pentagon: self.pentagon,
                num_indices: self.num_indices,
            }
        } else {
            self
        }
    }

    /// Resize: updates the stored configuration and last known size unless
    /// either dimension is zero. Returns whether the caller must re-apply the
    /// configuration to the surface — exactly when something changed.
    pub fn resize(&mut self, new_size: WindowSize) -> (reconfigure: bool)
        ensures
            *final(self) == old(self).spec_resize(new_size),
            reconfigure == (new_size.width > 0 && new_size.height > 0),
            old(self).wf() ==> final(self).wf(),
    {
        if new_size.width > 0 && new_size.height > 0 {
            self.size = new_size;
            self.config.width = new_size.width;
            self.config.height = new_size.height;
            true
        } else {
            false
        }
    }

    /// Per-tick update hook, reserved for future animation state; changes
    /// nothing today.
    pub fn update(&mut self)
        ensures
            *final(self) == *old(self),
    {
    }

    /// The shape-swap transition: flips the active-shape flag, replaces both
    /// buffer models with freshly built ones for the new shape — never
    /// leaving one shape's vertices paired with the other's indices — and
    /// stores the new index count. Configuration, size and pipeline are
    /// untouched.
    pub fn change_shape(&mut self)
        ensures
            final(self).pentagon == !old(self).pentagon,
            final(self).active_shape() == old(self).active_shape().spec_toggle(),
            final(self).num_indices == spec_indices(final(self).active_shape()).len(),
            final(self).vertex_buffer.shape == final(self).active_shape(),
            final(self).vertex_buffer.vertex_count == spec_vertex_count(
                final(self).active_shape(),
            ),
            final(self).index_buffer.shape == final(self).active_shape(),
            final(self).index_buffer.bytes@.len() == 2 * spec_indices(
                final(self).active_shape(),
            ).len(),
            final(self).config == old(self).config,
            final(self).size == old(self).size,
            final(self).pipeline == old(self).pipeline,
            old(self).wf() ==> final(self).wf(),
    {
        self.pentagon = !self.pentagon;
        let shape = if self.pentagon {
            Shape::Pentagon
        } else {
            Shape::Alternate
        };
        let indices = shape_indices(shape);
        let bytes = index_bytes(&indices);
        proof {
            lemma_catalog_wf(shape);
        }
        let n = indices.len();
        self.vertex_buffer = VertexBufferModel { shape, vertex_count: vertex_count(shape) };
        self.index_buffer = IndexBufferModel { shape, bytes };
        self.num_indices = n as u32;
    }

    /// The shape the session currently draws.
    pub fn current_shape(&self) -> (s: Shape)
        ensures
            s == self.active_shape(),
    {
        if self.pentagon {
            Shape::Pentagon
        } else {
            Shape::Alternate
        }
    }
}

/// Law: resizing to a degenerate size — either dimension zero — is a no-op:
/// the stored configuration and the whole session are unchanged, so the
/// surface is not reconfigured.
pub proof fn lemma_resize_zero_is_noop(s: State, n: WindowSize)
    requires
        n.width == 0 || n.height == 0,
    ensures
        s.spec_resize(n) == s,
{
}

/// Law: in a well-formed session the index count the renderer draws with is
/// exactly the length of the active shape's index list, and every index in
/// that list refers to a vertex the active vertex buffer holds. This is what
/// a shape swap re-establishes for the next render.
pub proof fn lemma_draw_stays_in_bounds(s: State)
    requires
        s.wf(),
    ensures
        s.num_indices == spec_indices(s.active_shape()).len(),
        forall|i: int|
            0 <= i < spec_indices(s.active_shape()).len() ==> spec_indices(s.active_shape())[i]
                < s.vertex_buffer.vertex_count,
{
    lemma_catalog_wf(s.active_shape());
}

} // verus!
