//! The surface manager: building, applying and re-applying the presentation
//! surface's configuration, kept in step with the window size.

use vstd::prelude::*;
use crate::format::PixelFormat;
use crate::format::add_srgb_suffix;

verus! {

/// A window's physical size in pixels.
#[derive(Clone, Copy, Debug, PartialEq, Eq, Structural)]
pub struct Extent {
    pub width: u32,
    pub height: u32,
}

/// How acquired textures may be used; the swap surface is only ever a render
/// target.
#[derive(Clone, Copy, Debug, PartialEq, Eq, Structural)]
pub enum TextureUsage {
    RenderAttachment,
}

/// The presentation mode requested for the surface.
#[derive(Clone, Copy, Debug, PartialEq, Eq, Structural)]
pub enum PresentMode {
    AutoVsync,
    AutoNoVsync,
}

/// The alpha compositing mode requested for the surface.
#[derive(Clone, Copy, Debug, PartialEq, Eq, Structural)]
pub enum AlphaMode {
    Auto,
    Opaque,
}

/// The most frames that may be queued ahead of presentation: bounds latency
/// and memory.
pub const MAX_FRAME_LATENCY: u32 = 2;

/// Everything a surface configuration states: usage, pixel format, extent,
/// presentation and alpha modes, the extra view formats, and the frame
/// latency bound.
#[derive(Clone, Debug, PartialEq, Eq)]
pub struct SurfaceConfig {
    pub usage: TextureUsage,
    pub format: PixelFormat,
    pub width: u32,
    pub height: u32,
    pub present_mode: PresentMode,
    pub alpha_mode: AlphaMode,
    pub view_formats: Vec<PixelFormat>,
    pub desired_maximum_frame_latency: u32,
}

impl SurfaceConfig {
    /// The configured extent.
    pub open spec fn extent(self) -> Extent {
        Extent { width: self.width, height: self.height }
    }

    /// Everything observable about a configuration, as one value; two
    /// configurations with equal observations configure a surface
    /// identically.
    pub open spec fn obs(self) -> (TextureUsage, PixelFormat, Extent, PresentMode, AlphaMode, Seq<PixelFormat>, u32) {
        (self.usage, self.format, self.extent(), self.present_mode, self.alpha_mode, self.view_formats@, self.desired_maximum_frame_latency)
    }

    /// The one configuration this renderer ever applies for a working format
    /// and a window size: a render-target surface in that format and size,
    /// vsync-aware presentation, automatic alpha compositing, exactly one
    /// extra view format (the sRGB-suffixed variant of the working format),
    /// and at most `MAX_FRAME_LATENCY` queued frames.
    pub open spec fn is_for(self, format: PixelFormat, size: Extent) -> bool {
        &&& self.usage == TextureUsage::RenderAttachment
        &&& self.format == format
        &&& self.width == size.width
        &&& self.height == size.height
        &&& self.present_mode == PresentMode::AutoVsync
        &&& self.alpha_mode == AlphaMode::Auto
        &&& self.view_formats@ == seq![format.srgb_variant()]
        &&& self.desired_maximum_frame_latency == MAX_FRAME_LATENCY
    }
}

/// Build the configuration for a working format and a window size.
pub fn make_config(format: PixelFormat, size: Extent) -> (c: SurfaceConfig)
    ensures
        c.is_for(format, size),
{
    let mut view_formats: Vec<PixelFormat> = Vec::new();
    view_formats.push(add_srgb_suffix(format));
    let c = SurfaceConfig {
        usage: TextureUsage::RenderAttachment,
        format,
        width: size.width,
        height: size.height,
        present_mode: PresentMode::AutoVsync,
        alpha_mode: AlphaMode::Auto,
        view_formats,
        desired_maximum_frame_latency: MAX_FRAME_LATENCY,
    };
    proof {
        assert(c.view_formats@ =~= seq![format.srgb_variant()]);
    }
    c
}

/// Law: configuration is deterministic — any two configurations built for the
/// same working format and the same size are observably equal, so applying
/// the configuration twice in succession with the same size is idempotent.
pub proof fn lemma_configure_idempotent(c1: SurfaceConfig, c2: SurfaceConfig, format: PixelFormat, size: Extent)
    requires
        c1.is_for(format, size),
        c2.is_for(format, size),
    ensures
        c1.obs() == c2.obs(),
{
}

/// Owns the working pixel format, the last-known window size, and the
/// configuration currently applied to the surface.
#[derive(Clone, Debug, PartialEq, Eq)]
pub struct SurfaceManager {
    pub format: PixelFormat,
    pub size: Extent,
    pub config: SurfaceConfig,
}

impl SurfaceManager {
    /// The manager's invariant: the applied configuration is exactly the one
    /// for the working format and the last-known window size — in
    /// particular, the configured extent always equals that size.
    pub open spec fn wf(self) -> bool {
        self.config.is_for(self.format, self.size)
    }

    /// Create a manager for a freshly negotiated working format and the
    /// window's initial size, with its configuration already built.
    pub fn new(format: PixelFormat, size: Extent) -> (m: SurfaceManager)
        ensures
            m.wf(),
            m.format == format,
            m.size == size,
    {
        let config = make_config(format, size);
        SurfaceManager { format, size, config }
    }

    /// Rebuild and re-apply the configuration for the current format and
    /// size. Re-applying with an unchanged size is idempotent: the
    /// observable configuration does not change.
    pub fn configure(&mut self)
        ensures
            final(self).format == old(self).format,
            final(self).size == old(self).size,
            final(self).wf(),
            old(self).wf() ==> final(self).config.obs() == old(self).config.obs(),
    {
        self.config = make_config(self.format, self.size);
    }

    /// Track a new window size and reconfigure the surface for it: after the
    /// call the configured extent equals the new size.
    pub fn resize(&mut self, new_size: Extent)
        ensures
            final(self).format == old(self).format,
            final(self).size == new_size,
            final(self).wf(),
            final(self).config.extent() == new_size,
    {
        self.size = new_size;
        self.configure();
    }
}

/// Why initialization could not complete; each is an unrecoverable
/// environment error that the driver reports and aborts on.
#[derive(Clone, Copy, Debug, PartialEq, Eq, Structural)]
pub enum InitError {
    /// No GPU adapter supporting the requested backend was found.
    NoAdapter,
    /// The adapter refused to provide a logical device and queue.
    NoDevice,
    /// No drawable surface could be created for the window.
    NoSurface,
    /// The surface reported no supported pixel format.
    NoFormats,
}

/// Select the working pixel format from the surface's capability list: the
/// first reported format; an empty list is an environment error.
pub fn select_format(formats: &Vec<PixelFormat>) -> (r: Result<PixelFormat, InitError>)
    ensures
        formats@.len() > 0 ==> r == Ok::<PixelFormat, InitError>(formats@[0]),
        formats@.len() == 0 ==> r == Err::<PixelFormat, InitError>(InitError::NoFormats),
{
    if formats.len() > 0 {
        Ok(formats[0])
    } else {
        Err(InitError::NoFormats)
    }
}

/// The decision core of initialization. The driver performs the three
/// fallible environment steps — find an adapter, obtain a device and queue,
/// create the surface — and hands their outcomes here together with the
/// surface's reported formats and the window's size; this function decides,
/// in that order, whether initialization failed and on what, or yields a
/// configured surface manager whose working format is the first reported
/// one.
pub fn plan_initialization(
    adapter_found: bool,
    device_obtained: bool,
    surface_created: bool,
    formats: &Vec<PixelFormat>,
    size: Extent,
) -> (r: Result<SurfaceManager, InitError>)
    ensures
        !adapter_found ==> r == Err::<SurfaceManager, InitError>(InitError::NoAdapter),
        adapter_found && !device_obtained ==> r == Err::<SurfaceManager, InitError>(InitError::NoDevice),
        adapter_found && device_obtained && !surface_created ==> r == Err::<SurfaceManager, InitError>(InitError::NoSurface),
        adapter_found && device_obtained && surface_created && formats@.len() == 0 ==> r == Err::<SurfaceManager, InitError>(InitError::NoFormats),
        adapter_found && device_obtained && surface_created && formats@.len() > 0 ==> (r matches Ok(m)
            && m.wf() && m.format == formats@[0] && m.size == size),
{
    if !adapter_found {
        return Err(InitError::NoAdapter);
    }
    if !device_obtained {
        return Err(InitError::NoDevice);
    }
    if !surface_created {
        return Err(InitError::NoSurface);
    }
    let format = match select_format(formats) {
        Ok(f) => f,
        Err(e) => {
            return Err(e);
        },
    };
    Ok(SurfaceManager::new(format, size))
}

} // verus!
