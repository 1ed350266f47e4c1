//! Pixel formats a presentation surface can report, and their sRGB variants.

use vstd::prelude::*;

verus! {

/// A surface pixel format, held as a plain value.
///
/// The model covers the 8-bit swapchain formats a surface commonly reports,
/// in their linear and sRGB-suffixed variants; the driver converts between
/// these and the GPU API's own format type.
#[derive(Clone, Copy, Debug, PartialEq, Eq, Structural)]
pub enum PixelFormat {
    Rgba8Unorm,
    Rgba8UnormSrgb,
    Bgra8Unorm,
    Bgra8UnormSrgb,
}

impl PixelFormat {
    /// The sRGB-suffixed variant of a format: the variant that applies
    /// gamma-correct color interpretation on top of the same storage layout.
    /// A format that is already sRGB is its own variant.
    pub open spec fn srgb_variant(self) -> PixelFormat {
        match self {
            PixelFormat::Rgba8Unorm => PixelFormat::Rgba8UnormSrgb,
            PixelFormat::Bgra8Unorm => PixelFormat::Bgra8UnormSrgb,
            PixelFormat::Rgba8UnormSrgb => PixelFormat::Rgba8UnormSrgb,
            PixelFormat::Bgra8UnormSrgb => PixelFormat::Bgra8UnormSrgb,
        }
    }

    /// Whether a format interprets color values as sRGB.
    pub open spec fn is_srgb(self) -> bool {
        match self {
            PixelFormat::Rgba8UnormSrgb => true,
            PixelFormat::Bgra8UnormSrgb => true,
            PixelFormat::Rgba8Unorm => false,
            PixelFormat::Bgra8Unorm => false,
        }
    }
}

/// Relies on `wgpu::TextureFormat::add_srgb_suffix`: it maps `Rgba8Unorm` to
/// `Rgba8UnormSrgb` and `Bgra8Unorm` to `Bgra8UnormSrgb`, and returns any
/// format without a distinct sRGB variant (here, the already-sRGB ones)
/// unchanged.
#[verifier::external_body]
pub(crate) fn add_srgb_suffix(f: PixelFormat) -> (r: PixelFormat)
    ensures
        r == f.srgb_variant(),
{
    let w = match f {
        PixelFormat::Rgba8Unorm => wgpu::TextureFormat::Rgba8Unorm,
        PixelFormat::Rgba8UnormSrgb => wgpu::TextureFormat::Rgba8UnormSrgb,
        PixelFormat::Bgra8Unorm => wgpu::TextureFormat::Bgra8Unorm,
        PixelFormat::Bgra8UnormSrgb => wgpu::TextureFormat::Bgra8UnormSrgb,
    };
    match w.add_srgb_suffix() {
        wgpu::TextureFormat::Rgba8UnormSrgb => PixelFormat::Rgba8UnormSrgb,
        wgpu::TextureFormat::Bgra8UnormSrgb => PixelFormat::Bgra8UnormSrgb,
        _ => f,
    }
}

/// The sRGB-suffixed variant of `f`, proved against the model.
pub fn srgb_suffixed(f: PixelFormat) -> (r: PixelFormat)
    ensures
        r == f.srgb_variant(),
        r.is_srgb(),
{
    let r = add_srgb_suffix(f);
    r
}

} // verus!
