//! The frame driver: what exactly one redraw records, submits and presents.

use vstd::prelude::*;
use crate::format::PixelFormat;
use crate::format::srgb_suffixed;

verus! {

/// A clear color, one byte per channel; 255 is full intensity.
#[derive(Clone, Copy, Debug, PartialEq, Eq, Structural)]
pub struct Color {
    pub r: u8,
    pub g: u8,
    pub b: u8,
    pub a: u8,
}

/// Opaque black: every frame is cleared to it.
pub open spec fn opaque_black() -> Color {
    Color { r: 0, g: 0, b: 0, a: 255 }
}

/// What a color attachment does with the texels already present when the
/// pass begins.
#[derive(Clone, Copy, Debug, PartialEq, Eq, Structural)]
pub enum LoadOp {
    /// Discard the previous contents and fill with the color.
    Clear(Color),
    /// Keep the previous contents.
    Load,
}

/// What a color attachment does with the pass's results.
#[derive(Clone, Copy, Debug, PartialEq, Eq, Structural)]
pub enum StoreOp {
    Store,
    Discard,
}

/// The load/store pair of one color attachment.
#[derive(Clone, Copy, Debug, PartialEq, Eq, Structural)]
pub struct Operations {
    pub load: LoadOp,
    pub store: StoreOp,
}

/// One color attachment of a render pass: the acquired texture it targets
/// (by the driver-assigned id), the format of the view written through, and
/// its load/store operations.
#[derive(Clone, Copy, Debug, PartialEq, Eq, Structural)]
pub struct ColorAttachment {
    pub texture: u64,
    pub view_format: PixelFormat,
    pub ops: Operations,
}

/// One recorded render pass.
#[derive(Clone, Debug, PartialEq, Eq)]
pub struct RenderPass {
    pub color_attachments: Vec<ColorAttachment>,
    pub has_depth_stencil: bool,
}

/// One step of the per-frame protocol, in the order the driver must perform
/// it.
#[derive(Clone, Copy, Debug, PartialEq, Eq, Structural)]
pub enum FrameStep {
    /// Acquire the next drawable texture from the surface.
    Acquire { texture: u64 },
    /// Create a view of the acquired texture in the given format.
    CreateView { view_texture: u64, view_format: PixelFormat },
    /// Open the one render pass, targeting the acquired texture.
    BeginPass { pass_texture: u64 },
    /// Close the pass's recording scope.
    EndPass,
    /// Finish the command encoder; the pass must already be closed.
    FinishEncoder,
    /// Submit the finished commands to the queue as a single batch.
    Submit,
    /// Tell the window system that presentation is about to occur.
    PrePresentNotify,
    /// Present the acquired texture.
    Present { presented: u64 },
}

/// The per-frame protocol for one acquired texture and one working format:
/// acquire, view in the sRGB-suffixed format, record one pass, close it,
/// finish the encoder, submit, notify, present — in exactly this order.
pub open spec fn protocol_steps(texture: u64, format: PixelFormat) -> Seq<FrameStep> {
    seq![
        FrameStep::Acquire { texture },
        FrameStep::CreateView { view_texture: texture, view_format: format.srgb_variant() },
        FrameStep::BeginPass { pass_texture: texture },
        FrameStep::EndPass,
        FrameStep::FinishEncoder,
        FrameStep::Submit,
        FrameStep::PrePresentNotify,
        FrameStep::Present { presented: texture },
    ]
}

/// Everything one redraw does: the passes it records and the ordered steps
/// the driver performs.
#[derive(Clone, Debug, PartialEq, Eq)]
pub struct FramePlan {
    pub acquired_texture: u64,
    pub passes: Vec<RenderPass>,
    pub steps: Vec<FrameStep>,
}

impl FramePlan {
    /// The plan a redraw must produce for an acquired texture and the
    /// surface's working format: exactly one render pass with exactly one
    /// color attachment, bound to a view of that texture in the
    /// sRGB-suffixed variant of the working format, clearing to opaque
    /// black and storing the result, with no depth/stencil attachment; and
    /// the protocol steps in their required order.
    pub open spec fn is_for(self, texture: u64, format: PixelFormat) -> bool {
        &&& self.acquired_texture == texture
        &&& self.passes@.len() == 1
        &&& self.passes@[0].color_attachments@ == seq![
                (ColorAttachment {
                    texture,
                    view_format: format.srgb_variant(),
                    ops: Operations { load: LoadOp::Clear(opaque_black()), store: StoreOp::Store },
                }),
            ]
        &&& !self.passes@[0].has_depth_stencil
        &&& self.steps@ == protocol_steps(texture, format)
    }
}

/// Build the plan of one redraw for the given acquired texture and working
/// format. The plan depends on nothing else — in particular not on any prior
/// frame's content.
pub fn plan_frame(texture: u64, format: PixelFormat) -> (p: FramePlan)
    ensures
        p.is_for(texture, format),
{
    let view_format = srgb_suffixed(format);
    let attachment = ColorAttachment {
        texture,
        view_format,
        ops: Operations { load: LoadOp::Clear(Color { r: 0, g: 0, b: 0, a: 255 }), store: StoreOp::Store },
    };
    let mut color_attachments: Vec<ColorAttachment> = Vec::new();
    color_attachments.push(attachment);
    let pass = RenderPass { color_attachments, has_depth_stencil: false };
    let mut passes: Vec<RenderPass> = Vec::new();
    passes.push(pass);
    let mut steps: Vec<FrameStep> = Vec::new();
    steps.push(FrameStep::Acquire { texture });
    steps.push(FrameStep::CreateView { view_texture: texture, view_format });
    steps.push(FrameStep::BeginPass { pass_texture: texture });
    steps.push(FrameStep::EndPass);
    steps.push(FrameStep::FinishEncoder);
    steps.push(FrameStep::Submit);
    steps.push(FrameStep::PrePresentNotify);
    steps.push(FrameStep::Present { presented: texture });
    let p = FramePlan { acquired_texture: texture, passes, steps };
    proof {
        assert(p.passes@[0].color_attachments@ =~= seq![attachment]);
        assert(p.steps@ =~= protocol_steps(texture, format));
    }
    p
}

/// Law: exactly one render pass is recorded per redraw, and it targets the
/// texture acquired by that same redraw — the plan opens a pass at exactly
/// one step, that pass targets the acquired texture, and the texture
/// presented is the one acquired. A redraw acquires exactly once, as its
/// first step, and presents that texture as its last, so at most one
/// acquired-but-not-presented texture is ever outstanding.
pub proof fn lemma_one_pass_per_redraw(p: FramePlan, texture: u64, format: PixelFormat)
    requires
        p.is_for(texture, format),
    ensures
        p.passes@.len() == 1,
        p.passes@[0].color_attachments@.len() == 1,
        p.passes@[0].color_attachments@[0].texture == texture,
        p.steps@[2] == (FrameStep::BeginPass { pass_texture: texture }),
        forall|i: int| 0 <= i < p.steps@.len() && p.steps@[i] is BeginPass ==> i == 2,
        p.steps@[0] == (FrameStep::Acquire { texture }),
        forall|i: int| 0 <= i < p.steps@.len() && p.steps@[i] is Acquire ==> i == 0,
        p.steps@[7] == (FrameStep::Present { presented: texture }),
        forall|i: int| 0 <= i < p.steps@.len() && p.steps@[i] is Present ==> i == 7,
{
    assert forall|i: int| 0 <= i < p.steps@.len() && p.steps@[i] is BeginPass implies i == 2 by {
        if i != 2 {
            assert(p.steps@ == protocol_steps(texture, format));
        }
    }
    assert forall|i: int| 0 <= i < p.steps@.len() && p.steps@[i] is Acquire implies i == 0 by {
        if i != 0 {
            assert(p.steps@ == protocol_steps(texture, format));
        }
    }
    assert forall|i: int| 0 <= i < p.steps@.len() && p.steps@[i] is Present implies i == 7 by {
        if i != 7 {
            assert(p.steps@ == protocol_steps(texture, format));
        }
    }
}

/// Law: the clear written by a redraw's one pass is always opaque black,
/// whatever was in the texture before — the load operation is a clear, never
/// a load, and its color is opaque black.
pub proof fn lemma_clear_is_opaque_black(p: FramePlan, texture: u64, format: PixelFormat)
    requires
        p.is_for(texture, format),
    ensures
        p.passes@[0].color_attachments@[0].ops.load == LoadOp::Clear(opaque_black()),
        p.passes@[0].color_attachments@[0].ops.load !is Load,
        opaque_black().a == 255,
        opaque_black().r == 0 && opaque_black().g == 0 && opaque_black().b == 0,
        p.passes@[0].color_attachments@[0].ops.store == StoreOp::Store,
{
}

/// Why a frame could not be rendered.
#[derive(Clone, Copy, Debug, PartialEq, Eq, Structural)]
pub enum FrameError {
    /// The surface could not provide the next drawable texture.
    NoTexture,
}

/// The decision on a frame acquisition's outcome: a texture, or the
/// unrecoverable error the driver aborts on. The driver attempts the
/// acquisition and hands its outcome here as a plain value.
pub fn acquire_outcome(acquired: Option<u64>) -> (r: Result<u64, FrameError>)
    ensures
        acquired matches Some(t) ==> r == Ok::<u64, FrameError>(t),
        acquired is None ==> r == Err::<u64, FrameError>(FrameError::NoTexture),
{
    match acquired {
        Some(t) => Ok(t),
        None => Err(FrameError::NoTexture),
    }
}

} // verus!
