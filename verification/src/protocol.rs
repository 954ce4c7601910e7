//! Messages exchanged between a front-end and the engine.

use vstd::prelude::*;

verus! {

/// Width in pixels of a preview render.
pub const PREVIEW_WIDTH: u32 = 256;

/// Height in pixels of a preview render.
pub const PREVIEW_HEIGHT: u32 = 256;

/// Which of the two resolution tiers a render targets.
#[derive(Clone, Copy, Debug, PartialEq, Eq, Structural)]
pub enum RenderType {
    /// The cheap pass at the fixed preview resolution.
    PreviewRender,
    /// The pass at the resolution of the display's framebuffer.
    FullRender,
}

impl RenderType {
    /// The resolution of a render of this kind on a display whose framebuffer
    /// measures `full_width` by `full_height`.
    pub open spec fn spec_resolution(self, full_width: u32, full_height: u32) -> (u32, u32) {
        match self {
            RenderType::PreviewRender => (PREVIEW_WIDTH, PREVIEW_HEIGHT),
            RenderType::FullRender => (full_width, full_height),
        }
    }

    /// Width and height, in pixels, of a render of this kind.
    #[verifier::when_used_as_spec(spec_resolution)]
    pub fn resolution(self, full_width: u32, full_height: u32) -> (dims: (u32, u32))
        ensures
            dims == self.spec_resolution(full_width, full_height),
    {
        match self {
            RenderType::PreviewRender => (PREVIEW_WIDTH, PREVIEW_HEIGHT),
            RenderType::FullRender => (full_width, full_height),
        }
    }
}

/// A rectangle of the complex plane, `re0..re1` by `im0..im1`. Each bound is the
/// bit pattern of a single-precision number; the library stores and hands on the
/// patterns and never interprets them.
#[derive(Clone, Copy, Debug, PartialEq, Eq, Structural)]
pub struct Region {
    pub re0: u32,
    pub re1: u32,
    pub im0: u32,
    pub im1: u32,
}

/// Bit pattern of -1.4, the left edge of the initial view.
pub const DEFAULT_RE0: u32 = 0xBFB3_3333;

/// Bit pattern of 0.6, the right edge of the initial view.
pub const DEFAULT_RE1: u32 = 0x3F19_999A;

/// Bit pattern of -1.0, the lower edge of the initial view.
pub const DEFAULT_IM0: u32 = 0xBF80_0000;

/// Bit pattern of 1.0, the upper edge of the initial view.
pub const DEFAULT_IM1: u32 = 0x3F80_0000;

impl Region {
    /// The view an engine starts with: -1.4..0.6 by -1.0..1.0.
    pub open spec fn spec_initial() -> Region {
        Region { re0: DEFAULT_RE0, re1: DEFAULT_RE1, im0: DEFAULT_IM0, im1: DEFAULT_IM1 }
    }

    /// The view an engine starts with: -1.4..0.6 by -1.0..1.0.
    #[verifier::when_used_as_spec(spec_initial)]
    pub fn initial() -> (r: Region)
        ensures
            r == Region::initial(),
    {
        Region { re0: DEFAULT_RE0, re1: DEFAULT_RE1, im0: DEFAULT_IM0, im1: DEFAULT_IM1 }
    }
}

/// A message from a front-end to the engine.
#[derive(Clone, Copy, Debug, PartialEq, Eq, Structural)]
pub enum EngineCommand {
    /// Replace the view by the rectangle `re0, re1, im0, im1`, each the bit
    /// pattern of a single-precision number.
    UpdateRegion(u32, u32, u32, u32),
    ZoomIn,
    ZoomOut,
    PanLeft,
    PanRight,
    PanUp,
    PanDown,
    /// Render the current view at the resolution of the given kind.
    Render(RenderType),
    /// End the engine's command loop.
    Shutdown,
}

/// A message from the engine to a front-end.
#[derive(Debug)]
pub enum EngineStatus {
    /// A render has begun.
    Startup,
    /// The row with this index has been completed.
    Processing(u32),
    /// A render of the given kind has ended; the bytes are its pixels, three per
    /// pixel (red, green, blue), row by row.
    RenderComplete(RenderType, Vec<u8>),
    /// Reserved: the engine never sends it.
    Error(u32),
}

/// What an [`EngineStatus`] says, with the pixel buffer as a sequence.
pub ghost enum StatusView {
    Startup,
    Processing(u32),
    RenderComplete(RenderType, Seq<u8>),
    Error(u32),
}

impl View for EngineStatus {
    type V = StatusView;

    open spec fn view(&self) -> StatusView {
        match *self {
            EngineStatus::Startup => StatusView::Startup,
            EngineStatus::Processing(row) => StatusView::Processing(row),
            EngineStatus::RenderComplete(kind, pixels) => StatusView::RenderComplete(kind, pixels@),
            EngineStatus::Error(code) => StatusView::Error(code),
        }
    }
}

/// What an optional status message says.
pub open spec fn status_view(status: Option<EngineStatus>) -> Option<StatusView> {
    match status {
        Some(s) => Some(s@),
        None => None,
    }
}

} // verus!
