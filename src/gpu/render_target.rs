//! Render targets and the clear state.
use vstd::prelude::*;
use crate::prelude::{F64_ONE, F64_ZERO};

verus! {

/// The values that a clear writes into the color, depth and stencil
/// buffers. Color and depth are binary64 bit patterns.
#[derive(Debug, Clone, Copy, PartialEq, Eq, Structural)]
pub struct ClearState {
    /// Red component.
    pub red: u64,
    /// Green component.
    pub green: u64,
    /// Blue component.
    pub blue: u64,
    /// Alpha component.
    pub alpha: u64,
    /// Depth value.
    pub depth: u64,
    /// Stencil value.
    pub stencil: u32,
}

impl ClearState {
    /// Creates a clear state: opaque black, depth 1 and stencil 0 unless said
    /// otherwise.
    pub fn new(
        red: Option<u64>,
        green: Option<u64>,
        blue: Option<u64>,
        alpha: Option<u64>,
        depth: Option<u64>,
        stencil: Option<u32>,
    ) -> (r: Self)
        ensures
            r.red == match red { Some(v) => v, None => F64_ZERO },
            r.green == match green { Some(v) => v, None => F64_ZERO },
            r.blue == match blue { Some(v) => v, None => F64_ZERO },
            r.alpha == match alpha { Some(v) => v, None => F64_ONE },
            r.depth == match depth { Some(v) => v, None => F64_ONE },
            r.stencil == match stencil { Some(v) => v, None => 0u32 },
    {
        ClearState {
            red: match red {
                Some(v) => v,
                None => F64_ZERO,
            },
            green: match green {
                Some(v) => v,
                None => F64_ZERO,
            },
            blue: match blue {
                Some(v) => v,
                None => F64_ZERO,
            },
            alpha: match alpha {
                Some(v) => v,
                None => F64_ONE,
            },
            depth: match depth {
                Some(v) => v,
                None => F64_ONE,
            },
            stencil: match stencil {
                Some(v) => v,
                None => 0,
            },
        }
    }
}

/// A color render target.
#[derive(Debug, Clone, Copy, PartialEq, Eq, Structural)]
pub struct ColorTarget {
    /// Width in pixels.
    pub width: u32,
    /// Height in pixels.
    pub height: u32,
    /// Number of samples; 0 when not multisampled.
    pub multisample: u32,
}

impl ColorTarget {
    /// Creates a color target; not multisampled unless said otherwise.
    pub fn new(width: u32, height: u32, multisample: Option<u32>) -> (r: Self)
        ensures
            r.width == width,
            r.height == height,
            r.multisample == match multisample { Some(v) => v, None => 0u32 },
    {
        ColorTarget {
            width,
            height,
            multisample: match multisample {
                Some(v) => v,
                None => 0,
            },
        }
    }
}

/// A depth render target.
#[derive(Debug, Clone, Copy, PartialEq, Eq, Structural)]
pub struct DepthTarget {
    /// Width in pixels.
    pub width: u32,
    /// Height in pixels.
    pub height: u32,
    /// Number of samples; 0 when not multisampled.
    pub multisample: u32,
}

impl DepthTarget {
    /// Creates a depth target; not multisampled unless said otherwise.
    pub fn new(width: u32, height: u32, multisample: Option<u32>) -> (r: Self)
        ensures
            r.width == width,
            r.height == height,
            r.multisample == match multisample { Some(v) => v, None => 0u32 },
    {
        DepthTarget {
            width,
            height,
            multisample: match multisample {
                Some(v) => v,
                None => 0,
            },
        }
    }
}

/// A complete render target (frame buffer).
#[derive(Debug, Clone, Copy, PartialEq, Eq, Structural)]
pub struct RenderTarget {
    /// Width in pixels.
    pub width: u32,
    /// Height in pixels.
    pub height: u32,
    /// Whether it has a color attachment.
    pub has_color: bool,
    /// Whether it has a depth attachment.
    pub has_depth: bool,
}

impl RenderTarget {
    /// Creates a render target.
    pub fn new(width: u32, height: u32, has_color: bool, has_depth: bool) -> (r: Self)
        ensures
            r.width == width,
            r.height == height,
            r.has_color == has_color,
            r.has_depth == has_depth,
    {
        RenderTarget {
            width,
            height,
            has_color,
            has_depth,
        }
    }
}

/// A multisampled color render target.
#[derive(Debug, Clone, Copy, PartialEq, Eq, Structural)]
pub struct ColorTargetMultisample {
    /// Width in pixels.
    pub width: u32,
    /// Height in pixels.
    pub height: u32,
    /// Number of samples.
    pub samples: u32,
}

impl ColorTargetMultisample {
    /// Creates a multisampled color render target.
    pub fn new(width: u32, height: u32, samples: u32) -> (r: Self)
        ensures
            r.width == width,
            r.height == height,
            r.samples == samples,
    {
        ColorTargetMultisample {
            width,
            height,
            samples,
        }
    }
}

/// A multisampled depth render target.
#[derive(Debug, Clone, Copy, PartialEq, Eq, Structural)]
pub struct DepthTargetMultisample {
    /// Width in pixels.
    pub width: u32,
    /// Height in pixels.
    pub height: u32,
    /// Number of samples.
    pub samples: u32,
}

impl DepthTargetMultisample {
    /// Creates a multisampled depth render target.
    pub fn new(width: u32, height: u32, samples: u32) -> (r: Self)
        ensures
            r.width == width,
            r.height == height,
            r.samples == samples,
    {
        DepthTargetMultisample {
            width,
            height,
            samples,
        }
    }
}

/// A multisampled render target.
#[derive(Debug, Clone, Copy, PartialEq, Eq, Structural)]
pub struct RenderTargetMultisample {
    /// Width in pixels.
    pub width: u32,
    /// Height in pixels.
    pub height: u32,
    /// Number of samples.
    pub samples: u32,
}

impl RenderTargetMultisample {
    /// Creates a multisampled render target.
    pub fn new(width: u32, height: u32, samples: u32) -> (r: Self)
        ensures
            r.width == width,
            r.height == height,
            r.samples == samples,
    {
        RenderTargetMultisample {
            width,
            height,
            samples,
        }
    }
}

/// Color texture configuration enum.
#[derive(Debug, Clone, Copy, PartialEq, Eq, Structural)]
pub enum ColorTexture {
    Texture2D,
    Texture2DArray,
    TextureCube,
    Texture2DMultisample,
    Texture2DArrayMultisample,
}

impl ColorTexture {
    /// The native graphics constant that this variant stands for.
    pub open spec fn code(self) -> u32 {
        match self {
            ColorTexture::Texture2D => 0,
            ColorTexture::Texture2DArray => 1,
            ColorTexture::TextureCube => 2,
            ColorTexture::Texture2DMultisample => 3,
            ColorTexture::Texture2DArrayMultisample => 4,
        }
    }

    /// The variant whose native constant is `code`, if any.
    pub open spec fn decode(code: u32) -> Option<Self> {
        if code == 0 {
            Some(ColorTexture::Texture2D)
        } else if code == 1 {
            Some(ColorTexture::Texture2DArray)
        } else if code == 2 {
            Some(ColorTexture::TextureCube)
        } else if code == 3 {
            Some(ColorTexture::Texture2DMultisample)
        } else if code == 4 {
            Some(ColorTexture::Texture2DArrayMultisample)
        } else {
            None
        }
    }

    /// Returns the native graphics constant of this variant.
    pub fn to_code(&self) -> (r: u32)
        ensures
            r == self.code(),
    {
        match self {
            ColorTexture::Texture2D => 0,
            ColorTexture::Texture2DArray => 1,
            ColorTexture::TextureCube => 2,
            ColorTexture::Texture2DMultisample => 3,
            ColorTexture::Texture2DArrayMultisample => 4,
        }
    }

    /// Returns the variant whose native constant is `code`, or `None` when no
    /// variant carries it.
    pub fn from_code(code: u32) -> (r: Option<Self>)
        ensures
            r == Self::decode(code),
            forall|v: Self| #[trigger] v.code() == code <==> r == Some(v),
    {
        match code {
            0 => Some(ColorTexture::Texture2D),
            1 => Some(ColorTexture::Texture2DArray),
            2 => Some(ColorTexture::TextureCube),
            3 => Some(ColorTexture::Texture2DMultisample),
            4 => Some(ColorTexture::Texture2DArrayMultisample),
            _ => None,
        }
    }
}

/// Depth texture configuration enum.
#[derive(Debug, Clone, Copy, PartialEq, Eq, Structural)]
pub enum DepthTexture {
    Texture2D,
    Texture2DArray,
    Texture2DMultisample,
    Texture2DArrayMultisample,
}

impl DepthTexture {
    /// The native graphics constant that this variant stands for.
    pub open spec fn code(self) -> u32 {
        match self {
            DepthTexture::Texture2D => 0,
            DepthTexture::Texture2DArray => 1,
            DepthTexture::Texture2DMultisample => 2,
            DepthTexture::Texture2DArrayMultisample => 3,
        }
    }

    /// The variant whose native constant is `code`, if any.
    pub open spec fn decode(code: u32) -> Option<Self> {
        if code == 0 {
            Some(DepthTexture::Texture2D)
        } else if code == 1 {
            Some(DepthTexture::Texture2DArray)
        } else if code == 2 {
            Some(DepthTexture::Texture2DMultisample)
        } else if code == 3 {
            Some(DepthTexture::Texture2DArrayMultisample)
        } else {
            None
        }
    }

    /// Returns the native graphics constant of this variant.
    pub fn to_code(&self) -> (r: u32)
        ensures
            r == self.code(),
    {
        match self {
            DepthTexture::Texture2D => 0,
            DepthTexture::Texture2DArray => 1,
            DepthTexture::Texture2DMultisample => 2,
            DepthTexture::Texture2DArrayMultisample => 3,
        }
    }

    /// Returns the variant whose native constant is `code`, or `None` when no
    /// variant carries it.
    pub fn from_code(code: u32) -> (r: Option<Self>)
        ensures
            r == Self::decode(code),
            forall|v: Self| #[trigger] v.code() == code <==> r == Some(v),
    {
        match code {
            0 => Some(DepthTexture::Texture2D),
            1 => Some(DepthTexture::Texture2DArray),
            2 => Some(DepthTexture::Texture2DMultisample),
            3 => Some(DepthTexture::Texture2DArrayMultisample),
            _ => None,
        }
    }
}

} // verus!
