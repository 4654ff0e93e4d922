//! Render state switches, and the state enumerations numbered as the engine
//! numbers them.
use vstd::prelude::*;

verus! {

/// Switches for blending, depth writes and tests, and face culling, with
/// the blend factors and cull face named by the host.
#[derive(Debug, Clone)]
pub struct RenderStates {
    /// Whether blending is enabled.
    pub blend: bool,
    /// Source blend factor, by name.
    pub blend_src: Option<String>,
    /// Destination blend factor, by name.
    pub blend_dest: Option<String>,
    /// Whether depth writes are enabled.
    pub depth_write: bool,
    /// Whether the depth test is enabled.
    pub depth_test: bool,
    /// Face to cull, by name.
    pub cull_face: Option<String>,
}

impl RenderStates {
    /// Creates render states: blending off, depth writes and test on, unless
    /// said otherwise.
    pub fn new(
        blend: Option<bool>,
        blend_src: Option<String>,
        blend_dest: Option<String>,
        depth_write: Option<bool>,
        depth_test: Option<bool>,
        cull_face: Option<String>,
    ) -> (r: Self)
        ensures
            r.blend == match blend { Some(v) => v, None => false },
            r.blend_src == blend_src,
            r.blend_dest == blend_dest,
            r.depth_write == match depth_write { Some(v) => v, None => true },
            r.depth_test == match depth_test { Some(v) => v, None => true },
            r.cull_face == cull_face,
    {
        RenderStates {
            blend: match blend {
                Some(v) => v,
                None => false,
            },
            blend_src,
            blend_dest,
            depth_write: match depth_write {
                Some(v) => v,
                None => true,
            },
            depth_test: match depth_test {
                Some(v) => v,
                None => true,
            },
            cull_face,
        }
    }

    /// Render states with blending off, depth writes and test on, and no blend
    /// factors or cull face named.
    pub fn new_default() -> (r: Self)
        ensures
            !r.blend,
            r.blend_src is None,
            r.blend_dest is None,
            r.depth_write,
            r.depth_test,
            r.cull_face is None,
    {
        RenderStates {
            blend: false,
            blend_src: None,
            blend_dest: None,
            depth_write: true,
            depth_test: true,
            cull_face: None,
        }
    }
}

/// Channel write mask for color/depth/stencil buffers.
#[derive(Debug, Clone, Copy, PartialEq, Eq, Structural)]
pub enum WriteMask {
    NoChannels,
    Color,
    Depth,
    Stencil,
    All,
}

impl WriteMask {
    /// The native graphics constant that this variant stands for.
    pub open spec fn code(self) -> u32 {
        match self {
            WriteMask::NoChannels => 0,
            WriteMask::Color => 1,
            WriteMask::Depth => 2,
            WriteMask::Stencil => 4,
            WriteMask::All => 7,
        }
    }

    /// The variant whose native constant is `code`, if any.
    pub open spec fn decode(code: u32) -> Option<Self> {
        if code == 0 {
            Some(WriteMask::NoChannels)
        } else if code == 1 {
            Some(WriteMask::Color)
        } else if code == 2 {
            Some(WriteMask::Depth)
        } else if code == 4 {
            Some(WriteMask::Stencil)
        } else if code == 7 {
            Some(WriteMask::All)
        } else {
            None
        }
    }

    /// Returns the native graphics constant of this variant.
    pub fn to_code(&self) -> (r: u32)
        ensures
            r == self.code(),
    {
        match self {
            WriteMask::NoChannels => 0,
            WriteMask::Color => 1,
            WriteMask::Depth => 2,
            WriteMask::Stencil => 4,
            WriteMask::All => 7,
        }
    }

    /// Returns the variant whose native constant is `code`, or `None` when no
    /// variant carries it.
    pub fn from_code(code: u32) -> (r: Option<Self>)
        ensures
            r == Self::decode(code),
            forall|v: Self| #[trigger] v.code() == code <==> r == Some(v),
    {
        match code {
            0 => Some(WriteMask::NoChannels),
            1 => Some(WriteMask::Color),
            2 => Some(WriteMask::Depth),
            4 => Some(WriteMask::Stencil),
            7 => Some(WriteMask::All),
            _ => None,
        }
    }
}

/// Blend function types for source/destination blends.
#[derive(Debug, Clone, Copy, PartialEq, Eq, Structural)]
pub enum Blend {
    Zero,
    One,
    SrcColor,
    OneMinusSrcColor,
    DstColor,
    OneMinusDstColor,
    SrcAlpha,
    OneMinusSrcAlpha,
    DstAlpha,
    OneMinusDstAlpha,
    ConstantColor,
    OneMinusConstantColor,
    ConstantAlpha,
    OneMinusConstantAlpha,
    SrcAlphaSaturate,
}

impl Blend {
    /// The native graphics constant that this variant stands for.
    pub open spec fn code(self) -> u32 {
        match self {
            Blend::Zero => 0,
            Blend::One => 1,
            Blend::SrcColor => 2,
            Blend::OneMinusSrcColor => 3,
            Blend::DstColor => 4,
            Blend::OneMinusDstColor => 5,
            Blend::SrcAlpha => 6,
            Blend::OneMinusSrcAlpha => 7,
            Blend::DstAlpha => 8,
            Blend::OneMinusDstAlpha => 9,
            Blend::ConstantColor => 10,
            Blend::OneMinusConstantColor => 11,
            Blend::ConstantAlpha => 12,
            Blend::OneMinusConstantAlpha => 13,
            Blend::SrcAlphaSaturate => 14,
        }
    }

    /// The variant whose native constant is `code`, if any.
    pub open spec fn decode(code: u32) -> Option<Self> {
        if code == 0 {
            Some(Blend::Zero)
        } else if code == 1 {
            Some(Blend::One)
        } else if code == 2 {
            Some(Blend::SrcColor)
        } else if code == 3 {
            Some(Blend::OneMinusSrcColor)
        } else if code == 4 {
            Some(Blend::DstColor)
        } else if code == 5 {
            Some(Blend::OneMinusDstColor)
        } else if code == 6 {
            Some(Blend::SrcAlpha)
        } else if code == 7 {
            Some(Blend::OneMinusSrcAlpha)
        } else if code == 8 {
            Some(Blend::DstAlpha)
        } else if code == 9 {
            Some(Blend::OneMinusDstAlpha)
        } else if code == 10 {
            Some(Blend::ConstantColor)
        } else if code == 11 {
            Some(Blend::OneMinusConstantColor)
        } else if code == 12 {
            Some(Blend::ConstantAlpha)
        } else if code == 13 {
            Some(Blend::OneMinusConstantAlpha)
        } else if code == 14 {
            Some(Blend::SrcAlphaSaturate)
        } else {
            None
        }
    }

    /// Returns the native graphics constant of this variant.
    pub fn to_code(&self) -> (r: u32)
        ensures
            r == self.code(),
    {
        match self {
            Blend::Zero => 0,
            Blend::One => 1,
            Blend::SrcColor => 2,
            Blend::OneMinusSrcColor => 3,
            Blend::DstColor => 4,
            Blend::OneMinusDstColor => 5,
            Blend::SrcAlpha => 6,
            Blend::OneMinusSrcAlpha => 7,
            Blend::DstAlpha => 8,
            Blend::OneMinusDstAlpha => 9,
            Blend::ConstantColor => 10,
            Blend::OneMinusConstantColor => 11,
            Blend::ConstantAlpha => 12,
            Blend::OneMinusConstantAlpha => 13,
            Blend::SrcAlphaSaturate => 14,
        }
    }

    /// Returns the variant whose native constant is `code`, or `None` when no
    /// variant carries it.
    pub fn from_code(code: u32) -> (r: Option<Self>)
        ensures
            r == Self::decode(code),
            forall|v: Self| #[trigger] v.code() == code <==> r == Some(v),
    {
        match code {
            0 => Some(Blend::Zero),
            1 => Some(Blend::One),
            2 => Some(Blend::SrcColor),
            3 => Some(Blend::OneMinusSrcColor),
            4 => Some(Blend::DstColor),
            5 => Some(Blend::OneMinusDstColor),
            6 => Some(Blend::SrcAlpha),
            7 => Some(Blend::OneMinusSrcAlpha),
            8 => Some(Blend::DstAlpha),
            9 => Some(Blend::OneMinusDstAlpha),
            10 => Some(Blend::ConstantColor),
            11 => Some(Blend::OneMinusConstantColor),
            12 => Some(Blend::ConstantAlpha),
            13 => Some(Blend::OneMinusConstantAlpha),
            14 => Some(Blend::SrcAlphaSaturate),
            _ => None,
        }
    }
}

/// Blend equation types.
#[derive(Debug, Clone, Copy, PartialEq, Eq, Structural)]
pub enum BlendEquationType {
    Add,
    Subtract,
    ReverseSubtract,
    Min,
    Max,
}

impl BlendEquationType {
    /// The native graphics constant that this variant stands for.
    pub open spec fn code(self) -> u32 {
        match self {
            BlendEquationType::Add => 0,
            BlendEquationType::Subtract => 1,
            BlendEquationType::ReverseSubtract => 2,
            BlendEquationType::Min => 3,
            BlendEquationType::Max => 4,
        }
    }

    /// The variant whose native constant is `code`, if any.
    pub open spec fn decode(code: u32) -> Option<Self> {
        if code == 0 {
            Some(BlendEquationType::Add)
        } else if code == 1 {
            Some(BlendEquationType::Subtract)
        } else if code == 2 {
            Some(BlendEquationType::ReverseSubtract)
        } else if code == 3 {
            Some(BlendEquationType::Min)
        } else if code == 4 {
            Some(BlendEquationType::Max)
        } else {
            None
        }
    }

    /// Returns the native graphics constant of this variant.
    pub fn to_code(&self) -> (r: u32)
        ensures
            r == self.code(),
    {
        match self {
            BlendEquationType::Add => 0,
            BlendEquationType::Subtract => 1,
            BlendEquationType::ReverseSubtract => 2,
            BlendEquationType::Min => 3,
            BlendEquationType::Max => 4,
        }
    }

    /// Returns the variant whose native constant is `code`, or `None` when no
    /// variant carries it.
    pub fn from_code(code: u32) -> (r: Option<Self>)
        ensures
            r == Self::decode(code),
            forall|v: Self| #[trigger] v.code() == code <==> r == Some(v),
    {
        match code {
            0 => Some(BlendEquationType::Add),
            1 => Some(BlendEquationType::Subtract),
            2 => Some(BlendEquationType::ReverseSubtract),
            3 => Some(BlendEquationType::Min),
            4 => Some(BlendEquationType::Max),
            _ => None,
        }
    }
}

/// Face culling modes.
#[derive(Debug, Clone, Copy, PartialEq, Eq, Structural)]
pub enum Cull {
    NoCull,
    Back,
    Front,
    FrontAndBack,
}

impl Cull {
    /// The native graphics constant that this variant stands for.
    pub open spec fn code(self) -> u32 {
        match self {
            Cull::NoCull => 0,
            Cull::Back => 1,
            Cull::Front => 2,
            Cull::FrontAndBack => 3,
        }
    }

    /// The variant whose native constant is `code`, if any.
    pub open spec fn decode(code: u32) -> Option<Self> {
        if code == 0 {
            Some(Cull::NoCull)
        } else if code == 1 {
            Some(Cull::Back)
        } else if code == 2 {
            Some(Cull::Front)
        } else if code == 3 {
            Some(Cull::FrontAndBack)
        } else {
            None
        }
    }

    /// Returns the native graphics constant of this variant.
    pub fn to_code(&self) -> (r: u32)
        ensures
            r == self.code(),
    {
        match self {
            Cull::NoCull => 0,
            Cull::Back => 1,
            Cull::Front => 2,
            Cull::FrontAndBack => 3,
        }
    }

    /// Returns the variant whose native constant is `code`, or `None` when no
    /// variant carries it.
    pub fn from_code(code: u32) -> (r: Option<Self>)
        ensures
            r == Self::decode(code),
            forall|v: Self| #[trigger] v.code() == code <==> r == Some(v),
    {
        match code {
            0 => Some(Cull::NoCull),
            1 => Some(Cull::Back),
            2 => Some(Cull::Front),
            3 => Some(Cull::FrontAndBack),
            _ => None,
        }
    }
}

/// Depth test functions.
#[derive(Debug, Clone, Copy, PartialEq, Eq, Structural)]
pub enum DepthTest {
    Never,
    Less,
    Equal,
    LessOrEqual,
    Greater,
    NotEqual,
    GreaterOrEqual,
    Always,
}

impl DepthTest {
    /// The native graphics constant that this variant stands for.
    pub open spec fn code(self) -> u32 {
        match self {
            DepthTest::Never => 0,
            DepthTest::Less => 1,
            DepthTest::Equal => 2,
            DepthTest::LessOrEqual => 3,
            DepthTest::Greater => 4,
            DepthTest::NotEqual => 5,
            DepthTest::GreaterOrEqual => 6,
            DepthTest::Always => 7,
        }
    }

    /// The variant whose native constant is `code`, if any.
    pub open spec fn decode(code: u32) -> Option<Self> {
        if code == 0 {
            Some(DepthTest::Never)
        } else if code == 1 {
            Some(DepthTest::Less)
        } else if code == 2 {
            Some(DepthTest::Equal)
        } else if code == 3 {
            Some(DepthTest::LessOrEqual)
        } else if code == 4 {
            Some(DepthTest::Greater)
        } else if code == 5 {
            Some(DepthTest::NotEqual)
        } else if code == 6 {
            Some(DepthTest::GreaterOrEqual)
        } else if code == 7 {
            Some(DepthTest::Always)
        } else {
            None
        }
    }

    /// Returns the native graphics constant of this variant.
    pub fn to_code(&self) -> (r: u32)
        ensures
            r == self.code(),
    {
        match self {
            DepthTest::Never => 0,
            DepthTest::Less => 1,
            DepthTest::Equal => 2,
            DepthTest::LessOrEqual => 3,
            DepthTest::Greater => 4,
            DepthTest::NotEqual => 5,
            DepthTest::GreaterOrEqual => 6,
            DepthTest::Always => 7,
        }
    }

    /// Returns the variant whose native constant is `code`, or `None` when no
    /// variant carries it.
    pub fn from_code(code: u32) -> (r: Option<Self>)
        ensures
            r == Self::decode(code),
            forall|v: Self| #[trigger] v.code() == code <==> r == Some(v),
    {
        match code {
            0 => Some(DepthTest::Never),
            1 => Some(DepthTest::Less),
            2 => Some(DepthTest::Equal),
            3 => Some(DepthTest::LessOrEqual),
            4 => Some(DepthTest::Greater),
            5 => Some(DepthTest::NotEqual),
            6 => Some(DepthTest::GreaterOrEqual),
            7 => Some(DepthTest::Always),
            _ => None,
        }
    }
}

} // verus!
