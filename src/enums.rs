//! The enumeration catalog.
//!
//! Protocol-level enumerations carry the numeric constant of the native
//! graphics API that each variant stands for. That constant is reached through
//! `code` (spec), `to_code` and `from_code`, never through a Rust discriminant,
//! so the exchange format does not depend on how Rust lays out an enum.
//! Presentation-level enumerations carry no numeric meaning.
use vstd::prelude::*;

verus! {

/// Buffer usage hint for GPU buffers.
/// Determines how the buffer data will be used.
#[derive(Debug, Clone, Copy, PartialEq, Eq, Structural)]
pub enum BufferUsage {
    StaticDraw,
    DynamicDraw,
    StreamDraw,
    StaticRead,
    DynamicRead,
    StreamRead,
    StaticCopy,
    DynamicCopy,
    StreamCopy,
}

impl BufferUsage {
    /// The native graphics constant that this variant stands for.
    pub open spec fn code(self) -> u32 {
        match self {
            BufferUsage::StaticDraw => 0x88E4,    // GL_STATIC_DRAW
            BufferUsage::DynamicDraw => 0x88E8,    // GL_DYNAMIC_DRAW
            BufferUsage::StreamDraw => 0x88E0,    // GL_STREAM_DRAW
            BufferUsage::StaticRead => 0x88E5,    // GL_STATIC_READ
            BufferUsage::DynamicRead => 0x88E9,    // GL_DYNAMIC_READ
            BufferUsage::StreamRead => 0x88E1,    // GL_STREAM_READ
            BufferUsage::StaticCopy => 0x88E6,    // GL_STATIC_COPY
            BufferUsage::DynamicCopy => 0x88EA,    // GL_DYNAMIC_COPY
            BufferUsage::StreamCopy => 0x88E2,    // GL_STREAM_COPY
        }
    }

    /// The variant whose native constant is `code`, if any.
    pub open spec fn decode(code: u32) -> Option<Self> {
        if code == 0x88E4 {
            Some(BufferUsage::StaticDraw)
        } else if code == 0x88E8 {
            Some(BufferUsage::DynamicDraw)
        } else if code == 0x88E0 {
            Some(BufferUsage::StreamDraw)
        } else if code == 0x88E5 {
            Some(BufferUsage::StaticRead)
        } else if code == 0x88E9 {
            Some(BufferUsage::DynamicRead)
        } else if code == 0x88E1 {
            Some(BufferUsage::StreamRead)
        } else if code == 0x88E6 {
            Some(BufferUsage::StaticCopy)
        } else if code == 0x88EA {
            Some(BufferUsage::DynamicCopy)
        } else if code == 0x88E2 {
            Some(BufferUsage::StreamCopy)
        } else {
            None
        }
    }

    /// Returns the native graphics constant of this variant.
    pub fn to_code(&self) -> (r: u32)
        ensures
            r == self.code(),
    {
        match self {
            BufferUsage::StaticDraw => 0x88E4,
            BufferUsage::DynamicDraw => 0x88E8,
            BufferUsage::StreamDraw => 0x88E0,
            BufferUsage::StaticRead => 0x88E5,
            BufferUsage::DynamicRead => 0x88E9,
            BufferUsage::StreamRead => 0x88E1,
            BufferUsage::StaticCopy => 0x88E6,
            BufferUsage::DynamicCopy => 0x88EA,
            BufferUsage::StreamCopy => 0x88E2,
        }
    }

    /// Returns the variant whose native constant is `code`, or `None` when no
    /// variant carries it.
    pub fn from_code(code: u32) -> (r: Option<Self>)
        ensures
            r == Self::decode(code),
            forall|v: Self| #[trigger] v.code() == code <==> r == Some(v),
    {
        match code {
            0x88E4 => Some(BufferUsage::StaticDraw),
            0x88E8 => Some(BufferUsage::DynamicDraw),
            0x88E0 => Some(BufferUsage::StreamDraw),
            0x88E5 => Some(BufferUsage::StaticRead),
            0x88E9 => Some(BufferUsage::DynamicRead),
            0x88E1 => Some(BufferUsage::StreamRead),
            0x88E6 => Some(BufferUsage::StaticCopy),
            0x88EA => Some(BufferUsage::DynamicCopy),
            0x88E2 => Some(BufferUsage::StreamCopy),
            _ => None,
        }
    }
}

/// Generic buffer type classification.
#[derive(Debug, Clone, Copy, PartialEq, Eq, Structural)]
pub enum BufferType {
    Vertex,
    Element,
    Instance,
    Uniform,
}

/// Stable marker types used in chunk sets.
#[derive(Debug, Clone, Copy, PartialEq, Eq, Structural)]
pub enum StableMarkerType {
    NoMarker,
    Unit,
    Unit2,
    Unit3,
    Unit4,
    Unit2x2,
    Unit3x3,
    Unit4x4,
    Unit2x3,
    Unit2x4,
    Unit3x2,
    Unit3x4,
    Unit4x2,
    Unit4x3,
}

/// Shading model types for materials.
#[derive(Debug, Clone, Copy, PartialEq, Eq, Structural)]
pub enum IsophoticModel {
    CookTorrance,
    OrenNayar,
    Beckmann,
    BlinnPhong,
    Phong,
    GGX,
    NoModel,
}

/// Type of GPU query.
#[derive(Debug, Clone, Copy, PartialEq, Eq, Structural)]
pub enum GpuQueryType {
    Occlusion,
    Timestamp,
    TransformFeedbackPrimitives,
}

/// Compression texture type for texture compression.
#[derive(Debug, Clone, Copy, PartialEq, Eq, Structural)]
pub enum CompressionTextureType {
    ETC2,
    ETC2EAC,
    ASTC,
    BPTC,
    S3TC,
    S3TCSRGB,
    SVGA,
}

/// Shader type enumeration.
#[derive(Debug, Clone, Copy, PartialEq, Eq, Structural)]
pub enum ShaderType {
    Vertex,
    Fragment,
    Geometry,
    Compute,
    TessellationControl,
    TessellationEvaluation,
}

impl ShaderType {
    /// The native graphics constant that this variant stands for.
    pub open spec fn code(self) -> u32 {
        match self {
            ShaderType::Vertex => 0x8B31,    // GL_VERTEX_SHADER
            ShaderType::Fragment => 0x8B30,    // GL_FRAGMENT_SHADER
            ShaderType::Geometry => 0x8DD9,    // GL_GEOMETRY_SHADER
            ShaderType::Compute => 0x91B9,    // GL_COMPUTE_SHADER
            ShaderType::TessellationControl => 0x8E87,    // GL_TESS_CONTROL_SHADER
            ShaderType::TessellationEvaluation => 0x8E88,    // GL_TESS_EVALUATION_SHADER
        }
    }

    /// The variant whose native constant is `code`, if any.
    pub open spec fn decode(code: u32) -> Option<Self> {
        if code == 0x8B31 {
            Some(ShaderType::Vertex)
        } else if code == 0x8B30 {
            Some(ShaderType::Fragment)
        } else if code == 0x8DD9 {
            Some(ShaderType::Geometry)
        } else if code == 0x91B9 {
            Some(ShaderType::Compute)
        } else if code == 0x8E87 {
            Some(ShaderType::TessellationControl)
        } else if code == 0x8E88 {
            Some(ShaderType::TessellationEvaluation)
        } else {
            None
        }
    }

    /// Returns the native graphics constant of this variant.
    pub fn to_code(&self) -> (r: u32)
        ensures
            r == self.code(),
    {
        match self {
            ShaderType::Vertex => 0x8B31,
            ShaderType::Fragment => 0x8B30,
            ShaderType::Geometry => 0x8DD9,
            ShaderType::Compute => 0x91B9,
            ShaderType::TessellationControl => 0x8E87,
            ShaderType::TessellationEvaluation => 0x8E88,
        }
    }

    /// Returns the variant whose native constant is `code`, or `None` when no
    /// variant carries it.
    pub fn from_code(code: u32) -> (r: Option<Self>)
        ensures
            r == Self::decode(code),
            forall|v: Self| #[trigger] v.code() == code <==> r == Some(v),
    {
        match code {
            0x8B31 => Some(ShaderType::Vertex),
            0x8B30 => Some(ShaderType::Fragment),
            0x8DD9 => Some(ShaderType::Geometry),
            0x91B9 => Some(ShaderType::Compute),
            0x8E87 => Some(ShaderType::TessellationControl),
            0x8E88 => Some(ShaderType::TessellationEvaluation),
            _ => None,
        }
    }
}

/// Comparison function for depth testing and stencil operations.
#[derive(Debug, Clone, Copy, PartialEq, Eq, Structural)]
pub enum Comparison {
    Never,
    Less,
    Equal,
    LessOrEqual,
    Greater,
    NotEqual,
    GreaterOrEqual,
    Always,
}

impl Comparison {
    /// The native graphics constant that this variant stands for.
    pub open spec fn code(self) -> u32 {
        match self {
            Comparison::Never => 0x0200,    // GL_NEVER
            Comparison::Less => 0x0201,    // GL_LESS
            Comparison::Equal => 0x0202,    // GL_EQUAL
            Comparison::LessOrEqual => 0x0203,    // GL_LEQUAL
            Comparison::Greater => 0x0204,    // GL_GREATER
            Comparison::NotEqual => 0x0205,    // GL_NOTEQUAL
            Comparison::GreaterOrEqual => 0x0206,    // GL_GEQUAL
            Comparison::Always => 0x0207,    // GL_ALWAYS
        }
    }

    /// The variant whose native constant is `code`, if any.
    pub open spec fn decode(code: u32) -> Option<Self> {
        if code == 0x0200 {
            Some(Comparison::Never)
        } else if code == 0x0201 {
            Some(Comparison::Less)
        } else if code == 0x0202 {
            Some(Comparison::Equal)
        } else if code == 0x0203 {
            Some(Comparison::LessOrEqual)
        } else if code == 0x0204 {
            Some(Comparison::Greater)
        } else if code == 0x0205 {
            Some(Comparison::NotEqual)
        } else if code == 0x0206 {
            Some(Comparison::GreaterOrEqual)
        } else if code == 0x0207 {
            Some(Comparison::Always)
        } else {
            None
        }
    }

    /// Returns the native graphics constant of this variant.
    pub fn to_code(&self) -> (r: u32)
        ensures
            r == self.code(),
    {
        match self {
            Comparison::Never => 0x0200,
            Comparison::Less => 0x0201,
            Comparison::Equal => 0x0202,
            Comparison::LessOrEqual => 0x0203,
            Comparison::Greater => 0x0204,
            Comparison::NotEqual => 0x0205,
            Comparison::GreaterOrEqual => 0x0206,
            Comparison::Always => 0x0207,
        }
    }

    /// Returns the variant whose native constant is `code`, or `None` when no
    /// variant carries it.
    pub fn from_code(code: u32) -> (r: Option<Self>)
        ensures
            r == Self::decode(code),
            forall|v: Self| #[trigger] v.code() == code <==> r == Some(v),
    {
        match code {
            0x0200 => Some(Comparison::Never),
            0x0201 => Some(Comparison::Less),
            0x0202 => Some(Comparison::Equal),
            0x0203 => Some(Comparison::LessOrEqual),
            0x0204 => Some(Comparison::Greater),
            0x0205 => Some(Comparison::NotEqual),
            0x0206 => Some(Comparison::GreaterOrEqual),
            0x0207 => Some(Comparison::Always),
            _ => None,
        }
    }
}

/// Blend equation type for blending operations.
#[derive(Debug, Clone, Copy, PartialEq, Eq, Structural)]
pub enum BlendEquation {
    Add,
    Subtract,
    ReverseSubtract,
    Min,
    Max,
}

impl BlendEquation {
    /// The native graphics constant that this variant stands for.
    pub open spec fn code(self) -> u32 {
        match self {
            BlendEquation::Add => 0x8006,    // GL_FUNC_ADD
            BlendEquation::Subtract => 0x800A,    // GL_FUNC_SUBTRACT
            BlendEquation::ReverseSubtract => 0x800B,    // GL_FUNC_REVERSE_SUBTRACT
            BlendEquation::Min => 0x8007,    // GL_MIN
            BlendEquation::Max => 0x8008,    // GL_MAX
        }
    }

    /// The variant whose native constant is `code`, if any.
    pub open spec fn decode(code: u32) -> Option<Self> {
        if code == 0x8006 {
            Some(BlendEquation::Add)
        } else if code == 0x800A {
            Some(BlendEquation::Subtract)
        } else if code == 0x800B {
            Some(BlendEquation::ReverseSubtract)
        } else if code == 0x8007 {
            Some(BlendEquation::Min)
        } else if code == 0x8008 {
            Some(BlendEquation::Max)
        } else {
            None
        }
    }

    /// Returns the native graphics constant of this variant.
    pub fn to_code(&self) -> (r: u32)
        ensures
            r == self.code(),
    {
        match self {
            BlendEquation::Add => 0x8006,
            BlendEquation::Subtract => 0x800A,
            BlendEquation::ReverseSubtract => 0x800B,
            BlendEquation::Min => 0x8007,
            BlendEquation::Max => 0x8008,
        }
    }

    /// Returns the variant whose native constant is `code`, or `None` when no
    /// variant carries it.
    pub fn from_code(code: u32) -> (r: Option<Self>)
        ensures
            r == Self::decode(code),
            forall|v: Self| #[trigger] v.code() == code <==> r == Some(v),
    {
        match code {
            0x8006 => Some(BlendEquation::Add),
            0x800A => Some(BlendEquation::Subtract),
            0x800B => Some(BlendEquation::ReverseSubtract),
            0x8007 => Some(BlendEquation::Min),
            0x8008 => Some(BlendEquation::Max),
            _ => None,
        }
    }
}

/// Blend factor type for source and destination blending.
#[derive(Debug, Clone, Copy, PartialEq, Eq, Structural)]
pub enum BlendMultiplier {
    Zero,
    One,
    SrcColor,
    OneMinusSrcColor,
    DstColor,
    OneMinusDstColor,
    SrcAlpha,
    OneMinusSrcAlpha,
    DstAlpha,
    OneMinusDstAlpha,
    Src1Color,
    OneMinusSrc1Color,
    Src1Alpha,
    OneMinusSrc1Alpha,
}

impl BlendMultiplier {
    /// The native graphics constant that this variant stands for.
    pub open spec fn code(self) -> u32 {
        match self {
            BlendMultiplier::Zero => 0x0000,    // GL_ZERO
            BlendMultiplier::One => 0x0001,    // GL_ONE
            BlendMultiplier::SrcColor => 0x0300,    // GL_SRC_COLOR
            BlendMultiplier::OneMinusSrcColor => 0x0301,    // GL_ONE_MINUS_SRC_COLOR
            BlendMultiplier::DstColor => 0x0306,    // GL_DST_COLOR
            BlendMultiplier::OneMinusDstColor => 0x0307,    // GL_ONE_MINUS_DST_COLOR
            BlendMultiplier::SrcAlpha => 0x0302,    // GL_SRC_ALPHA
            BlendMultiplier::OneMinusSrcAlpha => 0x0303,    // GL_ONE_MINUS_SRC_ALPHA
            BlendMultiplier::DstAlpha => 0x0304,    // GL_DST_ALPHA
            BlendMultiplier::OneMinusDstAlpha => 0x0305,    // GL_ONE_MINUS_DST_ALPHA
            BlendMultiplier::Src1Color => 0x0308,    // GL_SRC1_COLOR
            BlendMultiplier::OneMinusSrc1Color => 0x0309,    // GL_ONE_MINUS_SRC1_COLOR
            BlendMultiplier::Src1Alpha => 0x881A,    // GL_SRC1_ALPHA
            BlendMultiplier::OneMinusSrc1Alpha => 0x881B,    // GL_ONE_MINUS_SRC1_ALPHA
        }
    }

    /// The variant whose native constant is `code`, if any.
    pub open spec fn decode(code: u32) -> Option<Self> {
        if code == 0x0000 {
            Some(BlendMultiplier::Zero)
        } else if code == 0x0001 {
            Some(BlendMultiplier::One)
        } else if code == 0x0300 {
            Some(BlendMultiplier::SrcColor)
        } else if code == 0x0301 {
            Some(BlendMultiplier::OneMinusSrcColor)
        } else if code == 0x0306 {
            Some(BlendMultiplier::DstColor)
        } else if code == 0x0307 {
            Some(BlendMultiplier::OneMinusDstColor)
        } else if code == 0x0302 {
            Some(BlendMultiplier::SrcAlpha)
        } else if code == 0x0303 {
            Some(BlendMultiplier::OneMinusSrcAlpha)
        } else if code == 0x0304 {
            Some(BlendMultiplier::DstAlpha)
        } else if code == 0x0305 {
            Some(BlendMultiplier::OneMinusDstAlpha)
        } else if code == 0x0308 {
            Some(BlendMultiplier::Src1Color)
        } else if code == 0x0309 {
            Some(BlendMultiplier::OneMinusSrc1Color)
        } else if code == 0x881A {
            Some(BlendMultiplier::Src1Alpha)
        } else if code == 0x881B {
            Some(BlendMultiplier::OneMinusSrc1Alpha)
        } else {
            None
        }
    }

    /// Returns the native graphics constant of this variant.
    pub fn to_code(&self) -> (r: u32)
        ensures
            r == self.code(),
    {
        match self {
            BlendMultiplier::Zero => 0x0000,
            BlendMultiplier::One => 0x0001,
            BlendMultiplier::SrcColor => 0x0300,
            BlendMultiplier::OneMinusSrcColor => 0x0301,
            BlendMultiplier::DstColor => 0x0306,
            BlendMultiplier::OneMinusDstColor => 0x0307,
            BlendMultiplier::SrcAlpha => 0x0302,
            BlendMultiplier::OneMinusSrcAlpha => 0x0303,
            BlendMultiplier::DstAlpha => 0x0304,
            BlendMultiplier::OneMinusDstAlpha => 0x0305,
            BlendMultiplier::Src1Color => 0x0308,
            BlendMultiplier::OneMinusSrc1Color => 0x0309,
            BlendMultiplier::Src1Alpha => 0x881A,
            BlendMultiplier::OneMinusSrc1Alpha => 0x881B,
        }
    }

    /// Returns the variant whose native constant is `code`, or `None` when no
    /// variant carries it.
    pub fn from_code(code: u32) -> (r: Option<Self>)
        ensures
            r == Self::decode(code),
            forall|v: Self| #[trigger] v.code() == code <==> r == Some(v),
    {
        match code {
            0x0000 => Some(BlendMultiplier::Zero),
            0x0001 => Some(BlendMultiplier::One),
            0x0300 => Some(BlendMultiplier::SrcColor),
            0x0301 => Some(BlendMultiplier::OneMinusSrcColor),
            0x0306 => Some(BlendMultiplier::DstColor),
            0x0307 => Some(BlendMultiplier::OneMinusDstColor),
            0x0302 => Some(BlendMultiplier::SrcAlpha),
            0x0303 => Some(BlendMultiplier::OneMinusSrcAlpha),
            0x0304 => Some(BlendMultiplier::DstAlpha),
            0x0305 => Some(BlendMultiplier::OneMinusDstAlpha),
            0x0308 => Some(BlendMultiplier::Src1Color),
            0x0309 => Some(BlendMultiplier::OneMinusSrc1Color),
            0x881A => Some(BlendMultiplier::Src1Alpha),
            0x881B => Some(BlendMultiplier::OneMinusSrc1Alpha),
            _ => None,
        }
    }
}

/// Cull face type for back-face culling.
#[derive(Debug, Clone, Copy, PartialEq, Eq, Structural)]
pub enum CullFace {
    NoCull,
    Front,
    Back,
    FrontAndBack,
}

impl CullFace {
    /// The native graphics constant that this variant stands for.
    pub open spec fn code(self) -> u32 {
        match self {
            CullFace::NoCull => 0,
            CullFace::Front => 0x0404,    // GL_FRONT
            CullFace::Back => 0x0405,    // GL_BACK
            CullFace::FrontAndBack => 0x0408,    // GL_FRONT_AND_BACK
        }
    }

    /// The variant whose native constant is `code`, if any.
    pub open spec fn decode(code: u32) -> Option<Self> {
        if code == 0 {
            Some(CullFace::NoCull)
        } else if code == 0x0404 {
            Some(CullFace::Front)
        } else if code == 0x0405 {
            Some(CullFace::Back)
        } else if code == 0x0408 {
            Some(CullFace::FrontAndBack)
        } else {
            None
        }
    }

    /// Returns the native graphics constant of this variant.
    pub fn to_code(&self) -> (r: u32)
        ensures
            r == self.code(),
    {
        match self {
            CullFace::NoCull => 0,
            CullFace::Front => 0x0404,
            CullFace::Back => 0x0405,
            CullFace::FrontAndBack => 0x0408,
        }
    }

    /// Returns the variant whose native constant is `code`, or `None` when no
    /// variant carries it.
    pub fn from_code(code: u32) -> (r: Option<Self>)
        ensures
            r == Self::decode(code),
            forall|v: Self| #[trigger] v.code() == code <==> r == Some(v),
    {
        match code {
            0 => Some(CullFace::NoCull),
            0x0404 => Some(CullFace::Front),
            0x0405 => Some(CullFace::Back),
            0x0408 => Some(CullFace::FrontAndBack),
            _ => None,
        }
    }
}

/// Face winding order for front-face definition.
#[derive(Debug, Clone, Copy, PartialEq, Eq, Structural)]
pub enum FaceWinding {
    CounterClockwise,
    Clockwise,
}

impl FaceWinding {
    /// The native graphics constant that this variant stands for.
    pub open spec fn code(self) -> u32 {
        match self {
            FaceWinding::CounterClockwise => 0x0901,    // GL_CCW
            FaceWinding::Clockwise => 0x0900,    // GL_CW
        }
    }

    /// The variant whose native constant is `code`, if any.
    pub open spec fn decode(code: u32) -> Option<Self> {
        if code == 0x0901 {
            Some(FaceWinding::CounterClockwise)
        } else if code == 0x0900 {
            Some(FaceWinding::Clockwise)
        } else {
            None
        }
    }

    /// Returns the native graphics constant of this variant.
    pub fn to_code(&self) -> (r: u32)
        ensures
            r == self.code(),
    {
        match self {
            FaceWinding::CounterClockwise => 0x0901,
            FaceWinding::Clockwise => 0x0900,
        }
    }

    /// Returns the variant whose native constant is `code`, or `None` when no
    /// variant carries it.
    pub fn from_code(code: u32) -> (r: Option<Self>)
        ensures
            r == Self::decode(code),
            forall|v: Self| #[trigger] v.code() == code <==> r == Some(v),
    {
        match code {
            0x0901 => Some(FaceWinding::CounterClockwise),
            0x0900 => Some(FaceWinding::Clockwise),
            _ => None,
        }
    }
}

/// Depth function for depth testing.
#[derive(Debug, Clone, Copy, PartialEq, Eq, Structural)]
pub enum DepthTest {
    Never,
    Less,
    Equal,
    LessOrEqual,
    Greater,
    NotEqual,
    GreaterOrEqual,
    Always,
}

impl DepthTest {
    /// The native graphics constant that this variant stands for.
    pub open spec fn code(self) -> u32 {
        match self {
            DepthTest::Never => 0x0200,    // GL_NEVER
            DepthTest::Less => 0x0201,    // GL_LESS
            DepthTest::Equal => 0x0202,    // GL_EQUAL
            DepthTest::LessOrEqual => 0x0203,    // GL_LEQUAL
            DepthTest::Greater => 0x0204,    // GL_GREATER
            DepthTest::NotEqual => 0x0205,    // GL_NOTEQUAL
            DepthTest::GreaterOrEqual => 0x0206,    // GL_GEQUAL
            DepthTest::Always => 0x0207,    // GL_ALWAYS
        }
    }

    /// The variant whose native constant is `code`, if any.
    pub open spec fn decode(code: u32) -> Option<Self> {
        if code == 0x0200 {
            Some(DepthTest::Never)
        } else if code == 0x0201 {
            Some(DepthTest::Less)
        } else if code == 0x0202 {
            Some(DepthTest::Equal)
        } else if code == 0x0203 {
            Some(DepthTest::LessOrEqual)
        } else if code == 0x0204 {
            Some(DepthTest::Greater)
        } else if code == 0x0205 {
            Some(DepthTest::NotEqual)
        } else if code == 0x0206 {
            Some(DepthTest::GreaterOrEqual)
        } else if code == 0x0207 {
            Some(DepthTest::Always)
        } else {
            None
        }
    }

    /// Returns the native graphics constant of this variant.
    pub fn to_code(&self) -> (r: u32)
        ensures
            r == self.code(),
    {
        match self {
            DepthTest::Never => 0x0200,
            DepthTest::Less => 0x0201,
            DepthTest::Equal => 0x0202,
            DepthTest::LessOrEqual => 0x0203,
            DepthTest::Greater => 0x0204,
            DepthTest::NotEqual => 0x0205,
            DepthTest::GreaterOrEqual => 0x0206,
            DepthTest::Always => 0x0207,
        }
    }

    /// Returns the variant whose native constant is `code`, or `None` when no
    /// variant carries it.
    pub fn from_code(code: u32) -> (r: Option<Self>)
        ensures
            r == Self::decode(code),
            forall|v: Self| #[trigger] v.code() == code <==> r == Some(v),
    {
        match code {
            0x0200 => Some(DepthTest::Never),
            0x0201 => Some(DepthTest::Less),
            0x0202 => Some(DepthTest::Equal),
            0x0203 => Some(DepthTest::LessOrEqual),
            0x0204 => Some(DepthTest::Greater),
            0x0205 => Some(DepthTest::NotEqual),
            0x0206 => Some(DepthTest::GreaterOrEqual),
            0x0207 => Some(DepthTest::Always),
            _ => None,
        }
    }
}

/// Stencil operation for stencil buffer.
#[derive(Debug, Clone, Copy, PartialEq, Eq, Structural)]
pub enum StencilOperation {
    Keep,
    Zero,
    Replace,
    Increment,
    Decrement,
    IncrementWrap,
    DecrementWrap,
    Invert,
}

impl StencilOperation {
    /// The native graphics constant that this variant stands for.
    pub open spec fn code(self) -> u32 {
        match self {
            StencilOperation::Keep => 0x1E00,    // GL_KEEP
            StencilOperation::Zero => 0x0000,    // GL_ZERO
            StencilOperation::Replace => 0x1E01,    // GL_REPLACE
            StencilOperation::Increment => 0x1E02,    // GL_INCR
            StencilOperation::Decrement => 0x1E03,    // GL_DECR
            StencilOperation::IncrementWrap => 0x8507,    // GL_INCR_WRAP
            StencilOperation::DecrementWrap => 0x8508,    // GL_DECR_WRAP
            StencilOperation::Invert => 0x150A,    // GL_INVERT
        }
    }

    /// The variant whose native constant is `code`, if any.
    pub open spec fn decode(code: u32) -> Option<Self> {
        if code == 0x1E00 {
            Some(StencilOperation::Keep)
        } else if code == 0x0000 {
            Some(StencilOperation::Zero)
        } else if code == 0x1E01 {
            Some(StencilOperation::Replace)
        } else if code == 0x1E02 {
            Some(StencilOperation::Increment)
        } else if code == 0x1E03 {
            Some(StencilOperation::Decrement)
        } else if code == 0x8507 {
            Some(StencilOperation::IncrementWrap)
        } else if code == 0x8508 {
            Some(StencilOperation::DecrementWrap)
        } else if code == 0x150A {
            Some(StencilOperation::Invert)
        } else {
            None
        }
    }

    /// Returns the native graphics constant of this variant.
    pub fn to_code(&self) -> (r: u32)
        ensures
            r == self.code(),
    {
        match self {
            StencilOperation::Keep => 0x1E00,
            StencilOperation::Zero => 0x0000,
            StencilOperation::Replace => 0x1E01,
            StencilOperation::Increment => 0x1E02,
            StencilOperation::Decrement => 0x1E03,
            StencilOperation::IncrementWrap => 0x8507,
            StencilOperation::DecrementWrap => 0x8508,
            StencilOperation::Invert => 0x150A,
        }
    }

    /// Returns the variant whose native constant is `code`, or `None` when no
    /// variant carries it.
    pub fn from_code(code: u32) -> (r: Option<Self>)
        ensures
            r == Self::decode(code),
            forall|v: Self| #[trigger] v.code() == code <==> r == Some(v),
    {
        match code {
            0x1E00 => Some(StencilOperation::Keep),
            0x0000 => Some(StencilOperation::Zero),
            0x1E01 => Some(StencilOperation::Replace),
            0x1E02 => Some(StencilOperation::Increment),
            0x1E03 => Some(StencilOperation::Decrement),
            0x8507 => Some(StencilOperation::IncrementWrap),
            0x8508 => Some(StencilOperation::DecrementWrap),
            0x150A => Some(StencilOperation::Invert),
            _ => None,
        }
    }
}

/// Texture minification filter.
#[derive(Debug, Clone, Copy, PartialEq, Eq, Structural)]
pub enum TextureMinFilter {
    Nearest,
    Linear,
    NearestMipmapNearest,
    LinearMipmapNearest,
    NearestMipmapLinear,
    LinearMipmapLinear,
}

impl TextureMinFilter {
    /// The native graphics constant that this variant stands for.
    pub open spec fn code(self) -> u32 {
        match self {
            TextureMinFilter::Nearest => 0x2600,    // GL_NEAREST
            TextureMinFilter::Linear => 0x2601,    // GL_LINEAR
            TextureMinFilter::NearestMipmapNearest => 0x2700,    // GL_NEAREST_MIPMAP_NEAREST
            TextureMinFilter::LinearMipmapNearest => 0x2701,    // GL_LINEAR_MIPMAP_NEAREST
            TextureMinFilter::NearestMipmapLinear => 0x2702,    // GL_NEAREST_MIPMAP_LINEAR
            TextureMinFilter::LinearMipmapLinear => 0x2703,    // GL_LINEAR_MIPMAP_LINEAR
        }
    }

    /// The variant whose native constant is `code`, if any.
    pub open spec fn decode(code: u32) -> Option<Self> {
        if code == 0x2600 {
            Some(TextureMinFilter::Nearest)
        } else if code == 0x2601 {
            Some(TextureMinFilter::Linear)
        } else if code == 0x2700 {
            Some(TextureMinFilter::NearestMipmapNearest)
        } else if code == 0x2701 {
            Some(TextureMinFilter::LinearMipmapNearest)
        } else if code == 0x2702 {
            Some(TextureMinFilter::NearestMipmapLinear)
        } else if code == 0x2703 {
            Some(TextureMinFilter::LinearMipmapLinear)
        } else {
            None
        }
    }

    /// Returns the native graphics constant of this variant.
    pub fn to_code(&self) -> (r: u32)
        ensures
            r == self.code(),
    {
        match self {
            TextureMinFilter::Nearest => 0x2600,
            TextureMinFilter::Linear => 0x2601,
            TextureMinFilter::NearestMipmapNearest => 0x2700,
            TextureMinFilter::LinearMipmapNearest => 0x2701,
            TextureMinFilter::NearestMipmapLinear => 0x2702,
            TextureMinFilter::LinearMipmapLinear => 0x2703,
        }
    }

    /// Returns the variant whose native constant is `code`, or `None` when no
    /// variant carries it.
    pub fn from_code(code: u32) -> (r: Option<Self>)
        ensures
            r == Self::decode(code),
            forall|v: Self| #[trigger] v.code() == code <==> r == Some(v),
    {
        match code {
            0x2600 => Some(TextureMinFilter::Nearest),
            0x2601 => Some(TextureMinFilter::Linear),
            0x2700 => Some(TextureMinFilter::NearestMipmapNearest),
            0x2701 => Some(TextureMinFilter::LinearMipmapNearest),
            0x2702 => Some(TextureMinFilter::NearestMipmapLinear),
            0x2703 => Some(TextureMinFilter::LinearMipmapLinear),
            _ => None,
        }
    }
}

/// Texture magnification filter.
#[derive(Debug, Clone, Copy, PartialEq, Eq, Structural)]
pub enum TextureMagFilter {
    Nearest,
    Linear,
}

impl TextureMagFilter {
    /// The native graphics constant that this variant stands for.
    pub open spec fn code(self) -> u32 {
        match self {
            TextureMagFilter::Nearest => 0x2600,    // GL_NEAREST
            TextureMagFilter::Linear => 0x2601,    // GL_LINEAR
        }
    }

    /// The variant whose native constant is `code`, if any.
    pub open spec fn decode(code: u32) -> Option<Self> {
        if code == 0x2600 {
            Some(TextureMagFilter::Nearest)
        } else if code == 0x2601 {
            Some(TextureMagFilter::Linear)
        } else {
            None
        }
    }

    /// Returns the native graphics constant of this variant.
    pub fn to_code(&self) -> (r: u32)
        ensures
            r == self.code(),
    {
        match self {
            TextureMagFilter::Nearest => 0x2600,
            TextureMagFilter::Linear => 0x2601,
        }
    }

    /// Returns the variant whose native constant is `code`, or `None` when no
    /// variant carries it.
    pub fn from_code(code: u32) -> (r: Option<Self>)
        ensures
            r == Self::decode(code),
            forall|v: Self| #[trigger] v.code() == code <==> r == Some(v),
    {
        match code {
            0x2600 => Some(TextureMagFilter::Nearest),
            0x2601 => Some(TextureMagFilter::Linear),
            _ => None,
        }
    }
}

/// Texture wrapping mode.
#[derive(Debug, Clone, Copy, PartialEq, Eq, Structural)]
pub enum TextureWrap {
    Repeat,
    MirroredRepeat,
    ClampToEdge,
    ClampToBorder,
}

impl TextureWrap {
    /// The native graphics constant that this variant stands for.
    pub open spec fn code(self) -> u32 {
        match self {
            TextureWrap::Repeat => 0x2901,    // GL_REPEAT
            TextureWrap::MirroredRepeat => 0x8370,    // GL_MIRRORED_REPEAT
            TextureWrap::ClampToEdge => 0x812F,    // GL_CLAMP_TO_EDGE
            TextureWrap::ClampToBorder => 0x812D,    // GL_CLAMP_TO_BORDER
        }
    }

    /// The variant whose native constant is `code`, if any.
    pub open spec fn decode(code: u32) -> Option<Self> {
        if code == 0x2901 {
            Some(TextureWrap::Repeat)
        } else if code == 0x8370 {
            Some(TextureWrap::MirroredRepeat)
        } else if code == 0x812F {
            Some(TextureWrap::ClampToEdge)
        } else if code == 0x812D {
            Some(TextureWrap::ClampToBorder)
        } else {
            None
        }
    }

    /// Returns the native graphics constant of this variant.
    pub fn to_code(&self) -> (r: u32)
        ensures
            r == self.code(),
    {
        match self {
            TextureWrap::Repeat => 0x2901,
            TextureWrap::MirroredRepeat => 0x8370,
            TextureWrap::ClampToEdge => 0x812F,
            TextureWrap::ClampToBorder => 0x812D,
        }
    }

    /// Returns the variant whose native constant is `code`, or `None` when no
    /// variant carries it.
    pub fn from_code(code: u32) -> (r: Option<Self>)
        ensures
            r == Self::decode(code),
            forall|v: Self| #[trigger] v.code() == code <==> r == Some(v),
    {
        match code {
            0x2901 => Some(TextureWrap::Repeat),
            0x8370 => Some(TextureWrap::MirroredRepeat),
            0x812F => Some(TextureWrap::ClampToEdge),
            0x812D => Some(TextureWrap::ClampToBorder),
            _ => None,
        }
    }
}

/// Cube map side for texture cube maps.
#[derive(Debug, Clone, Copy, PartialEq, Eq, Structural)]
pub enum CubeMapSide {
    PositiveX,
    NegativeX,
    PositiveY,
    NegativeY,
    PositiveZ,
    NegativeZ,
}

impl CubeMapSide {
    /// The native graphics constant that this variant stands for.
    pub open spec fn code(self) -> u32 {
        match self {
            CubeMapSide::PositiveX => 0x8515,    // GL_TEXTURE_CUBE_MAP_POSITIVE_X
            CubeMapSide::NegativeX => 0x8516,    // GL_TEXTURE_CUBE_MAP_NEGATIVE_X
            CubeMapSide::PositiveY => 0x8517,    // GL_TEXTURE_CUBE_MAP_POSITIVE_Y
            CubeMapSide::NegativeY => 0x8518,    // GL_TEXTURE_CUBE_MAP_NEGATIVE_Y
            CubeMapSide::PositiveZ => 0x8519,    // GL_TEXTURE_CUBE_MAP_POSITIVE_Z
            CubeMapSide::NegativeZ => 0x851A,    // GL_TEXTURE_CUBE_MAP_NEGATIVE_Z
        }
    }

    /// The variant whose native constant is `code`, if any.
    pub open spec fn decode(code: u32) -> Option<Self> {
        if code == 0x8515 {
            Some(CubeMapSide::PositiveX)
        } else if code == 0x8516 {
            Some(CubeMapSide::NegativeX)
        } else if code == 0x8517 {
            Some(CubeMapSide::PositiveY)
        } else if code == 0x8518 {
            Some(CubeMapSide::NegativeY)
        } else if code == 0x8519 {
            Some(CubeMapSide::PositiveZ)
        } else if code == 0x851A {
            Some(CubeMapSide::NegativeZ)
        } else {
            None
        }
    }

    /// Returns the native graphics constant of this variant.
    pub fn to_code(&self) -> (r: u32)
        ensures
            r == self.code(),
    {
        match self {
            CubeMapSide::PositiveX => 0x8515,
            CubeMapSide::NegativeX => 0x8516,
            CubeMapSide::PositiveY => 0x8517,
            CubeMapSide::NegativeY => 0x8518,
            CubeMapSide::PositiveZ => 0x8519,
            CubeMapSide::NegativeZ => 0x851A,
        }
    }

    /// Returns the variant whose native constant is `code`, or `None` when no
    /// variant carries it.
    pub fn from_code(code: u32) -> (r: Option<Self>)
        ensures
            r == Self::decode(code),
            forall|v: Self| #[trigger] v.code() == code <==> r == Some(v),
    {
        match code {
            0x8515 => Some(CubeMapSide::PositiveX),
            0x8516 => Some(CubeMapSide::NegativeX),
            0x8517 => Some(CubeMapSide::PositiveY),
            0x8518 => Some(CubeMapSide::NegativeY),
            0x8519 => Some(CubeMapSide::PositiveZ),
            0x851A => Some(CubeMapSide::NegativeZ),
            _ => None,
        }
    }
}

/// Texture internal format.
#[derive(Debug, Clone, Copy, PartialEq, Eq, Structural)]
pub enum TextureFormat {
    R8,
    R8I,
    R8UI,
    R16F,
    R16I,
    R16UI,
    R32F,
    R32I,
    R32UI,
    R8G8,
    R8G8I,
    R8G8UI,
    R8G8B8,
    R8G8B8I,
    R8G8B8UI,
    R8G8B8A8,
    R8G8B8A8I,
    R8G8B8A8UI,
    R16F16I,
    R16I16UI,
    R32F32I,
    R32I32UI,
    R16F16I16UI,
    R16I16UI16F,
    R16F16I16UI16F,
    R16I16UI16F16F,
    R32F32I32UI32F,
    R8G8B8A8Unorm,
    R8G8B8A8Snorm,
    R8G8B8A8Sint,
    R8G8B8A8Uint,
    Depth16,
    Depth24,
    Depth32F,
    Depth24Stencil8,
    Depth32FStencil8,
    StencilIndex8,
}

impl TextureFormat {
    /// The native graphics constant that this variant stands for.
    pub open spec fn code(self) -> u32 {
        match self {
            TextureFormat::R8 => 0x8229,    // GL_R8
            TextureFormat::R8I => 0x8231,    // GL_R8I
            TextureFormat::R8UI => 0x8232,    // GL_R8UI
            TextureFormat::R16F => 0x822D,    // GL_R16F
            TextureFormat::R16I => 0x8233,    // GL_R16I
            TextureFormat::R16UI => 0x8234,    // GL_R16UI
            TextureFormat::R32F => 0x822E,    // GL_R32F
            TextureFormat::R32I => 0x8235,    // GL_R32I
            TextureFormat::R32UI => 0x8236,    // GL_R32UI
            TextureFormat::R8G8 => 0x822B,    // GL_R8G8
            TextureFormat::R8G8I => 0x8237,    // GL_R8G8I
            TextureFormat::R8G8UI => 0x8238,    // GL_R8G8UI
            TextureFormat::R8G8B8 => 0x1907,    // GL_RGB
            TextureFormat::R8G8B8I => 0x8D8F,    // GL_RGB8I
            TextureFormat::R8G8B8UI => 0x8D7D,    // GL_RGB8UI
            TextureFormat::R8G8B8A8 => 0x1908,    // GL_RGBA
            TextureFormat::R8G8B8A8I => 0x8D95,    // GL_RGBA8I
            TextureFormat::R8G8B8A8UI => 0x8D81,    // GL_RGBA8UI
            TextureFormat::R16F16I => 0x822F,    // GL_R16F (special 16-bit float)
            TextureFormat::R16I16UI => 0x8239,    // GL_R16I (special 16-bit integer)
            TextureFormat::R32F32I => 0x8230,    // GL_R32F (special 32-bit float)
            TextureFormat::R32I32UI => 0x823A,    // GL_R32I (special 32-bit integer)
            TextureFormat::R16F16I16UI => 0x881E,    // GL_R16F (special for RGB)
            TextureFormat::R16I16UI16F => 0x8E59,    // GL_R16I (special for RGB)
            TextureFormat::R16F16I16UI16F => 0x8E5A,    // GL_R16F (special for RGBA)
            TextureFormat::R16I16UI16F16F => 0x8E5B,    // GL_R16I (special for RGBA)
            TextureFormat::R32F32I32UI32F => 0x8E5C,    // GL_R32F (special for RGBA)
            TextureFormat::R8G8B8A8Unorm => 0x8058,    // Special RGBA8
            TextureFormat::R8G8B8A8Snorm => 0x8F97,    // Special RGBA8 SNORM
            TextureFormat::R8G8B8A8Sint => 0x8D94,    // Special RGBA8 SINT
            TextureFormat::R8G8B8A8Uint => 0x8D7C,    // Special RGBA8 UINT
            TextureFormat::Depth16 => 0x81A5,    // GL_DEPTH_COMPONENT16
            TextureFormat::Depth24 => 0x81A6,    // GL_DEPTH_COMPONENT24
            TextureFormat::Depth32F => 0x8CAC,    // GL_DEPTH_COMPONENT32F
            TextureFormat::Depth24Stencil8 => 0x88F0,    // GL_DEPTH24_STENCIL8
            TextureFormat::Depth32FStencil8 => 0x8CAD,    // GL_DEPTH32F_STENCIL8
            TextureFormat::StencilIndex8 => 0x1901,    // GL_STENCIL_INDEX8
        }
    }

    /// The variant whose native constant is `code`, if any.
    pub open spec fn decode(code: u32) -> Option<Self> {
        if code == 0x8229 {
            Some(TextureFormat::R8)
        } else if code == 0x8231 {
            Some(TextureFormat::R8I)
        } else if code == 0x8232 {
            Some(TextureFormat::R8UI)
        } else if code == 0x822D {
            Some(TextureFormat::R16F)
        } else if code == 0x8233 {
            Some(TextureFormat::R16I)
        } else if code == 0x8234 {
            Some(TextureFormat::R16UI)
        } else if code == 0x822E {
            Some(TextureFormat::R32F)
        } else if code == 0x8235 {
            Some(TextureFormat::R32I)
        } else if code == 0x8236 {
            Some(TextureFormat::R32UI)
        } else if code == 0x822B {
            Some(TextureFormat::R8G8)
        } else if code == 0x8237 {
            Some(TextureFormat::R8G8I)
        } else if code == 0x8238 {
            Some(TextureFormat::R8G8UI)
        } else if code == 0x1907 {
            Some(TextureFormat::R8G8B8)
        } else if code == 0x8D8F {
            Some(TextureFormat::R8G8B8I)
        } else if code == 0x8D7D {
            Some(TextureFormat::R8G8B8UI)
        } else if code == 0x1908 {
            Some(TextureFormat::R8G8B8A8)
        } else if code == 0x8D95 {
            Some(TextureFormat::R8G8B8A8I)
        } else if code == 0x8D81 {
            Some(TextureFormat::R8G8B8A8UI)
        } else if code == 0x822F {
            Some(TextureFormat::R16F16I)
        } else if code == 0x8239 {
            Some(TextureFormat::R16I16UI)
        } else if code == 0x8230 {
            Some(TextureFormat::R32F32I)
        } else if code == 0x823A {
            Some(TextureFormat::R32I32UI)
        } else if code == 0x881E {
            Some(TextureFormat::R16F16I16UI)
        } else if code == 0x8E59 {
            Some(TextureFormat::R16I16UI16F)
        } else if code == 0x8E5A {
            Some(TextureFormat::R16F16I16UI16F)
        } else if code == 0x8E5B {
            Some(TextureFormat::R16I16UI16F16F)
        } else if code == 0x8E5C {
            Some(TextureFormat::R32F32I32UI32F)
        } else if code == 0x8058 {
            Some(TextureFormat::R8G8B8A8Unorm)
        } else if code == 0x8F97 {
            Some(TextureFormat::R8G8B8A8Snorm)
        } else if code == 0x8D94 {
            Some(TextureFormat::R8G8B8A8Sint)
        } else if code == 0x8D7C {
            Some(TextureFormat::R8G8B8A8Uint)
        } else if code == 0x81A5 {
            Some(TextureFormat::Depth16)
        } else if code == 0x81A6 {
            Some(TextureFormat::Depth24)
        } else if code == 0x8CAC {
            Some(TextureFormat::Depth32F)
        } else if code == 0x88F0 {
            Some(TextureFormat::Depth24Stencil8)
        } else if code == 0x8CAD {
            Some(TextureFormat::Depth32FStencil8)
        } else if code == 0x1901 {
            Some(TextureFormat::StencilIndex8)
        } else {
            None
        }
    }

    /// Returns the native graphics constant of this variant.
    pub fn to_code(&self) -> (r: u32)
        ensures
            r == self.code(),
    {
        match self {
            TextureFormat::R8 => 0x8229,
            TextureFormat::R8I => 0x8231,
            TextureFormat::R8UI => 0x8232,
            TextureFormat::R16F => 0x822D,
            TextureFormat::R16I => 0x8233,
            TextureFormat::R16UI => 0x8234,
            TextureFormat::R32F => 0x822E,
            TextureFormat::R32I => 0x8235,
            TextureFormat::R32UI => 0x8236,
            TextureFormat::R8G8 => 0x822B,
            TextureFormat::R8G8I => 0x8237,
            TextureFormat::R8G8UI => 0x8238,
            TextureFormat::R8G8B8 => 0x1907,
            TextureFormat::R8G8B8I => 0x8D8F,
            TextureFormat::R8G8B8UI => 0x8D7D,
            TextureFormat::R8G8B8A8 => 0x1908,
            TextureFormat::R8G8B8A8I => 0x8D95,
            TextureFormat::R8G8B8A8UI => 0x8D81,
            TextureFormat::R16F16I => 0x822F,
            TextureFormat::R16I16UI => 0x8239,
            TextureFormat::R32F32I => 0x8230,
            TextureFormat::R32I32UI => 0x823A,
            TextureFormat::R16F16I16UI => 0x881E,
            TextureFormat::R16I16UI16F => 0x8E59,
            TextureFormat::R16F16I16UI16F => 0x8E5A,
            TextureFormat::R16I16UI16F16F => 0x8E5B,
            TextureFormat::R32F32I32UI32F => 0x8E5C,
            TextureFormat::R8G8B8A8Unorm => 0x8058,
            TextureFormat::R8G8B8A8Snorm => 0x8F97,
            TextureFormat::R8G8B8A8Sint => 0x8D94,
            TextureFormat::R8G8B8A8Uint => 0x8D7C,
            TextureFormat::Depth16 => 0x81A5,
            TextureFormat::Depth24 => 0x81A6,
            TextureFormat::Depth32F => 0x8CAC,
            TextureFormat::Depth24Stencil8 => 0x88F0,
            TextureFormat::Depth32FStencil8 => 0x8CAD,
            TextureFormat::StencilIndex8 => 0x1901,
        }
    }

    /// Returns the variant whose native constant is `code`, or `None` when no
    /// variant carries it.
    pub fn from_code(code: u32) -> (r: Option<Self>)
        ensures
            r == Self::decode(code),
            forall|v: Self| #[trigger] v.code() == code <==> r == Some(v),
    {
        match code {
            0x8229 => Some(TextureFormat::R8),
            0x8231 => Some(TextureFormat::R8I),
            0x8232 => Some(TextureFormat::R8UI),
            0x822D => Some(TextureFormat::R16F),
            0x8233 => Some(TextureFormat::R16I),
            0x8234 => Some(TextureFormat::R16UI),
            0x822E => Some(TextureFormat::R32F),
            0x8235 => Some(TextureFormat::R32I),
            0x8236 => Some(TextureFormat::R32UI),
            0x822B => Some(TextureFormat::R8G8),
            0x8237 => Some(TextureFormat::R8G8I),
            0x8238 => Some(TextureFormat::R8G8UI),
            0x1907 => Some(TextureFormat::R8G8B8),
            0x8D8F => Some(TextureFormat::R8G8B8I),
            0x8D7D => Some(TextureFormat::R8G8B8UI),
            0x1908 => Some(TextureFormat::R8G8B8A8),
            0x8D95 => Some(TextureFormat::R8G8B8A8I),
            0x8D81 => Some(TextureFormat::R8G8B8A8UI),
            0x822F => Some(TextureFormat::R16F16I),
            0x8239 => Some(TextureFormat::R16I16UI),
            0x8230 => Some(TextureFormat::R32F32I),
            0x823A => Some(TextureFormat::R32I32UI),
            0x881E => Some(TextureFormat::R16F16I16UI),
            0x8E59 => Some(TextureFormat::R16I16UI16F),
            0x8E5A => Some(TextureFormat::R16F16I16UI16F),
            0x8E5B => Some(TextureFormat::R16I16UI16F16F),
            0x8E5C => Some(TextureFormat::R32F32I32UI32F),
            0x8058 => Some(TextureFormat::R8G8B8A8Unorm),
            0x8F97 => Some(TextureFormat::R8G8B8A8Snorm),
            0x8D94 => Some(TextureFormat::R8G8B8A8Sint),
            0x8D7C => Some(TextureFormat::R8G8B8A8Uint),
            0x81A5 => Some(TextureFormat::Depth16),
            0x81A6 => Some(TextureFormat::Depth24),
            0x8CAC => Some(TextureFormat::Depth32F),
            0x88F0 => Some(TextureFormat::Depth24Stencil8),
            0x8CAD => Some(TextureFormat::Depth32FStencil8),
            0x1901 => Some(TextureFormat::StencilIndex8),
            _ => None,
        }
    }
}

/// Data type for vertex attributes or uniform data.
#[derive(Debug, Clone, Copy, PartialEq, Eq, Structural)]
pub enum DataType {
    Byte,
    UnsignedByte,
    Short,
    UnsignedShort,
    Int,
    UnsignedInt,
    HalfFloat,
    Float,
    Double,
}

impl DataType {
    /// The native graphics constant that this variant stands for.
    pub open spec fn code(self) -> u32 {
        match self {
            DataType::Byte => 0x1400,    // GL_BYTE
            DataType::UnsignedByte => 0x1401,    // GL_UNSIGNED_BYTE
            DataType::Short => 0x1402,    // GL_SHORT
            DataType::UnsignedShort => 0x1403,    // GL_UNSIGNED_SHORT
            DataType::Int => 0x1404,    // GL_INT
            DataType::UnsignedInt => 0x1405,    // GL_UNSIGNED_INT
            DataType::HalfFloat => 0x140B,    // GL_HALF_FLOAT
            DataType::Float => 0x1406,    // GL_FLOAT
            DataType::Double => 0x140A,    // GL_DOUBLE
        }
    }

    /// The variant whose native constant is `code`, if any.
    pub open spec fn decode(code: u32) -> Option<Self> {
        if code == 0x1400 {
            Some(DataType::Byte)
        } else if code == 0x1401 {
            Some(DataType::UnsignedByte)
        } else if code == 0x1402 {
            Some(DataType::Short)
        } else if code == 0x1403 {
            Some(DataType::UnsignedShort)
        } else if code == 0x1404 {
            Some(DataType::Int)
        } else if code == 0x1405 {
            Some(DataType::UnsignedInt)
        } else if code == 0x140B {
            Some(DataType::HalfFloat)
        } else if code == 0x1406 {
            Some(DataType::Float)
        } else if code == 0x140A {
            Some(DataType::Double)
        } else {
            None
        }
    }

    /// Returns the native graphics constant of this variant.
    pub fn to_code(&self) -> (r: u32)
        ensures
            r == self.code(),
    {
        match self {
            DataType::Byte => 0x1400,
            DataType::UnsignedByte => 0x1401,
            DataType::Short => 0x1402,
            DataType::UnsignedShort => 0x1403,
            DataType::Int => 0x1404,
            DataType::UnsignedInt => 0x1405,
            DataType::HalfFloat => 0x140B,
            DataType::Float => 0x1406,
            DataType::Double => 0x140A,
        }
    }

    /// Returns the variant whose native constant is `code`, or `None` when no
    /// variant carries it.
    pub fn from_code(code: u32) -> (r: Option<Self>)
        ensures
            r == Self::decode(code),
            forall|v: Self| #[trigger] v.code() == code <==> r == Some(v),
    {
        match code {
            0x1400 => Some(DataType::Byte),
            0x1401 => Some(DataType::UnsignedByte),
            0x1402 => Some(DataType::Short),
            0x1403 => Some(DataType::UnsignedShort),
            0x1404 => Some(DataType::Int),
            0x1405 => Some(DataType::UnsignedInt),
            0x140B => Some(DataType::HalfFloat),
            0x1406 => Some(DataType::Float),
            0x140A => Some(DataType::Double),
            _ => None,
        }
    }
}

/// Primitive rendering type.
#[derive(Debug, Clone, Copy, PartialEq, Eq, Structural)]
pub enum PrimitiveType {
    Points,
    Lines,
    LineLoop,
    LineStrip,
    Triangles,
    TriangleStrip,
    TriangleFan,
    LinesAdjacency,
    LineStripAdjacency,
    TrianglesAdjacency,
    TriangleStripAdjacency,
    Patches,
}

impl PrimitiveType {
    /// The native graphics constant that this variant stands for.
    pub open spec fn code(self) -> u32 {
        match self {
            PrimitiveType::Points => 0x0000,    // GL_POINTS
            PrimitiveType::Lines => 0x0001,    // GL_LINES
            PrimitiveType::LineLoop => 0x0002,    // GL_LINE_LOOP
            PrimitiveType::LineStrip => 0x0003,    // GL_LINE_STRIP
            PrimitiveType::Triangles => 0x0004,    // GL_TRIANGLES
            PrimitiveType::TriangleStrip => 0x0005,    // GL_TRIANGLE_STRIP
            PrimitiveType::TriangleFan => 0x0006,    // GL_TRIANGLE_FAN
            PrimitiveType::LinesAdjacency => 0x000A,    // GL_LINES_ADJACENCY
            PrimitiveType::LineStripAdjacency => 0x000B,    // GL_LINE_STRIP_ADJACENCY
            PrimitiveType::TrianglesAdjacency => 0x000C,    // GL_TRIANGLES_ADJACENCY
            PrimitiveType::TriangleStripAdjacency => 0x000D,    // GL_TRIANGLE_STRIP_ADJACENCY
            PrimitiveType::Patches => 0x000E,    // GL_PATCHES
        }
    }

    /// The variant whose native constant is `code`, if any.
    pub open spec fn decode(code: u32) -> Option<Self> {
        if code == 0x0000 {
            Some(PrimitiveType::Points)
        } else if code == 0x0001 {
            Some(PrimitiveType::Lines)
        } else if code == 0x0002 {
            Some(PrimitiveType::LineLoop)
        } else if code == 0x0003 {
            Some(PrimitiveType::LineStrip)
        } else if code == 0x0004 {
            Some(PrimitiveType::Triangles)
        } else if code == 0x0005 {
            Some(PrimitiveType::TriangleStrip)
        } else if code == 0x0006 {
            Some(PrimitiveType::TriangleFan)
        } else if code == 0x000A {
            Some(PrimitiveType::LinesAdjacency)
        } else if code == 0x000B {
            Some(PrimitiveType::LineStripAdjacency)
        } else if code == 0x000C {
            Some(PrimitiveType::TrianglesAdjacency)
        } else if code == 0x000D {
            Some(PrimitiveType::TriangleStripAdjacency)
        } else if code == 0x000E {
            Some(PrimitiveType::Patches)
        } else {
            None
        }
    }

    /// Returns the native graphics constant of this variant.
    pub fn to_code(&self) -> (r: u32)
        ensures
            r == self.code(),
    {
        match self {
            PrimitiveType::Points => 0x0000,
            PrimitiveType::Lines => 0x0001,
            PrimitiveType::LineLoop => 0x0002,
            PrimitiveType::LineStrip => 0x0003,
            PrimitiveType::Triangles => 0x0004,
            PrimitiveType::TriangleStrip => 0x0005,
            PrimitiveType::TriangleFan => 0x0006,
            PrimitiveType::LinesAdjacency => 0x000A,
            PrimitiveType::LineStripAdjacency => 0x000B,
            PrimitiveType::TrianglesAdjacency => 0x000C,
            PrimitiveType::TriangleStripAdjacency => 0x000D,
            PrimitiveType::Patches => 0x000E,
        }
    }

    /// Returns the variant whose native constant is `code`, or `None` when no
    /// variant carries it.
    pub fn from_code(code: u32) -> (r: Option<Self>)
        ensures
            r == Self::decode(code),
            forall|v: Self| #[trigger] v.code() == code <==> r == Some(v),
    {
        match code {
            0x0000 => Some(PrimitiveType::Points),
            0x0001 => Some(PrimitiveType::Lines),
            0x0002 => Some(PrimitiveType::LineLoop),
            0x0003 => Some(PrimitiveType::LineStrip),
            0x0004 => Some(PrimitiveType::Triangles),
            0x0005 => Some(PrimitiveType::TriangleStrip),
            0x0006 => Some(PrimitiveType::TriangleFan),
            0x000A => Some(PrimitiveType::LinesAdjacency),
            0x000B => Some(PrimitiveType::LineStripAdjacency),
            0x000C => Some(PrimitiveType::TrianglesAdjacency),
            0x000D => Some(PrimitiveType::TriangleStripAdjacency),
            0x000E => Some(PrimitiveType::Patches),
            _ => None,
        }
    }
}

/// Draw mode for rendering.
#[derive(Debug, Clone, Copy, PartialEq, Eq, Structural)]
pub enum DrawMode {
    Static,
    Dynamic,
    Stream,
}

impl DrawMode {
    /// The native graphics constant that this variant stands for.
    pub open spec fn code(self) -> u32 {
        match self {
            DrawMode::Static => 0x88E4,    // GL_STATIC_DRAW
            DrawMode::Dynamic => 0x88E8,    // GL_DYNAMIC_DRAW
            DrawMode::Stream => 0x88E0,    // GL_STREAM_DRAW
        }
    }

    /// The variant whose native constant is `code`, if any.
    pub open spec fn decode(code: u32) -> Option<Self> {
        if code == 0x88E4 {
            Some(DrawMode::Static)
        } else if code == 0x88E8 {
            Some(DrawMode::Dynamic)
        } else if code == 0x88E0 {
            Some(DrawMode::Stream)
        } else {
            None
        }
    }

    /// Returns the native graphics constant of this variant.
    pub fn to_code(&self) -> (r: u32)
        ensures
            r == self.code(),
    {
        match self {
            DrawMode::Static => 0x88E4,
            DrawMode::Dynamic => 0x88E8,
            DrawMode::Stream => 0x88E0,
        }
    }

    /// Returns the variant whose native constant is `code`, or `None` when no
    /// variant carries it.
    pub fn from_code(code: u32) -> (r: Option<Self>)
        ensures
            r == Self::decode(code),
            forall|v: Self| #[trigger] v.code() == code <==> r == Some(v),
    {
        match code {
            0x88E4 => Some(DrawMode::Static),
            0x88E8 => Some(DrawMode::Dynamic),
            0x88E0 => Some(DrawMode::Stream),
            _ => None,
        }
    }
}

/// Transparency blending mode.
#[derive(Debug, Clone, Copy, PartialEq, Eq, Structural)]
pub enum Transparency {
    Opaque,
    Alpha,
    Additive,
    Multiply,
}

/// Filter mode for post-processing effects.
#[derive(Debug, Clone, Copy, PartialEq, Eq, Structural)]
pub enum FilterMode {
    Point,
    Linear,
    Gaussian,
}

/// Tone mapping algorithm for HDR rendering.
#[derive(Debug, Clone, Copy, PartialEq, Eq, Structural)]
pub enum ToneMapping {
    Disabled,
    Reinhard,
    ACESFilmic,
    Filmic,
    Lottes,
    Uchimura,
    Unreal,
}

/// Background rendering mode.
#[derive(Debug, Clone, Copy, PartialEq, Eq, Structural)]
pub enum BackgroundMode {
    Color,
    CubeMap,
    Skybox,
    Environment,
    NoBackground,
}

/// Geometry type for rendering.
#[derive(Debug, Clone, Copy, PartialEq, Eq, Structural)]
pub enum GeometryType {
    Points,
    Lines,
    Triangles,
    Fan,
    Strip,
    Quads,
}

/// Material shading model type.
#[derive(Debug, Clone, Copy, PartialEq, Eq, Structural)]
pub enum MaterialShadingModel {
    PBR,
    Phong,
    Lambert,
    Toon,
    Unlit,
}

/// Light type enumeration.
#[derive(Debug, Clone, Copy, PartialEq, Eq, Structural)]
pub enum LightType {
    Directional,
    Point,
    Spot,
    Ambient,
}

/// Eye stereo mode for stereoscopic rendering.
#[derive(Debug, Clone, Copy, PartialEq, Eq, Structural)]
pub enum StereoMode {
    Mono,
    Left,
    Right,
    SideBySide,
    TopBottom,
}

/// Framebuffer attachment type.
#[derive(Debug, Clone, Copy, PartialEq, Eq)]
pub enum FramebufferAttachment {
    Color(Option<u32>),
    Depth,
    Stencil,
    DepthStencil,
}

/// Query result state.
#[derive(Debug, Clone, Copy, PartialEq, Eq, Structural)]
pub enum QueryResult {
    Waiting,
    Available,
    Unavailable,
}

/// Buffer mapping access type.
#[derive(Debug, Clone, Copy, PartialEq, Eq, Structural)]
pub enum MapAccess {
    Read,
    Write,
    ReadWrite,
    ReadWritePersistent,
}

/// Buffer fencing mode.
#[derive(Debug, Clone, Copy, PartialEq, Eq, Structural)]
pub enum FenceStatus {
    Signaled,
    Unsignaled,
    ConditionSatisfied,
    AlreadySignaled,
    TimeoutExpired,
    NotSignaled,
}

/// Buffer storage flag.
#[derive(Debug, Clone, Copy, PartialEq, Eq, Structural)]
pub enum BufferStorage {
    Read,
    Write,
    ReadWrite,
    DynamicStorage,
    ClientStorage,
    MapCoherent,
    MapPersistent,
    MapRead,
    MapWrite,
}

/// Texture array layer type.
#[derive(Debug, Clone, Copy, PartialEq, Eq, Structural)]
pub enum TextureArrayLayer {
    Array,
    ArrayBuffer,
    Texture2DMultisampleArray,
    ArrayBufferShareBuffer,
}

/// Framebuffer clear flag.
#[derive(Debug, Clone, Copy, PartialEq, Eq, Structural)]
pub enum ClearFlag {
    Color,
    Depth,
    Stencil,
    ColorDepth,
    ColorStencil,
    DepthStencil,
    All,
}

/// Tessellation primitive mode.
#[derive(Debug, Clone, Copy, PartialEq, Eq, Structural)]
pub enum TessellationMode {
    Triangles,
    Quads,
    Isolines,
}

/// Viewport scaling mode.
#[derive(Debug, Clone, Copy, PartialEq, Eq, Structural)]
pub enum ViewportScaling {
    Stretch,
    PreserveAspect,
    IntegerScale,
    Fit,
}

/// Buffer binding point.
#[derive(Debug, Clone, Copy, PartialEq, Eq, Structural)]
pub enum BufferBindingPoint {
    Vertex,
    Element,
    Uniform,
    TransformFeedback,
    Patch,
    Constant,
}

/// Execute mode for shader programs.
#[derive(Debug, Clone, Copy, PartialEq, Eq, Structural)]
pub enum ExecutionMode {
    Threaded,
    Immediate,
    Deferred,
    Async,
}

/// Core errors for the graphics system.
#[derive(Debug, Clone, PartialEq, Eq)]
pub enum CoreError {
    /// General error with description
    General(String),
    /// Shader compilation failed
    ShaderCompilation(String),
    /// Program linking failed
    ProgramLinking(String),
    /// Texture creation failed
    TextureCreation(String),
    /// Buffer creation failed
    BufferCreation(String),
    /// Invalid operation
    InvalidOperation(String),
    /// Out of memory
    OutOfMemory(String),
    /// Invalid parameter
    InvalidParameter(String),
    /// Feature not supported
    FeatureNotSupported(String),
}

/// Renderer error enumeration.
#[derive(Debug, Clone, PartialEq, Eq)]
pub enum RendererError {
    /// Initialization failed
    InitializationFailed(String),
    /// Rendering failed
    RenderingFailed(String),
    /// Resource not found
    ResourceNotFound(String),
    /// Shader compilation failed
    ShaderCompilation(String),
    /// Internal error
    InternalError(String),
}

/// Render state error enumeration.
#[derive(Debug, Clone, PartialEq, Eq)]
pub enum RenderStateError {
    /// Invalid state combination
    InvalidCombination(String),
    /// State constraint violated
    ConstraintViolation(String),
    /// State not reset
    NotReset(String),
}

/// Debug message type.
#[derive(Debug, Clone, Copy, PartialEq, Eq, Structural)]
pub enum DebugType {
    Error,
    Deprecated,
    Undefined,
    Performance,
    Other,
    Marker,
    PushGroup,
    PopGroup,
}

/// Debug message parameter.
#[derive(Debug, Clone, Copy, PartialEq, Eq, Structural)]
pub enum DebugMessageParameter {
    Source,
    Type,
    Severity,
    MessageId,
}

/// Debug message.
#[derive(Debug, Clone, Copy, PartialEq, Eq, Structural)]
pub enum DebugMessage {
    Api,
    ShaderCompiler,
    WindowSystem,
    ThirdParty,
    Application,
    Other,
}

/// Hardware acceleration mode.
#[derive(Debug, Clone, Copy, PartialEq, Eq, Structural)]
pub enum HardwareAcceleration {
    Hardware,
    Software,
    Automatic,
}

/// Headless error enumeration.
#[derive(Debug, Clone, PartialEq, Eq)]
pub enum HeadlessError {
    /// Graphics context not available
    NoContext,
    /// Rendering to offscreen failed
    OffscreenFailed(String),
    /// Frame capture failed
    FrameCaptureFailed(String),
    /// Parameter validation failed
    InvalidParameter(String),
}

/// Window error enumeration.
#[derive(Debug, Clone, PartialEq, Eq)]
pub enum WindowError {
    /// Window creation failed
    CreationFailed(String),
    /// Window already exists
    AlreadyExists,
    /// Window not found
    NotFound,
    /// Invalid parameter
    InvalidParameter(String),
}

/// Polygon rasterization mode.
#[derive(Debug, Clone, Copy, PartialEq, Eq, Structural)]
pub enum PolygonMode {
    Fill,
    Line,
    Point,
}

/// Draw mode hint.
#[derive(Debug, Clone, Copy, PartialEq, Eq, Structural)]
pub enum DrawModeHint {
    Static,
    Dynamic,
    Stream,
}

/// Face culling selection without native constants; not to be confused with
/// `CullFace`, which carries them.
#[derive(Debug, Clone, Copy, PartialEq, Eq, Structural)]
pub enum Cull {
    NoCull,
    Back,
    Front,
    FrontAndBack,
}


} // verus!
