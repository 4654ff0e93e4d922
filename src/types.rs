//! The render-state descriptor: one snapshot of the whole fixed-function
//! pipeline configuration.
//!
//! The descriptor is plain data. Every field may be set on its own, and no
//! combination of fields is rejected here: checking that a combination is
//! legal on the GPU is left to the backend that consumes the snapshot.
//! Double-precision fields hold IEEE-754 binary64 bit patterns.
use vstd::prelude::*;
use crate::enums::{
    BlendEquation, BlendMultiplier, Comparison, CullFace, FaceWinding, PolygonMode,
    StencilOperation,
};
use crate::prelude::{F64_ONE, F64_ZERO};

verus! {

/// Everything a backend needs to configure the fixed-function pipeline.
#[derive(Debug, Clone, Copy, PartialEq, Eq, Structural)]
pub struct RenderStateDescriptor {
    /// Whether blending is enabled.
    pub blending_enabled: bool,
    /// Blending equation.
    pub blend_equation: BlendEquation,
    /// Source blend factor.
    pub blend_src: BlendMultiplier,
    /// Destination blend factor.
    pub blend_dst: BlendMultiplier,
    /// Whether depth test is enabled.
    pub depth_test_enabled: bool,
    /// Depth comparison function.
    pub depth_func: Comparison,
    /// Whether depth buffer writing is enabled.
    pub depth_write_mask: bool,
    /// Whether stencil test is enabled.
    pub stencil_test_enabled: bool,
    /// Stencil comparison function.
    pub stencil_func: Comparison,
    /// Stencil reference value.
    pub stencil_ref: i32,
    /// Stencil mask value.
    pub stencil_mask: u32,
    /// Stencil operation on stencil fail.
    pub stencil_fail: StencilOperation,
    /// Stencil operation on depth fail.
    pub stencil_z_fail: StencilOperation,
    /// Stencil operation on depth pass.
    pub stencil_z_pass: StencilOperation,
    /// Face to cull.
    pub cull_face: CullFace,
    /// Front face winding order.
    pub front_face: FaceWinding,
    /// Polygon drawing mode.
    pub polygon_mode: PolygonMode,
    /// Whether alpha to coverage is enabled.
    pub alpha_to_coverage: bool,
    /// Whether dithering is enabled.
    pub dither: bool,
    /// Whether scissor test is enabled.
    pub scissor_test: bool,
    /// Scissor rectangle, left edge.
    pub scissor_x: i32,
    /// Scissor rectangle, bottom edge.
    pub scissor_y: i32,
    /// Scissor rectangle width.
    pub scissor_width: u32,
    /// Scissor rectangle height.
    pub scissor_height: u32,
    /// Viewport, left edge.
    pub viewport_x: i32,
    /// Viewport, bottom edge.
    pub viewport_y: i32,
    /// Viewport width.
    pub viewport_width: u32,
    /// Viewport height.
    pub viewport_height: u32,
    /// Clear color, red component (binary64 bits).
    pub clear_color_r: u64,
    /// Clear color, green component (binary64 bits).
    pub clear_color_g: u64,
    /// Clear color, blue component (binary64 bits).
    pub clear_color_b: u64,
    /// Clear color, alpha component (binary64 bits).
    pub clear_color_a: u64,
    /// Clear depth value (binary64 bits).
    pub clear_depth: u64,
    /// Clear stencil value.
    pub clear_stencil: i32,
    /// Combined clear mask.
    pub clear_mask: u32,
}

impl RenderStateDescriptor {
    /// The graphics API's conventional initial state: blending off with
    /// `Add`/`One`/`Zero`; depth test off with `Less` and writes on; stencil
    /// off with `Always`, reference 0, mask `0xFF` and `Keep` for every
    /// operation; no culling with counter-clockwise front faces; filled
    /// polygons; no alpha-to-coverage, no dithering; scissor off; empty
    /// scissor and viewport rectangles at the origin; clear color
    /// `(0, 0, 0, 1)`, clear depth 1, clear stencil 0, clear mask 0.
    pub open spec fn is_conventional_default(self) -> bool {
        &&& !self.blending_enabled
        &&& self.blend_equation == BlendEquation::Add
        &&& self.blend_src == BlendMultiplier::One
        &&& self.blend_dst == BlendMultiplier::Zero
        &&& !self.depth_test_enabled
        &&& self.depth_func == Comparison::Less
        &&& self.depth_write_mask
        &&& !self.stencil_test_enabled
        &&& self.stencil_func == Comparison::Always
        &&& self.stencil_ref == 0
        &&& self.stencil_mask == 0xFF
        &&& self.stencil_fail == StencilOperation::Keep
        &&& self.stencil_z_fail == StencilOperation::Keep
        &&& self.stencil_z_pass == StencilOperation::Keep
        &&& self.cull_face == CullFace::NoCull
        &&& self.front_face == FaceWinding::CounterClockwise
        &&& self.polygon_mode == PolygonMode::Fill
        &&& !self.alpha_to_coverage
        &&& !self.dither
        &&& !self.scissor_test
        &&& self.scissor_x == 0
        &&& self.scissor_y == 0
        &&& self.scissor_width == 0
        &&& self.scissor_height == 0
        &&& self.viewport_x == 0
        &&& self.viewport_y == 0
        &&& self.viewport_width == 0
        &&& self.viewport_height == 0
        &&& self.clear_color_r == F64_ZERO
        &&& self.clear_color_g == F64_ZERO
        &&& self.clear_color_b == F64_ZERO
        &&& self.clear_color_a == F64_ONE
        &&& self.clear_depth == F64_ONE
        &&& self.clear_stencil == 0
        &&& self.clear_mask == 0
    }

    /// Creates a descriptor holding the conventional initial state.
    pub fn new() -> (r: Self)
        ensures
            r.is_conventional_default(),
    {
        RenderStateDescriptor {
            blending_enabled: false,
            blend_equation: BlendEquation::Add,
            blend_src: BlendMultiplier::One,
            blend_dst: BlendMultiplier::Zero,
            depth_test_enabled: false,
            depth_func: Comparison::Less,
            depth_write_mask: true,
            stencil_test_enabled: false,
            stencil_func: Comparison::Always,
            stencil_ref: 0,
            stencil_mask: 0xFF,
            stencil_fail: StencilOperation::Keep,
            stencil_z_fail: StencilOperation::Keep,
            stencil_z_pass: StencilOperation::Keep,
            cull_face: CullFace::NoCull,
            front_face: FaceWinding::CounterClockwise,
            polygon_mode: PolygonMode::Fill,
            alpha_to_coverage: false,
            dither: false,
            scissor_test: false,
            scissor_x: 0,
            scissor_y: 0,
            scissor_width: 0,
            scissor_height: 0,
            viewport_x: 0,
            viewport_y: 0,
            viewport_width: 0,
            viewport_height: 0,
            clear_color_r: F64_ZERO,
            clear_color_g: F64_ZERO,
            clear_color_b: F64_ZERO,
            clear_color_a: F64_ONE,
            clear_depth: F64_ONE,
            clear_stencil: 0,
            clear_mask: 0,
        }
    }
}

impl Default for RenderStateDescriptor {
    fn default() -> (r: Self)
        ensures
            r.is_conventional_default(),
    {
        Self::new()
    }
}

/// A flat buffer of per-vertex attribute components (binary64 bits).
#[derive(Debug, Clone)]
pub struct AttributeBuffer(pub Vec<u64>);

/// Framebuffer clear mask bits.
#[derive(Debug, Clone, Copy, PartialEq, Eq, Structural)]
pub enum ClearMask {
    /// Clear the color buffer.
    Color,
    /// Clear the depth buffer.
    Depth,
    /// Clear the stencil buffer.
    Stencil,
}

impl ClearMask {
    /// The native graphics constant that this variant stands for.
    pub open spec fn code(self) -> u32 {
        match self {
            ClearMask::Color => 0x00004000,    // GL_COLOR_BUFFER_BIT
            ClearMask::Depth => 0x00000100,    // GL_DEPTH_BUFFER_BIT
            ClearMask::Stencil => 0x00000400,    // GL_STENCIL_BUFFER_BIT
        }
    }

    /// The variant whose native constant is `code`, if any.
    pub open spec fn decode(code: u32) -> Option<Self> {
        if code == 0x00004000 {
            Some(ClearMask::Color)
        } else if code == 0x00000100 {
            Some(ClearMask::Depth)
        } else if code == 0x00000400 {
            Some(ClearMask::Stencil)
        } else {
            None
        }
    }

    /// Returns the native graphics constant of this variant.
    pub fn to_code(&self) -> (r: u32)
        ensures
            r == self.code(),
    {
        match self {
            ClearMask::Color => 0x00004000,
            ClearMask::Depth => 0x00000100,
            ClearMask::Stencil => 0x00000400,
        }
    }

    /// Returns the variant whose native constant is `code`, or `None` when no
    /// variant carries it.
    pub fn from_code(code: u32) -> (r: Option<Self>)
        ensures
            r == Self::decode(code),
            forall|v: Self| #[trigger] v.code() == code <==> r == Some(v),
    {
        match code {
            0x00004000 => Some(ClearMask::Color),
            0x00000100 => Some(ClearMask::Depth),
            0x00000400 => Some(ClearMask::Stencil),
            _ => None,
        }
    }
}

} // verus!
