use three_d_bridge::enums::{
    BlendEquation, BlendMultiplier, BufferUsage, Comparison, CubeMapSide, CullFace, DataType,
    FaceWinding, PrimitiveType, StencilOperation, TextureFormat, TextureWrap,
};
use three_d_bridge::gpu::render_states::{Cull, DepthTest, WriteMask};
use three_d_bridge::ClearMask;

#[test]
fn comparison_codes_match_native_constants() {
    assert_eq!(Comparison::Never.to_code(), 0x0200);
    assert_eq!(Comparison::Less.to_code(), 0x0201);
    assert_eq!(Comparison::LessOrEqual.to_code(), 0x0203);
    assert_eq!(Comparison::Always.to_code(), 0x0207);
}

#[test]
fn from_code_inverts_to_code() {
    for c in [
        Comparison::Never,
        Comparison::Less,
        Comparison::Equal,
        Comparison::LessOrEqual,
        Comparison::Greater,
        Comparison::NotEqual,
        Comparison::GreaterOrEqual,
        Comparison::Always,
    ] {
        assert_eq!(Comparison::from_code(c.to_code()), Some(c));
    }
    for s in [
        StencilOperation::Keep,
        StencilOperation::Zero,
        StencilOperation::Replace,
        StencilOperation::Increment,
        StencilOperation::Decrement,
        StencilOperation::IncrementWrap,
        StencilOperation::DecrementWrap,
        StencilOperation::Invert,
    ] {
        assert_eq!(StencilOperation::from_code(s.to_code()), Some(s));
    }
}

#[test]
fn unknown_codes_decode_to_none() {
    assert_eq!(Comparison::from_code(0x0208), None);
    assert_eq!(BlendEquation::from_code(0), None);
    assert_eq!(CullFace::from_code(0x0406), None);
    assert_eq!(TextureFormat::from_code(0x1234), None);
}

#[test]
fn blend_and_cull_codes() {
    assert_eq!(BlendEquation::Add.to_code(), 0x8006);
    assert_eq!(BlendEquation::from_code(0x800B), Some(BlendEquation::ReverseSubtract));
    assert_eq!(BlendMultiplier::Zero.to_code(), 0);
    assert_eq!(BlendMultiplier::One.to_code(), 1);
    assert_eq!(BlendMultiplier::from_code(0x881B), Some(BlendMultiplier::OneMinusSrc1Alpha));
    assert_eq!(CullFace::NoCull.to_code(), 0);
    assert_eq!(CullFace::Back.to_code(), 0x0405);
    assert_eq!(FaceWinding::CounterClockwise.to_code(), 0x0901);
    assert_eq!(FaceWinding::from_code(0x0900), Some(FaceWinding::Clockwise));
}

#[test]
fn resource_codes() {
    assert_eq!(BufferUsage::StaticDraw.to_code(), 0x88E4);
    assert_eq!(BufferUsage::from_code(0x88EA), Some(BufferUsage::DynamicCopy));
    assert_eq!(TextureWrap::ClampToEdge.to_code(), 0x812F);
    assert_eq!(CubeMapSide::NegativeZ.to_code(), 0x851A);
    assert_eq!(TextureFormat::Depth24Stencil8.to_code(), 0x88F0);
    assert_eq!(TextureFormat::from_code(0x1908), Some(TextureFormat::R8G8B8A8));
    assert_eq!(DataType::Float.to_code(), 0x1406);
    assert_eq!(PrimitiveType::Patches.to_code(), 0x000E);
    assert_eq!(PrimitiveType::from_code(4), Some(PrimitiveType::Triangles));
}

#[test]
fn clear_mask_bits() {
    assert_eq!(ClearMask::Color.to_code(), 0x4000);
    assert_eq!(ClearMask::Depth.to_code(), 0x0100);
    assert_eq!(ClearMask::Stencil.to_code(), 0x0400);
    assert_eq!(ClearMask::from_code(0x0100), Some(ClearMask::Depth));
    assert_eq!(ClearMask::from_code(0x4100), None);
}

#[test]
fn engine_state_codes() {
    assert_eq!(WriteMask::NoChannels.to_code(), 0);
    assert_eq!(WriteMask::All.to_code(), 7);
    assert_eq!(WriteMask::from_code(3), None);
    assert_eq!(Cull::FrontAndBack.to_code(), 3);
    assert_eq!(DepthTest::from_code(3), Some(DepthTest::LessOrEqual));
    assert_eq!(DepthTest::from_code(8), None);
}
