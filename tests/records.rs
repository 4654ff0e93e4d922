use three_d_bridge::context::NativeQuery;
use three_d_bridge::gpu::buffer::parse_usage;
use three_d_bridge::gpu::texture::{CpuTexture, CpuTexture3D, CubeMapSide, CubeMapSideIterator, Mipmap};
use three_d_bridge::text::{push_decimal, push_optional, push_signed};
use three_d_bridge::{
    ActiveAttribute, Context, CoreContext, DebugMessageLogEntry, ElementBuffer, InstanceBuffer,
    NativeBuffer, NativeFence, NativeSampler, NativeUniformLocation, PixelFormat, ProgramBinary,
    Renderer, Scene, ScissorBox, Texture2D, TextureCube, TextureCubeMap, TextureFilter,
    TextureWrap, UniformBuffer, Version, VertexBuffer, Viewport,
};
use three_d_bridge::enums::BufferUsage;

#[test]
fn decimal_text() {
    let mut s = String::new();
    push_decimal(&mut s, 0);
    s.push(' ');
    push_decimal(&mut s, 10);
    s.push(' ');
    push_decimal(&mut s, u64::MAX);
    s.push(' ');
    push_signed(&mut s, -42);
    s.push(' ');
    push_signed(&mut s, i64::MIN);
    assert_eq!(s, "0 10 18446744073709551615 -42 -9223372036854775808");
}

#[test]
fn optional_text() {
    let mut s = String::new();
    push_optional(&mut s, Some("\"q\""));
    push_optional(&mut s, None);
    assert_eq!(s, "Some(\"q\")None");
}

#[test]
fn version_strings() {
    assert_eq!(Version::new(3, 2, None, None).to_string(), "OpenGL 3.2");
    assert_eq!(Version::new(4, 1, Some(3), None).to_string(), "OpenGL 4.1.3");
    assert_eq!(Version::new(2, 0, Some(5), Some(true)).to_string(), "WebGL 2.0");
}

#[test]
fn glsl_targets() {
    assert_eq!(Version::new(3, 0, None, None).glsl_target(), "GLSL 1.30");
    assert_eq!(Version::new(3, 1, None, None).glsl_target(), "GLSL 1.40");
    assert_eq!(Version::new(3, 2, None, None).glsl_target(), "GLSL 1.50");
    assert_eq!(Version::new(3, 3, None, None).glsl_target(), "GLSL 3.30");
    assert_eq!(Version::new(4, 6, None, None).glsl_target(), "GLSL 4.60");
    assert_eq!(Version::new(2, 1, None, None).glsl_target(), "GLSL 2.10");
    assert_eq!(Version::new(4, 12, None, None).glsl_target(), "GLSL 4.120");
}

#[test]
fn version_support() {
    let v = Version::new(3, 2, None, None);
    assert!(v.supports(3, 2));
    assert!(v.supports(3, 1));
    assert!(v.supports(2, 9));
    assert!(!v.supports(3, 3));
    assert!(!v.supports(4, 0));
}

#[test]
fn context_description() {
    let c = Context::new();
    assert!(c.is_valid());
    assert_eq!(c.get_version(), Some(Version::new(3, 2, Some(0), Some(false))));
    assert_eq!(c.get_glsl_version(), "GLSL 3.20");
    assert_eq!(c.get_info(), "three-d Context (Mocked for N-API bindings)");
    assert_eq!(Context::create_version(4, 5, 1, true), Version::new(4, 5, Some(1), Some(true)));
}

#[test]
fn native_record_info() {
    assert_eq!(
        NativeBuffer::new(7, 34962, 1024, None).get_info(),
        "NativeBuffer(id=7, type=34962, size=1024 bytes)"
    );
    assert!(!NativeBuffer::new(7, 34962, 1024, None).is_bound);
    assert_eq!(NativeFence::new(-3, Some(true)).get_info(), "NativeFence(id=-3, signaled=true)");
    assert_eq!(
        NativeSampler::new(1, 10497, 33071, 9729, 9728).get_info(),
        "NativeSampler(id=1, wrap(S,T)=(10497,33071, filt=(9729,9728)"
    );
    assert_eq!(
        NativeQuery::new(2, 35887, Some(12)).get_info(),
        "NativeQuery(id=2, type=35887, result=Some(12))"
    );
    assert_eq!(NativeQuery::new(2, 35887, None).get_info(), "NativeQuery(id=2, type=35887, result=None)");
}

#[test]
fn uniform_location_names_are_quoted() {
    let u = NativeUniformLocation::new(3, 9, Some("model".to_string()));
    assert!(u.is_valid());
    assert_eq!(u.get_info(), "NativeUniformLocation(prog=9, loc=3, name=Some(\"model\"))");
    let missing = NativeUniformLocation::new(-1, 9, None);
    assert!(!missing.is_valid());
    assert_eq!(missing.get_info(), "NativeUniformLocation(prog=9, loc=-1, name=None)");
}

#[test]
fn program_records() {
    let a = ActiveAttribute::new("position".to_string(), 35665, 1);
    assert_eq!(a.get_info(), "ActiveAttribute(name=position, type=35665, size=1)");
    let e = DebugMessageLogEntry::new(1, 2, 3, 4, "oops".to_string());
    assert_eq!(e.get_info(), "DebugMsg(src=1, type=2, id=3, sev=4: oops)");
    let b = ProgramBinary::new(vec![1, 2, 3], 36385);
    assert_eq!(b.length(), 3);
    assert_eq!(b.get_info(), "ProgramBinary(format=36385, bytes=3)");
}

#[test]
fn buffer_usage_names() {
    assert_eq!(parse_usage(&"dynamic_draw".to_string()), BufferUsage::DynamicDraw);
    assert_eq!(parse_usage(&"stream_draw".to_string()), BufferUsage::StreamDraw);
    assert_eq!(parse_usage(&"static_read".to_string()), BufferUsage::StaticDraw);
    let v = VertexBuffer::new(Some("pos".to_string()), 10, Some("stream_draw".to_string()));
    assert_eq!(v.get_usage(), "stream_draw");
    assert_eq!(v.get_info(), "VertexBuffer(name=Some(\"pos\"), count=10, usage=stream_draw)");
    let e = ElementBuffer::new(None, 6, None);
    assert_eq!(e.get_usage(), "static_draw");
    assert_eq!(e.get_info(), "ElementBuffer(name=None, count=6, usage=static_draw)");
}

#[test]
fn buffer_sizes() {
    let v = VertexBuffer::new(None, 10, None);
    assert!(v.is_valid());
    assert_eq!(v.estimate_size_bytes(), 120);
    assert_eq!(v.get_buffer_type(), "Vertex");
    let e = ElementBuffer::new(None, 0, None);
    assert!(!e.is_valid());
    assert_eq!(e.estimate_size_bytes(), 0);
    assert_eq!(e.get_buffer_type(), "Element");
    let i = InstanceBuffer::new(None, 3, None);
    assert_eq!(i.estimate_size_bytes(), 384);
    let j = InstanceBuffer::new(Some("m".to_string()), 3, Some(vec![0u64; 5]));
    assert_eq!(j.estimate_size_bytes(), 40);
    assert_eq!(j.get_info(), "InstanceBuffer(name=Some(\"m\"), count=3)");
    assert_eq!(j.get_buffer_type(), "Instance");
    let u = UniformBuffer::new(None, 2, None);
    assert!(!u.is_valid());
    assert_eq!(u.get_size_bytes(), 0);
    assert_eq!(UniformBuffer::new(None, 2, Some(64)).get_info(), "UniformBuffer(name=None, binding=2, size=64 bytes)");
}

#[test]
fn rectangles_contain_half_open() {
    let v = Viewport::new(10, 20, 5, 5);
    assert!(v.contains(10, 20));
    assert!(v.contains(14, 24));
    assert!(!v.contains(15, 20));
    assert!(!v.contains(9, 20));
    assert!(!v.contains(10, 25));
    assert_eq!(v.get_info(), "Viewport(10,20,5,5)");
    assert_eq!(Viewport::at_origin(8, 6), Viewport::new(0, 0, 8, 6));
    let s = ScissorBox::new(0, 0, 0, 0);
    assert!(!s.contains(0, 0));
    let edge = ScissorBox::new(u32::MAX - 1, 0, 10, 1);
    assert!(edge.contains(u32::MAX, 0));
}

#[test]
fn core_context_size() {
    let c = CoreContext::new(800, 600);
    assert_eq!(c.get_size(), vec![800, 600]);
    assert_eq!(c.get_info(), "CoreContext(800x600)");
}

#[test]
fn cube_map_sides_in_order() {
    let mut it = CubeMapSideIterator::new();
    let mut seen = Vec::new();
    while let Some(side) = it.next() {
        seen.push(side);
    }
    assert_eq!(
        seen,
        vec![
            CubeMapSide::Right,
            CubeMapSide::Left,
            CubeMapSide::Top,
            CubeMapSide::Bottom,
            CubeMapSide::Front,
            CubeMapSide::Back
        ]
    );
    assert_eq!(it.next(), None);
}

#[test]
fn cpu_textures() {
    assert_eq!(CpuTexture::new(4, 2, None).to_gpu(), "GPUSurface(4x2 rgba8)");
    assert_eq!(CpuTexture3D::new(4, 2, 3, Some("r8".to_string())).to_gpu(), "GPUVolume(4x2x3 r8)");
    assert_eq!(Mipmap::new(1, 64, 32).get_info(), "Level 1: 64x32");
}

#[test]
fn texture_defaults_and_sizes() {
    let t = Texture2D::new(None, 4, 4, PixelFormat::Rgba8, None, None, None, None);
    assert_eq!(t.min_filter, TextureFilter::LinearMipmapLinear);
    assert_eq!(t.mag_filter, TextureFilter::Linear);
    assert_eq!(t.wrap_s, TextureWrap::Repeat);
    assert_eq!(t.get_info(), "2DTexture(name=None, 4x4, format=Rgba8)");
    let c = TextureCube::new(Some("sky".to_string()), 16, PixelFormat::Rgb8, None, None, None, None);
    assert_eq!(c.wrap_t, TextureWrap::ClampToEdge);
    assert_eq!(c.estimate_size_bytes(), 16 * 16 * 3 * 6);
    assert_eq!(c.get_info(), "Cubemap(name=Some(\"sky\"), 16x16, faces=6, format=Rgb8)");
    let m = TextureCubeMap::new(None, 8, PixelFormat::Rgba32F, None, Some(TextureFilter::Nearest), None, None);
    assert_eq!(m.mag_filter, TextureFilter::Nearest);
    assert_eq!(m.estimate_size_bytes(), 8 * 8 * 16 * 6);
}

#[test]
fn scene_and_renderer() {
    let s = Scene::new(None, None, Some(200), None, None);
    assert_eq!((s.bg_r, s.bg_g, s.bg_b, s.bg_a), (10, 200, 10, 255));
    let mut r = Renderer::new(640, 480, None);
    assert!(!r.render_frame());
    assert_eq!(r.get_info(), "Renderer: 640x480 'Three-d NAPI': Initialized: false");
    r.init();
    assert!(r.render_frame());
    assert_eq!(r.get_info(), "Renderer: 640x480 'Three-d NAPI': Initialized: true");
}

#[test]
fn greeting_and_version() {
    assert_eq!(three_d_bridge::hello_three_d(), "three-d N-API bindings loaded successfully!");
    assert_eq!(three_d_bridge::get_version(), "three-d: 0.18.2, N-API Bindings: 0.1.0");
}
