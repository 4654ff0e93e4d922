use three_d_bridge::enums::{
    BlendEquation, BlendMultiplier, Comparison, CullFace, FaceWinding, PolygonMode,
    StencilOperation,
};
use three_d_bridge::RenderStateDescriptor;

#[test]
fn default_descriptor_has_conventional_state() {
    let d = RenderStateDescriptor::default();
    assert!(!d.blending_enabled);
    assert!(!d.depth_test_enabled);
    assert_eq!(d.cull_face, CullFace::NoCull);
    assert_eq!(d.front_face, FaceWinding::CounterClockwise);
    assert_eq!(f64::from_bits(d.clear_color_r), 0.0);
    assert_eq!(f64::from_bits(d.clear_color_g), 0.0);
    assert_eq!(f64::from_bits(d.clear_color_b), 0.0);
    assert_eq!(f64::from_bits(d.clear_color_a), 1.0);
    assert_eq!(f64::from_bits(d.clear_depth), 1.0);
    assert_eq!(d.clear_stencil, 0);
}

#[test]
fn default_descriptor_remaining_fields() {
    let d = RenderStateDescriptor::new();
    assert_eq!(d.blend_equation, BlendEquation::Add);
    assert_eq!(d.blend_src, BlendMultiplier::One);
    assert_eq!(d.blend_dst, BlendMultiplier::Zero);
    assert_eq!(d.depth_func, Comparison::Less);
    assert!(d.depth_write_mask);
    assert!(!d.stencil_test_enabled);
    assert_eq!(d.stencil_func, Comparison::Always);
    assert_eq!(d.stencil_ref, 0);
    assert_eq!(d.stencil_mask, 0xFF);
    assert_eq!(d.stencil_fail, StencilOperation::Keep);
    assert_eq!(d.stencil_z_fail, StencilOperation::Keep);
    assert_eq!(d.stencil_z_pass, StencilOperation::Keep);
    assert_eq!(d.polygon_mode, PolygonMode::Fill);
    assert!(!d.alpha_to_coverage);
    assert!(!d.dither);
    assert!(!d.scissor_test);
    assert_eq!((d.scissor_x, d.scissor_y, d.scissor_width, d.scissor_height), (0, 0, 0, 0));
    assert_eq!((d.viewport_x, d.viewport_y, d.viewport_width, d.viewport_height), (0, 0, 0, 0));
    assert_eq!(d.clear_mask, 0);
    assert_eq!(d, RenderStateDescriptor::default());
}

#[test]
fn scissor_enabled_on_empty_rect_is_accepted() {
    let mut d = RenderStateDescriptor::new();
    d.scissor_test = true;
    assert!(d.scissor_test);
    assert_eq!(d.scissor_width, 0);
    assert_eq!(d.scissor_height, 0);
}

#[test]
fn fields_are_set_independently() {
    let mut d = RenderStateDescriptor::new();
    d.blending_enabled = true;
    d.blend_src = BlendMultiplier::SrcAlpha;
    d.blend_dst = BlendMultiplier::OneMinusSrcAlpha;
    d.clear_color_r = 0.25f64.to_bits();
    let mut e = RenderStateDescriptor::new();
    e.blending_enabled = true;
    e.blend_src = BlendMultiplier::SrcAlpha;
    e.blend_dst = BlendMultiplier::OneMinusSrcAlpha;
    e.clear_color_r = 0.25f64.to_bits();
    assert_eq!(d, e);
    assert!(!d.depth_test_enabled);
    assert_eq!(f64::from_bits(d.clear_color_r), 0.25);
}
