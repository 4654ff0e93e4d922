//! The scene, its objects and lights, and texture records.
use vstd::prelude::*;
use vstd::string::StringExecFns;
use crate::prelude::F64_ONE;
use crate::text::{decimal, optional_name_text, push_decimal, push_optional_name};

verus! {

/// Pixel formats of texture content.
#[derive(Debug, Clone, Copy, PartialEq, Eq, Structural)]
pub enum PixelFormat {
    Rgba8,
    Rgb8,
    R8,
    Depth24,
    Depth32F,
    Rg16F,
    Rgba16F,
    Rgba32F,
}

/// The name of a pixel format, as `{:?}` writes it.
pub open spec fn pixel_format_name(f: PixelFormat) -> Seq<char> {
    match f {
        PixelFormat::Rgba8 => "Rgba8"@,
        PixelFormat::Rgb8 => "Rgb8"@,
        PixelFormat::R8 => "R8"@,
        PixelFormat::Depth24 => "Depth24"@,
        PixelFormat::Depth32F => "Depth32F"@,
        PixelFormat::Rg16F => "Rg16F"@,
        PixelFormat::Rgba16F => "Rgba16F"@,
        PixelFormat::Rgba32F => "Rgba32F"@,
    }
}

/// The name of a pixel format, as `{:?}` writes it.
pub fn pixel_format_str(f: PixelFormat) -> (r: &'static str)
    ensures
        r@ == pixel_format_name(f),
{
    match f {
        PixelFormat::Rgba8 => "Rgba8",
        PixelFormat::Rgb8 => "Rgb8",
        PixelFormat::R8 => "R8",
        PixelFormat::Depth24 => "Depth24",
        PixelFormat::Depth32F => "Depth32F",
        PixelFormat::Rg16F => "Rg16F",
        PixelFormat::Rgba16F => "Rgba16F",
        PixelFormat::Rgba32F => "Rgba32F",
    }
}

/// Bytes per texel of a pixel format, as the size estimates count them.
pub open spec fn bytes_per_texel(f: PixelFormat) -> nat {
    match f {
        PixelFormat::Rgba8 => 4,
        PixelFormat::Rgb8 => 3,
        PixelFormat::R8 => 1,
        PixelFormat::Depth24 => 3,
        PixelFormat::Depth32F => 4,
        PixelFormat::Rg16F => 4,
        PixelFormat::Rgba16F => 8,
        PixelFormat::Rgba32F => 16,
    }
}

/// Bytes per texel of a pixel format, as the size estimates count them.
pub fn texel_bytes(f: PixelFormat) -> (r: u64)
    ensures
        r == bytes_per_texel(f),
{
    match f {
        PixelFormat::Rgba8 => 4,
        PixelFormat::Rgb8 => 3,
        PixelFormat::R8 => 1,
        PixelFormat::Depth24 => 3,
        PixelFormat::Depth32F => 4,
        PixelFormat::Rg16F => 4,
        PixelFormat::Rgba16F => 8,
        PixelFormat::Rgba32F => 16,
    }
}

/// Texture filtering hint.
#[derive(Debug, Clone, Copy, PartialEq, Eq, Structural)]
pub enum TextureFilter {
    Nearest,
    Linear,
    NearestMipmapNearest,
    LinearMipmapNearest,
    NearestMipmapLinear,
    LinearMipmapLinear,
}

/// Texture wrapping mode.
#[derive(Debug, Clone, Copy, PartialEq, Eq, Structural)]
pub enum TextureWrap {
    Repeat,
    MirroredRepeat,
    ClampToEdge,
}

/// An object placed in the scene. Position and scale are binary64 bit
/// patterns.
#[derive(Debug, Clone)]
pub struct SceneObject {
    /// Position, x.
    pub position_x: u64,
    /// Position, y.
    pub position_y: u64,
    /// Position, z.
    pub position_z: u64,
    /// Uniform scale.
    pub scale: u64,
    /// Name of the object.
    pub name: Option<String>,
}

impl SceneObject {
    /// Places an object; its scale defaults to 1.
    pub fn new(
        position_x: u64,
        position_y: u64,
        position_z: u64,
        scale: Option<u64>,
        name: Option<String>,
    ) -> (r: Self)
        ensures
            r.position_x == position_x,
            r.position_y == position_y,
            r.position_z == position_z,
            r.scale == match scale { Some(v) => v, None => F64_ONE },
            r.name == name,
    {
        SceneObject {
            position_x,
            position_y,
            position_z,
            scale: match scale {
                Some(v) => v,
                None => F64_ONE,
            },
            name,
        }
    }
}

/// Kind of a light source.
#[derive(Debug, Clone, Copy, PartialEq, Eq, Structural)]
pub enum LightType {
    Point,
    Directional,
    Ambient,
}

/// A light source. Position and intensity are binary64 bit patterns.
#[derive(Debug, Clone, Copy, PartialEq, Eq, Structural)]
pub struct LightSource {
    /// Kind of light.
    pub light_type: LightType,
    /// Position, x.
    pub pos_x: u64,
    /// Position, y.
    pub pos_y: u64,
    /// Position, z.
    pub pos_z: u64,
    /// Color, red.
    pub color_r: u8,
    /// Color, green.
    pub color_g: u8,
    /// Color, blue.
    pub color_b: u8,
    /// Intensity.
    pub intensity: u64,
}

impl LightSource {
    /// Creates a light source.
    pub fn new(
        light_type: LightType,
        pos_x: u64,
        pos_y: u64,
        pos_z: u64,
        color_r: u8,
        color_g: u8,
        color_b: u8,
        intensity: u64,
    ) -> (r: Self)
        ensures
            r.light_type == light_type,
            r.pos_x == pos_x,
            r.pos_y == pos_y,
            r.pos_z == pos_z,
            r.color_r == color_r,
            r.color_g == color_g,
            r.color_b == color_b,
            r.intensity == intensity,
    {
        LightSource {
            light_type,
            pos_x,
            pos_y,
            pos_z,
            color_r,
            color_g,
            color_b,
            intensity,
        }
    }
}

/// The scene: a name and a background color.
#[derive(Debug, Clone)]
pub struct Scene {
    /// Background, red.
    pub bg_r: u8,
    /// Background, green.
    pub bg_g: u8,
    /// Background, blue.
    pub bg_b: u8,
    /// Background, alpha.
    pub bg_a: u8,
    /// Name of the scene.
    pub name: Option<String>,
}

impl Scene {
    /// Creates a scene; the background defaults to opaque `(10, 10, 10)`.
    pub fn new(
        name: Option<String>,
        bg_r: Option<u8>,
        bg_g: Option<u8>,
        bg_b: Option<u8>,
        bg_a: Option<u8>,
    ) -> (r: Self)
        ensures
            r.bg_r == match bg_r { Some(v) => v, None => 10u8 },
            r.bg_g == match bg_g { Some(v) => v, None => 10u8 },
            r.bg_b == match bg_b { Some(v) => v, None => 10u8 },
            r.bg_a == match bg_a { Some(v) => v, None => 255u8 },
            r.name == name,
    {
        Scene {
            bg_r: match bg_r {
                Some(v) => v,
                None => 10,
            },
            bg_g: match bg_g {
                Some(v) => v,
                None => 10,
            },
            bg_b: match bg_b {
                Some(v) => v,
                None => 10,
            },
            bg_a: match bg_a {
                Some(v) => v,
                None => 255,
            },
            name,
        }
    }
}

/// A 2D texture.
#[derive(Debug, Clone)]
pub struct Texture2D {
    name: Option<String>,
    /// Width in texels.
    pub width: u32,
    /// Height in texels.
    pub height: u32,
    /// Pixel format.
    pub format: PixelFormat,
    /// Minification filter.
    pub min_filter: TextureFilter,
    /// Magnification filter.
    pub mag_filter: TextureFilter,
    /// Wrapping along S.
    pub wrap_s: TextureWrap,
    /// Wrapping along T.
    pub wrap_t: TextureWrap,
}

impl Texture2D {
    /// The `name` field.
    pub closed spec fn name(&self) -> Option<String> {
        self.name
    }

    /// The `format` field.
    pub closed spec fn format(&self) -> PixelFormat {
        self.format
    }

    /// The `min_filter` field.
    pub closed spec fn min_filter(&self) -> TextureFilter {
        self.min_filter
    }

    /// The `mag_filter` field.
    pub closed spec fn mag_filter(&self) -> TextureFilter {
        self.mag_filter
    }

    /// The `wrap_s` field.
    pub closed spec fn wrap_s(&self) -> TextureWrap {
        self.wrap_s
    }

    /// The `wrap_t` field.
    pub closed spec fn wrap_t(&self) -> TextureWrap {
        self.wrap_t
    }

    /// The `width` field.
    pub closed spec fn width(&self) -> u32 {
        self.width
    }

    /// The `height` field.
    pub closed spec fn height(&self) -> u32 {
        self.height
    }

    /// Creates the texture record; the filters default to `LinearMipmapLinear` (minification)
    /// and `Linear` (magnification), wrapping to `Repeat`.
    pub fn new(
        name: Option<String>,
        width: u32,
        height: u32,
        format: PixelFormat,
        min_filter: Option<TextureFilter>,
        mag_filter: Option<TextureFilter>,
        wrap_s: Option<TextureWrap>,
        wrap_t: Option<TextureWrap>,
    ) -> (r: Self)
        ensures
            r.name() == name,
            r.width() == width,
            r.height() == height,
            r.format() == format,
            r.min_filter() == match min_filter { Some(v) => v, None => TextureFilter::LinearMipmapLinear },
            r.mag_filter() == match mag_filter { Some(v) => v, None => TextureFilter::Linear },
            r.wrap_s() == match wrap_s { Some(v) => v, None => TextureWrap::Repeat },
            r.wrap_t() == match wrap_t { Some(v) => v, None => TextureWrap::Repeat },
    {
        Texture2D {
            name,
            width,
            height,
            format,
            min_filter: match min_filter {
                Some(v) => v,
                None => TextureFilter::LinearMipmapLinear,
            },
            mag_filter: match mag_filter {
                Some(v) => v,
                None => TextureFilter::Linear,
            },
            wrap_s: match wrap_s {
                Some(v) => v,
                None => TextureWrap::Repeat,
            },
            wrap_t: match wrap_t {
                Some(v) => v,
                None => TextureWrap::Repeat,
            },
        }
    }

    /// A one-line description: name, size and pixel format.
    pub fn get_info(&self) -> (r: String)
        ensures
            r@ == "2DTexture(name="@ + optional_name_text(self.name()) + ", "@
                + decimal(self.width() as nat) + "x"@ + decimal(self.height() as nat) + ", format="@
                + pixel_format_name(self.format()) + ")"@,
    {
        let mut s = String::from_str("2DTexture(name=");
        push_optional_name(&mut s, &self.name);
        s.append(", ");
        push_decimal(&mut s, self.width as u64);
        s.append("x");
        push_decimal(&mut s, self.height as u64);
        s.append(", format=");
        s.append(pixel_format_str(self.format));
        s.append(")");
        s
    }
}

/// An array of 2D textures.
#[derive(Debug, Clone)]
pub struct Texture2DArray {
    name: Option<String>,
    /// Width in texels.
    pub width: u32,
    /// Height in texels.
    pub height: u32,
    /// Number of layers.
    pub depth: u32,
    /// Pixel format.
    pub format: PixelFormat,
    /// Minification filter.
    pub min_filter: TextureFilter,
    /// Magnification filter.
    pub mag_filter: TextureFilter,
    /// Wrapping along S.
    pub wrap_s: TextureWrap,
    /// Wrapping along T.
    pub wrap_t: TextureWrap,
}

impl Texture2DArray {
    /// The `name` field.
    pub closed spec fn name(&self) -> Option<String> {
        self.name
    }

    /// The `format` field.
    pub closed spec fn format(&self) -> PixelFormat {
        self.format
    }

    /// The `min_filter` field.
    pub closed spec fn min_filter(&self) -> TextureFilter {
        self.min_filter
    }

    /// The `mag_filter` field.
    pub closed spec fn mag_filter(&self) -> TextureFilter {
        self.mag_filter
    }

    /// The `wrap_s` field.
    pub closed spec fn wrap_s(&self) -> TextureWrap {
        self.wrap_s
    }

    /// The `wrap_t` field.
    pub closed spec fn wrap_t(&self) -> TextureWrap {
        self.wrap_t
    }

    /// The `width` field.
    pub closed spec fn width(&self) -> u32 {
        self.width
    }

    /// The `height` field.
    pub closed spec fn height(&self) -> u32 {
        self.height
    }

    /// The `depth` field.
    pub closed spec fn depth(&self) -> u32 {
        self.depth
    }

    /// Creates the texture record; the filters default to `Linear` (minification)
    /// and `Linear` (magnification), wrapping to `Repeat`.
    pub fn new(
        name: Option<String>,
        width: u32,
        height: u32,
        depth: u32,
        format: PixelFormat,
        min_filter: Option<TextureFilter>,
        mag_filter: Option<TextureFilter>,
        wrap_s: Option<TextureWrap>,
        wrap_t: Option<TextureWrap>,
    ) -> (r: Self)
        ensures
            r.name() == name,
            r.width() == width,
            r.height() == height,
            r.depth() == depth,
            r.format() == format,
            r.min_filter() == match min_filter { Some(v) => v, None => TextureFilter::Linear },
            r.mag_filter() == match mag_filter { Some(v) => v, None => TextureFilter::Linear },
            r.wrap_s() == match wrap_s { Some(v) => v, None => TextureWrap::Repeat },
            r.wrap_t() == match wrap_t { Some(v) => v, None => TextureWrap::Repeat },
    {
        Texture2DArray {
            name,
            width,
            height,
            depth,
            format,
            min_filter: match min_filter {
                Some(v) => v,
                None => TextureFilter::Linear,
            },
            mag_filter: match mag_filter {
                Some(v) => v,
                None => TextureFilter::Linear,
            },
            wrap_s: match wrap_s {
                Some(v) => v,
                None => TextureWrap::Repeat,
            },
            wrap_t: match wrap_t {
                Some(v) => v,
                None => TextureWrap::Repeat,
            },
        }
    }

    /// A one-line description: name, size and pixel format.
    pub fn get_info(&self) -> (r: String)
        ensures
            r@ == "2DTextureArray(name="@ + optional_name_text(self.name()) + ", "@
                + decimal(self.width() as nat) + "x"@ + decimal(self.height() as nat) + "x"@
                + decimal(self.depth() as nat) + ", format="@ + pixel_format_name(self.format())
                + ")"@,
    {
        let mut s = String::from_str("2DTextureArray(name=");
        push_optional_name(&mut s, &self.name);
        s.append(", ");
        push_decimal(&mut s, self.width as u64);
        s.append("x");
        push_decimal(&mut s, self.height as u64);
        s.append("x");
        push_decimal(&mut s, self.depth as u64);
        s.append(", format=");
        s.append(pixel_format_str(self.format));
        s.append(")");
        s
    }
}

/// A cube map texture: six square sides of one size.
#[derive(Debug, Clone)]
pub struct TextureCube {
    name: Option<String>,
    /// Side length in texels.
    pub size: u32,
    /// Pixel format.
    pub format: PixelFormat,
    /// Minification filter.
    pub min_filter: TextureFilter,
    /// Magnification filter.
    pub mag_filter: TextureFilter,
    /// Wrapping along S.
    pub wrap_s: TextureWrap,
    /// Wrapping along T.
    pub wrap_t: TextureWrap,
}

impl TextureCube {
    /// The `name` field.
    pub closed spec fn name(&self) -> Option<String> {
        self.name
    }

    /// The `format` field.
    pub closed spec fn format(&self) -> PixelFormat {
        self.format
    }

    /// The `min_filter` field.
    pub closed spec fn min_filter(&self) -> TextureFilter {
        self.min_filter
    }

    /// The `mag_filter` field.
    pub closed spec fn mag_filter(&self) -> TextureFilter {
        self.mag_filter
    }

    /// The `wrap_s` field.
    pub closed spec fn wrap_s(&self) -> TextureWrap {
        self.wrap_s
    }

    /// The `wrap_t` field.
    pub closed spec fn wrap_t(&self) -> TextureWrap {
        self.wrap_t
    }

    /// The `size` field.
    pub closed spec fn size(&self) -> u32 {
        self.size
    }

    /// Creates the texture record; the filters default to `LinearMipmapLinear` (minification)
    /// and `Linear` (magnification), wrapping to `ClampToEdge`.
    pub fn new(
        name: Option<String>,
        size: u32,
        format: PixelFormat,
        min_filter: Option<TextureFilter>,
        mag_filter: Option<TextureFilter>,
        wrap_s: Option<TextureWrap>,
        wrap_t: Option<TextureWrap>,
    ) -> (r: Self)
        ensures
            r.name() == name,
            r.size() == size,
            r.format() == format,
            r.min_filter() == match min_filter { Some(v) => v, None => TextureFilter::LinearMipmapLinear },
            r.mag_filter() == match mag_filter { Some(v) => v, None => TextureFilter::Linear },
            r.wrap_s() == match wrap_s { Some(v) => v, None => TextureWrap::ClampToEdge },
            r.wrap_t() == match wrap_t { Some(v) => v, None => TextureWrap::ClampToEdge },
    {
        TextureCube {
            name,
            size,
            format,
            min_filter: match min_filter {
                Some(v) => v,
                None => TextureFilter::LinearMipmapLinear,
            },
            mag_filter: match mag_filter {
                Some(v) => v,
                None => TextureFilter::Linear,
            },
            wrap_s: match wrap_s {
                Some(v) => v,
                None => TextureWrap::ClampToEdge,
            },
            wrap_t: match wrap_t {
                Some(v) => v,
                None => TextureWrap::ClampToEdge,
            },
        }
    }

    /// A one-line description: name, size and pixel format.
    pub fn get_info(&self) -> (r: String)
        ensures
            r@ == "Cubemap(name="@ + optional_name_text(self.name()) + ", "@
                + decimal(self.size() as nat) + "x"@ + decimal(self.size() as nat)
                + ", faces=6, format="@ + pixel_format_name(self.format()) + ")"@,
    {
        let mut s = String::from_str("Cubemap(name=");
        push_optional_name(&mut s, &self.name);
        s.append(", ");
        push_decimal(&mut s, self.size as u64);
        s.append("x");
        push_decimal(&mut s, self.size as u64);
        s.append(", faces=6, format=");
        s.append(pixel_format_str(self.format));
        s.append(")");
        s
    }

    /// Estimated memory use: six sides of `size * size` texels.
    pub fn estimate_size_bytes(&self) -> (r: u64)
        requires
            self.size() * self.size() * bytes_per_texel(self.format()) * 6 <= u64::MAX,
        ensures
            r == self.size() * self.size() * bytes_per_texel(self.format()) * 6,
    {
        let components: u64 = texel_bytes(self.format);
        proof {
            let n = self.size as int;
            let c = components as int;
            assert(c >= 1);
            assert(n * n <= n * n * c * 6) by (nonlinear_arith)
                requires
                    c >= 1,
                    n >= 0,
            ;
            assert(n * n * c <= n * n * c * 6) by (nonlinear_arith)
                requires
                    c >= 1,
                    n >= 0,
            ;
        }
        let texels: u64 = self.size as u64 * self.size as u64;
        texels * components * 6
    }
}

/// A volume texture.
#[derive(Debug, Clone)]
pub struct Texture3D {
    name: Option<String>,
    /// Width in texels.
    pub width: u32,
    /// Height in texels.
    pub height: u32,
    /// Depth in texels.
    pub depth: u32,
    /// Pixel format.
    pub format: PixelFormat,
    /// Minification filter.
    pub min_filter: TextureFilter,
    /// Magnification filter.
    pub mag_filter: TextureFilter,
    /// Wrapping along S.
    pub wrap_s: TextureWrap,
    /// Wrapping along T.
    pub wrap_t: TextureWrap,
    /// Wrapping along R.
    pub wrap_r: TextureWrap,
}

impl Texture3D {
    /// The `name` field.
    pub closed spec fn name(&self) -> Option<String> {
        self.name
    }

    /// The `format` field.
    pub closed spec fn format(&self) -> PixelFormat {
        self.format
    }

    /// The `min_filter` field.
    pub closed spec fn min_filter(&self) -> TextureFilter {
        self.min_filter
    }

    /// The `mag_filter` field.
    pub closed spec fn mag_filter(&self) -> TextureFilter {
        self.mag_filter
    }

    /// The `wrap_s` field.
    pub closed spec fn wrap_s(&self) -> TextureWrap {
        self.wrap_s
    }

    /// The `wrap_t` field.
    pub closed spec fn wrap_t(&self) -> TextureWrap {
        self.wrap_t
    }

    /// The `width` field.
    pub closed spec fn width(&self) -> u32 {
        self.width
    }

    /// The `height` field.
    pub closed spec fn height(&self) -> u32 {
        self.height
    }

    /// The `depth` field.
    pub closed spec fn depth(&self) -> u32 {
        self.depth
    }

    /// The `wrap_r` field.
    pub closed spec fn wrap_r(&self) -> TextureWrap {
        self.wrap_r
    }

    /// Creates the texture record; the filters default to `Linear` (minification)
    /// and `Linear` (magnification), wrapping to `ClampToEdge`.
    pub fn new(
        name: Option<String>,
        width: u32,
        height: u32,
        depth: u32,
        format: PixelFormat,
        min_filter: Option<TextureFilter>,
        mag_filter: Option<TextureFilter>,
        wrap_s: Option<TextureWrap>,
        wrap_t: Option<TextureWrap>,
        wrap_r: Option<TextureWrap>,
    ) -> (r: Self)
        ensures
            r.name() == name,
            r.width() == width,
            r.height() == height,
            r.depth() == depth,
            r.format() == format,
            r.min_filter() == match min_filter { Some(v) => v, None => TextureFilter::Linear },
            r.mag_filter() == match mag_filter { Some(v) => v, None => TextureFilter::Linear },
            r.wrap_s() == match wrap_s { Some(v) => v, None => TextureWrap::ClampToEdge },
            r.wrap_t() == match wrap_t { Some(v) => v, None => TextureWrap::ClampToEdge },
            r.wrap_r() == match wrap_r { Some(v) => v, None => TextureWrap::ClampToEdge },
    {
        Texture3D {
            name,
            width,
            height,
            depth,
            format,
            min_filter: match min_filter {
                Some(v) => v,
                None => TextureFilter::Linear,
            },
            mag_filter: match mag_filter {
                Some(v) => v,
                None => TextureFilter::Linear,
            },
            wrap_s: match wrap_s {
                Some(v) => v,
                None => TextureWrap::ClampToEdge,
            },
            wrap_t: match wrap_t {
                Some(v) => v,
                None => TextureWrap::ClampToEdge,
            },
            wrap_r: match wrap_r {
                Some(v) => v,
                None => TextureWrap::ClampToEdge,
            },
        }
    }

    /// A one-line description: name, size and pixel format.
    pub fn get_info(&self) -> (r: String)
        ensures
            r@ == "3DTexture(name="@ + optional_name_text(self.name()) + ", "@
                + decimal(self.width() as nat) + "x"@ + decimal(self.height() as nat) + "x"@
                + decimal(self.depth() as nat) + ", format="@ + pixel_format_name(self.format())
                + ")"@,
    {
        let mut s = String::from_str("3DTexture(name=");
        push_optional_name(&mut s, &self.name);
        s.append(", ");
        push_decimal(&mut s, self.width as u64);
        s.append("x");
        push_decimal(&mut s, self.height as u64);
        s.append("x");
        push_decimal(&mut s, self.depth as u64);
        s.append(", format=");
        s.append(pixel_format_str(self.format));
        s.append(")");
        s
    }
}

/// A cube map texture: six square sides of one size.
#[derive(Debug, Clone)]
pub struct TextureCubeMap {
    name: Option<String>,
    /// Side length in texels.
    pub size: u32,
    /// Pixel format.
    pub format: PixelFormat,
    /// Minification filter.
    pub min_filter: TextureFilter,
    /// Magnification filter.
    pub mag_filter: TextureFilter,
    /// Wrapping along S.
    pub wrap_s: TextureWrap,
    /// Wrapping along T.
    pub wrap_t: TextureWrap,
}

impl TextureCubeMap {
    /// The `name` field.
    pub closed spec fn name(&self) -> Option<String> {
        self.name
    }

    /// The `format` field.
    pub closed spec fn format(&self) -> PixelFormat {
        self.format
    }

    /// The `min_filter` field.
    pub closed spec fn min_filter(&self) -> TextureFilter {
        self.min_filter
    }

    /// The `mag_filter` field.
    pub closed spec fn mag_filter(&self) -> TextureFilter {
        self.mag_filter
    }

    /// The `wrap_s` field.
    pub closed spec fn wrap_s(&self) -> TextureWrap {
        self.wrap_s
    }

    /// The `wrap_t` field.
    pub closed spec fn wrap_t(&self) -> TextureWrap {
        self.wrap_t
    }

    /// The `size` field.
    pub closed spec fn size(&self) -> u32 {
        self.size
    }

    /// Creates the texture record; the filters default to `LinearMipmapLinear` (minification)
    /// and `Linear` (magnification), wrapping to `ClampToEdge`.
    pub fn new(
        name: Option<String>,
        size: u32,
        format: PixelFormat,
        min_filter: Option<TextureFilter>,
        mag_filter: Option<TextureFilter>,
        wrap_s: Option<TextureWrap>,
        wrap_t: Option<TextureWrap>,
    ) -> (r: Self)
        ensures
            r.name() == name,
            r.size() == size,
            r.format() == format,
            r.min_filter() == match min_filter { Some(v) => v, None => TextureFilter::LinearMipmapLinear },
            r.mag_filter() == match mag_filter { Some(v) => v, None => TextureFilter::Linear },
            r.wrap_s() == match wrap_s { Some(v) => v, None => TextureWrap::ClampToEdge },
            r.wrap_t() == match wrap_t { Some(v) => v, None => TextureWrap::ClampToEdge },
    {
        TextureCubeMap {
            name,
            size,
            format,
            min_filter: match min_filter {
                Some(v) => v,
                None => TextureFilter::LinearMipmapLinear,
            },
            mag_filter: match mag_filter {
                Some(v) => v,
                None => TextureFilter::Linear,
            },
            wrap_s: match wrap_s {
                Some(v) => v,
                None => TextureWrap::ClampToEdge,
            },
            wrap_t: match wrap_t {
                Some(v) => v,
                None => TextureWrap::ClampToEdge,
            },
        }
    }

    /// A one-line description: name, size and pixel format.
    pub fn get_info(&self) -> (r: String)
        ensures
            r@ == "TextureCubeMap(name="@ + optional_name_text(self.name()) + ", "@
                + decimal(self.size() as nat) + "x"@ + decimal(self.size() as nat)
                + ", faces=6, format="@ + pixel_format_name(self.format()) + ")"@,
    {
        let mut s = String::from_str("TextureCubeMap(name=");
        push_optional_name(&mut s, &self.name);
        s.append(", ");
        push_decimal(&mut s, self.size as u64);
        s.append("x");
        push_decimal(&mut s, self.size as u64);
        s.append(", faces=6, format=");
        s.append(pixel_format_str(self.format));
        s.append(")");
        s
    }

    /// Estimated memory use: six sides of `size * size` texels.
    pub fn estimate_size_bytes(&self) -> (r: u64)
        requires
            self.size() * self.size() * bytes_per_texel(self.format()) * 6 <= u64::MAX,
        ensures
            r == self.size() * self.size() * bytes_per_texel(self.format()) * 6,
    {
        let components: u64 = texel_bytes(self.format);
        proof {
            let n = self.size as int;
            let c = components as int;
            assert(c >= 1);
            assert(n * n <= n * n * c * 6) by (nonlinear_arith)
                requires
                    c >= 1,
                    n >= 0,
            ;
            assert(n * n * c <= n * n * c * 6) by (nonlinear_arith)
                requires
                    c >= 1,
                    n >= 0,
            ;
        }
        let texels: u64 = self.size as u64 * self.size as u64;
        texels * components * 6
    }
}

} // verus!
