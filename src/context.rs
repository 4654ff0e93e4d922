//! The GPU context description, its version, and the native handle records
//! that a backend reports back.
use vstd::prelude::*;
use vstd::string::StringExecFns;
use crate::text::{
    bool_text, decimal, optional_name_text, push_bool, push_decimal, push_optional_name,
    push_optional_signed, push_signed, signed_decimal,
};

verus! {

/// OpenGL/GPU context version information.
#[derive(Debug, Clone, Copy, PartialEq, Eq, Structural)]
pub struct Version {
    /// Major version (e.g., 3 for OpenGL 3.2).
    pub major: u8,
    /// Minor version (e.g., 2 for OpenGL 3.2).
    pub minor: u8,
    /// Patch version (rarely used, default 0).
    pub patch: u8,
    /// Whether this is a WebGL context.
    pub is_webgl: bool,
}

/// `OpenGL 3.2`, `OpenGL 4.1.3` (the patch only when it is not zero), or
/// `WebGL 2.0` (never a patch).
pub open spec fn version_text(v: Version) -> Seq<char> {
    if v.is_webgl {
        "WebGL "@ + decimal(v.major as nat) + "."@ + decimal(v.minor as nat)
    } else if v.patch > 0 {
        "OpenGL "@ + decimal(v.major as nat) + "."@ + decimal(v.minor as nat) + "."@
            + decimal(v.patch as nat)
    } else {
        "OpenGL "@ + decimal(v.major as nat) + "."@ + decimal(v.minor as nat)
    }
}

/// The shading-language version that goes with a context version: 3.0 to 3.2
/// pair with GLSL 1.30 to 1.50; from 3.3 on, and below 3.0, the numbers agree
/// (`GLSL 3.30`, `GLSL 4.60`).
pub open spec fn glsl_text(major: u8, minor: u8) -> Seq<char> {
    if major == 3 && minor <= 2 {
        "GLSL 1."@ + decimal((minor + 3) as nat) + "0"@
    } else {
        "GLSL "@ + decimal(major as nat) + "."@ + decimal(minor as nat) + "0"@
    }
}

impl Version {
    /// Creates a version; patch defaults to 0 and WebGL to false.
    pub fn new(major: u8, minor: u8, patch: Option<u8>, is_webgl: Option<bool>) -> (r: Self)
        ensures
            r.major == major,
            r.minor == minor,
            r.patch == match patch { Some(p) => p, None => 0u8 },
            r.is_webgl == match is_webgl { Some(w) => w, None => false },
    {
        Version {
            major,
            minor,
            patch: match patch {
                Some(p) => p,
                None => 0,
            },
            is_webgl: match is_webgl {
                Some(w) => w,
                None => false,
            },
        }
    }

    /// Human-readable form of this version.
    pub fn to_string(&self) -> (r: String)
        ensures
            r@ == version_text(*self),
    {
        if self.is_webgl {
            let mut s = String::from_str("WebGL ");
            push_decimal(&mut s, self.major as u64);
            s.append(".");
            push_decimal(&mut s, self.minor as u64);
            s
        } else {
            let mut s = String::from_str("OpenGL ");
            push_decimal(&mut s, self.major as u64);
            s.append(".");
            push_decimal(&mut s, self.minor as u64);
            if self.patch > 0 {
                s.append(".");
                push_decimal(&mut s, self.patch as u64);
            }
            s
        }
    }

    /// The GLSL version string for this context version.
    pub fn glsl_target(&self) -> (r: String)
        ensures
            r@ == glsl_text(self.major, self.minor),
    {
        if self.major == 3 && self.minor <= 2 {
            let mut s = String::from_str("GLSL 1.");
            push_decimal(&mut s, (self.minor + 3) as u64);
            s.append("0");
            s
        } else {
            let mut s = String::from_str("GLSL ");
            push_decimal(&mut s, self.major as u64);
            s.append(".");
            push_decimal(&mut s, self.minor as u64);
            s.append("0");
            s
        }
    }

    /// Whether this version is at least `major.minor`.
    pub fn supports(&self, major: u8, minor: u8) -> (r: bool)
        ensures
            r == (self.major > major || (self.major == major && self.minor >= minor)),
    {
        self.major > major || (self.major == major && self.minor >= minor)
    }
}

/// The GPU context description. No native context is created here; the
/// record says whether a context is usable and which version it offers.
#[derive(Debug, Clone, Copy)]
pub struct Context {
    is_valid: bool,
    version: Option<Version>,
}

impl Context {
    /// Whether the context is usable.
    pub closed spec fn valid(&self) -> bool {
        self.is_valid
    }

    /// The version the context offers, if known.
    pub closed spec fn version(&self) -> Option<Version> {
        self.version
    }

    /// A usable context offering OpenGL 3.2.
    pub fn new() -> (r: Self)
        ensures
            r.valid(),
            r.version() == Some(Version { major: 3, minor: 2, patch: 0, is_webgl: false }),
    {
        Context { is_valid: true, version: Some(Version::new(3, 2, None, None)) }
    }

    /// One line that says whether the context is usable.
    pub fn get_info(&self) -> (r: String)
        ensures
            r@ == if self.valid() {
                "three-d Context (Mocked for N-API bindings)"@
            } else {
                "three-d Context (Invalid)"@
            },
    {
        if self.is_valid {
            String::from_str("three-d Context (Mocked for N-API bindings)")
        } else {
            String::from_str("three-d Context (Invalid)")
        }
    }

    /// Whether the context is usable.
    pub fn is_valid(&self) -> (r: bool)
        ensures
            r == self.valid(),
    {
        self.is_valid
    }

    /// The version the context offers, if known.
    pub fn get_version(&self) -> (r: Option<Version>)
        ensures
            r == self.version(),
    {
        self.version
    }

    /// Creates a version record from its parts.
    pub fn create_version(major: u8, minor: u8, patch: u8, is_webgl: bool) -> (r: Version)
        ensures
            r == (Version { major, minor, patch, is_webgl }),
    {
        Version::new(major, minor, Some(patch), Some(is_webgl))
    }

    /// The GLSL version of this context: `GLSL major.minor0`, or `GLSL 1.20`
    /// when the version is unknown.
    pub fn get_glsl_version(&self) -> (r: String)
        ensures
            r@ == match self.version() {
                Some(v) => "GLSL "@ + decimal(v.major as nat) + "."@ + decimal(v.minor as nat) + "0"@,
                None => "GLSL 1.20"@,
            },
    {
        match self.version {
            Some(v) => {
                let mut s = String::from_str("GLSL ");
                push_decimal(&mut s, v.major as u64);
                s.append(".");
                push_decimal(&mut s, v.minor as u64);
                s.append("0");
                s
            },
            None => String::from_str("GLSL 1.20"),
        }
    }
}

/// Native GL buffer handle.
#[derive(Debug, Clone, Copy, PartialEq, Eq, Structural)]
pub struct NativeBuffer {
    /// Native GPU buffer ID.
    pub buffer_id: u32,
    /// Type of buffer (e.g., GL_ARRAY_BUFFER, GL_ELEMENT_ARRAY_BUFFER).
    pub buffer_type: u32,
    /// Size in bytes.
    pub size_bytes: u32,
    /// Whether the buffer is currently bound.
    pub is_bound: bool,
}

impl NativeBuffer {
    /// Creates a buffer record; unbound unless said otherwise.
    pub fn new(buffer_id: u32, buffer_type: u32, size_bytes: u32, is_bound: Option<bool>) -> (r: Self)
        ensures
            r == (NativeBuffer {
                buffer_id,
                buffer_type,
                size_bytes,
                is_bound: match is_bound { Some(b) => b, None => false },
            }),
    {
        NativeBuffer {
            buffer_id,
            buffer_type,
            size_bytes,
            is_bound: match is_bound {
                Some(b) => b,
                None => false,
            },
        }
    }

    /// `NativeBuffer(id=.., type=.., size=.. bytes)`.
    pub fn get_info(&self) -> (r: String)
        ensures
            r@ == "NativeBuffer(id="@ + decimal(self.buffer_id as nat) + ", type="@
                + decimal(self.buffer_type as nat) + ", size="@ + decimal(self.size_bytes as nat)
                + " bytes)"@,
    {
        let mut s = String::from_str("NativeBuffer(id=");
        push_decimal(&mut s, self.buffer_id as u64);
        s.append(", type=");
        push_decimal(&mut s, self.buffer_type as u64);
        s.append(", size=");
        push_decimal(&mut s, self.size_bytes as u64);
        s.append(" bytes)");
        s
    }
}

/// Native GPU fence sync object.
#[derive(Debug, Clone, Copy, PartialEq, Eq, Structural)]
pub struct NativeFence {
    /// Native fence ID.
    pub fence_id: i64,
    /// Whether the fence has been signaled.
    pub signaled: bool,
}

impl NativeFence {
    /// Creates a fence record; unsignaled unless said otherwise.
    pub fn new(fence_id: i64, signaled: Option<bool>) -> (r: Self)
        ensures
            r == (NativeFence { fence_id, signaled: match signaled { Some(b) => b, None => false } }),
    {
        NativeFence {
            fence_id,
            signaled: match signaled {
                Some(b) => b,
                None => false,
            },
        }
    }

    /// `NativeFence(id=.., signaled=..)`.
    pub fn get_info(&self) -> (r: String)
        ensures
            r@ == "NativeFence(id="@ + signed_decimal(self.fence_id as int) + ", signaled="@
                + bool_text(self.signaled) + ")"@,
    {
        let mut s = String::from_str("NativeFence(id=");
        push_signed(&mut s, self.fence_id);
        s.append(", signaled=");
        push_bool(&mut s, self.signaled);
        s.append(")");
        s
    }
}

/// Native framebuffer object (FBO).
#[derive(Debug, Clone, Copy, PartialEq, Eq, Structural)]
pub struct NativeFramebuffer {
    /// Native FBO ID.
    pub fbo_id: u32,
    /// Whether the framebuffer is currently bound to target.
    pub is_bound: bool,
    /// Width of the framebuffer attachment.
    pub width: u32,
    /// Height of the framebuffer attachment.
    pub height: u32,
}

impl NativeFramebuffer {
    /// Creates a framebuffer record; unbound and 0x0 unless said otherwise.
    pub fn new(
        fbo_id: u32,
        is_bound: Option<bool>,
        width: Option<u32>,
        height: Option<u32>,
    ) -> (r: Self)
        ensures
            r.fbo_id == fbo_id,
            r.is_bound == match is_bound { Some(v) => v, None => false },
            r.width == match width { Some(v) => v, None => 0u32 },
            r.height == match height { Some(v) => v, None => 0u32 },
    {
        NativeFramebuffer {
            fbo_id,
            is_bound: match is_bound {
                Some(v) => v,
                None => false,
            },
            width: match width {
                Some(v) => v,
                None => 0,
            },
            height: match height {
                Some(v) => v,
                None => 0,
            },
        }
    }

    /// A one-line description of this record.
    pub fn get_info(&self) -> (r: String)
        ensures
            r@ == "NativeFramebuffer(id="@ + decimal(self.fbo_id as nat) + ", bound="@
                + bool_text(self.is_bound) + ", "@ + decimal(self.width as nat) + "x"@
                + decimal(self.height as nat) + ")"@,
    {
        let mut s = String::from_str("NativeFramebuffer(id=");
        push_decimal(&mut s, self.fbo_id as u64);
        s.append(", bound=");
        push_bool(&mut s, self.is_bound);
        s.append(", ");
        push_decimal(&mut s, self.width as u64);
        s.append("x");
        push_decimal(&mut s, self.height as u64);
        s.append(")");
        s
    }
}

/// Native program handle.
#[derive(Debug, Clone, Copy, PartialEq, Eq, Structural)]
pub struct NativeProgram {
    /// Native program ID.
    pub program_id: u32,
    /// Whether the program is valid and linked.
    pub is_valid: bool,
    /// Number of attributes in the program.
    pub attribute_count: u32,
}

impl NativeProgram {
    /// Creates a program record; invalid with no attributes unless said otherwise.
    pub fn new(program_id: u32, is_valid: Option<bool>, attribute_count: Option<u32>) -> (r: Self)
        ensures
            r.program_id == program_id,
            r.is_valid == match is_valid { Some(v) => v, None => false },
            r.attribute_count == match attribute_count { Some(v) => v, None => 0u32 },
    {
        NativeProgram {
            program_id,
            is_valid: match is_valid {
                Some(v) => v,
                None => false,
            },
            attribute_count: match attribute_count {
                Some(v) => v,
                None => 0,
            },
        }
    }

    /// A one-line description of this record.
    pub fn get_info(&self) -> (r: String)
        ensures
            r@ == "NativeProgram(id="@ + decimal(self.program_id as nat) + ", valid="@
                + bool_text(self.is_valid) + ", attrs="@ + decimal(self.attribute_count as nat)
                + ")"@,
    {
        let mut s = String::from_str("NativeProgram(id=");
        push_decimal(&mut s, self.program_id as u64);
        s.append(", valid=");
        push_bool(&mut s, self.is_valid);
        s.append(", attrs=");
        push_decimal(&mut s, self.attribute_count as u64);
        s.append(")");
        s
    }
}

/// Native GPU query (occlusion/timestamp).
#[derive(Debug, Clone, Copy, PartialEq, Eq, Structural)]
pub struct NativeQuery {
    /// Native query ID.
    pub query_id: u32,
    /// Type of query (GL_ANY_SAMPLES_PASSED, GL_TIME_ELAPSED, etc.).
    pub query_type: u32,
    /// Result value, set once the query has completed.
    pub result: Option<i64>,
}

impl NativeQuery {
    /// Creates a query record.
    pub fn new(query_id: u32, query_type: u32, result: Option<i64>) -> (r: Self)
        ensures
            r.query_id == query_id,
            r.query_type == query_type,
            r.result == result,
    {
        NativeQuery {
            query_id,
            query_type,
            result,
        }
    }

    /// A one-line description of this record.
    pub fn get_info(&self) -> (r: String)
        ensures
            r@ == "NativeQuery(id="@ + decimal(self.query_id as nat) + ", type="@
                + decimal(self.query_type as nat) + ", result="@
                + match self.result { Some(v) => "Some("@ + signed_decimal(v as int) + ")"@, None => "None"@ }
                + ")"@,
    {
        let mut s = String::from_str("NativeQuery(id=");
        push_decimal(&mut s, self.query_id as u64);
        s.append(", type=");
        push_decimal(&mut s, self.query_type as u64);
        s.append(", result=");
        push_optional_signed(&mut s, self.result);
        s.append(")");
        s
    }
}

/// Native renderbuffer object (RBO).
#[derive(Debug, Clone, Copy, PartialEq, Eq, Structural)]
pub struct NativeRenderbuffer {
    /// Native RBO ID.
    pub rbo_id: u32,
    /// Width in pixels.
    pub width: u32,
    /// Height in pixels.
    pub height: u32,
    /// Internal format (e.g., GL_DEPTH_COMPONENT24).
    pub internal_format: u32,
}

impl NativeRenderbuffer {
    /// Creates a renderbuffer record.
    pub fn new(rbo_id: u32, width: u32, height: u32, internal_format: u32) -> (r: Self)
        ensures
            r.rbo_id == rbo_id,
            r.width == width,
            r.height == height,
            r.internal_format == internal_format,
    {
        NativeRenderbuffer {
            rbo_id,
            width,
            height,
            internal_format,
        }
    }

    /// A one-line description of this record.
    pub fn get_info(&self) -> (r: String)
        ensures
            r@ == "NativeRenderbuffer(id="@ + decimal(self.rbo_id as nat) + ", "@
                + decimal(self.width as nat) + "x"@ + decimal(self.height as nat) + ", format="@
                + decimal(self.internal_format as nat) + ")"@,
    {
        let mut s = String::from_str("NativeRenderbuffer(id=");
        push_decimal(&mut s, self.rbo_id as u64);
        s.append(", ");
        push_decimal(&mut s, self.width as u64);
        s.append("x");
        push_decimal(&mut s, self.height as u64);
        s.append(", format=");
        push_decimal(&mut s, self.internal_format as u64);
        s.append(")");
        s
    }
}

/// Native sampler that holds texture filtering and wrapping settings.
#[derive(Debug, Clone, Copy, PartialEq, Eq, Structural)]
pub struct NativeSampler {
    /// Native sampler ID.
    pub sampler_id: u32,
    /// Wrapping mode for the S coordinate (GL_REPEAT, GL_CLAMP_TO_EDGE).
    pub wrapping_s: u32,
    /// Wrapping mode for the T coordinate.
    pub wrapping_t: u32,
    /// Minification filter (GL_LINEAR, GL_NEAREST, etc.).
    pub min_filter: u32,
    /// Magnification filter.
    pub mag_filter: u32,
}

impl NativeSampler {
    /// Creates a sampler record.
    pub fn new(
        sampler_id: u32,
        wrapping_s: u32,
        wrapping_t: u32,
        min_filter: u32,
        mag_filter: u32,
    ) -> (r: Self)
        ensures
            r.sampler_id == sampler_id,
            r.wrapping_s == wrapping_s,
            r.wrapping_t == wrapping_t,
            r.min_filter == min_filter,
            r.mag_filter == mag_filter,
    {
        NativeSampler {
            sampler_id,
            wrapping_s,
            wrapping_t,
            min_filter,
            mag_filter,
        }
    }

    /// A one-line description of this record.
    pub fn get_info(&self) -> (r: String)
        ensures
            r@ == "NativeSampler(id="@ + decimal(self.sampler_id as nat) + ", wrap(S,T)=("@
                + decimal(self.wrapping_s as nat) + ","@ + decimal(self.wrapping_t as nat)
                + ", filt=("@ + decimal(self.min_filter as nat) + ","@
                + decimal(self.mag_filter as nat) + ")"@,
    {
        let mut s = String::from_str("NativeSampler(id=");
        push_decimal(&mut s, self.sampler_id as u64);
        s.append(", wrap(S,T)=(");
        push_decimal(&mut s, self.wrapping_s as u64);
        s.append(",");
        push_decimal(&mut s, self.wrapping_t as u64);
        s.append(", filt=(");
        push_decimal(&mut s, self.min_filter as u64);
        s.append(",");
        push_decimal(&mut s, self.mag_filter as u64);
        s.append(")");
        s
    }
}

/// Native shader object.
#[derive(Debug, Clone, Copy, PartialEq, Eq, Structural)]
pub struct NativeShader {
    /// Native shader ID.
    pub shader_id: u32,
    /// Type of shader (GL_VERTEX_SHADER, GL_FRAGMENT_SHADER, etc.).
    pub shader_type: u32,
    /// Source code length in bytes.
    pub source_len: u32,
}

impl NativeShader {
    /// Creates a shader record; the source length defaults to 0.
    pub fn new(shader_id: u32, shader_type: u32, source_len: Option<u32>) -> (r: Self)
        ensures
            r.shader_id == shader_id,
            r.shader_type == shader_type,
            r.source_len == match source_len { Some(v) => v, None => 0u32 },
    {
        NativeShader {
            shader_id,
            shader_type,
            source_len: match source_len {
                Some(v) => v,
                None => 0,
            },
        }
    }

    /// A one-line description of this record.
    pub fn get_info(&self) -> (r: String)
        ensures
            r@ == "NativeShader(id="@ + decimal(self.shader_id as nat) + ", type="@
                + decimal(self.shader_type as nat) + ", src_len="@
                + decimal(self.source_len as nat) + ")"@,
    {
        let mut s = String::from_str("NativeShader(id=");
        push_decimal(&mut s, self.shader_id as u64);
        s.append(", type=");
        push_decimal(&mut s, self.shader_type as u64);
        s.append(", src_len=");
        push_decimal(&mut s, self.source_len as u64);
        s.append(")");
        s
    }
}

/// Native texture handle.
#[derive(Debug, Clone, Copy, PartialEq, Eq, Structural)]
pub struct NativeTexture {
    /// Native texture ID.
    pub texture_id: u32,
    /// Type of texture (GL_TEXTURE_2D, GL_TEXTURE_CUBE_MAP, etc.).
    pub texture_type: u32,
    /// Width in texels.
    pub width: u32,
    /// Height in texels.
    pub height: u32,
    /// Internal format (e.g., GL_RGBA8, GL_DEPTH_COMPONENT32F).
    pub internal_format: u32,
}

impl NativeTexture {
    /// Creates a texture record.
    pub fn new(
        texture_id: u32,
        texture_type: u32,
        width: u32,
        height: u32,
        internal_format: u32,
    ) -> (r: Self)
        ensures
            r.texture_id == texture_id,
            r.texture_type == texture_type,
            r.width == width,
            r.height == height,
            r.internal_format == internal_format,
    {
        NativeTexture {
            texture_id,
            texture_type,
            width,
            height,
            internal_format,
        }
    }

    /// A one-line description of this record.
    pub fn get_info(&self) -> (r: String)
        ensures
            r@ == "NativeTexture(id="@ + decimal(self.texture_id as nat) + ", type="@
                + decimal(self.texture_type as nat) + ", "@ + decimal(self.width as nat) + "x"@
                + decimal(self.height as nat) + ", format="@
                + decimal(self.internal_format as nat) + ")"@,
    {
        let mut s = String::from_str("NativeTexture(id=");
        push_decimal(&mut s, self.texture_id as u64);
        s.append(", type=");
        push_decimal(&mut s, self.texture_type as u64);
        s.append(", ");
        push_decimal(&mut s, self.width as u64);
        s.append("x");
        push_decimal(&mut s, self.height as u64);
        s.append(", format=");
        push_decimal(&mut s, self.internal_format as u64);
        s.append(")");
        s
    }
}

/// Native transform feedback object.
#[derive(Debug, Clone, Copy, PartialEq, Eq, Structural)]
pub struct NativeTransformFeedback {
    /// Native transform feedback ID.
    pub tf_id: u32,
    /// Whether it is currently bound.
    pub is_bound: bool,
}

impl NativeTransformFeedback {
    /// Creates a transform feedback record; unbound unless said otherwise.
    pub fn new(tf_id: u32, is_bound: Option<bool>) -> (r: Self)
        ensures
            r.tf_id == tf_id,
            r.is_bound == match is_bound { Some(v) => v, None => false },
    {
        NativeTransformFeedback {
            tf_id,
            is_bound: match is_bound {
                Some(v) => v,
                None => false,
            },
        }
    }

    /// A one-line description of this record.
    pub fn get_info(&self) -> (r: String)
        ensures
            r@ == "NativeTransformFeedback(id="@ + decimal(self.tf_id as nat) + ", bound="@
                + bool_text(self.is_bound) + ")"@,
    {
        let mut s = String::from_str("NativeTransformFeedback(id=");
        push_decimal(&mut s, self.tf_id as u64);
        s.append(", bound=");
        push_bool(&mut s, self.is_bound);
        s.append(")");
        s
    }
}

/// Location of a uniform within a program.
#[derive(Debug, Clone)]
pub struct NativeUniformLocation {
    /// Location ID within the program; -1 when the uniform is absent.
    pub location: i32,
    /// Associated program ID.
    pub program_id: u32,
    /// Name of the uniform, for debugging.
    pub name: Option<String>,
}

impl NativeUniformLocation {
    /// Whether the uniform was found: its location is not -1.
    pub fn is_valid(&self) -> (r: bool)
        ensures
            r == (self.location != -1),
    {
        self.location != -1
    }

    /// Creates a uniform location record.
    pub fn new(location: i32, program_id: u32, name: Option<String>) -> (r: Self)
        ensures
            r.location == location,
            r.program_id == program_id,
            r.name == name,
    {
        NativeUniformLocation {
            location,
            program_id,
            name,
        }
    }

    /// A one-line description of this record.
    pub fn get_info(&self) -> (r: String)
        ensures
            r@ == "NativeUniformLocation(prog="@ + decimal(self.program_id as nat) + ", loc="@
                + signed_decimal(self.location as int) + ", name="@
                + optional_name_text(self.name) + ")"@,
    {
        let mut s = String::from_str("NativeUniformLocation(prog=");
        push_decimal(&mut s, self.program_id as u64);
        s.append(", loc=");
        push_signed(&mut s, self.location as i64);
        s.append(", name=");
        push_optional_name(&mut s, &self.name);
        s.append(")");
        s
    }
}

/// Native vertex array object (VAO).
#[derive(Debug, Clone, Copy, PartialEq, Eq, Structural)]
pub struct NativeVertexArray {
    /// Native VAO ID.
    pub vao_id: u32,
    /// Whether it is currently bound.
    pub is_bound: bool,
    /// Number of vertex attributes.
    pub attribute_count: u32,
}

impl NativeVertexArray {
    /// Creates a vertex array record; unbound with no attributes unless said otherwise.
    pub fn new(vao_id: u32, is_bound: Option<bool>, attribute_count: Option<u32>) -> (r: Self)
        ensures
            r.vao_id == vao_id,
            r.is_bound == match is_bound { Some(v) => v, None => false },
            r.attribute_count == match attribute_count { Some(v) => v, None => 0u32 },
    {
        NativeVertexArray {
            vao_id,
            is_bound: match is_bound {
                Some(v) => v,
                None => false,
            },
            attribute_count: match attribute_count {
                Some(v) => v,
                None => 0,
            },
        }
    }

    /// A one-line description of this record.
    pub fn get_info(&self) -> (r: String)
        ensures
            r@ == "NativeVertexArray(id="@ + decimal(self.vao_id as nat) + ", bound="@
                + bool_text(self.is_bound) + ", attrs="@ + decimal(self.attribute_count as nat)
                + ")"@,
    {
        let mut s = String::from_str("NativeVertexArray(id=");
        push_decimal(&mut s, self.vao_id as u64);
        s.append(", bound=");
        push_bool(&mut s, self.is_bound);
        s.append(", attrs=");
        push_decimal(&mut s, self.attribute_count as u64);
        s.append(")");
        s
    }
}

/// An active attribute of a shader program.
#[derive(Debug, Clone)]
pub struct ActiveAttribute {
    /// Name of the attribute.
    pub name: String,
    /// Type of the attribute (e.g., GL_FLOAT, GL_FLOAT_VEC3).
    pub attribute_type: u32,
    /// Size of the attribute (e.g., 1 for float, 3 for vec3).
    pub size: i32,
}

impl ActiveAttribute {
    /// Creates an active attribute record.
    pub fn new(name: String, attribute_type: u32, size: i32) -> (r: Self)
        ensures
            r.name == name,
            r.attribute_type == attribute_type,
            r.size == size,
    {
        ActiveAttribute {
            name,
            attribute_type,
            size,
        }
    }

    /// A one-line description of this record.
    pub fn get_info(&self) -> (r: String)
        ensures
            r@ == "ActiveAttribute(name="@ + self.name@ + ", type="@
                + decimal(self.attribute_type as nat) + ", size="@
                + signed_decimal(self.size as int) + ")"@,
    {
        let mut s = String::from_str("ActiveAttribute(name=");
        s.append(self.name.as_str());
        s.append(", type=");
        push_decimal(&mut s, self.attribute_type as u64);
        s.append(", size=");
        push_signed(&mut s, self.size as i64);
        s.append(")");
        s
    }
}

/// An active uniform of a shader program.
#[derive(Debug, Clone)]
pub struct ActiveUniform {
    /// Name of the uniform.
    pub name: String,
    /// Type of the uniform (e.g., GL_FLOAT, GL_FLOAT_MAT4).
    pub uniform_type: u32,
    /// Size of the uniform (array size, 1 for scalars).
    pub size: i32,
}

impl ActiveUniform {
    /// Creates an active uniform record.
    pub fn new(name: String, uniform_type: u32, size: i32) -> (r: Self)
        ensures
            r.name == name,
            r.uniform_type == uniform_type,
            r.size == size,
    {
        ActiveUniform {
            name,
            uniform_type,
            size,
        }
    }

    /// A one-line description of this record.
    pub fn get_info(&self) -> (r: String)
        ensures
            r@ == "ActiveUniform(name="@ + self.name@ + ", type="@
                + decimal(self.uniform_type as nat) + ", size="@
                + signed_decimal(self.size as int) + ")"@,
    {
        let mut s = String::from_str("ActiveUniform(name=");
        s.append(self.name.as_str());
        s.append(", type=");
        push_decimal(&mut s, self.uniform_type as u64);
        s.append(", size=");
        push_signed(&mut s, self.size as i64);
        s.append(")");
        s
    }
}

/// An active transform feedback varying.
#[derive(Debug, Clone)]
pub struct ActiveTransformFeedback {
    /// Name of the varying.
    pub name: String,
    /// Buffer binding point index.
    pub buffer_binding: u32,
    /// Number of components.
    pub size: i32,
}

impl ActiveTransformFeedback {
    /// Creates an active transform feedback record.
    pub fn new(name: String, buffer_binding: u32, size: i32) -> (r: Self)
        ensures
            r.name == name,
            r.buffer_binding == buffer_binding,
            r.size == size,
    {
        ActiveTransformFeedback {
            name,
            buffer_binding,
            size,
        }
    }

    /// A one-line description of this record.
    pub fn get_info(&self) -> (r: String)
        ensures
            r@ == "ActiveTransformFeedback(name="@ + self.name@ + ", binding="@
                + decimal(self.buffer_binding as nat) + ", size="@
                + signed_decimal(self.size as int) + ")"@,
    {
        let mut s = String::from_str("ActiveTransformFeedback(name=");
        s.append(self.name.as_str());
        s.append(", binding=");
        push_decimal(&mut s, self.buffer_binding as u64);
        s.append(", size=");
        push_signed(&mut s, self.size as i64);
        s.append(")");
        s
    }
}

/// An entry of the graphics API debug output.
#[derive(Debug, Clone)]
pub struct DebugMessageLogEntry {
    /// Source of the message (API, shader compiler, third party, ...).
    pub source: u32,
    /// Type of message (error, deprecated, undefined, performance, other).
    pub message_type: u32,
    /// Identifier of the message.
    pub message_id: u32,
    /// Severity of the message.
    pub severity: u32,
    /// The message text.
    pub message: String,
}

impl DebugMessageLogEntry {
    /// Creates a debug log entry.
    pub fn new(
        source: u32,
        message_type: u32,
        message_id: u32,
        severity: u32,
        message: String,
    ) -> (r: Self)
        ensures
            r.source == source,
            r.message_type == message_type,
            r.message_id == message_id,
            r.severity == severity,
            r.message == message,
    {
        DebugMessageLogEntry {
            source,
            message_type,
            message_id,
            severity,
            message,
        }
    }

    /// A one-line description of this record.
    pub fn get_info(&self) -> (r: String)
        ensures
            r@ == "DebugMsg(src="@ + decimal(self.source as nat) + ", type="@
                + decimal(self.message_type as nat) + ", id="@ + decimal(self.message_id as nat)
                + ", sev="@ + decimal(self.severity as nat) + ": "@ + self.message@ + ")"@,
    {
        let mut s = String::from_str("DebugMsg(src=");
        push_decimal(&mut s, self.source as u64);
        s.append(", type=");
        push_decimal(&mut s, self.message_type as u64);
        s.append(", id=");
        push_decimal(&mut s, self.message_id as u64);
        s.append(", sev=");
        push_decimal(&mut s, self.severity as u64);
        s.append(": ");
        s.append(self.message.as_str());
        s.append(")");
        s
    }
}

/// A linked program in binary form.
#[derive(Debug, Clone)]
pub struct ProgramBinary {
    /// Binary data of the program.
    pub binary: Vec<u8>,
    /// Format of the binary.
    pub format: u32,
}

impl ProgramBinary {
    /// The length of the binary in bytes.
    pub fn length(&self) -> (r: usize)
        ensures
            r == self.binary@.len(),
    {
        self.binary.len()
    }

    /// Creates a program binary record.
    pub fn new(binary: Vec<u8>, format: u32) -> (r: Self)
        ensures
            r.binary == binary,
            r.format == format,
    {
        ProgramBinary {
            binary,
            format,
        }
    }

    /// A one-line description of this record.
    pub fn get_info(&self) -> (r: String)
        ensures
            r@ == "ProgramBinary(format="@ + decimal(self.format as nat) + ", bytes="@
                + decimal(self.binary@.len()) + ")"@,
    {
        let mut s = String::from_str("ProgramBinary(format=");
        push_decimal(&mut s, self.format as u64);
        s.append(", bytes=");
        push_decimal(&mut s, self.binary.len() as u64);
        s.append(")");
        s
    }
}


} // verus!
