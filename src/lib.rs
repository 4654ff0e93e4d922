//! Value types and pipeline-state snapshots for a native 3D rendering engine.
//!
//! * `enums`: the enumeration catalog, with the native constant of each
//!   protocol-level variant.
//! * `types`: the render-state descriptor, a snapshot of the whole
//!   fixed-function pipeline state.
//! * `prelude`: matrices as flat column-major component sequences.
//! * `context`, `gpu`, `scene`, `renderer`: records of contexts, native
//!   handles, buffers, textures, render targets and scenes.
//! * `text`: the building blocks of the descriptive strings.
use vstd::prelude::*;
use vstd::string::StringExecFns;

pub mod context;
pub mod enums;
pub mod gpu;
pub mod prelude;
pub mod renderer;
pub mod scene;
pub mod text;
pub mod types;

pub use context::{
    ActiveAttribute, ActiveTransformFeedback, ActiveUniform, Context, DebugMessageLogEntry,
    NativeBuffer, NativeFence, NativeFramebuffer, NativeProgram, NativeQuery, NativeRenderbuffer,
    NativeSampler, NativeShader, NativeTexture, NativeTransformFeedback, NativeUniformLocation,
    NativeVertexArray, ProgramBinary, Version,
};
pub use gpu::buffer::{ElementBuffer, InstanceBuffer, UniformBuffer, VertexBuffer};
pub use gpu::render_states::{RenderStates, WriteMask};
pub use gpu::render_target::{
    ClearState, ColorTarget, ColorTargetMultisample, DepthTarget, DepthTargetMultisample,
    RenderTarget, RenderTargetMultisample,
};
pub use gpu::{Context as CoreContext, Program, ScissorBox, Viewport};
pub use prelude::{Matrix2, Matrix3, Matrix4, MatrixError};
pub use renderer::Renderer;
pub use scene::{
    LightSource, LightType, PixelFormat, Scene, SceneObject, Texture2D, Texture2DArray, Texture3D,
    TextureCube, TextureCubeMap, TextureFilter, TextureWrap,
};
pub use types::{AttributeBuffer, ClearMask, RenderStateDescriptor};

verus! {

/// A greeting that shows the library is loaded.
pub fn hello_three_d() -> (r: String)
    ensures
        r@ == "three-d N-API bindings loaded successfully!"@,
{
    String::from_str("three-d N-API bindings loaded successfully!")
}

/// The engine and library versions.
pub fn get_version() -> (r: String)
    ensures
        r@ == "three-d: 0.18.2, N-API Bindings: 0.1.0"@,
{
    String::from_str("three-d: 0.18.2, N-API Bindings: 0.1.0")
}

} // verus!
