//! Object handles. They carry no state yet; the backend owns the geometry and materials.
use vstd::prelude::*;

verus! {

/// The `Model` handle.
#[derive(Debug, Clone, Copy, PartialEq, Eq, Structural)]
pub struct Model {}

/// The `InstancedModel` handle.
#[derive(Debug, Clone, Copy, PartialEq, Eq, Structural)]
pub struct InstancedModel {}

/// The `Skybox` handle.
#[derive(Debug, Clone, Copy, PartialEq, Eq, Structural)]
pub struct Skybox {}

/// The `Axes` handle.
#[derive(Debug, Clone, Copy, PartialEq, Eq, Structural)]
pub struct Axes {}

/// The `Terrain` handle.
#[derive(Debug, Clone, Copy, PartialEq, Eq, Structural)]
pub struct Terrain {}

/// The `Water` handle.
#[derive(Debug, Clone, Copy, PartialEq, Eq, Structural)]
pub struct Water {}

/// The `Gm` handle.
#[derive(Debug, Clone, Copy, PartialEq, Eq, Structural)]
pub struct Gm {}

/// The `CpuModel` handle.
#[derive(Debug, Clone, Copy, PartialEq, Eq, Structural)]
pub struct CpuModel {}

/// The `VoxelGrid` handle.
#[derive(Debug, Clone, Copy, PartialEq, Eq, Structural)]
pub struct VoxelGrid {}

/// The `CpuVoxelGrid` handle.
#[derive(Debug, Clone, Copy, PartialEq, Eq, Structural)]
pub struct CpuVoxelGrid {}

} // verus!
