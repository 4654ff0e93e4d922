//! Geometry handles. They carry no state yet; the backend owns the vertex data.
use vstd::prelude::*;

verus! {

/// The `Mesh` handle.
#[derive(Debug, Clone, Copy, PartialEq, Eq, Structural)]
pub struct Mesh {}

/// The `InstancedMesh` handle.
#[derive(Debug, Clone, Copy, PartialEq, Eq, Structural)]
pub struct InstancedMesh {}

/// The `Particles` handle.
#[derive(Debug, Clone, Copy, PartialEq, Eq, Structural)]
pub struct Particles {}

/// The `BoundingBox` handle.
#[derive(Debug, Clone, Copy, PartialEq, Eq, Structural)]
pub struct BoundingBox {}

/// The `Circle` handle.
#[derive(Debug, Clone, Copy, PartialEq, Eq, Structural)]
pub struct Circle {}

/// The `Line` handle.
#[derive(Debug, Clone, Copy, PartialEq, Eq, Structural)]
pub struct Line {}

/// The `Rectangle` handle.
#[derive(Debug, Clone, Copy, PartialEq, Eq, Structural)]
pub struct Rectangle {}

/// The `PointCloud` handle.
#[derive(Debug, Clone, Copy, PartialEq, Eq, Structural)]
pub struct PointCloud {}

/// The `CpuMesh` handle.
#[derive(Debug, Clone, Copy, PartialEq, Eq, Structural)]
pub struct CpuMesh {}

} // verus!
