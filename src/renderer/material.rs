//! Material handles. They carry no state yet; the backend owns the shaders.
use vstd::prelude::*;

verus! {

/// The `ColorMaterial` handle.
#[derive(Debug, Clone, Copy, PartialEq, Eq, Structural)]
pub struct ColorMaterial {}

/// The `PhysicalMaterial` handle.
#[derive(Debug, Clone, Copy, PartialEq, Eq, Structural)]
pub struct PhysicalMaterial {}

/// The `DeferredPhysicalMaterial` handle.
#[derive(Debug, Clone, Copy, PartialEq, Eq, Structural)]
pub struct DeferredPhysicalMaterial {}

/// The `DepthMaterial` handle.
#[derive(Debug, Clone, Copy, PartialEq, Eq, Structural)]
pub struct DepthMaterial {}

/// The `NormalMaterial` handle.
#[derive(Debug, Clone, Copy, PartialEq, Eq, Structural)]
pub struct NormalMaterial {}

/// The `ORMMaterial` handle.
#[derive(Debug, Clone, Copy, PartialEq, Eq, Structural)]
pub struct ORMMaterial {}

/// The `PositionMaterial` handle.
#[derive(Debug, Clone, Copy, PartialEq, Eq, Structural)]
pub struct PositionMaterial {}

/// The `UVMaterial` handle.
#[derive(Debug, Clone, Copy, PartialEq, Eq, Structural)]
pub struct UVMaterial {}

} // verus!
