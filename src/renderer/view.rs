//! Camera and renderer handles of the object-level API. They carry no state
//! yet; the backend owns the view and the frame.
use vstd::prelude::*;

verus! {

/// The camera handle.
#[derive(Debug, Clone, Copy, PartialEq, Eq, Structural)]
pub struct Camera {}

impl Camera {
    /// Creates the camera handle.
    pub fn new() -> (r: Self)
        ensures
            r == (Camera {}),
    {
        Camera {}
    }
}

impl Default for Camera {
    fn default() -> (r: Self)
        ensures
            r == (Camera {}),
    {
        Self::new()
    }
}

/// The renderer handle.
#[derive(Debug, Clone, Copy, PartialEq, Eq, Structural)]
pub struct Renderer {}

impl Renderer {
    /// Creates the renderer handle.
    pub fn new() -> (r: Self)
        ensures
            r == (Renderer {}),
    {
        Renderer {}
    }
}

impl Default for Renderer {
    fn default() -> (r: Self)
        ensures
            r == (Renderer {}),
    {
        Self::new()
    }
}

} // verus!
