//! Core rendering records: the viewport and scissor rectangles, the context
//! size, and shader programs.
use vstd::prelude::*;
use vstd::string::StringExecFns;
use std::sync::Arc;
use crate::text::{decimal, push_decimal};

pub mod buffer;
pub mod render_states;
pub mod render_target;
pub mod texture;

verus! {

/// Whether `(px, py)` lies in the half-open rectangle at `(x, y)` of the given
/// size.
pub open spec fn in_rect(x: u32, y: u32, width: u32, height: u32, px: u32, py: u32) -> bool {
    &&& x <= px
    &&& px < x + width
    &&& y <= py
    &&& py < y + height
}

/// `(px, py)` lies in the half-open rectangle at `(x, y)` of the given size.
fn rect_contains(x: u32, y: u32, width: u32, height: u32, px: u32, py: u32) -> (r: bool)
    ensures
        r == in_rect(x, y, width, height, px, py),
{
    px >= x && (px as u64) < x as u64 + width as u64 && py >= y && (py as u64) < y as u64
        + height as u64
}

/// The rectangle of the render target that rendering covers.
#[derive(Debug, Clone, Copy, PartialEq, Eq, Structural)]
pub struct Viewport {
    pub x: u32,
    pub y: u32,
    pub width: u32,
    pub height: u32,
}

impl Viewport {
    /// Creates a viewport.
    pub fn new(x: u32, y: u32, width: u32, height: u32) -> (r: Self)
        ensures
            r == (Viewport { x, y, width, height }),
    {
        Viewport { x, y, width, height }
    }

    /// Creates a viewport with its corner at the origin.
    pub fn at_origin(width: u32, height: u32) -> (r: Self)
        ensures
            r == (Viewport { x: 0, y: 0, width, height }),
    {
        Viewport { x: 0, y: 0, width, height }
    }

    /// Whether the point lies within the viewport: left and bottom edges
    /// included, right and top edges excluded.
    pub fn contains(&self, px: u32, py: u32) -> (r: bool)
        ensures
            r == in_rect(self.x, self.y, self.width, self.height, px, py),
    {
        rect_contains(self.x, self.y, self.width, self.height, px, py)
    }

    /// `Viewport(x,y,width,height)`.
    pub fn get_info(&self) -> (r: String)
        ensures
            r@ == "Viewport("@ + decimal(self.x as nat) + ","@ + decimal(self.y as nat) + ","@
                + decimal(self.width as nat) + ","@ + decimal(self.height as nat) + ")"@,
    {
        let mut s = String::from_str("Viewport(");
        push_decimal(&mut s, self.x as u64);
        s.append(",");
        push_decimal(&mut s, self.y as u64);
        s.append(",");
        push_decimal(&mut s, self.width as u64);
        s.append(",");
        push_decimal(&mut s, self.height as u64);
        s.append(")");
        s
    }
}

/// A scissor rectangle: fragments outside it are discarded.
#[derive(Debug, Clone, Copy, PartialEq, Eq, Structural)]
pub struct ScissorBox {
    pub x: u32,
    pub y: u32,
    pub width: u32,
    pub height: u32,
}

impl ScissorBox {
    /// Creates a scissor rectangle.
    pub fn new(x: u32, y: u32, width: u32, height: u32) -> (r: Self)
        ensures
            r == (ScissorBox { x, y, width, height }),
    {
        ScissorBox { x, y, width, height }
    }

    /// Whether the point lies within the rectangle: left and bottom edges
    /// included, right and top edges excluded.
    pub fn contains(&self, px: u32, py: u32) -> (r: bool)
        ensures
            r == in_rect(self.x, self.y, self.width, self.height, px, py),
    {
        rect_contains(self.x, self.y, self.width, self.height, px, py)
    }
}

/// The size of the rendering context.
#[derive(Debug, Clone, Copy)]
pub struct Context {
    width: u32,
    height: u32,
}

impl Context {
    /// The width of the context.
    pub closed spec fn width(&self) -> u32 {
        self.width
    }

    /// The height of the context.
    pub closed spec fn height(&self) -> u32 {
        self.height
    }

    /// Creates a context of the given size.
    pub fn new(width: u32, height: u32) -> (r: Self)
        ensures
            r.width() == width,
            r.height() == height,
    {
        Context { width, height }
    }

    /// `[width, height]`.
    pub fn get_size(&self) -> (r: Vec<u32>)
        ensures
            r@ == seq![self.width(), self.height()],
    {
        vec![self.width, self.height]
    }

    /// `CoreContext(<width>x<height>)`.
    pub fn get_info(&self) -> (r: String)
        ensures
            r@ == "CoreContext("@ + decimal(self.width() as nat) + "x"@ + decimal(
                self.height() as nat,
            ) + ")"@,
    {
        let mut s = String::from_str("CoreContext(");
        push_decimal(&mut s, self.width as u64);
        s.append("x");
        push_decimal(&mut s, self.height as u64);
        s.append(")");
        s
    }
}

/// A shader program. Compilation is the backend's work: the record keeps the
/// context that the program belongs to.
pub struct Program {
    context: Arc<crate::context::Context>,
}

impl Program {
    /// The context that the program belongs to.
    pub closed spec fn context(&self) -> crate::context::Context {
        *self.context
    }

    /// Creates a program for the given context.
    pub fn new(context: &crate::context::Context, vertex_source: String, fragment_source: String) -> (r: Self)
        ensures
            r.context() == *context,
    {
        Program { context: Arc::new(*context) }
    }
}

} // verus!
