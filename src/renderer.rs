//! The window renderer record and the object-level rendering handles.
use vstd::prelude::*;
use vstd::string::StringExecFns;
use crate::text::{bool_text, decimal, push_bool, push_decimal};

pub mod geometry;
pub mod material;
pub mod object;
pub mod view;

verus! {

/// The renderer of a window: its size, title, and whether it has been
/// initialised. Frames are drawn by the backend.
#[derive(Debug, Clone)]
pub struct Renderer {
    pub width: u32,
    pub height: u32,
    pub title: String,
    pub is_initialized: bool,
}

impl Renderer {
    /// Creates a renderer that is not yet initialised; the title defaults to
    /// `Three-d NAPI`.
    pub fn new(width: u32, height: u32, title: Option<String>) -> (r: Self)
        ensures
            r.width == width,
            r.height == height,
            r.title@ == match title {
                Some(t) => t@,
                None => "Three-d NAPI"@,
            },
            !r.is_initialized,
    {
        Renderer {
            width,
            height,
            title: match title {
                Some(t) => t,
                None => String::from_str("Three-d NAPI"),
            },
            is_initialized: false,
        }
    }

    /// Marks the renderer initialised.
    pub fn init(&mut self)
        ensures
            final(self).is_initialized,
            final(self).width == old(self).width,
            final(self).height == old(self).height,
            final(self).title == old(self).title,
    {
        self.is_initialized = true;
    }

    /// Whether a frame can be rendered: only once the renderer is initialised.
    pub fn render_frame(&self) -> (r: bool)
        ensures
            r == self.is_initialized,
    {
        if !self.is_initialized {
            return false;
        }
        true
    }

    /// `Renderer: <width>x<height> '<title>': Initialized: <bool>`.
    pub fn get_info(&self) -> (r: String)
        ensures
            r@ == "Renderer: "@ + decimal(self.width as nat) + "x"@ + decimal(self.height as nat)
                + " '"@ + self.title@ + "': Initialized: "@ + bool_text(self.is_initialized),
    {
        let mut s = String::from_str("Renderer: ");
        push_decimal(&mut s, self.width as u64);
        s.append("x");
        push_decimal(&mut s, self.height as u64);
        s.append(" '");
        s.append(self.title.as_str());
        s.append("': Initialized: ");
        push_bool(&mut s, self.is_initialized);
        s
    }
}

} // verus!
