//! Texture records kept on the CPU side and depth textures.
use vstd::prelude::*;
use vstd::string::StringExecFns;
use crate::text::{decimal, push_decimal};

verus! {

#[derive(Debug, Clone, Copy, PartialEq, Eq, Structural)]
pub enum CubeMapSide {
    Right,
    Left,
    Top,
    Bottom,
    Front,
    Back,
}

impl CubeMapSide {
    /// The native graphics constant that this variant stands for.
    pub open spec fn code(self) -> u32 {
        match self {
            CubeMapSide::Right => 0,
            CubeMapSide::Left => 1,
            CubeMapSide::Top => 2,
            CubeMapSide::Bottom => 3,
            CubeMapSide::Front => 4,
            CubeMapSide::Back => 5,
        }
    }

    /// The variant whose native constant is `code`, if any.
    pub open spec fn decode(code: u32) -> Option<Self> {
        if code == 0 {
            Some(CubeMapSide::Right)
        } else if code == 1 {
            Some(CubeMapSide::Left)
        } else if code == 2 {
            Some(CubeMapSide::Top)
        } else if code == 3 {
            Some(CubeMapSide::Bottom)
        } else if code == 4 {
            Some(CubeMapSide::Front)
        } else if code == 5 {
            Some(CubeMapSide::Back)
        } else {
            None
        }
    }

    /// Returns the native graphics constant of this variant.
    pub fn to_code(&self) -> (r: u32)
        ensures
            r == self.code(),
    {
        match self {
            CubeMapSide::Right => 0,
            CubeMapSide::Left => 1,
            CubeMapSide::Top => 2,
            CubeMapSide::Bottom => 3,
            CubeMapSide::Front => 4,
            CubeMapSide::Back => 5,
        }
    }

    /// Returns the variant whose native constant is `code`, or `None` when no
    /// variant carries it.
    pub fn from_code(code: u32) -> (r: Option<Self>)
        ensures
            r == Self::decode(code),
            forall|v: Self| #[trigger] v.code() == code <==> r == Some(v),
    {
        match code {
            0 => Some(CubeMapSide::Right),
            1 => Some(CubeMapSide::Left),
            2 => Some(CubeMapSide::Top),
            3 => Some(CubeMapSide::Bottom),
            4 => Some(CubeMapSide::Front),
            5 => Some(CubeMapSide::Back),
            _ => None,
        }
    }
}

impl CubeMapSide {
    /// The side at position `i` of the order Right, Left, Top, Bottom, Front,
    /// Back; `None` past the last.
    pub open spec fn at(i: u32) -> Option<CubeMapSide> {
        if i == 0 {
            Some(CubeMapSide::Right)
        } else if i == 1 {
            Some(CubeMapSide::Left)
        } else if i == 2 {
            Some(CubeMapSide::Top)
        } else if i == 3 {
            Some(CubeMapSide::Bottom)
        } else if i == 4 {
            Some(CubeMapSide::Front)
        } else if i == 5 {
            Some(CubeMapSide::Back)
        } else {
            None
        }
    }
}

/// A texture held in CPU memory, before upload.
#[derive(Debug, Clone)]
pub struct CpuTexture {
    /// Width in texels.
    pub width: u32,
    /// Height in texels.
    pub height: u32,
    /// Pixel format, by name.
    pub format: String,
}

impl CpuTexture {
    /// Creates a CPU-side texture; the format defaults to `rgba8`.
    pub fn new(width: u32, height: u32, format: Option<String>) -> (r: Self)
        ensures
            r.width == width,
            r.height == height,
            r.format@ == match format {
                Some(f) => f@,
                None => "rgba8"@,
            },
    {
        CpuTexture {
            width,
            height,
            format: match format {
                Some(f) => f,
                None => String::from_str("rgba8"),
            },
        }
    }

    /// Describes the GPU surface this texture would become:
    /// `GPUSurface(<size> <format>)`.
    pub fn to_gpu(&self) -> (r: String)
        ensures
            r@ == "GPUSurface("@ + decimal(self.width as nat) + "x"@ + decimal(self.height as nat) + " "@ + self.format@ + ")"@,
    {
        let mut s = String::from_str("GPUSurface(");
        push_decimal(&mut s, self.width as u64);
        s.append("x");
        push_decimal(&mut s, self.height as u64);
        s.append(" ");
        s.append(self.format.as_str());
        s.append(")");
        s
    }
}

/// A texture held in CPU memory, before upload.
#[derive(Debug, Clone)]
pub struct CpuTexture3D {
    /// Width in texels.
    pub width: u32,
    /// Height in texels.
    pub height: u32,
    /// Depth in texels.
    pub depth: u32,
    /// Pixel format, by name.
    pub format: String,
}

impl CpuTexture3D {
    /// Creates a CPU-side texture; the format defaults to `rgba8`.
    pub fn new(width: u32, height: u32, depth: u32, format: Option<String>) -> (r: Self)
        ensures
            r.width == width,
            r.height == height,
            r.depth == depth,
            r.format@ == match format {
                Some(f) => f@,
                None => "rgba8"@,
            },
    {
        CpuTexture3D {
            width,
            height,
            depth,
            format: match format {
                Some(f) => f,
                None => String::from_str("rgba8"),
            },
        }
    }

    /// Describes the GPU volume this texture would become:
    /// `GPUVolume(<size> <format>)`.
    pub fn to_gpu(&self) -> (r: String)
        ensures
            r@ == "GPUVolume("@ + decimal(self.width as nat) + "x"@ + decimal(self.height as nat) + "x"@ + decimal(self.depth as nat) + " "@ + self.format@ + ")"@,
    {
        let mut s = String::from_str("GPUVolume(");
        push_decimal(&mut s, self.width as u64);
        s.append("x");
        push_decimal(&mut s, self.height as u64);
        s.append("x");
        push_decimal(&mut s, self.depth as u64);
        s.append(" ");
        s.append(self.format.as_str());
        s.append(")");
        s
    }
}

/// Walks the six sides of a cube map in the order Right, Left, Top, Bottom,
/// Front, Back.
pub struct CubeMapSideIterator {
    current: u32,
}

impl CubeMapSideIterator {
    /// How many sides have been handed out.
    pub closed spec fn position(&self) -> u32 {
        self.current
    }

    /// An iterator at the first side.
    pub fn new() -> (r: Self)
        ensures
            r.position() == 0,
    {
        CubeMapSideIterator { current: 0 }
    }

    /// The next side, or `None` once all six have been handed out.
    pub fn next(&mut self) -> (r: Option<CubeMapSide>)
        ensures
            r == CubeMapSide::at(old(self).position()),
            final(self).position() == if r is Some {
                (old(self).position() + 1) as u32
            } else {
                old(self).position()
            },
    {
        let side = if self.current == 0 {
            Some(CubeMapSide::Right)
        } else if self.current == 1 {
            Some(CubeMapSide::Left)
        } else if self.current == 2 {
            Some(CubeMapSide::Top)
        } else if self.current == 3 {
            Some(CubeMapSide::Bottom)
        } else if self.current == 4 {
            Some(CubeMapSide::Front)
        } else if self.current == 5 {
            Some(CubeMapSide::Back)
        } else {
            None
        };
        if side.is_some() {
            self.current = self.current + 1;
        }
        side
    }
}

/// One level of a mipmap chain.
#[derive(Debug, Clone, Copy, PartialEq, Eq, Structural)]
pub struct Mipmap {
    /// Level index; 0 is the full-size image.
    pub level: u32,
    /// Width in texels.
    pub width: u32,
    /// Height in texels.
    pub height: u32,
}

impl Mipmap {
    /// Creates a mipmap level.
    pub fn new(level: u32, width: u32, height: u32) -> (r: Self)
        ensures
            r.level == level,
            r.width == width,
            r.height == height,
    {
        Mipmap {
            level,
            width,
            height,
        }
    }

    /// `Level <level>: <width>x<height>`.
    pub fn get_info(&self) -> (r: String)
        ensures
            r@ == "Level "@ + decimal(self.level as nat) + ": "@ + decimal(self.width as nat)
                + "x"@ + decimal(self.height as nat),
    {
        let mut s = String::from_str("Level ");
        push_decimal(&mut s, self.level as u64);
        s.append(": ");
        push_decimal(&mut s, self.width as u64);
        s.append("x");
        push_decimal(&mut s, self.height as u64);
        s
    }
}

/// A depth texture used as a depth attachment.
#[derive(Debug, Clone, Copy, PartialEq, Eq, Structural)]
pub struct DepthTexture2D {
    /// Width in texels.
    pub width: u32,
    /// Height in texels.
    pub height: u32,
}

impl DepthTexture2D {
    /// Creates a depth texture.
    pub fn new(width: u32, height: u32) -> (r: Self)
        ensures
            r.width == width,
            r.height == height,
    {
        DepthTexture2D {
            width,
            height,
        }
    }

    /// `DepthTexture2D(<width>x<height>)`.
    pub fn get_info(&self) -> (r: String)
        ensures
            r@ == "DepthTexture2D("@ + decimal(self.width as nat) + "x"@
                + decimal(self.height as nat) + ")"@,
    {
        let mut s = String::from_str("DepthTexture2D(");
        push_decimal(&mut s, self.width as u64);
        s.append("x");
        push_decimal(&mut s, self.height as u64);
        s.append(")");
        s
    }
}

/// An array of depth textures.
#[derive(Debug, Clone, Copy, PartialEq, Eq, Structural)]
pub struct DepthTexture2DArray {
    /// Width in texels.
    pub width: u32,
    /// Height in texels.
    pub height: u32,
    /// Number of layers.
    pub layers: u32,
}

impl DepthTexture2DArray {
    /// Creates a depth texture array.
    pub fn new(width: u32, height: u32, layers: u32) -> (r: Self)
        ensures
            r.width == width,
            r.height == height,
            r.layers == layers,
    {
        DepthTexture2DArray {
            width,
            height,
            layers,
        }
    }

    /// `DepthTexture2DArray(<width>x<height>x<layers>)`.
    pub fn get_info(&self) -> (r: String)
        ensures
            r@ == "DepthTexture2DArray("@ + decimal(self.width as nat) + "x"@
                + decimal(self.height as nat) + "x"@ + decimal(self.layers as nat) + ")"@,
    {
        let mut s = String::from_str("DepthTexture2DArray(");
        push_decimal(&mut s, self.width as u64);
        s.append("x");
        push_decimal(&mut s, self.height as u64);
        s.append("x");
        push_decimal(&mut s, self.layers as u64);
        s.append(")");
        s
    }
}

/// A cube map of depth textures, square sides of one size.
#[derive(Debug, Clone, Copy, PartialEq, Eq, Structural)]
pub struct DepthTextureCubeMap {
    /// Side length in texels.
    pub size: u32,
}

impl DepthTextureCubeMap {
    /// Creates a depth cube map.
    pub fn new(size: u32) -> (r: Self)
        ensures
            r.size == size,
    {
        DepthTextureCubeMap {
            size,
        }
    }

    /// `DepthTextureCubeMap(<size>x<size>)`.
    pub fn get_info(&self) -> (r: String)
        ensures
            r@ == "DepthTextureCubeMap("@ + decimal(self.size as nat) + "x"@
                + decimal(self.size as nat) + ")"@,
    {
        let mut s = String::from_str("DepthTextureCubeMap(");
        push_decimal(&mut s, self.size as u64);
        s.append("x");
        push_decimal(&mut s, self.size as u64);
        s.append(")");
        s
    }
}

} // verus!
