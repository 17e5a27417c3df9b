//! Graphics primitives: texture color formats, packed colors and display
//! draw callbacks.

pub mod display;

use vstd::prelude::*;

use crate::native::UnknownNativeValue;

verus! {

/// Texture and render-target pixel formats, mirroring libobs's
/// `gs_color_format`.
#[allow(non_camel_case_types)]
#[derive(Debug, Clone, Copy, PartialEq, Eq, Structural)]
pub enum GraphicsColorFormat {
    UNKNOWN,
    A8,
    R8,
    RGBA,
    BGRX,
    BGRA,
    R10G10B10A2,
    RGBA16,
    R16,
    RGBA16F,
    RGBA32F,
    RG16F,
    RG32F,
    R16F,
    R32F,
    DXT1,
    DXT3,
    DXT5,
    R8G8,
    RGBA_UNORM,
    BGRX_UNORM,
    BGRA_UNORM,
    RG16,
}

impl GraphicsColorFormat {
    /// The libobs enumerant of this value.
    pub open spec fn spec_raw(self) -> u32 {
        match self {
            GraphicsColorFormat::UNKNOWN => 0,
            GraphicsColorFormat::A8 => 1,
            GraphicsColorFormat::R8 => 2,
            GraphicsColorFormat::RGBA => 3,
            GraphicsColorFormat::BGRX => 4,
            GraphicsColorFormat::BGRA => 5,
            GraphicsColorFormat::R10G10B10A2 => 6,
            GraphicsColorFormat::RGBA16 => 7,
            GraphicsColorFormat::R16 => 8,
            GraphicsColorFormat::RGBA16F => 9,
            GraphicsColorFormat::RGBA32F => 10,
            GraphicsColorFormat::RG16F => 11,
            GraphicsColorFormat::RG32F => 12,
            GraphicsColorFormat::R16F => 13,
            GraphicsColorFormat::R32F => 14,
            GraphicsColorFormat::DXT1 => 15,
            GraphicsColorFormat::DXT3 => 16,
            GraphicsColorFormat::DXT5 => 17,
            GraphicsColorFormat::R8G8 => 18,
            GraphicsColorFormat::RGBA_UNORM => 19,
            GraphicsColorFormat::BGRX_UNORM => 20,
            GraphicsColorFormat::BGRA_UNORM => 21,
            GraphicsColorFormat::RG16 => 22,
        }
    }

    /// The value whose enumerant is `raw`, if there is one.
    pub open spec fn spec_from_raw(raw: u32) -> Option<GraphicsColorFormat> {
        if raw == 0 {
            Some(GraphicsColorFormat::UNKNOWN)
        } else if raw == 1 {
            Some(GraphicsColorFormat::A8)
        } else if raw == 2 {
            Some(GraphicsColorFormat::R8)
        } else if raw == 3 {
            Some(GraphicsColorFormat::RGBA)
        } else if raw == 4 {
            Some(GraphicsColorFormat::BGRX)
        } else if raw == 5 {
            Some(GraphicsColorFormat::BGRA)
        } else if raw == 6 {
            Some(GraphicsColorFormat::R10G10B10A2)
        } else if raw == 7 {
            Some(GraphicsColorFormat::RGBA16)
        } else if raw == 8 {
            Some(GraphicsColorFormat::R16)
        } else if raw == 9 {
            Some(GraphicsColorFormat::RGBA16F)
        } else if raw == 10 {
            Some(GraphicsColorFormat::RGBA32F)
        } else if raw == 11 {
            Some(GraphicsColorFormat::RG16F)
        } else if raw == 12 {
            Some(GraphicsColorFormat::RG32F)
        } else if raw == 13 {
            Some(GraphicsColorFormat::R16F)
        } else if raw == 14 {
            Some(GraphicsColorFormat::R32F)
        } else if raw == 15 {
            Some(GraphicsColorFormat::DXT1)
        } else if raw == 16 {
            Some(GraphicsColorFormat::DXT3)
        } else if raw == 17 {
            Some(GraphicsColorFormat::DXT5)
        } else if raw == 18 {
            Some(GraphicsColorFormat::R8G8)
        } else if raw == 19 {
            Some(GraphicsColorFormat::RGBA_UNORM)
        } else if raw == 20 {
            Some(GraphicsColorFormat::BGRX_UNORM)
        } else if raw == 21 {
            Some(GraphicsColorFormat::BGRA_UNORM)
        } else if raw == 22 {
            Some(GraphicsColorFormat::RG16)
        } else {
            None
        }
    }

    /// Converts to the underlying libobs enumerant.
    pub fn as_raw(self) -> (r: u32)
        ensures
            r == self.spec_raw(),
    {
        match self {
            GraphicsColorFormat::UNKNOWN => 0,
            GraphicsColorFormat::A8 => 1,
            GraphicsColorFormat::R8 => 2,
            GraphicsColorFormat::RGBA => 3,
            GraphicsColorFormat::BGRX => 4,
            GraphicsColorFormat::BGRA => 5,
            GraphicsColorFormat::R10G10B10A2 => 6,
            GraphicsColorFormat::RGBA16 => 7,
            GraphicsColorFormat::R16 => 8,
            GraphicsColorFormat::RGBA16F => 9,
            GraphicsColorFormat::RGBA32F => 10,
            GraphicsColorFormat::RG16F => 11,
            GraphicsColorFormat::RG32F => 12,
            GraphicsColorFormat::R16F => 13,
            GraphicsColorFormat::R32F => 14,
            GraphicsColorFormat::DXT1 => 15,
            GraphicsColorFormat::DXT3 => 16,
            GraphicsColorFormat::DXT5 => 17,
            GraphicsColorFormat::R8G8 => 18,
            GraphicsColorFormat::RGBA_UNORM => 19,
            GraphicsColorFormat::BGRX_UNORM => 20,
            GraphicsColorFormat::BGRA_UNORM => 21,
            GraphicsColorFormat::RG16 => 22,
        }
    }

    /// Maps a libobs enumerant to a value; unknown enumerants are returned
    /// in the error.
    pub fn from_raw(raw: u32) -> (r: Result<GraphicsColorFormat, UnknownNativeValue>)
        ensures
            match r {
                Ok(v) => Self::spec_from_raw(raw) == Some(v),
                Err(e) => Self::spec_from_raw(raw) is None && e.raw == raw,
            },
    {
        match raw {
            0 => Ok(GraphicsColorFormat::UNKNOWN),
            1 => Ok(GraphicsColorFormat::A8),
            2 => Ok(GraphicsColorFormat::R8),
            3 => Ok(GraphicsColorFormat::RGBA),
            4 => Ok(GraphicsColorFormat::BGRX),
            5 => Ok(GraphicsColorFormat::BGRA),
            6 => Ok(GraphicsColorFormat::R10G10B10A2),
            7 => Ok(GraphicsColorFormat::RGBA16),
            8 => Ok(GraphicsColorFormat::R16),
            9 => Ok(GraphicsColorFormat::RGBA16F),
            10 => Ok(GraphicsColorFormat::RGBA32F),
            11 => Ok(GraphicsColorFormat::RG16F),
            12 => Ok(GraphicsColorFormat::RG32F),
            13 => Ok(GraphicsColorFormat::R16F),
            14 => Ok(GraphicsColorFormat::R32F),
            15 => Ok(GraphicsColorFormat::DXT1),
            16 => Ok(GraphicsColorFormat::DXT3),
            17 => Ok(GraphicsColorFormat::DXT5),
            18 => Ok(GraphicsColorFormat::R8G8),
            19 => Ok(GraphicsColorFormat::RGBA_UNORM),
            20 => Ok(GraphicsColorFormat::BGRX_UNORM),
            21 => Ok(GraphicsColorFormat::BGRA_UNORM),
            22 => Ok(GraphicsColorFormat::RG16),
            _ => Err(UnknownNativeValue { raw }),
        }
    }
}

/// Converting a value to its enumerant and back gives the same value, and
/// an enumerant that names a value is that value's enumerant.
pub proof fn lemma_graphics_color_format_raw_roundtrip(v: GraphicsColorFormat, raw: u32)
    ensures
        GraphicsColorFormat::spec_from_raw(v.spec_raw()) == Some(v),
        GraphicsColorFormat::spec_from_raw(raw) matches Some(w) ==> w.spec_raw() == raw,
{
}

/// Each value's libobs enumerant, as libobs numbers them, and the value each of those
/// enumerants stands for.
pub proof fn lemma_graphics_color_format_numbering()
    ensures
        GraphicsColorFormat::UNKNOWN.spec_raw() == 0,
        GraphicsColorFormat::spec_from_raw(0) == Some(GraphicsColorFormat::UNKNOWN),
        GraphicsColorFormat::A8.spec_raw() == 1,
        GraphicsColorFormat::spec_from_raw(1) == Some(GraphicsColorFormat::A8),
        GraphicsColorFormat::R8.spec_raw() == 2,
        GraphicsColorFormat::spec_from_raw(2) == Some(GraphicsColorFormat::R8),
        GraphicsColorFormat::RGBA.spec_raw() == 3,
        GraphicsColorFormat::spec_from_raw(3) == Some(GraphicsColorFormat::RGBA),
        GraphicsColorFormat::BGRX.spec_raw() == 4,
        GraphicsColorFormat::spec_from_raw(4) == Some(GraphicsColorFormat::BGRX),
        GraphicsColorFormat::BGRA.spec_raw() == 5,
        GraphicsColorFormat::spec_from_raw(5) == Some(GraphicsColorFormat::BGRA),
        GraphicsColorFormat::R10G10B10A2.spec_raw() == 6,
        GraphicsColorFormat::spec_from_raw(6) == Some(GraphicsColorFormat::R10G10B10A2),
        GraphicsColorFormat::RGBA16.spec_raw() == 7,
        GraphicsColorFormat::spec_from_raw(7) == Some(GraphicsColorFormat::RGBA16),
        GraphicsColorFormat::R16.spec_raw() == 8,
        GraphicsColorFormat::spec_from_raw(8) == Some(GraphicsColorFormat::R16),
        GraphicsColorFormat::RGBA16F.spec_raw() == 9,
        GraphicsColorFormat::spec_from_raw(9) == Some(GraphicsColorFormat::RGBA16F),
        GraphicsColorFormat::RGBA32F.spec_raw() == 10,
        GraphicsColorFormat::spec_from_raw(10) == Some(GraphicsColorFormat::RGBA32F),
        GraphicsColorFormat::RG16F.spec_raw() == 11,
        GraphicsColorFormat::spec_from_raw(11) == Some(GraphicsColorFormat::RG16F),
        GraphicsColorFormat::RG32F.spec_raw() == 12,
        GraphicsColorFormat::spec_from_raw(12) == Some(GraphicsColorFormat::RG32F),
        GraphicsColorFormat::R16F.spec_raw() == 13,
        GraphicsColorFormat::spec_from_raw(13) == Some(GraphicsColorFormat::R16F),
        GraphicsColorFormat::R32F.spec_raw() == 14,
        GraphicsColorFormat::spec_from_raw(14) == Some(GraphicsColorFormat::R32F),
        GraphicsColorFormat::DXT1.spec_raw() == 15,
        GraphicsColorFormat::spec_from_raw(15) == Some(GraphicsColorFormat::DXT1),
        GraphicsColorFormat::DXT3.spec_raw() == 16,
        GraphicsColorFormat::spec_from_raw(16) == Some(GraphicsColorFormat::DXT3),
        GraphicsColorFormat::DXT5.spec_raw() == 17,
        GraphicsColorFormat::spec_from_raw(17) == Some(GraphicsColorFormat::DXT5),
        GraphicsColorFormat::R8G8.spec_raw() == 18,
        GraphicsColorFormat::spec_from_raw(18) == Some(GraphicsColorFormat::R8G8),
        GraphicsColorFormat::RGBA_UNORM.spec_raw() == 19,
        GraphicsColorFormat::spec_from_raw(19) == Some(GraphicsColorFormat::RGBA_UNORM),
        GraphicsColorFormat::BGRX_UNORM.spec_raw() == 20,
        GraphicsColorFormat::spec_from_raw(20) == Some(GraphicsColorFormat::BGRX_UNORM),
        GraphicsColorFormat::BGRA_UNORM.spec_raw() == 21,
        GraphicsColorFormat::spec_from_raw(21) == Some(GraphicsColorFormat::BGRA_UNORM),
        GraphicsColorFormat::RG16.spec_raw() == 22,
        GraphicsColorFormat::spec_from_raw(22) == Some(GraphicsColorFormat::RG16),
{
}

} // verus!
