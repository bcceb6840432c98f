//! The dimensionality and texel format of images, with their names in type
//! texts.
use vstd::prelude::*;

use crate::text::push_str;

verus! {

/// The dimensionality of an image: the variants of SPIR-V's `Dim`.
#[derive(Debug, Clone, Copy, PartialEq, Eq, Hash, Structural)]
pub enum Dim {
    Dim1D,
    Dim2D,
    Dim3D,
    DimCube,
    DimRect,
    DimBuffer,
    DimSubpassData,
    DimTileImageDataEXT,
}

/// The texel format of an image: the variants of SPIR-V's `ImageFormat`.
#[derive(Debug, Clone, Copy, PartialEq, Eq, Hash, Structural)]
pub enum ImageFormat {
    Unknown,
    Rgba32f,
    Rgba16f,
    R32f,
    Rgba8,
    Rgba8Snorm,
    Rg32f,
    Rg16f,
    R11fG11fB10f,
    R16f,
    Rgba16,
    Rgb10A2,
    Rg16,
    Rg8,
    R16,
    R8,
    Rgba16Snorm,
    Rg16Snorm,
    Rg8Snorm,
    R16Snorm,
    R8Snorm,
    Rgba32i,
    Rgba16i,
    Rgba8i,
    R32i,
    Rg32i,
    Rg16i,
    Rg8i,
    R16i,
    R8i,
    Rgba32ui,
    Rgba16ui,
    Rgba8ui,
    R32ui,
    Rgb10a2ui,
    Rg32ui,
    Rg16ui,
    Rg8ui,
    R16ui,
    R8ui,
    R64ui,
    R64i,
}

/// How an image dimensionality is written in a type's text.
pub open spec fn dim_text(d: Dim) -> Seq<char> {
    match d {
        Dim::Dim1D => "1D"@,
        Dim::Dim2D => "2D"@,
        Dim::Dim3D => "3D"@,
        Dim::DimCube => "Cube"@,
        Dim::DimRect => "Rect"@,
        Dim::DimBuffer => "Buffer"@,
        Dim::DimSubpassData => "SubpassData"@,
        Dim::DimTileImageDataEXT => "TileImageDataEXT"@,
    }
}

/// How a texel format is written in a type's text: its name.
pub open spec fn format_text(f: ImageFormat) -> Seq<char> {
    match f {
        ImageFormat::Unknown => "Unknown"@,
        ImageFormat::Rgba32f => "Rgba32f"@,
        ImageFormat::Rgba16f => "Rgba16f"@,
        ImageFormat::R32f => "R32f"@,
        ImageFormat::Rgba8 => "Rgba8"@,
        ImageFormat::Rgba8Snorm => "Rgba8Snorm"@,
        ImageFormat::Rg32f => "Rg32f"@,
        ImageFormat::Rg16f => "Rg16f"@,
        ImageFormat::R11fG11fB10f => "R11fG11fB10f"@,
        ImageFormat::R16f => "R16f"@,
        ImageFormat::Rgba16 => "Rgba16"@,
        ImageFormat::Rgb10A2 => "Rgb10A2"@,
        ImageFormat::Rg16 => "Rg16"@,
        ImageFormat::Rg8 => "Rg8"@,
        ImageFormat::R16 => "R16"@,
        ImageFormat::R8 => "R8"@,
        ImageFormat::Rgba16Snorm => "Rgba16Snorm"@,
        ImageFormat::Rg16Snorm => "Rg16Snorm"@,
        ImageFormat::Rg8Snorm => "Rg8Snorm"@,
        ImageFormat::R16Snorm => "R16Snorm"@,
        ImageFormat::R8Snorm => "R8Snorm"@,
        ImageFormat::Rgba32i => "Rgba32i"@,
        ImageFormat::Rgba16i => "Rgba16i"@,
        ImageFormat::Rgba8i => "Rgba8i"@,
        ImageFormat::R32i => "R32i"@,
        ImageFormat::Rg32i => "Rg32i"@,
        ImageFormat::Rg16i => "Rg16i"@,
        ImageFormat::Rg8i => "Rg8i"@,
        ImageFormat::R16i => "R16i"@,
        ImageFormat::R8i => "R8i"@,
        ImageFormat::Rgba32ui => "Rgba32ui"@,
        ImageFormat::Rgba16ui => "Rgba16ui"@,
        ImageFormat::Rgba8ui => "Rgba8ui"@,
        ImageFormat::R32ui => "R32ui"@,
        ImageFormat::Rgb10a2ui => "Rgb10a2ui"@,
        ImageFormat::Rg32ui => "Rg32ui"@,
        ImageFormat::Rg16ui => "Rg16ui"@,
        ImageFormat::Rg8ui => "Rg8ui"@,
        ImageFormat::R16ui => "R16ui"@,
        ImageFormat::R8ui => "R8ui"@,
        ImageFormat::R64ui => "R64ui"@,
        ImageFormat::R64i => "R64i"@,
    }
}

/// Append the text of an image dimensionality.
pub fn push_dim(out: &mut String, d: Dim)
    ensures
        final(out)@ == old(out)@ + dim_text(d),
{
    match d {
        Dim::Dim1D => push_str(out, "1D"),
        Dim::Dim2D => push_str(out, "2D"),
        Dim::Dim3D => push_str(out, "3D"),
        Dim::DimCube => push_str(out, "Cube"),
        Dim::DimRect => push_str(out, "Rect"),
        Dim::DimBuffer => push_str(out, "Buffer"),
        Dim::DimSubpassData => push_str(out, "SubpassData"),
        Dim::DimTileImageDataEXT => push_str(out, "TileImageDataEXT"),
    }
}

/// Append the text of a texel format.
pub fn push_format(out: &mut String, f: ImageFormat)
    ensures
        final(out)@ == old(out)@ + format_text(f),
{
    match f {
        ImageFormat::Unknown => push_str(out, "Unknown"),
        ImageFormat::Rgba32f => push_str(out, "Rgba32f"),
        ImageFormat::Rgba16f => push_str(out, "Rgba16f"),
        ImageFormat::R32f => push_str(out, "R32f"),
        ImageFormat::Rgba8 => push_str(out, "Rgba8"),
        ImageFormat::Rgba8Snorm => push_str(out, "Rgba8Snorm"),
        ImageFormat::Rg32f => push_str(out, "Rg32f"),
        ImageFormat::Rg16f => push_str(out, "Rg16f"),
        ImageFormat::R11fG11fB10f => push_str(out, "R11fG11fB10f"),
        ImageFormat::R16f => push_str(out, "R16f"),
        ImageFormat::Rgba16 => push_str(out, "Rgba16"),
        ImageFormat::Rgb10A2 => push_str(out, "Rgb10A2"),
        ImageFormat::Rg16 => push_str(out, "Rg16"),
        ImageFormat::Rg8 => push_str(out, "Rg8"),
        ImageFormat::R16 => push_str(out, "R16"),
        ImageFormat::R8 => push_str(out, "R8"),
        ImageFormat::Rgba16Snorm => push_str(out, "Rgba16Snorm"),
        ImageFormat::Rg16Snorm => push_str(out, "Rg16Snorm"),
        ImageFormat::Rg8Snorm => push_str(out, "Rg8Snorm"),
        ImageFormat::R16Snorm => push_str(out, "R16Snorm"),
        ImageFormat::R8Snorm => push_str(out, "R8Snorm"),
        ImageFormat::Rgba32i => push_str(out, "Rgba32i"),
        ImageFormat::Rgba16i => push_str(out, "Rgba16i"),
        ImageFormat::Rgba8i => push_str(out, "Rgba8i"),
        ImageFormat::R32i => push_str(out, "R32i"),
        ImageFormat::Rg32i => push_str(out, "Rg32i"),
        ImageFormat::Rg16i => push_str(out, "Rg16i"),
        ImageFormat::Rg8i => push_str(out, "Rg8i"),
        ImageFormat::R16i => push_str(out, "R16i"),
        ImageFormat::R8i => push_str(out, "R8i"),
        ImageFormat::Rgba32ui => push_str(out, "Rgba32ui"),
        ImageFormat::Rgba16ui => push_str(out, "Rgba16ui"),
        ImageFormat::Rgba8ui => push_str(out, "Rgba8ui"),
        ImageFormat::R32ui => push_str(out, "R32ui"),
        ImageFormat::Rgb10a2ui => push_str(out, "Rgb10a2ui"),
        ImageFormat::Rg32ui => push_str(out, "Rg32ui"),
        ImageFormat::Rg16ui => push_str(out, "Rg16ui"),
        ImageFormat::Rg8ui => push_str(out, "Rg8ui"),
        ImageFormat::R16ui => push_str(out, "R16ui"),
        ImageFormat::R8ui => push_str(out, "R8ui"),
        ImageFormat::R64ui => push_str(out, "R64ui"),
        ImageFormat::R64i => push_str(out, "R64i"),
    }
}

} // verus!
