//! The texture formats a surface or texture can have, as plain values the
//! library can decide on, and the channel order of the 8-bit blue-first ones.
use vstd::prelude::*;

verus! {

/// The block size of an ASTC compressed format, in texels.
#[derive(Copy, Clone, Debug, PartialEq, Eq, Hash, Structural)]
pub enum AstcBlock {
    B4x4,
    B5x4,
    B5x5,
    B6x5,
    B6x6,
    B8x5,
    B8x6,
    B8x8,
    B10x5,
    B10x6,
    B10x8,
    B10x10,
    B12x10,
    B12x12,
}

/// How the channels of an ASTC compressed format are read.
#[derive(Copy, Clone, Debug, PartialEq, Eq, Hash, Structural)]
pub enum AstcChannel {
    /// Unsigned, normalized to `[0, 1]`.
    Unorm,
    /// As `Unorm`, with colors in the sRGB encoding.
    UnormSrgb,
    /// High dynamic range floating-point values.
    Hdr,
}

/// The format of the texels of a texture, one variant for each format the
/// GPU crate knows.
#[derive(Copy, Clone, Debug, PartialEq, Eq, Hash, Structural)]
pub enum TexelFormat {
    // 8-bit single-channel formats
    R8Unorm,
    R8Snorm,
    R8Uint,
    R8Sint,
    // 16-bit formats
    R16Uint,
    R16Sint,
    R16Unorm,
    R16Snorm,
    R16Float,
    Rg8Unorm,
    Rg8Snorm,
    Rg8Uint,
    Rg8Sint,
    // 32-bit formats
    R32Uint,
    R32Sint,
    R32Float,
    Rg16Uint,
    Rg16Sint,
    Rg16Unorm,
    Rg16Snorm,
    Rg16Float,
    Rgba8Unorm,
    Rgba8UnormSrgb,
    Rgba8Snorm,
    Rgba8Uint,
    Rgba8Sint,
    Bgra8Unorm,
    Bgra8UnormSrgb,
    // Packed 32-bit formats
    Rgb9e5Ufloat,
    Rgb10a2Uint,
    Rgb10a2Unorm,
    Rg11b10Ufloat,
    // 64-bit formats
    R64Uint,
    Rg32Uint,
    Rg32Sint,
    Rg32Float,
    Rgba16Uint,
    Rgba16Sint,
    Rgba16Unorm,
    Rgba16Snorm,
    Rgba16Float,
    // 128-bit formats
    Rgba32Uint,
    Rgba32Sint,
    Rgba32Float,
    // Depth and stencil formats
    Stencil8,
    Depth16Unorm,
    Depth24Plus,
    Depth24PlusStencil8,
    Depth32Float,
    Depth32FloatStencil8,
    // Multi-planar video formats
    NV12,
    P010,
    // BC compressed formats
    Bc1RgbaUnorm,
    Bc1RgbaUnormSrgb,
    Bc2RgbaUnorm,
    Bc2RgbaUnormSrgb,
    Bc3RgbaUnorm,
    Bc3RgbaUnormSrgb,
    Bc4RUnorm,
    Bc4RSnorm,
    Bc5RgUnorm,
    Bc5RgSnorm,
    Bc6hRgbUfloat,
    Bc6hRgbFloat,
    Bc7RgbaUnorm,
    Bc7RgbaUnormSrgb,
    // ETC2 and EAC compressed formats
    Etc2Rgb8Unorm,
    Etc2Rgb8UnormSrgb,
    Etc2Rgb8A1Unorm,
    Etc2Rgb8A1UnormSrgb,
    Etc2Rgba8Unorm,
    Etc2Rgba8UnormSrgb,
    EacR11Unorm,
    EacR11Snorm,
    EacRg11Unorm,
    EacRg11Snorm,
    // ASTC compressed formats
    Astc { block: AstcBlock, channel: AstcChannel },
}

/// The format stores four 8-bit channels blue first (blue, green, red,
/// alpha).
pub open spec fn is_bgra_format(format: TexelFormat) -> bool {
    format == TexelFormat::Bgra8Unorm || format == TexelFormat::Bgra8UnormSrgb
}

/// Whether `format` stores its 8-bit channels blue first.
pub fn is_bgra(format: &TexelFormat) -> (r: bool)
    ensures
        r == is_bgra_format(*format),
{
    match format {
        TexelFormat::Bgra8Unorm | TexelFormat::Bgra8UnormSrgb => true,
        _ => false,
    }
}

/// Exactly two formats store their 8-bit channels blue first: `Bgra8Unorm`
/// and `Bgra8UnormSrgb`. In particular the red-first `Rgba8Unorm` and
/// `Rgba8UnormSrgb` do not.
pub proof fn lemma_bgra_formats(format: TexelFormat)
    ensures
        is_bgra_format(format) <==> format == TexelFormat::Bgra8Unorm || format
            == TexelFormat::Bgra8UnormSrgb,
        is_bgra_format(TexelFormat::Bgra8Unorm),
        is_bgra_format(TexelFormat::Bgra8UnormSrgb),
        !is_bgra_format(TexelFormat::Rgba8Unorm),
        !is_bgra_format(TexelFormat::Rgba8UnormSrgb),
{
}

} // verus!
