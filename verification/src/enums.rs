//! Closed domain enumerations decoded from raw integer codes, and the tables
//! that map each code to its variant.
//!
//! Two policies coexist deliberately. Most tables are strict: a code outside
//! the documented range yields no value. Two tables widen instead: any
//! unrecognized blend-mode code means [`BlendMode::Default`], and any
//! unrecognized texture-channel code means [`TextureType::Unknown`]. The
//! widened domains are "unknown but harmless"; preserving the split is part
//! of this library's contract.

use vstd::prelude::*;

verus! {

/// How a surface is shaded.
#[derive(Clone, Copy, Debug, PartialEq, Eq, Structural)]
pub enum ShadingMode {
    Flat,
    Gouraud,
    Phong,
    Blinn,
    Toon,
    OrenNayar,
    Minnaert,
    CookTorrance,
    NoShading,
    Fresnel,
}

/// How a transparent surface blends with the scene behind it.
#[derive(Clone, Copy, Debug, PartialEq, Eq, Structural)]
pub enum BlendMode {
    Default,
    Additive,
}

/// How a texture layer combines with the layer below it.
#[derive(Clone, Copy, Debug, PartialEq, Eq, Structural)]
pub enum TextureOp {
    Multiply,
    Add,
    Subtract,
    Divide,
    SmoothAdd,
    SignedAdd,
}

/// How texture coordinates are generated for a texture.
#[derive(Clone, Copy, Debug, PartialEq, Eq, Structural)]
pub enum TextureMapping {
    UV,
    Sphere,
    Cylinder,
    Cube,
    Plane,
    Other,
}

/// How texture coordinates outside [0, 1] are treated.
#[derive(Clone, Copy, Debug, PartialEq, Eq, Structural)]
pub enum TextureMapMode {
    Wrap,
    Clamp,
    Mirror,
    Decal,
}

/// The texture channel a texture-indexed property belongs to.
#[derive(Clone, Copy, Debug, PartialEq, Eq, Structural)]
pub enum TextureType {
    NoChannel,
    Diffuse,
    Specular,
    Ambient,
    Emissive,
    Height,
    Normals,
    Shininess,
    Opacity,
    Displacement,
    Lightmap,
    Reflection,
    Unknown,
}

/// Per-texture flag: invert the texel values.
pub const TEXTURE_FLAG_INVERT: u32 = 0x1;

/// Per-texture flag: use the texture's alpha channel.
pub const TEXTURE_FLAG_USE_ALPHA: u32 = 0x2;

/// Per-texture flag: ignore the texture's alpha channel.
pub const TEXTURE_FLAG_IGNORE_ALPHA: u32 = 0x4;

/// A set of per-texture flags, decoded through a checked bit-mask
/// constructor: only the three documented bits may be set.
#[derive(Clone, Copy, Debug, PartialEq, Eq, Structural)]
pub struct TextureFlags {
    pub bits: u32,
}

impl DeepView for TextureOp {
    type V = TextureOp;

    open spec fn deep_view(&self) -> TextureOp {
        *self
    }
}

impl DeepView for TextureMapping {
    type V = TextureMapping;

    open spec fn deep_view(&self) -> TextureMapping {
        *self
    }
}

impl DeepView for TextureMapMode {
    type V = TextureMapMode;

    open spec fn deep_view(&self) -> TextureMapMode {
        *self
    }
}

impl DeepView for TextureFlags {
    type V = TextureFlags;

    open spec fn deep_view(&self) -> TextureFlags {
        *self
    }
}

/// Strict table: shading-mode codes 0x1 through 0xA map to their variants;
/// every other code yields no value.
pub open spec fn spec_shading_mode_from_code(code: i32) -> Option<ShadingMode> {
    match code {
        0x1 => Some(ShadingMode::Flat),
        0x2 => Some(ShadingMode::Gouraud),
        0x3 => Some(ShadingMode::Phong),
        0x4 => Some(ShadingMode::Blinn),
        0x5 => Some(ShadingMode::Toon),
        0x6 => Some(ShadingMode::OrenNayar),
        0x7 => Some(ShadingMode::Minnaert),
        0x8 => Some(ShadingMode::CookTorrance),
        0x9 => Some(ShadingMode::NoShading),
        0xA => Some(ShadingMode::Fresnel),
        _ => None,
    }
}

/// Widening table: code 0x1 means additive blending; every other code,
/// recognized or not, means the default blend mode.
pub open spec fn spec_blend_mode_from_code(code: i32) -> Option<BlendMode> {
    match code {
        0x1 => Some(BlendMode::Additive),
        _ => Some(BlendMode::Default),
    }
}

/// Strict table: texture-operation codes 0x0 through 0x5 map to their
/// variants; every other code yields no value.
pub open spec fn spec_texture_op_from_code(code: i32) -> Option<TextureOp> {
    match code {
        0x0 => Some(TextureOp::Multiply),
        0x1 => Some(TextureOp::Add),
        0x2 => Some(TextureOp::Subtract),
        0x3 => Some(TextureOp::Divide),
        0x4 => Some(TextureOp::SmoothAdd),
        0x5 => Some(TextureOp::SignedAdd),
        _ => None,
    }
}

/// Strict table: texture-mapping codes 0x0 through 0x5 map to their
/// variants; every other code yields no value.
pub open spec fn spec_texture_mapping_from_code(code: i32) -> Option<TextureMapping> {
    match code {
        0x0 => Some(TextureMapping::UV),
        0x1 => Some(TextureMapping::Sphere),
        0x2 => Some(TextureMapping::Cylinder),
        0x3 => Some(TextureMapping::Cube),
        0x4 => Some(TextureMapping::Plane),
        0x5 => Some(TextureMapping::Other),
        _ => None,
    }
}

/// Strict table: map-mode codes 0x0 through 0x3 map to their variants; every
/// other code yields no value.
pub open spec fn spec_texture_map_mode_from_code(code: i32) -> Option<TextureMapMode> {
    match code {
        0x0 => Some(TextureMapMode::Wrap),
        0x1 => Some(TextureMapMode::Clamp),
        0x2 => Some(TextureMapMode::Mirror),
        0x3 => Some(TextureMapMode::Decal),
        _ => None,
    }
}

/// Widening table: texture-channel codes 0x0 through 0xB map to their
/// variants; every other code, recognized or not, means `Unknown`.
pub open spec fn spec_texture_type_from_raw(code: u32) -> TextureType {
    match code {
        0x0 => TextureType::NoChannel,
        0x1 => TextureType::Diffuse,
        0x2 => TextureType::Specular,
        0x3 => TextureType::Ambient,
        0x4 => TextureType::Emissive,
        0x5 => TextureType::Height,
        0x6 => TextureType::Normals,
        0x7 => TextureType::Shininess,
        0x8 => TextureType::Opacity,
        0x9 => TextureType::Displacement,
        0xA => TextureType::Lightmap,
        0xB => TextureType::Reflection,
        _ => TextureType::Unknown,
    }
}

/// Checked bit-mask construction: the flag set exists exactly when no bit
/// outside the three documented flags is set.
pub open spec fn spec_texture_flags_from_bits(bits: u32) -> Option<TextureFlags> {
    if bits & 0xFFFF_FFF8 == 0 {
        Some(TextureFlags { bits })
    } else {
        None
    }
}

/// Widens a shading-mode code; strict on unrecognized codes.
pub fn shading_mode_from_code(code: i32) -> (r: Option<ShadingMode>)
    ensures
        r == spec_shading_mode_from_code(code),
{
    match code {
        0x1 => Some(ShadingMode::Flat),
        0x2 => Some(ShadingMode::Gouraud),
        0x3 => Some(ShadingMode::Phong),
        0x4 => Some(ShadingMode::Blinn),
        0x5 => Some(ShadingMode::Toon),
        0x6 => Some(ShadingMode::OrenNayar),
        0x7 => Some(ShadingMode::Minnaert),
        0x8 => Some(ShadingMode::CookTorrance),
        0x9 => Some(ShadingMode::NoShading),
        0xA => Some(ShadingMode::Fresnel),
        _ => None,
    }
}

/// Widens a blend-mode code; every code other than 0x1 is the default mode.
pub fn blend_mode_from_code(code: i32) -> (r: Option<BlendMode>)
    ensures
        r == spec_blend_mode_from_code(code),
{
    match code {
        0x1 => Some(BlendMode::Additive),
        _ => Some(BlendMode::Default),
    }
}

/// Widens a texture-operation code; strict on unrecognized codes.
pub fn texture_op_from_code(code: i32) -> (r: Option<TextureOp>)
    ensures
        r == spec_texture_op_from_code(code),
{
    match code {
        0x0 => Some(TextureOp::Multiply),
        0x1 => Some(TextureOp::Add),
        0x2 => Some(TextureOp::Subtract),
        0x3 => Some(TextureOp::Divide),
        0x4 => Some(TextureOp::SmoothAdd),
        0x5 => Some(TextureOp::SignedAdd),
        _ => None,
    }
}

/// Widens a texture-mapping code; strict on unrecognized codes.
pub fn texture_mapping_from_code(code: i32) -> (r: Option<TextureMapping>)
    ensures
        r == spec_texture_mapping_from_code(code),
{
    match code {
        0x0 => Some(TextureMapping::UV),
        0x1 => Some(TextureMapping::Sphere),
        0x2 => Some(TextureMapping::Cylinder),
        0x3 => Some(TextureMapping::Cube),
        0x4 => Some(TextureMapping::Plane),
        0x5 => Some(TextureMapping::Other),
        _ => None,
    }
}

/// Widens a map-mode code; strict on unrecognized codes.
pub fn texture_map_mode_from_code(code: i32) -> (r: Option<TextureMapMode>)
    ensures
        r == spec_texture_map_mode_from_code(code),
{
    match code {
        0x0 => Some(TextureMapMode::Wrap),
        0x1 => Some(TextureMapMode::Clamp),
        0x2 => Some(TextureMapMode::Mirror),
        0x3 => Some(TextureMapMode::Decal),
        _ => None,
    }
}

/// Classifies a raw texture-channel code; every code outside 0x0 through 0xB
/// widens to `Unknown`.
pub fn texture_type_from_raw(code: u32) -> (r: TextureType)
    ensures
        r == spec_texture_type_from_raw(code),
{
    match code {
        0x0 => TextureType::NoChannel,
        0x1 => TextureType::Diffuse,
        0x2 => TextureType::Specular,
        0x3 => TextureType::Ambient,
        0x4 => TextureType::Emissive,
        0x5 => TextureType::Height,
        0x6 => TextureType::Normals,
        0x7 => TextureType::Shininess,
        0x8 => TextureType::Opacity,
        0x9 => TextureType::Displacement,
        0xA => TextureType::Lightmap,
        0xB => TextureType::Reflection,
        _ => TextureType::Unknown,
    }
}

impl TextureFlags {
    /// Builds the flag set from raw bits, failing if any bit outside the
    /// three documented flags is set.
    pub fn from_bits(bits: u32) -> (r: Option<TextureFlags>)
        ensures
            r == spec_texture_flags_from_bits(bits),
    {
        if bits & 0xFFFF_FFF8 == 0 {
            Some(TextureFlags { bits })
        } else {
            None
        }
    }
}

/// Strict tables never widen: a shading-mode code outside 0x1 through 0xA, a
/// texture-operation or texture-mapping code outside 0x0 through 0x5, or a
/// map-mode code outside 0x0 through 0x3 yields no value.
pub proof fn lemma_strict_tables_fail_outside_range(code: i32)
    ensures
        (code < 0x1 || code > 0xA) ==> spec_shading_mode_from_code(code) is None,
        (code < 0x0 || code > 0x5) ==> spec_texture_op_from_code(code) is None,
        (code < 0x0 || code > 0x5) ==> spec_texture_mapping_from_code(code) is None,
        (code < 0x0 || code > 0x3) ==> spec_texture_map_mode_from_code(code) is None,
{
}

/// The blend-mode table widens: every code other than 0x1 maps to the
/// default blend mode, and 0x1 maps to additive blending. It never fails.
pub proof fn lemma_blend_mode_widens(code: i32)
    ensures
        code == 0x1 ==> spec_blend_mode_from_code(code) == Some(BlendMode::Additive),
        code != 0x1 ==> spec_blend_mode_from_code(code) == Some(BlendMode::Default),
{
}

/// The texture-channel table widens: every code outside 0x0 through 0xB maps
/// to `Unknown`. It never fails.
pub proof fn lemma_texture_type_widens(code: u32)
    ensures
        code > 0xB ==> spec_texture_type_from_raw(code) == TextureType::Unknown,
{
}

} // verus!
