//! One raw material property record and the typed-value extraction engine.
//!
//! A [`MaterialProperty`] carries a key string, a semantic (texture-channel
//! code), a slot index, a declared type tag, and the raw byte payload. The
//! scalar decoders validate the declared type tag against the requested
//! shape before any reinterpretation and perform a bounded little-endian
//! read of the payload; a mismatch or a short payload yields no value, never
//! a fault. The key registry ([`MaterialProperty::key`]) dispatches a record
//! to the decoder its key string implies and wraps the result into a
//! [`MaterialPropertyKey`] variant, carrying (texture type, slot index)
//! metadata for texture-indexed keys.
//!
//! Floats are represented by their IEEE 754 bit patterns (`u32`), so float
//! decoding is bit-exact.

use vstd::prelude::*;

use crate::bytes::{i32_from_le, read_i32_le, read_u32_le, u32_from_le};
use crate::enums::{
    blend_mode_from_code, shading_mode_from_code, spec_blend_mode_from_code,
    spec_shading_mode_from_code, spec_texture_flags_from_bits, spec_texture_map_mode_from_code,
    spec_texture_mapping_from_code, spec_texture_op_from_code, spec_texture_type_from_raw,
    texture_map_mode_from_code, texture_mapping_from_code, texture_op_from_code,
    texture_type_from_raw, BlendMode, ShadingMode, TextureFlags, TextureMapMode, TextureMapping,
    TextureOp, TextureType,
};

verus! {

/// The runtime type tag a property claims for its payload.
#[derive(Clone, Copy, Debug, PartialEq, Eq, Structural)]
pub enum PropertyTypeInfo {
    /// Payload is an array of 32-bit floats.
    Float,
    /// Payload is an array of 32-bit integers.
    Integer,
    /// Payload is length-prefixed text.
    Text,
    /// Payload is an uninterpreted binary buffer.
    Buffer,
}

/// An RGBA color; each component is the bit pattern of a 32-bit float.
#[derive(Clone, Copy, Debug, PartialEq, Eq, Structural)]
pub struct Color4 {
    pub r: u32,
    pub g: u32,
    pub b: u32,
    pub a: u32,
}

/// A 3-vector; each component is the bit pattern of a 32-bit float.
#[derive(Clone, Copy, Debug, PartialEq, Eq, Structural)]
pub struct Vector3 {
    pub x: u32,
    pub y: u32,
    pub z: u32,
}

/// A UV-coordinate transform: translation, scaling and rotation, stored as
/// five 32-bit float bit patterns in payload order.
#[derive(Clone, Copy, Debug, PartialEq, Eq, Structural)]
pub struct UvTransform {
    pub translation_u: u32,
    pub translation_v: u32,
    pub scaling_u: u32,
    pub scaling_v: u32,
    pub rotation: u32,
}

impl DeepView for Vector3 {
    type V = Vector3;

    open spec fn deep_view(&self) -> Vector3 {
        *self
    }
}

impl DeepView for UvTransform {
    type V = UvTransform;

    open spec fn deep_view(&self) -> UvTransform {
        *self
    }
}

/// One property record of a material: a key string, a semantic
/// (texture-channel code, 0 when not texture-related), a slot index, a
/// declared type tag, and the raw byte payload. Read-only once built.
#[derive(Clone, Debug)]
pub struct MaterialProperty {
    /// The textual key identifying what the payload means.
    pub key: String,
    /// The texture-channel code; 0 when the property is not texture-related.
    pub semantic: u32,
    /// The texture-slot index; 0 when the property is not texture-related.
    pub index: u32,
    /// The runtime type tag the payload claims.
    pub property_type: PropertyTypeInfo,
    /// The raw bytes holding the value.
    pub data: Vec<u8>,
}

/// The mathematical model of one property record.
#[verifier::ext_equal]
pub struct PropView {
    pub key: Seq<char>,
    pub semantic: u32,
    pub index: u32,
    pub property_type: PropertyTypeInfo,
    pub data: Seq<u8>,
}

impl View for MaterialProperty {
    type V = PropView;

    open spec fn view(&self) -> PropView {
        PropView {
            key: self.key@,
            semantic: self.semantic,
            index: self.index,
            property_type: self.property_type,
            data: self.data@,
        }
    }
}

impl DeepView for MaterialProperty {
    type V = PropView;

    open spec fn deep_view(&self) -> PropView {
        self.view()
    }
}

/// The signed integer decoded from a property: present exactly when the
/// declared type is `Integer` and the payload holds at least four bytes,
/// read little-endian.
pub open spec fn spec_int_value(p: PropView) -> Option<i32> {
    if p.property_type == PropertyTypeInfo::Integer && p.data.len() >= 4 {
        Some(i32_from_le(p.data[0], p.data[1], p.data[2], p.data[3]))
    } else {
        None
    }
}

/// The boolean decoded from a property: integer decoding followed by a
/// non-zero test (0 is false, any other integer is true).
pub open spec fn spec_bool_value(p: PropView) -> Option<bool> {
    match spec_int_value(p) {
        Some(i) => Some(i != 0),
        None => None,
    }
}

/// The float (as its bit pattern) decoded from a property: present exactly
/// when the declared type is `Float` and the payload holds at least four
/// bytes, read little-endian.
pub open spec fn spec_float_value(p: PropView) -> Option<u32> {
    if p.property_type == PropertyTypeInfo::Float && p.data.len() >= 4 {
        Some(u32_from_le(p.data[0], p.data[1], p.data[2], p.data[3]))
    } else {
        None
    }
}

/// The 3-vector decoded from a property: three contiguous floats, present
/// exactly when the declared type is `Float` and the payload holds at least
/// twelve bytes.
pub open spec fn spec_vector_value(p: PropView) -> Option<Vector3> {
    if p.property_type == PropertyTypeInfo::Float && p.data.len() >= 12 {
        Some(
            Vector3 {
                x: u32_from_le(p.data[0], p.data[1], p.data[2], p.data[3]),
                y: u32_from_le(p.data[4], p.data[5], p.data[6], p.data[7]),
                z: u32_from_le(p.data[8], p.data[9], p.data[10], p.data[11]),
            },
        )
    } else {
        None
    }
}

/// The RGBA color decoded from a property: four contiguous floats (r, g, b,
/// a), present exactly when the declared type is `Float` and the payload
/// holds at least sixteen bytes.
pub open spec fn spec_color_value(p: PropView) -> Option<Color4> {
    if p.property_type == PropertyTypeInfo::Float && p.data.len() >= 16 {
        Some(
            Color4 {
                r: u32_from_le(p.data[0], p.data[1], p.data[2], p.data[3]),
                g: u32_from_le(p.data[4], p.data[5], p.data[6], p.data[7]),
                b: u32_from_le(p.data[8], p.data[9], p.data[10], p.data[11]),
                a: u32_from_le(p.data[12], p.data[13], p.data[14], p.data[15]),
            },
        )
    } else {
        None
    }
}

/// The UV transform decoded from a property: five contiguous floats
/// (translation u/v, scaling u/v, rotation), present exactly when the
/// declared type is `Float` and the payload holds at least twenty bytes.
pub open spec fn spec_uv_transform_value(p: PropView) -> Option<UvTransform> {
    if p.property_type == PropertyTypeInfo::Float && p.data.len() >= 20 {
        Some(
            UvTransform {
                translation_u: u32_from_le(p.data[0], p.data[1], p.data[2], p.data[3]),
                translation_v: u32_from_le(p.data[4], p.data[5], p.data[6], p.data[7]),
                scaling_u: u32_from_le(p.data[8], p.data[9], p.data[10], p.data[11]),
                scaling_v: u32_from_le(p.data[12], p.data[13], p.data[14], p.data[15]),
                rotation: u32_from_le(p.data[16], p.data[17], p.data[18], p.data[19]),
            },
        )
    } else {
        None
    }
}

/// The text decoded from a property: present exactly when the declared type
/// is `Text`, the payload holds a four-byte little-endian length prefix, and
/// the prefixed length fits in the remaining payload; the value is exactly
/// the prefixed bytes.
pub open spec fn spec_string_value(p: PropView) -> Option<Seq<u8>> {
    if p.property_type == PropertyTypeInfo::Text && p.data.len() >= 4 {
        let n = u32_from_le(p.data[0], p.data[1], p.data[2], p.data[3]) as int;
        if p.data.len() >= 4 + n {
            Some(p.data.subrange(4, 4 + n))
        } else {
            None
        }
    } else {
        None
    }
}

/// The shading mode decoded from a property: integer decoding followed by
/// the strict shading-mode table.
pub open spec fn spec_shading_mode_value(p: PropView) -> Option<ShadingMode> {
    match spec_int_value(p) {
        Some(c) => spec_shading_mode_from_code(c),
        None => None,
    }
}

/// The blend mode decoded from a property: integer decoding followed by the
/// widening blend-mode table.
pub open spec fn spec_blend_mode_value(p: PropView) -> Option<BlendMode> {
    match spec_int_value(p) {
        Some(c) => spec_blend_mode_from_code(c),
        None => None,
    }
}

/// The texture operation decoded from a property: integer decoding followed
/// by the strict texture-operation table.
pub open spec fn spec_texture_op_value(p: PropView) -> Option<TextureOp> {
    match spec_int_value(p) {
        Some(c) => spec_texture_op_from_code(c),
        None => None,
    }
}

/// The texture mapping decoded from a property: integer decoding followed by
/// the strict texture-mapping table.
pub open spec fn spec_texture_mapping_value(p: PropView) -> Option<TextureMapping> {
    match spec_int_value(p) {
        Some(c) => spec_texture_mapping_from_code(c),
        None => None,
    }
}

/// The map mode decoded from a property: integer decoding followed by the
/// strict map-mode table.
pub open spec fn spec_texture_map_mode_value(p: PropView) -> Option<TextureMapMode> {
    match spec_int_value(p) {
        Some(c) => spec_texture_map_mode_from_code(c),
        None => None,
    }
}

/// The unsigned bit pattern of a signed 32-bit value (two's complement).
pub open spec fn spec_bits_of_i32(c: i32) -> u32 {
    if c >= 0 {
        c as u32
    } else {
        (c + 0x1_0000_0000) as u32
    }
}

/// The flag set decoded from a property: integer decoding followed by the
/// checked bit-mask constructor (the code is reinterpreted as unsigned
/// bits).
pub open spec fn spec_texture_flags_value(p: PropView) -> Option<TextureFlags> {
    match spec_int_value(p) {
        Some(c) => spec_texture_flags_from_bits(spec_bits_of_i32(c)),
        None => None,
    }
}

impl MaterialProperty {
    /// The texture-slot index of the property.
    pub fn index(&self) -> (r: u32)
        ensures
            r == self@.index,
    {
        self.index
    }

    /// The runtime type tag the payload claims.
    pub fn data_type(&self) -> (r: PropertyTypeInfo)
        ensures
            r == self@.property_type,
    {
        self.property_type
    }

    /// Decodes the payload as a signed 32-bit integer.
    pub fn int_value(&self) -> (r: Option<i32>)
        ensures
            r == spec_int_value(self@),
    {
        if self.property_type == PropertyTypeInfo::Integer && self.data.len() >= 4 {
            Some(read_i32_le(self.data[0], self.data[1], self.data[2], self.data[3]))
        } else {
            None
        }
    }

    /// Decodes the payload as a boolean: 0 is false, any non-zero integer
    /// (including negative) is true.
    pub fn bool_value(&self) -> (r: Option<bool>)
        ensures
            r == spec_bool_value(self@),
    {
        match self.int_value() {
            Some(i) => Some(i != 0),
            None => None,
        }
    }

    /// Decodes the payload as a 32-bit float, returned as its IEEE 754 bit
    /// pattern.
    pub fn float_value(&self) -> (r: Option<u32>)
        ensures
            r == spec_float_value(self@),
    {
        if self.property_type == PropertyTypeInfo::Float && self.data.len() >= 4 {
            Some(read_u32_le(self.data[0], self.data[1], self.data[2], self.data[3]))
        } else {
            None
        }
    }

    /// Decodes the payload as three contiguous floats.
    pub fn vector_value(&self) -> (r: Option<Vector3>)
        ensures
            r == spec_vector_value(self@),
    {
        if self.property_type == PropertyTypeInfo::Float && self.data.len() >= 12 {
            Some(
                Vector3 {
                    x: read_u32_le(self.data[0], self.data[1], self.data[2], self.data[3]),
                    y: read_u32_le(self.data[4], self.data[5], self.data[6], self.data[7]),
                    z: read_u32_le(self.data[8], self.data[9], self.data[10], self.data[11]),
                },
            )
        } else {
            None
        }
    }

    /// Decodes the payload as four contiguous floats (r, g, b, a).
    pub fn color_value(&self) -> (r: Option<Color4>)
        ensures
            r == spec_color_value(self@),
    {
        if self.property_type == PropertyTypeInfo::Float && self.data.len() >= 16 {
            Some(
                Color4 {
                    r: read_u32_le(self.data[0], self.data[1], self.data[2], self.data[3]),
                    g: read_u32_le(self.data[4], self.data[5], self.data[6], self.data[7]),
                    b: read_u32_le(self.data[8], self.data[9], self.data[10], self.data[11]),
                    a: read_u32_le(self.data[12], self.data[13], self.data[14], self.data[15]),
                },
            )
        } else {
            None
        }
    }

    /// Decodes the payload as a fixed-size UV-transform record of five
    /// contiguous floats.
    pub fn uv_transform_value(&self) -> (r: Option<UvTransform>)
        ensures
            r == spec_uv_transform_value(self@),
    {
        if self.property_type == PropertyTypeInfo::Float && self.data.len() >= 20 {
            Some(
                UvTransform {
                    translation_u: read_u32_le(
                        self.data[0],
                        self.data[1],
                        self.data[2],
                        self.data[3],
                    ),
                    translation_v: read_u32_le(
                        self.data[4],
                        self.data[5],
                        self.data[6],
                        self.data[7],
                    ),
                    scaling_u: read_u32_le(
                        self.data[8],
                        self.data[9],
                        self.data[10],
                        self.data[11],
                    ),
                    scaling_v: read_u32_le(
                        self.data[12],
                        self.data[13],
                        self.data[14],
                        self.data[15],
                    ),
                    rotation: read_u32_le(
                        self.data[16],
                        self.data[17],
                        self.data[18],
                        self.data[19],
                    ),
                },
            )
        } else {
            None
        }
    }

    /// Decodes the payload as length-prefixed text, returned as its exact
    /// bytes.
    pub fn string_value(&self) -> (r: Option<Vec<u8>>)
        ensures
            r.deep_view() == spec_string_value(self@),
    {
        if self.property_type == PropertyTypeInfo::Text && self.data.len() >= 4 {
            let n = read_u32_le(self.data[0], self.data[1], self.data[2], self.data[3]);
            if n as usize <= self.data.len() - 4 {
                let len: usize = n as usize;
                let mut out: Vec<u8> = Vec::new();
                let mut j: usize = 0;
                while j < len
                    invariant
                        j <= len,
                        len + 4 <= self.data.len(),
                        out@ == self@.data.subrange(4, 4 + j as int),
                    decreases len - j,
                {
                    out.push(self.data[4 + j]);
                    proof {
                        assert(out@ =~= self@.data.subrange(4, 4 + (j + 1) as int));
                    }
                    j += 1;
                }
                proof {
                    assert(out@ =~= spec_string_value(self@).unwrap());
                }
                Some(out)
            } else {
                None
            }
        } else {
            None
        }
    }

    /// Decodes the payload as a shading mode through the strict table.
    pub fn shading_mode_value(&self) -> (r: Option<ShadingMode>)
        ensures
            r == spec_shading_mode_value(self@),
    {
        match self.int_value() {
            Some(c) => shading_mode_from_code(c),
            None => None,
        }
    }

    /// Decodes the payload as a blend mode through the widening table.
    pub fn blend_mode_value(&self) -> (r: Option<BlendMode>)
        ensures
            r == spec_blend_mode_value(self@),
    {
        match self.int_value() {
            Some(c) => blend_mode_from_code(c),
            None => None,
        }
    }

    /// Decodes the payload as a texture operation through the strict table.
    pub fn texture_op_value(&self) -> (r: Option<TextureOp>)
        ensures
            r == spec_texture_op_value(self@),
    {
        match self.int_value() {
            Some(c) => texture_op_from_code(c),
            None => None,
        }
    }

    /// Decodes the payload as a texture mapping through the strict table.
    pub fn texture_mapping_value(&self) -> (r: Option<TextureMapping>)
        ensures
            r == spec_texture_mapping_value(self@),
    {
        match self.int_value() {
            Some(c) => texture_mapping_from_code(c),
            None => None,
        }
    }

    /// Decodes the payload as a map mode through the strict table.
    pub fn texture_map_mode_value(&self) -> (r: Option<TextureMapMode>)
        ensures
            r == spec_texture_map_mode_value(self@),
    {
        match self.int_value() {
            Some(c) => texture_map_mode_from_code(c),
            None => None,
        }
    }

    /// Decodes the payload as a flag set through the checked bit-mask
    /// constructor.
    pub fn texture_flags_value(&self) -> (r: Option<TextureFlags>)
        ensures
            r == spec_texture_flags_value(self@),
    {
        match self.int_value() {
            Some(c) => TextureFlags::from_bits(u32_of_i32(c)),
            None => None,
        }
    }
}

/// The decoded, strongly-typed result of dispatching one property through
/// the key registry: one variant per recognized semantic key.
///
/// Scalar variants carry only the decoded value. Texture-indexed variants
/// carry (texture type, slot index, value), derived from the property's
/// semantic and index fields.
#[derive(Clone, Debug)]
pub enum MaterialPropertyKey {
    GlobalBackground(Vec<u8>),
    DiffuseColor(Color4),
    AmbientColor(Color4),
    EmissiveColor(Color4),
    SpecularColor(Color4),
    TransparentColor(Color4),
    ReflectiveColor(Color4),
    Name(Vec<u8>),
    ShadingModel(ShadingMode),
    TwoSided(bool),
    Wireframe(bool),
    BlendMode(BlendMode),
    Opacity(u32),
    BumpScaling(u32),
    Shininess(u32),
    Reflectivity(u32),
    ShininessStrength(u32),
    IndexOfRefraction(u32),
    TexturePath(TextureType, u32, Vec<u8>),
    TextureUvwSource(TextureType, u32, i32),
    TextureOp(TextureType, u32, TextureOp),
    TextureMapping(TextureType, u32, TextureMapping),
    TextureBlend(TextureType, u32, u32),
    TextureMappingModeU(TextureType, u32, TextureMapMode),
    TextureMappingModeV(TextureType, u32, TextureMapMode),
    TextureMapAxis(TextureType, u32, Vector3),
    TextureUvTransform(TextureType, u32, UvTransform),
    TextureFlags(TextureType, u32, TextureFlags),
}

/// The mathematical model of a decoded typed value: the same variants as
/// [`MaterialPropertyKey`], with byte vectors abstracted to byte sequences.
#[verifier::ext_equal]
pub enum KeyView {
    GlobalBackground(Seq<u8>),
    DiffuseColor(Color4),
    AmbientColor(Color4),
    EmissiveColor(Color4),
    SpecularColor(Color4),
    TransparentColor(Color4),
    ReflectiveColor(Color4),
    Name(Seq<u8>),
    ShadingModel(ShadingMode),
    TwoSided(bool),
    Wireframe(bool),
    BlendMode(BlendMode),
    Opacity(u32),
    BumpScaling(u32),
    Shininess(u32),
    Reflectivity(u32),
    ShininessStrength(u32),
    IndexOfRefraction(u32),
    TexturePath(TextureType, u32, Seq<u8>),
    TextureUvwSource(TextureType, u32, i32),
    TextureOp(TextureType, u32, TextureOp),
    TextureMapping(TextureType, u32, TextureMapping),
    TextureBlend(TextureType, u32, u32),
    TextureMappingModeU(TextureType, u32, TextureMapMode),
    TextureMappingModeV(TextureType, u32, TextureMapMode),
    TextureMapAxis(TextureType, u32, Vector3),
    TextureUvTransform(TextureType, u32, UvTransform),
    TextureFlags(TextureType, u32, TextureFlags),
}

impl DeepView for MaterialPropertyKey {
    type V = KeyView;

    open spec fn deep_view(&self) -> KeyView {
        match self {
            MaterialPropertyKey::GlobalBackground(v) => KeyView::GlobalBackground(v@),
            MaterialPropertyKey::DiffuseColor(v) => KeyView::DiffuseColor(*v),
            MaterialPropertyKey::AmbientColor(v) => KeyView::AmbientColor(*v),
            MaterialPropertyKey::EmissiveColor(v) => KeyView::EmissiveColor(*v),
            MaterialPropertyKey::SpecularColor(v) => KeyView::SpecularColor(*v),
            MaterialPropertyKey::TransparentColor(v) => KeyView::TransparentColor(*v),
            MaterialPropertyKey::ReflectiveColor(v) => KeyView::ReflectiveColor(*v),
            MaterialPropertyKey::Name(v) => KeyView::Name(v@),
            MaterialPropertyKey::ShadingModel(v) => KeyView::ShadingModel(*v),
            MaterialPropertyKey::TwoSided(v) => KeyView::TwoSided(*v),
            MaterialPropertyKey::Wireframe(v) => KeyView::Wireframe(*v),
            MaterialPropertyKey::BlendMode(v) => KeyView::BlendMode(*v),
            MaterialPropertyKey::Opacity(v) => KeyView::Opacity(*v),
            MaterialPropertyKey::BumpScaling(v) => KeyView::BumpScaling(*v),
            MaterialPropertyKey::Shininess(v) => KeyView::Shininess(*v),
            MaterialPropertyKey::Reflectivity(v) => KeyView::Reflectivity(*v),
            MaterialPropertyKey::ShininessStrength(v) => KeyView::ShininessStrength(*v),
            MaterialPropertyKey::IndexOfRefraction(v) => KeyView::IndexOfRefraction(*v),
            MaterialPropertyKey::TexturePath(t, i, v) => KeyView::TexturePath(*t, *i, v@),
            MaterialPropertyKey::TextureUvwSource(t, i, v) => KeyView::TextureUvwSource(
                *t,
                *i,
                *v,
            ),
            MaterialPropertyKey::TextureOp(t, i, v) => KeyView::TextureOp(*t, *i, *v),
            MaterialPropertyKey::TextureMapping(t, i, v) => KeyView::TextureMapping(*t, *i, *v),
            MaterialPropertyKey::TextureBlend(t, i, v) => KeyView::TextureBlend(*t, *i, *v),
            MaterialPropertyKey::TextureMappingModeU(t, i, v) => KeyView::TextureMappingModeU(
                *t,
                *i,
                *v,
            ),
            MaterialPropertyKey::TextureMappingModeV(t, i, v) => KeyView::TextureMappingModeV(
                *t,
                *i,
                *v,
            ),
            MaterialPropertyKey::TextureMapAxis(t, i, v) => KeyView::TextureMapAxis(*t, *i, *v),
            MaterialPropertyKey::TextureUvTransform(t, i, v) => KeyView::TextureUvTransform(
                *t,
                *i,
                *v,
            ),
            MaterialPropertyKey::TextureFlags(t, i, v) => KeyView::TextureFlags(*t, *i, *v),
        }
    }
}

/// One entry of the key registry: which recognized semantic key a key
/// string denotes, or `Unrecognized`. The registry owns the canonical list
/// of recognized keys and, through [`spec_key`], the shape each implies.
#[derive(Clone, Copy, Debug, PartialEq, Eq, Structural)]
pub enum RegistryEntry {
    GlobalBackground,
    DiffuseColor,
    SpecularColor,
    AmbientColor,
    EmissiveColor,
    TransparentColor,
    ReflectiveColor,
    Name,
    ShadingModel,
    TwoSided,
    Wireframe,
    BlendMode,
    Opacity,
    BumpScaling,
    Shininess,
    Reflectivity,
    ShininessStrength,
    IndexOfRefraction,
    TexturePath,
    TextureUvwSource,
    TextureOp,
    TextureMapping,
    TextureBlend,
    TextureMappingModeU,
    TextureMappingModeV,
    TextureMapAxis,
    TextureUvTransform,
    TextureFlags,
    Unrecognized,
}

/// The registry lookup: which recognized semantic key a key string denotes.
/// Matching is exact (case-sensitive, sigil included); any other string is
/// `Unrecognized`.
pub open spec fn spec_lookup(k: Seq<char>) -> RegistryEntry {
    if k == "?bg.global"@ {
        RegistryEntry::GlobalBackground
    } else if k == "$clr.diffuse"@ {
        RegistryEntry::DiffuseColor
    } else if k == "$clr.specular"@ {
        RegistryEntry::SpecularColor
    } else if k == "$clr.ambient"@ {
        RegistryEntry::AmbientColor
    } else if k == "$clr.emissive"@ {
        RegistryEntry::EmissiveColor
    } else if k == "$clr.transparent"@ {
        RegistryEntry::TransparentColor
    } else if k == "$clr.reflective"@ {
        RegistryEntry::ReflectiveColor
    } else if k == "?mat.name"@ {
        RegistryEntry::Name
    } else if k == "$mat.shadingm"@ {
        RegistryEntry::ShadingModel
    } else if k == "$mat.twosided"@ {
        RegistryEntry::TwoSided
    } else if k == "$mat.wireframe"@ {
        RegistryEntry::Wireframe
    } else if k == "$mat.blend"@ {
        RegistryEntry::BlendMode
    } else if k == "$mat.opacity"@ {
        RegistryEntry::Opacity
    } else if k == "$mat.bumpscaling"@ {
        RegistryEntry::BumpScaling
    } else if k == "$mat.shininess"@ {
        RegistryEntry::Shininess
    } else if k == "$mat.reflectivity"@ {
        RegistryEntry::Reflectivity
    } else if k == "$mat.shinpercent"@ {
        RegistryEntry::ShininessStrength
    } else if k == "$mat.refracti"@ {
        RegistryEntry::IndexOfRefraction
    } else if k == "$tex.file"@ {
        RegistryEntry::TexturePath
    } else if k == "$tex.uvwsrc"@ {
        RegistryEntry::TextureUvwSource
    } else if k == "$tex.op"@ {
        RegistryEntry::TextureOp
    } else if k == "$tex.mapping"@ {
        RegistryEntry::TextureMapping
    } else if k == "$tex.blend"@ {
        RegistryEntry::TextureBlend
    } else if k == "$tex.mapmodeu"@ {
        RegistryEntry::TextureMappingModeU
    } else if k == "$tex.mapmodev"@ {
        RegistryEntry::TextureMappingModeV
    } else if k == "$tex.mapaxis"@ {
        RegistryEntry::TextureMapAxis
    } else if k == "$tex.uvtrafo"@ {
        RegistryEntry::TextureUvTransform
    } else if k == "$tex.flags"@ {
        RegistryEntry::TextureFlags
    } else {
        RegistryEntry::Unrecognized
    }
}

/// A key string is recognized when the registry maps it to an entry.
pub open spec fn is_recognized_key(k: Seq<char>) -> bool {
    spec_lookup(k) != RegistryEntry::Unrecognized
}

/// Looks a key string up in the registry.
#[verifier::rlimit(30)]
pub fn lookup(k: &String) -> (r: RegistryEntry)
    ensures
        r == spec_lookup(k@),
{
    if *k == String::from_str("?bg.global") {
        RegistryEntry::GlobalBackground
    } else if *k == String::from_str("$clr.diffuse") {
        RegistryEntry::DiffuseColor
    } else if *k == String::from_str("$clr.specular") {
        RegistryEntry::SpecularColor
    } else if *k == String::from_str("$clr.ambient") {
        RegistryEntry::AmbientColor
    } else if *k == String::from_str("$clr.emissive") {
        RegistryEntry::EmissiveColor
    } else if *k == String::from_str("$clr.transparent") {
        RegistryEntry::TransparentColor
    } else if *k == String::from_str("$clr.reflective") {
        RegistryEntry::ReflectiveColor
    } else if *k == String::from_str("?mat.name") {
        RegistryEntry::Name
    } else if *k == String::from_str("$mat.shadingm") {
        RegistryEntry::ShadingModel
    } else if *k == String::from_str("$mat.twosided") {
        RegistryEntry::TwoSided
    } else if *k == String::from_str("$mat.wireframe") {
        RegistryEntry::Wireframe
    } else if *k == String::from_str("$mat.blend") {
        RegistryEntry::BlendMode
    } else if *k == String::from_str("$mat.opacity") {
        RegistryEntry::Opacity
    } else if *k == String::from_str("$mat.bumpscaling") {
        RegistryEntry::BumpScaling
    } else if *k == String::from_str("$mat.shininess") {
        RegistryEntry::Shininess
    } else if *k == String::from_str("$mat.reflectivity") {
        RegistryEntry::Reflectivity
    } else if *k == String::from_str("$mat.shinpercent") {
        RegistryEntry::ShininessStrength
    } else if *k == String::from_str("$mat.refracti") {
        RegistryEntry::IndexOfRefraction
    } else if *k == String::from_str("$tex.file") {
        RegistryEntry::TexturePath
    } else if *k == String::from_str("$tex.uvwsrc") {
        RegistryEntry::TextureUvwSource
    } else if *k == String::from_str("$tex.op") {
        RegistryEntry::TextureOp
    } else if *k == String::from_str("$tex.mapping") {
        RegistryEntry::TextureMapping
    } else if *k == String::from_str("$tex.blend") {
        RegistryEntry::TextureBlend
    } else if *k == String::from_str("$tex.mapmodeu") {
        RegistryEntry::TextureMappingModeU
    } else if *k == String::from_str("$tex.mapmodev") {
        RegistryEntry::TextureMappingModeV
    } else if *k == String::from_str("$tex.mapaxis") {
        RegistryEntry::TextureMapAxis
    } else if *k == String::from_str("$tex.uvtrafo") {
        RegistryEntry::TextureUvTransform
    } else if *k == String::from_str("$tex.flags") {
        RegistryEntry::TextureFlags
    } else {
        RegistryEntry::Unrecognized
    }
}

/// The typed value a property denotes, if its key is recognized and its
/// payload decodes under the shape the key implies.
///
/// An unrecognized key yields no value, deliberately: the underlying format
/// may carry vendor-specific or future keys this layer does not understand.
/// For texture-indexed keys the property's semantic is widened through the
/// texture-channel table and its slot index is carried over unchanged.
pub open spec fn spec_key(p: PropView) -> Option<KeyView> {
    match spec_lookup(p.key) {
        RegistryEntry::GlobalBackground => match spec_string_value(p) {
            Some(v) => Some(KeyView::GlobalBackground(v)),
            None => None,
        },
        RegistryEntry::DiffuseColor => match spec_color_value(p) {
            Some(v) => Some(KeyView::DiffuseColor(v)),
            None => None,
        },
        RegistryEntry::SpecularColor => match spec_color_value(p) {
            Some(v) => Some(KeyView::SpecularColor(v)),
            None => None,
        },
        RegistryEntry::AmbientColor => match spec_color_value(p) {
            Some(v) => Some(KeyView::AmbientColor(v)),
            None => None,
        },
        RegistryEntry::EmissiveColor => match spec_color_value(p) {
            Some(v) => Some(KeyView::EmissiveColor(v)),
            None => None,
        },
        RegistryEntry::TransparentColor => match spec_color_value(p) {
            Some(v) => Some(KeyView::TransparentColor(v)),
            None => None,
        },
        RegistryEntry::ReflectiveColor => match spec_color_value(p) {
            Some(v) => Some(KeyView::ReflectiveColor(v)),
            None => None,
        },
        RegistryEntry::Name => match spec_string_value(p) {
            Some(v) => Some(KeyView::Name(v)),
            None => None,
        },
        RegistryEntry::ShadingModel => match spec_shading_mode_value(p) {
            Some(v) => Some(KeyView::ShadingModel(v)),
            None => None,
        },
        RegistryEntry::TwoSided => match spec_bool_value(p) {
            Some(v) => Some(KeyView::TwoSided(v)),
            None => None,
        },
        RegistryEntry::Wireframe => match spec_bool_value(p) {
            Some(v) => Some(KeyView::Wireframe(v)),
            None => None,
        },
        RegistryEntry::BlendMode => match spec_blend_mode_value(p) {
            Some(v) => Some(KeyView::BlendMode(v)),
            None => None,
        },
        RegistryEntry::Opacity => match spec_float_value(p) {
            Some(v) => Some(KeyView::Opacity(v)),
            None => None,
        },
        RegistryEntry::BumpScaling => match spec_float_value(p) {
            Some(v) => Some(KeyView::BumpScaling(v)),
            None => None,
        },
        RegistryEntry::Shininess => match spec_float_value(p) {
            Some(v) => Some(KeyView::Shininess(v)),
            None => None,
        },
        RegistryEntry::Reflectivity => match spec_float_value(p) {
            Some(v) => Some(KeyView::Reflectivity(v)),
            None => None,
        },
        RegistryEntry::ShininessStrength => match spec_float_value(p) {
            Some(v) => Some(KeyView::ShininessStrength(v)),
            None => None,
        },
        RegistryEntry::IndexOfRefraction => match spec_float_value(p) {
            Some(v) => Some(KeyView::IndexOfRefraction(v)),
            None => None,
        },
        RegistryEntry::TexturePath => match spec_string_value(p) {
            Some(v) => Some(
                KeyView::TexturePath(spec_texture_type_from_raw(p.semantic), p.index, v),
            ),
            None => None,
        },
        RegistryEntry::TextureUvwSource => match spec_int_value(p) {
            Some(v) => Some(
                KeyView::TextureUvwSource(spec_texture_type_from_raw(p.semantic), p.index, v),
            ),
            None => None,
        },
        RegistryEntry::TextureOp => match spec_texture_op_value(p) {
            Some(v) => Some(
                KeyView::TextureOp(spec_texture_type_from_raw(p.semantic), p.index, v),
            ),
            None => None,
        },
        RegistryEntry::TextureMapping => match spec_texture_mapping_value(p) {
            Some(v) => Some(
                KeyView::TextureMapping(spec_texture_type_from_raw(p.semantic), p.index, v),
            ),
            None => None,
        },
        RegistryEntry::TextureBlend => match spec_float_value(p) {
            Some(v) => Some(
                KeyView::TextureBlend(spec_texture_type_from_raw(p.semantic), p.index, v),
            ),
            None => None,
        },
        RegistryEntry::TextureMappingModeU => match spec_texture_map_mode_value(p) {
            Some(v) => Some(
                KeyView::TextureMappingModeU(spec_texture_type_from_raw(p.semantic), p.index, v),
            ),
            None => None,
        },
        RegistryEntry::TextureMappingModeV => match spec_texture_map_mode_value(p) {
            Some(v) => Some(
                KeyView::TextureMappingModeV(spec_texture_type_from_raw(p.semantic), p.index, v),
            ),
            None => None,
        },
        RegistryEntry::TextureMapAxis => match spec_vector_value(p) {
            Some(v) => Some(
                KeyView::TextureMapAxis(spec_texture_type_from_raw(p.semantic), p.index, v),
            ),
            None => None,
        },
        RegistryEntry::TextureUvTransform => match spec_uv_transform_value(p) {
            Some(v) => Some(
                KeyView::TextureUvTransform(spec_texture_type_from_raw(p.semantic), p.index, v),
            ),
            None => None,
        },
        RegistryEntry::TextureFlags => match spec_texture_flags_value(p) {
            Some(v) => Some(
                KeyView::TextureFlags(spec_texture_type_from_raw(p.semantic), p.index, v),
            ),
            None => None,
        },
        RegistryEntry::Unrecognized => None,
    }
}

impl MaterialProperty {
    /// Dispatches the property through the key registry: decodes the
    /// payload under the shape the key string implies and wraps the result
    /// into a typed-value variant. An unrecognized key, a declared type that
    /// does not match the key's shape, or a payload too short for the shape
    /// yields no value.
    #[verifier::rlimit(50)]
    pub fn key(&self) -> (r: Option<MaterialPropertyKey>)
        ensures
            r.deep_view() == spec_key(self@),
    {
        let r = match lookup(&self.key) {
            RegistryEntry::GlobalBackground => match self.string_value() {
                Some(v) => Some(MaterialPropertyKey::GlobalBackground(v)),
                None => None,
            },
            RegistryEntry::DiffuseColor => match self.color_value() {
                Some(v) => Some(MaterialPropertyKey::DiffuseColor(v)),
                None => None,
            },
            RegistryEntry::SpecularColor => match self.color_value() {
                Some(v) => Some(MaterialPropertyKey::SpecularColor(v)),
                None => None,
            },
            RegistryEntry::AmbientColor => match self.color_value() {
                Some(v) => Some(MaterialPropertyKey::AmbientColor(v)),
                None => None,
            },
            RegistryEntry::EmissiveColor => match self.color_value() {
                Some(v) => Some(MaterialPropertyKey::EmissiveColor(v)),
                None => None,
            },
            RegistryEntry::TransparentColor => match self.color_value() {
                Some(v) => Some(MaterialPropertyKey::TransparentColor(v)),
                None => None,
            },
            RegistryEntry::ReflectiveColor => match self.color_value() {
                Some(v) => Some(MaterialPropertyKey::ReflectiveColor(v)),
                None => None,
            },
            RegistryEntry::Name => match self.string_value() {
                Some(v) => Some(MaterialPropertyKey::Name(v)),
                None => None,
            },
            RegistryEntry::ShadingModel => match self.shading_mode_value() {
                Some(v) => Some(MaterialPropertyKey::ShadingModel(v)),
                None => None,
            },
            RegistryEntry::TwoSided => match self.bool_value() {
                Some(v) => Some(MaterialPropertyKey::TwoSided(v)),
                None => None,
            },
            RegistryEntry::Wireframe => match self.bool_value() {
                Some(v) => Some(MaterialPropertyKey::Wireframe(v)),
                None => None,
            },
            RegistryEntry::BlendMode => match self.blend_mode_value() {
                Some(v) => Some(MaterialPropertyKey::BlendMode(v)),
                None => None,
            },
            RegistryEntry::Opacity => match self.float_value() {
                Some(v) => Some(MaterialPropertyKey::Opacity(v)),
                None => None,
            },
            RegistryEntry::BumpScaling => match self.float_value() {
                Some(v) => Some(MaterialPropertyKey::BumpScaling(v)),
                None => None,
            },
            RegistryEntry::Shininess => match self.float_value() {
                Some(v) => Some(MaterialPropertyKey::Shininess(v)),
                None => None,
            },
            RegistryEntry::Reflectivity => match self.float_value() {
                Some(v) => Some(MaterialPropertyKey::Reflectivity(v)),
                None => None,
            },
            RegistryEntry::ShininessStrength => match self.float_value() {
                Some(v) => Some(MaterialPropertyKey::ShininessStrength(v)),
                None => None,
            },
            RegistryEntry::IndexOfRefraction => match self.float_value() {
                Some(v) => Some(MaterialPropertyKey::IndexOfRefraction(v)),
                None => None,
            },
            RegistryEntry::TexturePath => match self.string_value() {
                Some(v) => Some(
                    MaterialPropertyKey::TexturePath(
                        texture_type_from_raw(self.semantic),
                        self.index,
                        v,
                    ),
                ),
                None => None,
            },
            RegistryEntry::TextureUvwSource => match self.int_value() {
                Some(v) => Some(
                    MaterialPropertyKey::TextureUvwSource(
                        texture_type_from_raw(self.semantic),
                        self.index,
                        v,
                    ),
                ),
                None => None,
            },
            RegistryEntry::TextureOp => match self.texture_op_value() {
                Some(v) => Some(
                    MaterialPropertyKey::TextureOp(
                        texture_type_from_raw(self.semantic),
                        self.index,
                        v,
                    ),
                ),
                None => None,
            },
            RegistryEntry::TextureMapping => match self.texture_mapping_value() {
                Some(v) => Some(
                    MaterialPropertyKey::TextureMapping(
                        texture_type_from_raw(self.semantic),
                        self.index,
                        v,
                    ),
                ),
                None => None,
            },
            RegistryEntry::TextureBlend => match self.float_value() {
                Some(v) => Some(
                    MaterialPropertyKey::TextureBlend(
                        texture_type_from_raw(self.semantic),
                        self.index,
                        v,
                    ),
                ),
                None => None,
            },
            RegistryEntry::TextureMappingModeU => match self.texture_map_mode_value() {
                Some(v) => Some(
                    MaterialPropertyKey::TextureMappingModeU(
                        texture_type_from_raw(self.semantic),
                        self.index,
                        v,
                    ),
                ),
                None => None,
            },
            RegistryEntry::TextureMappingModeV => match self.texture_map_mode_value() {
                Some(v) => Some(
                    MaterialPropertyKey::TextureMappingModeV(
                        texture_type_from_raw(self.semantic),
                        self.index,
                        v,
                    ),
                ),
                None => None,
            },
            RegistryEntry::TextureMapAxis => match self.vector_value() {
                Some(v) => Some(
                    MaterialPropertyKey::TextureMapAxis(
                        texture_type_from_raw(self.semantic),
                        self.index,
                        v,
                    ),
                ),
                None => None,
            },
            RegistryEntry::TextureUvTransform => match self.uv_transform_value() {
                Some(v) => Some(
                    MaterialPropertyKey::TextureUvTransform(
                        texture_type_from_raw(self.semantic),
                        self.index,
                        v,
                    ),
                ),
                None => None,
            },
            RegistryEntry::TextureFlags => match self.texture_flags_value() {
                Some(v) => Some(
                    MaterialPropertyKey::TextureFlags(
                        texture_type_from_raw(self.semantic),
                        self.index,
                        v,
                    ),
                ),
                None => None,
            },
            RegistryEntry::Unrecognized => None,
        };
        proof {
            assert(r.deep_view() =~= spec_key(self@));
        }
        r
    }
}
impl MaterialPropertyKey {
    /// Payload-insensitive comparison: two decoded values count as equal
    /// exactly when they carry the same variant, whatever the payloads.
    /// This is what filtering and searching need.
    pub open spec fn same_variant(self, other: MaterialPropertyKey) -> bool {
        match (self, other) {
            (MaterialPropertyKey::GlobalBackground(_), MaterialPropertyKey::GlobalBackground(_))
                => true,
            (MaterialPropertyKey::DiffuseColor(_), MaterialPropertyKey::DiffuseColor(_)) => true,
            (MaterialPropertyKey::AmbientColor(_), MaterialPropertyKey::AmbientColor(_)) => true,
            (MaterialPropertyKey::EmissiveColor(_), MaterialPropertyKey::EmissiveColor(_)) => true,
            (MaterialPropertyKey::SpecularColor(_), MaterialPropertyKey::SpecularColor(_)) => true,
            (
                MaterialPropertyKey::TransparentColor(_),
                MaterialPropertyKey::TransparentColor(_),
            ) => true,
            (MaterialPropertyKey::ReflectiveColor(_), MaterialPropertyKey::ReflectiveColor(_))
                => true,
            (MaterialPropertyKey::Name(_), MaterialPropertyKey::Name(_)) => true,
            (MaterialPropertyKey::ShadingModel(_), MaterialPropertyKey::ShadingModel(_)) => true,
            (MaterialPropertyKey::TwoSided(_), MaterialPropertyKey::TwoSided(_)) => true,
            (MaterialPropertyKey::Wireframe(_), MaterialPropertyKey::Wireframe(_)) => true,
            (MaterialPropertyKey::BlendMode(_), MaterialPropertyKey::BlendMode(_)) => true,
            (MaterialPropertyKey::Opacity(_), MaterialPropertyKey::Opacity(_)) => true,
            (MaterialPropertyKey::BumpScaling(_), MaterialPropertyKey::BumpScaling(_)) => true,
            (MaterialPropertyKey::Shininess(_), MaterialPropertyKey::Shininess(_)) => true,
            (MaterialPropertyKey::Reflectivity(_), MaterialPropertyKey::Reflectivity(_)) => true,
            (
                MaterialPropertyKey::ShininessStrength(_),
                MaterialPropertyKey::ShininessStrength(_),
            ) => true,
            (
                MaterialPropertyKey::IndexOfRefraction(_),
                MaterialPropertyKey::IndexOfRefraction(_),
            ) => true,
            (
                MaterialPropertyKey::TexturePath(_, _, _),
                MaterialPropertyKey::TexturePath(_, _, _),
            ) => true,
            (
                MaterialPropertyKey::TextureUvwSource(_, _, _),
                MaterialPropertyKey::TextureUvwSource(_, _, _),
            ) => true,
            (
                MaterialPropertyKey::TextureOp(_, _, _),
                MaterialPropertyKey::TextureOp(_, _, _),
            ) => true,
            (
                MaterialPropertyKey::TextureMapping(_, _, _),
                MaterialPropertyKey::TextureMapping(_, _, _),
            ) => true,
            (
                MaterialPropertyKey::TextureBlend(_, _, _),
                MaterialPropertyKey::TextureBlend(_, _, _),
            ) => true,
            (
                MaterialPropertyKey::TextureMappingModeU(_, _, _),
                MaterialPropertyKey::TextureMappingModeU(_, _, _),
            ) => true,
            (
                MaterialPropertyKey::TextureMappingModeV(_, _, _),
                MaterialPropertyKey::TextureMappingModeV(_, _, _),
            ) => true,
            (
                MaterialPropertyKey::TextureMapAxis(_, _, _),
                MaterialPropertyKey::TextureMapAxis(_, _, _),
            ) => true,
            (
                MaterialPropertyKey::TextureUvTransform(_, _, _),
                MaterialPropertyKey::TextureUvTransform(_, _, _),
            ) => true,
            (
                MaterialPropertyKey::TextureFlags(_, _, _),
                MaterialPropertyKey::TextureFlags(_, _, _),
            ) => true,
            _ => false,
        }
    }
}

/// The registry entry a decoded typed value belongs to: the variant's place
/// in the key registry.
pub open spec fn kind_of(k: KeyView) -> RegistryEntry {
    match k {
        KeyView::GlobalBackground(_) => RegistryEntry::GlobalBackground,
        KeyView::DiffuseColor(_) => RegistryEntry::DiffuseColor,
        KeyView::AmbientColor(_) => RegistryEntry::AmbientColor,
        KeyView::EmissiveColor(_) => RegistryEntry::EmissiveColor,
        KeyView::SpecularColor(_) => RegistryEntry::SpecularColor,
        KeyView::TransparentColor(_) => RegistryEntry::TransparentColor,
        KeyView::ReflectiveColor(_) => RegistryEntry::ReflectiveColor,
        KeyView::Name(_) => RegistryEntry::Name,
        KeyView::ShadingModel(_) => RegistryEntry::ShadingModel,
        KeyView::TwoSided(_) => RegistryEntry::TwoSided,
        KeyView::Wireframe(_) => RegistryEntry::Wireframe,
        KeyView::BlendMode(_) => RegistryEntry::BlendMode,
        KeyView::Opacity(_) => RegistryEntry::Opacity,
        KeyView::BumpScaling(_) => RegistryEntry::BumpScaling,
        KeyView::Shininess(_) => RegistryEntry::Shininess,
        KeyView::Reflectivity(_) => RegistryEntry::Reflectivity,
        KeyView::ShininessStrength(_) => RegistryEntry::ShininessStrength,
        KeyView::IndexOfRefraction(_) => RegistryEntry::IndexOfRefraction,
        KeyView::TexturePath(_, _, _) => RegistryEntry::TexturePath,
        KeyView::TextureUvwSource(_, _, _) => RegistryEntry::TextureUvwSource,
        KeyView::TextureOp(_, _, _) => RegistryEntry::TextureOp,
        KeyView::TextureMapping(_, _, _) => RegistryEntry::TextureMapping,
        KeyView::TextureBlend(_, _, _) => RegistryEntry::TextureBlend,
        KeyView::TextureMappingModeU(_, _, _) => RegistryEntry::TextureMappingModeU,
        KeyView::TextureMappingModeV(_, _, _) => RegistryEntry::TextureMappingModeV,
        KeyView::TextureMapAxis(_, _, _) => RegistryEntry::TextureMapAxis,
        KeyView::TextureUvTransform(_, _, _) => RegistryEntry::TextureUvTransform,
        KeyView::TextureFlags(_, _, _) => RegistryEntry::TextureFlags,
    }
}

impl MaterialPropertyKey {
    /// The registry entry this decoded value belongs to.
    pub fn kind(&self) -> (r: RegistryEntry)
        ensures
            r == kind_of(self.deep_view()),
    {
        match self {
            MaterialPropertyKey::GlobalBackground(_) => RegistryEntry::GlobalBackground,
            MaterialPropertyKey::DiffuseColor(_) => RegistryEntry::DiffuseColor,
            MaterialPropertyKey::AmbientColor(_) => RegistryEntry::AmbientColor,
            MaterialPropertyKey::EmissiveColor(_) => RegistryEntry::EmissiveColor,
            MaterialPropertyKey::SpecularColor(_) => RegistryEntry::SpecularColor,
            MaterialPropertyKey::TransparentColor(_) => RegistryEntry::TransparentColor,
            MaterialPropertyKey::ReflectiveColor(_) => RegistryEntry::ReflectiveColor,
            MaterialPropertyKey::Name(_) => RegistryEntry::Name,
            MaterialPropertyKey::ShadingModel(_) => RegistryEntry::ShadingModel,
            MaterialPropertyKey::TwoSided(_) => RegistryEntry::TwoSided,
            MaterialPropertyKey::Wireframe(_) => RegistryEntry::Wireframe,
            MaterialPropertyKey::BlendMode(_) => RegistryEntry::BlendMode,
            MaterialPropertyKey::Opacity(_) => RegistryEntry::Opacity,
            MaterialPropertyKey::BumpScaling(_) => RegistryEntry::BumpScaling,
            MaterialPropertyKey::Shininess(_) => RegistryEntry::Shininess,
            MaterialPropertyKey::Reflectivity(_) => RegistryEntry::Reflectivity,
            MaterialPropertyKey::ShininessStrength(_) => RegistryEntry::ShininessStrength,
            MaterialPropertyKey::IndexOfRefraction(_) => RegistryEntry::IndexOfRefraction,
            MaterialPropertyKey::TexturePath(_, _, _) => RegistryEntry::TexturePath,
            MaterialPropertyKey::TextureUvwSource(_, _, _) => RegistryEntry::TextureUvwSource,
            MaterialPropertyKey::TextureOp(_, _, _) => RegistryEntry::TextureOp,
            MaterialPropertyKey::TextureMapping(_, _, _) => RegistryEntry::TextureMapping,
            MaterialPropertyKey::TextureBlend(_, _, _) => RegistryEntry::TextureBlend,
            MaterialPropertyKey::TextureMappingModeU(_, _, _)
                => RegistryEntry::TextureMappingModeU,
            MaterialPropertyKey::TextureMappingModeV(_, _, _)
                => RegistryEntry::TextureMappingModeV,
            MaterialPropertyKey::TextureMapAxis(_, _, _) => RegistryEntry::TextureMapAxis,
            MaterialPropertyKey::TextureUvTransform(_, _, _)
                => RegistryEntry::TextureUvTransform,
            MaterialPropertyKey::TextureFlags(_, _, _) => RegistryEntry::TextureFlags,
        }
    }
}

impl PartialEq for MaterialPropertyKey {
    fn eq(&self, other: &MaterialPropertyKey) -> (r: bool) {
        match (self, other) {
            (MaterialPropertyKey::GlobalBackground(_), MaterialPropertyKey::GlobalBackground(_))
                => true,
            (MaterialPropertyKey::DiffuseColor(_), MaterialPropertyKey::DiffuseColor(_)) => true,
            (MaterialPropertyKey::AmbientColor(_), MaterialPropertyKey::AmbientColor(_)) => true,
            (MaterialPropertyKey::EmissiveColor(_), MaterialPropertyKey::EmissiveColor(_)) => true,
            (MaterialPropertyKey::SpecularColor(_), MaterialPropertyKey::SpecularColor(_)) => true,
            (
                MaterialPropertyKey::TransparentColor(_),
                MaterialPropertyKey::TransparentColor(_),
            ) => true,
            (MaterialPropertyKey::ReflectiveColor(_), MaterialPropertyKey::ReflectiveColor(_))
                => true,
            (MaterialPropertyKey::Name(_), MaterialPropertyKey::Name(_)) => true,
            (MaterialPropertyKey::ShadingModel(_), MaterialPropertyKey::ShadingModel(_)) => true,
            (MaterialPropertyKey::TwoSided(_), MaterialPropertyKey::TwoSided(_)) => true,
            (MaterialPropertyKey::Wireframe(_), MaterialPropertyKey::Wireframe(_)) => true,
            (MaterialPropertyKey::BlendMode(_), MaterialPropertyKey::BlendMode(_)) => true,
            (MaterialPropertyKey::Opacity(_), MaterialPropertyKey::Opacity(_)) => true,
            (MaterialPropertyKey::BumpScaling(_), MaterialPropertyKey::BumpScaling(_)) => true,
            (MaterialPropertyKey::Shininess(_), MaterialPropertyKey::Shininess(_)) => true,
            (MaterialPropertyKey::Reflectivity(_), MaterialPropertyKey::Reflectivity(_)) => true,
            (
                MaterialPropertyKey::ShininessStrength(_),
                MaterialPropertyKey::ShininessStrength(_),
            ) => true,
            (
                MaterialPropertyKey::IndexOfRefraction(_),
                MaterialPropertyKey::IndexOfRefraction(_),
            ) => true,
            (
                MaterialPropertyKey::TexturePath(_, _, _),
                MaterialPropertyKey::TexturePath(_, _, _),
            ) => true,
            (
                MaterialPropertyKey::TextureUvwSource(_, _, _),
                MaterialPropertyKey::TextureUvwSource(_, _, _),
            ) => true,
            (
                MaterialPropertyKey::TextureOp(_, _, _),
                MaterialPropertyKey::TextureOp(_, _, _),
            ) => true,
            (
                MaterialPropertyKey::TextureMapping(_, _, _),
                MaterialPropertyKey::TextureMapping(_, _, _),
            ) => true,
            (
                MaterialPropertyKey::TextureBlend(_, _, _),
                MaterialPropertyKey::TextureBlend(_, _, _),
            ) => true,
            (
                MaterialPropertyKey::TextureMappingModeU(_, _, _),
                MaterialPropertyKey::TextureMappingModeU(_, _, _),
            ) => true,
            (
                MaterialPropertyKey::TextureMappingModeV(_, _, _),
                MaterialPropertyKey::TextureMappingModeV(_, _, _),
            ) => true,
            (
                MaterialPropertyKey::TextureMapAxis(_, _, _),
                MaterialPropertyKey::TextureMapAxis(_, _, _),
            ) => true,
            (
                MaterialPropertyKey::TextureUvTransform(_, _, _),
                MaterialPropertyKey::TextureUvTransform(_, _, _),
            ) => true,
            (
                MaterialPropertyKey::TextureFlags(_, _, _),
                MaterialPropertyKey::TextureFlags(_, _, _),
            ) => true,
            _ => false,
        }
    }
}

impl vstd::std_specs::cmp::PartialEqSpecImpl for MaterialPropertyKey {
    open spec fn obeys_eq_spec() -> bool {
        true
    }

    open spec fn eq_spec(&self, other: &MaterialPropertyKey) -> bool {
        self.same_variant(*other)
    }
}

/// The declared type tag a registry entry requires for decoding to succeed;
/// none for the unrecognized entry.
pub open spec fn spec_expected_type(e: RegistryEntry) -> Option<PropertyTypeInfo> {
    match e {
        RegistryEntry::GlobalBackground => Some(PropertyTypeInfo::Text),
        RegistryEntry::DiffuseColor => Some(PropertyTypeInfo::Float),
        RegistryEntry::SpecularColor => Some(PropertyTypeInfo::Float),
        RegistryEntry::AmbientColor => Some(PropertyTypeInfo::Float),
        RegistryEntry::EmissiveColor => Some(PropertyTypeInfo::Float),
        RegistryEntry::TransparentColor => Some(PropertyTypeInfo::Float),
        RegistryEntry::ReflectiveColor => Some(PropertyTypeInfo::Float),
        RegistryEntry::Name => Some(PropertyTypeInfo::Text),
        RegistryEntry::ShadingModel => Some(PropertyTypeInfo::Integer),
        RegistryEntry::TwoSided => Some(PropertyTypeInfo::Integer),
        RegistryEntry::Wireframe => Some(PropertyTypeInfo::Integer),
        RegistryEntry::BlendMode => Some(PropertyTypeInfo::Integer),
        RegistryEntry::Opacity => Some(PropertyTypeInfo::Float),
        RegistryEntry::BumpScaling => Some(PropertyTypeInfo::Float),
        RegistryEntry::Shininess => Some(PropertyTypeInfo::Float),
        RegistryEntry::Reflectivity => Some(PropertyTypeInfo::Float),
        RegistryEntry::ShininessStrength => Some(PropertyTypeInfo::Float),
        RegistryEntry::IndexOfRefraction => Some(PropertyTypeInfo::Float),
        RegistryEntry::TexturePath => Some(PropertyTypeInfo::Text),
        RegistryEntry::TextureUvwSource => Some(PropertyTypeInfo::Integer),
        RegistryEntry::TextureOp => Some(PropertyTypeInfo::Integer),
        RegistryEntry::TextureMapping => Some(PropertyTypeInfo::Integer),
        RegistryEntry::TextureBlend => Some(PropertyTypeInfo::Float),
        RegistryEntry::TextureMappingModeU => Some(PropertyTypeInfo::Integer),
        RegistryEntry::TextureMappingModeV => Some(PropertyTypeInfo::Integer),
        RegistryEntry::TextureMapAxis => Some(PropertyTypeInfo::Float),
        RegistryEntry::TextureUvTransform => Some(PropertyTypeInfo::Float),
        RegistryEntry::TextureFlags => Some(PropertyTypeInfo::Integer),
        RegistryEntry::Unrecognized => None,
    }
}

/// Dispatch on an unrecognized key string always yields no value, whatever
/// the declared type and whatever the payload holds.
pub proof fn lemma_unrecognized_key_no_value(p: PropView)
    requires
        !is_recognized_key(p.key),
    ensures
        spec_key(p) is None,
{
}

/// Dispatch on a recognized key whose declared type does not match the
/// shape the key implies yields no value for every payload, never a fault.
pub proof fn lemma_type_mismatch_no_value(p: PropView)
    requires
        spec_expected_type(spec_lookup(p.key)) matches Some(t) && t != p.property_type,
    ensures
        spec_key(p) is None,
{
}

/// Float decoding round-trips: a float-typed property whose payload is the
/// little-endian encoding of a bit pattern decodes to exactly that bit
/// pattern.
pub proof fn lemma_float_payload_round_trip(p: PropView, v: u32)
    requires
        p.property_type == PropertyTypeInfo::Float,
        p.data == crate::bytes::le_bytes_of_u32(v),
    ensures
        spec_float_value(p) == Some(v),
{
    crate::bytes::lemma_u32_le_round_trip(v);
}

/// Integer decoding round-trips: an integer-typed property whose payload is
/// the little-endian encoding of a signed value's bit pattern decodes to
/// exactly that value.
pub proof fn lemma_int_payload_round_trip(p: PropView, c: i32)
    requires
        p.property_type == PropertyTypeInfo::Integer,
        p.data == crate::bytes::le_bytes_of_u32(spec_bits_of_i32(c)),
    ensures
        spec_int_value(p) == Some(c),
{
    crate::bytes::lemma_u32_le_round_trip(spec_bits_of_i32(c));
    assert(u32_from_le(p.data[0], p.data[1], p.data[2], p.data[3]) == spec_bits_of_i32(c));
    if c >= 0 {
        assert(spec_bits_of_i32(c) < 0x8000_0000);
    } else {
        assert(spec_bits_of_i32(c) >= 0x8000_0000);
        assert(spec_bits_of_i32(c) - 0x1_0000_0000 == c);
    }
}

/// Text decoding round-trips: a text-typed property whose payload is a
/// four-byte little-endian length prefix followed by exactly that many bytes
/// decodes to exactly those bytes.
pub proof fn lemma_string_payload_round_trip(p: PropView, s: Seq<u8>)
    requires
        p.property_type == PropertyTypeInfo::Text,
        s.len() <= u32::MAX,
        p.data == crate::bytes::le_bytes_of_u32(s.len() as u32) + s,
    ensures
        spec_string_value(p) == Some(s),
{
    let lb = crate::bytes::le_bytes_of_u32(s.len() as u32);
    assert(p.data.len() == 4 + s.len());
    assert(p.data[0] == lb[0]);
    assert(p.data[1] == lb[1]);
    assert(p.data[2] == lb[2]);
    assert(p.data[3] == lb[3]);
    crate::bytes::lemma_u32_le_round_trip(s.len() as u32);
    assert(u32_from_le(p.data[0], p.data[1], p.data[2], p.data[3]) == s.len() as u32);
    assert(p.data.subrange(4, 4 + s.len() as int) =~= s);
}

/// Reinterprets a signed 32-bit value as its unsigned bit pattern.
fn u32_of_i32(c: i32) -> (r: u32)
    ensures
        r == spec_bits_of_i32(c),
{
    if c >= 0 {
        c as u32
    } else {
        let d = (c + 0x4000_0000) + 0x4000_0000;
        d as u32 + 0x8000_0000
    }
}

} // verus!
