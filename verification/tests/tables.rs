//! The enum widening tables: every documented valid code maps to its
//! documented variant, and each table's policy on unrecognized codes —
//! strict failure or deliberate widening — holds exactly.

use matprops::enums::{
    blend_mode_from_code, shading_mode_from_code, texture_map_mode_from_code,
    texture_mapping_from_code, texture_op_from_code, texture_type_from_raw, BlendMode,
    ShadingMode, TextureFlags, TextureMapMode, TextureMapping, TextureOp, TextureType,
    TEXTURE_FLAG_IGNORE_ALPHA, TEXTURE_FLAG_INVERT, TEXTURE_FLAG_USE_ALPHA,
};

#[test]
fn shading_mode_valid_codes() {
    assert_eq!(shading_mode_from_code(0x1), Some(ShadingMode::Flat));
    assert_eq!(shading_mode_from_code(0x2), Some(ShadingMode::Gouraud));
    assert_eq!(shading_mode_from_code(0x3), Some(ShadingMode::Phong));
    assert_eq!(shading_mode_from_code(0x4), Some(ShadingMode::Blinn));
    assert_eq!(shading_mode_from_code(0x5), Some(ShadingMode::Toon));
    assert_eq!(shading_mode_from_code(0x6), Some(ShadingMode::OrenNayar));
    assert_eq!(shading_mode_from_code(0x7), Some(ShadingMode::Minnaert));
    assert_eq!(shading_mode_from_code(0x8), Some(ShadingMode::CookTorrance));
    assert_eq!(shading_mode_from_code(0x9), Some(ShadingMode::NoShading));
    assert_eq!(shading_mode_from_code(0xA), Some(ShadingMode::Fresnel));
}

#[test]
fn shading_mode_is_strict_outside_range() {
    for code in [0x0, 0xB, 0x10, -1, i32::MIN, i32::MAX] {
        assert_eq!(shading_mode_from_code(code), None, "code {}", code);
    }
}

#[test]
fn blend_mode_widens_everything_but_additive() {
    assert_eq!(blend_mode_from_code(0x1), Some(BlendMode::Additive));
    for code in [0x0, 0x2, 0x3, 100, -1, i32::MIN, i32::MAX] {
        assert_eq!(blend_mode_from_code(code), Some(BlendMode::Default), "code {}", code);
    }
}

#[test]
fn texture_op_valid_codes() {
    assert_eq!(texture_op_from_code(0x0), Some(TextureOp::Multiply));
    assert_eq!(texture_op_from_code(0x1), Some(TextureOp::Add));
    assert_eq!(texture_op_from_code(0x2), Some(TextureOp::Subtract));
    assert_eq!(texture_op_from_code(0x3), Some(TextureOp::Divide));
    assert_eq!(texture_op_from_code(0x4), Some(TextureOp::SmoothAdd));
    assert_eq!(texture_op_from_code(0x5), Some(TextureOp::SignedAdd));
}

#[test]
fn texture_op_is_strict_outside_range() {
    for code in [0x6, 0x10, -1, i32::MIN, i32::MAX] {
        assert_eq!(texture_op_from_code(code), None, "code {}", code);
    }
}

#[test]
fn texture_mapping_valid_codes() {
    assert_eq!(texture_mapping_from_code(0x0), Some(TextureMapping::UV));
    assert_eq!(texture_mapping_from_code(0x1), Some(TextureMapping::Sphere));
    assert_eq!(texture_mapping_from_code(0x2), Some(TextureMapping::Cylinder));
    assert_eq!(texture_mapping_from_code(0x3), Some(TextureMapping::Cube));
    assert_eq!(texture_mapping_from_code(0x4), Some(TextureMapping::Plane));
    assert_eq!(texture_mapping_from_code(0x5), Some(TextureMapping::Other));
}

#[test]
fn texture_mapping_is_strict_outside_range() {
    for code in [0x6, 0x42, -1, i32::MIN] {
        assert_eq!(texture_mapping_from_code(code), None, "code {}", code);
    }
}

#[test]
fn texture_map_mode_valid_codes() {
    assert_eq!(texture_map_mode_from_code(0x0), Some(TextureMapMode::Wrap));
    assert_eq!(texture_map_mode_from_code(0x1), Some(TextureMapMode::Clamp));
    assert_eq!(texture_map_mode_from_code(0x2), Some(TextureMapMode::Mirror));
    assert_eq!(texture_map_mode_from_code(0x3), Some(TextureMapMode::Decal));
}

#[test]
fn texture_map_mode_is_strict_outside_range() {
    for code in [0x4, 0x100, -1, i32::MIN] {
        assert_eq!(texture_map_mode_from_code(code), None, "code {}", code);
    }
}

#[test]
fn texture_type_valid_codes() {
    assert_eq!(texture_type_from_raw(0x0), TextureType::NoChannel);
    assert_eq!(texture_type_from_raw(0x1), TextureType::Diffuse);
    assert_eq!(texture_type_from_raw(0x2), TextureType::Specular);
    assert_eq!(texture_type_from_raw(0x3), TextureType::Ambient);
    assert_eq!(texture_type_from_raw(0x4), TextureType::Emissive);
    assert_eq!(texture_type_from_raw(0x5), TextureType::Height);
    assert_eq!(texture_type_from_raw(0x6), TextureType::Normals);
    assert_eq!(texture_type_from_raw(0x7), TextureType::Shininess);
    assert_eq!(texture_type_from_raw(0x8), TextureType::Opacity);
    assert_eq!(texture_type_from_raw(0x9), TextureType::Displacement);
    assert_eq!(texture_type_from_raw(0xA), TextureType::Lightmap);
    assert_eq!(texture_type_from_raw(0xB), TextureType::Reflection);
}

#[test]
fn texture_type_widens_outside_range() {
    for code in [0xC, 0xD, 0x100, u32::MAX] {
        assert_eq!(texture_type_from_raw(code), TextureType::Unknown, "code {}", code);
    }
}

#[test]
fn texture_flags_accepts_documented_bits() {
    for bits in 0u32..=7 {
        assert_eq!(TextureFlags::from_bits(bits), Some(TextureFlags { bits }), "bits {}", bits);
    }
    let all = TEXTURE_FLAG_INVERT | TEXTURE_FLAG_USE_ALPHA | TEXTURE_FLAG_IGNORE_ALPHA;
    assert_eq!(TextureFlags::from_bits(all), Some(TextureFlags { bits: all }));
}

#[test]
fn texture_flags_rejects_unknown_bits() {
    for bits in [0x8u32, 0x9, 0x10, 0x100, u32::MAX] {
        assert_eq!(TextureFlags::from_bits(bits), None, "bits {:#x}", bits);
    }
}
