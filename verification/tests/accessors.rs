//! The material-level query surface: indexed lookup, traversal, first-match
//! scalar accessors, and texture-indexed accessors.

use matprops::enums::{BlendMode, ShadingMode, TextureMapMode, TextureOp, TextureType};
use matprops::material::Material;
use matprops::property::{MaterialProperty, PropertyTypeInfo};

fn prop(key: &str, ty: PropertyTypeInfo, data: Vec<u8>) -> MaterialProperty {
    MaterialProperty {
        key: key.to_string(),
        semantic: 0,
        index: 0,
        property_type: ty,
        data,
    }
}

fn tex_prop(
    key: &str,
    semantic: u32,
    index: u32,
    ty: PropertyTypeInfo,
    data: Vec<u8>,
) -> MaterialProperty {
    MaterialProperty {
        key: key.to_string(),
        semantic,
        index,
        property_type: ty,
        data,
    }
}

fn float_payload(v: f32) -> Vec<u8> {
    v.to_bits().to_le_bytes().to_vec()
}

fn int_payload(v: i32) -> Vec<u8> {
    v.to_le_bytes().to_vec()
}

fn string_payload(s: &[u8]) -> Vec<u8> {
    let mut out = (s.len() as u32).to_le_bytes().to_vec();
    out.extend_from_slice(s);
    out
}

fn color_payload(r: f32, g: f32, b: f32, a: f32) -> Vec<u8> {
    let mut out = Vec::new();
    for v in [r, g, b, a] {
        out.extend_from_slice(&v.to_bits().to_le_bytes());
    }
    out
}

#[test]
fn property_lookup_in_and_out_of_range() {
    let m = Material {
        properties: vec![
            prop("$mat.opacity", PropertyTypeInfo::Float, float_payload(0.5)),
            prop("$mat.shininess", PropertyTypeInfo::Float, float_payload(2.0)),
        ],
    };
    assert_eq!(m.num_properties(), 2);
    assert_eq!(m.property(0).unwrap().key, "$mat.opacity");
    assert_eq!(m.property(1).unwrap().key, "$mat.shininess");
    assert!(m.property(2).is_none());
    assert!(m.property(usize::MAX).is_none());
    let empty = Material { properties: vec![] };
    assert_eq!(empty.num_properties(), 0);
    assert!(empty.property(0).is_none());
}

#[test]
fn traversal_yields_each_property_in_order_and_restarts() {
    let m = Material {
        properties: vec![
            prop("$mat.opacity", PropertyTypeInfo::Float, float_payload(0.5)),
            prop("unknown", PropertyTypeInfo::Buffer, vec![]),
            prop("?mat.name", PropertyTypeInfo::Text, string_payload(b"m")),
        ],
    };
    let mut it = m.properties_iter();
    assert_eq!(it.next(&m).unwrap().key, "$mat.opacity");
    assert_eq!(it.next(&m).unwrap().key, "unknown");
    assert_eq!(it.next(&m).unwrap().key, "?mat.name");
    assert!(it.next(&m).is_none());
    assert!(it.next(&m).is_none());
    // a fresh traversal starts over
    let mut again = m.properties_iter();
    assert_eq!(again.next(&m).unwrap().key, "$mat.opacity");
}

#[test]
fn scalar_accessors_find_their_values() {
    let m = Material {
        properties: vec![
            prop("?mat.name", PropertyTypeInfo::Text, string_payload(b"brushed steel")),
            prop("$clr.diffuse", PropertyTypeInfo::Float, color_payload(0.8, 0.8, 0.9, 1.0)),
            prop("$mat.shadingm", PropertyTypeInfo::Integer, int_payload(0x3)),
            prop("$mat.twosided", PropertyTypeInfo::Integer, int_payload(0)),
            prop("$mat.wireframe", PropertyTypeInfo::Integer, int_payload(9)),
            prop("$mat.blend", PropertyTypeInfo::Integer, int_payload(0x1)),
            prop("$mat.opacity", PropertyTypeInfo::Float, float_payload(0.75)),
            prop("$mat.refracti", PropertyTypeInfo::Float, float_payload(1.45)),
        ],
    };
    assert_eq!(m.name(), Some(b"brushed steel".to_vec()));
    let c = m.diffuse_color().unwrap();
    assert_eq!(c.r, 0.8f32.to_bits());
    assert_eq!(c.a, 1.0f32.to_bits());
    assert_eq!(m.shading_model(), Some(ShadingMode::Phong));
    assert_eq!(m.two_sided(), Some(false));
    assert_eq!(m.wireframe(), Some(true));
    assert_eq!(m.blend_mode(), Some(BlendMode::Additive));
    assert_eq!(m.opacity(), Some(0.75f32.to_bits()));
    assert_eq!(m.index_of_refraction(), Some(1.45f32.to_bits()));
    // keys that are not stored yield nothing
    assert_eq!(m.shininess(), None);
    assert_eq!(m.bump_scaling(), None);
    assert_eq!(m.reflectivity(), None);
    assert_eq!(m.shininess_strength(), None);
    assert_eq!(m.global_background(), None);
    assert_eq!(m.ambient_color(), None);
    assert_eq!(m.emissive_color(), None);
    assert_eq!(m.specular_color(), None);
    assert_eq!(m.transparent_color(), None);
    assert_eq!(m.reflective_color(), None);
}

#[test]
fn first_match_wins_on_duplicate_keys() {
    let m = Material {
        properties: vec![
            prop("$mat.opacity", PropertyTypeInfo::Float, float_payload(0.25)),
            prop("$mat.opacity", PropertyTypeInfo::Float, float_payload(0.75)),
        ],
    };
    assert_eq!(m.opacity(), Some(0.25f32.to_bits()));
}

#[test]
fn undecodable_duplicate_is_skipped() {
    // the first record carries the right key but lies about its type; the
    // second decodes, and is the first match
    let m = Material {
        properties: vec![
            prop("$mat.opacity", PropertyTypeInfo::Integer, int_payload(1)),
            prop("$mat.opacity", PropertyTypeInfo::Float, float_payload(0.5)),
        ],
    };
    assert_eq!(m.opacity(), Some(0.5f32.to_bits()));
}

#[test]
fn two_diffuse_paths_yield_two_tagged_elements_in_order() {
    let m = Material {
        properties: vec![
            tex_prop("$tex.file", 0x1, 0, PropertyTypeInfo::Text, string_payload(b"a.png")),
            prop("$mat.opacity", PropertyTypeInfo::Float, float_payload(1.0)),
            tex_prop("$tex.file", 0x1, 1, PropertyTypeInfo::Text, string_payload(b"b.png")),
        ],
    };
    let paths = m.texture_path();
    assert_eq!(paths.len(), 2);
    assert_eq!(paths[0].texture_type, TextureType::Diffuse);
    assert_eq!(paths[0].index, 0);
    assert_eq!(paths[0].value, b"a.png".to_vec());
    assert_eq!(paths[1].texture_type, TextureType::Diffuse);
    assert_eq!(paths[1].index, 1);
    assert_eq!(paths[1].value, b"b.png".to_vec());
}

#[test]
fn texture_accessors_tag_with_widened_semantic() {
    let m = Material {
        properties: vec![
            tex_prop("$tex.op", 0x2, 3, PropertyTypeInfo::Integer, int_payload(0x4)),
            tex_prop("$tex.mapmodeu", 0x999, 5, PropertyTypeInfo::Integer, int_payload(0x2)),
        ],
    };
    let ops = m.texture_op();
    assert_eq!(ops.len(), 1);
    assert_eq!(ops[0].texture_type, TextureType::Specular);
    assert_eq!(ops[0].index, 3);
    assert_eq!(ops[0].value, TextureOp::SmoothAdd);
    let modes = m.texture_mapping_mode_u();
    assert_eq!(modes.len(), 1);
    assert_eq!(modes[0].texture_type, TextureType::Unknown);
    assert_eq!(modes[0].index, 5);
    assert_eq!(modes[0].value, TextureMapMode::Mirror);
}

#[test]
fn texture_accessors_keep_unsorted_slot_order() {
    // slots arrive out of order and with a gap; traversal order is kept
    let m = Material {
        properties: vec![
            tex_prop("$tex.blend", 0x1, 4, PropertyTypeInfo::Float, float_payload(0.5)),
            tex_prop("$tex.blend", 0x1, 0, PropertyTypeInfo::Float, float_payload(0.25)),
        ],
    };
    let blends = m.texture_blend();
    assert_eq!(blends.len(), 2);
    assert_eq!(blends[0].index, 4);
    assert_eq!(blends[0].value, 0.5f32.to_bits());
    assert_eq!(blends[1].index, 0);
    assert_eq!(blends[1].value, 0.25f32.to_bits());
}

#[test]
fn texture_accessors_of_different_kinds_do_not_mix() {
    let m = Material {
        properties: vec![
            tex_prop("$tex.uvwsrc", 0x1, 0, PropertyTypeInfo::Integer, int_payload(2)),
            tex_prop("$tex.flags", 0x1, 0, PropertyTypeInfo::Integer, int_payload(0x3)),
            tex_prop("$tex.mapping", 0x1, 0, PropertyTypeInfo::Integer, int_payload(0x0)),
            tex_prop("$tex.mapaxis", 0x1, 0, PropertyTypeInfo::Float, {
                let mut d = float_payload(0.0);
                d.extend(float_payload(1.0));
                d.extend(float_payload(0.0));
                d
            }),
            tex_prop("$tex.uvtrafo", 0x1, 0, PropertyTypeInfo::Float, {
                let mut d = float_payload(0.0);
                d.extend(float_payload(0.0));
                d.extend(float_payload(1.0));
                d.extend(float_payload(1.0));
                d.extend(float_payload(0.0));
                d
            }),
            tex_prop("$tex.mapmodev", 0x1, 0, PropertyTypeInfo::Integer, int_payload(0x3)),
        ],
    };
    assert_eq!(m.texture_uvw_source().len(), 1);
    assert_eq!(m.texture_uvw_source()[0].value, 2);
    assert_eq!(m.texture_flags().len(), 1);
    assert_eq!(m.texture_flags()[0].value.bits, 0x3);
    assert_eq!(m.texture_mapping().len(), 1);
    assert_eq!(m.texture_map_axis().len(), 1);
    assert_eq!(m.texture_uv_transform().len(), 1);
    assert_eq!(m.texture_mapping_mode_v().len(), 1);
    assert_eq!(m.texture_mapping_mode_v()[0].value, TextureMapMode::Decal);
    // kinds that are not stored yield nothing
    assert!(m.texture_path().is_empty());
    assert!(m.texture_op().is_empty());
    assert!(m.texture_blend().is_empty());
    assert!(m.texture_mapping_mode_u().is_empty());
}

#[test]
fn global_background_decodes() {
    let m = Material {
        properties: vec![prop(
            "?bg.global",
            PropertyTypeInfo::Text,
            string_payload(b"sky.hdr"),
        )],
    };
    assert_eq!(m.global_background(), Some(b"sky.hdr".to_vec()));
}

#[test]
fn bad_enum_code_leaves_property_undecoded() {
    // shading-model code outside the table: the property decodes to nothing,
    // so the accessor sees no match at all
    let m = Material {
        properties: vec![
            prop("$mat.shadingm", PropertyTypeInfo::Integer, int_payload(0x0)),
            prop("$mat.shadingm", PropertyTypeInfo::Integer, int_payload(0x2)),
        ],
    };
    assert_eq!(m.shading_model(), Some(ShadingMode::Gouraud));
}
