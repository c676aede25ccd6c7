//! Round-trip and failure behavior of the typed scalar decoders and the key
//! dispatcher, on concrete property records.

use matprops::material::Material;
use matprops::property::{MaterialProperty, MaterialPropertyKey, PropertyTypeInfo};

fn prop(key: &str, ty: PropertyTypeInfo, data: Vec<u8>) -> MaterialProperty {
    MaterialProperty {
        key: key.to_string(),
        semantic: 0,
        index: 0,
        property_type: ty,
        data,
    }
}

fn float_payload(values: &[f32]) -> Vec<u8> {
    let mut out = Vec::new();
    for v in values {
        out.extend_from_slice(&v.to_bits().to_le_bytes());
    }
    out
}

fn int_payload(v: i32) -> Vec<u8> {
    v.to_le_bytes().to_vec()
}

fn string_payload(s: &[u8]) -> Vec<u8> {
    let mut out = (s.len() as u32).to_le_bytes().to_vec();
    out.extend_from_slice(s);
    out
}

#[test]
fn float_decodes_bit_exact() {
    let p = prop("$mat.opacity", PropertyTypeInfo::Float, float_payload(&[0.25f32]));
    match p.key() {
        Some(MaterialPropertyKey::Opacity(bits)) => assert_eq!(bits, 0.25f32.to_bits()),
        other => panic!("expected an opacity value, got {:?}", other),
    }
}

#[test]
fn float_decode_preserves_odd_bit_patterns() {
    // a signalling NaN pattern must survive decoding unchanged
    let bits: u32 = 0x7F80_0001;
    let p = prop(
        "$mat.shininess",
        PropertyTypeInfo::Float,
        bits.to_le_bytes().to_vec(),
    );
    match p.key() {
        Some(MaterialPropertyKey::Shininess(b)) => assert_eq!(b, bits),
        other => panic!("expected a shininess value, got {:?}", other),
    }
}

#[test]
fn int_decodes_round_trip() {
    for v in [0i32, 1, -1, 42, i32::MIN, i32::MAX] {
        let p = prop("$tex.uvwsrc", PropertyTypeInfo::Integer, int_payload(v));
        match p.key() {
            Some(MaterialPropertyKey::TextureUvwSource(_, _, got)) => assert_eq!(got, v),
            other => panic!("expected a UVW source for {}, got {:?}", v, other),
        }
    }
}

#[test]
fn bool_zero_is_false() {
    let p = prop("$mat.twosided", PropertyTypeInfo::Integer, int_payload(0));
    assert_eq!(p.bool_value(), Some(false));
}

#[test]
fn bool_nonzero_is_true() {
    for v in [1i32, 2, 100, -1, -42, i32::MIN, i32::MAX] {
        let p = prop("$mat.twosided", PropertyTypeInfo::Integer, int_payload(v));
        assert_eq!(p.bool_value(), Some(true), "code {}", v);
    }
}

#[test]
fn bool_of_float_typed_property_is_no_value() {
    let p = prop("$mat.twosided", PropertyTypeInfo::Float, int_payload(1));
    assert_eq!(p.bool_value(), None);
}

#[test]
fn string_decodes_byte_exact() {
    let p = prop("?mat.name", PropertyTypeInfo::Text, string_payload(b"wood_oak"));
    match p.key() {
        Some(MaterialPropertyKey::Name(bytes)) => assert_eq!(bytes, b"wood_oak".to_vec()),
        other => panic!("expected a name, got {:?}", other),
    }
}

#[test]
fn string_with_trailing_bytes_takes_prefixed_length() {
    // a NUL terminator after the prefixed bytes is ignored
    let mut data = string_payload(b"abc");
    data.push(0);
    let p = prop("?mat.name", PropertyTypeInfo::Text, data);
    match p.key() {
        Some(MaterialPropertyKey::Name(bytes)) => assert_eq!(bytes, b"abc".to_vec()),
        other => panic!("expected a name, got {:?}", other),
    }
}

#[test]
fn string_with_lying_length_prefix_is_no_value() {
    // prefix says 10 bytes, only 3 follow
    let mut data = 10u32.to_le_bytes().to_vec();
    data.extend_from_slice(b"abc");
    let p = prop("?mat.name", PropertyTypeInfo::Text, data);
    assert_eq!(p.key(), None);
}

#[test]
fn vector_decodes_three_floats() {
    let p = prop(
        "$tex.mapaxis",
        PropertyTypeInfo::Float,
        float_payload(&[1.0, -2.5, 0.125]),
    );
    match p.key() {
        Some(MaterialPropertyKey::TextureMapAxis(_, _, v)) => {
            assert_eq!(v.x, 1.0f32.to_bits());
            assert_eq!(v.y, (-2.5f32).to_bits());
            assert_eq!(v.z, 0.125f32.to_bits());
        },
        other => panic!("expected a map axis, got {:?}", other),
    }
}

#[test]
fn color_decodes_four_floats() {
    let p = prop(
        "$clr.diffuse",
        PropertyTypeInfo::Float,
        float_payload(&[0.1, 0.2, 0.3, 1.0]),
    );
    match p.key() {
        Some(MaterialPropertyKey::DiffuseColor(c)) => {
            assert_eq!(c.r, 0.1f32.to_bits());
            assert_eq!(c.g, 0.2f32.to_bits());
            assert_eq!(c.b, 0.3f32.to_bits());
            assert_eq!(c.a, 1.0f32.to_bits());
        },
        other => panic!("expected a diffuse color, got {:?}", other),
    }
}

#[test]
fn uv_transform_decodes_five_floats() {
    let p = prop(
        "$tex.uvtrafo",
        PropertyTypeInfo::Float,
        float_payload(&[0.0, 1.0, 2.0, 3.0, 0.5]),
    );
    match p.key() {
        Some(MaterialPropertyKey::TextureUvTransform(_, _, t)) => {
            assert_eq!(t.translation_u, 0.0f32.to_bits());
            assert_eq!(t.translation_v, 1.0f32.to_bits());
            assert_eq!(t.scaling_u, 2.0f32.to_bits());
            assert_eq!(t.scaling_v, 3.0f32.to_bits());
            assert_eq!(t.rotation, 0.5f32.to_bits());
        },
        other => panic!("expected a UV transform, got {:?}", other),
    }
}

#[test]
fn short_payload_is_no_value() {
    // three bytes cannot hold a float
    let p = prop("$mat.opacity", PropertyTypeInfo::Float, vec![0, 0, 0]);
    assert_eq!(p.key(), None);
    // eleven bytes cannot hold a 3-vector
    let p = prop("$tex.mapaxis", PropertyTypeInfo::Float, vec![0; 11]);
    assert_eq!(p.key(), None);
    // fifteen bytes cannot hold an RGBA color
    let p = prop("$clr.diffuse", PropertyTypeInfo::Float, vec![0; 15]);
    assert_eq!(p.key(), None);
    // nineteen bytes cannot hold a UV transform
    let p = prop("$tex.uvtrafo", PropertyTypeInfo::Float, vec![0; 19]);
    assert_eq!(p.key(), None);
    // three bytes cannot hold a length prefix
    let p = prop("?mat.name", PropertyTypeInfo::Text, vec![0, 0, 0]);
    assert_eq!(p.key(), None);
}

#[test]
fn mismatched_declared_type_is_no_value_for_every_key() {
    // every recognized key, with plausible payload bytes but the wrong tag
    let cases: &[(&str, PropertyTypeInfo)] = &[
        ("?bg.global", PropertyTypeInfo::Text),
        ("$clr.diffuse", PropertyTypeInfo::Float),
        ("$clr.specular", PropertyTypeInfo::Float),
        ("$clr.ambient", PropertyTypeInfo::Float),
        ("$clr.emissive", PropertyTypeInfo::Float),
        ("$clr.transparent", PropertyTypeInfo::Float),
        ("$clr.reflective", PropertyTypeInfo::Float),
        ("?mat.name", PropertyTypeInfo::Text),
        ("$mat.shadingm", PropertyTypeInfo::Integer),
        ("$mat.twosided", PropertyTypeInfo::Integer),
        ("$mat.wireframe", PropertyTypeInfo::Integer),
        ("$mat.blend", PropertyTypeInfo::Integer),
        ("$mat.opacity", PropertyTypeInfo::Float),
        ("$mat.bumpscaling", PropertyTypeInfo::Float),
        ("$mat.shininess", PropertyTypeInfo::Float),
        ("$mat.reflectivity", PropertyTypeInfo::Float),
        ("$mat.shinpercent", PropertyTypeInfo::Float),
        ("$mat.refracti", PropertyTypeInfo::Float),
        ("$tex.file", PropertyTypeInfo::Text),
        ("$tex.uvwsrc", PropertyTypeInfo::Integer),
        ("$tex.op", PropertyTypeInfo::Integer),
        ("$tex.mapping", PropertyTypeInfo::Integer),
        ("$tex.blend", PropertyTypeInfo::Float),
        ("$tex.mapmodeu", PropertyTypeInfo::Integer),
        ("$tex.mapmodev", PropertyTypeInfo::Integer),
        ("$tex.mapaxis", PropertyTypeInfo::Float),
        ("$tex.uvtrafo", PropertyTypeInfo::Float),
        ("$tex.flags", PropertyTypeInfo::Integer),
    ];
    let wrong = [
        PropertyTypeInfo::Float,
        PropertyTypeInfo::Integer,
        PropertyTypeInfo::Text,
        PropertyTypeInfo::Buffer,
    ];
    for (key, expected) in cases {
        for ty in wrong {
            if ty == *expected {
                continue;
            }
            // payload long enough for any shape, with a valid length prefix
            let mut data = string_payload(b"abcd");
            data.extend_from_slice(&[0u8; 24]);
            let p = prop(key, ty, data);
            assert_eq!(p.key(), None, "key {} with tag {:?}", key, ty);
        }
    }
}

#[test]
fn unrecognized_key_is_no_value() {
    for key in ["", "$mat.unknown", "$MAT.OPACITY", "mat.opacity", "$mat.opacity ", "?opacity"] {
        for ty in [
            PropertyTypeInfo::Float,
            PropertyTypeInfo::Integer,
            PropertyTypeInfo::Text,
            PropertyTypeInfo::Buffer,
        ] {
            let p = prop(key, ty, string_payload(b"abcd"));
            assert_eq!(p.key(), None, "key {:?} with tag {:?}", key, ty);
        }
    }
}

#[test]
fn key_equality_is_payload_insensitive() {
    let a = prop("$mat.opacity", PropertyTypeInfo::Float, float_payload(&[0.25]))
        .key()
        .unwrap();
    let b = prop("$mat.opacity", PropertyTypeInfo::Float, float_payload(&[0.75]))
        .key()
        .unwrap();
    let c = prop("$mat.shininess", PropertyTypeInfo::Float, float_payload(&[0.25]))
        .key()
        .unwrap();
    assert!(a == b, "same variant counts as equal whatever the payload");
    assert!(a != c, "different variants are not equal");
}

#[test]
fn index_and_data_type_are_exposed() {
    let mut p = prop("$tex.file", PropertyTypeInfo::Text, string_payload(b"x.png"));
    p.index = 7;
    assert_eq!(p.index(), 7);
    assert_eq!(p.data_type(), PropertyTypeInfo::Text);
    let _ = Material { properties: vec![p] };
}
