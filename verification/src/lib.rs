//! Decoding of a flat, loosely-typed material property bag (as produced by a
//! 3D asset importer) into strongly-typed, queryable values.
//!
//! A material is an unordered array of properties, each identified by a key
//! string, a semantic (texture-channel code), a slot index, a declared type
//! tag, and a raw byte payload. This crate recovers typed values from those
//! records: per-shape decoders validate the declared type tag before any
//! reinterpretation, enum tables widen raw integer codes into closed domain
//! enumerations, and a key registry dispatches each record to the decoder its
//! key implies. Floating-point payloads are represented by their IEEE 754
//! bit patterns (`u32`), so decoding is bit-exact.

pub mod bytes;
pub mod enums;
pub mod material;
pub mod property;
