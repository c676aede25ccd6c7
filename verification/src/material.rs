//! The aggregate over one material's property array: count, indexed lookup,
//! forward-only traversal, and the convenience accessors.
//!
//! A scalar accessor scans the properties in traversal order, dispatches
//! each through the key registry, and returns the first decoded value of its
//! kind: duplicate keys are not merged, first match wins. A texture-indexed
//! accessor instead collects every decoded value of its kind, one element
//! per stored property, each tagged with its own (texture type, slot index),
//! in traversal order.
//!
//! This is a stateless query layer over an immutable snapshot: every
//! operation only reads.

use vstd::prelude::*;

use crate::enums::{
    BlendMode, ShadingMode, TextureFlags, TextureMapMode, TextureMapping, TextureOp, TextureType,
};
use crate::property::{
    kind_of, spec_key, Color4, KeyView, MaterialProperty, MaterialPropertyKey, PropView,
    RegistryEntry, UvTransform, Vector3,
};

verus! {

/// The aggregate of properties describing how a surface is rendered: a flat,
/// unordered array of property records.
#[derive(Clone, Debug)]
pub struct Material {
    /// The stored property records, in the order they were produced.
    pub properties: Vec<MaterialProperty>,
}

impl View for Material {
    type V = Seq<PropView>;

    open spec fn view(&self) -> Seq<PropView> {
        self.properties.deep_view()
    }
}

impl DeepView for Material {
    type V = Seq<PropView>;

    open spec fn deep_view(&self) -> Seq<PropView> {
        self.view()
    }
}

/// A decoded value carrying texture-slot metadata: which texture channel it
/// belongs to and which slot distinguishes it from other textures of the
/// same channel.
#[derive(Clone, Copy, Debug)]
pub struct TextureValue<U> {
    /// The texture channel the value belongs to.
    pub texture_type: TextureType,
    /// The slot index distinguishing multiple textures of one channel.
    pub index: u32,
    /// The decoded value itself.
    pub value: U,
}

/// The mathematical model of a [`TextureValue`].
#[verifier::ext_equal]
pub struct TextureValueView<W> {
    pub texture_type: TextureType,
    pub index: u32,
    pub value: W,
}

impl<U: DeepView> DeepView for TextureValue<U> {
    type V = TextureValueView<<U as DeepView>::V>;

    open spec fn deep_view(&self) -> Self::V {
        TextureValueView {
            texture_type: self.texture_type,
            index: self.index,
            value: self.value.deep_view(),
        }
    }
}

/// A forward-only cursor over a material's property array. A fresh
/// traversal can be started at any time with
/// [`Material::properties_iter`]; the cursor only holds a position.
#[derive(Clone, Copy, Debug)]
pub struct MaterialPropertyIter {
    /// The position of the next property to yield.
    pub pos: usize,
}

impl MaterialPropertyIter {
    /// Yields the property at the cursor and advances, or yields nothing
    /// and stays put once the array is exhausted.
    pub fn next<'a>(&mut self, mat: &'a Material) -> (r: Option<&'a MaterialProperty>)
        ensures
            old(self).pos < mat@.len() ==> (r matches Some(p) && p@ == mat@[old(self).pos as int]
                && final(self).pos == old(self).pos + 1),
            old(self).pos >= mat@.len() ==> r is None && final(self).pos == old(self).pos,
    {
        if self.pos < mat.properties.len() {
            let p = &mat.properties[self.pos];
            self.pos = self.pos + 1;
            Some(p)
        } else {
            None
        }
    }
}

/// The first decoded value of the given kind among the properties, in
/// traversal order; nothing when no property decodes to that kind.
pub open spec fn spec_first_key(props: Seq<PropView>, e: RegistryEntry) -> Option<KeyView>
    decreases props.len(),
{
    if props.len() == 0 {
        None
    } else {
        match spec_key(props[0]) {
            Some(k) => if kind_of(k) == e {
                Some(k)
            } else {
                spec_first_key(props.skip(1), e)
            },
            None => spec_first_key(props.skip(1), e),
        }
    }
}

impl Material {
    /// Every slot of the property array fits the 32-bit count exposed by
    /// [`Material::num_properties`].
    pub open spec fn wf(&self) -> bool {
        self.properties.len() <= u32::MAX
    }

    /// The number of stored properties.
    pub fn num_properties(&self) -> (r: u32)
        requires
            self.wf(),
        ensures
            r == self@.len(),
    {
        self.properties.len() as u32
    }

    /// Starts a fresh traversal over the property array.
    pub fn properties_iter(&self) -> (r: MaterialPropertyIter)
        ensures
            r.pos == 0,
    {
        MaterialPropertyIter { pos: 0 }
    }

    /// Indexed lookup: the property at position `id` in traversal order, or
    /// nothing when `id` is out of range.
    pub fn property(&self, id: usize) -> (r: Option<&MaterialProperty>)
        ensures
            id < self@.len() ==> (r matches Some(p) && p@ == self@[id as int]),
            id >= self@.len() ==> r is None,
    {
        if id < self.properties.len() {
            Some(&self.properties[id])
        } else {
            None
        }
    }

    /// Scans the properties in traversal order and returns the first that
    /// decodes to the given kind's variant: duplicate keys are not merged,
    /// first match wins.
    pub fn first_key_of(&self, e: RegistryEntry) -> (r: Option<MaterialPropertyKey>)
        ensures
            r.deep_view() == spec_first_key(self@, e),
    {
        let n = self.properties.len();
        let mut i: usize = 0;
        proof {
            assert(self@.skip(0) =~= self@);
        }
        while i < n
            invariant
                n == self.properties.len(),
                i <= n,
                spec_first_key(self@, e) == spec_first_key(self@.skip(i as int), e),
            decreases n - i,
        {
            proof {
                assert(self@.skip(i as int)[0] == self@[i as int]);
                assert(self@.skip(i as int).skip(1) =~= self@.skip(i as int + 1));
            }
            match self.properties[i].key() {
                Some(v) => {
                    if v.kind() == e {
                        return Some(v);
                    }
                },
                None => {},
            }
            i = i + 1;
        }
        proof {
            assert(self@.skip(n as int).len() == 0);
        }
        None
    }
}

/// The first global background texture or color decoded from the properties, in traversal order.
pub open spec fn spec_global_background(props: Seq<PropView>) -> Option<Seq<u8>> {
    match spec_first_key(props, RegistryEntry::GlobalBackground) {
        Some(KeyView::GlobalBackground(v)) => Some(v),
        _ => None,
    }
}

/// The first diffuse color decoded from the properties, in traversal order.
pub open spec fn spec_diffuse_color(props: Seq<PropView>) -> Option<Color4> {
    match spec_first_key(props, RegistryEntry::DiffuseColor) {
        Some(KeyView::DiffuseColor(v)) => Some(v),
        _ => None,
    }
}

/// The first ambient color decoded from the properties, in traversal order.
pub open spec fn spec_ambient_color(props: Seq<PropView>) -> Option<Color4> {
    match spec_first_key(props, RegistryEntry::AmbientColor) {
        Some(KeyView::AmbientColor(v)) => Some(v),
        _ => None,
    }
}

/// The first emissive color decoded from the properties, in traversal order.
pub open spec fn spec_emissive_color(props: Seq<PropView>) -> Option<Color4> {
    match spec_first_key(props, RegistryEntry::EmissiveColor) {
        Some(KeyView::EmissiveColor(v)) => Some(v),
        _ => None,
    }
}

/// The first specular color decoded from the properties, in traversal order.
pub open spec fn spec_specular_color(props: Seq<PropView>) -> Option<Color4> {
    match spec_first_key(props, RegistryEntry::SpecularColor) {
        Some(KeyView::SpecularColor(v)) => Some(v),
        _ => None,
    }
}

/// The first transparent color decoded from the properties, in traversal order.
pub open spec fn spec_transparent_color(props: Seq<PropView>) -> Option<Color4> {
    match spec_first_key(props, RegistryEntry::TransparentColor) {
        Some(KeyView::TransparentColor(v)) => Some(v),
        _ => None,
    }
}

/// The first reflective color decoded from the properties, in traversal order.
pub open spec fn spec_reflective_color(props: Seq<PropView>) -> Option<Color4> {
    match spec_first_key(props, RegistryEntry::ReflectiveColor) {
        Some(KeyView::ReflectiveColor(v)) => Some(v),
        _ => None,
    }
}

/// The first material name decoded from the properties, in traversal order.
pub open spec fn spec_name(props: Seq<PropView>) -> Option<Seq<u8>> {
    match spec_first_key(props, RegistryEntry::Name) {
        Some(KeyView::Name(v)) => Some(v),
        _ => None,
    }
}

/// The first shading model decoded from the properties, in traversal order.
pub open spec fn spec_shading_model(props: Seq<PropView>) -> Option<ShadingMode> {
    match spec_first_key(props, RegistryEntry::ShadingModel) {
        Some(KeyView::ShadingModel(v)) => Some(v),
        _ => None,
    }
}

/// The first two-sided flag decoded from the properties, in traversal order.
pub open spec fn spec_two_sided(props: Seq<PropView>) -> Option<bool> {
    match spec_first_key(props, RegistryEntry::TwoSided) {
        Some(KeyView::TwoSided(v)) => Some(v),
        _ => None,
    }
}

/// The first wireframe flag decoded from the properties, in traversal order.
pub open spec fn spec_wireframe(props: Seq<PropView>) -> Option<bool> {
    match spec_first_key(props, RegistryEntry::Wireframe) {
        Some(KeyView::Wireframe(v)) => Some(v),
        _ => None,
    }
}

/// The first blend mode decoded from the properties, in traversal order.
pub open spec fn spec_blend_mode(props: Seq<PropView>) -> Option<BlendMode> {
    match spec_first_key(props, RegistryEntry::BlendMode) {
        Some(KeyView::BlendMode(v)) => Some(v),
        _ => None,
    }
}

/// The first opacity (as a float bit pattern) decoded from the properties, in traversal order.
pub open spec fn spec_opacity(props: Seq<PropView>) -> Option<u32> {
    match spec_first_key(props, RegistryEntry::Opacity) {
        Some(KeyView::Opacity(v)) => Some(v),
        _ => None,
    }
}

/// The first bump scaling (as a float bit pattern) decoded from the properties, in traversal order.
pub open spec fn spec_bump_scaling(props: Seq<PropView>) -> Option<u32> {
    match spec_first_key(props, RegistryEntry::BumpScaling) {
        Some(KeyView::BumpScaling(v)) => Some(v),
        _ => None,
    }
}

/// The first shininess (as a float bit pattern) decoded from the properties, in traversal order.
pub open spec fn spec_shininess(props: Seq<PropView>) -> Option<u32> {
    match spec_first_key(props, RegistryEntry::Shininess) {
        Some(KeyView::Shininess(v)) => Some(v),
        _ => None,
    }
}

/// The first reflectivity (as a float bit pattern) decoded from the properties, in traversal order.
pub open spec fn spec_reflectivity(props: Seq<PropView>) -> Option<u32> {
    match spec_first_key(props, RegistryEntry::Reflectivity) {
        Some(KeyView::Reflectivity(v)) => Some(v),
        _ => None,
    }
}

/// The first shininess strength (as a float bit pattern) decoded from the properties, in traversal order.
pub open spec fn spec_shininess_strength(props: Seq<PropView>) -> Option<u32> {
    match spec_first_key(props, RegistryEntry::ShininessStrength) {
        Some(KeyView::ShininessStrength(v)) => Some(v),
        _ => None,
    }
}

/// The first index of refraction (as a float bit pattern) decoded from the properties, in traversal order.
pub open spec fn spec_index_of_refraction(props: Seq<PropView>) -> Option<u32> {
    match spec_first_key(props, RegistryEntry::IndexOfRefraction) {
        Some(KeyView::IndexOfRefraction(v)) => Some(v),
        _ => None,
    }
}

impl Material {
    /// The first global background texture or color stored in the material, in traversal order;
    /// duplicate keys are not merged, first match wins.
    pub fn global_background(&self) -> (r: Option<Vec<u8>>)
        ensures
            r.deep_view() == spec_global_background(self@),
    {
        match self.first_key_of(RegistryEntry::GlobalBackground) {
            Some(MaterialPropertyKey::GlobalBackground(v)) => Some(v),
            _ => None,
        }
    }

    /// The first diffuse color stored in the material, in traversal order;
    /// duplicate keys are not merged, first match wins.
    pub fn diffuse_color(&self) -> (r: Option<Color4>)
        ensures
            r == spec_diffuse_color(self@),
    {
        match self.first_key_of(RegistryEntry::DiffuseColor) {
            Some(MaterialPropertyKey::DiffuseColor(v)) => Some(v),
            _ => None,
        }
    }

    /// The first ambient color stored in the material, in traversal order;
    /// duplicate keys are not merged, first match wins.
    pub fn ambient_color(&self) -> (r: Option<Color4>)
        ensures
            r == spec_ambient_color(self@),
    {
        match self.first_key_of(RegistryEntry::AmbientColor) {
            Some(MaterialPropertyKey::AmbientColor(v)) => Some(v),
            _ => None,
        }
    }

    /// The first emissive color stored in the material, in traversal order;
    /// duplicate keys are not merged, first match wins.
    pub fn emissive_color(&self) -> (r: Option<Color4>)
        ensures
            r == spec_emissive_color(self@),
    {
        match self.first_key_of(RegistryEntry::EmissiveColor) {
            Some(MaterialPropertyKey::EmissiveColor(v)) => Some(v),
            _ => None,
        }
    }

    /// The first specular color stored in the material, in traversal order;
    /// duplicate keys are not merged, first match wins.
    pub fn specular_color(&self) -> (r: Option<Color4>)
        ensures
            r == spec_specular_color(self@),
    {
        match self.first_key_of(RegistryEntry::SpecularColor) {
            Some(MaterialPropertyKey::SpecularColor(v)) => Some(v),
            _ => None,
        }
    }

    /// The first transparent color stored in the material, in traversal order;
    /// duplicate keys are not merged, first match wins.
    pub fn transparent_color(&self) -> (r: Option<Color4>)
        ensures
            r == spec_transparent_color(self@),
    {
        match self.first_key_of(RegistryEntry::TransparentColor) {
            Some(MaterialPropertyKey::TransparentColor(v)) => Some(v),
            _ => None,
        }
    }

    /// The first reflective color stored in the material, in traversal order;
    /// duplicate keys are not merged, first match wins.
    pub fn reflective_color(&self) -> (r: Option<Color4>)
        ensures
            r == spec_reflective_color(self@),
    {
        match self.first_key_of(RegistryEntry::ReflectiveColor) {
            Some(MaterialPropertyKey::ReflectiveColor(v)) => Some(v),
            _ => None,
        }
    }

    /// The first material name stored in the material, in traversal order;
    /// duplicate keys are not merged, first match wins.
    pub fn name(&self) -> (r: Option<Vec<u8>>)
        ensures
            r.deep_view() == spec_name(self@),
    {
        match self.first_key_of(RegistryEntry::Name) {
            Some(MaterialPropertyKey::Name(v)) => Some(v),
            _ => None,
        }
    }

    /// The first shading model stored in the material, in traversal order;
    /// duplicate keys are not merged, first match wins.
    pub fn shading_model(&self) -> (r: Option<ShadingMode>)
        ensures
            r == spec_shading_model(self@),
    {
        match self.first_key_of(RegistryEntry::ShadingModel) {
            Some(MaterialPropertyKey::ShadingModel(v)) => Some(v),
            _ => None,
        }
    }

    /// The first two-sided flag stored in the material, in traversal order;
    /// duplicate keys are not merged, first match wins.
    pub fn two_sided(&self) -> (r: Option<bool>)
        ensures
            r == spec_two_sided(self@),
    {
        match self.first_key_of(RegistryEntry::TwoSided) {
            Some(MaterialPropertyKey::TwoSided(v)) => Some(v),
            _ => None,
        }
    }

    /// The first wireframe flag stored in the material, in traversal order;
    /// duplicate keys are not merged, first match wins.
    pub fn wireframe(&self) -> (r: Option<bool>)
        ensures
            r == spec_wireframe(self@),
    {
        match self.first_key_of(RegistryEntry::Wireframe) {
            Some(MaterialPropertyKey::Wireframe(v)) => Some(v),
            _ => None,
        }
    }

    /// The first blend mode stored in the material, in traversal order;
    /// duplicate keys are not merged, first match wins.
    pub fn blend_mode(&self) -> (r: Option<BlendMode>)
        ensures
            r == spec_blend_mode(self@),
    {
        match self.first_key_of(RegistryEntry::BlendMode) {
            Some(MaterialPropertyKey::BlendMode(v)) => Some(v),
            _ => None,
        }
    }

    /// The first opacity (as a float bit pattern) stored in the material, in traversal order;
    /// duplicate keys are not merged, first match wins.
    pub fn opacity(&self) -> (r: Option<u32>)
        ensures
            r == spec_opacity(self@),
    {
        match self.first_key_of(RegistryEntry::Opacity) {
            Some(MaterialPropertyKey::Opacity(v)) => Some(v),
            _ => None,
        }
    }

    /// The first bump scaling (as a float bit pattern) stored in the material, in traversal order;
    /// duplicate keys are not merged, first match wins.
    pub fn bump_scaling(&self) -> (r: Option<u32>)
        ensures
            r == spec_bump_scaling(self@),
    {
        match self.first_key_of(RegistryEntry::BumpScaling) {
            Some(MaterialPropertyKey::BumpScaling(v)) => Some(v),
            _ => None,
        }
    }

    /// The first shininess (as a float bit pattern) stored in the material, in traversal order;
    /// duplicate keys are not merged, first match wins.
    pub fn shininess(&self) -> (r: Option<u32>)
        ensures
            r == spec_shininess(self@),
    {
        match self.first_key_of(RegistryEntry::Shininess) {
            Some(MaterialPropertyKey::Shininess(v)) => Some(v),
            _ => None,
        }
    }

    /// The first reflectivity (as a float bit pattern) stored in the material, in traversal order;
    /// duplicate keys are not merged, first match wins.
    pub fn reflectivity(&self) -> (r: Option<u32>)
        ensures
            r == spec_reflectivity(self@),
    {
        match self.first_key_of(RegistryEntry::Reflectivity) {
            Some(MaterialPropertyKey::Reflectivity(v)) => Some(v),
            _ => None,
        }
    }

    /// The first shininess strength (as a float bit pattern) stored in the material, in traversal order;
    /// duplicate keys are not merged, first match wins.
    pub fn shininess_strength(&self) -> (r: Option<u32>)
        ensures
            r == spec_shininess_strength(self@),
    {
        match self.first_key_of(RegistryEntry::ShininessStrength) {
            Some(MaterialPropertyKey::ShininessStrength(v)) => Some(v),
            _ => None,
        }
    }

    /// The first index of refraction (as a float bit pattern) stored in the material, in traversal order;
    /// duplicate keys are not merged, first match wins.
    pub fn index_of_refraction(&self) -> (r: Option<u32>)
        ensures
            r == spec_index_of_refraction(self@),
    {
        match self.first_key_of(RegistryEntry::IndexOfRefraction) {
            Some(MaterialPropertyKey::IndexOfRefraction(v)) => Some(v),
            _ => None,
        }
    }
}

/// Every texture path decoded from the properties: one element per matching
/// property, each tagged with its own (texture type, slot index), in
/// traversal order.
pub open spec fn spec_texture_paths(props: Seq<PropView>) -> Seq<TextureValueView<Seq<u8>>>
    decreases props.len(),
{
    if props.len() == 0 {
        Seq::empty()
    } else {
        let rest = spec_texture_paths(props.drop_last());
        match spec_key(props.last()) {
            Some(KeyView::TexturePath(t, i, v)) => rest.push(
                (TextureValueView { texture_type: t, index: i, value: v }),
            ),
            _ => rest,
        }
    }
}

/// Every texture UVW-source channel decoded from the properties: one element per matching
/// property, each tagged with its own (texture type, slot index), in
/// traversal order.
pub open spec fn spec_texture_uvw_sources(props: Seq<PropView>) -> Seq<TextureValueView<i32>>
    decreases props.len(),
{
    if props.len() == 0 {
        Seq::empty()
    } else {
        let rest = spec_texture_uvw_sources(props.drop_last());
        match spec_key(props.last()) {
            Some(KeyView::TextureUvwSource(t, i, v)) => rest.push(
                (TextureValueView { texture_type: t, index: i, value: v }),
            ),
            _ => rest,
        }
    }
}

/// Every texture operation decoded from the properties: one element per matching
/// property, each tagged with its own (texture type, slot index), in
/// traversal order.
pub open spec fn spec_texture_ops(props: Seq<PropView>) -> Seq<TextureValueView<TextureOp>>
    decreases props.len(),
{
    if props.len() == 0 {
        Seq::empty()
    } else {
        let rest = spec_texture_ops(props.drop_last());
        match spec_key(props.last()) {
            Some(KeyView::TextureOp(t, i, v)) => rest.push(
                (TextureValueView { texture_type: t, index: i, value: v }),
            ),
            _ => rest,
        }
    }
}

/// Every texture mapping decoded from the properties: one element per matching
/// property, each tagged with its own (texture type, slot index), in
/// traversal order.
pub open spec fn spec_texture_mappings(props: Seq<PropView>) -> Seq<TextureValueView<TextureMapping>>
    decreases props.len(),
{
    if props.len() == 0 {
        Seq::empty()
    } else {
        let rest = spec_texture_mappings(props.drop_last());
        match spec_key(props.last()) {
            Some(KeyView::TextureMapping(t, i, v)) => rest.push(
                (TextureValueView { texture_type: t, index: i, value: v }),
            ),
            _ => rest,
        }
    }
}

/// Every texture blend factor (as a float bit pattern) decoded from the properties: one element per matching
/// property, each tagged with its own (texture type, slot index), in
/// traversal order.
pub open spec fn spec_texture_blends(props: Seq<PropView>) -> Seq<TextureValueView<u32>>
    decreases props.len(),
{
    if props.len() == 0 {
        Seq::empty()
    } else {
        let rest = spec_texture_blends(props.drop_last());
        match spec_key(props.last()) {
            Some(KeyView::TextureBlend(t, i, v)) => rest.push(
                (TextureValueView { texture_type: t, index: i, value: v }),
            ),
            _ => rest,
        }
    }
}

/// Every texture map mode along U decoded from the properties: one element per matching
/// property, each tagged with its own (texture type, slot index), in
/// traversal order.
pub open spec fn spec_texture_mapping_modes_u(props: Seq<PropView>) -> Seq<TextureValueView<TextureMapMode>>
    decreases props.len(),
{
    if props.len() == 0 {
        Seq::empty()
    } else {
        let rest = spec_texture_mapping_modes_u(props.drop_last());
        match spec_key(props.last()) {
            Some(KeyView::TextureMappingModeU(t, i, v)) => rest.push(
                (TextureValueView { texture_type: t, index: i, value: v }),
            ),
            _ => rest,
        }
    }
}

/// Every texture map mode along V decoded from the properties: one element per matching
/// property, each tagged with its own (texture type, slot index), in
/// traversal order.
pub open spec fn spec_texture_mapping_modes_v(props: Seq<PropView>) -> Seq<TextureValueView<TextureMapMode>>
    decreases props.len(),
{
    if props.len() == 0 {
        Seq::empty()
    } else {
        let rest = spec_texture_mapping_modes_v(props.drop_last());
        match spec_key(props.last()) {
            Some(KeyView::TextureMappingModeV(t, i, v)) => rest.push(
                (TextureValueView { texture_type: t, index: i, value: v }),
            ),
            _ => rest,
        }
    }
}

/// Every texture map axis decoded from the properties: one element per matching
/// property, each tagged with its own (texture type, slot index), in
/// traversal order.
pub open spec fn spec_texture_map_axes(props: Seq<PropView>) -> Seq<TextureValueView<Vector3>>
    decreases props.len(),
{
    if props.len() == 0 {
        Seq::empty()
    } else {
        let rest = spec_texture_map_axes(props.drop_last());
        match spec_key(props.last()) {
            Some(KeyView::TextureMapAxis(t, i, v)) => rest.push(
                (TextureValueView { texture_type: t, index: i, value: v }),
            ),
            _ => rest,
        }
    }
}

/// Every texture UV transform decoded from the properties: one element per matching
/// property, each tagged with its own (texture type, slot index), in
/// traversal order.
pub open spec fn spec_texture_uv_transforms(props: Seq<PropView>) -> Seq<TextureValueView<UvTransform>>
    decreases props.len(),
{
    if props.len() == 0 {
        Seq::empty()
    } else {
        let rest = spec_texture_uv_transforms(props.drop_last());
        match spec_key(props.last()) {
            Some(KeyView::TextureUvTransform(t, i, v)) => rest.push(
                (TextureValueView { texture_type: t, index: i, value: v }),
            ),
            _ => rest,
        }
    }
}

/// Every texture flag set decoded from the properties: one element per matching
/// property, each tagged with its own (texture type, slot index), in
/// traversal order.
pub open spec fn spec_texture_flag_sets(props: Seq<PropView>) -> Seq<TextureValueView<TextureFlags>>
    decreases props.len(),
{
    if props.len() == 0 {
        Seq::empty()
    } else {
        let rest = spec_texture_flag_sets(props.drop_last());
        match spec_key(props.last()) {
            Some(KeyView::TextureFlags(t, i, v)) => rest.push(
                (TextureValueView { texture_type: t, index: i, value: v }),
            ),
            _ => rest,
        }
    }
}

impl Material {
    /// Every texture path stored in the material: one element per matching
    /// property, each tagged with its own (texture type, slot index), in
    /// traversal order. Matches are never fused; slot indices need not be
    /// contiguous or sorted.
    pub fn texture_path(&self) -> (r: Vec<TextureValue<Vec<u8>>>)
        ensures
            r.deep_view() == spec_texture_paths(self@),
    {
        let mut out: Vec<TextureValue<Vec<u8>>> = Vec::new();
        let n = self.properties.len();
        let mut i: usize = 0;
        proof {
            assert(self@.take(0) =~= Seq::<PropView>::empty());
            assert(out.deep_view() =~~= spec_texture_paths(self@.take(0)));
        }
        while i < n
            invariant
                n == self.properties.len(),
                i <= n,
                out.deep_view() == spec_texture_paths(self@.take(i as int)),
            decreases n - i,
        {
            proof {
                assert(self@.take(i as int + 1).drop_last() =~= self@.take(i as int));
                assert(self@.take(i as int + 1).last() == self@[i as int]);
            }
            let ghost prev = out.deep_view();
            match self.properties[i].key() {
                Some(MaterialPropertyKey::TexturePath(t, idx, v)) => {
                    let ghost x = (TextureValueView {
                        texture_type: t,
                        index: idx,
                        value: v.deep_view(),
                    });
                    out.push(TextureValue { texture_type: t, index: idx, value: v });
                    proof {
                        assert(out.deep_view() =~~= prev.push(x));
                    }
                },
                _ => {},
            }
            proof {
                assert(out.deep_view() =~~= spec_texture_paths(self@.take(i as int + 1)));
            }
            i = i + 1;
        }
        proof {
            assert(self@.take(n as int) =~= self@);
        }
        out
    }

    /// Every texture UVW-source channel stored in the material: one element per matching
    /// property, each tagged with its own (texture type, slot index), in
    /// traversal order. Matches are never fused; slot indices need not be
    /// contiguous or sorted.
    pub fn texture_uvw_source(&self) -> (r: Vec<TextureValue<i32>>)
        ensures
            r.deep_view() == spec_texture_uvw_sources(self@),
    {
        let mut out: Vec<TextureValue<i32>> = Vec::new();
        let n = self.properties.len();
        let mut i: usize = 0;
        proof {
            assert(self@.take(0) =~= Seq::<PropView>::empty());
            assert(out.deep_view() =~~= spec_texture_uvw_sources(self@.take(0)));
        }
        while i < n
            invariant
                n == self.properties.len(),
                i <= n,
                out.deep_view() == spec_texture_uvw_sources(self@.take(i as int)),
            decreases n - i,
        {
            proof {
                assert(self@.take(i as int + 1).drop_last() =~= self@.take(i as int));
                assert(self@.take(i as int + 1).last() == self@[i as int]);
            }
            let ghost prev = out.deep_view();
            match self.properties[i].key() {
                Some(MaterialPropertyKey::TextureUvwSource(t, idx, v)) => {
                    let ghost x = (TextureValueView {
                        texture_type: t,
                        index: idx,
                        value: v.deep_view(),
                    });
                    out.push(TextureValue { texture_type: t, index: idx, value: v });
                    proof {
                        assert(out.deep_view() =~~= prev.push(x));
                    }
                },
                _ => {},
            }
            proof {
                assert(out.deep_view() =~~= spec_texture_uvw_sources(self@.take(i as int + 1)));
            }
            i = i + 1;
        }
        proof {
            assert(self@.take(n as int) =~= self@);
        }
        out
    }

    /// Every texture operation stored in the material: one element per matching
    /// property, each tagged with its own (texture type, slot index), in
    /// traversal order. Matches are never fused; slot indices need not be
    /// contiguous or sorted.
    pub fn texture_op(&self) -> (r: Vec<TextureValue<TextureOp>>)
        ensures
            r.deep_view() == spec_texture_ops(self@),
    {
        let mut out: Vec<TextureValue<TextureOp>> = Vec::new();
        let n = self.properties.len();
        let mut i: usize = 0;
        proof {
            assert(self@.take(0) =~= Seq::<PropView>::empty());
            assert(out.deep_view() =~~= spec_texture_ops(self@.take(0)));
        }
        while i < n
            invariant
                n == self.properties.len(),
                i <= n,
                out.deep_view() == spec_texture_ops(self@.take(i as int)),
            decreases n - i,
        {
            proof {
                assert(self@.take(i as int + 1).drop_last() =~= self@.take(i as int));
                assert(self@.take(i as int + 1).last() == self@[i as int]);
            }
            let ghost prev = out.deep_view();
            match self.properties[i].key() {
                Some(MaterialPropertyKey::TextureOp(t, idx, v)) => {
                    let ghost x = (TextureValueView {
                        texture_type: t,
                        index: idx,
                        value: v.deep_view(),
                    });
                    out.push(TextureValue { texture_type: t, index: idx, value: v });
                    proof {
                        assert(out.deep_view() =~~= prev.push(x));
                    }
                },
                _ => {},
            }
            proof {
                assert(out.deep_view() =~~= spec_texture_ops(self@.take(i as int + 1)));
            }
            i = i + 1;
        }
        proof {
            assert(self@.take(n as int) =~= self@);
        }
        out
    }

    /// Every texture mapping stored in the material: one element per matching
    /// property, each tagged with its own (texture type, slot index), in
    /// traversal order. Matches are never fused; slot indices need not be
    /// contiguous or sorted.
    pub fn texture_mapping(&self) -> (r: Vec<TextureValue<TextureMapping>>)
        ensures
            r.deep_view() == spec_texture_mappings(self@),
    {
        let mut out: Vec<TextureValue<TextureMapping>> = Vec::new();
        let n = self.properties.len();
        let mut i: usize = 0;
        proof {
            assert(self@.take(0) =~= Seq::<PropView>::empty());
            assert(out.deep_view() =~~= spec_texture_mappings(self@.take(0)));
        }
        while i < n
            invariant
                n == self.properties.len(),
                i <= n,
                out.deep_view() == spec_texture_mappings(self@.take(i as int)),
            decreases n - i,
        {
            proof {
                assert(self@.take(i as int + 1).drop_last() =~= self@.take(i as int));
                assert(self@.take(i as int + 1).last() == self@[i as int]);
            }
            let ghost prev = out.deep_view();
            match self.properties[i].key() {
                Some(MaterialPropertyKey::TextureMapping(t, idx, v)) => {
                    let ghost x = (TextureValueView {
                        texture_type: t,
                        index: idx,
                        value: v.deep_view(),
                    });
                    out.push(TextureValue { texture_type: t, index: idx, value: v });
                    proof {
                        assert(out.deep_view() =~~= prev.push(x));
                    }
                },
                _ => {},
            }
            proof {
                assert(out.deep_view() =~~= spec_texture_mappings(self@.take(i as int + 1)));
            }
            i = i + 1;
        }
        proof {
            assert(self@.take(n as int) =~= self@);
        }
        out
    }

    /// Every texture blend factor (as a float bit pattern) stored in the material: one element per matching
    /// property, each tagged with its own (texture type, slot index), in
    /// traversal order. Matches are never fused; slot indices need not be
    /// contiguous or sorted.
    pub fn texture_blend(&self) -> (r: Vec<TextureValue<u32>>)
        ensures
            r.deep_view() == spec_texture_blends(self@),
    {
        let mut out: Vec<TextureValue<u32>> = Vec::new();
        let n = self.properties.len();
        let mut i: usize = 0;
        proof {
            assert(self@.take(0) =~= Seq::<PropView>::empty());
            assert(out.deep_view() =~~= spec_texture_blends(self@.take(0)));
        }
        while i < n
            invariant
                n == self.properties.len(),
                i <= n,
                out.deep_view() == spec_texture_blends(self@.take(i as int)),
            decreases n - i,
        {
            proof {
                assert(self@.take(i as int + 1).drop_last() =~= self@.take(i as int));
                assert(self@.take(i as int + 1).last() == self@[i as int]);
            }
            let ghost prev = out.deep_view();
            match self.properties[i].key() {
                Some(MaterialPropertyKey::TextureBlend(t, idx, v)) => {
                    let ghost x = (TextureValueView {
                        texture_type: t,
                        index: idx,
                        value: v.deep_view(),
                    });
                    out.push(TextureValue { texture_type: t, index: idx, value: v });
                    proof {
                        assert(out.deep_view() =~~= prev.push(x));
                    }
                },
                _ => {},
            }
            proof {
                assert(out.deep_view() =~~= spec_texture_blends(self@.take(i as int + 1)));
            }
            i = i + 1;
        }
        proof {
            assert(self@.take(n as int) =~= self@);
        }
        out
    }

    /// Every texture map mode along U stored in the material: one element per matching
    /// property, each tagged with its own (texture type, slot index), in
    /// traversal order. Matches are never fused; slot indices need not be
    /// contiguous or sorted.
    pub fn texture_mapping_mode_u(&self) -> (r: Vec<TextureValue<TextureMapMode>>)
        ensures
            r.deep_view() == spec_texture_mapping_modes_u(self@),
    {
        let mut out: Vec<TextureValue<TextureMapMode>> = Vec::new();
        let n = self.properties.len();
        let mut i: usize = 0;
        proof {
            assert(self@.take(0) =~= Seq::<PropView>::empty());
            assert(out.deep_view() =~~= spec_texture_mapping_modes_u(self@.take(0)));
        }
        while i < n
            invariant
                n == self.properties.len(),
                i <= n,
                out.deep_view() == spec_texture_mapping_modes_u(self@.take(i as int)),
            decreases n - i,
        {
            proof {
                assert(self@.take(i as int + 1).drop_last() =~= self@.take(i as int));
                assert(self@.take(i as int + 1).last() == self@[i as int]);
            }
            let ghost prev = out.deep_view();
            match self.properties[i].key() {
                Some(MaterialPropertyKey::TextureMappingModeU(t, idx, v)) => {
                    let ghost x = (TextureValueView {
                        texture_type: t,
                        index: idx,
                        value: v.deep_view(),
                    });
                    out.push(TextureValue { texture_type: t, index: idx, value: v });
                    proof {
                        assert(out.deep_view() =~~= prev.push(x));
                    }
                },
                _ => {},
            }
            proof {
                assert(out.deep_view() =~~= spec_texture_mapping_modes_u(self@.take(i as int + 1)));
            }
            i = i + 1;
        }
        proof {
            assert(self@.take(n as int) =~= self@);
        }
        out
    }

    /// Every texture map mode along V stored in the material: one element per matching
    /// property, each tagged with its own (texture type, slot index), in
    /// traversal order. Matches are never fused; slot indices need not be
    /// contiguous or sorted.
    pub fn texture_mapping_mode_v(&self) -> (r: Vec<TextureValue<TextureMapMode>>)
        ensures
            r.deep_view() == spec_texture_mapping_modes_v(self@),
    {
        let mut out: Vec<TextureValue<TextureMapMode>> = Vec::new();
        let n = self.properties.len();
        let mut i: usize = 0;
        proof {
            assert(self@.take(0) =~= Seq::<PropView>::empty());
            assert(out.deep_view() =~~= spec_texture_mapping_modes_v(self@.take(0)));
        }
        while i < n
            invariant
                n == self.properties.len(),
                i <= n,
                out.deep_view() == spec_texture_mapping_modes_v(self@.take(i as int)),
            decreases n - i,
        {
            proof {
                assert(self@.take(i as int + 1).drop_last() =~= self@.take(i as int));
                assert(self@.take(i as int + 1).last() == self@[i as int]);
            }
            let ghost prev = out.deep_view();
            match self.properties[i].key() {
                Some(MaterialPropertyKey::TextureMappingModeV(t, idx, v)) => {
                    let ghost x = (TextureValueView {
                        texture_type: t,
                        index: idx,
                        value: v.deep_view(),
                    });
                    out.push(TextureValue { texture_type: t, index: idx, value: v });
                    proof {
                        assert(out.deep_view() =~~= prev.push(x));
                    }
                },
                _ => {},
            }
            proof {
                assert(out.deep_view() =~~= spec_texture_mapping_modes_v(self@.take(i as int + 1)));
            }
            i = i + 1;
        }
        proof {
            assert(self@.take(n as int) =~= self@);
        }
        out
    }

    /// Every texture map axis stored in the material: one element per matching
    /// property, each tagged with its own (texture type, slot index), in
    /// traversal order. Matches are never fused; slot indices need not be
    /// contiguous or sorted.
    pub fn texture_map_axis(&self) -> (r: Vec<TextureValue<Vector3>>)
        ensures
            r.deep_view() == spec_texture_map_axes(self@),
    {
        let mut out: Vec<TextureValue<Vector3>> = Vec::new();
        let n = self.properties.len();
        let mut i: usize = 0;
        proof {
            assert(self@.take(0) =~= Seq::<PropView>::empty());
            assert(out.deep_view() =~~= spec_texture_map_axes(self@.take(0)));
        }
        while i < n
            invariant
                n == self.properties.len(),
                i <= n,
                out.deep_view() == spec_texture_map_axes(self@.take(i as int)),
            decreases n - i,
        {
            proof {
                assert(self@.take(i as int + 1).drop_last() =~= self@.take(i as int));
                assert(self@.take(i as int + 1).last() == self@[i as int]);
            }
            let ghost prev = out.deep_view();
            match self.properties[i].key() {
                Some(MaterialPropertyKey::TextureMapAxis(t, idx, v)) => {
                    let ghost x = (TextureValueView {
                        texture_type: t,
                        index: idx,
                        value: v.deep_view(),
                    });
                    out.push(TextureValue { texture_type: t, index: idx, value: v });
                    proof {
                        assert(out.deep_view() =~~= prev.push(x));
                    }
                },
                _ => {},
            }
            proof {
                assert(out.deep_view() =~~= spec_texture_map_axes(self@.take(i as int + 1)));
            }
            i = i + 1;
        }
        proof {
            assert(self@.take(n as int) =~= self@);
        }
        out
    }

    /// Every texture UV transform stored in the material: one element per matching
    /// property, each tagged with its own (texture type, slot index), in
    /// traversal order. Matches are never fused; slot indices need not be
    /// contiguous or sorted.
    pub fn texture_uv_transform(&self) -> (r: Vec<TextureValue<UvTransform>>)
        ensures
            r.deep_view() == spec_texture_uv_transforms(self@),
    {
        let mut out: Vec<TextureValue<UvTransform>> = Vec::new();
        let n = self.properties.len();
        let mut i: usize = 0;
        proof {
            assert(self@.take(0) =~= Seq::<PropView>::empty());
            assert(out.deep_view() =~~= spec_texture_uv_transforms(self@.take(0)));
        }
        while i < n
            invariant
                n == self.properties.len(),
                i <= n,
                out.deep_view() == spec_texture_uv_transforms(self@.take(i as int)),
            decreases n - i,
        {
            proof {
                assert(self@.take(i as int + 1).drop_last() =~= self@.take(i as int));
                assert(self@.take(i as int + 1).last() == self@[i as int]);
            }
            let ghost prev = out.deep_view();
            match self.properties[i].key() {
                Some(MaterialPropertyKey::TextureUvTransform(t, idx, v)) => {
                    let ghost x = (TextureValueView {
                        texture_type: t,
                        index: idx,
                        value: v.deep_view(),
                    });
                    out.push(TextureValue { texture_type: t, index: idx, value: v });
                    proof {
                        assert(out.deep_view() =~~= prev.push(x));
                    }
                },
                _ => {},
            }
            proof {
                assert(out.deep_view() =~~= spec_texture_uv_transforms(self@.take(i as int + 1)));
            }
            i = i + 1;
        }
        proof {
            assert(self@.take(n as int) =~= self@);
        }
        out
    }

    /// Every texture flag set stored in the material: one element per matching
    /// property, each tagged with its own (texture type, slot index), in
    /// traversal order. Matches are never fused; slot indices need not be
    /// contiguous or sorted.
    pub fn texture_flags(&self) -> (r: Vec<TextureValue<TextureFlags>>)
        ensures
            r.deep_view() == spec_texture_flag_sets(self@),
    {
        let mut out: Vec<TextureValue<TextureFlags>> = Vec::new();
        let n = self.properties.len();
        let mut i: usize = 0;
        proof {
            assert(self@.take(0) =~= Seq::<PropView>::empty());
            assert(out.deep_view() =~~= spec_texture_flag_sets(self@.take(0)));
        }
        while i < n
            invariant
                n == self.properties.len(),
                i <= n,
                out.deep_view() == spec_texture_flag_sets(self@.take(i as int)),
            decreases n - i,
        {
            proof {
                assert(self@.take(i as int + 1).drop_last() =~= self@.take(i as int));
                assert(self@.take(i as int + 1).last() == self@[i as int]);
            }
            let ghost prev = out.deep_view();
            match self.properties[i].key() {
                Some(MaterialPropertyKey::TextureFlags(t, idx, v)) => {
                    let ghost x = (TextureValueView {
                        texture_type: t,
                        index: idx,
                        value: v.deep_view(),
                    });
                    out.push(TextureValue { texture_type: t, index: idx, value: v });
                    proof {
                        assert(out.deep_view() =~~= prev.push(x));
                    }
                },
                _ => {},
            }
            proof {
                assert(out.deep_view() =~~= spec_texture_flag_sets(self@.take(i as int + 1)));
            }
            i = i + 1;
        }
        proof {
            assert(self@.take(n as int) =~= self@);
        }
        out
    }
}

/// The number of properties that decode to the given kind's variant.
pub open spec fn spec_count_of(props: Seq<PropView>, e: RegistryEntry) -> nat
    decreases props.len(),
{
    if props.len() == 0 {
        0
    } else {
        spec_count_of(props.drop_last(), e) + (match spec_key(props.last()) {
            Some(k) => if kind_of(k) == e {
                1nat
            } else {
                0nat
            },
            None => 0nat,
        })
    }
}

/// The texture-path accessor yields one element per stored property that
/// decodes to its kind: matches are never fused or dropped.
pub proof fn lemma_texture_paths_one_per_property(props: Seq<PropView>)
    ensures
        spec_texture_paths(props).len() == spec_count_of(props, RegistryEntry::TexturePath),
    decreases props.len(),
{
    if props.len() > 0 {
        lemma_texture_paths_one_per_property(props.drop_last());
    }
}

/// The texture-UVW-source accessor yields one element per stored property that
/// decodes to its kind: matches are never fused or dropped.
pub proof fn lemma_texture_uvw_sources_one_per_property(props: Seq<PropView>)
    ensures
        spec_texture_uvw_sources(props).len() == spec_count_of(props, RegistryEntry::TextureUvwSource),
    decreases props.len(),
{
    if props.len() > 0 {
        lemma_texture_uvw_sources_one_per_property(props.drop_last());
    }
}

/// The texture-operation accessor yields one element per stored property that
/// decodes to its kind: matches are never fused or dropped.
pub proof fn lemma_texture_ops_one_per_property(props: Seq<PropView>)
    ensures
        spec_texture_ops(props).len() == spec_count_of(props, RegistryEntry::TextureOp),
    decreases props.len(),
{
    if props.len() > 0 {
        lemma_texture_ops_one_per_property(props.drop_last());
    }
}

/// The texture-mapping accessor yields one element per stored property that
/// decodes to its kind: matches are never fused or dropped.
pub proof fn lemma_texture_mappings_one_per_property(props: Seq<PropView>)
    ensures
        spec_texture_mappings(props).len() == spec_count_of(props, RegistryEntry::TextureMapping),
    decreases props.len(),
{
    if props.len() > 0 {
        lemma_texture_mappings_one_per_property(props.drop_last());
    }
}

/// The texture-blend accessor yields one element per stored property that
/// decodes to its kind: matches are never fused or dropped.
pub proof fn lemma_texture_blends_one_per_property(props: Seq<PropView>)
    ensures
        spec_texture_blends(props).len() == spec_count_of(props, RegistryEntry::TextureBlend),
    decreases props.len(),
{
    if props.len() > 0 {
        lemma_texture_blends_one_per_property(props.drop_last());
    }
}

/// The U map-mode accessor yields one element per stored property that
/// decodes to its kind: matches are never fused or dropped.
pub proof fn lemma_texture_mapping_modes_u_one_per_property(props: Seq<PropView>)
    ensures
        spec_texture_mapping_modes_u(props).len() == spec_count_of(props, RegistryEntry::TextureMappingModeU),
    decreases props.len(),
{
    if props.len() > 0 {
        lemma_texture_mapping_modes_u_one_per_property(props.drop_last());
    }
}

/// The V map-mode accessor yields one element per stored property that
/// decodes to its kind: matches are never fused or dropped.
pub proof fn lemma_texture_mapping_modes_v_one_per_property(props: Seq<PropView>)
    ensures
        spec_texture_mapping_modes_v(props).len() == spec_count_of(props, RegistryEntry::TextureMappingModeV),
    decreases props.len(),
{
    if props.len() > 0 {
        lemma_texture_mapping_modes_v_one_per_property(props.drop_last());
    }
}

/// The texture-map-axis accessor yields one element per stored property that
/// decodes to its kind: matches are never fused or dropped.
pub proof fn lemma_texture_map_axes_one_per_property(props: Seq<PropView>)
    ensures
        spec_texture_map_axes(props).len() == spec_count_of(props, RegistryEntry::TextureMapAxis),
    decreases props.len(),
{
    if props.len() > 0 {
        lemma_texture_map_axes_one_per_property(props.drop_last());
    }
}

/// The UV-transform accessor yields one element per stored property that
/// decodes to its kind: matches are never fused or dropped.
pub proof fn lemma_texture_uv_transforms_one_per_property(props: Seq<PropView>)
    ensures
        spec_texture_uv_transforms(props).len() == spec_count_of(props, RegistryEntry::TextureUvTransform),
    decreases props.len(),
{
    if props.len() > 0 {
        lemma_texture_uv_transforms_one_per_property(props.drop_last());
    }
}

/// The texture-flag accessor yields one element per stored property that
/// decodes to its kind: matches are never fused or dropped.
pub proof fn lemma_texture_flag_sets_one_per_property(props: Seq<PropView>)
    ensures
        spec_texture_flag_sets(props).len() == spec_count_of(props, RegistryEntry::TextureFlags),
    decreases props.len(),
{
    if props.len() > 0 {
        lemma_texture_flag_sets_one_per_property(props.drop_last());
    }
}

} // verus!
