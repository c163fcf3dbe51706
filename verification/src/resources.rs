//! The resource registry: every GPU-resident object, in stable name-to-
//! object tables, with lookups that fail soft.
//!
//! The registry is the only place resources are created. Default resources
//! are built exactly once, in dependency order: bind-group layouts, then
//! samplers, then materials (which name layouts), then models, then the
//! fullscreen quad (which needs the viewport), then default textures
//! (which need layouts and samplers).

use vstd::prelude::*;
use crate::error::{RenderError, ResourceKind};
use crate::material::{ComputeMaterial, RenderMaterial};
use crate::mesh::{quad_vertices, triangle_vertices, Mesh};
use crate::model::Model;
use crate::quad::FullscreenQuad;
use crate::render_object::RenderObject;
use crate::shader::{last_pos, path_extension, Shader, ShaderKind};
use crate::text::str_eq;
use crate::texture::{Texture, TextureKind};
use crate::viewport::Viewport;

verus! {

/// How a sampler filters.
#[derive(Clone, Copy, Debug, PartialEq, Eq, Structural)]
pub enum FilterMode {
    Nearest,
    Linear,
}

/// How a sampler treats coordinates outside the image.
#[derive(Clone, Copy, Debug, PartialEq, Eq, Structural)]
pub enum AddressMode {
    ClampToEdge,
    Repeat,
}

/// An immutable sampler, created once and referenced by name.
#[derive(Clone, Copy, Debug, PartialEq, Eq, Structural)]
pub struct Sampler {
    pub filter: FilterMode,
    pub address_mode: AddressMode,
}

/// Which pipeline stage sees a binding.
#[derive(Clone, Copy, Debug, PartialEq, Eq, Structural)]
pub enum ShaderStage {
    Vertex,
    Fragment,
    Compute,
}

/// What a binding slot holds.
#[derive(Clone, Copy, Debug, PartialEq, Eq, Structural)]
pub enum BindingType {
    /// A sampled two-dimensional texture.
    Texture,
    /// A filtering sampler.
    Sampler,
    /// A uniform buffer.
    UniformBuffer,
    /// A write-only storage texture.
    StorageTexture,
}

/// One slot of a bind-group layout.
#[derive(Clone, Copy, Debug, PartialEq, Eq, Structural)]
pub struct LayoutEntry {
    pub binding: u32,
    pub visibility: ShaderStage,
    pub ty: BindingType,
}

/// An immutable bind-group layout, created once and referenced by name.
#[derive(Debug)]
pub struct BindGroupLayout {
    pub entries: Vec<LayoutEntry>,
}

/// Whether a name-keyed table holds an entry under `name`.
pub open spec fn table_contains<T>(t: Seq<(String, T)>, name: Seq<char>) -> bool {
    exists|i: int| 0 <= i < t.len() && t[i].0@ == name
}

/// The index of the entry named `name` (unique when keys are distinct).
pub open spec fn table_index<T>(t: Seq<(String, T)>, name: Seq<char>) -> int {
    choose|i: int| 0 <= i < t.len() && t[i].0@ == name
}

/// The value registered under `name`.
pub open spec fn table_value<T>(t: Seq<(String, T)>, name: Seq<char>) -> T {
    t[table_index(t, name)].1
}

/// No two entries share a name.
pub open spec fn distinct_keys<T>(t: Seq<(String, T)>) -> bool {
    forall|i: int, j: int| 0 <= i < j < t.len() ==> (#[trigger] t[i]).0@ != (#[trigger] t[j]).0@
}

/// Linear lookup by name; with distinct keys the result is the one
/// registered value.
fn table_get<'a, T>(table: &'a Vec<(String, T)>, name: &str) -> (r: Option<&'a T>)
    ensures
        r is Some <==> table_contains(table@, name@),
        r matches Some(v) ==> exists|i: int|
            0 <= i < table@.len() && (#[trigger] table@[i]).0@ == name@ && *v == table@[i].1,
        distinct_keys(table@) && table_contains(table@, name@) ==> (r matches Some(v)
            && *v == table_value(table@, name@)),
{
    let mut i: usize = 0;
    while i < table.len()
        invariant
            i <= table@.len(),
            forall|j: int| 0 <= j < i ==> (#[trigger] table@[j]).0@ != name@,
        decreases table@.len() - i,
    {
        let entry = &table[i];
        if str_eq(entry.0.as_str(), name) {
            proof {
                assert(table@[i as int].0@ == name@);
                assert(table_contains(table@, name@));
                if distinct_keys(table@) {
                    let k = table_index(table@, name@);
                    assert(0 <= k < table@.len() && table@[k].0@ == name@);
                    if k < i as int {
                        assert(table@[k].0@ != table@[i as int].0@);
                        assert(false);
                    }
                    if k > i as int {
                        assert(table@[i as int].0@ != table@[k].0@);
                        assert(false);
                    }
                }
            }
            return Some(&entry.1);
        }
        i = i + 1;
    }
    None
}

/// Global registry of GPU-resident objects.
#[derive(Debug)]
pub struct Resources {
    pub models: Vec<(String, Model)>,
    pub textures: Vec<(String, Texture)>,
    pub render_materials: Vec<(String, RenderMaterial)>,
    pub compute_materials: Vec<(String, ComputeMaterial)>,
    pub samplers: Vec<(String, Sampler)>,
    pub bind_group_layouts: Vec<(String, BindGroupLayout)>,
    pub fullscreen_quad: FullscreenQuad,
}

impl Resources {
    /// Registry well-formedness: every table keyed uniquely, every model
    /// and texture well formed, the quad well formed.
    pub open spec fn wf(self) -> bool {
        &&& distinct_keys(self.models@)
        &&& distinct_keys(self.textures@)
        &&& distinct_keys(self.render_materials@)
        &&& distinct_keys(self.compute_materials@)
        &&& distinct_keys(self.samplers@)
        &&& distinct_keys(self.bind_group_layouts@)
        &&& self.fullscreen_quad.wf()
        &&& forall|i: int| 0 <= i < self.models@.len() ==> (#[trigger] self.models@[i]).1.wf()
        &&& forall|i: int| 0 <= i < self.textures@.len() ==> (#[trigger] self.textures@[i]).1.wf()
    }

    pub open spec fn has_model(self, name: Seq<char>) -> bool {
        table_contains(self.models@, name)
    }

    pub open spec fn model_named(self, name: Seq<char>) -> Model {
        table_value(self.models@, name)
    }

    pub open spec fn has_texture(self, name: Seq<char>) -> bool {
        table_contains(self.textures@, name)
    }

    pub open spec fn texture_named(self, name: Seq<char>) -> Texture {
        table_value(self.textures@, name)
    }

    pub open spec fn has_render_material(self, name: Seq<char>) -> bool {
        table_contains(self.render_materials@, name)
    }

    pub open spec fn render_material_named(self, name: Seq<char>) -> RenderMaterial {
        table_value(self.render_materials@, name)
    }

    pub open spec fn has_compute_material(self, name: Seq<char>) -> bool {
        table_contains(self.compute_materials@, name)
    }

    pub open spec fn compute_material_named(self, name: Seq<char>) -> ComputeMaterial {
        table_value(self.compute_materials@, name)
    }

    pub open spec fn has_sampler(self, name: Seq<char>) -> bool {
        table_contains(self.samplers@, name)
    }

    pub open spec fn has_bind_group_layout(self, name: Seq<char>) -> bool {
        table_contains(self.bind_group_layouts@, name)
    }

    /// Every default resource the registry is initialized with.
    pub open spec fn has_default_resources(self) -> bool {
        &&& self.has_bind_group_layout("single texture"@)
        &&& self.has_bind_group_layout("camera"@)
        &&& self.has_bind_group_layout("compute storage"@)
        &&& self.has_sampler("nearest"@)
        &&& self.has_render_material("basic"@)
        &&& self.has_compute_material("basic compute"@)
        &&& self.has_model("triangle"@)
        &&& self.has_model("quad"@)
        &&& self.has_texture("black"@)
        &&& self.has_texture("white"@)
        &&& self.has_texture("compute storage"@)
    }

    /// Build the registry with every default resource, in dependency
    /// order: layouts, samplers, materials, models, the fullscreen quad,
    /// and finally the default textures, whose bind groups need the
    /// layouts and the sampler.
    pub fn new(viewport: &Viewport) -> (r: Result<Resources, RenderError>)
        requires
            viewport.width > 0,
            viewport.height > 0,
        ensures
            r matches Ok(res) && res.wf() && res.has_default_resources()
                && res.fullscreen_quad@.source == crate::mesh::quad_vertices()
                && res.fullscreen_quad.image_width == 1
                && res.fullscreen_quad.image_height == 1,
    {
        let bind_group_layouts = create_default_bind_group_layouts();
        let samplers = create_default_samplers();
        let render_materials = match create_default_render_materials() {
            Ok(v) => v,
            Err(e) => {
                proof {
                    assert(false);
                }
                return Err(e);
            },
        };
        let compute_materials = match create_default_compute_materials() {
            Ok(v) => v,
            Err(e) => {
                proof {
                    assert(false);
                }
                return Err(e);
            },
        };
        let models = create_default_models();
        let fullscreen_quad = match FullscreenQuad::new(viewport) {
            Ok(q) => q,
            Err(e) => {
                proof {
                    assert(false);
                }
                return Err(e);
            },
        };
        let mut result = Resources {
            models,
            textures: Vec::new(),
            render_materials,
            compute_materials,
            samplers,
            bind_group_layouts,
            fullscreen_quad,
        };
        proof {
            assert(result.has_sampler("nearest"@)) by {
                assert(result.samplers@[0].0@ == "nearest"@);
            }
            assert(result.has_bind_group_layout("single texture"@)) by {
                assert(result.bind_group_layouts@[0].0@ == "single texture"@);
            }
            assert(result.has_bind_group_layout("camera"@)) by {
                assert(result.bind_group_layouts@[1].0@ == "camera"@);
            }
            assert(result.has_bind_group_layout("compute storage"@)) by {
                assert(result.bind_group_layouts@[2].0@ == "compute storage"@);
            }
        }
        let textures = create_default_textures(&result);
        result.textures = textures;
        proof {
            assert(result.has_render_material("basic"@)) by {
                assert(result.render_materials@[0].0@ == "basic"@);
            }
            assert(result.has_compute_material("basic compute"@)) by {
                assert(result.compute_materials@[0].0@ == "basic compute"@);
            }
            assert(result.has_model("triangle"@)) by {
                assert(result.models@[0].0@ == "triangle"@);
            }
            assert(result.has_model("quad"@)) by {
                assert(result.models@[1].0@ == "quad"@);
            }
            assert(result.has_texture("black"@)) by {
                assert(result.textures@[0].0@ == "black"@);
            }
            assert(result.has_texture("white"@)) by {
                assert(result.textures@[1].0@ == "white"@);
            }
            assert(result.has_texture("compute storage"@)) by {
                assert(result.textures@[2].0@ == "compute storage"@);
            }
        }
        Ok(result)
    }

    pub fn get_model(&self, name: &str) -> (r: Result<&Model, RenderError>)
        ensures
            r is Ok <==> self.has_model(name@),
            distinct_keys(self.models@) ==> (r matches Ok(m) ==> *m == self.model_named(
                name@,
            )),
            r matches Err(e) ==> e.is_not_found(ResourceKind::Model)
                && e.missing_name() == name@,
    {
        match table_get(&self.models, name) {
            Some(m) => Ok(m),
            None => Err(RenderError::NotFound {
                kind: ResourceKind::Model,
                name: name.to_owned(),
            }),
        }
    }

    pub fn get_texture(&self, name: &str) -> (r: Result<&Texture, RenderError>)
        ensures
            r is Ok <==> self.has_texture(name@),
            distinct_keys(self.textures@) ==> (r matches Ok(t) ==> *t == self.texture_named(
                name@,
            )),
            r matches Err(e) ==> e.is_not_found(ResourceKind::Texture)
                && e.missing_name() == name@,
    {
        match table_get(&self.textures, name) {
            Some(t) => Ok(t),
            None => Err(RenderError::NotFound {
                kind: ResourceKind::Texture,
                name: name.to_owned(),
            }),
        }
    }

    pub fn get_render_material(&self, name: &str) -> (r: Result<&RenderMaterial, RenderError>)
        ensures
            r is Ok <==> self.has_render_material(name@),
            distinct_keys(self.render_materials@) ==> (r matches Ok(m) ==> *m
                == self.render_material_named(name@)),
            r matches Err(e) ==> e.is_not_found(ResourceKind::RenderMaterial)
                && e.missing_name() == name@,
    {
        match table_get(&self.render_materials, name) {
            Some(m) => Ok(m),
            None => Err(RenderError::NotFound {
                kind: ResourceKind::RenderMaterial,
                name: name.to_owned(),
            }),
        }
    }

    pub fn get_compute_material(&self, name: &str) -> (r: Result<&ComputeMaterial, RenderError>)
        ensures
            r is Ok <==> self.has_compute_material(name@),
            distinct_keys(self.compute_materials@) ==> (r matches Ok(m) ==> *m
                == self.compute_material_named(name@)),
            r matches Err(e) ==> e.is_not_found(ResourceKind::ComputeMaterial)
                && e.missing_name() == name@,
    {
        match table_get(&self.compute_materials, name) {
            Some(m) => Ok(m),
            None => Err(RenderError::NotFound {
                kind: ResourceKind::ComputeMaterial,
                name: name.to_owned(),
            }),
        }
    }

    pub fn get_sampler(&self, name: &str) -> (r: Result<&Sampler, RenderError>)
        ensures
            r is Ok <==> self.has_sampler(name@),
            r matches Err(e) ==> e.is_not_found(ResourceKind::Sampler)
                && e.missing_name() == name@,
    {
        match table_get(&self.samplers, name) {
            Some(s) => Ok(s),
            None => Err(RenderError::NotFound {
                kind: ResourceKind::Sampler,
                name: name.to_owned(),
            }),
        }
    }

    pub fn get_bind_group_layout(&self, name: &str) -> (r: Result<&BindGroupLayout, RenderError>)
        ensures
            r is Ok <==> self.has_bind_group_layout(name@),
            r matches Err(e) ==> e.is_not_found(ResourceKind::BindGroupLayout)
                && e.missing_name() == name@,
    {
        match table_get(&self.bind_group_layouts, name) {
            Some(l) => Ok(l),
            None => Err(RenderError::NotFound {
                kind: ResourceKind::BindGroupLayout,
                name: name.to_owned(),
            }),
        }
    }

    pub fn get_fullscreen_quad(&self) -> (r: &FullscreenQuad)
        ensures
            r == &self.fullscreen_quad,
    {
        &self.fullscreen_quad
    }

    pub fn get_fullscreen_quad_mut(&mut self) -> (r: &mut FullscreenQuad)
        ensures
            *r == old(self).fullscreen_quad,
            *final(self) == (Resources { fullscreen_quad: *final(r), ..*old(self) }),
    {
        &mut self.fullscreen_quad
    }

    /// Validate the compute-material name and build a compute object
    /// holding it, without an output texture; nothing is recorded on
    /// failure.
    pub fn create_compute_object(&self, material_name: &str) -> (r: Result<
        crate::compute_object::ComputeObject,
        RenderError,
    >)
        ensures
            r is Ok <==> self.has_compute_material(material_name@),
            r matches Ok(co) ==> co.compute_material_name@ == material_name@
                && co.output_texture is None,
            r matches Err(e) ==> e.is_not_found(ResourceKind::ComputeMaterial)
                && e.missing_name() == material_name@,
    {
        match self.get_compute_material(material_name) {
            Ok(_) => Ok(crate::compute_object::ComputeObject {
                compute_material_name: material_name.to_owned(),
                output_texture: None,
            }),
            Err(e) => Err(e),
        }
    }

    /// Register a texture under a name, replacing the entry if the name is
    /// already taken — content pipelines re-register the background image.
    pub fn add_texture(&mut self, name: &str, texture: Texture)
        requires
            texture.wf(),
        ensures
            old(self).has_texture(name@) && distinct_keys(old(self).textures@) ==> {
                let idx = table_index(old(self).textures@, name@);
                &&& final(self).textures@.len() == old(self).textures@.len()
                &&& forall|j: int|
                    0 <= j < old(self).textures@.len() && j != idx
                        ==> final(self).textures@[j] == old(self).textures@[j]
                &&& final(self).textures@[idx].0@ == name@
                &&& final(self).textures@[idx].1 == texture
            },
            !old(self).has_texture(name@) ==> final(self).textures@.len() == old(
                self,
            ).textures@.len() + 1 && final(self).textures@.drop_last() == old(self).textures@
                && final(self).textures@.last().0@ == name@
                && final(self).textures@.last().1 == texture,
            final(self).models == old(self).models,
            final(self).render_materials == old(self).render_materials,
            final(self).compute_materials == old(self).compute_materials,
            final(self).samplers == old(self).samplers,
            final(self).bind_group_layouts == old(self).bind_group_layouts,
            final(self).fullscreen_quad == old(self).fullscreen_quad,
            final(self).has_texture(name@),
            old(self).wf() ==> final(self).wf(),
    {
        let mut i: usize = 0;
        while i < self.textures.len()
            invariant
                i <= self.textures@.len(),
                *self == *old(self),
                texture.wf(),
                forall|j: int| 0 <= j < i ==> (#[trigger] self.textures@[j]).0@ != name@,
            decreases self.textures@.len() - i,
        {
            let entry = &self.textures[i];
            if str_eq(entry.0.as_str(), name) {
                proof {
                    assert(old(self).textures@[i as int].0@ == name@);
                    assert(old(self).has_texture(name@));
                }
                let slot = &mut self.textures[i];
                *slot = (name.to_owned(), texture);
                proof {
                    if distinct_keys(old(self).textures@) {
                        let k = table_index(old(self).textures@, name@);
                        assert(0 <= k < old(self).textures@.len()
                            && old(self).textures@[k].0@ == name@);
                        if k < i as int {
                            assert(old(self).textures@[k].0@ != old(
                                self,
                            ).textures@[i as int].0@);
                            assert(false);
                        }
                        if k > i as int {
                            assert(old(self).textures@[i as int].0@ != old(
                                self,
                            ).textures@[k].0@);
                            assert(false);
                        }
                    }
                    assert(self.textures@[i as int].0@ == name@);
                    assert(self.has_texture(name@));
                    if old(self).wf() {
                        assert forall|a: int, b: int|
                            0 <= a < b < self.textures@.len() implies (
                        #[trigger] self.textures@[a]).0@ != (#[trigger] self.textures@[b]).0@ by {
                            assert(old(self).textures@[a].0@ != old(self).textures@[b].0@);
                        }
                        assert forall|a: int|
                            0 <= a < self.textures@.len() implies (
                        #[trigger] self.textures@[a]).1.wf() by {
                            if a != i as int {
                                assert(self.textures@[a].1 == old(self).textures@[a].1);
                            }
                        }
                    }
                }
                return;
            }
            i = i + 1;
        }
        self.textures.push((name.to_owned(), texture));
        proof {
            assert(self.textures@.drop_last() =~= old(self).textures@);
            assert(self.textures@[self.textures@.len() - 1].0@ == name@);
            assert(self.has_texture(name@));
            if old(self).wf() {
                assert forall|a: int, b: int| 0 <= a < b < self.textures@.len() implies (
                #[trigger] self.textures@[a]).0@ != (#[trigger] self.textures@[b]).0@ by {
                    if b < self.textures@.len() - 1 {
                        assert(old(self).textures@[a].0@ != old(self).textures@[b].0@);
                    } else {
                        assert(self.textures@[a] == old(self).textures@[a]);
                    }
                }
                assert forall|a: int| 0 <= a < self.textures@.len() implies (
                #[trigger] self.textures@[a]).1.wf() by {
                    if a < self.textures@.len() - 1 {
                        assert(self.textures@[a].1 == old(self).textures@[a].1);
                    }
                }
            }
        }
    }

    /// Validate three names and build a render object holding them; the
    /// first missing one is reported — material, then texture, then model —
    /// and nothing is recorded on failure.
    pub fn create_render_object(
        &self,
        material_name: &str,
        texture_name: &str,
        model_name: &str,
    ) -> (r: Result<RenderObject, RenderError>)
        ensures
            r is Ok <==> self.has_render_material(material_name@)
                && self.has_texture(texture_name@) && self.has_model(model_name@),
            r matches Ok(ro) ==> ro.material_name@ == material_name@
                && ro.texture_name@ == texture_name@ && ro.model_name@ == model_name@,
            !self.has_render_material(material_name@) ==> (r matches Err(e)
                && e.is_not_found(ResourceKind::RenderMaterial)
                && e.missing_name() == material_name@),
            self.has_render_material(material_name@) && !self.has_texture(texture_name@)
                ==> (r matches Err(e) && e.is_not_found(ResourceKind::Texture)
                && e.missing_name() == texture_name@),
            self.has_render_material(material_name@) && self.has_texture(texture_name@)
                && !self.has_model(model_name@) ==> (r matches Err(e)
                && e.is_not_found(ResourceKind::Model) && e.missing_name() == model_name@),
    {
        let material_exists = table_get(&self.render_materials, material_name).is_some();
        let texture_exists = table_get(&self.textures, texture_name).is_some();
        let model_exists = table_get(&self.models, model_name).is_some();

        if !material_exists {
            return Err(RenderError::NotFound {
                kind: ResourceKind::RenderMaterial,
                name: material_name.to_owned(),
            });
        }
        if !texture_exists {
            return Err(RenderError::NotFound {
                kind: ResourceKind::Texture,
                name: texture_name.to_owned(),
            });
        }
        if !model_exists {
            return Err(RenderError::NotFound {
                kind: ResourceKind::Model,
                name: model_name.to_owned(),
            });
        }

        Ok(RenderObject::new(
            material_name.to_owned(),
            texture_name.to_owned(),
            model_name.to_owned(),
        ))
    }
}

/// The three standard bind-group layouts, in registration order: the
/// fragment-stage single-texture layout, the vertex-stage camera uniform
/// layout, and the compute-stage storage-texture layout.
fn create_default_bind_group_layouts() -> (r: Vec<(String, BindGroupLayout)>)
    ensures
        r@.len() == 3,
        r@[0].0@ == "single texture"@,
        r@[0].1.entries@ == seq![
            LayoutEntry { binding: 0u32, visibility: ShaderStage::Fragment, ty: BindingType::Texture },
            LayoutEntry { binding: 1u32, visibility: ShaderStage::Fragment, ty: BindingType::Sampler },
        ],
        r@[1].0@ == "camera"@,
        r@[1].1.entries@ == seq![
            LayoutEntry { binding: 0u32, visibility: ShaderStage::Vertex, ty: BindingType::UniformBuffer },
        ],
        r@[2].0@ == "compute storage"@,
        r@[2].1.entries@ == seq![
            LayoutEntry { binding: 0u32, visibility: ShaderStage::Compute, ty: BindingType::StorageTexture },
        ],
        distinct_keys(r@),
{
    let mut single_texture_entries: Vec<LayoutEntry> = Vec::new();
    single_texture_entries.push(LayoutEntry {
        binding: 0,
        visibility: ShaderStage::Fragment,
        ty: BindingType::Texture,
    });
    single_texture_entries.push(LayoutEntry {
        binding: 1,
        visibility: ShaderStage::Fragment,
        ty: BindingType::Sampler,
    });

    let mut camera_entries: Vec<LayoutEntry> = Vec::new();
    camera_entries.push(LayoutEntry {
        binding: 0,
        visibility: ShaderStage::Vertex,
        ty: BindingType::UniformBuffer,
    });

    let mut storage_entries: Vec<LayoutEntry> = Vec::new();
    storage_entries.push(LayoutEntry {
        binding: 0,
        visibility: ShaderStage::Compute,
        ty: BindingType::StorageTexture,
    });

    let mut result: Vec<(String, BindGroupLayout)> = Vec::new();
    result.push(("single texture".to_owned(), BindGroupLayout { entries: single_texture_entries }));
    result.push(("camera".to_owned(), BindGroupLayout { entries: camera_entries }));
    result.push(("compute storage".to_owned(), BindGroupLayout { entries: storage_entries }));
    proof {
        reveal_strlit("single texture");
        reveal_strlit("camera");
        reveal_strlit("compute storage");
        assert(("single texture"@).len() == 14);
        assert(("camera"@).len() == 6);
        assert(("compute storage"@).len() == 15);
        assert(result@[0].0@ != result@[1].0@);
        assert(result@[0].0@ != result@[2].0@);
        assert(result@[1].0@ != result@[2].0@);
        assert(result@[0].1.entries@ =~= seq![
            LayoutEntry { binding: 0u32, visibility: ShaderStage::Fragment, ty: BindingType::Texture },
            LayoutEntry { binding: 1u32, visibility: ShaderStage::Fragment, ty: BindingType::Sampler },
        ]);
        assert(result@[1].1.entries@ =~= seq![
            LayoutEntry { binding: 0u32, visibility: ShaderStage::Vertex, ty: BindingType::UniformBuffer },
        ]);
        assert(result@[2].1.entries@ =~= seq![
            LayoutEntry { binding: 0u32, visibility: ShaderStage::Compute, ty: BindingType::StorageTexture },
        ]);
    }
    result
}

/// The one standard sampler: nearest filtering, clamped addressing.
fn create_default_samplers() -> (r: Vec<(String, Sampler)>)
    ensures
        r@.len() == 1,
        r@[0].0@ == "nearest"@,
        r@[0].1 == (Sampler { filter: FilterMode::Nearest, address_mode: AddressMode::ClampToEdge }),
        distinct_keys(r@),
{
    let mut result: Vec<(String, Sampler)> = Vec::new();
    result.push((
        "nearest".to_owned(),
        Sampler { filter: FilterMode::Nearest, address_mode: AddressMode::ClampToEdge },
    ));
    result
}

/// The base render material: the plain-text shader, built against the
/// single-texture and camera layouts in that slot order.
fn create_default_render_materials() -> (r: Result<Vec<(String, RenderMaterial)>, RenderError>)
    ensures
        r matches Ok(v) && v@.len() == 1 && v@[0].0@ == "basic"@
            && v@[0].1.shader.kind == ShaderKind::Wgsl && v@[0].1.shader.path@ == "basic.wgsl"@
            && v@[0].1.bind_group_layouts@.len() == 2
            && v@[0].1.bind_group_layouts@[0]@ == "single texture"@
            && v@[0].1.bind_group_layouts@[1]@ == "camera"@
            && v@[0].1.cull_mode is None
            && distinct_keys(v@),
{
    proof {
        reveal_strlit("basic.wgsl");
        reveal_strlit("wgsl");
        reveal_with_fuel(last_pos, 12);
        assert(last_pos("basic.wgsl"@, '/') is None);
        assert(last_pos("basic.wgsl"@, '.') == Some(5int));
        assert(path_extension("basic.wgsl"@) matches Some(e) && e =~= "wgsl"@);
    }
    let shader = match Shader::new_from_file("basic.wgsl") {
        Ok(s) => s,
        Err(e) => {
            proof {
                assert(false);
            }
            return Err(e);
        },
    };
    let mut layout_names: Vec<String> = Vec::new();
    layout_names.push("single texture".to_owned());
    layout_names.push("camera".to_owned());
    let material = match RenderMaterial::builder().with_bind_group_layouts(layout_names)
        .with_shader(shader)
        .build() {
        Ok(m) => m,
        Err(e) => {
            proof {
                assert(false);
            }
            return Err(e);
        },
    };
    let mut result: Vec<(String, RenderMaterial)> = Vec::new();
    result.push(("basic".to_owned(), material));
    Ok(result)
}

/// The base compute material: the compute shader, built against the
/// compute-storage layout.
fn create_default_compute_materials() -> (r: Result<Vec<(String, ComputeMaterial)>, RenderError>)
    ensures
        r matches Ok(v) && v@.len() == 1 && v@[0].0@ == "basic compute"@
            && v@[0].1.shader.kind == ShaderKind::Wgsl
            && v@[0].1.shader.path@ == "basic_compute.wgsl"@
            && v@[0].1.bind_group_layouts@.len() == 1
            && v@[0].1.bind_group_layouts@[0]@ == "compute storage"@
            && distinct_keys(v@),
{
    proof {
        reveal_strlit("basic_compute.wgsl");
        reveal_strlit("wgsl");
        reveal_with_fuel(last_pos, 20);
        assert(last_pos("basic_compute.wgsl"@, '/') is None);
        assert(last_pos("basic_compute.wgsl"@, '.') == Some(13int));
        assert(path_extension("basic_compute.wgsl"@) matches Some(e) && e =~= "wgsl"@);
    }
    let shader = match Shader::new_from_file("basic_compute.wgsl") {
        Ok(s) => s,
        Err(e) => {
            proof {
                assert(false);
            }
            return Err(e);
        },
    };
    let mut layout_names: Vec<String> = Vec::new();
    layout_names.push("compute storage".to_owned());
    let material = match ComputeMaterial::builder().with_bind_group_layouts(layout_names)
        .with_shader(shader)
        .build() {
        Ok(m) => m,
        Err(e) => {
            proof {
                assert(false);
            }
            return Err(e);
        },
    };
    let mut result: Vec<(String, ComputeMaterial)> = Vec::new();
    result.push(("basic compute".to_owned(), material));
    Ok(result)
}

/// The primitive models: the indexed triangle and the indexed unit quad.
fn create_default_models() -> (r: Vec<(String, Model)>)
    ensures
        r@.len() == 2,
        r@[0].0@ == "triangle"@,
        r@[0].1.wf() && r@[0].1.meshes@.len() == 1
            && r@[0].1.meshes@[0].vertices@ == triangle_vertices(),
        r@[1].0@ == "quad"@,
        r@[1].1.wf() && r@[1].1.meshes@.len() == 1
            && r@[1].1.meshes@[0].vertices@ == quad_vertices(),
        distinct_keys(r@),
{
    let mut triangle_meshes: Vec<Mesh> = Vec::new();
    triangle_meshes.push(Mesh::new_triangle());
    let triangle = match Model::new(triangle_meshes) {
        Ok(m) => m,
        Err(_) => {
            proof {
                assert(false);
            }
            Model { meshes: Vec::new(), vertex_buffer: Vec::new(), index_buffer: None }
        },
    };

    let mut quad_meshes: Vec<Mesh> = Vec::new();
    quad_meshes.push(Mesh::new_quad());
    let quad = match Model::new(quad_meshes) {
        Ok(m) => m,
        Err(_) => {
            proof {
                assert(false);
            }
            Model { meshes: Vec::new(), vertex_buffer: Vec::new(), index_buffer: None }
        },
    };

    let mut result: Vec<(String, Model)> = Vec::new();
    result.push(("triangle".to_owned(), triangle));
    result.push(("quad".to_owned(), quad));
    proof {
        reveal_strlit("triangle");
        reveal_strlit("quad");
        assert(("triangle"@).len() == 8);
        assert(("quad"@).len() == 4);
        assert(result@[0].0@ != result@[1].0@);
    }
    result
}

/// The default textures: one-pixel black and white sampled images, and the
/// one-pixel storage texture compute objects start from. These are built
/// last because their bind groups need the layouts and the sampler.
fn create_default_textures(resources: &Resources) -> (r: Vec<(String, Texture)>)
    requires
        resources.has_sampler("nearest"@),
        resources.has_bind_group_layout("single texture"@),
        resources.has_bind_group_layout("compute storage"@),
    ensures
        r@.len() == 3,
        r@[0].0@ == "black"@,
        r@[0].1.wf() && r@[0].1.kind == TextureKind::Sampled && r@[0].1.width == 1
            && r@[0].1.height == 1 && r@[0].1.data@ == seq![0u8, 0u8, 0u8, 255u8],
        r@[1].0@ == "white"@,
        r@[1].1.wf() && r@[1].1.kind == TextureKind::Sampled && r@[1].1.width == 1
            && r@[1].1.height == 1 && r@[1].1.data@ == seq![255u8, 255u8, 255u8, 255u8],
        r@[2].0@ == "compute storage"@,
        r@[2].1.wf() && r@[2].1.kind == TextureKind::Storage && r@[2].1.width == 1
            && r@[2].1.height == 1,
        distinct_keys(r@),
{
    let mut black_data: Vec<u8> = Vec::new();
    black_data.push(0);
    black_data.push(0);
    black_data.push(0);
    black_data.push(255);
    proof {
        assert(black_data@ =~= seq![0u8, 0u8, 0u8, 255u8]);
    }
    let black = match Texture::new_from_image(1, 1, black_data, resources) {
        Ok(t) => t,
        Err(_) => {
            proof {
                assert(false);
            }
            Texture { width: 0, height: 0, kind: TextureKind::Storage, data: Vec::new() }
        },
    };

    let mut white_data: Vec<u8> = Vec::new();
    white_data.push(255);
    white_data.push(255);
    white_data.push(255);
    white_data.push(255);
    proof {
        assert(white_data@ =~= seq![255u8, 255u8, 255u8, 255u8]);
    }
    let white = match Texture::new_from_image(1, 1, white_data, resources) {
        Ok(t) => t,
        Err(_) => {
            proof {
                assert(false);
            }
            Texture { width: 0, height: 0, kind: TextureKind::Storage, data: Vec::new() }
        },
    };

    let storage = match Texture::new_compute_storage(1, 1, resources) {
        Ok(t) => t,
        Err(_) => {
            proof {
                assert(false);
            }
            Texture { width: 0, height: 0, kind: TextureKind::Storage, data: Vec::new() }
        },
    };

    let mut result: Vec<(String, Texture)> = Vec::new();
    result.push(("black".to_owned(), black));
    result.push(("white".to_owned(), white));
    result.push(("compute storage".to_owned(), storage));
    proof {
        reveal_strlit("black");
        reveal_strlit("white");
        reveal_strlit("compute storage");
        assert(("black"@).len() == 5);
        assert(("white"@).len() == 5);
        assert(("compute storage"@).len() == 15);
        assert(("black"@)[0] == 'b');
        assert(("white"@)[0] == 'w');
        assert(result@[0].0@ != result@[1].0@);
        assert(result@[0].0@ != result@[2].0@);
        assert(result@[1].0@ != result@[2].0@);
    }
    result
}

} // verus!
