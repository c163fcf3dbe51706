//! The scene: ordered render and compute objects, validated on insertion.
//!
//! Every name an object carries is checked against the registry before the
//! object is appended, so a scene never holds a dangling reference. Draw
//! order is insertion order; nothing is ever reordered.

use vstd::prelude::*;
use crate::compute_object::ComputeObject;
use crate::error::{RenderError, ResourceKind};
use crate::render_object::RenderObject;
use crate::resources::Resources;
use crate::texture::TextureKind;

verus! {

/// Ordered lists of render objects and compute objects.
#[derive(Debug)]
pub struct Scene {
    pub render_objects: Vec<RenderObject>,
    pub compute_objects: Vec<ComputeObject>,
}

impl Scene {
    pub fn new() -> (s: Scene)
        ensures
            s.render_objects@.len() == 0,
            s.compute_objects@.len() == 0,
    {
        Scene { render_objects: Vec::new(), compute_objects: Vec::new() }
    }

    pub fn get_render_objects(&self) -> (r: &Vec<RenderObject>)
        ensures
            r == &self.render_objects,
    {
        &self.render_objects
    }

    pub fn get_compute_objects(&self) -> (r: &Vec<ComputeObject>)
        ensures
            r == &self.compute_objects,
    {
        &self.compute_objects
    }

    /// Validate the three names against the registry and append a render
    /// object holding them. On any missing name — reported material first,
    /// then texture, then model — the scene is left exactly as it was.
    pub fn add_render_object(
        &mut self,
        resources: &Resources,
        material_name: &str,
        texture_name: &str,
        model_name: &str,
    ) -> (r: Result<(), RenderError>)
        ensures
            r is Ok <==> resources.has_render_material(material_name@)
                && resources.has_texture(texture_name@) && resources.has_model(model_name@),
            r is Ok ==> final(self).compute_objects == old(self).compute_objects
                && final(self).render_objects@.len() == old(self).render_objects@.len() + 1
                && final(self).render_objects@.drop_last() == old(self).render_objects@
                && final(self).render_objects@.last().material_name@ == material_name@
                && final(self).render_objects@.last().texture_name@ == texture_name@
                && final(self).render_objects@.last().model_name@ == model_name@,
            r is Err ==> *final(self) == *old(self),
            !resources.has_render_material(material_name@) ==> (r matches Err(e)
                && e.is_not_found(ResourceKind::RenderMaterial)
                && e.missing_name() == material_name@),
            resources.has_render_material(material_name@) && !resources.has_texture(
                texture_name@,
            ) ==> (r matches Err(e) && e.is_not_found(ResourceKind::Texture)
                && e.missing_name() == texture_name@),
            resources.has_render_material(material_name@) && resources.has_texture(texture_name@)
                && !resources.has_model(model_name@) ==> (r matches Err(e)
                && e.is_not_found(ResourceKind::Model) && e.missing_name() == model_name@),
    {
        let render_object = match resources.create_render_object(
            material_name,
            texture_name,
            model_name,
        ) {
            Ok(ro) => ro,
            Err(e) => {
                return Err(e);
            },
        };
        self.render_objects.push(render_object);
        proof {
            assert(self.render_objects@.drop_last() =~= old(self).render_objects@);
        }
        Ok(())
    }

    /// Validate the compute-material name and append a compute object
    /// without an output texture; it dispatches the fixed default grid. On
    /// a missing material the scene is left exactly as it was.
    pub fn add_compute_object(
        &mut self,
        resources: &Resources,
        material_name: &str,
    ) -> (r: Result<(), RenderError>)
        ensures
            r is Ok <==> resources.has_compute_material(material_name@),
            r is Ok ==> final(self).render_objects == old(self).render_objects
                && final(self).compute_objects@.len() == old(self).compute_objects@.len() + 1
                && final(self).compute_objects@.drop_last() == old(self).compute_objects@
                && final(self).compute_objects@.last().compute_material_name@ == material_name@
                && final(self).compute_objects@.last().output_texture is None,
            r is Err ==> *final(self) == *old(self),
            r matches Err(e) ==> e.is_not_found(ResourceKind::ComputeMaterial)
                && e.missing_name() == material_name@,
    {
        let compute_object = match resources.create_compute_object(material_name) {
            Ok(co) => co,
            Err(e) => {
                return Err(e);
            },
        };
        self.compute_objects.push(compute_object);
        proof {
            assert(self.compute_objects@.drop_last() =~= old(self).compute_objects@);
        }
        Ok(())
    }

    /// Validate the compute-material name, then append a compute object
    /// owning a fresh output texture of the given size. On a missing
    /// material or missing compute-storage layout the scene is left
    /// exactly as it was.
    pub fn add_compute_object_with_output_texture(
        &mut self,
        resources: &Resources,
        material_name: &str,
        texture_width: u32,
        texture_height: u32,
    ) -> (r: Result<(), RenderError>)
        ensures
            r is Ok <==> resources.has_compute_material(material_name@)
                && resources.has_bind_group_layout("compute storage"@),
            r is Ok ==> final(self).render_objects == old(self).render_objects
                && final(self).compute_objects@.len() == old(self).compute_objects@.len() + 1
                && final(self).compute_objects@.drop_last() == old(self).compute_objects@
                && final(self).compute_objects@.last().compute_material_name@ == material_name@
                && (final(self).compute_objects@.last().output_texture matches Some(t)
                && t.width == texture_width && t.height == texture_height
                && t.kind == TextureKind::Storage),
            r is Err ==> *final(self) == *old(self),
            !resources.has_compute_material(material_name@) ==> (r matches Err(e)
                && e.is_not_found(ResourceKind::ComputeMaterial)
                && e.missing_name() == material_name@),
            resources.has_compute_material(material_name@) && !resources.has_bind_group_layout(
                "compute storage"@,
            ) ==> (r matches Err(e) && e.is_not_found(ResourceKind::BindGroupLayout)
                && e.missing_name() == "compute storage"@),
    {
        match resources.get_compute_material(material_name) {
            Ok(_) => (),
            Err(e) => {
                return Err(e);
            },
        }
        let compute_object = match ComputeObject::new_with_output_texture(
            material_name.to_owned(),
            texture_width,
            texture_height,
            resources,
        ) {
            Ok(co) => co,
            Err(e) => {
                return Err(e);
            },
        };
        self.compute_objects.push(compute_object);
        proof {
            assert(self.compute_objects@.drop_last() =~= old(self).compute_objects@);
        }
        Ok(())
    }

    /// Resize every compute object's output texture to the given size;
    /// objects without one are untouched. Either every owned texture is
    /// replaced, or — when the compute-storage layout is unregistered and
    /// some object owns a texture — the scene is left exactly as it was.
    pub fn resize_compute_output_textures(
        &mut self,
        width: u32,
        height: u32,
        resources: &Resources,
    ) -> (r: Result<(), RenderError>)
        ensures
            r is Ok <==> (resources.has_bind_group_layout("compute storage"@) || forall|i: int|
                0 <= i < old(self).compute_objects@.len()
                    ==> (#[trigger] old(self).compute_objects@[i]).output_texture is None),
            r is Err ==> final(self).render_objects == old(self).render_objects
                && final(self).compute_objects@ == old(self).compute_objects@,
            r matches Err(e) ==> e.is_not_found(ResourceKind::BindGroupLayout)
                && e.missing_name() == "compute storage"@,
            r is Ok ==> final(self).render_objects == old(self).render_objects
                && final(self).compute_objects@.len() == old(self).compute_objects@.len()
                && forall|i: int|
                0 <= i < old(self).compute_objects@.len() ==> {
                    let co = #[trigger] old(self).compute_objects@[i];
                    let nc = final(self).compute_objects@[i];
                    &&& nc.compute_material_name == co.compute_material_name
                    &&& co.output_texture is None ==> nc == co
                    &&& co.output_texture is Some ==> (nc.output_texture matches Some(t)
                        && t.width == width && t.height == height
                        && t.kind == TextureKind::Storage)
                },
    {
        let mut i: usize = 0;
        while i < self.compute_objects.len()
            invariant
                i <= self.compute_objects@.len(),
                self.render_objects == old(self).render_objects,
                self.compute_objects@.len() == old(self).compute_objects@.len(),
                forall|j: int| i <= j < self.compute_objects@.len()
                    ==> #[trigger] self.compute_objects@[j] == old(self).compute_objects@[j],
                forall|j: int|
                    0 <= j < i ==> {
                        let co = #[trigger] old(self).compute_objects@[j];
                        let nc = self.compute_objects@[j];
                        &&& nc.compute_material_name == co.compute_material_name
                        &&& co.output_texture is None ==> nc == co
                        &&& co.output_texture is Some ==> (nc.output_texture matches Some(t)
                            && t.width == width && t.height == height
                            && t.kind == TextureKind::Storage)
                    },
                forall|j: int|
                    0 <= j < i ==> (#[trigger] old(self).compute_objects@[j]).output_texture
                        is Some ==> resources.has_bind_group_layout("compute storage"@),
            decreases self.compute_objects@.len() - i,
        {
            let has_texture = self.compute_objects[i].has_output_texture();
            if has_texture {
                let compute_object = &mut self.compute_objects[i];
                match compute_object.resize_output_texture(width, height, resources) {
                    Ok(_) => (),
                    Err(e) => {
                        proof {
                            let pre = old(self).compute_objects@;
                            assert(!resources.has_bind_group_layout("compute storage"@));
                            assert forall|j: int|
                                0 <= j < pre.len() implies self.compute_objects@[j] == pre[j] by {
                                if j < i as int {
                                    assert(pre[j].output_texture is None);
                                }
                            }
                            assert(self.compute_objects@ =~= pre);
                        }
                        return Err(e);
                    },
                }
            }
            i = i + 1;
        }
        Ok(())
    }
}

} // verus!
