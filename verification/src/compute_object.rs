//! A compute object: a compute material by name, plus an optional owned
//! output texture that compute passes write.

use vstd::prelude::*;
use crate::commands::GpuCommand;
use crate::error::{RenderError, ResourceKind};
use crate::resources::Resources;
use crate::texture::{Texture, TextureKind};

verus! {

/// Workgroups needed to cover `pixels` at the fixed 16-wide tile the
/// compute shaders declare.
pub open spec fn workgroup_count(pixels: u32) -> u32 {
    ((pixels + 15) / 16) as u32
}

/// References a compute material by registry name and owns its output
/// texture, when it has one. The output texture is independently resizable
/// and survives scene mutation.
#[derive(Debug)]
pub struct ComputeObject {
    pub compute_material_name: String,
    pub output_texture: Option<Texture>,
}

/// What dispatching one compute object records: bind its pipeline, then —
/// when it owns an output texture — bind that texture's group and cover it
/// with 16-by-16 tiles; without one, dispatch the fixed default grid.
pub open spec fn compute_object_commands(co: ComputeObject, object_index: usize) -> Seq<
    GpuCommand,
> {
    seq![GpuCommand::SetComputePipeline { material: co.compute_material_name }]
        + match co.output_texture {
        Some(t) => seq![
            GpuCommand::SetComputeBindGroup { object: object_index },
            GpuCommand::Dispatch {
                x: workgroup_count(t.width),
                y: workgroup_count(t.height),
                z: 1u32,
            },
        ],
        None => seq![GpuCommand::Dispatch { x: 16u32, y: 16u32, z: 1u32 }],
    }
}

/// Ceiling division by the tile width, in executable form.
fn div_ceil_16(pixels: u32) -> (r: u32)
    ensures
        r == workgroup_count(pixels),
{
    ((pixels as u64 + 15) / 16) as u32
}

impl ComputeObject {
    /// Build a compute object owning a fresh storage texture of the given
    /// size. The texture needs the compute-storage layout; a registry
    /// without one is reported and nothing is created.
    pub fn new_with_output_texture(
        compute_material_name: String,
        texture_width: u32,
        texture_height: u32,
        resources: &Resources,
    ) -> (r: Result<ComputeObject, RenderError>)
        ensures
            r is Ok <==> resources.has_bind_group_layout("compute storage"@),
            r matches Ok(co) ==> co.compute_material_name == compute_material_name
                && (co.output_texture matches Some(t) && t.width == texture_width
                && t.height == texture_height && t.kind == TextureKind::Storage && t.wf()),
            !resources.has_bind_group_layout("compute storage"@) ==> (r matches Err(e)
                && e.is_not_found(ResourceKind::BindGroupLayout)
                && e.missing_name() == "compute storage"@),
    {
        let output_texture = match Texture::new_compute_storage(
            texture_width,
            texture_height,
            resources,
        ) {
            Ok(t) => t,
            Err(e) => {
                return Err(e);
            },
        };
        Ok(ComputeObject { compute_material_name, output_texture: Some(output_texture) })
    }

    /// Replace the output texture with one of the given size, reporting the
    /// overlap extent the embedding copies from the old texture into the
    /// new one. Validates before mutating: without an output texture, or
    /// without the compute-storage layout, the object is untouched.
    pub fn resize_output_texture(
        &mut self,
        width: u32,
        height: u32,
        resources: &Resources,
    ) -> (r: Result<(u32, u32), RenderError>)
        ensures
            r is Ok <==> old(self).output_texture is Some
                && resources.has_bind_group_layout("compute storage"@),
            r is Err ==> *final(self) == *old(self),
            old(self).output_texture is None ==> (r matches Err(e)
                && e matches RenderError::NoOutputTexture),
            old(self).output_texture matches Some(t) ==> (resources.has_bind_group_layout(
                "compute storage"@,
            ) ==> (r matches Ok(extent)
                && extent.0 == if t.width < width { t.width } else { width }
                && extent.1 == if t.height < height { t.height } else { height }
                && final(self).compute_material_name == old(self).compute_material_name
                && (final(self).output_texture matches Some(nt) && nt.width == width
                && nt.height == height && nt.kind == TextureKind::Storage && nt.wf()))),
            old(self).output_texture is Some && !resources.has_bind_group_layout(
                "compute storage"@,
            ) ==> (r matches Err(e) && e.is_not_found(ResourceKind::BindGroupLayout)
                && e.missing_name() == "compute storage"@),
    {
        let old_texture = match &self.output_texture {
            Some(t) => t,
            None => {
                return Err(RenderError::NoOutputTexture);
            },
        };
        let new_texture = match Texture::new_compute_storage(width, height, resources) {
            Ok(t) => t,
            Err(e) => {
                return Err(e);
            },
        };

        let copy_width = if old_texture.get_width() < new_texture.get_width() {
            old_texture.get_width()
        } else {
            new_texture.get_width()
        };
        let copy_height = if old_texture.get_height() < new_texture.get_height() {
            old_texture.get_height()
        } else {
            new_texture.get_height()
        };

        self.output_texture = Some(new_texture);
        Ok((copy_width, copy_height))
    }

    /// Record this object's dispatch. The material name is resolved before
    /// anything is recorded, so a missing material leaves the command list
    /// untouched.
    pub fn dispatch(
        &self,
        object_index: usize,
        resources: &Resources,
        commands: &mut Vec<GpuCommand>,
    ) -> (r: Result<(), RenderError>)
        ensures
            r is Ok <==> resources.has_compute_material(self.compute_material_name@),
            r is Ok ==> final(commands)@ == old(commands)@ + compute_object_commands(
                *self,
                object_index,
            ),
            r is Err ==> final(commands)@ == old(commands)@ && (r matches Err(e)
                && e.is_not_found(ResourceKind::ComputeMaterial)
                && e.missing_name() == self.compute_material_name@),
    {
        match resources.get_compute_material(self.compute_material_name.as_str()) {
            Ok(_) => (),
            Err(e) => {
                return Err(e);
            },
        }

        let ghost commands0 = commands@;
        commands.push(GpuCommand::SetComputePipeline {
            material: self.compute_material_name.clone(),
        });
        match &self.output_texture {
            Some(texture) => {
                commands.push(GpuCommand::SetComputeBindGroup { object: object_index });
                let x = div_ceil_16(texture.get_width());
                let y = div_ceil_16(texture.get_height());
                commands.push(GpuCommand::Dispatch { x, y, z: 1 });
            },
            None => {
                commands.push(GpuCommand::Dispatch { x: 16, y: 16, z: 1 });
            },
        }
        proof {
            assert(commands@ =~= commands0 + compute_object_commands(*self, object_index));
        }
        Ok(())
    }

    pub fn has_output_texture(&self) -> (r: bool)
        ensures
            r == (self.output_texture is Some),
    {
        self.output_texture.is_some()
    }

    pub fn get_output_texture(&self) -> (r: Option<&Texture>)
        ensures
            match r {
                Some(t) => self.output_texture matches Some(ot) && *t == ot,
                None => self.output_texture is None,
            },
    {
        self.output_texture.as_ref()
    }
}

} // verus!
