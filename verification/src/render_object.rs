//! A render object: three resource names, resolved at draw time.

use vstd::prelude::*;
use crate::camera::{camera_after_read, camera_uniform, Camera};
use crate::commands::GpuCommand;
use crate::error::{RenderError, ResourceKind};
use crate::model::Model;
use crate::resources::Resources;
use crate::shader_data::ShaderPushConstants;
use crate::viewport::Viewport;

verus! {

/// References a render material, a texture and a model by registry name.
#[derive(Debug)]
pub struct RenderObject {
    pub material_name: String,
    pub texture_name: String,
    pub model_name: String,
}

/// What drawing one render object records: bind its pipeline, its texture
/// at slot zero and the camera at slot one — preceded by the one uniform
/// upload if the camera was dirty — then push constants, the model's
/// buffers, and the draw itself.
pub open spec fn render_object_commands(
    ro: RenderObject,
    cam: Camera,
    vp: Viewport,
    model: Model,
    pc: ShaderPushConstants,
) -> Seq<GpuCommand> {
    seq![
        GpuCommand::SetRenderPipeline { material: ro.material_name },
        GpuCommand::SetTextureBindGroup { slot: 0u32, texture: ro.texture_name },
    ] + (if cam.dirty {
        seq![GpuCommand::UploadCameraUniform { contents: camera_uniform(cam, vp) }]
    } else {
        Seq::empty()
    }) + seq![
        GpuCommand::SetCameraBindGroup { slot: 1u32 },
        GpuCommand::SetPushConstants { constants: pc },
        GpuCommand::SetModelBuffers { model: ro.model_name },
        if model.indexed() {
            GpuCommand::DrawIndexed { index_count: model.index_buffer->Some_0@.len() as usize }
        } else {
            GpuCommand::Draw { vertex_count: model.vertex_buffer@.len() as usize }
        },
    ]
}

impl RenderObject {
    pub fn new(material_name: String, texture_name: String, model_name: String) -> (r:
        RenderObject)
        ensures
            r.material_name == material_name,
            r.texture_name == texture_name,
            r.model_name == model_name,
    {
        RenderObject { material_name, texture_name, model_name }
    }

    /// Record this object's draw. All three names are resolved before
    /// anything is recorded, so a missing one — reported material first,
    /// then texture, then model — leaves the command list and the camera
    /// untouched. On success the camera comes out clean, refreshed through
    /// its one upload if it was dirty.
    pub fn draw(
        &self,
        camera: &mut Camera,
        resources: &Resources,
        viewport: &Viewport,
        push_constants: &ShaderPushConstants,
        commands: &mut Vec<GpuCommand>,
    ) -> (r: Result<(), RenderError>)
        requires
            old(camera).wf(),
            resources.wf(),
        ensures
            r is Ok <==> resources.has_render_material(self.material_name@)
                && resources.has_texture(self.texture_name@)
                && resources.has_model(self.model_name@),
            r is Ok ==> *final(camera) == camera_after_read(*old(camera), *viewport)
                && final(commands)@ == old(commands)@ + render_object_commands(
                    *self,
                    *old(camera),
                    *viewport,
                    resources.model_named(self.model_name@),
                    *push_constants,
                ),
            r is Err ==> *final(camera) == *old(camera) && final(commands)@ == old(commands)@,
            !resources.has_render_material(self.material_name@) ==> (r matches Err(e)
                && e.is_not_found(ResourceKind::RenderMaterial)
                && e.missing_name() == self.material_name@),
            resources.has_render_material(self.material_name@) && !resources.has_texture(
                self.texture_name@,
            ) ==> (r matches Err(e) && e.is_not_found(ResourceKind::Texture)
                && e.missing_name() == self.texture_name@),
            resources.has_render_material(self.material_name@) && resources.has_texture(
                self.texture_name@,
            ) && !resources.has_model(self.model_name@) ==> (r matches Err(e)
                && e.is_not_found(ResourceKind::Model) && e.missing_name() == self.model_name@),
            final(camera).wf(),
    {
        match resources.get_render_material(self.material_name.as_str()) {
            Ok(_) => (),
            Err(e) => {
                return Err(e);
            },
        }
        match resources.get_texture(self.texture_name.as_str()) {
            Ok(_) => (),
            Err(e) => {
                return Err(e);
            },
        }
        let model = match resources.get_model(self.model_name.as_str()) {
            Ok(m) => m,
            Err(e) => {
                return Err(e);
            },
        };

        let ghost camera0 = *camera;
        let ghost commands0 = commands@;

        commands.push(GpuCommand::SetRenderPipeline { material: self.material_name.clone() });
        commands.push(GpuCommand::SetTextureBindGroup {
            slot: 0,
            texture: self.texture_name.clone(),
        });
        match camera.get_bind_group(viewport) {
            Some(contents) => {
                commands.push(GpuCommand::UploadCameraUniform { contents });
            },
            None => (),
        }
        commands.push(GpuCommand::SetCameraBindGroup { slot: 1 });
        commands.push(GpuCommand::SetPushConstants { constants: *push_constants });
        commands.push(GpuCommand::SetModelBuffers { model: self.model_name.clone() });
        model.draw(commands);

        proof {
            assert(commands@ =~= commands0 + render_object_commands(
                *self,
                camera0,
                *viewport,
                resources.model_named(self.model_name@),
                *push_constants,
            ));
        }
        Ok(())
    }
}

} // verus!
