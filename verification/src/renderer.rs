//! The renderer facade: the viewport and the resource registry, with the
//! operations a frame loop drives.
//!
//! The embedding owns the window, the device and the queue; it builds a
//! renderer once the surface is configured, then feeds resize events in and
//! replays each composed frame's commands against the device.

use vstd::prelude::*;
use crate::camera::{camera_after_read, default_camera, Camera};
use crate::commands::GpuCommand;
use crate::error::RenderError;
use crate::frame::{
    camera_at, compose_frame, frame_commands, frame_error, scene_references_valid,
    FrameDrawContext,
};
use crate::quad::quad_after_resize;
use crate::resources::Resources;
use crate::scene::Scene;
use crate::viewport::Viewport;

verus! {

/// The presentable viewport and every GPU-resident resource.
#[derive(Debug)]
pub struct Renderer {
    pub viewport: Viewport,
    pub resources: Resources,
}

impl Renderer {
    /// Build the renderer around a freshly configured surface of the given
    /// size and format, initializing the registry's default resources.
    pub fn new(width: u32, height: u32, srgb: bool) -> (r: Result<Renderer, RenderError>)
        requires
            width > 0,
            height > 0,
        ensures
            r matches Ok(rr) && rr.viewport == (Viewport {
                width,
                height,
                srgb,
                present_mode: crate::viewport::PresentMode::AutoNoVsync,
            }) && rr.resources.wf() && rr.resources.has_default_resources(),
    {
        let viewport = Viewport::new(width, height, srgb);
        let resources = match Resources::new(&viewport) {
            Ok(res) => res,
            Err(e) => {
                proof {
                    assert(false);
                }
                return Err(e);
            },
        };
        Ok(Renderer { viewport, resources })
    }

    pub fn get_viewport(&self) -> (r: &Viewport)
        ensures
            r == &self.viewport,
    {
        &self.viewport
    }

    pub fn get_viewport_size(&self) -> (r: (u32, u32))
        ensures
            r == (self.viewport.width, self.viewport.height),
    {
        self.viewport.get_size()
    }

    /// Apply a resize event: ignore zero-sized events; otherwise take the
    /// new size and rebuild the fullscreen quad's vertex buffer against it.
    /// The result says whether the embedding must reconfigure the surface
    /// before the next acquisition.
    pub fn resize(&mut self, new_width: u32, new_height: u32) -> (reconfigure: bool)
        requires
            old(self).resources.wf(),
        ensures
            reconfigure == (new_width > 0 && new_height > 0),
            !reconfigure ==> *final(self) == *old(self),
            reconfigure ==> final(self).viewport == (Viewport {
                width: new_width,
                height: new_height,
                ..old(self).viewport
            }) && final(self).resources == (Resources {
                fullscreen_quad: final(self).resources.fullscreen_quad,
                ..old(self).resources
            }) && final(self).resources.fullscreen_quad@ == quad_after_resize(
                old(self).resources.fullscreen_quad@,
                final(self).viewport,
            ),
            final(self).resources.wf(),
            final(self).resources.has_default_resources()
                == old(self).resources.has_default_resources(),
    {
        let reconfigure = self.viewport.resize(new_width, new_height);
        if reconfigure {
            self.resources.fullscreen_quad.resize_to_viewport(&self.viewport);
        }
        reconfigure
    }

    /// Swap in a new background image: register its decoded pixels as the
    /// texture named "background" and refit the fullscreen quad to the
    /// image's aspect ratio.
    pub fn set_background_image(
        &mut self,
        image_width: u32,
        image_height: u32,
        data: Vec<u8>,
    ) -> (r: Result<(), RenderError>)
        requires
            old(self).resources.wf(),
            data@.len() == 4 * image_width * image_height,
            image_width > 0,
            image_height > 0,
            old(self).viewport.width > 0,
            old(self).viewport.height > 0,
        ensures
            r is Ok <==> old(self).resources.has_sampler("nearest"@) && old(
                self,
            ).resources.has_bind_group_layout("single texture"@),
            r is Err ==> *final(self) == *old(self),
            r is Ok ==> final(self).viewport == old(self).viewport
                && final(self).resources.wf() && final(self).resources.has_texture(
                "background"@,
            ) && final(self).resources.texture_named("background"@).width == image_width
                && final(self).resources.texture_named("background"@).height == image_height
                && final(self).resources.texture_named("background"@).kind
                == crate::texture::TextureKind::Sampled && final(self).resources.texture_named(
                "background"@,
            ).data@ == data@ && final(self).resources.fullscreen_quad@ == quad_after_resize(
                crate::quad::QuadView {
                    image_width,
                    image_height,
                    ..old(self).resources.fullscreen_quad@
                },
                old(self).viewport,
            ),
    {
        let texture = match crate::texture::Texture::new_from_image(
            image_width,
            image_height,
            data,
            &self.resources,
        ) {
            Ok(t) => t,
            Err(e) => {
                return Err(e);
            },
        };
        let ghost registered = texture;
        self.resources.add_texture("background", texture);
        proof {
            let t = self.resources.textures@;
            let k = crate::resources::table_index(t, "background"@);
            if old(self).resources.has_texture("background"@) {
                let idx = crate::resources::table_index(
                    old(self).resources.textures@,
                    "background"@,
                );
                assert(0 <= idx < old(self).resources.textures@.len() && old(
                    self,
                ).resources.textures@[idx].0@ == "background"@);
                assert(t[idx].0@ == "background"@ && t[idx].1 == registered);
                assert(0 <= k < t.len() && t[k].0@ == "background"@);
                if k != idx {
                    assert(t[k].0@ != t[idx].0@);
                    assert(false);
                }
            } else {
                assert(t[t.len() - 1].0@ == "background"@ && t[t.len() - 1].1 == registered);
                assert(0 <= k < t.len() && t[k].0@ == "background"@);
                if k != t.len() - 1 {
                    assert(t[k].0@ != t[t.len() - 1].0@);
                    assert(false);
                }
            }
            assert(self.resources.texture_named("background"@) == registered);
        }
        self.resources.fullscreen_quad.set_content_size(
            image_width,
            image_height,
            &self.viewport,
        );
        Ok(())
    }

    /// Choose the present mode; the embedding reconfigures the surface with
    /// it at the next opportunity.
    pub fn set_vsync(&mut self, enable: bool)
        ensures
            final(self).viewport.present_mode == (if enable {
                crate::viewport::PresentMode::AutoVsync
            } else {
                crate::viewport::PresentMode::AutoNoVsync
            }),
            final(self).viewport.width == old(self).viewport.width,
            final(self).viewport.height == old(self).viewport.height,
            final(self).viewport.srgb == old(self).viewport.srgb,
            final(self).resources == old(self).resources,
    {
        self.viewport.set_vsync(enable);
    }

    /// A fresh camera in its default pose, dirty so its first read uploads.
    pub fn create_camera(&self) -> (c: Camera)
        ensures
            c == default_camera(),
            c.wf(),
    {
        Camera::new()
    }

    /// A fresh, empty scene.
    pub fn create_scene(&self) -> (s: Scene)
        ensures
            s.render_objects@.len() == 0,
            s.compute_objects@.len() == 0,
    {
        Scene::new()
    }

    /// Compose one frame against the scene; see
    /// [`crate::frame::compose_frame`] for the command-sequence contract.
    pub fn render(
        &self,
        camera: &mut Camera,
        scene: &Scene,
        ctx: &FrameDrawContext,
    ) -> (r: Result<Vec<GpuCommand>, RenderError>)
        requires
            old(camera).wf(),
            self.resources.wf(),
        ensures
            r is Ok <==> scene_references_valid(*scene, self.resources),
            r matches Ok(cmds) ==> cmds@ == frame_commands(
                *scene,
                self.resources,
                *old(camera),
                self.viewport,
                *ctx,
            ),
            r is Ok ==> *final(camera) == camera_at(
                *old(camera),
                self.viewport,
                scene.render_objects@.len() as int,
            ),
            r matches Err(e) ==> (frame_error(*scene, self.resources) matches Some(ke)
                && e.is_not_found(ke.0) && e.missing_name() == ke.1),
            r is Err ==> (*final(camera) == *old(camera) || *final(camera) == camera_after_read(
                *old(camera),
                self.viewport,
            )),
            final(camera).wf(),
    {
        compose_frame(scene, &self.resources, camera, &self.viewport, ctx)
    }
}

} // verus!
