//! Textures: sampled images and compute storage images.
//!
//! The GPU image and its bind group live with the embedding, paired one to
//! one with this record. A sampled texture is built against the registered
//! single-texture layout and the nearest sampler; a storage texture against
//! the compute-storage layout. The two layouts are distinct and a texture
//! is only ever bound through the one it was built with.

use vstd::prelude::*;
use crate::error::{RenderError, ResourceKind};
use crate::resources::Resources;

verus! {

/// Which layout family a texture was built against.
#[derive(Clone, Copy, Debug, PartialEq, Eq, Structural)]
pub enum TextureKind {
    /// Sampled in a fragment shader (single-texture layout).
    Sampled,
    /// Written by a compute shader (compute-storage layout).
    Storage,
}

/// A GPU image plus its bind group, as the orchestration tracks them.
#[derive(Debug)]
pub struct Texture {
    pub width: u32,
    pub height: u32,
    pub kind: TextureKind,
    /// Initial contents for a sampled texture, tightly packed RGBA bytes;
    /// empty for a storage texture, which compute passes fill.
    pub data: Vec<u8>,
}

impl Texture {
    /// A sampled texture's data covers it, four bytes a pixel; a storage
    /// texture carries none.
    pub open spec fn wf(self) -> bool {
        match self.kind {
            TextureKind::Sampled => self.data@.len() == 4 * self.width * self.height,
            TextureKind::Storage => self.data@.len() == 0,
        }
    }

    /// Build a sampled texture from decoded RGBA pixels. Its bind group
    /// needs the nearest sampler and the single-texture layout, so either
    /// being unregistered is reported, sampler first.
    pub fn new_from_image(
        width: u32,
        height: u32,
        data: Vec<u8>,
        resources: &Resources,
    ) -> (r: Result<Texture, RenderError>)
        requires
            data@.len() == 4 * width * height,
        ensures
            r is Ok <==> resources.has_sampler("nearest"@)
                && resources.has_bind_group_layout("single texture"@),
            r matches Ok(t) ==> t == (Texture {
                width,
                height,
                kind: TextureKind::Sampled,
                data,
            }) && t.wf(),
            !resources.has_sampler("nearest"@) ==> (r matches Err(e)
                && e.is_not_found(ResourceKind::Sampler) && e.missing_name() == "nearest"@),
            resources.has_sampler("nearest"@) && !resources.has_bind_group_layout(
                "single texture"@,
            ) ==> (r matches Err(e) && e.is_not_found(ResourceKind::BindGroupLayout)
                && e.missing_name() == "single texture"@),
    {
        match resources.get_sampler("nearest") {
            Ok(_) => (),
            Err(e) => {
                return Err(e);
            },
        }
        match resources.get_bind_group_layout("single texture") {
            Ok(_) => (),
            Err(e) => {
                return Err(e);
            },
        }
        Ok(Texture { width, height, kind: TextureKind::Sampled, data })
    }

    /// Build a compute storage texture. Its bind group needs the
    /// compute-storage layout.
    pub fn new_compute_storage(
        width: u32,
        height: u32,
        resources: &Resources,
    ) -> (r: Result<Texture, RenderError>)
        ensures
            r is Ok <==> resources.has_bind_group_layout("compute storage"@),
            r matches Ok(t) ==> t == (Texture {
                width,
                height,
                kind: TextureKind::Storage,
                data: t.data,
            }) && t.data@.len() == 0 && t.wf(),
            !resources.has_bind_group_layout("compute storage"@) ==> (r matches Err(e)
                && e.is_not_found(ResourceKind::BindGroupLayout)
                && e.missing_name() == "compute storage"@),
    {
        match resources.get_bind_group_layout("compute storage") {
            Ok(_) => (),
            Err(e) => {
                return Err(e);
            },
        }
        Ok(Texture { width, height, kind: TextureKind::Storage, data: Vec::new() })
    }

    pub fn get_width(&self) -> (r: u32)
        ensures
            r == self.width,
    {
        self.width
    }

    pub fn get_height(&self) -> (r: u32)
        ensures
            r == self.height,
    {
        self.height
    }
}

} // verus!
