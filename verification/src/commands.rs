//! The commands one frame records, in submission order.
//!
//! Frame composition produces a `Vec<GpuCommand>`; the embedding replays it
//! against the real device, encoder and passes. Recording order is
//! submission order, which is what the pass-ordering guarantees are stated
//! over.

use vstd::prelude::*;
use crate::shader_data::{CameraUniform, ShaderPushConstants};

verus! {

/// One recorded GPU command. Resources are referenced by registry name;
/// compute output textures, which are owned by their objects rather than
/// named, are referenced by the object's position in the scene.
#[derive(Debug)]
pub enum GpuCommand {
    /// Open the frame's compute pass.
    BeginComputePass,
    /// Bind a compute pipeline by compute-material name.
    SetComputePipeline { material: String },
    /// Bind the output-texture bind group of the given compute object.
    SetComputeBindGroup { object: usize },
    /// Dispatch a workgroup grid.
    Dispatch { x: u32, y: u32, z: u32 },
    /// Close the compute pass.
    EndComputePass,
    /// Copy a compute object's output texture into the acquired surface
    /// image; the extent is the overlap of the two.
    CopyTextureToSurface { object: usize, width: u32, height: u32 },
    /// Open the frame's render pass. `load_previous` asks for a load
    /// operation instead of a clear, preserving copied-in content.
    BeginRenderPass { load_previous: bool },
    /// Bind a render pipeline by render-material name.
    SetRenderPipeline { material: String },
    /// Bind a named texture's bind group at a slot.
    SetTextureBindGroup { slot: u32, texture: String },
    /// Write fresh contents into the camera uniform buffer via a staging
    /// copy, before the camera bind group is used.
    UploadCameraUniform { contents: CameraUniform },
    /// Bind the camera bind group at a slot.
    SetCameraBindGroup { slot: u32 },
    /// Set the per-draw push constants.
    SetPushConstants { constants: ShaderPushConstants },
    /// Bind a named model's vertex (and, if present, index) buffer.
    SetModelBuffers { model: String },
    /// Draw the bound model without indices.
    Draw { vertex_count: usize },
    /// Draw the bound model through its index buffer.
    DrawIndexed { index_count: usize },
    /// Close the render pass.
    EndRenderPass,
    /// Submit the frame's one command buffer.
    Submit,
    /// Present the acquired surface image.
    Present,
}

impl GpuCommand {
    /// Compute-dispatch commands, for pass-ordering statements.
    pub open spec fn is_dispatch(self) -> bool {
        self is Dispatch
    }

    /// Surface-copy commands, for pass-ordering statements.
    pub open spec fn is_surface_copy(self) -> bool {
        self is CopyTextureToSurface
    }

    /// Draw commands, for pass-ordering statements.
    pub open spec fn is_draw(self) -> bool {
        self is Draw || self is DrawIndexed
    }
}

} // verus!
