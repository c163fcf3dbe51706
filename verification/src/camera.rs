//! The camera uniform cache: a Clean/Dirty state machine.
//!
//! The camera owns a GPU-side uniform buffer, modelled here by
//! `uniform_buffer`: the contents last uploaded, if any. Any transform
//! mutation sets the `dirty` flag; the flag is cleared in exactly one place,
//! [`Camera::get_bind_group`], which reports the upload the embedding must
//! perform. Reading twice without an intervening mutation uploads once.

use vstd::prelude::*;
use crate::shader_data::{CameraUniform, Vec3m};
use crate::viewport::Viewport;

verus! {

/// Camera transform state plus the model of its GPU uniform buffer.
#[derive(Clone, Copy, Debug)]
pub struct Camera {
    /// Eye position, thousandths of a unit.
    pub position: Vec3m,
    /// Look-at target; the orthonormal basis is derived from it, never stored.
    pub pivot: Vec3m,
    /// World up direction, thousandths of a unit.
    pub world_up: Vec3m,
    /// Vertical field of view, thousandths of a degree.
    pub fov_y_millideg: u32,
    /// Near plane, thousandths of a unit.
    pub near_millis: u64,
    /// Far plane, thousandths of a unit.
    pub far_millis: u64,
    /// Set on any transform mutation; cleared only by an upload.
    pub dirty: bool,
    /// Contents of the GPU uniform buffer: what the last upload wrote,
    /// or `None` before the first upload.
    pub uniform_buffer: Option<CameraUniform>,
}

/// The uniform contents an upload writes: the camera transform state as it
/// stands, with the viewport the aspect ratio is taken from.
pub open spec fn camera_uniform(c: Camera, vp: Viewport) -> CameraUniform {
    CameraUniform {
        position: c.position,
        pivot: c.pivot,
        world_up: c.world_up,
        fov_y_millideg: c.fov_y_millideg,
        near_millis: c.near_millis,
        far_millis: c.far_millis,
        viewport_width: vp.width,
        viewport_height: vp.height,
    }
}

/// The camera after one bind-group read: a dirty camera uploads and comes
/// out clean, a clean one is untouched.
pub open spec fn camera_after_read(c: Camera, vp: Viewport) -> Camera {
    if c.dirty {
        Camera { dirty: false, uniform_buffer: Some(camera_uniform(c, vp)), ..c }
    } else {
        c
    }
}

/// The camera after `n` consecutive bind-group reads with no intervening
/// mutation.
pub open spec fn camera_after_reads(c: Camera, vp: Viewport, n: nat) -> Camera
    decreases n,
{
    if n == 0 {
        c
    } else {
        camera_after_read(camera_after_reads(c, vp, (n - 1) as nat), vp)
    }
}

/// How many of `n` consecutive bind-group reads perform an upload.
pub open spec fn uploads_during_reads(c: Camera, vp: Viewport, n: nat) -> nat
    decreases n,
{
    if n == 0 {
        0
    } else {
        uploads_during_reads(c, vp, (n - 1) as nat)
            + if camera_after_reads(c, vp, (n - 1) as nat).dirty { 1nat } else { 0nat }
    }
}

/// Dirty-flag idempotence: over any sequence of reads with no intervening
/// mutation, the uniform buffer is uploaded exactly once if the camera
/// started dirty and never otherwise, the first read settles the state, and
/// the buffer afterwards holds the serialization inputs captured from the
/// state at the first read.
pub proof fn lemma_dirty_flag_idempotence(c: Camera, vp: Viewport, n: nat)
    requires
        n >= 1,
    ensures
        camera_after_reads(c, vp, n) == camera_after_read(c, vp),
        uploads_during_reads(c, vp, n) == if c.dirty { 1nat } else { 0nat },
        c.dirty ==> camera_after_reads(c, vp, n).uniform_buffer == Some(camera_uniform(c, vp)),
        !camera_after_reads(c, vp, n).dirty,
    decreases n,
{
    if n == 1 {
        assert(camera_after_reads(c, vp, 0) == c);
        assert(uploads_during_reads(c, vp, 0) == 0);
    } else {
        lemma_dirty_flag_idempotence(c, vp, (n - 1) as nat);
    }
}

impl Camera {
    /// A clean camera's buffer is never stale: it holds the last upload.
    pub open spec fn wf(self) -> bool {
        !self.dirty ==> self.uniform_buffer is Some
    }

    /// The default camera: eye five units back on the Z axis looking at the
    /// origin, Y up, a 45-degree field of view, near and far planes at a
    /// tenth of a unit and at a hundred units. Dirty, so the first read
    /// uploads.
    pub fn new() -> (c: Camera)
        ensures
            c == default_camera(),
            c.dirty,
            c.wf(),
    {
        Camera {
            position: Vec3m { x: 0, y: 0, z: 5000 },
            pivot: Vec3m { x: 0, y: 0, z: 0 },
            world_up: Vec3m { x: 0, y: 1000, z: 0 },
            fov_y_millideg: 45000,
            near_millis: 100,
            far_millis: 100000,
            dirty: true,
            uniform_buffer: None,
        }
    }

    /// Move the eye, keeping the pivot: a transform mutation, so the camera
    /// comes out dirty.
    pub fn set_position(&mut self, position: Vec3m)
        ensures
            *final(self) == (Camera { position, dirty: true, ..*old(self) }),
            final(self).wf(),
    {
        self.position = position;
        self.dirty = true;
    }

    /// Aim at a new target. Aiming at the eye itself would degenerate the
    /// derived basis, so that call is ignored; any other target moves the
    /// pivot and dirties the camera.
    pub fn look_at(&mut self, target: Vec3m)
        ensures
            *final(self) == if target == old(self).position {
                *old(self)
            } else {
                Camera { pivot: target, dirty: true, ..*old(self) }
            },
            old(self).wf() ==> final(self).wf(),
    {
        if target == self.position {
            return;
        }
        self.pivot = target;
        self.dirty = true;
    }

    pub fn get_position(&self) -> (r: Vec3m)
        ensures
            r == self.position,
    {
        self.position
    }

    pub fn get_pivot(&self) -> (r: Vec3m)
        ensures
            r == self.pivot,
    {
        self.pivot
    }

    pub fn get_near(&self) -> (r: u64)
        ensures
            r == self.near_millis,
    {
        self.near_millis
    }

    pub fn get_far(&self) -> (r: u64)
        ensures
            r == self.far_millis,
    {
        self.far_millis
    }

    /// Hand out the camera bind group for a render pass. If the state
    /// changed since the last upload, report the one upload the embedding
    /// must perform first; otherwise the buffer is already current and no
    /// GPU traffic is owed.
    pub fn get_bind_group(&mut self, viewport: &Viewport) -> (upload: Option<CameraUniform>)
        requires
            old(self).wf(),
        ensures
            *final(self) == camera_after_read(*old(self), *viewport),
            upload == if old(self).dirty {
                Some(camera_uniform(*old(self), *viewport))
            } else {
                None::<CameraUniform>
            },
            !final(self).dirty,
            final(self).wf(),
    {
        if self.dirty {
            let contents = CameraUniform {
                position: self.position,
                pivot: self.pivot,
                world_up: self.world_up,
                fov_y_millideg: self.fov_y_millideg,
                near_millis: self.near_millis,
                far_millis: self.far_millis,
                viewport_width: viewport.width,
                viewport_height: viewport.height,
            };
            self.uniform_buffer = Some(contents);
            self.dirty = false;
            Some(contents)
        } else {
            None
        }
    }
}

/// The state [`Camera::new`] establishes.
pub open spec fn default_camera() -> Camera {
    Camera {
        position: Vec3m { x: 0i64, y: 0i64, z: 5000i64 },
        pivot: Vec3m { x: 0i64, y: 0i64, z: 0i64 },
        world_up: Vec3m { x: 0i64, y: 1000i64, z: 0i64 },
        fov_y_millideg: 45000u32,
        near_millis: 100u64,
        far_millis: 100000u64,
        dirty: true,
        uniform_buffer: None,
    }
}

} // verus!
