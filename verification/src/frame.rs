//! The frame orchestrator: one command sequence per frame, compute before
//! copy before render, and the recovery policy for surface acquisition.
//!
//! A frame is composed into an explicit command list in submission order:
//! one compute pass dispatching every compute object in scene order, a copy
//! of the first compute output into the surface image, then one render pass
//! drawing every render object in scene order with a load — not a clear —
//! so the copied content survives, and finally submit and present. A frame
//! either composes completely or reports the first missing reference and
//! yields nothing to submit.

use vstd::prelude::*;
use crate::camera::{camera_after_read, Camera};
use crate::commands::GpuCommand;
use crate::compute_object::{compute_object_commands, ComputeObject};
use crate::error::{RenderError, ResourceKind};
use crate::render_object::{render_object_commands, RenderObject};
use crate::resources::Resources;
use crate::scene::Scene;
use crate::shader_data::ShaderPushConstants;
use crate::viewport::Viewport;

verus! {

/// The acquisition failures a surface can report.
#[derive(Clone, Copy, Debug, PartialEq, Eq, Structural)]
pub enum SurfaceError {
    /// Acquisition timed out waiting for a frame.
    Timeout,
    /// The surface changed and the swap chain must be updated.
    Outdated,
    /// The swap chain was lost and must be recreated.
    Lost,
    /// No memory left for a new frame.
    OutOfMemory,
}

/// What the frame loop does about an acquisition failure.
#[derive(Clone, Copy, Debug, PartialEq, Eq, Structural)]
pub enum AcquireAction {
    /// Reconfigure the surface at the current size and try once more.
    ReconfigureAndRetry,
    /// Propagate as fatal; the loop must stop rendering.
    Fatal,
    /// Log and skip this frame; the loop continues.
    SkipFrame,
}

/// The recovery policy for a failed acquisition.
pub open spec fn acquire_action_spec(error: SurfaceError) -> AcquireAction {
    match error {
        SurfaceError::Lost => AcquireAction::ReconfigureAndRetry,
        SurfaceError::OutOfMemory => AcquireAction::Fatal,
        _ => AcquireAction::SkipFrame,
    }
}

/// Decide what to do about a failed surface acquisition: a lost surface is
/// reconfigured and retried once, out-of-memory is fatal, anything else
/// skips the frame without crashing.
pub fn acquire_error_action(error: &SurfaceError) -> (a: AcquireAction)
    ensures
        a == acquire_action_spec(*error),
{
    match error {
        SurfaceError::Lost => AcquireAction::ReconfigureAndRetry,
        SurfaceError::OutOfMemory => AcquireAction::Fatal,
        _ => AcquireAction::SkipFrame,
    }
}

/// Everything frame composition needs to know about the acquired surface
/// image: its pixel extent, which bounds the compute-output copy.
#[derive(Clone, Copy, Debug, PartialEq, Eq, Structural)]
pub struct FrameDrawContext {
    pub surface_width: u32,
    pub surface_height: u32,
}

/// The compute pass body: every compute object's commands, in scene order,
/// each bound to its own output texture.
pub open spec fn compute_section(objects: Seq<ComputeObject>) -> Seq<GpuCommand>
    decreases objects.len(),
{
    if objects.len() == 0 {
        Seq::empty()
    } else {
        compute_section(objects.drop_last()) + compute_object_commands(
            objects.last(),
            (objects.len() - 1) as usize,
        )
    }
}

/// The first compute object that owns an output texture, if any.
pub open spec fn first_output_object(objects: Seq<ComputeObject>) -> Option<int>
    decreases objects.len(),
{
    if objects.len() == 0 {
        None
    } else if objects.first().output_texture is Some {
        Some(0int)
    } else {
        match first_output_object(objects.drop_first()) {
            Some(i) => Some(i + 1),
            None => None,
        }
    }
}

/// The copy step: the first compute output, clipped to the overlap of that
/// texture and the surface image; nothing when no compute object owns an
/// output texture.
pub open spec fn copy_section(
    objects: Seq<ComputeObject>,
    surface_w: u32,
    surface_h: u32,
) -> Seq<GpuCommand> {
    match first_output_object(objects) {
        Some(i) => {
            let t = objects[i].output_texture->Some_0;
            seq![
                GpuCommand::CopyTextureToSurface {
                    object: i as usize,
                    width: if surface_w < t.width { surface_w } else { t.width },
                    height: if surface_h < t.height { surface_h } else { t.height },
                },
            ]
        },
        None => Seq::empty(),
    }
}

/// The camera as the render object at position `j` sees it: the first
/// object reads the camera as the frame found it, and every later one sees
/// the settled, clean state.
pub open spec fn camera_at(cam: Camera, vp: Viewport, j: int) -> Camera {
    if j == 0 {
        cam
    } else {
        camera_after_read(cam, vp)
    }
}

/// The render pass body: every render object's commands, in scene order,
/// with the camera threaded through its reads.
pub open spec fn render_section(
    objects: Seq<RenderObject>,
    res: Resources,
    cam: Camera,
    vp: Viewport,
    pc: ShaderPushConstants,
) -> Seq<GpuCommand>
    decreases objects.len(),
{
    if objects.len() == 0 {
        Seq::empty()
    } else {
        render_section(objects.drop_last(), res, cam, vp, pc) + render_object_commands(
            objects.last(),
            camera_at(cam, vp, objects.len() - 1),
            vp,
            res.model_named(objects.last().model_name@),
            pc,
        )
    }
}

/// The push constants a frame draws with: the flip of the V coordinate is
/// always on, gamma correction exactly when the surface format is not sRGB.
pub open spec fn frame_push_constants(vp: Viewport) -> ShaderPushConstants {
    ShaderPushConstants { flipv: 1u32, gamma_correct: if vp.srgb { 0u32 } else { 1u32 } }
}

/// One whole frame, in submission order.
pub open spec fn frame_commands(
    scene: Scene,
    res: Resources,
    cam: Camera,
    vp: Viewport,
    ctx: FrameDrawContext,
) -> Seq<GpuCommand> {
    seq![GpuCommand::BeginComputePass] + compute_section(scene.compute_objects@) + seq![
        GpuCommand::EndComputePass,
    ] + copy_section(scene.compute_objects@, ctx.surface_width, ctx.surface_height) + seq![
        GpuCommand::BeginRenderPass { load_previous: true },
    ] + render_section(scene.render_objects@, res, cam, vp, frame_push_constants(vp)) + seq![
        GpuCommand::EndRenderPass,
        GpuCommand::Submit,
        GpuCommand::Present,
    ]
}

/// The first missing compute-material reference, in scene order.
pub open spec fn first_compute_error(objects: Seq<ComputeObject>, res: Resources) -> Option<
    Seq<char>,
>
    decreases objects.len(),
{
    if objects.len() == 0 {
        None
    } else if !res.has_compute_material(objects.first().compute_material_name@) {
        Some(objects.first().compute_material_name@)
    } else {
        first_compute_error(objects.drop_first(), res)
    }
}

/// The first missing render-object reference, in scene order, each object
/// checked material first, then texture, then model.
pub open spec fn first_render_error(objects: Seq<RenderObject>, res: Resources) -> Option<
    (ResourceKind, Seq<char>),
>
    decreases objects.len(),
{
    if objects.len() == 0 {
        None
    } else if !res.has_render_material(objects.first().material_name@) {
        Some((ResourceKind::RenderMaterial, objects.first().material_name@))
    } else if !res.has_texture(objects.first().texture_name@) {
        Some((ResourceKind::Texture, objects.first().texture_name@))
    } else if !res.has_model(objects.first().model_name@) {
        Some((ResourceKind::Model, objects.first().model_name@))
    } else {
        first_render_error(objects.drop_first(), res)
    }
}

/// The first missing reference a frame would hit: compute objects first,
/// then render objects.
pub open spec fn frame_error(scene: Scene, res: Resources) -> Option<(ResourceKind, Seq<char>)> {
    match first_compute_error(scene.compute_objects@, res) {
        Some(name) => Some((ResourceKind::ComputeMaterial, name)),
        None => first_render_error(scene.render_objects@, res),
    }
}

/// A scene is valid against a registry when every reference it holds
/// resolves.
pub open spec fn scene_references_valid(scene: Scene, res: Resources) -> bool {
    frame_error(scene, res) is None
}

proof fn lemma_first_compute_error_skip(objects: Seq<ComputeObject>, res: Resources, i: int)
    requires
        0 <= i <= objects.len(),
        forall|j: int| 0 <= j < i ==> res.has_compute_material(
            (#[trigger] objects[j]).compute_material_name@,
        ),
    ensures
        first_compute_error(objects, res) == first_compute_error(objects.skip(i), res),
    decreases i,
{
    if i > 0 {
        lemma_first_compute_error_skip(objects, res, i - 1);
        let s = objects.skip(i - 1);
        assert(s.first() == objects[i - 1]);
        assert(s.drop_first() =~= objects.skip(i));
    } else {
        assert(objects.skip(0) =~= objects);
    }
}

proof fn lemma_first_render_error_skip(objects: Seq<RenderObject>, res: Resources, i: int)
    requires
        0 <= i <= objects.len(),
        forall|j: int| 0 <= j < i ==> {
            let ro = #[trigger] objects[j];
            res.has_render_material(ro.material_name@) && res.has_texture(ro.texture_name@)
                && res.has_model(ro.model_name@)
        },
    ensures
        first_render_error(objects, res) == first_render_error(objects.skip(i), res),
    decreases i,
{
    if i > 0 {
        lemma_first_render_error_skip(objects, res, i - 1);
        let s = objects.skip(i - 1);
        assert(s.first() == objects[i - 1]);
        assert(s.drop_first() =~= objects.skip(i));
    } else {
        assert(objects.skip(0) =~= objects);
    }
}

proof fn lemma_first_output_object_skip(objects: Seq<ComputeObject>, i: int)
    requires
        0 <= i <= objects.len(),
        forall|j: int| 0 <= j < i ==> (#[trigger] objects[j]).output_texture is None,
    ensures
        first_output_object(objects) == match first_output_object(objects.skip(i)) {
            Some(k) => Some(k + i),
            None => None::<int>,
        },
    decreases i,
{
    if i > 0 {
        lemma_first_output_object_skip(objects, i - 1);
        let s = objects.skip(i - 1);
        assert(s.first() == objects[i - 1]);
        assert(s.drop_first() =~= objects.skip(i));
    } else {
        assert(objects.skip(0) =~= objects);
    }
}

/// Compose one frame against the scene: the compute pass, the copy, the
/// render pass, submit and present, as one command list in submission
/// order. The camera is refreshed through its one upload at the first
/// draw that reads it. A missing reference — compute objects first, then
/// render objects, each in scene order — aborts composition: the error
/// names the first missing resource and no command list is produced, so
/// nothing partial is ever submitted.
pub fn compose_frame(
    scene: &Scene,
    resources: &Resources,
    camera: &mut Camera,
    viewport: &Viewport,
    ctx: &FrameDrawContext,
) -> (r: Result<Vec<GpuCommand>, RenderError>)
    requires
        old(camera).wf(),
        resources.wf(),
    ensures
        r is Ok <==> scene_references_valid(*scene, *resources),
        r matches Ok(cmds) ==> cmds@ == frame_commands(
            *scene,
            *resources,
            *old(camera),
            *viewport,
            *ctx,
        ),
        r is Ok ==> *final(camera) == camera_at(
            *old(camera),
            *viewport,
            scene.render_objects@.len() as int,
        ),
        r matches Err(e) ==> (frame_error(*scene, *resources) matches Some(ke)
            && e.is_not_found(ke.0) && e.missing_name() == ke.1),
        r is Err ==> (*final(camera) == *old(camera) || *final(camera) == camera_after_read(
            *old(camera),
            *viewport,
        )),
        final(camera).wf(),
{
    let ghost cam0 = *camera;
    let mut commands: Vec<GpuCommand> = Vec::new();
    commands.push(GpuCommand::BeginComputePass);

    let compute_count = scene.compute_objects.len();
    let mut i: usize = 0;
    while i < compute_count
        invariant
            resources.wf(),
            camera == old(camera),
            camera.wf(),
            compute_count == scene.compute_objects@.len(),
            i <= compute_count,
            commands@ == seq![GpuCommand::BeginComputePass] + compute_section(
                scene.compute_objects@.take(i as int),
            ),
            forall|j: int| 0 <= j < i ==> resources.has_compute_material(
                (#[trigger] scene.compute_objects@[j]).compute_material_name@,
            ),
        decreases compute_count - i,
    {
        let compute_object = &scene.compute_objects[i];
        match compute_object.dispatch(i, resources, &mut commands) {
            Ok(_) => (),
            Err(e) => {
                proof {
                    lemma_first_compute_error_skip(scene.compute_objects@, *resources, i as int);
                    let s = scene.compute_objects@.skip(i as int);
                    assert(s.first() == scene.compute_objects@[i as int]);
                }
                return Err(e);
            },
        }
        proof {
            let taken = scene.compute_objects@.take(i + 1int);
            assert(taken.drop_last() =~= scene.compute_objects@.take(i as int));
            assert(taken.last() == scene.compute_objects@[i as int]);
        }
        i = i + 1;
    }
    proof {
        assert(scene.compute_objects@.take(compute_count as int) =~= scene.compute_objects@);
        lemma_first_compute_error_skip(
            scene.compute_objects@,
            *resources,
            compute_count as int,
        );
        assert(scene.compute_objects@.skip(compute_count as int) =~= Seq::<
            ComputeObject,
        >::empty());
    }
    commands.push(GpuCommand::EndComputePass);

    let mut first_output: Option<usize> = None;
    let mut k: usize = 0;
    while k < compute_count && first_output.is_none()
        invariant
            compute_count == scene.compute_objects@.len(),
            k <= compute_count,
            forall|j: int| 0 <= j < k
                ==> (#[trigger] scene.compute_objects@[j]).output_texture is None,
            match first_output {
                Some(oi) => oi == k && k < compute_count
                    && scene.compute_objects@[k as int].output_texture is Some,
                None => true,
            },
        decreases compute_count - k + (if first_output is Some { 0int } else { 1int }),
    {
        if scene.compute_objects[k].has_output_texture() {
            first_output = Some(k);
        } else {
            k = k + 1;
        }
    }
    match first_output {
        Some(oi) => {
            proof {
                lemma_first_output_object_skip(scene.compute_objects@, oi as int);
                let s = scene.compute_objects@.skip(oi as int);
                assert(s.first() == scene.compute_objects@[oi as int]);
                assert(first_output_object(scene.compute_objects@) == Some(oi as int));
            }
            let texture = match scene.compute_objects[oi].get_output_texture() {
                Some(t) => t,
                None => {
                    proof {
                        assert(false);
                    }
                    return Err(RenderError::NoOutputTexture);
                },
            };
            let copy_width = if ctx.surface_width < texture.get_width() {
                ctx.surface_width
            } else {
                texture.get_width()
            };
            let copy_height = if ctx.surface_height < texture.get_height() {
                ctx.surface_height
            } else {
                texture.get_height()
            };
            commands.push(GpuCommand::CopyTextureToSurface {
                object: oi,
                width: copy_width,
                height: copy_height,
            });
        },
        None => {
            proof {
                lemma_first_output_object_skip(scene.compute_objects@, compute_count as int);
                assert(scene.compute_objects@.skip(compute_count as int) =~= Seq::<
                    ComputeObject,
                >::empty());
                assert(first_output_object(scene.compute_objects@) is None);
            }
        },
    }

    commands.push(GpuCommand::BeginRenderPass { load_previous: true });
    let push_constants = ShaderPushConstants {
        flipv: 1,
        gamma_correct: if viewport.get_surface_srgb() {
            0
        } else {
            1
        },
    };
    assert(push_constants == frame_push_constants(*viewport));

    let ghost render_base = commands@;
    let render_count = scene.render_objects.len();
    let mut ri: usize = 0;
    while ri < render_count
        invariant
            resources.wf(),
            camera.wf(),
            render_count == scene.render_objects@.len(),
            ri <= render_count,
            push_constants == frame_push_constants(*viewport),
            *camera == camera_at(cam0, *viewport, ri as int),
            cam0 == *old(camera),
            cam0.wf(),
            first_compute_error(scene.compute_objects@, *resources) is None,
            commands@ == render_base + render_section(
                scene.render_objects@.take(ri as int),
                *resources,
                cam0,
                *viewport,
                push_constants,
            ),
            forall|j: int| 0 <= j < ri ==> {
                let ro = #[trigger] scene.render_objects@[j];
                resources.has_render_material(ro.material_name@) && resources.has_texture(
                    ro.texture_name@,
                ) && resources.has_model(ro.model_name@)
            },
        decreases render_count - ri,
    {
        let render_object = &scene.render_objects[ri];
        match render_object.draw(camera, resources, viewport, &push_constants, &mut commands) {
            Ok(_) => (),
            Err(e) => {
                proof {
                    lemma_first_render_error_skip(scene.render_objects@, *resources, ri as int);
                    let s = scene.render_objects@.skip(ri as int);
                    assert(s.first() == scene.render_objects@[ri as int]);
                }
                return Err(e);
            },
        }
        proof {
            let taken = scene.render_objects@.take(ri + 1int);
            assert(taken.drop_last() =~= scene.render_objects@.take(ri as int));
            assert(taken.last() == scene.render_objects@[ri as int]);
        }
        ri = ri + 1;
    }
    proof {
        assert(scene.render_objects@.take(render_count as int) =~= scene.render_objects@);
        lemma_first_render_error_skip(scene.render_objects@, *resources, render_count as int);
        assert(scene.render_objects@.skip(render_count as int) =~= Seq::<RenderObject>::empty());
    }

    commands.push(GpuCommand::EndRenderPass);
    commands.push(GpuCommand::Submit);
    commands.push(GpuCommand::Present);

    proof {
        assert(commands@ =~= frame_commands(*scene, *resources, cam0, *viewport, *ctx));
    }
    Ok(commands)
}


proof fn lemma_compute_section_kinds(objects: Seq<ComputeObject>)
    ensures
        forall|k: int| 0 <= k < compute_section(objects).len()
            ==> !(#[trigger] compute_section(objects)[k]).is_surface_copy()
                && !compute_section(objects)[k].is_draw(),
    decreases objects.len(),
{
    if objects.len() > 0 {
        lemma_compute_section_kinds(objects.drop_last());
        let prefix = compute_section(objects.drop_last());
        let block = compute_object_commands(objects.last(), (objects.len() - 1) as usize);
        assert forall|k: int| 0 <= k < block.len() implies !(#[trigger] block[k]).is_surface_copy()
            && !block[k].is_draw() by {
            match objects.last().output_texture {
                Some(_) => {
                    assert(block.len() == 3);
                },
                None => {
                    assert(block.len() == 2);
                },
            }
        }
        assert forall|k: int| 0 <= k < compute_section(objects).len() implies !(
        #[trigger] compute_section(objects)[k]).is_surface_copy() && !compute_section(
            objects,
        )[k].is_draw() by {
            if k < prefix.len() {
                assert(compute_section(objects)[k] == prefix[k]);
            } else {
                assert(compute_section(objects)[k] == block[k - prefix.len()]);
            }
        }
    }
}

proof fn lemma_render_section_kinds(
    objects: Seq<RenderObject>,
    res: Resources,
    cam: Camera,
    vp: Viewport,
    pc: ShaderPushConstants,
)
    ensures
        forall|k: int| 0 <= k < render_section(objects, res, cam, vp, pc).len()
            ==> !(#[trigger] render_section(objects, res, cam, vp, pc)[k]).is_dispatch()
                && !render_section(objects, res, cam, vp, pc)[k].is_surface_copy(),
    decreases objects.len(),
{
    if objects.len() > 0 {
        lemma_render_section_kinds(objects.drop_last(), res, cam, vp, pc);
        let prefix = render_section(objects.drop_last(), res, cam, vp, pc);
        let block = render_object_commands(
            objects.last(),
            camera_at(cam, vp, objects.len() - 1),
            vp,
            res.model_named(objects.last().model_name@),
            pc,
        );
        assert forall|k: int| 0 <= k < block.len() implies !(#[trigger] block[k]).is_dispatch()
            && !block[k].is_surface_copy() by {
            if camera_at(cam, vp, objects.len() - 1).dirty {
                assert(block.len() == 7);
            } else {
                assert(block.len() == 6);
            }
        }
        assert forall|k: int| 0 <= k < render_section(objects, res, cam, vp, pc).len() implies !(
        #[trigger] render_section(objects, res, cam, vp, pc)[k]).is_dispatch() && !render_section(
            objects,
            res,
            cam,
            vp,
            pc,
        )[k].is_surface_copy() by {
            if k < prefix.len() {
                assert(render_section(objects, res, cam, vp, pc)[k] == prefix[k]);
            } else {
                assert(render_section(objects, res, cam, vp, pc)[k] == block[k - prefix.len()]);
            }
        }
    }
}

/// Frame ordering: in a composed frame, every compute dispatch comes
/// strictly before every copy to the surface, and every copy strictly
/// before every draw — the compute pass is fully ordered before the copy,
/// which is ordered before the render pass, by recording order alone.
pub proof fn lemma_frame_ordering(
    scene: Scene,
    res: Resources,
    cam: Camera,
    vp: Viewport,
    ctx: FrameDrawContext,
)
    ensures
        ({
            let cmds = frame_commands(scene, res, cam, vp, ctx);
            &&& forall|a: int, b: int|
                0 <= a < cmds.len() && 0 <= b < cmds.len() && (#[trigger] cmds[a]).is_dispatch()
                    && (#[trigger] cmds[b]).is_surface_copy() ==> a < b
            &&& forall|a: int, b: int|
                0 <= a < cmds.len() && 0 <= b < cmds.len() && (#[trigger] cmds[a]).is_surface_copy()
                    && (#[trigger] cmds[b]).is_draw() ==> a < b
            &&& forall|a: int, b: int|
                0 <= a < cmds.len() && 0 <= b < cmds.len() && (#[trigger] cmds[a]).is_dispatch()
                    && (#[trigger] cmds[b]).is_draw() ==> a < b
        }),
{
    let cs = compute_section(scene.compute_objects@);
    let cp = copy_section(scene.compute_objects@, ctx.surface_width, ctx.surface_height);
    let pc = frame_push_constants(vp);
    let rs = render_section(scene.render_objects@, res, cam, vp, pc);
    let cmds = frame_commands(scene, res, cam, vp, ctx);
    let copy_start = 2 + cs.len() as int;
    let render_start = copy_start + cp.len() + 1;

    lemma_compute_section_kinds(scene.compute_objects@);
    lemma_render_section_kinds(scene.render_objects@, res, cam, vp, pc);

    assert(cmds.len() == cs.len() + cp.len() + rs.len() + 6);

    assert forall|a: int| 0 <= a < cmds.len() implies {
        &&& cmds[a].is_dispatch() ==> 1 <= a < 1 + cs.len() && cmds[a] == cs[a - 1]
        &&& cmds[a].is_surface_copy() ==> copy_start <= a < copy_start + cp.len()
        &&& cmds[a].is_draw() ==> render_start <= a < render_start + rs.len()
    } by {
        if a == 0 {
            assert(cmds[a] == GpuCommand::BeginComputePass);
        } else if a < 1 + cs.len() {
            assert(cmds[a] == cs[a - 1]);
        } else if a == 1 + cs.len() {
            assert(cmds[a] == GpuCommand::EndComputePass);
        } else if a < copy_start + cp.len() {
            assert(cmds[a] == cp[a - copy_start]);
            assert(first_output_object(scene.compute_objects@) is Some);
            assert(a - copy_start == 0);
            assert(cp[0] is CopyTextureToSurface);
        } else if a == copy_start + cp.len() {
            assert(cmds[a] == GpuCommand::BeginRenderPass { load_previous: true });
        } else if a < render_start + rs.len() {
            assert(cmds[a] == rs[a - render_start]);
        } else if a == render_start + rs.len() {
            assert(cmds[a] == GpuCommand::EndRenderPass);
        } else if a == render_start + rs.len() + 1 {
            assert(cmds[a] == GpuCommand::Submit);
        } else {
            assert(a == render_start + rs.len() + 2);
            assert(cmds[a] == GpuCommand::Present);
        }
    }
}

} // verus!
