use framekit::camera::Camera;
use framekit::commands::GpuCommand;
use framekit::error::{RenderError, ResourceKind};
use framekit::frame::{
    acquire_error_action, compose_frame, AcquireAction, FrameDrawContext, SurfaceError,
};
use framekit::render_object::RenderObject;
use framekit::resources::Resources;
use framekit::scene::Scene;
use framekit::viewport::Viewport;

fn setup() -> (Resources, Scene, Viewport) {
    let viewport = Viewport::new(800, 600, true);
    let resources = Resources::new(&viewport).unwrap();
    let mut scene = Scene::new();
    scene.add_compute_object_with_output_texture(&resources, "basic compute", 33, 16).unwrap();
    scene.add_render_object(&resources, "basic", "white", "quad").unwrap();
    (resources, scene, viewport)
}

#[test]
fn dispatch_precedes_copy_precedes_draw() {
    let (resources, scene, viewport) = setup();
    let mut camera = Camera::new();
    let ctx = FrameDrawContext { surface_width: 800, surface_height: 600 };

    let commands = compose_frame(&scene, &resources, &mut camera, &viewport, &ctx).unwrap();

    let dispatch_at = commands.iter().position(|c| matches!(c, GpuCommand::Dispatch { .. }));
    let copy_at = commands
        .iter()
        .position(|c| matches!(c, GpuCommand::CopyTextureToSurface { .. }));
    let draw_at = commands
        .iter()
        .position(|c| matches!(c, GpuCommand::Draw { .. } | GpuCommand::DrawIndexed { .. }));
    let (dispatch_at, copy_at, draw_at) =
        (dispatch_at.unwrap(), copy_at.unwrap(), draw_at.unwrap());
    assert!(dispatch_at < copy_at);
    assert!(copy_at < draw_at);
}

#[test]
fn frame_has_expected_shape_and_counts() {
    let (resources, scene, viewport) = setup();
    let mut camera = Camera::new();
    let ctx = FrameDrawContext { surface_width: 800, surface_height: 600 };

    let commands = compose_frame(&scene, &resources, &mut camera, &viewport, &ctx).unwrap();

    assert!(matches!(commands[0], GpuCommand::BeginComputePass));
    assert!(matches!(commands.last().unwrap(), GpuCommand::Present));
    // Workgroups cover a 33-by-16 output at 16-by-16 tiles: 3 by 1.
    assert!(commands
        .iter()
        .any(|c| matches!(c, GpuCommand::Dispatch { x: 3, y: 1, z: 1 })));
    // The copy is clipped to the overlap of the 33x16 output and the surface.
    assert!(commands.iter().any(|c| matches!(
        c,
        GpuCommand::CopyTextureToSurface { object: 0, width: 33, height: 16 }
    )));
    // The render pass loads the copied content instead of clearing it.
    assert!(commands
        .iter()
        .any(|c| matches!(c, GpuCommand::BeginRenderPass { load_previous: true })));
    // An sRGB surface draws without shader-side gamma correction.
    assert!(commands.iter().any(|c| match c {
        GpuCommand::SetPushConstants { constants } => {
            constants.flipv == 1 && constants.gamma_correct == 0
        },
        _ => false,
    }));
    // The quad model is indexed: six indices.
    assert!(commands
        .iter()
        .any(|c| matches!(c, GpuCommand::DrawIndexed { index_count: 6 })));
}

#[test]
fn camera_uploads_once_per_dirty_state_across_frames() {
    let (resources, scene, viewport) = setup();
    let mut camera = Camera::new();
    let ctx = FrameDrawContext { surface_width: 800, surface_height: 600 };

    let first = compose_frame(&scene, &resources, &mut camera, &viewport, &ctx).unwrap();
    let uploads = |cmds: &Vec<GpuCommand>| {
        cmds.iter()
            .filter(|c| matches!(c, GpuCommand::UploadCameraUniform { .. }))
            .count()
    };
    assert_eq!(uploads(&first), 1);

    // No mutation between frames: the buffer is already current.
    let second = compose_frame(&scene, &resources, &mut camera, &viewport, &ctx).unwrap();
    assert_eq!(uploads(&second), 0);
}

#[test]
fn dangling_reference_aborts_composition() {
    let (resources, mut scene, viewport) = setup();
    // Bypass insertion-time validation to model a registry that lost a name.
    scene.render_objects.push(RenderObject::new(
        "nope".to_owned(),
        "white".to_owned(),
        "quad".to_owned(),
    ));
    let mut camera = Camera::new();
    let ctx = FrameDrawContext { surface_width: 800, surface_height: 600 };

    let result = compose_frame(&scene, &resources, &mut camera, &viewport, &ctx);
    match result {
        Err(RenderError::NotFound { kind, name }) => {
            assert_eq!(kind, ResourceKind::RenderMaterial);
            assert_eq!(name, "nope");
        },
        other => panic!("expected a missing-material report, got {:?}", other),
    }
}

#[test]
fn frame_without_compute_output_skips_the_copy() {
    let viewport = Viewport::new(800, 600, false);
    let resources = Resources::new(&viewport).unwrap();
    let mut scene = Scene::new();
    scene.add_render_object(&resources, "basic", "black", "triangle").unwrap();
    let mut camera = Camera::new();
    let ctx = FrameDrawContext { surface_width: 800, surface_height: 600 };

    let commands = compose_frame(&scene, &resources, &mut camera, &viewport, &ctx).unwrap();
    assert!(!commands
        .iter()
        .any(|c| matches!(c, GpuCommand::CopyTextureToSurface { .. })));
    // A non-sRGB surface asks the shader to gamma correct.
    assert!(commands.iter().any(|c| match c {
        GpuCommand::SetPushConstants { constants } => constants.gamma_correct == 1,
        _ => false,
    }));
}

#[test]
fn acquisition_policy_matches_the_error() {
    assert_eq!(
        acquire_error_action(&SurfaceError::Lost),
        AcquireAction::ReconfigureAndRetry
    );
    assert_eq!(acquire_error_action(&SurfaceError::OutOfMemory), AcquireAction::Fatal);
    assert_eq!(acquire_error_action(&SurfaceError::Timeout), AcquireAction::SkipFrame);
    assert_eq!(acquire_error_action(&SurfaceError::Outdated), AcquireAction::SkipFrame);
}
