use framekit::camera::Camera;
use framekit::commands::GpuCommand;
use framekit::frame::FrameDrawContext;
use framekit::renderer::Renderer;
use framekit::viewport::PresentMode;

#[test]
fn renderer_starts_without_vsync() {
    let renderer = Renderer::new(800, 600, true).unwrap();
    assert_eq!(renderer.get_viewport_size(), (800, 600));
    assert_eq!(renderer.get_viewport().present_mode, PresentMode::AutoNoVsync);
}

#[test]
fn set_vsync_switches_the_present_mode() {
    let mut renderer = Renderer::new(800, 600, true).unwrap();
    renderer.set_vsync(true);
    assert_eq!(renderer.get_viewport().present_mode, PresentMode::AutoVsync);
    renderer.set_vsync(false);
    assert_eq!(renderer.get_viewport().present_mode, PresentMode::AutoNoVsync);
}

#[test]
fn zero_sized_resize_is_ignored() {
    let mut renderer = Renderer::new(800, 600, true).unwrap();
    assert!(!renderer.resize(0, 600));
    assert!(!renderer.resize(800, 0));
    assert_eq!(renderer.get_viewport_size(), (800, 600));
}

#[test]
fn resize_twice_gives_bit_identical_quad_buffers() {
    let mut renderer = Renderer::new(800, 600, true).unwrap();

    assert!(renderer.resize(1280, 720));
    let after_first = renderer.resources.fullscreen_quad.buffer.clone();

    assert!(renderer.resize(1280, 720));
    assert_eq!(after_first, renderer.resources.fullscreen_quad.buffer);
}

#[test]
fn full_frame_through_the_facade() {
    let renderer = Renderer::new(800, 600, true).unwrap();
    let mut camera = renderer.create_camera();
    let mut scene = renderer.create_scene();
    scene
        .add_compute_object_with_output_texture(&renderer.resources, "basic compute", 800, 600)
        .unwrap();
    scene
        .add_render_object(&renderer.resources, "basic", "tree_or_white", "quad")
        .unwrap_err();
    scene
        .add_render_object(&renderer.resources, "basic", "white", "quad")
        .unwrap();

    let ctx = FrameDrawContext { surface_width: 800, surface_height: 600 };
    let commands = renderer.render(&mut camera, &scene, &ctx).unwrap();
    assert!(matches!(commands[0], GpuCommand::BeginComputePass));
    assert!(matches!(
        commands[commands.len() - 2],
        GpuCommand::Submit
    ));
    assert!(matches!(commands[commands.len() - 1], GpuCommand::Present));
}

#[test]
fn background_image_sets_content_aspect() {
    let mut renderer = Renderer::new(16, 9, true).unwrap();
    // A 1-by-2 image: tall content, so X is scaled by 1/2; the wide 16:9
    // viewport then stretches Y by 16/9.
    renderer.set_background_image(1, 2, vec![9u8; 8]).unwrap();
    let quad = &renderer.resources.fullscreen_quad;
    assert_eq!((quad.image_width, quad.image_height), (1, 2));
    let corner = &quad.buffer[0];
    assert_eq!((corner.position.x.num, corner.position.x.den), (2, 4));
    assert_eq!((corner.position.y.num, corner.position.y.den), (32, 18));
    assert!(renderer.resources.get_texture("background").is_ok());

    // Re-registering the background replaces the entry instead of
    // accumulating a second one.
    let count = renderer.resources.textures.len();
    renderer.set_background_image(2, 1, vec![7u8; 8]).unwrap();
    assert_eq!(renderer.resources.textures.len(), count);
}
