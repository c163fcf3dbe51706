use framekit::camera::Camera;
use framekit::shader_data::Vec3m;
use framekit::viewport::Viewport;

#[test]
fn fresh_camera_is_dirty_with_default_pose() {
    let camera = Camera::new();
    assert!(camera.dirty);
    assert!(camera.uniform_buffer.is_none());
    assert_eq!(camera.get_position(), Vec3m { x: 0, y: 0, z: 5000 });
    assert_eq!(camera.get_pivot(), Vec3m { x: 0, y: 0, z: 0 });
    assert_eq!(camera.get_near(), 100);
    assert_eq!(camera.get_far(), 100000);
}

#[test]
fn first_read_uploads_and_later_reads_do_not() {
    let viewport = Viewport::new(800, 600, true);
    let mut camera = Camera::new();

    let first = camera.get_bind_group(&viewport);
    let contents = first.expect("a dirty camera owes one upload");
    assert_eq!(contents.position, Vec3m { x: 0, y: 0, z: 5000 });
    assert_eq!(contents.viewport_width, 800);
    assert_eq!(contents.viewport_height, 600);
    assert_eq!(contents.near_millis, 100);
    assert_eq!(contents.far_millis, 100000);
    assert!(!camera.dirty);
    assert_eq!(camera.uniform_buffer, Some(contents));

    let second = camera.get_bind_group(&viewport);
    assert!(second.is_none());
    let third = camera.get_bind_group(&viewport);
    assert!(third.is_none());
    assert_eq!(camera.uniform_buffer, Some(contents));
}

#[test]
fn buffer_holds_state_from_time_of_first_read() {
    let viewport = Viewport::new(640, 480, false);
    let mut camera = Camera::new();
    camera.set_position(Vec3m { x: 1000, y: 2000, z: 3000 });
    let contents = camera.get_bind_group(&viewport).unwrap();
    assert_eq!(contents.position, Vec3m { x: 1000, y: 2000, z: 3000 });
    assert_eq!(contents.viewport_width, 640);
    assert_eq!(contents.viewport_height, 480);
}

#[test]
fn mutation_dirties_and_forces_one_more_upload() {
    let viewport = Viewport::new(800, 600, true);
    let mut camera = Camera::new();
    assert!(camera.get_bind_group(&viewport).is_some());

    camera.set_position(Vec3m { x: 0, y: 0, z: 7000 });
    assert!(camera.dirty);
    let upload = camera.get_bind_group(&viewport);
    assert_eq!(upload.unwrap().position, Vec3m { x: 0, y: 0, z: 7000 });
    assert!(camera.get_bind_group(&viewport).is_none());
}

#[test]
fn look_at_moves_pivot_and_dirties() {
    let viewport = Viewport::new(800, 600, true);
    let mut camera = Camera::new();
    assert!(camera.get_bind_group(&viewport).is_some());

    camera.look_at(Vec3m { x: 500, y: 0, z: 0 });
    assert!(camera.dirty);
    assert_eq!(camera.get_pivot(), Vec3m { x: 500, y: 0, z: 0 });
}

#[test]
fn look_at_the_eye_itself_is_ignored() {
    let viewport = Viewport::new(800, 600, true);
    let mut camera = Camera::new();
    assert!(camera.get_bind_group(&viewport).is_some());

    let eye = camera.get_position();
    camera.look_at(eye);
    assert!(!camera.dirty);
    assert_eq!(camera.get_pivot(), Vec3m { x: 0, y: 0, z: 0 });
    assert!(camera.get_bind_group(&viewport).is_none());
}
