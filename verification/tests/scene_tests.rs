use framekit::error::{RenderError, ResourceKind};
use framekit::resources::Resources;
use framekit::scene::Scene;
use framekit::viewport::Viewport;

fn default_resources() -> Resources {
    let viewport = Viewport::new(800, 600, true);
    Resources::new(&viewport).unwrap()
}

#[test]
fn missing_material_is_reported_and_scene_is_unchanged() {
    let resources = default_resources();
    let mut scene = Scene::new();

    let result = scene.add_render_object(&resources, "missing", "white", "quad");
    match result {
        Err(RenderError::NotFound { kind, name }) => {
            assert_eq!(kind, ResourceKind::RenderMaterial);
            assert_eq!(name, "missing");
        },
        other => panic!("expected a missing-material report, got {:?}", other),
    }
    assert_eq!(scene.get_render_objects().len(), 0);
}

#[test]
fn missing_texture_and_model_are_reported_in_order() {
    let resources = default_resources();
    let mut scene = Scene::new();

    let result = scene.add_render_object(&resources, "basic", "nope", "quad");
    assert!(matches!(
        result,
        Err(RenderError::NotFound { kind: ResourceKind::Texture, .. })
    ));

    let result = scene.add_render_object(&resources, "basic", "white", "nope");
    assert!(matches!(
        result,
        Err(RenderError::NotFound { kind: ResourceKind::Model, .. })
    ));
    assert_eq!(scene.get_render_objects().len(), 0);
}

#[test]
fn valid_render_object_is_appended_in_order() {
    let resources = default_resources();
    let mut scene = Scene::new();

    scene.add_render_object(&resources, "basic", "white", "quad").unwrap();
    scene.add_render_object(&resources, "basic", "black", "triangle").unwrap();

    let objects = scene.get_render_objects();
    assert_eq!(objects.len(), 2);
    assert_eq!(objects[0].texture_name, "white");
    assert_eq!(objects[1].texture_name, "black");
}

#[test]
fn compute_object_requires_registered_material() {
    let resources = default_resources();
    let mut scene = Scene::new();

    let result = scene.add_compute_object_with_output_texture(&resources, "nope", 64, 64);
    assert!(matches!(
        result,
        Err(RenderError::NotFound { kind: ResourceKind::ComputeMaterial, .. })
    ));
    assert_eq!(scene.get_compute_objects().len(), 0);

    scene.add_compute_object_with_output_texture(&resources, "basic compute", 64, 64).unwrap();
    let objects = scene.get_compute_objects();
    assert_eq!(objects.len(), 1);
    let texture = objects[0].get_output_texture().unwrap();
    assert_eq!((texture.get_width(), texture.get_height()), (64, 64));
}

#[test]
fn resizing_output_textures_touches_only_owned_textures() {
    let resources = default_resources();
    let mut scene = Scene::new();
    scene.add_compute_object_with_output_texture(&resources, "basic compute", 64, 64).unwrap();

    scene.resize_compute_output_textures(320, 200, &resources).unwrap();
    let texture = scene.get_compute_objects()[0].get_output_texture().unwrap();
    assert_eq!((texture.get_width(), texture.get_height()), (320, 200));
}

#[test]
fn compute_object_without_output_texture_is_appended() {
    let resources = default_resources();
    let mut scene = Scene::new();

    assert!(matches!(
        scene.add_compute_object(&resources, "nope"),
        Err(RenderError::NotFound { kind: ResourceKind::ComputeMaterial, .. })
    ));
    assert_eq!(scene.get_compute_objects().len(), 0);

    scene.add_compute_object(&resources, "basic compute").unwrap();
    let objects = scene.get_compute_objects();
    assert_eq!(objects.len(), 1);
    assert!(!objects[0].has_output_texture());
}
