use framekit::error::{RenderError, ResourceKind};
use framekit::resources::Resources;
use framekit::texture::{Texture, TextureKind};
use framekit::viewport::{choose_format_index, Viewport};

fn default_resources() -> Resources {
    Resources::new(&Viewport::new(800, 600, true)).unwrap()
}

#[test]
fn default_resources_are_registered() {
    let resources = default_resources();
    assert!(resources.get_model("triangle").is_ok());
    assert!(resources.get_model("quad").is_ok());
    assert!(resources.get_texture("black").is_ok());
    assert!(resources.get_texture("white").is_ok());
    assert!(resources.get_texture("compute storage").is_ok());
    assert!(resources.get_render_material("basic").is_ok());
    assert!(resources.get_compute_material("basic compute").is_ok());
    assert!(resources.get_sampler("nearest").is_ok());
    assert!(resources.get_bind_group_layout("single texture").is_ok());
    assert!(resources.get_bind_group_layout("camera").is_ok());
    assert!(resources.get_bind_group_layout("compute storage").is_ok());
}

#[test]
fn default_textures_hold_their_pixels() {
    let resources = default_resources();
    let black = resources.get_texture("black").unwrap();
    assert_eq!((black.get_width(), black.get_height()), (1, 1));
    assert_eq!(black.data, vec![0, 0, 0, 255]);
    assert_eq!(black.kind, TextureKind::Sampled);

    let white = resources.get_texture("white").unwrap();
    assert_eq!(white.data, vec![255, 255, 255, 255]);

    let storage = resources.get_texture("compute storage").unwrap();
    assert_eq!(storage.kind, TextureKind::Storage);
    assert!(storage.data.is_empty());
}

#[test]
fn lookups_fail_soft_with_the_kind_and_name() {
    let resources = default_resources();
    match resources.get_model("missing") {
        Err(RenderError::NotFound { kind, name }) => {
            assert_eq!(kind, ResourceKind::Model);
            assert_eq!(name, "missing");
        },
        other => panic!("expected a missing-model report, got {:?}", other),
    }
    assert!(matches!(
        resources.get_sampler("linear"),
        Err(RenderError::NotFound { kind: ResourceKind::Sampler, .. })
    ));
}

#[test]
fn render_object_creation_validates_all_three_names() {
    let resources = default_resources();

    let ok = resources.create_render_object("basic", "white", "quad").unwrap();
    assert_eq!(ok.material_name, "basic");
    assert_eq!(ok.texture_name, "white");
    assert_eq!(ok.model_name, "quad");

    assert!(matches!(
        resources.create_render_object("nope", "white", "quad"),
        Err(RenderError::NotFound { kind: ResourceKind::RenderMaterial, .. })
    ));
    assert!(matches!(
        resources.create_render_object("basic", "nope", "quad"),
        Err(RenderError::NotFound { kind: ResourceKind::Texture, .. })
    ));
    assert!(matches!(
        resources.create_render_object("basic", "white", "nope"),
        Err(RenderError::NotFound { kind: ResourceKind::Model, .. })
    ));
}

#[test]
fn base_material_records_its_pipeline_layout() {
    let resources = default_resources();
    let material = resources.get_render_material("basic").unwrap();
    assert_eq!(material.bind_group_layouts, vec!["single texture", "camera"]);
    assert_eq!(material.shader.path, "basic.wgsl");

    let compute = resources.get_compute_material("basic compute").unwrap();
    assert_eq!(compute.bind_group_layouts, vec!["compute storage"]);
    assert_eq!(compute.shader.path, "basic_compute.wgsl");
}

#[test]
fn sampled_texture_needs_sampler_and_layout() {
    let resources = default_resources();
    let texture = Texture::new_from_image(2, 2, vec![7u8; 16], &resources).unwrap();
    assert_eq!(texture.kind, TextureKind::Sampled);
    assert_eq!((texture.get_width(), texture.get_height()), (2, 2));
}

#[test]
fn surface_format_choice_takes_first_srgb() {
    assert_eq!(choose_format_index(&vec![false, true, true]), Some(1));
    assert_eq!(choose_format_index(&vec![true]), Some(0));
    assert_eq!(choose_format_index(&vec![false, false]), None);
    assert_eq!(choose_format_index(&vec![]), None);
}
