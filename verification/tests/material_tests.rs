use framekit::commands::GpuCommand;
use framekit::compute_object::ComputeObject;
use framekit::error::RenderError;
use framekit::material::{ComputeMaterial, RenderMaterial};
use framekit::resources::Resources;
use framekit::shader::Shader;
use framekit::viewport::Viewport;

fn default_resources() -> Resources {
    Resources::new(&Viewport::new(800, 600, true)).unwrap()
}

#[test]
fn building_a_material_without_a_shader_fails() {
    let result = RenderMaterial::builder()
        .with_bind_group_layouts(vec!["single texture".to_owned(), "camera".to_owned()])
        .build();
    assert!(matches!(result, Err(RenderError::MissingShader)));

    let result = ComputeMaterial::builder().build();
    assert!(matches!(result, Err(RenderError::MissingShader)));
}

#[test]
fn builder_records_what_the_pipeline_is_built_from() {
    let shader = Shader::new_from_file("effects/blur.wgsl").unwrap();
    let material = RenderMaterial::builder()
        .with_shader(shader)
        .with_bind_group_layouts(vec!["single texture".to_owned()])
        .build()
        .unwrap();
    assert_eq!(material.shader.path, "effects/blur.wgsl");
    assert_eq!(material.bind_group_layouts, vec!["single texture"]);
    assert!(material.cull_mode.is_none());
}

#[test]
fn resizing_without_an_output_texture_is_reported() {
    let resources = default_resources();
    let mut object = ComputeObject {
        compute_material_name: "basic compute".to_owned(),
        output_texture: None,
    };
    let result = object.resize_output_texture(64, 64, &resources);
    assert!(matches!(result, Err(RenderError::NoOutputTexture)));
}

#[test]
fn resize_reports_the_copy_overlap() {
    let resources = default_resources();
    let mut object = ComputeObject::new_with_output_texture(
        "basic compute".to_owned(),
        100,
        40,
        &resources,
    )
    .unwrap();
    let (copy_w, copy_h) = object.resize_output_texture(60, 80, &resources).unwrap();
    assert_eq!((copy_w, copy_h), (60, 40));
    let texture = object.get_output_texture().unwrap();
    assert_eq!((texture.get_width(), texture.get_height()), (60, 80));
}

#[test]
fn dispatch_without_an_output_texture_uses_the_default_grid() {
    let resources = default_resources();
    let object = ComputeObject {
        compute_material_name: "basic compute".to_owned(),
        output_texture: None,
    };
    let mut commands: Vec<GpuCommand> = Vec::new();
    object.dispatch(0, &resources, &mut commands).unwrap();
    assert_eq!(commands.len(), 2);
    assert!(matches!(
        commands[0],
        GpuCommand::SetComputePipeline { .. }
    ));
    assert!(matches!(commands[1], GpuCommand::Dispatch { x: 16, y: 16, z: 1 }));
}

#[test]
fn workgroup_grid_covers_the_output_exactly() {
    let resources = default_resources();
    // 16 and 17 pixels straddle a tile boundary.
    let object = ComputeObject::new_with_output_texture(
        "basic compute".to_owned(),
        16,
        17,
        &resources,
    )
    .unwrap();
    let mut commands: Vec<GpuCommand> = Vec::new();
    object.dispatch(3, &resources, &mut commands).unwrap();
    assert!(matches!(
        commands[1],
        GpuCommand::SetComputeBindGroup { object: 3 }
    ));
    assert!(matches!(commands[2], GpuCommand::Dispatch { x: 1, y: 2, z: 1 }));
}
