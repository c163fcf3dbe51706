use framekit::error::RenderError;
use framekit::shader::{shader_source_kind, Shader, ShaderKind};

#[test]
fn wgsl_and_spv_extensions_are_dispatched() {
    assert_eq!(shader_source_kind("basic.wgsl").unwrap(), ShaderKind::Wgsl);
    assert_eq!(shader_source_kind("shaders/blur.spv").unwrap(), ShaderKind::SpirV);
    assert_eq!(shader_source_kind("a.b.wgsl").unwrap(), ShaderKind::Wgsl);
}

#[test]
fn unknown_extension_is_reported_by_name() {
    match shader_source_kind("basic.glsl") {
        Err(RenderError::UnsupportedShaderExtension { extension }) => {
            assert_eq!(extension, "glsl");
        },
        other => panic!("expected an unsupported-extension report, got {:?}", other),
    }
}

#[test]
fn path_without_extension_is_rejected() {
    assert!(matches!(
        shader_source_kind("basic"),
        Err(RenderError::MissingShaderExtension)
    ));
    assert!(matches!(
        shader_source_kind("dir.with.dots/basic"),
        Err(RenderError::MissingShaderExtension)
    ));
    assert!(matches!(
        shader_source_kind(".hidden"),
        Err(RenderError::MissingShaderExtension)
    ));
    assert!(matches!(
        shader_source_kind("dir/.hidden"),
        Err(RenderError::MissingShaderExtension)
    ));
}

#[test]
fn shader_record_keeps_path_and_kind() {
    let shader = Shader::new_from_file("shaders/basic.wgsl").unwrap();
    assert_eq!(shader.path, "shaders/basic.wgsl");
    assert_eq!(shader.kind, ShaderKind::Wgsl);
}
