use tubereng::graphics::shader::{BindingType, LayoutBindingType, ShaderAsset, ShaderLoader, ShaderMetadata, ShaderStage};
use tubereng::graphics::wgsl::{
    checked_extract_global_variables, extract_global_variables_from_shader_source, AccessMode,
    AddressSpace, VariableKind,
};
use tubereng::graphics::GraphicsError;
use tubereng::assets::AssetLoader;

const SHADER: &str = r"
@group(0) @binding(0)
var<uniform> camera: CameraUniform;

@group(1) @binding(0)
var<uniform> mesh_uniform: MeshUniform;

@group(2) @binding(0)
var t_diffuse: texture_2d<f32>;
@group(2) @binding(1)
var t_sampler: sampler;

@group(3) @binding(0)
var<storage, read> light_storage: LightStorage;

            ";

#[test]
fn extract_shader_metadata() -> Result<(), GraphicsError> {
    let variables = extract_global_variables_from_shader_source(SHADER)?;

    assert_eq!(variables.len(), 5);

    let camera_variable = &variables[0];
    assert_eq!(camera_variable.attributes.group, 0);
    assert_eq!(camera_variable.attributes.binding, 0);
    assert_eq!(camera_variable.identifier, "camera");
    assert_eq!(camera_variable.address_space.unwrap(), AddressSpace::Uniform);
    assert!(camera_variable.access_mode.is_none());
    assert_eq!(camera_variable.kind, VariableKind::Other);

    let mesh_uniform = &variables[1];
    assert_eq!(mesh_uniform.attributes.group, 1);
    assert_eq!(mesh_uniform.attributes.binding, 0);
    assert_eq!(mesh_uniform.identifier, "mesh_uniform");
    assert_eq!(mesh_uniform.address_space.unwrap(), AddressSpace::Uniform);
    assert!(mesh_uniform.access_mode.is_none());
    assert_eq!(mesh_uniform.kind, VariableKind::Other);

    let t_diffuse = &variables[2];
    assert_eq!(t_diffuse.attributes.group, 2);
    assert_eq!(t_diffuse.attributes.binding, 0);
    assert_eq!(t_diffuse.identifier, "t_diffuse");
    assert!(t_diffuse.address_space.is_none());
    assert!(t_diffuse.access_mode.is_none());
    assert_eq!(t_diffuse.kind, VariableKind::Texture);

    let t_sampler = &variables[3];
    assert_eq!(t_sampler.attributes.group, 2);
    assert_eq!(t_sampler.attributes.binding, 1);
    assert_eq!(t_sampler.identifier, "t_sampler");
    assert!(t_sampler.address_space.is_none());
    assert!(t_sampler.access_mode.is_none());
    assert_eq!(t_sampler.kind, VariableKind::Sampler);

    let light_storage = &variables[4];
    assert_eq!(light_storage.attributes.group, 3);
    assert_eq!(light_storage.attributes.binding, 0);
    assert_eq!(light_storage.identifier, "light_storage");
    assert_eq!(light_storage.address_space, Some(AddressSpace::Storage));
    assert_eq!(light_storage.access_mode, Some(AccessMode::Read));
    assert_eq!(light_storage.kind, VariableKind::Other);
    Ok(())
}

#[test]
fn address_space_and_access_mode_from_text() {
    assert_eq!(AddressSpace::try_from("uniform").unwrap(), AddressSpace::Uniform);
    assert_eq!(AddressSpace::try_from("storage").unwrap(), AddressSpace::Storage);
    assert!(matches!(AddressSpace::try_from("private"), Err(GraphicsError::WgslAddressSpaceParseError)));
    assert_eq!(AccessMode::try_from("read").unwrap(), AccessMode::Read);
    assert_eq!(AccessMode::try_from("write").unwrap(), AccessMode::Write);
    assert_eq!(AccessMode::try_from("read_write").unwrap(), AccessMode::ReadWrite);
    assert!(matches!(AccessMode::try_from("readwrite"), Err(GraphicsError::WgslAccessModeParseError)));
}

#[test]
fn variable_kind_from_type_name() {
    assert_eq!(VariableKind::from("texture_2d<f32>"), VariableKind::Texture);
    assert_eq!(VariableKind::from("sampler"), VariableKind::Sampler);
    assert_eq!(VariableKind::from("sampler_comparison"), VariableKind::Other);
    assert_eq!(VariableKind::from("texture_3d<f32>"), VariableKind::Other);
}

#[test]
fn variables_without_attributes_are_skipped() {
    let source = "var<private> counter: u32;\n@group(0) @binding(4)\nvar<uniform> dyn_model: Model;\n";
    let variables = extract_global_variables_from_shader_source(source).unwrap();
    assert_eq!(variables.len(), 1);
    assert_eq!(variables[0].identifier, "dyn_model");
    assert_eq!(variables[0].attributes.binding, 4);
    assert_eq!(variables[0].binding_type(), LayoutBindingType::UniformBuffer { has_dynamic_offset: true });
}

#[test]
fn missing_binding_is_an_error() {
    let source = "@group(0)\nvar<uniform> camera: Camera;\n";
    let result = extract_global_variables_from_shader_source(source);
    assert!(matches!(result, Err(GraphicsError::WgslMissingAttribute)));
}

#[test]
fn unknown_address_space_is_an_error() {
    let source = "@group(0) @binding(0)\nvar<workgroup> shared_data: Data;\n";
    let result = checked_extract_global_variables(source);
    assert!(matches!(result, Some(Err(GraphicsError::WgslAddressSpaceParseError))));
}

#[test]
fn shader_metadata_groups_sorted_variables() {
    let metadata = ShaderMetadata::new("shader_0", SHADER).unwrap();
    assert_eq!(metadata.name(), "shader_0");
    let layouts = metadata.bind_group_layout_entries();
    assert_eq!(layouts.len(), 4);
    assert_eq!(layouts[0].len(), 1);
    assert_eq!(layouts[2].len(), 2);
    assert_eq!(layouts[2][0].binding, 0);
    assert_eq!(layouts[2][0].ty, LayoutBindingType::FilterableTexture2d);
    assert_eq!(layouts[2][1].binding, 1);
    assert_eq!(layouts[2][1].ty, LayoutBindingType::NonFilteringSampler);
    assert_eq!(layouts[2][1].visibility, ShaderStage::VertexFragment);
    assert_eq!(layouts[3][0].ty, LayoutBindingType::ReadOnlyStorageBuffer);
    assert_eq!(layouts[0][0].ty, LayoutBindingType::UniformBuffer { has_dynamic_offset: false });
    let light = metadata.parameter_metadata("light_storage");
    assert_eq!((light.group(), light.binding()), (3, 0));
    let sampler = metadata.parameter_metadata("t_sampler");
    assert_eq!((sampler.group(), sampler.binding()), (2, 1));
}

#[test]
fn shader_metadata_sorts_by_group_then_binding() {
    let source = "@group(1) @binding(1)\nvar b: sampler;\n@group(0) @binding(0)\nvar<uniform> a: A;\n@group(1) @binding(0)\nvar c: texture_2d<f32>;\n";
    let metadata = ShaderMetadata::new("sorted", source).unwrap();
    let layouts = metadata.bind_group_layout_entries();
    assert_eq!(layouts.len(), 2);
    assert_eq!(layouts[1][0].binding, 0);
    assert_eq!(layouts[1][0].ty, LayoutBindingType::FilterableTexture2d);
    assert_eq!(layouts[1][1].binding, 1);
    assert_eq!(metadata.parameter_metadata("b").group(), 1);
}

#[test]
fn shader_metadata_with_a_skipped_group_is_refused() {
    let source = "@group(0) @binding(0)\nvar<uniform> a: A;\n@group(2) @binding(0)\nvar<uniform> b: B;\n";
    assert!(ShaderMetadata::checked_new("gap", source).is_none());
    let source = "@group(0) @binding(0)\nvar<uniform> a: A;\n";
    assert!(matches!(ShaderMetadata::checked_new("fine", source), Some(Ok(_))));
}

#[test]
fn shader_loader_keeps_the_text() {
    let shader: ShaderAsset = ShaderLoader::load(b"fn main() {}").unwrap();
    assert_eq!(shader.source, "fn main() {}");
    let _ = BindingType::Uniform;
}

#[test]
fn shader_loader_replaces_invalid_bytes() {
    let shader: ShaderAsset = ShaderLoader::load(&[b'a', 0xFF, b'b']).unwrap();
    assert_eq!(shader.source, "a\u{FFFD}b");
}
