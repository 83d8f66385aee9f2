use custom_material::shader::{EntryPoints, ShaderSource};
use custom_material::without_extra_uniform::MyMaterial;

#[test]
fn plain_layout_has_no_entry() {
    assert!(MyMaterial::bind_group_layout().is_empty());
}

#[test]
fn plain_material_prepares_no_buffer() {
    assert!(MyMaterial::prepare_asset(MyMaterial).is_empty());
}

#[test]
fn plain_vertex_shader_is_watched() {
    assert_eq!(
        MyMaterial::vertex_shader(),
        Some(ShaderSource {
            path: "shaders/vertex.vert",
            watch_for_changes: true,
        })
    );
}

#[test]
fn plain_fragment_shader_is_not_watched() {
    assert_eq!(
        MyMaterial::fragment_shader(),
        Some(ShaderSource {
            path: "shaders/fragment.frag",
            watch_for_changes: false,
        })
    );
}

#[test]
fn plain_specialize_points_both_stages_at_main() {
    let mut descriptor = EntryPoints {
        vertex: "vertex".to_string(),
        fragment: Some("fragment".to_string()),
    };
    assert!(MyMaterial::specialize(&mut descriptor).is_ok());
    assert_eq!(descriptor.vertex, "main");
    assert_eq!(descriptor.fragment, Some("main".to_string()));
}

#[test]
fn plain_extracted_material_is_a_copy() {
    assert_eq!(MyMaterial.extract_asset(), MyMaterial);
}
