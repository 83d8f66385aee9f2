use custom_material::shader::{
    fragment_shader_source, use_glsl_entry_points, vertex_shader_source, EntryPoints,
    ShaderSource,
};

#[test]
fn vertex_shader_source_keeps_the_wish_to_watch() {
    assert_eq!(
        vertex_shader_source(true),
        ShaderSource {
            path: "shaders/vertex.vert",
            watch_for_changes: true,
        }
    );
    assert_eq!(
        vertex_shader_source(false),
        ShaderSource {
            path: "shaders/vertex.vert",
            watch_for_changes: false,
        }
    );
}

#[test]
fn fragment_shader_source_is_never_watched() {
    assert_eq!(
        fragment_shader_source(),
        ShaderSource {
            path: "shaders/fragment.frag",
            watch_for_changes: false,
        }
    );
}

#[test]
fn glsl_entry_points_replace_the_defaults() {
    let mut stages = EntryPoints {
        vertex: "vertex".to_string(),
        fragment: Some("fragment".to_string()),
    };
    assert!(use_glsl_entry_points(&mut stages).is_ok());
    assert_eq!(
        stages,
        EntryPoints {
            vertex: "main".to_string(),
            fragment: Some("main".to_string()),
        }
    );
}
