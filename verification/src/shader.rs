//! The shaders of the material and the entry points of its pipeline stages.

use bevy::render::render_resource::SpecializedMeshPipelineError;
use vstd::prelude::*;

verus! {

/// The error with which specialising a mesh pipeline may fail. Opaque here:
/// this crate only hands it through and never makes one.
#[verifier::external_type_specification]
#[verifier::external_body]
pub struct ExSpecializedMeshPipelineError(SpecializedMeshPipelineError);

/// A shader that the asset server is asked to load.
#[derive(Clone, Copy, Debug, PartialEq, Eq)]
pub struct ShaderSource {
    /// Path of the source file below the asset root.
    pub path: &'static str,
    /// Whether the asset server is first told to watch its files for changes.
    pub watch_for_changes: bool,
}

/// The entry points of the two stages of a render pipeline. A pipeline
/// always has a vertex stage; the fragment stage may be absent.
#[derive(Debug, PartialEq, Eq)]
pub struct EntryPoints {
    pub vertex: String,
    pub fragment: Option<String>,
}

/// Path of the vertex shader below the asset root.
pub open spec fn vertex_shader_path() -> Seq<char> {
    "shaders/vertex.vert"@
}

/// Path of the fragment shader below the asset root.
pub open spec fn fragment_shader_path() -> Seq<char> {
    "shaders/fragment.frag"@
}

/// Name of the function at which a GLSL shader starts. The pipeline's
/// default names are those of its own shading language, which GLSL sources
/// do not define.
pub open spec fn glsl_entry_point() -> Seq<char> {
    "main"@
}

/// The vertex shader, loaded as it is or after asking for change
/// notifications.
pub fn vertex_shader_source(watch_for_changes: bool) -> (source: ShaderSource)
    ensures
        source.path@ == vertex_shader_path(),
        source.watch_for_changes == watch_for_changes,
{
    ShaderSource { path: "shaders/vertex.vert", watch_for_changes }
}

/// The fragment shader, which is loaded as it is.
pub fn fragment_shader_source() -> (source: ShaderSource)
    ensures
        source.path@ == fragment_shader_path(),
        !source.watch_for_changes,
{
    ShaderSource { path: "shaders/fragment.frag", watch_for_changes: false }
}

/// Points both stages of a pipeline at the GLSL entry point. The pipeline
/// must have a fragment stage. Never fails.
pub fn use_glsl_entry_points(stages: &mut EntryPoints) -> (result: Result<
    (),
    SpecializedMeshPipelineError,
>)
    requires
        old(stages).fragment is Some,
    ensures
        result is Ok,
        final(stages).vertex@ == glsl_entry_point(),
        final(stages).fragment is Some,
        final(stages).fragment->0@ == glsl_entry_point(),
{
    stages.vertex = "main".to_owned();
    stages.fragment = Some("main".to_owned());
    Ok(())
}

} // verus!
