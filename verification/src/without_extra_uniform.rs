//! The material that hands nothing to its shaders.

use crate::binding::{fills_layout, UniformBuffer, UniformLayoutEntry};
use crate::gpu::MyMaterialGPU;
use crate::shader::{
    fragment_shader_path, fragment_shader_source, glsl_entry_point, use_glsl_entry_points,
    vertex_shader_path, vertex_shader_source, EntryPoints, ShaderSource,
};
use bevy::render::render_resource::{BindGroup, SpecializedMeshPipelineError};
use vstd::prelude::*;

verus! {

/// A material without any data of its own.
#[derive(Clone, Copy, Debug, PartialEq, Eq)]
pub struct MyMaterial;

impl MyMaterial {
    /// The bind group layout of the material: no entry.
    pub open spec fn layout() -> Seq<UniformLayoutEntry> {
        Seq::empty()
    }

    /// The bind group of a prepared material.
    pub fn bind_group(material: &MyMaterialGPU) -> (bind_group: &BindGroup)
        ensures
            *bind_group == material.bind_group,
    {
        &material.bind_group
    }

    /// The entries of the material's bind group layout.
    pub fn bind_group_layout() -> (entries: Vec<UniformLayoutEntry>)
        ensures
            entries@ == Self::layout(),
    {
        Vec::new()
    }

    /// The material brings its own vertex shader, and has the asset server
    /// watch for changes before it is loaded.
    pub fn vertex_shader() -> (shader: Option<ShaderSource>)
        ensures
            shader is Some,
            shader->0.path@ == vertex_shader_path(),
            shader->0.watch_for_changes,
    {
        Some(vertex_shader_source(true))
    }

    /// The material brings its own fragment shader.
    pub fn fragment_shader() -> (shader: Option<ShaderSource>)
        ensures
            shader is Some,
            shader->0.path@ == fragment_shader_path(),
            !shader->0.watch_for_changes,
    {
        Some(fragment_shader_source())
    }

    /// Adapts a pipeline to the material's shaders, which are written in
    /// GLSL: both stages start at the GLSL entry point. The pipeline must
    /// have a fragment stage. Never fails.
    pub fn specialize(descriptor: &mut EntryPoints) -> (result: Result<
        (),
        SpecializedMeshPipelineError,
    >)
        requires
            old(descriptor).fragment is Some,
        ensures
            result is Ok,
            final(descriptor).vertex@ == glsl_entry_point(),
            final(descriptor).fragment is Some,
            final(descriptor).fragment->0@ == glsl_entry_point(),
    {
        use_glsl_entry_points(descriptor)
    }

    /// The material as the render world keeps it: a copy.
    pub fn extract_asset(&self) -> (extracted: MyMaterial)
        ensures
            extracted == *self,
    {
        *self
    }

    /// The buffers that make up the bind group of the material: none.
    pub fn prepare_asset(asset: MyMaterial) -> (buffers: Vec<UniformBuffer>)
        ensures
            buffers@.len() == 0,
            fills_layout(buffers@, Self::layout()),
    {
        Vec::new()
    }
}

} // verus!
