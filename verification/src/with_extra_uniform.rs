//! The material that hands a colour to the fragment shader.

use crate::binding::{
    fills_layout, min_binding_size, vec4_block_size, vec4_std140_size, StageSet, UniformBuffer,
    UniformLayoutEntry,
};
use crate::color::LinearRgba;
use crate::gpu::MyMaterialGPU;
use crate::shader::{
    fragment_shader_path, fragment_shader_source, glsl_entry_point, use_glsl_entry_points,
    vertex_shader_path, vertex_shader_source, EntryPoints, ShaderSource,
};
use bevy::render::render_resource::{BindGroup, SpecializedMeshPipelineError};
use vstd::prelude::*;

verus! {

/// A material of one colour.
#[derive(Clone, Copy, Debug, PartialEq, Eq)]
pub struct MyMaterial {
    pub color: LinearRgba,
}

impl MyMaterial {
    /// The bind group layout of the material: the colour, as one uniform
    /// buffer at binding 0 that only the fragment stage reads.
    pub open spec fn layout() -> Seq<UniformLayoutEntry> {
        seq![
            UniformLayoutEntry {
                binding: 0,
                visibility: StageSet { vertex: false, fragment: true, compute: false },
                has_dynamic_offset: false,
                min_binding_size: Some(vec4_block_size() as u64),
            },
        ]
    }

    /// The bind group of a prepared material.
    pub fn bind_group(material: &MyMaterialGPU) -> (bind_group: &BindGroup)
        ensures
            *bind_group == material.bind_group,
    {
        &material.bind_group
    }

    /// The entries of the material's bind group layout.
    pub fn bind_group_layout() -> (entries: Vec<UniformLayoutEntry>)
        ensures
            entries@ == Self::layout(),
    {
        let entry = UniformLayoutEntry {
            binding: 0,
            visibility: StageSet { vertex: false, fragment: true, compute: false },
            has_dynamic_offset: false,
            min_binding_size: min_binding_size(vec4_std140_size()),
        };
        let mut entries: Vec<UniformLayoutEntry> = Vec::with_capacity(1);
        entries.push(entry);
        entries
    }

    /// The material brings its own vertex shader.
    pub fn vertex_shader() -> (shader: Option<ShaderSource>)
        ensures
            shader is Some,
            shader->0.path@ == vertex_shader_path(),
            !shader->0.watch_for_changes,
    {
        Some(vertex_shader_source(false))
    }

    /// The material brings its own fragment shader.
    pub fn fragment_shader() -> (shader: Option<ShaderSource>)
        ensures
            shader is Some,
            shader->0.path@ == fragment_shader_path(),
            !shader->0.watch_for_changes,
    {
        Some(fragment_shader_source())
    }

    /// Adapts a pipeline to the material's shaders, which are written in
    /// GLSL: both stages start at the GLSL entry point. The pipeline must
    /// have a fragment stage. Never fails.
    pub fn specialize(descriptor: &mut EntryPoints) -> (result: Result<
        (),
        SpecializedMeshPipelineError,
    >)
        requires
            old(descriptor).fragment is Some,
        ensures
            result is Ok,
            final(descriptor).vertex@ == glsl_entry_point(),
            final(descriptor).fragment is Some,
            final(descriptor).fragment->0@ == glsl_entry_point(),
    {
        use_glsl_entry_points(descriptor)
    }

    /// The material as the render world keeps it: a copy.
    pub fn extract_asset(&self) -> (extracted: MyMaterial)
        ensures
            extracted == *self,
    {
        *self
    }

    /// The buffers that make up the bind group of the material: one, which
    /// holds the colour and fills the only entry of the layout.
    pub fn prepare_asset(asset: MyMaterial) -> (buffers: Vec<UniformBuffer>)
        ensures
            buffers@.len() == 1,
            buffers@[0].binding == 0,
            buffers@[0].contents@ == asset.color.uniform_block(),
            buffers@[0].copy_dst,
            fills_layout(buffers@, Self::layout()),
    {
        let buffer = UniformBuffer {
            binding: 0,
            contents: asset.color.to_uniform_block(),
            copy_dst: true,
        };
        let mut buffers: Vec<UniformBuffer> = Vec::with_capacity(1);
        buffers.push(buffer);
        buffers
    }
}

} // verus!
