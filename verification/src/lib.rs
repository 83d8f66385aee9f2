//! A custom 2D material for a mesh-rendering pipeline, described as plain data.
//!
//! The material comes in two forms: one that hands a colour to the fragment
//! shader through a uniform buffer, and one that binds nothing at all. For
//! each, this crate states what the pipeline needs to know: the layout of the
//! bind group, the buffers that fill it, the shaders to load and the entry
//! points of the two stages. Talking to the graphics device is left to the
//! caller.

pub mod binding;
pub mod color;
pub mod gpu;
pub mod shader;
pub mod with_extra_uniform;
pub mod without_extra_uniform;
