//! What is left of a material once it has been prepared for the graphics
//! device.

use bevy::render::render_resource::BindGroup;
use vstd::prelude::*;

verus! {

/// A bind group that the render device has made. Opaque here: it is kept and
/// handed out, and never looked into.
#[verifier::external_type_specification]
#[verifier::external_body]
pub struct ExBindGroup(BindGroup);

/// GPU representation of a material.
pub struct MyMaterialGPU {
    pub bind_group: BindGroup,
}

} // verus!
