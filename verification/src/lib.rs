//! Macro extensions crate.
//!
//! Implements the `shaders!` construct as well as what the `#[shader_param]`
//! and `#[vertex_format]` attributes share: the extraction of field names
//! from annotations, and hygienic access to the `gfx` crate from the code
//! that they generate.

use vstd::prelude::*;
use crate::plugin::{Expander, Registry, SyntaxExtension};

pub mod ast;
pub mod attr;
pub mod base;
pub mod hack;
pub mod name;
pub mod plugin;
pub mod shaders;

verus! {

/// Entry point for the plugin phase: registers the `#[shader_param]` and
/// the `#[vertex_format]` attribute, in this order, after whatever `reg`
/// holds already.
pub fn registrar(reg: &mut Registry)
    ensures
        final(reg)@ == old(reg)@.push(
            ("shader_param"@, SyntaxExtension::Decorator(Expander::ShaderParam)),
        ).push(("vertex_format"@, SyntaxExtension::Decorator(Expander::VertexFormat))),
{
    reg.register_syntax_extension(
        "shader_param",
        SyntaxExtension::Decorator(Expander::ShaderParam),
    );
    reg.register_syntax_extension(
        "vertex_format",
        SyntaxExtension::Decorator(Expander::VertexFormat),
    );
}

} // verus!
