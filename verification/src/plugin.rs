//! The table in which a compiler session keeps the syntax extensions that
//! plugins provide.

use vstd::prelude::*;

verus! {

/// The expanders of this crate that are attached to a declaration by an
/// attribute.
#[derive(Clone, Copy, Debug, PartialEq, Eq, Structural)]
pub enum Expander {
    /// Derives the shader parameter implementation of a struct.
    ShaderParam,
    /// Derives the vertex format implementation of a struct.
    VertexFormat,
}

/// A syntax extension, by the way it is invoked.
#[derive(Clone, Copy, Debug, PartialEq, Eq, Structural)]
pub enum SyntaxExtension {
    /// An attribute that adds items beside the item it stands on.
    Decorator(Expander),
}

/// The syntax extensions registered so far, each under its name, oldest
/// first.
#[derive(Debug, PartialEq, Eq)]
pub struct Registry {
    pub syntax_exts: Vec<(String, SyntaxExtension)>,
}

impl View for Registry {
    type V = Seq<(Seq<char>, SyntaxExtension)>;

    open spec fn view(&self) -> Seq<(Seq<char>, SyntaxExtension)> {
        Seq::new(
            self.syntax_exts@.len(),
            |i: int| (self.syntax_exts@[i].0@, self.syntax_exts@[i].1),
        )
    }
}

impl Registry {
    /// A registry that holds no extension.
    pub fn new() -> (res: Registry)
        ensures
            res@ == Seq::<(Seq<char>, SyntaxExtension)>::empty(),
    {
        let res = Registry { syntax_exts: Vec::new() };
        res
    }

    /// Registers `extension` under `name`, after those registered before.
    pub fn register_syntax_extension(&mut self, name: &str, extension: SyntaxExtension)
        ensures
            final(self)@ == old(self)@.push((name@, extension)),
    {
        self.syntax_exts.push((String::from_str(name), extension));
    }
}

} // verus!
