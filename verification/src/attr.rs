//! Annotations on declaration elements.

use vstd::prelude::*;
use crate::ast::Span;

verus! {

/// A literal value.
#[derive(Debug, PartialEq, Eq)]
pub enum Lit {
    Str(String),
    Int(u64),
    Bool(bool),
}

/// What an annotation says: a bare key, or a key with a literal value.
#[derive(Debug, PartialEq, Eq)]
pub enum MetaItem {
    /// `#[key]`
    Word(String),
    /// `#[key = value]`
    NameValue(String, Lit),
}

/// An annotation, with the number that identifies it within a compilation
/// unit.
#[derive(Debug, PartialEq, Eq)]
pub struct Attribute {
    pub id: usize,
    pub value: MetaItem,
    pub span: Span,
}

} // verus!
