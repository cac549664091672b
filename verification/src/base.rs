//! The state of one compilation unit that expansions share: the symbol
//! generator, the warnings given so far, and the annotations that have been
//! read.

use vstd::prelude::*;
use crate::ast::{Ident, IdentView, Span};
use crate::attr::Attribute;

verus! {

/// A warning attached to a place in the source.
#[derive(Debug, PartialEq, Eq)]
pub struct Warning {
    pub span: Span,
    pub message: String,
}

/// What a [`Warning`] says, as contracts read it.
pub struct WarningView {
    pub span: Span,
    pub message: Seq<char>,
}

impl View for Warning {
    type V = WarningView;

    open spec fn view(&self) -> WarningView {
        WarningView { span: self.span, message: self.message@ }
    }
}

/// What the warnings of `v` say, in order.
pub open spec fn warnings_view(v: Vec<Warning>) -> Seq<WarningView> {
    Seq::new(v@.len(), |i: int| v@[i]@)
}

/// Why an expansion was given up.
#[derive(Clone, Copy, Debug, PartialEq, Eq, Structural)]
pub enum ExpandError {
    /// The symbol generator has handed out every serial number it has.
    SymbolsExhausted { span: Span },
    /// The directive at `index` begins with a keyword outside the
    /// vocabulary.
    UnknownDirective { span: Span, index: usize },
}

/// The text that reports `error`.
pub open spec fn error_message(error: ExpandError) -> Seq<char> {
    match error {
        ExpandError::SymbolsExhausted { .. } => "no fresh symbol is left for the alias module"@,
        ExpandError::UnknownDirective { .. } => "no rules expected this directive"@,
    }
}

impl ExpandError {
    /// The place in the source that the error is about.
    pub fn span(&self) -> (res: Span)
        ensures
            res == match *self {
                ExpandError::SymbolsExhausted { span } => span,
                ExpandError::UnknownDirective { span, .. } => span,
            },
    {
        match self {
            ExpandError::SymbolsExhausted { span } => *span,
            ExpandError::UnknownDirective { span, .. } => *span,
        }
    }

    /// The text that reports the error.
    pub fn message(&self) -> (res: String)
        ensures
            res@ == error_message(*self),
    {
        match self {
            ExpandError::SymbolsExhausted { .. } => String::from_str(
                "no fresh symbol is left for the alias module",
            ),
            ExpandError::UnknownDirective { .. } => String::from_str(
                "no rules expected this directive",
            ),
        }
    }
}

/// The view of the symbol generated from `seed` under serial number
/// `serial`.
pub open spec fn gensym(seed: Seq<char>, serial: u64) -> IdentView {
    IdentView { name: seed, gensym: Some(serial) }
}

/// The state of one compilation unit, as far as expansions share it.
#[derive(Debug)]
pub struct ExtCtxt {
    symbols: u64,
    warnings: Vec<Warning>,
    used: Vec<usize>,
}

/// The state of a compilation unit, as contracts read it.
pub struct ExtCtxtView {
    /// How many symbols have been generated: the serial number of the next.
    pub symbols: u64,
    /// The warnings given so far, oldest first.
    pub warnings: Seq<WarningView>,
    /// The numbers of the annotations marked as read, oldest first.
    pub used: Seq<usize>,
}

impl View for ExtCtxt {
    type V = ExtCtxtView;

    closed spec fn view(&self) -> ExtCtxtView {
        ExtCtxtView {
            symbols: self.symbols,
            warnings: warnings_view(self.warnings),
            used: self.used@,
        }
    }
}

impl ExtCtxt {
    /// The state at the start of a compilation unit.
    pub fn new() -> (cx: ExtCtxt)
        ensures
            cx@ == (ExtCtxtView { symbols: 0, warnings: Seq::empty(), used: Seq::empty() }),
    {
        ExtCtxt::starting_at(0)
    }

    /// The state of a compilation unit in which `symbols` symbols have been
    /// generated already.
    pub fn starting_at(symbols: u64) -> (cx: ExtCtxt)
        ensures
            cx@ == (ExtCtxtView { symbols, warnings: Seq::empty(), used: Seq::empty() }),
    {
        let cx = ExtCtxt { symbols, warnings: Vec::new(), used: Vec::new() };
        assert(cx@.warnings =~= Seq::empty());
        cx
    }

    /// Records a warning about the code at `span`.
    pub fn span_warn(&mut self, span: Span, message: String)
        ensures
            final(self)@ == (ExtCtxtView {
                warnings: old(self)@.warnings.push(WarningView { span, message: message@ }),
                ..old(self)@
            }),
    {
        self.warnings.push(Warning { span, message });
        assert(self@.warnings =~= old(self)@.warnings.push(
            WarningView { span, message: message@ },
        ));
    }

    /// Marks `attr` as read, so that it is not reported as unknown later.
    pub fn mark_used(&mut self, attr: &Attribute)
        ensures
            final(self)@ == (ExtCtxtView { used: old(self)@.used.push(attr.id), ..old(self)@ }),
    {
        self.used.push(attr.id);
    }

    /// Whether `attr` has been marked as read.
    pub fn is_used(&self, attr: &Attribute) -> (res: bool)
        ensures
            res == self@.used.contains(attr.id),
    {
        let mut i: usize = 0;
        while i < self.used.len()
            invariant
                i <= self.used@.len(),
                forall|j: int| 0 <= j < i ==> self.used@[j] != attr.id,
            decreases self.used@.len() - i,
        {
            if self.used[i] == attr.id {
                return true;
            }
            i += 1;
        }
        false
    }

    /// The warnings given so far, oldest first.
    pub fn warnings(&self) -> (res: &Vec<Warning>)
        ensures
            warnings_view(*res) == self@.warnings,
    {
        &self.warnings
    }

    /// How many symbols have been generated.
    pub fn symbols(&self) -> (res: u64)
        ensures
            res == self@.symbols,
    {
        self.symbols
    }

    /// Generates a symbol that reads `seed` and differs from every
    /// identifier in the compilation unit: from those written in source
    /// text, which carry no serial number, and from the symbols generated
    /// before, which carry smaller ones. Gives `None`, and changes nothing,
    /// once the serial numbers have run out.
    pub fn gensym_ident(&mut self, seed: &str) -> (res: Option<Ident>)
        ensures
            old(self)@.symbols < u64::MAX ==> res.is_some() && res.unwrap()@ == gensym(
                seed@,
                old(self)@.symbols,
            ) && final(self)@ == (ExtCtxtView {
                symbols: (old(self)@.symbols + 1) as u64,
                ..old(self)@
            }),
            old(self)@.symbols == u64::MAX ==> res.is_none() && final(self)@ == old(self)@,
    {
        if self.symbols == u64::MAX {
            return None;
        }
        let serial = self.symbols;
        self.symbols = serial + 1;
        Some(Ident { name: String::from_str(seed), gensym: Some(serial) })
    }
}

} // verus!
