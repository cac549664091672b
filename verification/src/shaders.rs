//! The `shaders!` construct: a sequence of `KEYWORD: value` directives that
//! expands to a shader source record.
//!
//! A directive expands to a record literal that sets the one slot its
//! keyword names and takes every other slot from the expansion of the
//! directives after it; the empty sequence expands to the record whose
//! slots are all absent. The literal of the leftmost directive is thus the
//! outermost one, so where a keyword is repeated its leftmost value is the
//! one that the record holds.

use vstd::prelude::*;
use crate::ast::{Ident, Item, Span, items_view, plain_ident};
use crate::base::ExpandError;
use crate::hack::{EXTERN_CRATE_HACK, alias_module, hack_module, marker};

verus! {

/// A slot of the shader source record.
#[derive(Clone, Copy, Debug, PartialEq, Eq, Structural)]
pub enum Slot {
    Glsl120,
    Glsl130,
    Glsl140,
    Glsl150,
    Targets,
}

/// The slot that `keyword` names, if it is in the vocabulary.
pub open spec fn slot_of(keyword: Seq<char>) -> Option<Slot> {
    if keyword == "GLSL_120"@ {
        Some(Slot::Glsl120)
    } else if keyword == "GLSL_130"@ {
        Some(Slot::Glsl130)
    } else if keyword == "GLSL_140"@ {
        Some(Slot::Glsl140)
    } else if keyword == "GLSL_150"@ {
        Some(Slot::Glsl150)
    } else if keyword == "TARGETS"@ {
        Some(Slot::Targets)
    } else {
        None
    }
}

impl Slot {
    /// The slot that `keyword` names, if it is in the vocabulary.
    pub fn from_keyword(keyword: &String) -> (res: Option<Slot>)
        ensures
            res == slot_of(keyword@),
    {
        if *keyword == String::from_str("GLSL_120") {
            Some(Slot::Glsl120)
        } else if *keyword == String::from_str("GLSL_130") {
            Some(Slot::Glsl130)
        } else if *keyword == String::from_str("GLSL_140") {
            Some(Slot::Glsl140)
        } else if *keyword == String::from_str("GLSL_150") {
            Some(Slot::Glsl150)
        } else if *keyword == String::from_str("TARGETS") {
            Some(Slot::Targets)
        } else {
            None
        }
    }
}

/// One directive: a keyword and the value that follows it.
#[derive(Debug, PartialEq, Eq)]
pub struct Directive<V> {
    pub keyword: String,
    pub value: V,
    pub span: Span,
}

/// The shader source record: one optional value for each slot.
#[derive(Debug, PartialEq, Eq)]
pub struct ShaderSource<V> {
    pub glsl_120: Option<V>,
    pub glsl_130: Option<V>,
    pub glsl_140: Option<V>,
    pub glsl_150: Option<V>,
    pub targets: Option<V>,
}

impl<V> ShaderSource<V> {
    /// The record whose slots are all absent.
    pub open spec fn absent() -> Self {
        ShaderSource {
            glsl_120: None,
            glsl_130: None,
            glsl_140: None,
            glsl_150: None,
            targets: None,
        }
    }

    /// What `slot` holds.
    pub open spec fn get(self, slot: Slot) -> Option<V> {
        match slot {
            Slot::Glsl120 => self.glsl_120,
            Slot::Glsl130 => self.glsl_130,
            Slot::Glsl140 => self.glsl_140,
            Slot::Glsl150 => self.glsl_150,
            Slot::Targets => self.targets,
        }
    }

    /// The record `ShaderSource { <slot>: Some(value), ..self }`.
    pub open spec fn with(self, slot: Slot, value: V) -> Self {
        match slot {
            Slot::Glsl120 => ShaderSource { glsl_120: Some(value), ..self },
            Slot::Glsl130 => ShaderSource { glsl_130: Some(value), ..self },
            Slot::Glsl140 => ShaderSource { glsl_140: Some(value), ..self },
            Slot::Glsl150 => ShaderSource { glsl_150: Some(value), ..self },
            Slot::Targets => ShaderSource { targets: Some(value), ..self },
        }
    }

    /// The record whose slots are all absent.
    pub fn new() -> (res: Self)
        ensures
            res == Self::absent(),
    {
        ShaderSource {
            glsl_120: None,
            glsl_130: None,
            glsl_140: None,
            glsl_150: None,
            targets: None,
        }
    }

    /// Sets `slot` to `value` and keeps the other slots.
    pub fn update(self, slot: Slot, value: V) -> (res: Self)
        ensures
            res == self.with(slot, value),
    {
        match slot {
            Slot::Glsl120 => ShaderSource { glsl_120: Some(value), ..self },
            Slot::Glsl130 => ShaderSource { glsl_130: Some(value), ..self },
            Slot::Glsl140 => ShaderSource { glsl_140: Some(value), ..self },
            Slot::Glsl150 => ShaderSource { glsl_150: Some(value), ..self },
            Slot::Targets => ShaderSource { targets: Some(value), ..self },
        }
    }
}

/// What a directive sequence expands to: nested record literals, the
/// literal of the leftmost directive outermost.
#[derive(Debug, PartialEq, Eq)]
pub enum Expansion<V> {
    /// `ShaderSource { glsl_120: None, .., targets: None }`
    Empty,
    /// `ShaderSource { <slot>: Some(<value>), ..<rest> }`
    Update { slot: Slot, value: V, rest: Box<Expansion<V>> },
}

/// Whether every directive of `ds` begins with a keyword of the vocabulary.
pub open spec fn recognized<V>(ds: Seq<Directive<V>>) -> bool {
    forall|i: int| 0 <= i < ds.len() ==> slot_of(#[trigger] ds[i].keyword@) is Some
}

/// Whether the directive at `i` is the leftmost of `ds` whose keyword is
/// outside the vocabulary.
pub open spec fn unknown_at<V>(ds: Seq<Directive<V>>, i: int) -> bool {
    &&& 0 <= i < ds.len()
    &&& slot_of(ds[i].keyword@) is None
    &&& forall|j: int| 0 <= j < i ==> slot_of(#[trigger] ds[j].keyword@) is Some
}

/// The expansion of `ds`, keyword by keyword from the left.
pub open spec fn expansion<V>(ds: Seq<Directive<V>>) -> Expansion<V>
    decreases ds.len(),
{
    if ds.len() == 0 {
        Expansion::Empty
    } else {
        Expansion::Update {
            slot: slot_of(ds[0].keyword@).unwrap(),
            value: ds[0].value,
            rest: Box::new(expansion(ds.drop_first())),
        }
    }
}

/// The record that the literal `e` evaluates to: each update overrides the
/// slot it names in the record of the literal inside it.
pub open spec fn evaluation<V>(e: Expansion<V>) -> ShaderSource<V>
    decreases e,
{
    match e {
        Expansion::Empty => ShaderSource::absent(),
        Expansion::Update { slot, value, rest } => evaluation(*rest).with(slot, value),
    }
}

/// How many record literals `e` is made of, the innermost included.
pub open spec fn layers<V>(e: Expansion<V>) -> nat
    decreases e,
{
    match e {
        Expansion::Empty => 1,
        Expansion::Update { slot, value, rest } => 1 + layers(*rest),
    }
}

/// The directives of `ds` for `slot`, in order.
pub open spec fn directives_for<V>(ds: Seq<Directive<V>>, slot: Slot) -> Seq<Directive<V>> {
    ds.filter(|d: Directive<V>| slot_of(d.keyword@) == Some(slot))
}

/// The value of the leftmost directive of `ds` for `slot`, if there is one.
pub open spec fn leftmost<V>(ds: Seq<Directive<V>>, slot: Slot) -> Option<V> {
    if directives_for(ds, slot).len() == 0 {
        None
    } else {
        Some(directives_for(ds, slot)[0].value)
    }
}

/// The record that `ds` stand for: each slot holds the value of the
/// leftmost directive for it, and is absent where there is none.
pub open spec fn merged<V>(ds: Seq<Directive<V>>) -> ShaderSource<V> {
    ShaderSource {
        glsl_120: leftmost(ds, Slot::Glsl120),
        glsl_130: leftmost(ds, Slot::Glsl130),
        glsl_140: leftmost(ds, Slot::Glsl140),
        glsl_150: leftmost(ds, Slot::Glsl150),
        targets: leftmost(ds, Slot::Targets),
    }
}

proof fn lemma_leftmost_step<V>(ds: Seq<Directive<V>>, slot: Slot)
    requires
        ds.len() > 0,
    ensures
        leftmost(ds, slot) == if slot_of(ds[0].keyword@) == Some(slot) {
            Some(ds[0].value)
        } else {
            leftmost(ds.drop_first(), slot)
        },
{
    let pred = |d: Directive<V>| slot_of(d.keyword@) == Some(slot);
    assert(ds =~= seq![ds[0]] + ds.drop_first());
    Seq::filter_distributes_over_add(seq![ds[0]], ds.drop_first(), pred);
    assert(seq![ds[0]].filter(pred) =~= if pred(ds[0]) {
        seq![ds[0]]
    } else {
        Seq::empty()
    }) by {
        reveal_with_fuel(Seq::filter, 2);
    }
}

/// Leftmost wins. The nested literals that `ds` expand to evaluate to the
/// record in which each slot holds the value of the leftmost directive for
/// it: an outer update overrides the inner ones.
pub proof fn lemma_evaluation_merges<V>(ds: Seq<Directive<V>>)
    requires
        recognized(ds),
    ensures
        evaluation(expansion(ds)) == merged(ds),
        layers(expansion(ds)) == ds.len() + 1,
    decreases ds.len(),
{
    if ds.len() == 0 {
        assert(forall|slot: Slot| directives_for(ds, slot).len() == 0) by {
            reveal(Seq::filter);
        }
    } else {
        lemma_evaluation_merges(ds.drop_first());
        lemma_leftmost_step(ds, Slot::Glsl120);
        lemma_leftmost_step(ds, Slot::Glsl130);
        lemma_leftmost_step(ds, Slot::Glsl140);
        lemma_leftmost_step(ds, Slot::Glsl150);
        lemma_leftmost_step(ds, Slot::Targets);
    }
}

impl<V> Expansion<V> {
    /// Evaluates the nested record literals, innermost first.
    pub fn eval(self) -> (res: ShaderSource<V>)
        ensures
            res == evaluation(self),
        decreases self,
    {
        match self {
            Expansion::Empty => ShaderSource::new(),
            Expansion::Update { slot, value, rest } => {
                let inner = *rest;
                inner.eval().update(slot, value)
            },
        }
    }

    /// The alias modules that the expansion holds. Each record literal
    /// stands in a block of its own, with its own module that re-exports
    /// the `gfx` crate; the block keeps the module's name, which is the
    /// marker name itself, from meeting any other.
    pub fn alias_modules(&self, span: Span) -> (res: Vec<Item>)
        ensures
            items_view(res) == Seq::new(
                layers(*self),
                |i: int| alias_module(plain_ident(marker()), span),
            ),
        decreases self,
    {
        let mut out = match self {
            Expansion::Empty => Vec::new(),
            Expansion::Update { slot, value, rest } => rest.alias_modules(span),
        };
        let ghost inner = items_view(out);
        let module = hack_module(span, Ident::new(EXTERN_CRATE_HACK));
        out.push(module);
        assert(items_view(out) =~= inner.push(alias_module(plain_ident(marker()), span)));
        out
    }
}

/// The index of the leftmost directive whose keyword is outside the
/// vocabulary, if there is one.
fn find_unknown<V>(directives: &Vec<Directive<V>>) -> (res: Option<usize>)
    ensures
        res matches Some(i) ==> unknown_at(directives@, i as int),
        res is None ==> recognized(directives@),
{
    let mut i: usize = 0;
    while i < directives.len()
        invariant
            i <= directives@.len(),
            forall|j: int| 0 <= j < i ==> slot_of(#[trigger] directives@[j].keyword@) is Some,
        decreases directives@.len() - i,
    {
        if Slot::from_keyword(&directives[i].keyword).is_none() {
            return Some(i);
        }
        i += 1;
    }
    None
}

/// Expands a directive sequence into nested record literals.
///
/// Succeeds exactly where every directive begins with a keyword of the
/// vocabulary; a keyword may occur any number of times. Otherwise nothing
/// is expanded, and the error names the leftmost directive that does not.
pub fn expand_shaders<V>(directives: Vec<Directive<V>>) -> (res: Result<Expansion<V>, ExpandError>)
    ensures
        match res {
            Ok(e) => recognized(directives@) && e == expansion(directives@),
            Err(ExpandError::UnknownDirective { span, index }) => unknown_at(
                directives@,
                index as int,
            ) && span == directives@[index as int].span,
            Err(_) => false,
        },
{
    match find_unknown(&directives) {
        Some(index) => Err(
            ExpandError::UnknownDirective { span: directives[index].span, index },
        ),
        None => {
            let mut rest = directives;
            let mut acc: Expansion<V> = Expansion::Empty;
            while rest.len() > 0
                invariant
                    recognized(directives@),
                    rest@.len() <= directives@.len(),
                    rest@ == directives@.take(rest@.len() as int),
                    acc == expansion(directives@.skip(rest@.len() as int)),
                decreases rest@.len(),
            {
                let ghost n = rest@.len() as int;
                let d = rest.pop().unwrap();
                proof {
                    assert(directives@.skip(n - 1).drop_first() =~= directives@.skip(n));
                }
                let slot = Slot::from_keyword(&d.keyword).unwrap();
                acc = Expansion::Update { slot, value: d.value, rest: Box::new(acc) };
            }
            Ok(acc)
        },
    }
}

/// Folds a directive sequence into the shader source record.
///
/// Each slot of the record holds the value of the leftmost directive for
/// it, and is absent where no directive names it. Fails exactly where a
/// directive begins with a keyword outside the vocabulary; the error names
/// the leftmost such directive.
pub fn shaders<V>(directives: Vec<Directive<V>>) -> (res: Result<ShaderSource<V>, ExpandError>)
    ensures
        match res {
            Ok(source) => recognized(directives@) && source == merged(directives@),
            Err(ExpandError::UnknownDirective { span, index }) => unknown_at(
                directives@,
                index as int,
            ) && span == directives@[index as int].span,
            Err(_) => false,
        },
{
    match expand_shaders(directives) {
        Ok(e) => {
            proof {
                lemma_evaluation_merges(directives@);
            }
            Ok(e.eval())
        },
        Err(error) => Err(error),
    }
}

/// A slot holds the value of the leftmost directive for it: the directive
/// at `i` where no directive before it names the slot, whatever follows.
pub proof fn lemma_slot_leftmost<V>(ds: Seq<Directive<V>>, slot: Slot, i: int)
    requires
        0 <= i < ds.len(),
        slot_of(ds[i].keyword@) == Some(slot),
        forall|j: int| 0 <= j < i ==> slot_of(#[trigger] ds[j].keyword@) != Some(slot),
    ensures
        merged(ds).get(slot) == Some(ds[i].value),
    decreases i,
{
    lemma_leftmost_step(ds, slot);
    if i > 0 {
        lemma_slot_leftmost(ds.drop_first(), slot, i - 1);
    }
}

/// A slot that no directive names is absent.
pub proof fn lemma_slot_absent<V>(ds: Seq<Directive<V>>, slot: Slot)
    requires
        forall|j: int| 0 <= j < ds.len() ==> slot_of(#[trigger] ds[j].keyword@) != Some(slot),
    ensures
        merged(ds).get(slot) is None,
    decreases ds.len(),
{
    if ds.len() == 0 {
        reveal(Seq::filter);
    } else {
        lemma_leftmost_step(ds, slot);
        lemma_slot_absent(ds.drop_first(), slot);
    }
}

/// Two records that agree slot by slot are one record.
pub proof fn lemma_source_by_slots<V>(a: ShaderSource<V>, b: ShaderSource<V>)
    requires
        forall|slot: Slot| a.get(slot) == b.get(slot),
    ensures
        a == b,
{
    assert(a.get(Slot::Glsl120) == b.get(Slot::Glsl120));
    assert(a.get(Slot::Glsl130) == b.get(Slot::Glsl130));
    assert(a.get(Slot::Glsl140) == b.get(Slot::Glsl140));
    assert(a.get(Slot::Glsl150) == b.get(Slot::Glsl150));
    assert(a.get(Slot::Targets) == b.get(Slot::Targets));
}

/// A single directive sets the slot it names and leaves every other slot
/// absent.
pub proof fn lemma_single_directive<V>(d: Directive<V>, slot: Slot)
    requires
        slot_of(d.keyword@) == Some(slot),
    ensures
        merged(seq![d]) == ShaderSource::<V>::absent().with(slot, d.value),
{
    let ds = seq![d];
    let expected = ShaderSource::<V>::absent().with(slot, d.value);
    assert forall|other: Slot| merged(ds).get(other) == expected.get(other) by {
        if other == slot {
            lemma_slot_leftmost(ds, slot, 0);
        } else {
            lemma_slot_absent(ds, other);
        }
    }
    lemma_source_by_slots(merged(ds), expected);
}

/// Where a keyword is repeated the leftmost value wins: of two directives
/// for one slot, the record holds the value of the first.
pub proof fn lemma_duplicate_keyword<V>(first: Directive<V>, second: Directive<V>, slot: Slot)
    requires
        slot_of(first.keyword@) == Some(slot),
        slot_of(second.keyword@) == Some(slot),
    ensures
        merged(seq![first, second]) == ShaderSource::<V>::absent().with(slot, first.value),
{
    let ds = seq![first, second];
    let expected = ShaderSource::<V>::absent().with(slot, first.value);
    assert forall|other: Slot| merged(ds).get(other) == expected.get(other) by {
        if other == slot {
            lemma_slot_leftmost(ds, slot, 0);
        } else {
            lemma_slot_absent(ds, other);
        }
    }
    lemma_source_by_slots(merged(ds), expected);
}

/// No directive at all gives the record whose slots are all absent.
pub proof fn lemma_no_directive<V>()
    ensures
        recognized(Seq::<Directive<V>>::empty()),
        merged(Seq::<Directive<V>>::empty()) == ShaderSource::<V>::absent(),
{
    lemma_evaluation_merges(Seq::<Directive<V>>::empty());
}

} // verus!
