//! Extraction of the name that a field is given by annotation.

use vstd::prelude::*;
use crate::ast::Span;
use crate::attr::{Attribute, Lit, MetaItem};
use crate::base::{ExtCtxt, ExtCtxtView, WarningView};

verus! {

/// The name that `a` gives, if it is of the form `name = "<text>"`.
pub open spec fn name_override(a: Attribute) -> Option<Seq<char>> {
    match a.value {
        MetaItem::NameValue(key, Lit::Str(text)) => if key@ == "name"@ {
            Some(text@)
        } else {
            None
        },
        _ => None,
    }
}

/// The annotations among `attrs` that give a name, in order.
pub open spec fn overrides(attrs: Seq<Attribute>) -> Seq<Attribute> {
    attrs.filter(|a: Attribute| name_override(a) is Some)
}

/// The name that `attrs` give to the field they stand on: that of the
/// first annotation that gives one.
pub open spec fn first_name(attrs: Seq<Attribute>) -> Option<Seq<char>> {
    if overrides(attrs).len() == 0 {
        None
    } else {
        name_override(overrides(attrs)[0])
    }
}

/// The text of the warning about a name that is passed over.
pub open spec fn extra_name_message(rejected: Seq<char>, retained: Seq<char>) -> Seq<char> {
    "Extra field name detected: "@ + rejected + " - ignoring in favour of: "@ + retained
}

/// The warnings that `attrs` call for: one for each annotation that gives a
/// name after the first, in order, each set against the first.
pub open spec fn extra_name_warnings(span: Span, attrs: Seq<Attribute>) -> Seq<WarningView> {
    let named = overrides(attrs);
    Seq::new(
        if named.len() == 0 {
            0
        } else {
            (named.len() - 1) as nat
        },
        |k: int|
            WarningView {
                span,
                message: extra_name_message(
                    name_override(named[k + 1]).unwrap(),
                    name_override(named[0]).unwrap(),
                ),
            },
    )
}

/// The numbers of the annotations among `attrs` that give a name, in order.
pub open spec fn override_ids(attrs: Seq<Attribute>) -> Seq<usize> {
    overrides(attrs).map_values(|a: Attribute| a.id)
}

/// The text of `name`, if there is one.
pub open spec fn text_of(name: Option<String>) -> Option<Seq<char>> {
    match name {
        Some(s) => Some(s@),
        None => None,
    }
}

/// The name that `attribute` gives, if it gives one.
pub fn attribute_name(attribute: &Attribute) -> (res: Option<&String>)
    ensures
        res matches Some(text) ==> name_override(*attribute) == Some(text@),
        res is None ==> name_override(*attribute) is None,
{
    match &attribute.value {
        MetaItem::NameValue(key, Lit::Str(text)) => {
            let name = String::from_str("name");
            if *key == name {
                Some(text)
            } else {
                None
            }
        },
        _ => None,
    }
}

/// Builds the text of the warning about a name that is passed over.
fn extra_name_text(rejected: &String, retained: &String) -> (res: String)
    ensures
        res@ == extra_name_message(rejected@, retained@),
{
    String::from_str("Extra field name detected: ").concat(rejected.as_str()).concat(
        " - ignoring in favour of: ",
    ).concat(retained.as_str())
}

/// Scans through the field's attributes and extracts the field's name. If
/// multiple names are found, uses the first name and emits a warning for
/// each of the others, at `span`, that sets it against the first.
///
/// Every annotation that gives a name is marked as used, also one that is
/// passed over. Annotations of any other form are not read: they change
/// neither the result nor the state.
pub fn find_name(cx: &mut ExtCtxt, span: Span, attributes: &[Attribute]) -> (name: Option<String>)
    ensures
        text_of(name) == first_name(attributes@),
        final(cx)@ == (ExtCtxtView {
            symbols: old(cx)@.symbols,
            warnings: old(cx)@.warnings + extra_name_warnings(span, attributes@),
            used: old(cx)@.used + override_ids(attributes@),
        }),
{
    let mut name: Option<String> = None;
    let mut i: usize = 0;
    proof {
        assert(overrides(Seq::<Attribute>::empty()).len() == 0) by {
            reveal(Seq::filter);
        }
    }
    while i < attributes.len()
        invariant
            i <= attributes@.len(),
            text_of(name) == first_name(attributes@.take(i as int)),
            cx@ == (ExtCtxtView {
                symbols: old(cx)@.symbols,
                warnings: old(cx)@.warnings + extra_name_warnings(
                    span,
                    attributes@.take(i as int),
                ),
                used: old(cx)@.used + override_ids(attributes@.take(i as int)),
            }),
        decreases attributes@.len() - i,
    {
        let attribute = &attributes[i];
        let ghost before = attributes@.take(i as int);
        let ghost after = attributes@.take(i + 1);
        proof {
            assert(after.drop_last() =~= before);
            reveal(Seq::filter);
        }
        match attribute_name(attribute) {
            Some(new_name) => {
                cx.mark_used(attribute);
                assert(cx@.used =~= old(cx)@.used + override_ids(after));
                match &name {
                    None => {
                        name = Some(new_name.clone());
                    },
                    Some(kept) => {
                        cx.span_warn(span, extra_name_text(new_name, kept));
                        assert(cx@.warnings =~= old(cx)@.warnings + extra_name_warnings(
                            span,
                            after,
                        ));
                    },
                }
            },
            None => {},
        }
        i += 1;
    }
    assert(attributes@.take(i as int) =~= attributes@);
    name
}

/// Whether `part` occurs in `text` as a run of consecutive characters.
pub open spec fn mentions(text: Seq<char>, part: Seq<char>) -> bool {
    exists|k: int|
        0 <= k <= text.len() - part.len() && #[trigger] text.subrange(k, k + part.len()) == part
}

/// The warning about a name that is passed over names both that name and the
/// one that is kept.
pub proof fn lemma_message_mentions_both(rejected: Seq<char>, retained: Seq<char>)
    ensures
        mentions(extra_name_message(rejected, retained), rejected),
        mentions(extra_name_message(rejected, retained), retained),
{
    let head = "Extra field name detected: "@;
    let mid = " - ignoring in favour of: "@;
    let text = extra_name_message(rejected, retained);
    let at = head.len() as int;
    assert(text.subrange(at, at + rejected.len()) =~= rejected);
    let at = (head.len() + rejected.len() + mid.len()) as int;
    assert(text.subrange(at, at + retained.len()) =~= retained);
}

proof fn lemma_overrides_none(attrs: Seq<Attribute>)
    requires
        forall|i: int| 0 <= i < attrs.len() ==> name_override(#[trigger] attrs[i]) is None,
    ensures
        overrides(attrs).len() == 0,
    decreases attrs.len(),
{
    reveal(Seq::filter);
    if attrs.len() > 0 {
        lemma_overrides_none(attrs.drop_last());
    }
}

proof fn lemma_overrides_from(attrs: Seq<Attribute>, i: int)
    requires
        0 <= i < attrs.len(),
        name_override(attrs[i]) is Some,
        forall|k: int| 0 <= k < i ==> name_override(#[trigger] attrs[k]) is None,
    ensures
        overrides(attrs) == seq![attrs[i]] + overrides(attrs.skip(i + 1)),
{
    let pred = |a: Attribute| name_override(a) is Some;
    let head = attrs.take(i);
    let tail = attrs.skip(i + 1);
    assert(attrs =~= head + (seq![attrs[i]] + tail));
    Seq::filter_distributes_over_add(head, seq![attrs[i]] + tail, pred);
    Seq::filter_distributes_over_add(seq![attrs[i]], tail, pred);
    lemma_overrides_none(head);
    assert(seq![attrs[i]].filter(pred) =~= seq![attrs[i]]) by {
        reveal_with_fuel(Seq::filter, 2);
    }
}

/// No override. Where no annotation gives a name, the field has none, no
/// warning is given and no annotation is marked as used.
pub proof fn lemma_no_override(span: Span, attrs: Seq<Attribute>)
    requires
        forall|i: int| 0 <= i < attrs.len() ==> name_override(#[trigger] attrs[i]) is None,
    ensures
        first_name(attrs) is None,
        extra_name_warnings(span, attrs) == Seq::<WarningView>::empty(),
        override_ids(attrs) == Seq::<usize>::empty(),
{
    lemma_overrides_none(attrs);
}

/// Single override. Where exactly one annotation gives a name, the one at
/// `i`, the field has that name, no warning is given, and that annotation
/// alone is marked as used.
pub proof fn lemma_single_override(span: Span, attrs: Seq<Attribute>, i: int)
    requires
        0 <= i < attrs.len(),
        name_override(attrs[i]) is Some,
        forall|k: int|
            0 <= k < attrs.len() && k != i ==> name_override(#[trigger] attrs[k]) is None,
    ensures
        first_name(attrs) == name_override(attrs[i]),
        extra_name_warnings(span, attrs) == Seq::<WarningView>::empty(),
        override_ids(attrs) == seq![attrs[i].id],
{
    lemma_overrides_from(attrs, i);
    lemma_overrides_none(attrs.skip(i + 1));
}

/// Duplicate override. Where two annotations give a name, the one at `i`
/// and after it the one at `j`, the field has the name given first; exactly
/// one warning is given, which names the second name and the first; and
/// both annotations are marked as used.
pub proof fn lemma_duplicate_override(span: Span, attrs: Seq<Attribute>, i: int, j: int)
    requires
        0 <= i < j < attrs.len(),
        name_override(attrs[i]) is Some,
        name_override(attrs[j]) is Some,
        forall|k: int|
            0 <= k < attrs.len() && k != i && k != j ==> name_override(#[trigger] attrs[k])
                is None,
    ensures
        first_name(attrs) == name_override(attrs[i]),
        extra_name_warnings(span, attrs) == seq![
            WarningView {
                span,
                message: extra_name_message(
                    name_override(attrs[j]).unwrap(),
                    name_override(attrs[i]).unwrap(),
                ),
            },
        ],
        mentions(extra_name_warnings(span, attrs)[0].message, name_override(attrs[j]).unwrap()),
        mentions(extra_name_warnings(span, attrs)[0].message, name_override(attrs[i]).unwrap()),
        override_ids(attrs) == seq![attrs[i].id, attrs[j].id],
{
    let tail = attrs.skip(i + 1);
    lemma_overrides_from(attrs, i);
    lemma_overrides_from(tail, j - i - 1);
    assert(tail.skip(j - i) =~= attrs.skip(j + 1));
    lemma_overrides_none(attrs.skip(j + 1));
    let rejected = name_override(attrs[j]).unwrap();
    let retained = name_override(attrs[i]).unwrap();
    lemma_message_mentions_both(rejected, retained);
}

/// First name wins. The field has the name of the first annotation that
/// gives one, however many follow; each of those that follow is warned of.
pub proof fn lemma_first_override_wins(span: Span, attrs: Seq<Attribute>, i: int)
    requires
        0 <= i < attrs.len(),
        name_override(attrs[i]) is Some,
        forall|k: int| 0 <= k < i ==> name_override(#[trigger] attrs[k]) is None,
    ensures
        first_name(attrs) == name_override(attrs[i]),
        extra_name_warnings(span, attrs).len() == overrides(attrs.skip(i + 1)).len(),
        forall|k: int|
            0 <= k < overrides(attrs.skip(i + 1)).len() ==> (#[trigger] extra_name_warnings(
                span,
                attrs,
            )[k]).message == extra_name_message(
                name_override(overrides(attrs.skip(i + 1))[k]).unwrap(),
                name_override(attrs[i]).unwrap(),
            ),
{
    lemma_overrides_from(attrs, i);
}

} // verus!
