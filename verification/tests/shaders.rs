use gfx_macros::ast::{Ident, Span};
use gfx_macros::base::ExpandError;
use gfx_macros::hack::hack_module;
use gfx_macros::shaders::{expand_shaders, shaders, Directive, Expansion, ShaderSource, Slot};

fn directive(keyword: &str, value: &'static str, at: u32) -> Directive<&'static str> {
    Directive { keyword: keyword.to_string(), value, span: Span { lo: at, hi: at + 1 } }
}

fn absent() -> ShaderSource<&'static str> {
    ShaderSource { glsl_120: None, glsl_130: None, glsl_140: None, glsl_150: None, targets: None }
}

#[test]
fn targets_alone_sets_only_targets() {
    let source = shaders(vec![directive("TARGETS", "t", 0)]).unwrap();
    assert_eq!(source, ShaderSource { targets: Some("t"), ..absent() });
}

#[test]
fn duplicate_keyword_leftmost_wins() {
    let source = shaders(vec![directive("GLSL_120", "a", 0), directive("GLSL_120", "b", 1)]).unwrap();
    assert_eq!(source.glsl_120, Some("a"));
    assert_ne!(source.glsl_120, Some("b"));
    assert_eq!(source, ShaderSource { glsl_120: Some("a"), ..absent() });
}

#[test]
fn no_directive_gives_the_absent_record() {
    let source = shaders(Vec::<Directive<&'static str>>::new()).unwrap();
    assert_eq!(source, absent());
    assert_eq!(ShaderSource::<&'static str>::new(), absent());
}

#[test]
fn every_keyword_fills_its_own_slot() {
    let source = shaders(vec![
        directive("TARGETS", "t", 0),
        directive("GLSL_150", "d", 1),
        directive("GLSL_120", "a", 2),
        directive("GLSL_140", "c", 3),
        directive("GLSL_130", "b", 4),
    ])
    .unwrap();
    assert_eq!(
        source,
        ShaderSource {
            glsl_120: Some("a"),
            glsl_130: Some("b"),
            glsl_140: Some("c"),
            glsl_150: Some("d"),
            targets: Some("t"),
        }
    );
}

#[test]
fn repeated_keywords_among_others_keep_their_leftmost_value() {
    let source = shaders(vec![
        directive("GLSL_130", "first", 0),
        directive("TARGETS", "t1", 1),
        directive("GLSL_130", "second", 2),
        directive("TARGETS", "t2", 3),
        directive("GLSL_130", "third", 4),
    ])
    .unwrap();
    assert_eq!(source, ShaderSource { glsl_130: Some("first"), targets: Some("t1"), ..absent() });
}

#[test]
fn unknown_keyword_is_rejected_at_the_leftmost_place() {
    let error = shaders(vec![
        directive("GLSL_120", "a", 0),
        directive("HLSL", "b", 5),
        directive("glsl_120", "c", 9),
    ])
    .unwrap_err();
    assert_eq!(error, ExpandError::UnknownDirective { span: Span { lo: 5, hi: 6 }, index: 1 });
    assert_eq!(error.span(), Span { lo: 5, hi: 6 });
    assert_eq!(error.message(), "no rules expected this directive");
    let error = expand_shaders(vec![directive("", "a", 2)]).unwrap_err();
    assert_eq!(error, ExpandError::UnknownDirective { span: Span { lo: 2, hi: 3 }, index: 0 });
}

#[test]
fn keywords_are_recognized_exactly() {
    let text = |s: &str| s.to_string();
    assert_eq!(Slot::from_keyword(&text("GLSL_120")), Some(Slot::Glsl120));
    assert_eq!(Slot::from_keyword(&text("GLSL_130")), Some(Slot::Glsl130));
    assert_eq!(Slot::from_keyword(&text("GLSL_140")), Some(Slot::Glsl140));
    assert_eq!(Slot::from_keyword(&text("GLSL_150")), Some(Slot::Glsl150));
    assert_eq!(Slot::from_keyword(&text("TARGETS")), Some(Slot::Targets));
    assert_eq!(Slot::from_keyword(&text("targets")), None);
    assert_eq!(Slot::from_keyword(&text("GLSL_160")), None);
    assert_eq!(Slot::from_keyword(&text("GLSL_120 ")), None);
}

#[test]
fn expansion_nests_the_leftmost_directive_outermost() {
    let expansion =
        expand_shaders(vec![directive("GLSL_120", "a", 0), directive("TARGETS", "t", 1)]).unwrap();
    assert_eq!(
        expansion,
        Expansion::Update {
            slot: Slot::Glsl120,
            value: "a",
            rest: Box::new(Expansion::Update {
                slot: Slot::Targets,
                value: "t",
                rest: Box::new(Expansion::Empty),
            }),
        }
    );
    assert_eq!(expansion.eval(), ShaderSource { glsl_120: Some("a"), targets: Some("t"), ..absent() });
    assert_eq!(expand_shaders(Vec::<Directive<u8>>::new()), Ok(Expansion::Empty));
}

#[test]
fn evaluation_lets_the_outer_update_override() {
    let expansion = Expansion::Update {
        slot: Slot::Glsl150,
        value: 1u8,
        rest: Box::new(Expansion::Update {
            slot: Slot::Glsl150,
            value: 2u8,
            rest: Box::new(Expansion::Update {
                slot: Slot::Glsl140,
                value: 3u8,
                rest: Box::new(Expansion::Empty),
            }),
        }),
    };
    let source = expansion.eval();
    assert_eq!(source.glsl_150, Some(1));
    assert_eq!(source.glsl_140, Some(3));
    assert_eq!(source.glsl_120, None);
}

#[test]
fn update_sets_one_slot() {
    let source = ShaderSource::new().update(Slot::Glsl140, 4u8).update(Slot::Targets, 5u8);
    assert_eq!(
        source,
        ShaderSource { glsl_120: None, glsl_130: None, glsl_140: Some(4), glsl_150: None, targets: Some(5) }
    );
    assert_eq!(source.update(Slot::Glsl140, 6u8).glsl_140, Some(6));
}

#[test]
fn every_literal_brings_its_own_alias_module() {
    let span = Span { lo: 1, hi: 2 };
    let expansion =
        expand_shaders(vec![directive("GLSL_120", "a", 0), directive("GLSL_120", "b", 1)]).unwrap();
    let modules = expansion.alias_modules(span);
    assert_eq!(modules.len(), 3);
    for module in modules.iter() {
        assert_eq!(*module, hack_module(span, Ident::new("__gfx_extern_crate_hack")));
    }
    assert_eq!(Expansion::<u8>::Empty.alias_modules(span).len(), 1);
}
