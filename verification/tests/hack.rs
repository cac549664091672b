use gfx_macros::ast::{
    Ident, Item, ItemKind, Mod, Node, NodeKind, Path, PathSegment, Span, ViewItem, ViewItemKind,
    Visibility,
};
use gfx_macros::base::{ExpandError, ExtCtxt};
use gfx_macros::hack::{
    extern_crate_hack, fixup_extern_crate_paths, hack_module, ExternCrateHackFolder,
    EXTERN_CRATE_HACK,
};

fn sp() -> Span {
    Span { lo: 3, hi: 9 }
}

fn seg(name: &str) -> PathSegment {
    PathSegment { identifier: Ident::new(name), types: vec![] }
}

fn path(global: bool, names: &[&str]) -> Path {
    Path { span: sp(), global, segments: names.iter().map(|n| seg(n)).collect() }
}

fn root() -> Ident {
    Ident { name: EXTERN_CRATE_HACK.to_string(), gensym: Some(41) }
}

fn rooted(names: &[&str], at: usize) -> Path {
    let mut p = path(false, names);
    p.segments[at].identifier = root();
    p
}

fn folder() -> ExternCrateHackFolder {
    ExternCrateHackFolder { path_root: root() }
}

fn alias_module(name: Ident, span: Span) -> Item {
    Item {
        ident: name,
        node: ItemKind::Mod(Mod {
            inner: span,
            view_items: vec![
                ViewItem {
                    node: ViewItemKind::ExternCrate(Ident::new("gfx_"), Some("gfx".to_string())),
                    vis: Visibility::Inherited,
                    span,
                },
                ViewItem {
                    node: ViewItemKind::Use(
                        Ident::new("gfx"),
                        Path { span, global: false, segments: vec![seg("self"), seg("gfx_")] },
                    ),
                    vis: Visibility::Public,
                    span,
                },
            ],
            items: vec![],
        }),
        vis: Visibility::Inherited,
        span,
    }
}

#[test]
fn marker_is_the_reserved_module_name() {
    assert_eq!(EXTERN_CRATE_HACK, "__gfx_extern_crate_hack");
}

#[test]
fn plain_identifier_has_no_serial_number() {
    assert_eq!(Ident::new("gfx"), Ident { name: "gfx".to_string(), gensym: None });
    assert!(Ident::new("gfx").is_str("gfx"));
    assert!(!Ident::new("gfx").is_str("gfx_"));
    assert!(root().is_str(EXTERN_CRATE_HACK));
    assert_eq!(root().clone(), root());
}

#[test]
fn path_from_idents_is_local_and_without_type_arguments() {
    let p = Path::from_idents(sp(), vec![Ident::new("self"), Ident::new("gfx_")]);
    assert_eq!(p, path(false, &["self", "gfx_"]));
    assert_eq!(Path::from_idents(sp(), vec![]), Path { span: sp(), global: false, segments: vec![] });
}

#[test]
fn hack_module_reexports_gfx() {
    assert_eq!(hack_module(sp(), Ident::new("m")), alias_module(Ident::new("m"), sp()));
}

#[test]
fn injector_emits_the_alias_module_and_returns_its_name() {
    let mut cx = ExtCtxt::new();
    let mut items = Vec::new();
    let ident = extern_crate_hack(&mut cx, sp(), &mut items).unwrap();
    assert_eq!(ident, Ident { name: "__gfx_extern_crate_hack".to_string(), gensym: Some(0) });
    assert_eq!(items, vec![alias_module(ident.clone(), sp())]);
    assert_eq!(cx.symbols(), 1);
    assert!(cx.warnings().is_empty());
}

#[test]
fn injector_appends_after_the_items_already_emitted() {
    let mut cx = ExtCtxt::new();
    let mut items = vec![Item {
        ident: Ident::new("Impl"),
        node: ItemKind::Impl(vec![]),
        vis: Visibility::Public,
        span: sp(),
    }];
    let ident = extern_crate_hack(&mut cx, sp(), &mut items).unwrap();
    assert_eq!(items.len(), 2);
    assert_eq!(items[0].ident, Ident::new("Impl"));
    assert_eq!(items[1], alias_module(ident, sp()));
}

#[test]
fn injector_yields_pairwise_distinct_identifiers() {
    let mut cx = ExtCtxt::new();
    let mut items = Vec::new();
    let mut idents = Vec::new();
    for _ in 0..50 {
        idents.push(extern_crate_hack(&mut cx, sp(), &mut items).unwrap());
    }
    assert_eq!(items.len(), 50);
    for i in 0..idents.len() {
        assert_ne!(idents[i], Ident::new(EXTERN_CRATE_HACK));
        assert_eq!(items[i].ident, idents[i]);
        for j in 0..i {
            assert_ne!(idents[i], idents[j]);
        }
    }
}

#[test]
fn injector_fails_once_the_symbols_are_exhausted() {
    let mut cx = ExtCtxt::starting_at(u64::MAX - 1);
    let mut items = Vec::new();
    let last = extern_crate_hack(&mut cx, sp(), &mut items).unwrap();
    assert_eq!(last.gensym, Some(u64::MAX - 1));
    assert_eq!(cx.symbols(), u64::MAX);
    let error = extern_crate_hack(&mut cx, sp(), &mut items).unwrap_err();
    assert_eq!(error, ExpandError::SymbolsExhausted { span: sp() });
    assert_eq!(error.span(), sp());
    assert_eq!(error.message(), "no fresh symbol is left for the alias module");
    assert_eq!(items.len(), 1);
    assert_eq!(cx.symbols(), u64::MAX);
}

#[test]
fn gensym_ident_counts_up() {
    let mut cx = ExtCtxt::new();
    assert_eq!(cx.gensym_ident("a"), Some(Ident { name: "a".to_string(), gensym: Some(0) }));
    assert_eq!(cx.gensym_ident("a"), Some(Ident { name: "a".to_string(), gensym: Some(1) }));
    assert_eq!(cx.gensym_ident("b"), Some(Ident { name: "b".to_string(), gensym: Some(2) }));
    let mut full = ExtCtxt::starting_at(u64::MAX);
    assert_eq!(full.gensym_ident("a"), None);
    assert_eq!(full.symbols(), u64::MAX);
}

#[test]
fn rewrite_redirects_marker_and_self_marker_paths() {
    let fragment = Node::Tree(
        NodeKind::Block,
        vec![
            Node::Path(path(false, &["__gfx_extern_crate_hack", "Thing"])),
            Node::Path(path(false, &["self", "__gfx_extern_crate_hack", "Other"])),
        ],
    );
    let expected = Node::Tree(
        NodeKind::Block,
        vec![
            Node::Path(Path {
                span: sp(),
                global: false,
                segments: vec![
                    PathSegment { identifier: root(), types: vec![] },
                    seg("Thing"),
                ],
            }),
            Node::Path(Path {
                span: sp(),
                global: false,
                segments: vec![
                    seg("self"),
                    PathSegment { identifier: root(), types: vec![] },
                    seg("Other"),
                ],
            }),
        ],
    );
    assert_eq!(folder().fold_node(fragment), expected);
}

#[test]
fn rewrite_makes_a_global_path_local() {
    let p = path(true, &["__gfx_extern_crate_hack", "gfx", "Device"]);
    let q = folder().fold_path(p);
    assert!(!q.global);
    assert_eq!(q, rooted(&["__gfx_extern_crate_hack", "gfx", "Device"], 0));
    let p = path(true, &["self", "__gfx_extern_crate_hack", "gfx"]);
    assert_eq!(folder().fold_path(p), rooted(&["self", "__gfx_extern_crate_hack", "gfx"], 1));
}

#[test]
fn rewrite_leaves_unrelated_paths_unchanged() {
    for global in [false, true] {
        for names in [
            &[][..],
            &["self"][..],
            &["gfx"][..],
            &["self", "gfx", "__gfx_extern_crate_hack"][..],
            &["gfx", "__gfx_extern_crate_hack"][..],
            &["super", "__gfx_extern_crate_hack"][..],
            &["__gfx_extern_crate_hack_"][..],
            &["std", "vec", "Vec"][..],
        ] {
            assert_eq!(folder().fold_path(path(global, names)), path(global, names));
        }
    }
}

fn unrelated_fragment() -> Node {
    Node::Tree(
        NodeKind::Impl,
        vec![
            Node::Token("impl".to_string()),
            Node::Path(path(true, &["std", "fmt", "Show"])),
            Node::Tree(
                NodeKind::Method,
                vec![
                    Node::Token("fmt".to_string()),
                    Node::Tree(NodeKind::Block, vec![]),
                    Node::Path(Path {
                        span: sp(),
                        global: false,
                        segments: vec![PathSegment {
                            identifier: Ident::new("Option"),
                            types: vec![Node::Path(path(false, &["self", "Inner"]))],
                        }],
                    }),
                ],
            ),
            Node::Token("__gfx_extern_crate_hack".to_string()),
        ],
    )
}

#[test]
fn rewrite_leaves_an_unrelated_fragment_unchanged() {
    assert_eq!(folder().fold_node(unrelated_fragment()), unrelated_fragment());
    let item = || Item {
        ident: Ident::new("__gfx_extern_crate_hack"),
        node: ItemKind::Impl(vec![unrelated_fragment(), unrelated_fragment()]),
        vis: Visibility::Public,
        span: sp(),
    };
    assert_eq!(fixup_extern_crate_paths(item(), root()), item());
}

#[test]
fn rewrite_prefers_the_first_segment() {
    let p = path(false, &["__gfx_extern_crate_hack", "__gfx_extern_crate_hack"]);
    assert_eq!(
        folder().fold_path(p),
        rooted(&["__gfx_extern_crate_hack", "__gfx_extern_crate_hack"], 0)
    );
}

#[test]
fn rewrite_reaches_type_arguments() {
    let inner = |names: &[&str]| Node::Tree(NodeKind::Ty, vec![Node::Path(path(true, names))]);
    let p = Path {
        span: sp(),
        global: false,
        segments: vec![
            seg("std"),
            PathSegment {
                identifier: Ident::new("Vec"),
                types: vec![inner(&["__gfx_extern_crate_hack", "gfx", "Mesh"]), inner(&["u8"])],
            },
        ],
    };
    let expected = Path {
        span: sp(),
        global: false,
        segments: vec![
            seg("std"),
            PathSegment {
                identifier: Ident::new("Vec"),
                types: vec![
                    Node::Tree(
                        NodeKind::Ty,
                        vec![Node::Path(rooted(&["__gfx_extern_crate_hack", "gfx", "Mesh"], 0))],
                    ),
                    inner(&["u8"]),
                ],
            },
        ],
    };
    assert_eq!(folder().fold_path(p), expected);
}

#[test]
fn rewrite_keeps_the_type_arguments_of_the_replaced_segment() {
    let arg = || Node::Path(path(false, &["self", "__gfx_extern_crate_hack", "T"]));
    let p = Path {
        span: sp(),
        global: true,
        segments: vec![
            PathSegment { identifier: Ident::new("__gfx_extern_crate_hack"), types: vec![arg()] },
            seg("gfx"),
        ],
    };
    let expected = Path {
        span: sp(),
        global: false,
        segments: vec![
            PathSegment {
                identifier: root(),
                types: vec![Node::Path(rooted(&["self", "__gfx_extern_crate_hack", "T"], 1))],
            },
            seg("gfx"),
        ],
    };
    assert_eq!(folder().fold_path(p), expected);
}

#[test]
fn rewrite_matches_generated_symbols_by_their_text() {
    let mut p = path(false, &["x", "gfx"]);
    p.segments[0].identifier =
        Ident { name: "__gfx_extern_crate_hack".to_string(), gensym: Some(7) };
    assert_eq!(folder().fold_path(p), rooted(&["__gfx_extern_crate_hack", "gfx"], 0));
}

#[test]
fn fixup_rewrites_imports_and_nested_items() {
    let impl_item = |p: Path| Item {
        ident: Ident::new("Params"),
        node: ItemKind::Impl(vec![Node::Tree(NodeKind::Expr, vec![Node::Path(p)])]),
        vis: Visibility::Inherited,
        span: sp(),
    };
    let module = |use_path: Path, p: Path| Item {
        ident: Ident::new("outer"),
        node: ItemKind::Mod(Mod {
            inner: sp(),
            view_items: vec![
                ViewItem {
                    node: ViewItemKind::ExternCrate(
                        Ident::new("__gfx_extern_crate_hack"),
                        Some("__gfx_extern_crate_hack".to_string()),
                    ),
                    vis: Visibility::Inherited,
                    span: sp(),
                },
                ViewItem {
                    node: ViewItemKind::Use(Ident::new("__gfx_extern_crate_hack"), use_path),
                    vis: Visibility::Public,
                    span: sp(),
                },
            ],
            items: vec![impl_item(p)],
        }),
        vis: Visibility::Public,
        span: sp(),
    };
    let before = module(
        path(false, &["__gfx_extern_crate_hack", "gfx"]),
        path(true, &["self", "__gfx_extern_crate_hack", "gfx", "shade"]),
    );
    let after = module(
        rooted(&["__gfx_extern_crate_hack", "gfx"], 0),
        rooted(&["self", "__gfx_extern_crate_hack", "gfx", "shade"], 1),
    );
    assert_eq!(fixup_extern_crate_paths(before, root()), after);
}

#[test]
fn generated_code_is_redirected_to_the_injected_module() {
    let mut cx = ExtCtxt::new();
    let mut items = Vec::new();
    let root = extern_crate_hack(&mut cx, sp(), &mut items).unwrap();
    let generated = Item {
        ident: Ident::new("Params"),
        node: ItemKind::Impl(vec![Node::Path(path(
            false,
            &["__gfx_extern_crate_hack", "gfx", "shade", "ShaderParam"],
        ))]),
        vis: Visibility::Inherited,
        span: sp(),
    };
    let fixed = fixup_extern_crate_paths(generated, root.clone());
    match fixed.node {
        ItemKind::Impl(nodes) => match &nodes[0] {
            Node::Path(p) => {
                assert_eq!(p.segments[0].identifier, root);
                assert_eq!(p.segments[0].identifier, items[0].ident);
                assert_eq!(p.segments[1].identifier, Ident::new("gfx"));
                assert!(!p.global);
            }
            other => panic!("not a path: {:?}", other),
        },
        other => panic!("not an implementation block: {:?}", other),
    }
}

#[test]
fn view_item_builder_and_module_builder() {
    let item = ViewItem::use_simple(sp(), Visibility::Public, Ident::new("gfx"), path(false, &["a"]));
    assert_eq!(
        item,
        ViewItem {
            node: ViewItemKind::Use(Ident::new("gfx"), path(false, &["a"])),
            vis: Visibility::Public,
            span: sp(),
        }
    );
    let module = Item::module(sp(), Span::dummy(), Ident::new("m"), vec![], vec![]);
    assert_eq!(
        module,
        Item {
            ident: Ident::new("m"),
            node: ItemKind::Mod(Mod { inner: Span { lo: 0, hi: 0 }, view_items: vec![], items: vec![] }),
            vis: Visibility::Inherited,
            span: sp(),
        }
    );
}
