//! Hygienic access to the `gfx` crate from generated code.
//!
//! Generated code names `gfx` through the fixed module name
//! [`EXTERN_CRATE_HACK`], as if a module of that name re-exported the crate
//! in the scope the code lands in. [`extern_crate_hack`] emits such a module
//! under a freshly generated symbol, and [`fixup_extern_crate_paths`]
//! redirects the generated references to it.

use vstd::prelude::*;
use crate::ast::{
    Ident, IdentView, Item, ItemKind, ItemKindView, ItemView, Mod, ModView, Node, NodeView, Path,
    PathSegment, PathSegmentView, PathView, Span, ViewItem, ViewItemKind, ViewItemKindView,
    ViewItemView, Visibility, item_view, items_view, node_view, nodes_view, path_view,
    plain_ident, segment_view, segments_view, simple_path, view_item_view, view_items_view,
};
use crate::base::{ExpandError, ExtCtxt, ExtCtxtView, gensym};

verus! {

/// Marker string that the symbol generated by [`extern_crate_hack`] is
/// seeded from, and the module name that generated code refers to.
pub const EXTERN_CRATE_HACK: &'static str = "__gfx_extern_crate_hack";

/// The text of [`EXTERN_CRATE_HACK`].
pub open spec fn marker() -> Seq<char> {
    "__gfx_extern_crate_hack"@
}

/// The module that re-exports the `gfx` crate under the name `gfx`:
///
/// ```text
/// mod <name> {
///     extern crate "gfx" as gfx_;
///     pub use self::gfx_ as gfx;
/// }
/// ```
pub open spec fn alias_module(name: IdentView, span: Span) -> ItemView {
    ItemView {
        ident: name,
        node: ItemKindView::Mod(
            ModView {
                inner: span,
                view_items: seq![
                    ViewItemView {
                        node: ViewItemKindView::ExternCrate(plain_ident("gfx_"@), Some("gfx"@)),
                        vis: Visibility::Inherited,
                        span,
                    },
                    ViewItemView {
                        node: ViewItemKindView::Use(
                            plain_ident("gfx"@),
                            simple_path(span, seq![plain_ident("self"@), plain_ident("gfx_"@)]),
                        ),
                        vis: Visibility::Public,
                        span,
                    },
                ],
                items: Seq::empty(),
            },
        ),
        vis: Visibility::Inherited,
        span,
    }
}

/// Builds the module that re-exports the `gfx` crate, under the name `name`.
pub fn hack_module(span: Span, name: Ident) -> (res: Item)
    ensures
        res@ == alias_module(name@, span),
{
    let mut segments: Vec<Ident> = Vec::new();
    segments.push(Ident::new("self"));
    segments.push(Ident::new("gfx_"));
    let path = Path::from_idents(span, segments);
    assert(path@.segments =~= simple_path(
        span,
        seq![plain_ident("self"@), plain_ident("gfx_"@)],
    ).segments);
    let mut view_items: Vec<ViewItem> = Vec::new();
    view_items.push(
        ViewItem {
            node: ViewItemKind::ExternCrate(Ident::new("gfx_"), Some(String::from_str("gfx"))),
            vis: Visibility::Inherited,
            span,
        },
    );
    view_items.push(ViewItem::use_simple(span, Visibility::Public, Ident::new("gfx"), path));
    let items: Vec<Item> = Vec::new();
    let res = Item::module(span, span, name, view_items, items);
    assert(res@.node->Mod_0.view_items =~= alias_module(name@, span).node->Mod_0.view_items);
    assert(res@.node->Mod_0.items =~= Seq::empty());
    res
}

/// What one successful call of [`extern_crate_hack`] does to the state of the
/// compilation unit: it takes it from `pre` to `post` and returns `ident`,
/// the symbol seeded from the marker under the next serial number.
pub open spec fn injects(pre: ExtCtxtView, post: ExtCtxtView, ident: IdentView) -> bool {
    &&& pre.symbols < u64::MAX
    &&& ident == gensym(marker(), pre.symbols)
    &&& post == (ExtCtxtView { symbols: (pre.symbols + 1) as u64, ..pre })
}

/// Inserts a module with a unique identifier that re-exports the `gfx`
/// crate, and returns that identifier.
///
/// The module is appended to `push`. The identifier is a fresh symbol
/// seeded from [`EXTERN_CRATE_HACK`]; to refer to the crate, generated code
/// roots a path at it: `<identifier>::gfx::...`. Fails, and emits nothing,
/// only once the symbol generator is exhausted.
pub fn extern_crate_hack(context: &mut ExtCtxt, span: Span, push: &mut Vec<Item>) -> (res: Result<
    Ident,
    ExpandError,
>)
    ensures
        old(context)@.symbols < u64::MAX ==> {
            &&& res is Ok
            &&& injects(old(context)@, final(context)@, res->Ok_0@)
            &&& items_view(*final(push)) == items_view(*old(push)).push(
                alias_module(res->Ok_0@, span),
            )
        },
        old(context)@.symbols == u64::MAX ==> {
            &&& res == Err::<Ident, ExpandError>(ExpandError::SymbolsExhausted { span })
            &&& final(context)@ == old(context)@
            &&& *final(push) == *old(push)
        },
{
    match context.gensym_ident(EXTERN_CRATE_HACK) {
        None => Err(ExpandError::SymbolsExhausted { span }),
        Some(extern_crate_hack) => {
            let item = hack_module(span, extern_crate_hack.clone());
            push.push(item);
            Ok(extern_crate_hack)
        },
    }
}

/// Whether `p` is rooted at the marker name: `__gfx_extern_crate_hack::...`.
pub open spec fn needs_fix(p: PathView) -> bool {
    p.segments.len() > 0 && p.segments[0].identifier.name == marker()
}

/// Whether `p` is rooted at the marker name relative to the module it
/// stands in: `self::__gfx_extern_crate_hack::...`.
pub open spec fn needs_fix_self(p: PathView) -> bool {
    p.segments.len() > 1 && p.segments[0].identifier.name == "self"@
        && p.segments[1].identifier.name == marker()
}

/// `p` with the identifier of segment `at` replaced by `root`, resolved from
/// the scope it stands in.
pub open spec fn reroot(p: PathView, at: int, root: IdentView) -> PathView {
    PathView {
        global: false,
        segments: p.segments.update(
            at,
            PathSegmentView { identifier: root, types: p.segments[at].types },
        ),
        ..p
    }
}

/// What becomes of a path whose type arguments have been rewritten: a path
/// rooted at the marker name is rooted at `root` instead, any other is left
/// as it is.
pub open spec fn redirect(p: PathView, root: IdentView) -> PathView {
    if needs_fix(p) {
        reroot(p, 0, root)
    } else if needs_fix_self(p) {
        reroot(p, 1, root)
    } else {
        p
    }
}

/// `n` with every path in it redirected to `root`.
pub open spec fn rewrite_node(n: NodeView, root: IdentView) -> NodeView
    decreases n,
{
    match n {
        NodeView::Path(p) => NodeView::Path(rewrite_path(p, root)),
        NodeView::Token(t) => n,
        NodeView::Tree(kind, children) => NodeView::Tree(kind, rewrite_nodes(children, root)),
    }
}

/// Each of `s` with every path in it redirected to `root`.
pub open spec fn rewrite_nodes(s: Seq<NodeView>, root: IdentView) -> Seq<NodeView>
    decreases s,
{
    Seq::new(
        s.len(),
        |i: int|
            if 0 <= i < s.len() {
                rewrite_node(s[i], root)
            } else {
                arbitrary()
            },
    )
}

/// `s` with every path in its type arguments redirected to `root`.
pub open spec fn rewrite_segment(s: PathSegmentView, root: IdentView) -> PathSegmentView
    decreases s,
{
    PathSegmentView { identifier: s.identifier, types: rewrite_nodes(s.types, root) }
}

/// Each of `s` with every path in its type arguments redirected to `root`.
pub open spec fn rewrite_segments(s: Seq<PathSegmentView>, root: IdentView) -> Seq<
    PathSegmentView,
>
    decreases s,
{
    Seq::new(
        s.len(),
        |i: int|
            if 0 <= i < s.len() {
                rewrite_segment(s[i], root)
            } else {
                arbitrary()
            },
    )
}

/// `p` redirected to `root`, after the paths in its type arguments.
pub open spec fn rewrite_path(p: PathView, root: IdentView) -> PathView
    decreases p,
{
    redirect(PathView { segments: rewrite_segments(p.segments, root), ..p }, root)
}

/// `v` with the path it names redirected to `root`, if it names one.
pub open spec fn rewrite_view_item(v: ViewItemView, root: IdentView) -> ViewItemView {
    match v.node {
        ViewItemKindView::ExternCrate(_, _) => v,
        ViewItemKindView::Use(ident, path) => ViewItemView {
            node: ViewItemKindView::Use(ident, rewrite_path(path, root)),
            ..v
        },
    }
}

/// Each of `s` with the path it names redirected to `root`.
pub open spec fn rewrite_view_items(s: Seq<ViewItemView>, root: IdentView) -> Seq<ViewItemView> {
    Seq::new(s.len(), |i: int| rewrite_view_item(s[i], root))
}

/// `item` with every path in it redirected to `root`: those of its
/// fragments, of its imports and of the items nested in it.
pub open spec fn rewrite_item(item: ItemView, root: IdentView) -> ItemView
    decreases item,
{
    ItemView {
        node: match item.node {
            ItemKindView::Mod(m) => ItemKindView::Mod(
                ModView {
                    inner: m.inner,
                    view_items: rewrite_view_items(m.view_items, root),
                    items: rewrite_items(m.items, root),
                },
            ),
            ItemKindView::Impl(nodes) => ItemKindView::Impl(rewrite_nodes(nodes, root)),
        },
        ..item
    }
}

/// Each of `s` with every path in it redirected to `root`.
pub open spec fn rewrite_items(s: Seq<ItemView>, root: IdentView) -> Seq<ItemView>
    decreases s,
{
    Seq::new(
        s.len(),
        |i: int|
            if 0 <= i < s.len() {
                rewrite_item(s[i], root)
            } else {
                arbitrary()
            },
    )
}

/// This folder fixes up all paths generated by a deriving trait impl to
/// point to the unique module containing the `gfx` re-export.
#[derive(Debug, PartialEq, Eq)]
pub struct ExternCrateHackFolder {
    pub path_root: Ident,
}

impl ExternCrateHackFolder {
    /// Redirects one path: first the paths in its type arguments, then the
    /// path itself. A path that begins with the marker name has that
    /// segment replaced by the root; failing that, a path that begins with
    /// `self` and the marker name has the second segment replaced. Either
    /// becomes a path resolved from the scope it stands in. Any other path,
    /// an empty one too, keeps its segment names and its root.
    pub fn fold_path(&self, p: Path) -> (res: Path)
        ensures
            res@ == rewrite_path(p@, self.path_root@),
        decreases p,
    {
        let ghost folded = PathView {
            segments: rewrite_segments(p@.segments, self.path_root@),
            ..p@
        };
        let mut q = Path {
            span: p.span,
            global: p.global,
            segments: self.fold_segments(p.segments),
        };
        let needs_fix = q.segments.len() > 0 && q.segments[0].identifier.is_str(
            EXTERN_CRATE_HACK,
        );
        let needs_fix_self = q.segments.len() > 1 && q.segments[0].identifier.is_str("self")
            && q.segments[1].identifier.is_str(EXTERN_CRATE_HACK);
        if needs_fix {
            q.segments[0].identifier = self.path_root.clone();
            q.global = false;
            assert(q@.segments =~= reroot(folded, 0, self.path_root@).segments);
            q
        } else if needs_fix_self {
            q.segments[1].identifier = self.path_root.clone();
            q.global = false;
            assert(q@.segments =~= reroot(folded, 1, self.path_root@).segments);
            q
        } else {
            q
        }
    }

    fn fold_segments(&self, v: Vec<PathSegment>) -> (res: Vec<PathSegment>)
        ensures
            segments_view(res) == rewrite_segments(segments_view(v), self.path_root@),
        decreases v,
    {
        let mut out: Vec<PathSegment> = Vec::new();
        let ghost src = v@;
        for s in it: v
            invariant
                src == it.seq(),
                out@.len() == it.index(),
                forall|i: int|
                    0 <= i < it.index() ==> segment_view(#[trigger] out@[i]) == rewrite_segment(
                        segment_view(src[i]),
                        self.path_root@,
                    ),
        {
            let types = self.fold_nodes(s.types);
            out.push(PathSegment { identifier: s.identifier, types });
        }
        out
    }

    /// Redirects the paths in a fragment. Whatever is not a path keeps its
    /// shape: only the paths below it change.
    pub fn fold_node(&self, n: Node) -> (res: Node)
        ensures
            res@ == rewrite_node(n@, self.path_root@),
        decreases n,
    {
        match n {
            Node::Path(p) => Node::Path(self.fold_path(p)),
            Node::Token(t) => Node::Token(t),
            Node::Tree(kind, children) => Node::Tree(kind, self.fold_nodes(children)),
        }
    }

    /// Redirects the paths in each of `v`, in order.
    pub fn fold_nodes(&self, v: Vec<Node>) -> (res: Vec<Node>)
        ensures
            nodes_view(res) == rewrite_nodes(nodes_view(v), self.path_root@),
        decreases v,
    {
        let mut out: Vec<Node> = Vec::new();
        let ghost src = v@;
        for n in it: v
            invariant
                src == it.seq(),
                out@.len() == it.index(),
                forall|i: int|
                    0 <= i < it.index() ==> node_view(#[trigger] out@[i]) == rewrite_node(
                        node_view(src[i]),
                        self.path_root@,
                    ),
        {
            let m = self.fold_node(n);
            out.push(m);
        }
        out
    }

    /// Redirects the path that an import names.
    pub fn fold_view_item(&self, v: ViewItem) -> (res: ViewItem)
        ensures
            res@ == rewrite_view_item(v@, self.path_root@),
    {
        match v.node {
            ViewItemKind::ExternCrate(ident, source) => ViewItem {
                node: ViewItemKind::ExternCrate(ident, source),
                vis: v.vis,
                span: v.span,
            },
            ViewItemKind::Use(ident, path) => ViewItem {
                node: ViewItemKind::Use(ident, self.fold_path(path)),
                vis: v.vis,
                span: v.span,
            },
        }
    }

    fn fold_view_items(&self, v: Vec<ViewItem>) -> (res: Vec<ViewItem>)
        ensures
            view_items_view(res) == rewrite_view_items(view_items_view(v), self.path_root@),
    {
        let mut out: Vec<ViewItem> = Vec::new();
        let ghost src = v@;
        for w in it: v
            invariant
                src == it.seq(),
                out@.len() == it.index(),
                forall|i: int|
                    0 <= i < it.index() ==> view_item_view(#[trigger] out@[i])
                        == rewrite_view_item(view_item_view(src[i]), self.path_root@),
        {
            let m = self.fold_view_item(w);
            out.push(m);
        }
        out
    }

    /// Redirects the paths in an item: in the fragments of an
    /// implementation block; in the imports of a module and in the items
    /// nested in it.
    pub fn fold_item(&self, item: Item) -> (res: Item)
        ensures
            res@ == rewrite_item(item@, self.path_root@),
        decreases item,
    {
        let node = match item.node {
            ItemKind::Mod(m) => ItemKind::Mod(
                Mod {
                    inner: m.inner,
                    view_items: self.fold_view_items(m.view_items),
                    items: self.fold_items(m.items),
                },
            ),
            ItemKind::Impl(nodes) => ItemKind::Impl(self.fold_nodes(nodes)),
        };
        Item { ident: item.ident, node, vis: item.vis, span: item.span }
    }

    fn fold_items(&self, v: Vec<Item>) -> (res: Vec<Item>)
        ensures
            items_view(res) == rewrite_items(items_view(v), self.path_root@),
        decreases v,
    {
        let mut out: Vec<Item> = Vec::new();
        let ghost src = v@;
        for item in it: v
            invariant
                src == it.seq(),
                out@.len() == it.index(),
                forall|i: int|
                    0 <= i < it.index() ==> item_view(#[trigger] out@[i]) == rewrite_item(
                        item_view(src[i]),
                        self.path_root@,
                    ),
        {
            let m = self.fold_item(item);
            out.push(m);
        }
        out
    }
}

/// Redirects every reference to the `gfx` crate in `item` to the module
/// that [`extern_crate_hack`] emitted under `path_root`.
pub fn fixup_extern_crate_paths(item: Item, path_root: Ident) -> (res: Item)
    ensures
        res@ == rewrite_item(item@, path_root@),
{
    ExternCrateHackFolder { path_root }.fold_item(item)
}

/// Whether `item` is a module through which the crate `krate` can be named
/// as `<item>::<local>`: it binds the crate to a private name, re-exports
/// that name publicly as `local`, and holds nothing else.
pub open spec fn reexports(item: ItemView, krate: Seq<char>, local: Seq<char>) -> bool {
    &&& item.node matches ItemKindView::Mod(m)
    &&& m.items.len() == 0
    &&& m.view_items.len() == 2
    &&& m.view_items[0].vis == Visibility::Inherited
    &&& m.view_items[0].node matches ViewItemKindView::ExternCrate(binding, Some(source))
    &&& source == krate
    &&& m.view_items[1].vis == Visibility::Public
    &&& m.view_items[1].node matches ViewItemKindView::Use(name, path)
    &&& name == plain_ident(local)
    &&& path == simple_path(path.span, seq![plain_ident("self"@), binding])
}

/// The module that [`extern_crate_hack`] emits re-exports the `gfx` crate
/// under the name `gfx`, whatever identifier it is bound to.
pub proof fn lemma_alias_module_reexports(name: IdentView, span: Span)
    ensures
        reexports(alias_module(name, span), "gfx"@, "gfx"@),
        alias_module(name, span).ident == name,
{
}

proof fn lemma_symbols_advance(
    pre: Seq<ExtCtxtView>,
    post: Seq<ExtCtxtView>,
    idents: Seq<IdentView>,
    i: int,
    j: int,
)
    requires
        pre.len() == idents.len(),
        post.len() == idents.len(),
        forall|k: int| 0 <= k < idents.len() ==> injects(pre[k], post[k], #[trigger] idents[k]),
        forall|k: int|
            0 <= k < idents.len() - 1 ==> (#[trigger] post[k]).symbols <= pre[k + 1].symbols,
        0 <= i < j < idents.len(),
    ensures
        pre[i].symbols < pre[j].symbols,
    decreases j - i,
{
    assert(injects(pre[j - 1], post[j - 1], idents[j - 1]));
    if i < j - 1 {
        lemma_symbols_advance(pre, post, idents, i, j - 1);
    }
}

/// Alias uniqueness. However many times [`extern_crate_hack`] succeeds
/// within one compilation unit, the identifiers it returns differ from one
/// another, and from every identifier written in source text.
///
/// Call `k` takes the state from `pre[k]` to `post[k]` and returns
/// `idents[k]`. Between two calls the state may change in any way that does
/// not take the symbol generator back; no operation of this crate does.
pub proof fn lemma_alias_uniqueness(
    pre: Seq<ExtCtxtView>,
    post: Seq<ExtCtxtView>,
    idents: Seq<IdentView>,
)
    requires
        pre.len() == idents.len(),
        post.len() == idents.len(),
        forall|k: int| 0 <= k < idents.len() ==> injects(pre[k], post[k], #[trigger] idents[k]),
        forall|k: int|
            0 <= k < idents.len() - 1 ==> (#[trigger] post[k]).symbols <= pre[k + 1].symbols,
    ensures
        forall|i: int, j: int| 0 <= i < j < idents.len() ==> idents[i] != idents[j],
        forall|i: int, name: Seq<char>|
            0 <= i < idents.len() ==> #[trigger] idents[i] != #[trigger] plain_ident(name),
{
    assert forall|i: int, j: int| 0 <= i < j < idents.len() implies idents[i] != idents[j] by {
        lemma_symbols_advance(pre, post, idents, i, j);
    }
}

/// Whether one of the two rewrite rules applies to `p` itself.
pub open spec fn rooted_at_marker(p: PathView) -> bool {
    needs_fix(p) || needs_fix_self(p)
}

/// Whether no path in `n` is rooted at the marker name, directly or
/// relative to `self`.
pub open spec fn node_unrelated(n: NodeView) -> bool
    decreases n,
{
    match n {
        NodeView::Path(p) => path_unrelated(p),
        NodeView::Token(_) => true,
        NodeView::Tree(_, children) => nodes_unrelated(children),
    }
}

/// Whether [`node_unrelated`] holds of each of `s`.
pub open spec fn nodes_unrelated(s: Seq<NodeView>) -> bool
    decreases s,
{
    forall|i: int| 0 <= i < s.len() ==> node_unrelated(#[trigger] s[i])
}

/// Whether neither `p` nor a path in its type arguments is rooted at the
/// marker name, directly or relative to `self`.
pub open spec fn path_unrelated(p: PathView) -> bool
    decreases p,
{
    &&& !rooted_at_marker(p)
    &&& forall|i: int|
        0 <= i < p.segments.len() ==> nodes_unrelated((#[trigger] p.segments[i]).types)
}

/// Whether the path that `v` names, if it names one, is unrelated.
pub open spec fn view_item_unrelated(v: ViewItemView) -> bool {
    v.node matches ViewItemKindView::Use(_, path) ==> path_unrelated(path)
}

/// Whether no path in `item` is rooted at the marker name, directly or
/// relative to `self`.
pub open spec fn item_unrelated(item: ItemView) -> bool
    decreases item,
{
    match item.node {
        ItemKindView::Mod(m) => {
            &&& forall|i: int|
                0 <= i < m.view_items.len() ==> view_item_unrelated(#[trigger] m.view_items[i])
            &&& forall|i: int| 0 <= i < m.items.len() ==> item_unrelated(#[trigger] m.items[i])
        },
        ItemKindView::Impl(nodes) => nodes_unrelated(nodes),
    }
}

/// The rewrite leaves unrelated fragments alone: a fragment in which no
/// path is rooted at the marker name, directly or relative to `self`, comes
/// back unchanged, whatever the root.
pub proof fn lemma_unrelated_node_unchanged(n: NodeView, root: IdentView)
    requires
        node_unrelated(n),
    ensures
        rewrite_node(n, root) == n,
    decreases n,
{
    match n {
        NodeView::Path(p) => lemma_unrelated_path_unchanged(p, root),
        NodeView::Token(_) => {},
        NodeView::Tree(_, children) => lemma_unrelated_nodes_unchanged(children, root),
    }
}

/// The same of a list of fragments.
pub proof fn lemma_unrelated_nodes_unchanged(s: Seq<NodeView>, root: IdentView)
    requires
        nodes_unrelated(s),
    ensures
        rewrite_nodes(s, root) == s,
    decreases s,
{
    assert forall|i: int| 0 <= i < s.len() implies rewrite_node(s[i], root) == s[i] by {
        lemma_unrelated_node_unchanged(s[i], root);
    }
}

/// The same of a path.
pub proof fn lemma_unrelated_path_unchanged(p: PathView, root: IdentView)
    requires
        path_unrelated(p),
    ensures
        rewrite_path(p, root) == p,
    decreases p,
{
    assert forall|i: int| 0 <= i < p.segments.len() implies rewrite_segment(p.segments[i], root)
        == p.segments[i] by {
        lemma_unrelated_nodes_unchanged(p.segments[i].types, root);
    }
    assert(rewrite_segments(p.segments, root) =~= p.segments);
}

/// The same of an item, which is what [`fixup_extern_crate_paths`] takes.
pub proof fn lemma_unrelated_item_unchanged(item: ItemView, root: IdentView)
    requires
        item_unrelated(item),
    ensures
        rewrite_item(item, root) == item,
    decreases item,
{
    match item.node {
        ItemKindView::Mod(m) => {
            assert forall|i: int| 0 <= i < m.view_items.len() implies rewrite_view_item(
                m.view_items[i],
                root,
            ) == m.view_items[i] by {
                match m.view_items[i].node {
                    ViewItemKindView::ExternCrate(_, _) => {},
                    ViewItemKindView::Use(_, path) => lemma_unrelated_path_unchanged(path, root),
                }
            }
            assert(rewrite_view_items(m.view_items, root) =~= m.view_items);
            assert forall|i: int| 0 <= i < m.items.len() implies rewrite_item(m.items[i], root)
                == m.items[i] by {
                lemma_unrelated_item_unchanged(m.items[i], root);
            }
            assert(rewrite_items(m.items, root) =~= m.items);
        },
        ItemKindView::Impl(nodes) => lemma_unrelated_nodes_unchanged(nodes, root),
    }
}

/// No path is rooted at the marker name in both ways at once.
pub proof fn lemma_rules_exclusive(p: PathView)
    ensures
        !(needs_fix(p) && needs_fix_self(p)),
{
    reveal_strlit("self");
    reveal_strlit("__gfx_extern_crate_hack");
    assert("self"@.len() != marker().len());
}

/// Rewrite of a related path. A path rooted at the marker name comes back
/// rooted at `root`; one rooted at `self` and the marker name comes back
/// with `root` in second place. Both are then resolved from the scope they
/// stand in, and keep their length and the names of their other segments.
pub proof fn lemma_related_path_rerooted(p: PathView, root: IdentView)
    requires
        rooted_at_marker(p),
    ensures
        ({
            let r = rewrite_path(p, root);
            let at = if needs_fix(p) { 0int } else { 1int };
            &&& !r.global
            &&& r.span == p.span
            &&& r.segments.len() == p.segments.len()
            &&& r.segments[at].identifier == root
            &&& forall|i: int|
                0 <= i < p.segments.len() && i != at ==> (#[trigger] r.segments[i]).identifier
                    == p.segments[i].identifier
            &&& forall|i: int|
                0 <= i < p.segments.len() ==> (#[trigger] r.segments[i]).types == rewrite_nodes(
                    p.segments[i].types,
                    root,
                )
        }),
{
}

} // verus!
