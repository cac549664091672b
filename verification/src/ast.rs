//! The syntax tree that generated code is built from.
//!
//! Every tree type comes with a mathematical view (`Seq` in place of `Vec`
//! and `String`); the contracts of the crate are stated over those views.

use vstd::prelude::*;

verus! {

/// A region of source text, as a half-open range of byte offsets.
#[derive(Clone, Copy, Debug, PartialEq, Eq, Structural)]
pub struct Span {
    pub lo: u32,
    pub hi: u32,
}

impl Span {
    /// The span of code that has no place in any source file.
    pub fn dummy() -> (sp: Span)
        ensures
            sp == (Span { lo: 0, hi: 0 }),
    {
        Span { lo: 0, hi: 0 }
    }
}

/// An identifier: its text and, for a generated symbol, the serial number
/// that sets it apart from every other identifier, whatever its text.
#[derive(Debug, PartialEq, Eq)]
pub struct Ident {
    pub name: String,
    pub gensym: Option<u64>,
}

/// What an [`Ident`] is, as contracts read it.
pub struct IdentView {
    pub name: Seq<char>,
    pub gensym: Option<u64>,
}

impl View for Ident {
    type V = IdentView;

    open spec fn view(&self) -> IdentView {
        IdentView { name: self.name@, gensym: self.gensym }
    }
}

impl Clone for Ident {
    fn clone(&self) -> (res: Ident)
        ensures
            res@ == self@,
    {
        Ident { name: self.name.clone(), gensym: self.gensym }
    }
}

/// The view of the identifier that source text `name` stands for.
pub open spec fn plain_ident(name: Seq<char>) -> IdentView {
    IdentView { name, gensym: None }
}

impl Ident {
    /// The identifier that source text `name` stands for.
    pub fn new(name: &str) -> (res: Ident)
        ensures
            res@ == plain_ident(name@),
    {
        Ident { name: String::from_str(name), gensym: None }
    }

    /// Whether the identifier reads `text`. A generated symbol reads as the
    /// text it was seeded from.
    pub fn is_str(&self, text: &str) -> (res: bool)
        ensures
            res == (self@.name == text@),
    {
        let t = String::from_str(text);
        self.name == t
    }
}

/// What kind of construct a tree node stands for.
#[derive(Clone, Copy, Debug, PartialEq, Eq, Structural)]
pub enum NodeKind {
    Impl,
    Method,
    Block,
    Stmt,
    Expr,
    Pat,
    Ty,
}

/// One segment of a path: a name and the type arguments given to it.
#[derive(Debug, PartialEq, Eq)]
pub struct PathSegment {
    pub identifier: Ident,
    pub types: Vec<Node>,
}

/// A qualified reference such as `gfx::shade::ShaderParam`. A global path
/// is resolved from the crate root, any other from the scope it stands in.
#[derive(Debug, PartialEq, Eq)]
pub struct Path {
    pub span: Span,
    pub global: bool,
    pub segments: Vec<PathSegment>,
}

/// A fragment of code.
#[derive(Debug, PartialEq, Eq)]
pub enum Node {
    /// A qualified reference.
    Path(Path),
    /// A token that holds no other node: a name, a literal, punctuation.
    Token(String),
    /// Any other construct, with the nodes below it in source order.
    Tree(NodeKind, Vec<Node>),
}

/// What a [`PathSegment`] is, as contracts read it.
pub struct PathSegmentView {
    pub identifier: IdentView,
    pub types: Seq<NodeView>,
}

/// What a [`Path`] is, as contracts read it.
pub struct PathView {
    pub span: Span,
    pub global: bool,
    pub segments: Seq<PathSegmentView>,
}

/// What a [`Node`] is, as contracts read it.
pub enum NodeView {
    Path(PathView),
    Token(Seq<char>),
    Tree(NodeKind, Seq<NodeView>),
}

/// The view of a fragment, and with it of all that it holds.
pub open spec fn node_view(n: Node) -> NodeView
    decreases n,
{
    match n {
        Node::Path(p) => NodeView::Path(path_view(p)),
        Node::Token(t) => NodeView::Token(t@),
        Node::Tree(kind, children) => NodeView::Tree(kind, nodes_view(children)),
    }
}

/// The views of the fragments of `v`, in order.
pub open spec fn nodes_view(v: Vec<Node>) -> Seq<NodeView>
    decreases v,
{
    Seq::new(
        v@.len(),
        |i: int|
            if 0 <= i < v@.len() {
                node_view(v@[i])
            } else {
                arbitrary()
            },
    )
}

/// The view of a path segment.
pub open spec fn segment_view(s: PathSegment) -> PathSegmentView
    decreases s,
{
    PathSegmentView { identifier: s.identifier@, types: nodes_view(s.types) }
}

/// The views of the segments of `v`, in order.
pub open spec fn segments_view(v: Vec<PathSegment>) -> Seq<PathSegmentView>
    decreases v,
{
    Seq::new(
        v@.len(),
        |i: int|
            if 0 <= i < v@.len() {
                segment_view(v@[i])
            } else {
                arbitrary()
            },
    )
}

/// The view of a path.
pub open spec fn path_view(p: Path) -> PathView
    decreases p,
{
    PathView { span: p.span, global: p.global, segments: segments_view(p.segments) }
}

impl View for PathSegment {
    type V = PathSegmentView;

    open spec fn view(&self) -> PathSegmentView {
        segment_view(*self)
    }
}

impl View for Path {
    type V = PathView;

    open spec fn view(&self) -> PathView {
        path_view(*self)
    }
}

impl View for Node {
    type V = NodeView;

    open spec fn view(&self) -> NodeView {
        node_view(*self)
    }
}

/// The view of the path that names `idents` in turn, without type
/// arguments, from the scope it stands in.
pub open spec fn simple_path(span: Span, idents: Seq<IdentView>) -> PathView {
    PathView {
        span,
        global: false,
        segments: Seq::new(
            idents.len(),
            |i: int| PathSegmentView { identifier: idents[i], types: Seq::empty() },
        ),
    }
}

/// Whether an item can be named from outside the module it stands in.
#[derive(Clone, Copy, Debug, PartialEq, Eq, Structural)]
pub enum Visibility {
    Public,
    Inherited,
}

/// What a view item brings into scope.
#[derive(Debug, PartialEq, Eq)]
pub enum ViewItemKind {
    /// `extern crate <ident>`, or `extern crate "<source>" as <ident>`
    /// where a source crate is named.
    ExternCrate(Ident, Option<String>),
    /// `use <path> as <ident>`.
    Use(Ident, Path),
}

/// An import at the head of a module.
#[derive(Debug, PartialEq, Eq)]
pub struct ViewItem {
    pub node: ViewItemKind,
    pub vis: Visibility,
    pub span: Span,
}

/// The contents of a module.
#[derive(Debug, PartialEq, Eq)]
pub struct Mod {
    pub inner: Span,
    pub view_items: Vec<ViewItem>,
    pub items: Vec<Item>,
}

/// What an item is.
#[derive(Debug, PartialEq, Eq)]
pub enum ItemKind {
    /// A module.
    Mod(Mod),
    /// An implementation block, as the fragments it is made of.
    Impl(Vec<Node>),
}

/// A named item of a module.
#[derive(Debug, PartialEq, Eq)]
pub struct Item {
    pub ident: Ident,
    pub node: ItemKind,
    pub vis: Visibility,
    pub span: Span,
}

/// What a [`ViewItemKind`] is, as contracts read it.
pub enum ViewItemKindView {
    ExternCrate(IdentView, Option<Seq<char>>),
    Use(IdentView, PathView),
}

/// What a [`ViewItem`] is, as contracts read it.
pub struct ViewItemView {
    pub node: ViewItemKindView,
    pub vis: Visibility,
    pub span: Span,
}

/// What a [`Mod`] is, as contracts read it.
pub struct ModView {
    pub inner: Span,
    pub view_items: Seq<ViewItemView>,
    pub items: Seq<ItemView>,
}

/// What an [`ItemKind`] is, as contracts read it.
pub enum ItemKindView {
    Mod(ModView),
    Impl(Seq<NodeView>),
}

/// What an [`Item`] is, as contracts read it.
pub struct ItemView {
    pub ident: IdentView,
    pub node: ItemKindView,
    pub vis: Visibility,
    pub span: Span,
}

/// The view of an import.
pub open spec fn view_item_view(v: ViewItem) -> ViewItemView {
    ViewItemView {
        node: match v.node {
            ViewItemKind::ExternCrate(ident, source) => ViewItemKindView::ExternCrate(
                ident@,
                match source {
                    Some(s) => Some(s@),
                    None => None,
                },
            ),
            ViewItemKind::Use(ident, path) => ViewItemKindView::Use(ident@, path@),
        },
        vis: v.vis,
        span: v.span,
    }
}

/// The views of the imports of `v`, in order.
pub open spec fn view_items_view(v: Vec<ViewItem>) -> Seq<ViewItemView> {
    Seq::new(v@.len(), |i: int| view_item_view(v@[i]))
}

/// The view of an item, and with it of all that it holds.
pub open spec fn item_view(item: Item) -> ItemView
    decreases item,
{
    ItemView {
        ident: item.ident@,
        node: match item.node {
            ItemKind::Mod(m) => ItemKindView::Mod(
                ModView {
                    inner: m.inner,
                    view_items: view_items_view(m.view_items),
                    items: items_view(m.items),
                },
            ),
            ItemKind::Impl(nodes) => ItemKindView::Impl(nodes_view(nodes)),
        },
        vis: item.vis,
        span: item.span,
    }
}

/// The views of the items of `v`, in order.
pub open spec fn items_view(v: Vec<Item>) -> Seq<ItemView>
    decreases v,
{
    Seq::new(
        v@.len(),
        |i: int|
            if 0 <= i < v@.len() {
                item_view(v@[i])
            } else {
                arbitrary()
            },
    )
}

impl View for ViewItem {
    type V = ViewItemView;

    open spec fn view(&self) -> ViewItemView {
        view_item_view(*self)
    }
}

impl View for Item {
    type V = ItemView;

    open spec fn view(&self) -> ItemView {
        item_view(*self)
    }
}

/// The views of the identifiers of `v`, in order.
pub open spec fn idents_view(v: Vec<Ident>) -> Seq<IdentView> {
    Seq::new(v@.len(), |i: int| v@[i]@)
}

impl Path {
    /// The path that names `idents` in turn, without type arguments, from
    /// the scope it stands in.
    pub fn from_idents(span: Span, idents: Vec<Ident>) -> (res: Path)
        ensures
            res@ == simple_path(span, idents_view(idents)),
    {
        let mut segments: Vec<PathSegment> = Vec::new();
        let ghost src = idents@;
        for ident in it: idents
            invariant
                src == it.seq(),
                segments@.len() == it.index(),
                forall|i: int|
                    0 <= i < it.index() ==> segment_view(#[trigger] segments@[i]) == (
                    PathSegmentView { identifier: src[i]@, types: Seq::empty() }),
        {
            let types: Vec<Node> = Vec::new();
            assert(nodes_view(types) =~= Seq::empty());
            segments.push(PathSegment { identifier: ident, types });
        }
        let res = Path { span, global: false, segments };
        assert(res@.segments =~= simple_path(span, idents_view(idents)).segments);
        res
    }
}

impl ViewItem {
    /// `use <path> as <ident>`, with visibility `vis`.
    pub fn use_simple(span: Span, vis: Visibility, ident: Ident, path: Path) -> (res: ViewItem)
        ensures
            res@ == (ViewItemView { node: ViewItemKindView::Use(ident@, path@), vis, span }),
    {
        ViewItem { node: ViewItemKind::Use(ident, path), vis, span }
    }
}

impl Item {
    /// A private module `name` with the given contents.
    pub fn module(
        span: Span,
        inner: Span,
        name: Ident,
        view_items: Vec<ViewItem>,
        items: Vec<Item>,
    ) -> (res: Item)
        ensures
            res@ == (ItemView {
                ident: name@,
                node: ItemKindView::Mod(
                    ModView {
                        inner,
                        view_items: view_items_view(view_items),
                        items: items_view(items),
                    },
                ),
                vis: Visibility::Inherited,
                span,
            }),
    {
        Item {
            ident: name,
            node: ItemKind::Mod(Mod { inner, view_items, items }),
            vis: Visibility::Inherited,
            span,
        }
    }
}

} // verus!
