//! The source tree that the rewrite works on.
//!
//! A module is an ordered list of items. The rewrite only looks inside two
//! kinds of item, nested modules and blocks of foreign declarations; every
//! other item is carried as text. Each executable type has a mathematical
//! view, over which all contracts of this crate are stated.

use vstd::prelude::*;
use vstd::string::StringExecFns;

verus! {

/// Who may name an item.
#[derive(Debug, PartialEq, Eq)]
pub enum Visibility {
    /// `pub`
    Public,
    /// `crate` or `pub(crate)`
    Crate,
    /// `pub(in path)`, `pub(super)`, `pub(self)`: the path as written.
    Restricted(String),
    /// No qualifier: private to the enclosing module.
    Inherited,
}

/// A visibility, with its path as a sequence of characters.
pub enum VisibilityView {
    Public,
    Crate,
    Restricted(Seq<char>),
    Inherited,
}

impl View for Visibility {
    type V = VisibilityView;

    open spec fn view(&self) -> VisibilityView {
        match *self {
            Visibility::Public => VisibilityView::Public,
            Visibility::Crate => VisibilityView::Crate,
            Visibility::Restricted(path) => VisibilityView::Restricted(path@),
            Visibility::Inherited => VisibilityView::Inherited,
        }
    }
}

impl Clone for Visibility {
    fn clone(&self) -> (out: Self)
        ensures
            out@ == self@,
    {
        match self {
            Visibility::Public => Visibility::Public,
            Visibility::Crate => Visibility::Crate,
            Visibility::Restricted(path) => Visibility::Restricted(path.clone()),
            Visibility::Inherited => Visibility::Inherited,
        }
    }
}

/// One parameter of a foreign function: its binding pattern and its type,
/// both as source text.
#[derive(Debug, PartialEq, Eq)]
pub struct Param {
    pub pat: String,
    pub ty: String,
}

/// A parameter, with its texts as sequences of characters.
pub struct ParamView {
    pub pat: Seq<char>,
    pub ty: Seq<char>,
}

impl View for Param {
    type V = ParamView;

    open spec fn view(&self) -> ParamView {
        ParamView { pat: self.pat@, ty: self.ty@ }
    }
}

/// What a foreign declaration declares.
#[derive(Debug, PartialEq, Eq)]
pub enum ForeignItemKind {
    /// A function: its parameters in order, and its return type if one is written.
    Fn { inputs: Vec<Param>, output: Option<String> },
    /// A static of the given type.
    Static { ty: String, mutable: bool },
    /// An opaque foreign type.
    Ty,
    /// A macro invocation in declaration position, as source text.
    Macro(String),
}

/// What a foreign declaration declares, over sequences.
pub enum ForeignItemKindView {
    Fn { inputs: Seq<ParamView>, output: Option<Seq<char>> },
    Static { ty: Seq<char>, mutable: bool },
    Ty,
    Macro(Seq<char>),
}

impl View for ForeignItemKind {
    type V = ForeignItemKindView;

    open spec fn view(&self) -> ForeignItemKindView {
        match *self {
            ForeignItemKind::Fn { inputs, output } => ForeignItemKindView::Fn {
                inputs: views(inputs@),
                output: match output {
                    Some(t) => Some(t@),
                    None => None,
                },
            },
            ForeignItemKind::Static { ty, mutable } => ForeignItemKindView::Static {
                ty: ty@,
                mutable,
            },
            ForeignItemKind::Ty => ForeignItemKindView::Ty,
            ForeignItemKind::Macro(text) => ForeignItemKindView::Macro(text@),
        }
    }
}

/// One declaration inside a block of foreign declarations.
#[derive(Debug, PartialEq, Eq)]
pub struct ForeignItem {
    pub ident: String,
    pub vis: Visibility,
    /// Each attribute as the text between `#[` and `]`.
    pub attrs: Vec<String>,
    pub kind: ForeignItemKind,
}

/// A foreign declaration, over sequences.
pub struct ForeignItemView {
    pub ident: Seq<char>,
    pub vis: VisibilityView,
    pub attrs: Seq<Seq<char>>,
    pub kind: ForeignItemKindView,
}

impl View for ForeignItem {
    type V = ForeignItemView;

    open spec fn view(&self) -> ForeignItemView {
        ForeignItemView {
            ident: self.ident@,
            vis: self.vis@,
            attrs: views(self.attrs@),
            kind: self.kind@,
        }
    }
}

/// A block of foreign declarations that share one ABI.
#[derive(Debug, PartialEq, Eq)]
pub struct ForeignMod {
    /// The ABI name without its quotes, `C` where the block names none.
    pub abi: String,
    pub items: Vec<ForeignItem>,
}

/// A block of foreign declarations, over sequences.
pub struct ForeignModView {
    pub abi: Seq<char>,
    pub items: Seq<ForeignItemView>,
}

impl View for ForeignMod {
    type V = ForeignModView;

    open spec fn view(&self) -> ForeignModView {
        ForeignModView { abi: self.abi@, items: views(self.items@) }
    }
}

/// A generated function: its signature as data and the whole item as text.
#[derive(Debug, PartialEq, Eq)]
pub struct Function {
    pub abi: String,
    pub inputs: Vec<Param>,
    pub output: String,
    /// The item's source text, attributes and body included.
    pub source: String,
}

/// A generated function, over sequences.
pub struct FunctionView {
    pub abi: Seq<char>,
    pub inputs: Seq<ParamView>,
    pub output: Seq<char>,
    pub source: Seq<char>,
}

impl View for Function {
    type V = FunctionView;

    open spec fn view(&self) -> FunctionView {
        FunctionView {
            abi: self.abi@,
            inputs: views(self.inputs@),
            output: self.output@,
            source: self.source@,
        }
    }
}

/// A module body.
#[derive(Debug, PartialEq, Eq)]
pub struct Mod {
    pub items: Vec<Item>,
}

/// What an item is.
#[derive(Debug, PartialEq, Eq)]
pub enum ItemKind {
    /// Any item the rewrite does not look into, as source text.
    Verbatim(String),
    /// A generated function.
    Fn(Function),
    /// A nested module.
    Mod(Mod),
    /// A block of foreign declarations.
    ForeignMod(ForeignMod),
}

/// One item of a module.
#[derive(Debug, PartialEq, Eq)]
pub struct Item {
    /// The item's name; empty where it has none (imports, blocks).
    pub ident: String,
    pub vis: Visibility,
    /// Each attribute as the text between `#[` and `]`.
    pub attrs: Vec<String>,
    pub kind: ItemKind,
}

/// A module body as the sequence of its items.
pub struct ModView {
    pub items: Seq<ItemView>,
}

/// What an item is, over sequences.
pub enum ItemKindView {
    Verbatim(Seq<char>),
    Fn(FunctionView),
    Mod(ModView),
    ForeignMod(ForeignModView),
}

/// An item, over sequences.
pub struct ItemView {
    pub ident: Seq<char>,
    pub vis: VisibilityView,
    pub attrs: Seq<Seq<char>>,
    pub kind: ItemKindView,
}

/// The views of a sequence of values, element by element.
pub open spec fn views<T: View>(s: Seq<T>) -> Seq<T::V> {
    Seq::new(s.len(), |i: int| s[i]@)
}

/// The view of an item; nested modules are viewed all the way down.
pub open spec fn item_view(it: Item) -> ItemView
    decreases it,
{
    ItemView {
        ident: it.ident@,
        vis: it.vis@,
        attrs: views(it.attrs@),
        kind: match it.kind {
            ItemKind::Verbatim(text) => ItemKindView::Verbatim(text@),
            ItemKind::Fn(f) => ItemKindView::Fn(f@),
            ItemKind::Mod(m) => ItemKindView::Mod(ModView { items: items_view(m.items@) }),
            ItemKind::ForeignMod(fm) => ItemKindView::ForeignMod(fm@),
        },
    }
}

/// The views of a list of items, in order.
pub open spec fn items_view(s: Seq<Item>) -> Seq<ItemView>
    decreases s,
{
    if s.len() == 0 {
        Seq::empty()
    } else {
        items_view(s.drop_last()).push(item_view(s.last()))
    }
}

impl View for Item {
    type V = ItemView;

    open spec fn view(&self) -> ItemView {
        item_view(*self)
    }
}

impl View for Mod {
    type V = ModView;

    open spec fn view(&self) -> ModView {
        ModView { items: items_view(self.items@) }
    }
}

/// `items_view` is the element-wise view.
pub proof fn lemma_items_view(s: Seq<Item>)
    ensures
        items_view(s) == views(s),
    decreases s.len(),
{
    if s.len() > 0 {
        lemma_items_view(s.drop_last());
    }
    assert(items_view(s) =~= views(s));
}

/// Appending one element appends its view.
pub proof fn lemma_views_push<T: View>(s: Seq<T>, x: T)
    ensures
        views(s.push(x)) == views(s).push(x@),
{
    assert(views(s.push(x)) =~= views(s).push(x@));
}

impl Clone for Param {
    fn clone(&self) -> (out: Self)
        ensures
            out@ == self@,
    {
        Param { pat: self.pat.clone(), ty: self.ty.clone() }
    }
}

impl Param {
    /// The parameter `pat: ty`.
    pub fn new(pat: &str, ty: &str) -> (out: Param)
        ensures
            out@ == (ParamView { pat: pat@, ty: ty@ }),
    {
        Param { pat: String::from_str(pat), ty: String::from_str(ty) }
    }
}

impl ForeignItem {
    /// The declaration of a foreign function, without attributes.
    pub fn function(ident: &str, vis: Visibility, inputs: Vec<Param>, output: Option<&str>) -> (out:
        ForeignItem)
        ensures
            out@ == (ForeignItemView {
                ident: ident@,
                vis: vis@,
                attrs: Seq::empty(),
                kind: ForeignItemKindView::Fn {
                    inputs: views(inputs@),
                    output: match output {
                        Some(ty) => Some(ty@),
                        None => None,
                    },
                },
            }),
    {
        let output = match output {
            Some(ty) => Some(String::from_str(ty)),
            None => None,
        };
        let out = ForeignItem {
            ident: String::from_str(ident),
            vis,
            attrs: Vec::new(),
            kind: ForeignItemKind::Fn { inputs, output },
        };
        assert(views(out.attrs@) =~= Seq::<Seq<char>>::empty());
        out
    }

    /// The declaration of a foreign static, without attributes.
    pub fn static_item(ident: &str, vis: Visibility, ty: &str, mutable: bool) -> (out: ForeignItem)
        ensures
            out@ == (ForeignItemView {
                ident: ident@,
                vis: vis@,
                attrs: Seq::empty(),
                kind: ForeignItemKindView::Static { ty: ty@, mutable },
            }),
    {
        let out = ForeignItem {
            ident: String::from_str(ident),
            vis,
            attrs: Vec::new(),
            kind: ForeignItemKind::Static { ty: String::from_str(ty), mutable },
        };
        assert(views(out.attrs@) =~= Seq::<Seq<char>>::empty());
        out
    }

    /// The declaration of a foreign type, without attributes.
    pub fn type_item(ident: &str, vis: Visibility) -> (out: ForeignItem)
        ensures
            out@ == (ForeignItemView {
                ident: ident@,
                vis: vis@,
                attrs: Seq::empty(),
                kind: ForeignItemKindView::Ty,
            }),
    {
        let out = ForeignItem {
            ident: String::from_str(ident),
            vis,
            attrs: Vec::new(),
            kind: ForeignItemKind::Ty,
        };
        assert(views(out.attrs@) =~= Seq::<Seq<char>>::empty());
        out
    }
}

impl Item {
    /// A block of foreign declarations: no name, private, no attributes.
    pub fn block(abi: &str, items: Vec<ForeignItem>) -> (out: Item)
        ensures
            out@ == (ItemView {
                ident: Seq::empty(),
                vis: VisibilityView::Inherited,
                attrs: Seq::empty(),
                kind: ItemKindView::ForeignMod(ForeignModView { abi: abi@, items: views(items@) }),
            }),
    {
        let out = Item {
            ident: String::new(),
            vis: Visibility::Inherited,
            attrs: Vec::new(),
            kind: ItemKind::ForeignMod(ForeignMod { abi: String::from_str(abi), items }),
        };
        assert(views(out.attrs@) =~= Seq::<Seq<char>>::empty());
        out
    }

    /// A module with the given items, without attributes.
    pub fn module(ident: &str, vis: Visibility, items: Vec<Item>) -> (out: Item)
        ensures
            out@ == (ItemView {
                ident: ident@,
                vis: vis@,
                attrs: Seq::empty(),
                kind: ItemKindView::Mod(ModView { items: views(items@) }),
            }),
    {
        proof {
            lemma_items_view(items@);
        }
        let out = Item {
            ident: String::from_str(ident),
            vis,
            attrs: Vec::new(),
            kind: ItemKind::Mod(Mod { items }),
        };
        assert(views(out.attrs@) =~= Seq::<Seq<char>>::empty());
        out
    }
}

/// A copy of a list of strings.
pub fn clone_strings(v: &Vec<String>) -> (out: Vec<String>)
    ensures
        views(out@) == views(v@),
{
    let mut out: Vec<String> = Vec::new();
    let mut i: usize = 0;
    while i < v.len()
        invariant
            i <= v.len(),
            out@.len() == i,
            forall|j: int| 0 <= j < i ==> out@[j]@ == v@[j]@,
        decreases v.len() - i,
    {
        out.push(v[i].clone());
        i += 1;
    }
    assert(views(out@) =~= views(v@));
    out
}

/// A copy of a parameter list.
pub fn clone_params(v: &Vec<Param>) -> (out: Vec<Param>)
    ensures
        views(out@) == views(v@),
{
    let mut out: Vec<Param> = Vec::new();
    let mut i: usize = 0;
    while i < v.len()
        invariant
            i <= v.len(),
            out@.len() == i,
            forall|j: int| 0 <= j < i ==> out@[j]@ == v@[j]@,
        decreases v.len() - i,
    {
        out.push(v[i].clone());
        i += 1;
    }
    assert(views(out@) =~= views(v@));
    out
}

impl Clone for ForeignItemKind {
    fn clone(&self) -> (out: Self)
        ensures
            out@ == self@,
    {
        match self {
            ForeignItemKind::Fn { inputs, output } => ForeignItemKind::Fn {
                inputs: clone_params(inputs),
                output: match output {
                    Some(ty) => Some(ty.clone()),
                    None => None,
                },
            },
            ForeignItemKind::Static { ty, mutable } => ForeignItemKind::Static {
                ty: ty.clone(),
                mutable: *mutable,
            },
            ForeignItemKind::Ty => ForeignItemKind::Ty,
            ForeignItemKind::Macro(text) => ForeignItemKind::Macro(text.clone()),
        }
    }
}

impl Clone for ForeignItem {
    fn clone(&self) -> (out: Self)
        ensures
            out@ == self@,
    {
        ForeignItem {
            ident: self.ident.clone(),
            vis: self.vis.clone(),
            attrs: clone_strings(&self.attrs),
            kind: self.kind.clone(),
        }
    }
}

impl Clone for ForeignMod {
    fn clone(&self) -> (out: Self)
        ensures
            out@ == self@,
    {
        let mut items: Vec<ForeignItem> = Vec::new();
        let mut i: usize = 0;
        while i < self.items.len()
            invariant
                i <= self.items.len(),
                items@.len() == i,
                forall|j: int| 0 <= j < i ==> items@[j]@ == self.items@[j]@,
            decreases self.items.len() - i,
        {
            items.push(self.items[i].clone());
            i += 1;
        }
        assert(views(items@) =~= views(self.items@));
        ForeignMod { abi: self.abi.clone(), items }
    }
}

impl Clone for Function {
    fn clone(&self) -> (out: Self)
        ensures
            out@ == self@,
    {
        Function {
            abi: self.abi.clone(),
            inputs: clone_params(&self.inputs),
            output: self.output.clone(),
            source: self.source.clone(),
        }
    }
}

/// A copy of an item; a module is copied all the way down.
fn copy_item(item: &Item) -> (out: Item)
    ensures
        out@ == item@,
    decreases item,
{
    let kind = match &item.kind {
        ItemKind::Verbatim(text) => ItemKind::Verbatim(text.clone()),
        ItemKind::Fn(f) => ItemKind::Fn(f.clone()),
        ItemKind::Mod(m) => ItemKind::Mod(Mod { items: copy_items(&m.items) }),
        ItemKind::ForeignMod(fm) => ItemKind::ForeignMod(fm.clone()),
    };
    Item {
        ident: item.ident.clone(),
        vis: item.vis.clone(),
        attrs: clone_strings(&item.attrs),
        kind,
    }
}

/// A copy of a list of items.
fn copy_items(v: &Vec<Item>) -> (out: Vec<Item>)
    ensures
        items_view(out@) == items_view(v@),
    decreases v,
{
    let mut out: Vec<Item> = Vec::new();
    let mut i: usize = 0;
    while i < v.len()
        invariant
            i <= v.len(),
            out@.len() == i,
            forall|j: int| 0 <= j < i ==> out@[j]@ == v@[j]@,
        decreases v.len() - i,
    {
        out.push(copy_item(&v[i]));
        i += 1;
    }
    proof {
        lemma_items_view(out@);
        lemma_items_view(v@);
        assert(views(out@) =~= views(v@));
    }
    out
}

impl Clone for Item {
    fn clone(&self) -> (out: Self)
        ensures
            out@ == self@,
    {
        copy_item(self)
    }
}

impl Clone for Mod {
    fn clone(&self) -> (out: Self)
        ensures
            out@ == self@,
    {
        Mod { items: copy_items(&self.items) }
    }
}

} // verus!
