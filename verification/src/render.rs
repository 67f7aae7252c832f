//! The tree as source text, so that what the rewrite leaves can be parsed
//! again.

use vstd::prelude::*;
use vstd::string::StringExecFns;

use crate::ast::{
    items_view, lemma_items_view, views, ForeignItem, ForeignItemKind, ForeignItemKindView,
    ForeignItemView, Item, ItemKind, ItemKindView, ItemView, Mod, Visibility, VisibilityView,
};
use crate::text::{join, joined};
use crate::wrapper::{param_decls, param_sources};

verus! {

/// Each attribute as `#[..]` on a line of its own.
pub open spec fn attrs_text(attrs: Seq<Seq<char>>) -> Seq<char>
    decreases attrs.len(),
{
    if attrs.len() == 0 {
        Seq::empty()
    } else {
        attrs_text(attrs.drop_last()) + "#["@ + attrs.last() + "]\n"@
    }
}

/// A visibility as written before an item, with the blank that follows it.
pub open spec fn qualifier_text(vis: VisibilityView) -> Seq<char> {
    match vis {
        VisibilityView::Public => "pub "@,
        VisibilityView::Crate => "pub(crate) "@,
        VisibilityView::Restricted(path) => "pub(in "@ + path + ") "@,
        VisibilityView::Inherited => Seq::empty(),
    }
}

/// What stands before the keyword of an item: its attributes, then its visibility.
pub open spec fn prefix_text(attrs: Seq<Seq<char>>, vis: VisibilityView) -> Seq<char> {
    attrs_text(attrs) + qualifier_text(vis)
}

/// The return type of a declaration as written after its parameters;
/// nothing where it names none.
pub open spec fn arrow_text(output: Option<Seq<char>>) -> Seq<char> {
    match output {
        Some(ty) => " -> "@ + ty,
        None => Seq::empty(),
    }
}

/// What a foreign declaration declares, as written after its visibility.
pub open spec fn signature_text(ident: Seq<char>, kind: ForeignItemKindView) -> Seq<char> {
    match kind {
        ForeignItemKindView::Fn { inputs, output } => "fn "@ + ident + "("@ + joined(
            param_decls(inputs),
            ", "@,
        ) + ")"@ + arrow_text(output) + ";\n"@,
        ForeignItemKindView::Static { ty, mutable } => (if mutable {
            "static mut "@
        } else {
            "static "@
        }) + ident + ": "@ + ty + ";\n"@,
        ForeignItemKindView::Ty => "type "@ + ident + ";\n"@,
        ForeignItemKindView::Macro(text) => text + "\n"@,
    }
}

/// One foreign declaration as source text.
pub open spec fn decl_text(d: ForeignItemView) -> Seq<char> {
    prefix_text(d.attrs, d.vis) + signature_text(d.ident, d.kind)
}

/// The declarations of a block as source text, one after the other.
pub open spec fn decls_text(decls: Seq<ForeignItemView>) -> Seq<char>
    decreases decls.len(),
{
    if decls.len() == 0 {
        Seq::empty()
    } else {
        decls_text(decls.drop_last()) + decl_text(decls.last())
    }
}

/// An item as source text. An item carried as text is that text, and a
/// generated function is the text it was generated as; a module and a block
/// are written out with all they hold.
pub open spec fn item_text(it: ItemView) -> Seq<char>
    decreases it,
{
    match it.kind {
        ItemKindView::Verbatim(text) => text,
        ItemKindView::Fn(f) => f.source,
        ItemKindView::Mod(m) => prefix_text(it.attrs, it.vis) + "mod "@ + it.ident + " {\n"@
            + items_text(m.items) + "}\n"@,
        ItemKindView::ForeignMod(fm) => prefix_text(it.attrs, it.vis) + "extern \""@ + fm.abi
            + "\" {\n"@ + decls_text(fm.items) + "}\n"@,
    }
}

/// The items of a module as source text, each followed by a line break.
pub open spec fn items_text(items: Seq<ItemView>) -> Seq<char>
    decreases items,
{
    if items.len() == 0 {
        Seq::empty()
    } else {
        items_text(items.drop_last()) + item_text(items.last()) + "\n"@
    }
}

/// What stands before the keyword of an item.
fn prefix_source(attrs: &Vec<String>, vis: &Visibility) -> (out: String)
    ensures
        out@ == prefix_text(views(attrs@), vis@),
{
    let ghost all = views(attrs@);
    let mut out = String::new();
    let mut i: usize = 0;
    while i < attrs.len()
        invariant
            i <= attrs.len(),
            all == views(attrs@),
            out@ == attrs_text(all.take(i as int)),
        decreases attrs.len() - i,
    {
        proof {
            assert(all.take(i + 1).drop_last() =~= all.take(i as int));
        }
        out.append("#[");
        out.append(attrs[i].as_str());
        out.append("]\n");
        i += 1;
    }
    proof {
        assert(all.take(i as int) =~= all);
    }
    match vis {
        Visibility::Public => {
            out.append("pub ");
        },
        Visibility::Crate => {
            out.append("pub(crate) ");
        },
        Visibility::Restricted(path) => {
            let mut word = String::from_str("pub(in ");
            word.append(path.as_str());
            word.append(") ");
            out.append(word.as_str());
        },
        Visibility::Inherited => {
            assert(out@ + Seq::<char>::empty() =~= out@);
        },
    }
    out
}

impl ForeignItem {
    /// This declaration as source text: its attributes, one to a line, its
    /// visibility, and what it declares, closed by a semicolon.
    pub fn source(&self) -> (out: String)
        ensures
            out@ == decl_text(self@),
    {
        let mut out = prefix_source(&self.attrs, &self.vis);
        let signature = match &self.kind {
            ForeignItemKind::Fn { inputs, output } => {
                let decls = param_sources(inputs);
                proof {
                    reveal_strlit(", ");
                }
                let args = join(&decls, ", ");
                let arrow = match output {
                    Some(ty) => String::from_str(" -> ").concat(ty.as_str()),
                    None => String::new(),
                };
                let mut s = String::from_str("fn ");
                s.append(self.ident.as_str());
                s.append("(");
                s.append(args.as_str());
                s.append(")");
                s.append(arrow.as_str());
                s.append(";\n");
                s
            },
            ForeignItemKind::Static { ty, mutable } => {
                let mut s = String::from_str(if *mutable { "static mut " } else { "static " });
                s.append(self.ident.as_str());
                s.append(": ");
                s.append(ty.as_str());
                s.append(";\n");
                s
            },
            ForeignItemKind::Ty => {
                let mut s = String::from_str("type ");
                s.append(self.ident.as_str());
                s.append(";\n");
                s
            },
            ForeignItemKind::Macro(text) => text.clone().concat("\n"),
        };
        out.append(signature.as_str());
        out
    }
}

/// The declarations of a block as source text.
fn decls_source(decls: &Vec<ForeignItem>) -> (out: String)
    ensures
        out@ == decls_text(views(decls@)),
{
    let ghost all = views(decls@);
    let mut out = String::new();
    let mut i: usize = 0;
    while i < decls.len()
        invariant
            i <= decls.len(),
            all == views(decls@),
            out@ == decls_text(all.take(i as int)),
        decreases decls.len() - i,
    {
        proof {
            assert(all.take(i + 1).drop_last() =~= all.take(i as int));
        }
        let one = decls[i].source();
        out.append(one.as_str());
        i += 1;
    }
    proof {
        assert(all.take(i as int) =~= all);
    }
    out
}

/// An item as source text.
fn item_source(item: &Item) -> (out: String)
    ensures
        out@ == item_text(item@),
    decreases item,
{
    match &item.kind {
        ItemKind::Verbatim(text) => text.clone(),
        ItemKind::Fn(f) => f.source.clone(),
        ItemKind::Mod(m) => {
            let mut out = prefix_source(&item.attrs, &item.vis);
            out.append("mod ");
            out.append(item.ident.as_str());
            out.append(" {\n");
            let inner = items_source(&m.items);
            out.append(inner.as_str());
            out.append("}\n");
            out
        },
        ItemKind::ForeignMod(fm) => {
            let mut out = prefix_source(&item.attrs, &item.vis);
            out.append("extern \"");
            out.append(fm.abi.as_str());
            out.append("\" {\n");
            let inner = decls_source(&fm.items);
            out.append(inner.as_str());
            out.append("}\n");
            out
        },
    }
}

/// The items of a module as source text.
fn items_source(items: &Vec<Item>) -> (out: String)
    ensures
        out@ == items_text(items_view(items@)),
    decreases items,
{
    let ghost all = views(items@);
    let mut out = String::new();
    let mut i: usize = 0;
    while i < items.len()
        invariant
            i <= items.len(),
            all == views(items@),
            out@ == items_text(all.take(i as int)),
        decreases items.len() - i,
    {
        proof {
            assert(all.take(i + 1).drop_last() =~= all.take(i as int));
        }
        let one = item_source(&items[i]);
        out.append(one.as_str());
        out.append("\n");
        i += 1;
    }
    proof {
        assert(all.take(i as int) =~= all);
        lemma_items_view(items@);
    }
    out
}

impl Item {
    /// This item as source text.
    pub fn source(&self) -> (out: String)
        ensures
            out@ == item_text(self@),
    {
        item_source(self)
    }
}

impl Mod {
    /// The items of this module as source text, each followed by a line break.
    pub fn source(&self) -> (out: String)
        ensures
            out@ == items_text(self@.items),
    {
        items_source(&self.items)
    }
}

} // verus!
