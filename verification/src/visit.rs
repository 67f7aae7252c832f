//! The walk over a module tree. Nested modules are rewritten first, then the
//! module that holds them.

use vstd::prelude::*;

use crate::ast::{
    lemma_items_view, lemma_views_push, views, Item, ItemKind, ItemKindView, ItemView, Mod,
    ModView,
};
use crate::error::{RewriteError, RewriteErrorView};
use crate::rewrite::{
    block_error, block_wrappers, header_items, hidden_module, lemma_views_add, relocated_block,
    residual_block, Untrusted,
};
use crate::wrapper::marker_attrs;

verus! {

/// The wrappers that one item of a module gives rise to.
pub open spec fn item_wrappers(it: ItemView) -> Seq<ItemView> {
    match it.kind {
        ItemKindView::ForeignMod(fm) => block_wrappers(fm),
        _ => Seq::empty(),
    }
}

/// What one item of a module leaves where it stood: itself, but for a block,
/// which leaves its declarations that are not functions, or nothing.
pub open spec fn item_residual(it: ItemView) -> Seq<ItemView> {
    match it.kind {
        ItemKindView::ForeignMod(_) => match residual_block(it) {
            Some(r) => seq![r],
            None => Seq::empty(),
        },
        _ => seq![it],
    }
}

/// What one item of a module sends to the hidden module: a block sends its
/// functions, made public and marked as its first wrapper is.
pub open spec fn item_relocated(it: ItemView) -> Seq<ItemView> {
    match it.kind {
        ItemKindView::ForeignMod(_) => seq![relocated_block(it)],
        _ => Seq::empty(),
    }
}

/// Why one item of a module cannot be taken apart; only a block can fail.
pub open spec fn item_scan_error(it: ItemView) -> Option<RewriteErrorView> {
    match it.kind {
        ItemKindView::ForeignMod(fm) => block_error(fm.items),
        _ => None,
    }
}

/// The wrappers of all blocks among the items, block by block.
pub open spec fn wrappers(items: Seq<ItemView>) -> Seq<ItemView>
    decreases items.len(),
{
    if items.len() == 0 {
        Seq::empty()
    } else {
        wrappers(items.drop_last()) + item_wrappers(items.last())
    }
}

/// The items as the rewrite leaves them in place.
pub open spec fn residuals(items: Seq<ItemView>) -> Seq<ItemView>
    decreases items.len(),
{
    if items.len() == 0 {
        Seq::empty()
    } else {
        residuals(items.drop_last()) + item_residual(items.last())
    }
}

/// The blocks that go into the hidden module, one for each block among the items.
pub open spec fn relocated(items: Seq<ItemView>) -> Seq<ItemView>
    decreases items.len(),
{
    if items.len() == 0 {
        Seq::empty()
    } else {
        relocated(items.drop_last()) + item_relocated(items.last())
    }
}

/// The error of the first block among the items that has one.
pub open spec fn scan_error(items: Seq<ItemView>) -> Option<RewriteErrorView>
    decreases items.len(),
{
    if items.len() == 0 {
        None
    } else {
        match scan_error(items.drop_last()) {
            Some(e) => Some(e),
            None => item_scan_error(items.last()),
        }
    }
}

/// The items of a rewritten module, given the module's items: what stays in
/// place, the header imports, the wrappers, and the hidden module if any
/// function was found.
pub open spec fn assembled(items: Seq<ItemView>) -> Seq<ItemView> {
    residuals(items) + header_items() + wrappers(items) + if wrappers(items).len() > 0 {
        seq![hidden_module(relocated(items))]
    } else {
        Seq::<ItemView>::empty()
    }
}

/// An item after the walk: a module is rewritten, anything else is unchanged.
pub open spec fn visited_item(it: ItemView) -> ItemView
    decreases it,
{
    match it.kind {
        ItemKindView::Mod(m) => ItemView { kind: ItemKindView::Mod(rewritten(m)), ..it },
        _ => it,
    }
}

/// The items after the walk has gone through each of them.
pub open spec fn visited(items: Seq<ItemView>) -> Seq<ItemView>
    decreases items,
{
    if items.len() == 0 {
        Seq::empty()
    } else {
        visited(items.drop_last()).push(visited_item(items.last()))
    }
}

/// The rewritten module: its nested modules are rewritten, then its own
/// blocks are taken apart.
pub open spec fn rewritten(m: ModView) -> ModView
    decreases m,
{
    ModView { items: assembled(visited(m.items)) }
}

/// Why the walk fails inside an item, if it does.
pub open spec fn item_error(it: ItemView) -> Option<RewriteErrorView>
    decreases it,
{
    match it.kind {
        ItemKindView::Mod(m) => mod_error(m),
        _ => None,
    }
}

/// The error of the first item inside which the walk fails.
pub open spec fn nested_error(items: Seq<ItemView>) -> Option<RewriteErrorView>
    decreases items,
{
    if items.len() == 0 {
        None
    } else {
        match nested_error(items.drop_last()) {
            Some(e) => Some(e),
            None => item_error(items.last()),
        }
    }
}

/// Why a module cannot be rewritten: the first error inside its nested
/// modules, or else the first error of its own blocks.
pub open spec fn mod_error(m: ModView) -> Option<RewriteErrorView>
    decreases m,
{
    match nested_error(m.items) {
        Some(e) => Some(e),
        None => scan_error(visited(m.items)),
    }
}

/// An error found in a prefix of the items is the items' error.
proof fn lemma_scan_error_prefix(items: Seq<ItemView>, n: int)
    requires
        0 <= n <= items.len(),
        scan_error(items.take(n)) is Some,
    ensures
        scan_error(items) == scan_error(items.take(n)),
    decreases items.len() - n,
{
    if n < items.len() {
        assert(items.take(n + 1).drop_last() =~= items.take(n));
        lemma_scan_error_prefix(items, n + 1);
    } else {
        assert(items.take(n) =~= items);
    }
}

/// An error found inside a prefix of the items is the items' error.
proof fn lemma_nested_error_prefix(items: Seq<ItemView>, n: int)
    requires
        0 <= n <= items.len(),
        nested_error(items.take(n)) is Some,
    ensures
        nested_error(items) == nested_error(items.take(n)),
    decreases items.len() - n,
{
    if n < items.len() {
        assert(items.take(n + 1).drop_last() =~= items.take(n));
        lemma_nested_error_prefix(items, n + 1);
    } else {
        assert(items.take(n) =~= items);
    }
}

/// Every wrapper is a generated function that carries the marker attributes.
pub proof fn lemma_wrappers_shape(items: Seq<ItemView>)
    ensures
        forall|k: int|
            0 <= k < wrappers(items).len() ==> (#[trigger] wrappers(items)[k]).kind is Fn
                && wrappers(items)[k].attrs == marker_attrs(),
    decreases items.len(),
{
    if items.len() > 0 {
        lemma_wrappers_shape(items.drop_last());
    }
}

/// Walks into one item: a module is rewritten, anything else is handed back
/// as it is.
pub fn visit_item(item: Item) -> (out: Result<Item, RewriteError>)
    ensures
        match out {
            Ok(r) => item_error(item@) is None && r@ == visited_item(item@),
            Err(e) => item_error(item@) == Some(e@),
        },
    decreases item,
{
    let Item { ident, vis, attrs, kind } = item;
    match kind {
        ItemKind::Mod(m) => match visit_mod(m) {
            Ok(r) => Ok(Item { ident, vis, attrs, kind: ItemKind::Mod(r) }),
            Err(e) => Err(e),
        },
        other => Ok(Item { ident, vis, attrs, kind: other }),
    }
}

/// Rewrites a module.
///
/// Its nested modules are rewritten first. Then each of its blocks of
/// foreign declarations is taken apart: the block keeps its declarations that
/// are not functions, and leaves the module if it has none. The module's new
/// items follow the old ones: the header imports, a wrapper for each function
/// in the order in which the blocks and their functions stand, and, if there
/// is any function, one hidden module that holds the functions moved out of
/// all the blocks.
///
/// The rewrite is refused where a function somewhere in the tree cannot be
/// wrapped; the error is that of the first such function that the walk
/// meets.
pub fn visit_mod(m: Mod) -> (out: Result<Mod, RewriteError>)
    ensures
        match out {
            Ok(r) => mod_error(m@) is None && r@ == rewritten(m@),
            Err(e) => mod_error(m@) == Some(e@),
        },
    decreases m,
{
    let ghost whole = m.items;
    let ghost src = views(m.items@);
    proof {
        lemma_items_view(m.items@);
    }
    let Mod { items } = m;
    let mut seen: Vec<Item> = Vec::new();
    for item in it: items
        invariant
            it.seq() == whole@,
            src == views(whole@),
            m@.items == src,
            decreases_to!(m => whole),
            nested_error(src.take(it.index())) is None,
            views(seen@) == visited(src.take(it.index())),
    {
        proof {
            let i = it.index();
            assert(decreases_to!(whole => whole[i]));
            assert(src.take(i + 1).drop_last() =~= src.take(i));
            assert(src.take(i + 1).last() == item@);
        }
        match visit_item(item) {
            Ok(v) => {
                proof {
                    lemma_views_push(seen@, v);
                }
                seen.push(v);
            },
            Err(e) => {
                proof {
                    lemma_nested_error_prefix(src, it.index() + 1);
                }
                return Err(e);
            },
        }
    }
    let ghost seen_seq = seen@;
    let ghost vs = views(seen@);
    proof {
        assert(src.take(src.len() as int) =~= src);
    }
    let mut ctx = Untrusted::new();
    let mut kept: Vec<Item> = Vec::new();
    proof {
        assert(header_items() + wrappers(vs.take(0)) =~= header_items());
        assert(views(kept@) =~= residuals(vs.take(0)));
    }
    for item in it: seen
        invariant
            it.seq() == seen_seq,
            vs == views(seen_seq),
            m@.items == src,
            nested_error(src) is None,
            vs == visited(src),
            scan_error(vs.take(it.index())) is None,
            views(kept@) == residuals(vs.take(it.index())),
            ctx@.new_items == header_items() + wrappers(vs.take(it.index())),
            ctx@.new_foreign_items == relocated(vs.take(it.index())),
            ctx@.setup_module == (wrappers(vs.take(it.index())).len() > 0),
    {
        let ghost i = it.index();
        let ghost before = vs.take(i);
        let ghost after = vs.take(i + 1);
        let ghost this = item@;
        proof {
            assert(after.drop_last() =~= before);
            assert(after.last() == this);
        }
        let is_block = match &item.kind {
            ItemKind::ForeignMod(_) => true,
            _ => false,
        };
        if is_block {
            match ctx.process_foreign_module(item) {
                Ok(rest) => {
                    proof {
                        assert(ctx@.new_items =~= header_items() + wrappers(after));
                        assert(ctx@.new_foreign_items =~= relocated(after));
                    }
                    match rest {
                        Some(r) => {
                            proof {
                                lemma_views_push(kept@, r);
                                assert(views(kept@).push(r@) =~= residuals(after));
                            }
                            kept.push(r);
                        },
                        None => {
                            proof {
                                assert(views(kept@) =~= residuals(after));
                            }
                        },
                    }
                },
                Err(e) => {
                    proof {
                        lemma_scan_error_prefix(vs, i + 1);
                    }
                    return Err(e);
                },
            }
        } else {
            proof {
                lemma_views_push(kept@, item);
                assert(views(kept@).push(this) =~= residuals(after));
                assert(ctx@.new_items =~= header_items() + wrappers(after));
                assert(ctx@.new_foreign_items =~= relocated(after));
            }
            kept.push(item);
        }
    }
    proof {
        assert(vs.take(vs.len() as int) =~= vs);
    }
    let mut tail = ctx.finish();
    proof {
        lemma_views_add(kept@, tail@);
    }
    kept.append(&mut tail);
    proof {
        lemma_items_view(kept@);
        assert(views(kept@) =~= assembled(vs));
    }
    Ok(Mod { items: kept })
}

} // verus!
