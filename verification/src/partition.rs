//! Splitting a block of foreign declarations into functions and the rest.

use vstd::prelude::*;

use crate::ast::{lemma_views_push, views, ForeignItem, ForeignItemKind, ForeignItemView};

verus! {

/// Holds of the declarations that are functions.
pub open spec fn function_pred() -> spec_fn(ForeignItemView) -> bool {
    |d: ForeignItemView| d.kind is Fn
}

/// Holds of the declarations that are not functions.
pub open spec fn other_pred() -> spec_fn(ForeignItemView) -> bool {
    |d: ForeignItemView| !(d.kind is Fn)
}

/// The function declarations of a block, in their order.
pub open spec fn functions_of(items: Seq<ForeignItemView>) -> Seq<ForeignItemView> {
    items.filter(function_pred())
}

/// The declarations of a block that are not functions, in their order.
pub open spec fn others_of(items: Seq<ForeignItemView>) -> Seq<ForeignItemView> {
    items.filter(other_pred())
}

/// Whether a declaration is a function. Only its kind is looked at.
pub fn is_function(d: &ForeignItem) -> (yes: bool)
    ensures
        yes == (d@.kind is Fn),
{
    match d.kind {
        ForeignItemKind::Fn { .. } => true,
        _ => false,
    }
}

/// Splits the declarations of a block in one pass: the functions, and the
/// rest. Both keep the order that the declarations had in the block.
pub fn partition(items: Vec<ForeignItem>) -> (out: (Vec<ForeignItem>, Vec<ForeignItem>))
    ensures
        views(out.0@) == functions_of(views(items@)),
        views(out.1@) == others_of(views(items@)),
{
    let mut functions: Vec<ForeignItem> = Vec::new();
    let mut others: Vec<ForeignItem> = Vec::new();
    let ghost src = items@;
    for d in it: items
        invariant
            it.seq() == src,
            views(functions@) == functions_of(views(src.take(it.index()))),
            views(others@) == others_of(views(src.take(it.index()))),
    {
        proof {
            let i = it.index();
            let before = views(src.take(i));
            assert(src.take(i + 1) =~= src.take(i).push(d));
            lemma_views_push(src.take(i), d);
            before.lemma_filter_push(d@, function_pred());
            before.lemma_filter_push(d@, other_pred());
            lemma_views_push(functions@, d);
            lemma_views_push(others@, d);
        }
        if is_function(&d) {
            functions.push(d);
        } else {
            others.push(d);
        }
    }
    proof {
        assert(src.take(src.len() as int) =~= src);
    }
    (functions, others)
}

/// A block has a function among its functions exactly if it declares one.
pub proof fn lemma_functions_present(decls: Seq<ForeignItemView>)
    ensures
        functions_of(decls).len() > 0 <==> exists|k: int|
            0 <= k < decls.len() && (#[trigger] decls[k]).kind is Fn,
{
    let fs = functions_of(decls);
    if fs.len() > 0 {
        decls.lemma_filter_pred(function_pred(), 0);
        assert(fs.contains(fs[0]));
        decls.lemma_filter_contains_rev(function_pred(), fs[0]);
        let k = choose|k: int| 0 <= k < decls.len() && decls[k] == fs[0];
        assert(decls[k].kind is Fn);
    }
    if exists|k: int| 0 <= k < decls.len() && (#[trigger] decls[k]).kind is Fn {
        let k = choose|k: int| 0 <= k < decls.len() && (#[trigger] decls[k]).kind is Fn;
        decls.lemma_filter_contains(function_pred(), k);
    }
}

/// Nothing but functions is left out of the rest, and the rest holds no function.
pub proof fn lemma_others(decls: Seq<ForeignItemView>)
    ensures
        others_of(decls).len() == 0 <==> forall|k: int|
            0 <= k < decls.len() ==> (#[trigger] decls[k]).kind is Fn,
        forall|k: int|
            0 <= k < others_of(decls).len() ==> !((#[trigger] others_of(decls)[k]).kind is Fn),
{
    let rest = others_of(decls);
    assert forall|k: int| 0 <= k < rest.len() implies !((#[trigger] rest[k]).kind is Fn) by {
        decls.lemma_filter_pred(other_pred(), k);
    }
    if rest.len() > 0 {
        decls.lemma_filter_pred(other_pred(), 0);
        assert(rest.contains(rest[0]));
        decls.lemma_filter_contains_rev(other_pred(), rest[0]);
        let k = choose|k: int| 0 <= k < decls.len() && decls[k] == rest[0];
        assert(!(decls[k].kind is Fn));
    }
    if exists|k: int| 0 <= k < decls.len() && !((#[trigger] decls[k]).kind is Fn) {
        let k = choose|k: int| 0 <= k < decls.len() && !((#[trigger] decls[k]).kind is Fn);
        decls.lemma_filter_contains(other_pred(), k);
    }
}

} // verus!
