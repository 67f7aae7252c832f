//! What holds of every rewrite.

use vstd::prelude::*;

use crate::ast::{ForeignItemView, ForeignModView, ItemView, ModView, VisibilityView};
use crate::partition::{function_pred, functions_of, lemma_functions_present, lemma_others};
use crate::propagate::exposed_all;
use crate::rewrite::{
    block_carried, block_wrappers, header_items, hidden_module, is_first_fn, residual_block,
};
use crate::visit::{
    item_relocated, item_residual, item_wrappers, lemma_wrappers_shape, relocated, residuals,
    rewritten, visited, visited_item, wrappers,
};
use crate::wrapper::{decl_error, inputs_supported, marker_attrs, wrapper_of, HIDDEN_MODULE};

verus! {

/// The item is a block of foreign declarations that declares a function.
pub open spec fn block_with_function(it: ItemView) -> bool {
    &&& it.kind is ForeignMod
    &&& exists|k: int|
        0 <= k < it.kind->ForeignMod_0.items.len() && (
        #[trigger] it.kind->ForeignMod_0.items[k]).kind is Fn
}

/// Some block among the items declares a function.
pub open spec fn has_function(items: Seq<ItemView>) -> bool {
    exists|i: int| 0 <= i < items.len() && block_with_function(#[trigger] items[i])
}

/// The item is a module that bears the hidden module's name.
pub open spec fn is_hidden(it: ItemView) -> bool {
    it.kind is Mod && it.ident == HIDDEN_MODULE@
}

/// The item is a block that holds at least one declaration and no function.
pub open spec fn proper_residual(it: ItemView) -> bool {
    let decls = it.kind->ForeignMod_0.items;
    &&& it.kind is ForeignMod
    &&& decls.len() > 0
    &&& forall|k: int| 0 <= k < decls.len() ==> !((#[trigger] decls[k]).kind is Fn)
}

/// The item is a block whose declarations are all public functions.
pub open spec fn public_functions_only(it: ItemView) -> bool {
    let decls = it.kind->ForeignMod_0.items;
    &&& it.kind is ForeignMod
    &&& forall|k: int|
        0 <= k < decls.len() ==> (#[trigger] decls[k]).kind is Fn && decls[k].vis
            == VisibilityView::Public
}

/// The walk keeps the number of items, and each item's place.
pub proof fn lemma_visited(items: Seq<ItemView>)
    ensures
        visited(items).len() == items.len(),
        forall|i: int| 0 <= i < items.len() ==> #[trigger] visited(items)[i] == visited_item(items[i]),
    decreases items.len(),
{
    if items.len() > 0 {
        lemma_visited(items.drop_last());
        assert forall|i: int| 0 <= i < items.len() implies #[trigger] visited(items)[i]
            == visited_item(items[i]) by {
            if i < items.len() - 1 {
                assert(items.drop_last()[i] == items[i]);
            }
        }
    }
}

/// There are wrappers exactly if some block declares a function.
pub proof fn lemma_wrappers_present(items: Seq<ItemView>)
    ensures
        wrappers(items).len() > 0 <==> has_function(items),
    decreases items.len(),
{
    if items.len() > 0 {
        let front = items.drop_last();
        let last = items.last();
        lemma_wrappers_present(front);
        if last.kind is ForeignMod {
            lemma_functions_present(last.kind->ForeignMod_0.items);
        }
        if has_function(front) {
            let i = choose|i: int| 0 <= i < front.len() && block_with_function(#[trigger] front[i]);
            assert(block_with_function(items[i]));
        }
        if item_wrappers(last).len() > 0 {
            assert(block_with_function(items[items.len() - 1]));
        }
        if has_function(items) {
            let i = choose|i: int| 0 <= i < items.len() && block_with_function(#[trigger] items[i]);
            if i < items.len() - 1 {
                assert(block_with_function(front[i]));
            }
        }
    }
}

/// What stays in place: blocks that hold declarations but no function, and
/// items that are no blocks. None of them is the hidden module unless an item
/// bore its name before.
pub proof fn lemma_residuals(items: Seq<ItemView>)
    ensures
        forall|k: int|
            0 <= k < residuals(items).len() && (#[trigger] residuals(items)[k]).kind is ForeignMod
                ==> proper_residual(residuals(items)[k]),
        (forall|i: int| 0 <= i < items.len() ==> !is_hidden(#[trigger] items[i])) ==> forall|
            k: int,
        | 0 <= k < residuals(items).len() ==> !is_hidden(#[trigger] residuals(items)[k]),
    decreases items.len(),
{
    if items.len() > 0 {
        let front = items.drop_last();
        let last = items.last();
        lemma_residuals(front);
        if last.kind is ForeignMod {
            lemma_others(last.kind->ForeignMod_0.items);
        }
        assert forall|k: int|
            0 <= k < residuals(items).len() && (#[trigger] residuals(items)[k]).kind
                is ForeignMod implies proper_residual(residuals(items)[k]) by {
            if k >= residuals(front).len() {
                assert(residuals(items)[k] == item_residual(last)[0]);
            }
        }
        if forall|i: int| 0 <= i < items.len() ==> !is_hidden(#[trigger] items[i]) {
            assert forall|i: int| 0 <= i < front.len() implies !is_hidden(#[trigger] front[i]) by {
                assert(front[i] == items[i]);
            }
            assert forall|k: int| 0 <= k < residuals(items).len() implies !is_hidden(
                #[trigger] residuals(items)[k],
            ) by {
                if k >= residuals(front).len() {
                    assert(residuals(items)[k] == item_residual(last)[0]);
                    assert(!is_hidden(items[items.len() - 1]));
                }
            }
        }
    }
}

/// Every block bound for the hidden module holds functions only, and each
/// of them is public, whatever it was in the block it came from.
pub proof fn law_relocated_are_public(items: Seq<ItemView>)
    ensures
        forall|b: int|
            0 <= b < relocated(items).len() ==> public_functions_only(#[trigger] relocated(items)[b]),
    decreases items.len(),
{
    if items.len() > 0 {
        let front = items.drop_last();
        let last = items.last();
        law_relocated_are_public(front);
        assert forall|b: int| 0 <= b < relocated(items).len() implies public_functions_only(
            #[trigger] relocated(items)[b],
        ) by {
            if b < relocated(front).len() {
                assert(relocated(items)[b] == relocated(front)[b]);
            } else {
                let decls = last.kind->ForeignMod_0.items;
                let moved = exposed_all(
                    functions_of(decls),
                    block_carried(last.kind->ForeignMod_0),
                );
                assert(relocated(items)[b] == item_relocated(last)[0]);
                assert(relocated(items)[b].kind->ForeignMod_0.items == moved);
                assert forall|k: int| 0 <= k < moved.len() implies (#[trigger] moved[k]).kind
                    is Fn && moved[k].vis == VisibilityView::Public by {
                    decls.lemma_filter_pred(function_pred(), k);
                }
            }
        }
    }
}

/// The functions of a block take the attributes of the block's own first
/// wrapper with them: the three marker attributes where the block declares a
/// function, and none where it does not.
pub proof fn law_moved_declarations_carry_markers(fm: ForeignModView)
    ensures
        functions_of(fm.items).len() > 0 ==> block_carried(fm) == marker_attrs(),
        functions_of(fm.items).len() == 0 ==> block_carried(fm) == Seq::<Seq<char>>::empty(),
{
    let ws = block_wrappers(fm);
    if ws.len() > 0 {
        assert(is_first_fn(ws, 0));
        let c = choose|k: int| is_first_fn(ws, k);
        assert(is_first_fn(ws, c));
        assert(c == 0);
    } else {
        assert forall|k: int| !is_first_fn(ws, k) by {}
    }
}

/// A block that declares nothing but functions leaves nothing behind: it is
/// dropped, not kept empty.
pub proof fn law_function_only_block_is_dropped(it: ItemView)
    requires
        it.kind is ForeignMod,
        forall|k: int|
            0 <= k < it.kind->ForeignMod_0.items.len() ==> (
            #[trigger] it.kind->ForeignMod_0.items[k]).kind is Fn,
    ensures
        residual_block(it) is None,
        item_residual(it) == Seq::<ItemView>::empty(),
{
    lemma_others(it.kind->ForeignMod_0.items);
}

/// In a rewritten module every block that is still an item of the module
/// holds at least one declaration, and no function.
pub proof fn law_blocks_left_in_place(m: ModView)
    ensures
        forall|k: int|
            0 <= k < rewritten(m).items.len() && (#[trigger] rewritten(m).items[k]).kind
                is ForeignMod ==> proper_residual(rewritten(m).items[k]),
{
    let items = visited(m.items);
    let out = rewritten(m).items;
    lemma_residuals(items);
    lemma_wrappers_shape(items);
    let r = residuals(items).len() as int;
    assert forall|k: int| 0 <= k < out.len() && (#[trigger] out[k]).kind is ForeignMod implies proper_residual(
        out[k],
    ) by {
        if k < r {
            assert(out[k] == residuals(items)[k]);
        } else if k < r + 7 {
            assert(out[k] == header_items()[k - r]);
        } else if k < r + 7 + wrappers(items).len() {
            assert(out[k] == wrappers(items)[k - r - 7]);
        } else {
            assert(out[k] == hidden_module(relocated(items)));
        }
    }
}

/// A function whose parameters are each bound by one name, a word or a raw
/// identifier, is not refused, and its wrapper has the parameters of the
/// function: as many, with the same names and types, in the same order.
pub proof fn law_wrapper_keeps_parameters(d: ForeignItemView, abi: Seq<char>)
    requires
        d.kind is Fn,
    ensures
        inputs_supported(d.kind->inputs) <==> decl_error(d) is None,
        wrapper_of(d, abi).kind is Fn,
        wrapper_of(d, abi).ident == d.ident,
        wrapper_of(d, abi).kind->Fn_0.inputs == d.kind->inputs,
        wrapper_of(d, abi).kind->Fn_0.inputs.len() == d.kind->inputs.len(),
        forall|i: int|
            0 <= i < d.kind->inputs.len() ==> #[trigger] wrapper_of(d, abi).kind->Fn_0.inputs[i]
                == d.kind->inputs[i],
{
}

/// A rewritten module holds exactly one hidden module, as its last item, if
/// one of its blocks declares a function, and none otherwise. This is stated
/// of modules none of whose items is a module that already bears the hidden
/// module's name.
pub proof fn law_one_hidden_module(m: ModView)
    requires
        forall|i: int| 0 <= i < m.items.len() ==> !is_hidden(#[trigger] m.items[i]),
    ensures
        has_function(m.items) ==> {
            &&& rewritten(m).items.len() > 0
            &&& is_hidden(rewritten(m).items.last())
            &&& forall|k: int|
                0 <= k < rewritten(m).items.len() - 1 ==> !is_hidden(#[trigger] rewritten(m).items[k])
        },
        !has_function(m.items) ==> forall|k: int|
            0 <= k < rewritten(m).items.len() ==> !is_hidden(#[trigger] rewritten(m).items[k]),
{
    let items = visited(m.items);
    let out = rewritten(m).items;
    lemma_visited(m.items);
    assert forall|i: int| 0 <= i < items.len() implies !is_hidden(#[trigger] items[i]) by {
        assert(!is_hidden(m.items[i]));
    }
    lemma_residuals(items);
    lemma_wrappers_shape(items);
    lemma_wrappers_present(items);
    assert(has_function(items) <==> has_function(m.items)) by {
        if has_function(items) {
            let i = choose|i: int| 0 <= i < items.len() && block_with_function(#[trigger] items[i]);
            assert(block_with_function(m.items[i]));
        }
        if has_function(m.items) {
            let i = choose|i: int|
                0 <= i < m.items.len() && block_with_function(#[trigger] m.items[i]);
            assert(block_with_function(items[i]));
        }
    }
    let r = residuals(items).len() as int;
    let w = wrappers(items).len() as int;
    assert forall|k: int| 0 <= k < r + 7 + w implies !is_hidden(#[trigger] out[k]) by {
        if k < r {
            assert(out[k] == residuals(items)[k]);
        } else if k < r + 7 {
            assert(out[k] == header_items()[k - r]);
        } else {
            assert(out[k] == wrappers(items)[k - r - 7]);
        }
    }
    if w > 0 {
        assert(out.last() == hidden_module(relocated(items)));
    }
}

/// Every declaration that the rewrite moves into the hidden module is public
/// afterwards, whatever it was before: where a block declares a function, the
/// rewritten module ends with the hidden module, which holds, after its
/// import, blocks of public functions only.
pub proof fn law_moved_declarations_are_public(m: ModView)
    ensures
        has_function(m.items) ==> {
            &&& rewritten(m).items.len() > 0
            &&& rewritten(m).items.last() == hidden_module(relocated(visited(m.items)))
            &&& forall|b: int|
                1 <= b < rewritten(m).items.last().kind->Mod_0.items.len()
                    ==> public_functions_only(
                    #[trigger] rewritten(m).items.last().kind->Mod_0.items[b],
                )
        },
{
    if has_function(m.items) {
        let items = visited(m.items);
        lemma_visited(m.items);
        lemma_wrappers_present(items);
        assert(has_function(items)) by {
            let i = choose|i: int|
                0 <= i < m.items.len() && block_with_function(#[trigger] m.items[i]);
            assert(block_with_function(items[i]));
        }
        law_relocated_are_public(items);
        let out = rewritten(m).items;
        assert(out.last() == hidden_module(relocated(items)));
        let inner = out.last().kind->Mod_0.items;
        assert forall|b: int| 1 <= b < inner.len() implies public_functions_only(
            #[trigger] inner[b],
        ) by {
            assert(inner[b] == relocated(items)[b - 1]);
        }
    }
}

} // verus!
