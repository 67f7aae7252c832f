//! Opening up the declarations that move into the hidden module.

use vstd::prelude::*;

use crate::ast::{
    lemma_views_push, views, ForeignItem, ForeignItemView, ForeignMod, ForeignModView, Item,
    ItemView, Visibility, VisibilityView,
};

verus! {

/// A moved declaration: public, with the attributes `extra` after its own.
pub open spec fn exposed(d: ForeignItemView, extra: Seq<Seq<char>>) -> ForeignItemView {
    ForeignItemView { vis: VisibilityView::Public, attrs: d.attrs + extra, ..d }
}

/// Every declaration of the list, exposed.
pub open spec fn exposed_all(items: Seq<ForeignItemView>, extra: Seq<Seq<char>>) -> Seq<
    ForeignItemView,
> {
    Seq::new(items.len(), |i: int| exposed(items[i], extra))
}

/// The attributes that a wrapper hands on; none where there is no wrapper.
pub open spec fn carried_attrs(f_node: Option<ItemView>) -> Seq<Seq<char>> {
    match f_node {
        Some(v) => v.attrs,
        None => Seq::empty(),
    }
}

/// The view of an item that may be absent.
pub open spec fn opt_view(f_node: Option<&Item>) -> Option<ItemView> {
    match f_node {
        Some(v) => Some(v@),
        None => None,
    }
}

/// Makes one declaration public and hands it the attributes of `f_node`.
fn expose(d: ForeignItem, f_node: Option<&Item>) -> (out: ForeignItem)
    ensures
        out@ == exposed(d@, carried_attrs(opt_view(f_node))),
{
    let ForeignItem { ident, vis: _, attrs, kind } = d;
    let mut attrs = attrs;
    match f_node {
        Some(v) => {
            let ghost own = views(attrs@);
            let mut i: usize = 0;
            while i < v.attrs.len()
                invariant
                    i <= v.attrs.len(),
                    views(attrs@) == own + views(v.attrs@).take(i as int),
                decreases v.attrs.len() - i,
            {
                proof {
                    lemma_views_push(attrs@, v.attrs@[i as int]);
                    assert(views(v.attrs@).take(i + 1) =~= views(v.attrs@).take(i as int).push(
                        v.attrs@[i as int]@,
                    ));
                    assert(own + views(v.attrs@).take(i + 1) =~= (own + views(v.attrs@).take(
                        i as int,
                    )).push(v.attrs@[i as int]@));
                }
                attrs.push(v.attrs[i].clone());
                i += 1;
            }
            proof {
                assert(views(v.attrs@).take(i as int) =~= views(v.attrs@));
            }
        },
        None => {
            proof {
                assert(views(attrs@) + Seq::<Seq<char>>::empty() =~= views(attrs@));
            }
        },
    }
    ForeignItem { ident, vis: Visibility::Public, attrs, kind }
}

/// Makes every declaration of `fake_mod` public, whatever it was before, and
/// appends to each the attributes of `f_node`, where there is one.
pub fn update_visibility(fake_mod: &mut ForeignMod, f_node: Option<&Item>)
    ensures
        final(fake_mod)@ == (ForeignModView {
            abi: old(fake_mod)@.abi,
            items: exposed_all(old(fake_mod)@.items, carried_attrs(opt_view(f_node))),
        }),
        forall|i: int|
            0 <= i < final(fake_mod)@.items.len() ==> (#[trigger] final(fake_mod)@.items[i]).vis
                == VisibilityView::Public,
{
    let mut taken: Vec<ForeignItem> = Vec::new();
    std::mem::swap(&mut fake_mod.items, &mut taken);
    let ghost src = taken@;
    let ghost extra = carried_attrs(opt_view(f_node));
    let mut done: Vec<ForeignItem> = Vec::new();
    for d in it: taken
        invariant
            it.seq() == src,
            extra == carried_attrs(opt_view(f_node)),
            views(done@) == exposed_all(views(src), extra).take(it.index()),
    {
        let opened = expose(d, f_node);
        proof {
            let i = it.index();
            lemma_views_push(done@, opened);
            assert(exposed_all(views(src), extra).take(i + 1) =~= exposed_all(
                views(src),
                extra,
            ).take(i).push(exposed(d@, extra)));
        }
        done.push(opened);
    }
    proof {
        assert(exposed_all(views(src), extra).take(src.len() as int) =~= exposed_all(
            views(src),
            extra,
        ));
    }
    fake_mod.items = done;
}

} // verus!
