//! The rewrite of one module: every block of foreign declarations gives up
//! its functions, each function gets a wrapper, and the functions themselves
//! move into one hidden module.

use vstd::prelude::*;
use vstd::string::StringExecFns;

use crate::ast::{
    clone_strings, lemma_items_view, lemma_views_push, views, ForeignItemView, ForeignMod,
    ForeignModView, Item, ItemKind, ItemKindView, ItemView, Mod, ModView, Visibility,
    VisibilityView,
};
use crate::error::{RewriteError, RewriteErrorView};
use crate::partition::{function_pred, functions_of, is_function, others_of, partition};
use crate::propagate::{carried_attrs, exposed_all, update_visibility};
use crate::wrapper::{decl_error, make_wrapper, wrapper_of, HIDDEN_MODULE};

verus! {

/// An item that is carried as text: no name, no attributes of its own.
pub open spec fn verbatim(text: Seq<char>) -> ItemView {
    ItemView {
        ident: Seq::empty(),
        vis: VisibilityView::Inherited,
        attrs: Seq::empty(),
        kind: ItemKindView::Verbatim(text),
    }
}

/// The imports that make the two access-switching functions and the
/// allocator's marker type known to the wrappers, in the order in which they
/// are emitted.
pub open spec fn header_items() -> Seq<ItemView> {
    seq![
        verbatim("extern crate pkmallocator;\n"@),
        verbatim("extern crate mpk;\n"@),
        verbatim("use mpk::pkey_set_panic;\n"@),
        verbatim("use pkmallocator::PkAlloc;\n"@),
        verbatim("use pkmallocator::__untrusted_gate_exit;\n"@),
        verbatim("use pkmallocator::__untrusted_gate_enter;\n"@),
        verbatim("use pkmallocator::untrusted_ty;\n"@),
    ]
}

/// The hidden module: an import of everything its parent sees, then the
/// moved blocks.
pub open spec fn hidden_module(blocks: Seq<ItemView>) -> ItemView {
    ItemView {
        ident: HIDDEN_MODULE@,
        vis: VisibilityView::Inherited,
        attrs: Seq::empty(),
        kind: ItemKindView::Mod(ModView { items: seq![verbatim("use super::*;"@)] + blocks }),
    }
}

/// The wrappers of the given declarations' functions, in order.
pub open spec fn wrappers_from(decls: Seq<ForeignItemView>, abi: Seq<char>) -> Seq<ItemView> {
    Seq::new(functions_of(decls).len(), |k: int| wrapper_of(functions_of(decls)[k], abi))
}

/// The wrappers of a block's functions, in the order of their declarations.
pub open spec fn block_wrappers(fm: ForeignModView) -> Seq<ItemView> {
    wrappers_from(fm.items, fm.abi)
}

/// What stays of a block where it stood: the block with its declarations
/// that are not functions, or nothing if it has none.
pub open spec fn residual_block(it: ItemView) -> Option<ItemView>
    recommends
        it.kind is ForeignMod,
{
    let fm = it.kind->ForeignMod_0;
    let rest = others_of(fm.items);
    if rest.len() == 0 {
        None
    } else {
        Some(
            ItemView {
                kind: ItemKindView::ForeignMod(ForeignModView { abi: fm.abi, items: rest }),
                ..it
            },
        )
    }
}

/// The attributes that the functions of a block take with them: those of
/// the first wrapper made for this block, none where it has no wrapper.
pub open spec fn block_carried(fm: ForeignModView) -> Seq<Seq<char>> {
    carried_attrs(first_fn(block_wrappers(fm)))
}

/// What moves into the hidden module: the block with its functions only,
/// each made public and given the attributes of the block's first wrapper.
pub open spec fn relocated_block(it: ItemView) -> ItemView
    recommends
        it.kind is ForeignMod,
{
    let fm = it.kind->ForeignMod_0;
    ItemView {
        kind: ItemKindView::ForeignMod(
            ForeignModView {
                abi: fm.abi,
                items: exposed_all(functions_of(fm.items), block_carried(fm)),
            },
        ),
        ..it
    }
}

/// Why a block cannot be rewritten: the error of its first declaration that
/// has one.
pub open spec fn block_error(decls: Seq<ForeignItemView>) -> Option<RewriteErrorView>
    decreases decls.len(),
{
    if decls.len() == 0 {
        None
    } else {
        match block_error(decls.drop_last()) {
            Some(e) => Some(e),
            None => decl_error(decls.last()),
        }
    }
}

/// `k` is the first generated function among the items.
pub open spec fn is_first_fn(items: Seq<ItemView>, k: int) -> bool {
    &&& 0 <= k < items.len()
    &&& items[k].kind is Fn
    &&& forall|j: int| 0 <= j < k ==> !((#[trigger] items[j]).kind is Fn)
}

/// The first generated function among the items, if there is one.
pub open spec fn first_fn(items: Seq<ItemView>) -> Option<ItemView> {
    if exists|k: int| is_first_fn(items, k) {
        Some(items[choose|k: int| is_first_fn(items, k)])
    } else {
        None
    }
}

/// An error found in a prefix of a block is the block's error.
proof fn lemma_block_error_prefix(decls: Seq<ForeignItemView>, n: int)
    requires
        0 <= n <= decls.len(),
        block_error(decls.take(n)) is Some,
    ensures
        block_error(decls) == block_error(decls.take(n)),
    decreases decls.len() - n,
{
    if n < decls.len() {
        assert(decls.take(n + 1).drop_last() =~= decls.take(n));
        lemma_block_error_prefix(decls, n + 1);
    } else {
        assert(decls.take(n) =~= decls);
    }
}

/// The views of a concatenation.
pub proof fn lemma_views_add<T: View>(a: Seq<T>, b: Seq<T>)
    ensures
        views(a + b) == views(a) + views(b),
{
    assert(views(a + b) =~= views(a) + views(b));
}

/// Where the first generated function stands among the items from place
/// `from` on.
pub fn find_fn(items: &Vec<Item>, from: usize) -> (out: Option<usize>)
    requires
        from <= items@.len(),
    ensures
        match out {
            Some(k) => {
                &&& from <= k < items@.len()
                &&& is_first_fn(views(items@).skip(from as int), k - from)
                &&& first_fn(views(items@).skip(from as int)) == Some(items@[k as int]@)
            },
            None => first_fn(views(items@).skip(from as int)) is None,
        },
{
    let ghost vs = views(items@).skip(from as int);
    let mut i: usize = from;
    while i < items.len()
        invariant
            from <= i <= items.len(),
            vs == views(items@).skip(from as int),
            forall|j: int| 0 <= j < i - from ==> !((#[trigger] vs[j]).kind is Fn),
        decreases items.len() - i,
    {
        let found = match items[i].kind {
            ItemKind::Fn(_) => true,
            _ => false,
        };
        if found {
            proof {
                assert(vs[i - from] == items@[i as int]@);
                assert(is_first_fn(vs, i - from));
                let c = choose|k: int| is_first_fn(vs, k);
                assert(is_first_fn(vs, c));
                assert(c == i - from);
            }
            return Some(i);
        }
        proof {
            assert(vs[i - from] == items@[i as int]@);
        }
        i += 1;
    }
    proof {
        assert forall|k: int| !is_first_fn(vs, k) by {
            if 0 <= k < vs.len() {
                assert(!(vs[k].kind is Fn));
            }
        }
    }
    None
}

/// An item that is carried as text.
pub fn verbatim_item(text: &str) -> (out: Item)
    ensures
        out@ == verbatim(text@),
{
    let out = Item {
        ident: String::new(),
        vis: Visibility::Inherited,
        attrs: Vec::new(),
        kind: ItemKind::Verbatim(String::from_str(text)),
    };
    assert(views(out.attrs@) =~= Seq::<Seq<char>>::empty());
    out
}

/// The header imports, in order.
pub fn header() -> (out: Vec<Item>)
    ensures
        views(out@) == header_items(),
{
    let mut out: Vec<Item> = Vec::new();
    out.push(verbatim_item("extern crate pkmallocator;\n"));
    out.push(verbatim_item("extern crate mpk;\n"));
    out.push(verbatim_item("use mpk::pkey_set_panic;\n"));
    out.push(verbatim_item("use pkmallocator::PkAlloc;\n"));
    out.push(verbatim_item("use pkmallocator::__untrusted_gate_exit;\n"));
    out.push(verbatim_item("use pkmallocator::__untrusted_gate_enter;\n"));
    out.push(verbatim_item("use pkmallocator::untrusted_ty;\n"));
    assert(views(out@) =~= header_items());
    out
}

/// What one pass over a module has gathered so far.
#[derive(Debug, PartialEq, Eq)]
pub struct Untrusted {
    /// The items to add to the module: the header imports, then the wrappers.
    pub new_items: Vec<Item>,
    /// The blocks to put into the hidden module.
    pub new_foreign_items: Vec<Item>,
    /// Whether a function was found, so that the hidden module is needed.
    pub setup_module: bool,
}

/// The state of a pass, over sequences.
pub struct UntrustedView {
    pub new_items: Seq<ItemView>,
    pub new_foreign_items: Seq<ItemView>,
    pub setup_module: bool,
}

impl View for Untrusted {
    type V = UntrustedView;

    open spec fn view(&self) -> UntrustedView {
        UntrustedView {
            new_items: views(self.new_items@),
            new_foreign_items: views(self.new_foreign_items@),
            setup_module: self.setup_module,
        }
    }
}

impl Untrusted {
    /// The state before the first block: the header imports, nothing moved,
    /// no hidden module asked for.
    pub fn new() -> (out: Self)
        ensures
            out@ == (UntrustedView {
                new_items: header_items(),
                new_foreign_items: Seq::empty(),
                setup_module: false,
            }),
    {
        let out = Untrusted {
            new_items: header(),
            new_foreign_items: Vec::new(),
            setup_module: false,
        };
        assert(views(out.new_foreign_items@) =~= Seq::<ItemView>::empty());
        out
    }

    /// Adds a wrapper for each function of the block, in order, and asks for
    /// the hidden module if there is any.
    ///
    /// Where a function cannot be wrapped, nothing is added and the error of
    /// the first such function is returned.
    pub fn create_mod_wrappers(&mut self, fm: &ForeignMod) -> (out: Result<(), RewriteError>)
        ensures
            match out {
                Ok(()) => {
                    &&& block_error(fm@.items) is None
                    &&& final(self)@ == (UntrustedView {
                        new_items: old(self)@.new_items + block_wrappers(fm@),
                        setup_module: old(self)@.setup_module || functions_of(fm@.items).len() > 0,
                        ..old(self)@
                    })
                },
                Err(e) => {
                    &&& block_error(fm@.items) == Some(e@)
                    &&& final(self)@ == old(self)@
                },
            },
    {
        let ghost decls = views(fm.items@);
        let mut made: Vec<Item> = Vec::new();
        let mut i: usize = 0;
        while i < fm.items.len()
            invariant
                i <= fm.items.len(),
                decls == views(fm.items@),
                decls == fm@.items,
                block_error(decls.take(i as int)) is None,
                views(made@) == wrappers_from(decls.take(i as int), fm@.abi),
            decreases fm.items.len() - i,
        {
            let f_item = &fm.items[i];
            proof {
                let before = decls.take(i as int);
                assert(decls.take(i + 1) =~= before.push(f_item@));
                assert(decls.take(i + 1).drop_last() =~= before);
                before.lemma_filter_push(f_item@, function_pred());
            }
            if is_function(f_item) {
                match make_wrapper(f_item, fm.abi.as_str()) {
                    Ok(func_wrapper) => {
                        proof {
                            lemma_views_push(made@, func_wrapper);
                            assert(wrappers_from(decls.take(i + 1), fm@.abi) =~= wrappers_from(
                                decls.take(i as int),
                                fm@.abi,
                            ).push(func_wrapper@));
                        }
                        made.push(func_wrapper);
                    },
                    Err(e) => {
                        proof {
                            lemma_block_error_prefix(decls, i + 1);
                        }
                        return Err(e);
                    },
                }
            } else {
                proof {
                    assert(wrappers_from(decls.take(i + 1), fm@.abi) =~= wrappers_from(
                        decls.take(i as int),
                        fm@.abi,
                    ));
                }
            }
            i += 1;
        }
        proof {
            assert(decls.take(i as int) =~= decls);
            lemma_views_add(self.new_items@, made@);
        }
        if made.len() > 0 {
            self.setup_module = true;
        }
        self.new_items.append(&mut made);
        Ok(())
    }

    /// Takes one block apart.
    ///
    /// A wrapper for each of its functions is added to the new items. The
    /// block with its functions only, each made public and given the
    /// attributes of the first wrapper made for this block, is added to the
    /// blocks for the hidden module. What is returned takes the block's
    /// place: the block with its other declarations, or nothing where it has
    /// none.
    ///
    /// Where a function cannot be wrapped, the state is left as it was and
    /// the error of the first such function is returned.
    pub fn process_foreign_module(&mut self, item: Item) -> (out: Result<
        Option<Item>,
        RewriteError,
    >)
        requires
            item@.kind is ForeignMod,
        ensures
            match out {
                Ok(rest) => {
                    &&& block_error(item@.kind->ForeignMod_0.items) is None
                    &&& final(self)@.new_items == old(self)@.new_items + block_wrappers(
                        item@.kind->ForeignMod_0,
                    )
                    &&& final(self)@.new_foreign_items == old(self)@.new_foreign_items.push(
                        relocated_block(item@),
                    )
                    &&& final(self)@.setup_module == (old(self)@.setup_module || functions_of(
                        item@.kind->ForeignMod_0.items,
                    ).len() > 0)
                    &&& match rest {
                        Some(r) => residual_block(item@) == Some(r@),
                        None => residual_block(item@) is None,
                    }
                },
                Err(e) => {
                    &&& block_error(item@.kind->ForeignMod_0.items) == Some(e@)
                    &&& final(self)@ == old(self)@
                },
            },
    {
        let ghost whole = item@;
        let Item { ident, vis, attrs, kind } = item;
        match kind {
            ItemKind::ForeignMod(fm) => {
                let first_new = self.new_items.len();
                match self.create_mod_wrappers(&fm) {
                    Ok(()) => {},
                    Err(e) => {
                        return Err(e);
                    },
                }
                proof {
                    assert(views(self.new_items@).skip(first_new as int) =~= block_wrappers(fm@));
                }
                let ForeignMod { abi, items } = fm;
                let (function_item_list, other_item_list) = partition(items);
                let mut fake_mod = ForeignMod { abi: abi.clone(), items: function_item_list };
                let f_node = match find_fn(&self.new_items, first_new) {
                    Some(k) => Some(&self.new_items[k]),
                    None => None,
                };
                update_visibility(&mut fake_mod, f_node);
                let fake_item = Item {
                    ident: ident.clone(),
                    vis: vis.clone(),
                    attrs: clone_strings(&attrs),
                    kind: ItemKind::ForeignMod(fake_mod),
                };
                proof {
                    lemma_views_push(self.new_foreign_items@, fake_item);
                }
                self.new_foreign_items.push(fake_item);
                if other_item_list.len() == 0 {
                    Ok(None)
                } else {
                    Ok(
                        Some(
                            Item {
                                ident,
                                vis,
                                attrs,
                                kind: ItemKind::ForeignMod(
                                    ForeignMod { abi, items: other_item_list },
                                ),
                            },
                        ),
                    )
                }
            },
            _ => unreached(),
        }
    }

    /// Ends the pass: the new items, followed by the hidden module with the
    /// moved blocks if a function was found.
    pub fn finish(self) -> (out: Vec<Item>)
        ensures
            views(out@) == self@.new_items + if self@.setup_module {
                seq![hidden_module(self@.new_foreign_items)]
            } else {
                Seq::<ItemView>::empty()
            },
    {
        let Untrusted { new_items, new_foreign_items, setup_module } = self;
        let mut new_items = new_items;
        let mut new_foreign_items = new_foreign_items;
        if setup_module {
            let mut inner: Vec<Item> = Vec::new();
            inner.push(verbatim_item("use super::*;"));
            proof {
                lemma_views_add(inner@, new_foreign_items@);
                assert(views(inner@) =~= seq![verbatim("use super::*;"@)]);
            }
            inner.append(&mut new_foreign_items);
            proof {
                lemma_items_view(inner@);
            }
            let module = Item {
                ident: String::from_str(HIDDEN_MODULE),
                vis: Visibility::Inherited,
                attrs: Vec::new(),
                kind: ItemKind::Mod(Mod { items: inner }),
            };
            proof {
                assert(views(module.attrs@) =~= Seq::<Seq<char>>::empty());
                lemma_views_push(new_items@, module);
                assert(views(new_items@).push(module@) =~= views(new_items@) + seq![module@]);
            }
            new_items.push(module);
        } else {
            proof {
                assert(views(new_items@) + Seq::<ItemView>::empty() =~= views(new_items@));
            }
        }
        new_items
    }
}

} // verus!
