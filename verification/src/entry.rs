//! The entry point: the rewrite of the one item that carries the annotation.

use vstd::prelude::*;

use crate::ast::{views, Item, ItemView};
use crate::error::RewriteError;
use crate::visit::{item_error, visit_item, visited_item};

verus! {

/// What the annotation stands on.
#[derive(Debug, PartialEq, Eq)]
pub enum Annotatable {
    /// An item, most often a module.
    Item(Item),
    /// Anything that is not an item, as source text.
    Other(String),
}

/// What the annotation stands on, over sequences.
pub enum AnnotatableView {
    Item(ItemView),
    Other(Seq<char>),
}

impl View for Annotatable {
    type V = AnnotatableView;

    open spec fn view(&self) -> AnnotatableView {
        match *self {
            Annotatable::Item(i) => AnnotatableView::Item(i@),
            Annotatable::Other(text) => AnnotatableView::Other(text@),
        }
    }
}

/// Walks into one item and hands back what takes its place: always exactly
/// one item.
pub fn flat_map_item(item: Item) -> (out: Result<Vec<Item>, RewriteError>)
    ensures
        match out {
            Ok(v) => item_error(item@) is None && views(v@) == seq![visited_item(item@)],
            Err(e) => item_error(item@) == Some(e@),
        },
{
    match visit_item(item) {
        Ok(r) => {
            let mut out: Vec<Item> = Vec::new();
            out.push(r);
            assert(views(out@) =~= seq![r@]);
            Ok(out)
        },
        Err(e) => Err(e),
    }
}

/// The only item of a list that holds exactly one.
pub fn expect_one(items: Vec<Item>) -> (out: Item)
    requires
        items@.len() == 1,
    ensures
        out == items@[0],
{
    let mut items = items;
    items.pop().unwrap()
}

/// Rewrites the annotated item.
///
/// An item comes back rewritten: a module with its blocks of foreign
/// declarations taken apart, all the way down; any other item as it was.
/// What is not an item comes back unchanged. The annotation's payload
/// plays no part.
///
/// The rewrite is refused where a function in the item cannot be wrapped.
pub fn mpk_create(_meta: &str, a: Annotatable) -> (out: Result<Annotatable, RewriteError>)
    ensures
        match a@ {
            AnnotatableView::Item(i) => match out {
                Ok(r) => item_error(i) is None && r@ == AnnotatableView::Item(visited_item(i)),
                Err(e) => item_error(i) == Some(e@),
            },
            AnnotatableView::Other(_) => out matches Ok(r) && r@ == a@,
        },
{
    match a {
        Annotatable::Item(i) => match flat_map_item(i) {
            Ok(items) => {
                assert(views(items@).len() == items@.len());
                assert(views(items@)[0] == items@[0]@);
                Ok(Annotatable::Item(expect_one(items)))
            },
            Err(e) => Err(e),
        },
        other => Ok(other),
    }
}

} // verus!
