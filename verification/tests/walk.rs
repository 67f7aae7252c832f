use mpk_protector::ast::{ForeignItem, Item, ItemKind, Mod, Param, Visibility};
use mpk_protector::entry::{expect_one, flat_map_item, mpk_create, Annotatable};
use mpk_protector::error::RewriteError;
use mpk_protector::rewrite::{header, verbatim_item};
use mpk_protector::visit::{visit_item, visit_mod};

fn func(name: &str) -> ForeignItem {
    ForeignItem::function(name, Visibility::Public, vec![Param::new("p", "i32")], Some("i32"))
}

fn bad(name: &str) -> ForeignItem {
    ForeignItem::function(name, Visibility::Public, vec![Param::new("(a, b)", "(u8, u8)")], None)
}

fn items_of(item: &Item) -> &Vec<Item> {
    match &item.kind {
        ItemKind::Mod(m) => &m.items,
        other => panic!("expected a module, found {:?}", other),
    }
}

#[test]
fn nested_modules_are_rewritten_too() {
    let inner = Item::module("inner", Visibility::Public, vec![Item::block("C", vec![func("f")])]);
    let outer = Item::module(
        "outer",
        Visibility::Inherited,
        vec![inner, Item::block("C", vec![func("g")])],
    );
    let out = visit_item(outer).unwrap();
    assert_eq!(out.ident, "outer");
    let top = items_of(&out);
    // inner module, header, wrapper of g, hidden module
    assert_eq!(top.len(), 1 + 7 + 1 + 1);
    assert_eq!(top[0].ident, "inner");
    assert_eq!(top[0].vis, Visibility::Public);
    assert_eq!(top[8].ident, "g");
    assert_eq!(top[9].ident, "secret_mpk_funcs");

    let nested = items_of(&top[0]);
    assert_eq!(nested.len(), 7 + 1 + 1);
    assert_eq!(nested[7].ident, "f");
    assert_eq!(nested[8].ident, "secret_mpk_funcs");
    assert_eq!(
        nested,
        &visit_mod(Mod { items: vec![Item::block("C", vec![func("f")])] }).unwrap().items
    );
}

#[test]
fn items_that_are_no_modules_pass_through() {
    let block = || Item::block("C", vec![func("f")]);
    assert_eq!(visit_item(block()), Ok(block()));
    assert_eq!(visit_item(verbatim_item("struct S;")), Ok(verbatim_item("struct S;")));
}

#[test]
fn failure_inside_a_nested_module_comes_first() {
    let inner = Item::module("inner", Visibility::Public, vec![Item::block("C", vec![bad("deep")])]);
    let m = Mod { items: vec![Item::block("C", vec![bad("shallow")]), inner] };
    assert_eq!(
        visit_mod(m),
        Err(RewriteError::UnsupportedPattern { function: "deep".to_string(), index: 0 })
    );
}

#[test]
fn failure_in_the_first_block_comes_first() {
    let m = Mod {
        items: vec![
            Item::block("C", vec![func("ok"), bad("one")]),
            Item::block("C", vec![bad("two")]),
        ],
    };
    assert_eq!(
        visit_mod(m),
        Err(RewriteError::UnsupportedPattern { function: "one".to_string(), index: 0 })
    );
}

#[test]
fn entry_point_rewrites_an_annotated_module() {
    let module = || Item::module("ffi", Visibility::Public, vec![Item::block("C", vec![func("f")])]);
    let out = mpk_create("", Annotatable::Item(module())).unwrap();
    let expected = visit_item(module()).unwrap();
    assert_eq!(out, Annotatable::Item(expected));
    match out {
        Annotatable::Item(item) => {
            assert_eq!(item.ident, "ffi");
            assert_eq!(items_of(&item).len(), 9);
        },
        other => panic!("expected an item, found {:?}", other),
    }
}

#[test]
fn entry_point_ignores_the_payload() {
    let module = || Item::module("ffi", Visibility::Public, vec![Item::block("C", vec![func("f")])]);
    assert_eq!(
        mpk_create("", Annotatable::Item(module())),
        mpk_create("key = 3", Annotatable::Item(module()))
    );
}

#[test]
fn entry_point_leaves_other_things_alone() {
    let other = || Annotatable::Other("fn method(&self);".to_string());
    assert_eq!(mpk_create("", other()), Ok(other()));
    let plain = || Annotatable::Item(verbatim_item("struct S;"));
    assert_eq!(mpk_create("", plain()), Ok(plain()));
}

#[test]
fn entry_point_reports_failure() {
    let module = Item::module("ffi", Visibility::Public, vec![Item::block("C", vec![bad("f")])]);
    assert_eq!(
        mpk_create("", Annotatable::Item(module)),
        Err(RewriteError::UnsupportedPattern { function: "f".to_string(), index: 0 })
    );
}

#[test]
fn flat_map_gives_exactly_one_item() {
    let module = || Item::module("ffi", Visibility::Public, vec![Item::block("C", vec![func("f")])]);
    let out = flat_map_item(module()).unwrap();
    assert_eq!(out.len(), 1);
    assert_eq!(expect_one(out), visit_item(module()).unwrap());
}

#[test]
fn rewrite_is_deterministic() {
    let module = || Mod {
        items: vec![
            Item::block("C", vec![func("f"), func("g")]),
            verbatim_item("fn main() {}"),
            Item::block("C", vec![func("h")]),
        ],
    };
    assert_eq!(visit_mod(module()), visit_mod(module()));
    let out = visit_mod(module()).unwrap();
    assert_eq!(out.items[0], verbatim_item("fn main() {}"));
    assert_eq!(out.items[1..8], header()[..]);
    let names: Vec<&str> = out.items[8..11].iter().map(|w| w.ident.as_str()).collect();
    assert_eq!(names, vec!["f", "g", "h"]);
}

#[test]
fn copies_are_equal_all_the_way_down() {
    let mut block = Item::block(
        "C",
        vec![func("f"), ForeignItem::static_item("s", Visibility::Restricted("super".to_string()), "u8", true)],
    );
    block.attrs.push("link(name = \"m\")".to_string());
    let inner = Item::module("inner", Visibility::Crate, vec![block, verbatim_item("struct S;")]);
    let outer = Item::module("outer", Visibility::Public, vec![inner]);
    let copy = outer.clone();
    assert_eq!(copy, outer);
    let rewritten = visit_item(outer).unwrap();
    assert_eq!(rewritten.clone(), rewritten);
    assert_eq!(visit_item(copy), Ok(rewritten));

    let e = RewriteError::UnsupportedPattern { function: "f".to_string(), index: 2 };
    assert_eq!(e.clone(), e);
    let m = Mod { items: vec![verbatim_item("fn main() {}")] };
    assert_eq!(m.clone(), m);
}
