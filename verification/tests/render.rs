use mpk_protector::ast::{ForeignItem, ForeignItemKind, Item, Mod, Param, Visibility};
use mpk_protector::rewrite::verbatim_item;
use mpk_protector::visit::visit_mod;
use mpk_protector::wrapper::param_sources;

fn f_decl() -> ForeignItem {
    ForeignItem::function("f", Visibility::Public, vec![Param::new("x", "i32")], Some("i32"))
}

#[test]
fn parameters_as_written() {
    assert_eq!(
        param_sources(&vec![Param::new("ptr", "*const c_char"), Param::new("n", "usize")]),
        vec!["ptr: *const c_char", "n: usize"]
    );
    assert!(param_sources(&Vec::new()).is_empty());
}

#[test]
fn declarations_as_source() {
    assert_eq!(f_decl().source(), "pub fn f(x: i32) -> i32;\n");
    assert_eq!(
        ForeignItem::function(
            "g",
            Visibility::Inherited,
            vec![Param::new("a", "u8"), Param::new("b", "*mut T")],
            None
        )
        .source(),
        "fn g(a: u8, b: *mut T);\n"
    );
    assert_eq!(
        ForeignItem::static_item("my_buff", Visibility::Inherited, "*mut c_char", false).source(),
        "static my_buff: *mut c_char;\n"
    );
    assert_eq!(
        ForeignItem::static_item("counter", Visibility::Public, "i32", true).source(),
        "pub static mut counter: i32;\n"
    );
    assert_eq!(
        ForeignItem::type_item("Opaque", Visibility::Crate).source(),
        "pub(crate) type Opaque;\n"
    );
    assert_eq!(
        ForeignItem::type_item("Near", Visibility::Restricted("super".to_string())).source(),
        "pub(in super) type Near;\n"
    );
    let invocation = ForeignItem {
        ident: String::new(),
        vis: Visibility::Inherited,
        attrs: Vec::new(),
        kind: ForeignItemKind::Macro("declare_more!();".to_string()),
    };
    assert_eq!(invocation.source(), "declare_more!();\n");
}

#[test]
fn attributes_come_first() {
    let mut d = f_decl();
    d.attrs = vec!["link_name = \"f_impl\"".to_string(), "cold".to_string()];
    assert_eq!(d.source(), "#[link_name = \"f_impl\"]\n#[cold]\npub fn f(x: i32) -> i32;\n");
}

#[test]
fn block_as_source() {
    let mut block = Item::block(
        "C",
        vec![
            f_decl(),
            ForeignItem::static_item("my_buff", Visibility::Inherited, "*mut c_char", false),
        ],
    );
    block.attrs.push("link(name = \"untrusted\")".to_string());
    assert_eq!(
        block.source(),
        "#[link(name = \"untrusted\")]\nextern \"C\" {\npub fn f(x: i32) -> i32;\nstatic my_buff: *mut c_char;\n}\n"
    );
    assert_eq!(Item::block("system", Vec::new()).source(), "extern \"system\" {\n}\n");
}

#[test]
fn module_as_source() {
    let inner = Item::module("inner", Visibility::Inherited, vec![verbatim_item("struct S;")]);
    let outer =
        Item::module("outer", Visibility::Public, vec![verbatim_item("use std::ptr;"), inner]);
    assert_eq!(
        outer.source(),
        "pub mod outer {\nuse std::ptr;\nmod inner {\nstruct S;\n}\n\n}\n"
    );
    assert_eq!(Mod { items: Vec::new() }.source(), "");
}

#[test]
fn rewritten_module_as_source() {
    let out = visit_mod(Mod { items: vec![Item::block("C", vec![f_decl()])] }).unwrap();
    let expected = [
        "extern crate pkmallocator;\n\n",
        "extern crate mpk;\n\n",
        "use mpk::pkey_set_panic;\n\n",
        "use pkmallocator::PkAlloc;\n\n",
        "use pkmallocator::__untrusted_gate_exit;\n\n",
        "use pkmallocator::__untrusted_gate_enter;\n\n",
        "use pkmallocator::untrusted_ty;\n\n",
        "#[allow(non_snake_case)]\n#[untrusted] #[inline(never)] pub unsafe extern \"C\" fn f(x: i32) -> i32 {",
        "use pkmallocator::{__untrusted_gate_enter, __untrusted_gate_exit };\n",
        "__untrusted_gate_exit();\n",
        "let transparent_return_value = secret_mpk_funcs::f(x);\n",
        "__untrusted_gate_enter();\n",
        "transparent_return_value }\n",
        "mod secret_mpk_funcs {\n",
        "use super::*;\n",
        "extern \"C\" {\n",
        "#[allow(non_snake_case)]\n#[untrusted]\n#[inline(never)]\npub fn f(x: i32) -> i32;\n",
        "}\n\n",
        "}\n\n",
    ]
    .concat();
    assert_eq!(out.source(), expected);
}
