use mpk_protector::ast::{ForeignItem, Function, Item, ItemKind, Param, Visibility};
use mpk_protector::error::RewriteError;
use mpk_protector::text::is_simple_name;
use mpk_protector::wrapper::{
    make_wrapper, marker_attributes, GATE_ENTER, GATE_EXIT, HIDDEN_MODULE,
};

fn function_of(item: &Item) -> &Function {
    match &item.kind {
        ItemKind::Fn(f) => f,
        other => panic!("expected a function, found {:?}", other),
    }
}

#[test]
fn wrapper_keeps_parameters() {
    let inputs = vec![
        Param::new("charptr", "*const c_char"),
        Param::new("intptr", "*mut i32"),
        Param::new("size", "c_uint"),
    ];
    let decl =
        ForeignItem::function("use_two_ptr", Visibility::Public, inputs.clone(), Some("*mut c_char"));
    let w = make_wrapper(&decl, "C").unwrap();
    let f = function_of(&w);
    assert_eq!(f.inputs.len(), 3);
    assert_eq!(f.inputs, inputs);
    assert_eq!(f.output, "*mut c_char");
    assert_eq!(f.abi, "C");
    assert_eq!(w.ident, "use_two_ptr");
    assert_eq!(w.vis, Visibility::Public);
    assert_eq!(w.attrs, marker_attributes());
}

#[test]
fn wrapper_joins_parameters_with_commas() {
    let decl = ForeignItem::function(
        "change_vector",
        Visibility::Public,
        vec![Param::new("first", "*mut i32"), Param::new("second", "*mut i32")],
        Some("i32"),
    );
    let w = make_wrapper(&decl, "C").unwrap();
    assert_eq!(
        function_of(&w).source,
        "#[allow(non_snake_case)]\n#[untrusted] #[inline(never)] pub unsafe extern \"C\" fn change_vector(first: *mut i32, second: *mut i32) -> i32 {use pkmallocator::{__untrusted_gate_enter, __untrusted_gate_exit };\n__untrusted_gate_exit();\nlet transparent_return_value = secret_mpk_funcs::change_vector(first, second);\n__untrusted_gate_enter();\ntransparent_return_value }"
    );
}

#[test]
fn wrapper_without_parameters_or_return_type() {
    let decl = ForeignItem::function("tick", Visibility::Crate, Vec::new(), None);
    let w = make_wrapper(&decl, "C").unwrap();
    let f = function_of(&w);
    assert_eq!(w.vis, Visibility::Inherited);
    assert_eq!(f.output, "()");
    assert!(f.inputs.is_empty());
    assert_eq!(
        f.source,
        "#[allow(non_snake_case)]\n#[untrusted] #[inline(never)]  unsafe extern \"C\" fn tick() -> () {use pkmallocator::{__untrusted_gate_enter, __untrusted_gate_exit };\n__untrusted_gate_exit();\nlet transparent_return_value = secret_mpk_funcs::tick();\n__untrusted_gate_enter();\ntransparent_return_value }"
    );
}

#[test]
fn wrapper_takes_the_abi_of_its_block() {
    let decl =
        ForeignItem::function("GetTick", Visibility::Public, Vec::new(), Some("u32"));
    let w = make_wrapper(&decl, "system").unwrap();
    let f = function_of(&w);
    assert_eq!(f.abi, "system");
    assert!(f.source.contains(" pub unsafe extern \"system\" fn GetTick() -> u32 {"));
}

#[test]
fn wrapper_names_the_gates_and_the_hidden_module() {
    assert_eq!(GATE_EXIT, "__untrusted_gate_exit");
    assert_eq!(GATE_ENTER, "__untrusted_gate_enter");
    assert_eq!(HIDDEN_MODULE, "secret_mpk_funcs");
    assert_eq!(
        marker_attributes(),
        vec!["allow(non_snake_case)".to_string(), "untrusted".to_string(), "inline(never)".to_string()]
    );
}

#[test]
fn destructuring_pattern_is_refused() {
    let decl = ForeignItem::function(
        "g",
        Visibility::Public,
        vec![Param::new("n", "i32"), Param::new("(a, b)", "(i32, i32)"), Param::new("&c", "&u8")],
        None,
    );
    let err = make_wrapper(&decl, "C").unwrap_err();
    assert_eq!(err, RewriteError::UnsupportedPattern { function: "g".to_string(), index: 1 });
    assert_eq!(err.message(), "unsupported parameter pattern in foreign function g");
}

#[test]
fn placeholder_pattern_is_refused() {
    let decl =
        ForeignItem::function("h", Visibility::Public, vec![Param::new("_", "i32")], None);
    assert_eq!(
        make_wrapper(&decl, "C"),
        Err(RewriteError::UnsupportedPattern { function: "h".to_string(), index: 0 })
    );
}

#[test]
fn plain_names() {
    assert!(is_simple_name("x"));
    assert!(is_simple_name("intptr"));
    assert!(is_simple_name("_unused"));
    assert!(is_simple_name("__"));
    assert!(is_simple_name("Arg2"));
    assert!(is_simple_name("snake_case_9"));
    assert!(!is_simple_name(""));
    assert!(!is_simple_name("_"));
    assert!(!is_simple_name("9lives"));
    assert!(!is_simple_name("mut x"));
    assert!(!is_simple_name("(a, b)"));
    assert!(!is_simple_name("&x"));
    assert!(!is_simple_name("Point { x, y }"));
    assert!(is_simple_name("na\u{ef}ve"));
    assert!(!is_simple_name("a b"));
    assert!(!is_simple_name("ref r"));
    assert!(!is_simple_name("x @ 1..=9"));
    assert!(is_simple_name("r"));
    assert!(!is_simple_name("#"));
}

#[test]
fn raw_identifiers_are_names() {
    assert!(is_simple_name("r#type"));
    assert!(is_simple_name("r#match"));
    assert!(is_simple_name("r#true"));
    assert!(is_simple_name("r#x"));
    assert!(is_simple_name("r#_x"));
    assert!(!is_simple_name("r#"));
    assert!(!is_simple_name("r#_"));
    assert!(!is_simple_name("r#crate"));
    assert!(!is_simple_name("r#self"));
    assert!(!is_simple_name("r#super"));
    assert!(!is_simple_name("r#Self"));
    assert!(!is_simple_name("r#9lives"));
    assert!(!is_simple_name("r#a b"));
    assert!(!is_simple_name("r##type"));
    assert!(!is_simple_name("R#type"));
    // Longer words that begin like these are names.
    assert!(is_simple_name("selfish"));
    assert!(is_simple_name("crate_"));
}

#[test]
fn truth_values_are_no_names() {
    assert!(!is_simple_name("true"));
    assert!(!is_simple_name("false"));
    assert!(is_simple_name("truer"));
    assert!(is_simple_name("True"));
    assert!(is_simple_name("falsely"));
}

#[test]
fn wrapper_hands_a_raw_identifier_on_as_written() {
    let inputs = vec![
        Param::new("domain", "c_int"),
        Param::new("r#type", "c_int"),
        Param::new("protocol", "c_int"),
    ];
    let decl = ForeignItem::function("socket", Visibility::Public, inputs.clone(), Some("c_int"));
    let w = make_wrapper(&decl, "C").unwrap();
    let f = function_of(&w);
    assert_eq!(f.inputs, inputs);
    assert_eq!(
        f.source,
        "#[allow(non_snake_case)]\n#[untrusted] #[inline(never)] pub unsafe extern \"C\" fn socket(domain: c_int, r#type: c_int, protocol: c_int) -> c_int {use pkmallocator::{__untrusted_gate_enter, __untrusted_gate_exit };\n__untrusted_gate_exit();\nlet transparent_return_value = secret_mpk_funcs::socket(domain, r#type, protocol);\n__untrusted_gate_enter();\ntransparent_return_value }"
    );
}

#[test]
fn literal_pattern_is_refused() {
    let decl = ForeignItem::function(
        "flag",
        Visibility::Public,
        vec![Param::new("on", "bool"), Param::new("true", "bool")],
        None,
    );
    assert_eq!(
        make_wrapper(&decl, "C"),
        Err(RewriteError::UnsupportedPattern { function: "flag".to_string(), index: 1 })
    );
    let decl = ForeignItem::function(
        "flag",
        Visibility::Public,
        vec![Param::new("false", "bool")],
        None,
    );
    assert_eq!(
        make_wrapper(&decl, "C"),
        Err(RewriteError::UnsupportedPattern { function: "flag".to_string(), index: 0 })
    );
}

#[test]
fn reserved_words_are_no_names() {
    for word in [
        "as", "break", "const", "continue", "crate", "else", "enum", "extern", "false", "fn",
        "for", "if", "impl", "in", "let", "loop", "match", "mod", "move", "mut", "pub", "ref",
        "return", "self", "Self", "static", "struct", "super", "trait", "true", "type", "unsafe",
        "use", "where", "while", "abstract", "become", "box", "do", "final", "macro", "override",
        "priv", "typeof", "unsized", "virtual", "yield",
    ] {
        assert!(!is_simple_name(word), "{}", word);
        assert!(is_simple_name(&format!("{}_", word)), "{}", word);
        assert!(is_simple_name(&format!("_{}", word)), "{}", word);
    }
    // Words that only some editions keep, or that are kept only in places.
    for word in ["async", "await", "dyn", "try", "union", "auto", "default", "raw"] {
        assert!(is_simple_name(word), "{}", word);
    }
    // Written raw, a reserved word is a name, but for the four that cannot be.
    for word in ["as", "fn", "type", "match", "true", "false", "box", "yield", "mut"] {
        assert!(is_simple_name(&format!("r#{}", word)), "{}", word);
    }
}

#[test]
fn reserved_word_as_parameter_is_refused() {
    let decl = ForeignItem::function(
        "open",
        Visibility::Public,
        vec![Param::new("path", "*const c_char"), Param::new("mod", "c_int")],
        Some("c_int"),
    );
    assert_eq!(
        make_wrapper(&decl, "C"),
        Err(RewriteError::UnsupportedPattern { function: "open".to_string(), index: 1 })
    );
    let raw = ForeignItem::function(
        "open",
        Visibility::Public,
        vec![Param::new("path", "*const c_char"), Param::new("r#mod", "c_int")],
        Some("c_int"),
    );
    assert!(make_wrapper(&raw, "C").is_ok());
}
