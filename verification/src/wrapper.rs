//! Synthesis of the wrapper that guards one foreign function.
//!
//! The wrapper keeps the function's name and signature. Its body drops the
//! caller's access rights, calls the real function through the hidden module,
//! restores the rights, and yields what the call returned.

use vstd::prelude::*;
use vstd::string::StringExecFns;

use crate::ast::{
    clone_params, lemma_views_push, views, ForeignItem, ForeignItemKind, ForeignItemKindView,
    ForeignItemView, Function, FunctionView, Item, ItemKind, ItemKindView, ItemView, Param,
    ParamView, Visibility, VisibilityView,
};
use crate::error::{RewriteError, RewriteErrorView};
use crate::text::{is_simple_name, join, joined, simple_name};

verus! {

/// The function that a wrapper calls before the foreign call.
pub const GATE_EXIT: &'static str = "__untrusted_gate_exit";

/// The function that a wrapper calls after the foreign call.
pub const GATE_ENTER: &'static str = "__untrusted_gate_enter";

/// The module that holds the declarations moved out of their blocks.
pub const HIDDEN_MODULE: &'static str = "secret_mpk_funcs";

/// The attributes of every wrapper: naming lint off, marked untrusted, never inlined.
pub open spec fn marker_attrs() -> Seq<Seq<char>> {
    seq!["allow(non_snake_case)"@, "untrusted"@, "inline(never)"@]
}

/// A wrapper is public where the declaration is, and private otherwise.
pub open spec fn wrapper_vis(vis: VisibilityView) -> VisibilityView {
    if vis is Public {
        VisibilityView::Public
    } else {
        VisibilityView::Inherited
    }
}

/// A wrapper's visibility as written.
pub open spec fn vis_text(vis: VisibilityView) -> Seq<char> {
    if vis is Public {
        "pub"@
    } else {
        ""@
    }
}

/// The return type as written; the unit type where the declaration names none.
pub open spec fn return_text(output: Option<Seq<char>>) -> Seq<char> {
    match output {
        Some(ty) => ty,
        None => "()"@,
    }
}

/// Each parameter as `name: Type`.
pub open spec fn param_decls(inputs: Seq<ParamView>) -> Seq<Seq<char>> {
    Seq::new(inputs.len(), |i: int| inputs[i].pat + ": "@ + inputs[i].ty)
}

/// Each parameter's name.
pub open spec fn param_names(inputs: Seq<ParamView>) -> Seq<Seq<char>> {
    Seq::new(inputs.len(), |i: int| inputs[i].pat)
}

/// The wrapper's body: drop the access rights, call the hidden function with
/// the parameters in order, restore the access rights, yield the call's
/// result.
pub open spec fn body_text(name: Seq<char>, inputs: Seq<ParamView>) -> Seq<char> {
    "use pkmallocator::{__untrusted_gate_enter, __untrusted_gate_exit };\n"@ + GATE_EXIT@
        + "();\nlet transparent_return_value = "@ + HIDDEN_MODULE@ + "::"@ + name + "("@ + joined(
        param_names(inputs),
        ", "@,
    ) + ");\n"@ + GATE_ENTER@ + "();\ntransparent_return_value "@
}

/// The wrapper as source text.
pub open spec fn wrapper_text(
    vis: VisibilityView,
    abi: Seq<char>,
    name: Seq<char>,
    inputs: Seq<ParamView>,
    output: Seq<char>,
) -> Seq<char> {
    "#[allow(non_snake_case)]\n#[untrusted] #[inline(never)] "@ + vis_text(vis)
        + " unsafe extern \""@ + abi + "\" fn "@ + name + "("@ + joined(param_decls(inputs), ", "@)
        + ") -> "@ + output + " {"@ + body_text(name, inputs) + "}"@
}

/// The wrapper of a function declaration found in a block with the given ABI.
pub open spec fn wrapper_of(d: ForeignItemView, abi: Seq<char>) -> ItemView
    recommends
        d.kind is Fn,
{
    let inputs = d.kind->inputs;
    let output = return_text(d.kind->output);
    ItemView {
        ident: d.ident,
        vis: wrapper_vis(d.vis),
        attrs: marker_attrs(),
        kind: ItemKindView::Fn(
            FunctionView {
                abi,
                inputs,
                output,
                source: wrapper_text(wrapper_vis(d.vis), abi, d.ident, inputs, output),
            },
        ),
    }
}

/// Every parameter is bound by one name: a word or a raw identifier.
pub open spec fn inputs_supported(inputs: Seq<ParamView>) -> bool {
    forall|i: int| 0 <= i < inputs.len() ==> simple_name((#[trigger] inputs[i]).pat)
}

/// `k` is the first parameter that is not bound by one name.
pub open spec fn first_unsupported(inputs: Seq<ParamView>, k: int) -> bool {
    &&& 0 <= k < inputs.len()
    &&& !simple_name(inputs[k].pat)
    &&& forall|j: int| 0 <= j < k ==> simple_name((#[trigger] inputs[j]).pat)
}

/// Why a declaration cannot be wrapped, if it cannot. Only functions can fail.
pub open spec fn decl_error(d: ForeignItemView) -> Option<RewriteErrorView> {
    match d.kind {
        ForeignItemKindView::Fn { inputs, .. } => {
            if inputs_supported(inputs) {
                None
            } else {
                Some(
                    RewriteErrorView::UnsupportedPattern {
                        function: d.ident,
                        index: choose|k: int| first_unsupported(inputs, k),
                    },
                )
            }
        },
        _ => None,
    }
}

/// Each parameter as `name: Type`.
pub fn param_sources(inputs: &Vec<Param>) -> (out: Vec<String>)
    ensures
        views(out@) == param_decls(views(inputs@)),
{
    let ghost ins = views(inputs@);
    let mut out: Vec<String> = Vec::new();
    let mut i: usize = 0;
    while i < inputs.len()
        invariant
            i <= inputs.len(),
            ins == views(inputs@),
            views(out@) == param_decls(ins).take(i as int),
        decreases inputs.len() - i,
    {
        let p = &inputs[i];
        let decl = p.pat.clone().concat(": ").concat(p.ty.as_str());
        proof {
            lemma_views_push(out@, decl);
            assert(param_decls(ins).take(i + 1) =~= param_decls(ins).take(i as int).push(
                ins[i as int].pat + ": "@ + ins[i as int].ty,
            ));
        }
        out.push(decl);
        i += 1;
    }
    proof {
        assert(param_decls(ins).take(i as int) =~= param_decls(ins));
    }
    out
}

/// The three attributes that every wrapper carries.
pub fn marker_attributes() -> (out: Vec<String>)
    ensures
        views(out@) == marker_attrs(),
{
    let mut out: Vec<String> = Vec::new();
    out.push(String::from_str("allow(non_snake_case)"));
    out.push(String::from_str("untrusted"));
    out.push(String::from_str("inline(never)"));
    assert(views(out@) =~= marker_attrs());
    out
}

/// Builds the wrapper of the foreign function `func`, declared in a block
/// with ABI `abi`.
///
/// The wrapper has the parameters of `func`, with the same names and types
/// in the same order; a name goes into the parameter list and into the call
/// as it is written, a raw identifier with its `r#`. The wrapper is refused
/// where a parameter is not bound by one name; the error names the first
/// such parameter.
pub fn make_wrapper(func: &ForeignItem, abi: &str) -> (out: Result<Item, RewriteError>)
    requires
        func@.kind is Fn,
    ensures
        match out {
            Ok(w) => {
                &&& decl_error(func@) is None
                &&& w@ == wrapper_of(func@, abi@)
                &&& w@.kind is Fn
                &&& w@.kind->Fn_0.inputs == func@.kind->inputs
            },
            Err(e) => decl_error(func@) == Some(e@),
        },
{
    match &func.kind {
        ForeignItemKind::Fn { inputs, output } => {
            let ghost ins = views(inputs@);
            let mut names: Vec<String> = Vec::new();
            let mut i: usize = 0;
            while i < inputs.len()
                invariant
                    i <= inputs.len(),
                    ins == views(inputs@),
                    func@.kind is Fn,
                    func@.kind->inputs == ins,
                    forall|j: int| 0 <= j < i ==> simple_name((#[trigger] ins[j]).pat),
                    views(names@) == param_names(ins).take(i as int),
                decreases inputs.len() - i,
            {
                let p = &inputs[i];
                if !is_simple_name(p.pat.as_str()) {
                    proof {
                        let c = choose|k: int| first_unsupported(ins, k);
                        assert(first_unsupported(ins, i as int));
                        assert(!simple_name(ins[i as int].pat));
                        assert(first_unsupported(ins, c));
                        assert(c == i);
                    }
                    return Err(
                        RewriteError::UnsupportedPattern { function: func.ident.clone(), index: i },
                    );
                }
                proof {
                    lemma_views_push(names@, p.pat);
                    assert(param_names(ins).take(i + 1) =~= param_names(ins).take(i as int).push(
                        ins[i as int].pat,
                    ));
                }
                names.push(p.pat.clone());
                i += 1;
            }
            proof {
                assert(param_names(ins).take(i as int) =~= param_names(ins));
                reveal_strlit(", ");
            }
            let args = join(&param_sources(inputs), ", ");
            let call_args = join(&names, ", ");
            let ret = match output {
                Some(ty) => ty.clone(),
                None => String::from_str("()"),
            };
            let public = match func.vis {
                Visibility::Public => true,
                _ => false,
            };
            let vis = if public {
                Visibility::Public
            } else {
                Visibility::Inherited
            };
            let mut source = String::from_str(
                "#[allow(non_snake_case)]\n#[untrusted] #[inline(never)] ",
            );
            source.append(if public { "pub" } else { "" });
            source.append(" unsafe extern \"");
            source.append(abi);
            source.append("\" fn ");
            source.append(func.ident.as_str());
            source.append("(");
            source.append(args.as_str());
            source.append(") -> ");
            source.append(ret.as_str());
            source.append(" {");
            let mut body = String::from_str(
                "use pkmallocator::{__untrusted_gate_enter, __untrusted_gate_exit };\n",
            );
            body.append(GATE_EXIT);
            body.append("();\nlet transparent_return_value = ");
            body.append(HIDDEN_MODULE);
            body.append("::");
            body.append(func.ident.as_str());
            body.append("(");
            body.append(call_args.as_str());
            body.append(");\n");
            body.append(GATE_ENTER);
            body.append("();\ntransparent_return_value ");
            source.append(body.as_str());
            source.append("}");
            Ok(
                Item {
                    ident: func.ident.clone(),
                    vis,
                    attrs: marker_attributes(),
                    kind: ItemKind::Fn(
                        Function {
                            abi: String::from_str(abi),
                            inputs: clone_params(inputs),
                            output: ret,
                            source,
                        },
                    ),
                },
            )
        },
        _ => unreached(),
    }
}

} // verus!
