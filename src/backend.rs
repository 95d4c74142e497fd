//! The server side: the function re-emitted unchanged as a command, inside a
//! module of its own so that only the command's name reaches the enclosing
//! scope.

use vstd::prelude::*;
use vstd::string::StringExecFns;

use crate::client::{client_text, generate_client};
use crate::signature::{inputs_text, render_inputs, FunctionItem, ItemModel};
use crate::text::{join_words, texts_of, words};
use crate::types::{render_type, type_text, TypeModel};

verus! {

pub open spec fn backend_cfg() -> Seq<char> {
    "# [cfg (all (feature = \"backend\" , not (target_arch = \"wasm32\")))]"@
}

/// The module that isolates the command of function `name`.
pub open spec fn module_name(name: Seq<char>) -> Seq<char> {
    "__tauri_cmd_"@ + name
}

pub open spec fn async_word(is_async: bool) -> Seq<char> {
    if is_async {
        "async"@
    } else {
        Seq::empty()
    }
}

/// The return arrow and type, or nothing.
pub open spec fn output_text(output: Option<TypeModel>) -> Seq<char> {
    match output {
        Some(t) => "-> "@ + type_text(t),
        None => Seq::empty(),
    }
}

/// The server artifact: the attributes of the function, the command
/// attribute and the function with its own visibility, asyncness, generics,
/// parameters (with their attributes), return type, `where` clause and body,
/// in a module of its own; then a `use` that brings the function's name out of that module.
pub open spec fn backend_text(item: ItemModel) -> Seq<char> {
    let sig = item.signature;
    words(
        seq![
            backend_cfg(),
            "mod"@,
            module_name(sig.name),
            "{ use super :: * ;"@,
            words(sig.metadata),
            "# [tauri :: command]"@,
            sig.visibility,
            async_word(sig.is_async),
            "fn"@,
            sig.name,
            item.generics,
            "("@ + inputs_text(sig.params) + ")"@,
            output_text(sig.output),
            item.where_clause,
            item.body,
            "}"@,
            backend_cfg(),
            sig.visibility,
            "use"@,
            module_name(sig.name) + " :: "@ + sig.name,
            ";"@,
        ],
    )
}

/// The server artifact of `item`.
pub fn generate_backend(item: &FunctionItem) -> (r: String)
    ensures
        r@ == backend_text(item@),
{
    let sig = &item.signature;
    let mut module = String::from_str("__tauri_cmd_");
    module.append(sig.name.as_str());
    let mut params = String::from_str("(");
    let list = render_inputs(&sig.params);
    params.append(list.as_str());
    params.append(")");
    let output = match &sig.output {
        Some(t) => {
            let mut out = String::from_str("-> ");
            let text = render_type(t);
            out.append(text.as_str());
            out
        },
        None => String::new(),
    };
    let mut exported = module.clone();
    exported.append(" :: ");
    exported.append(sig.name.as_str());

    let mut ws: Vec<String> = Vec::new();
    ws.push(String::from_str("# [cfg (all (feature = \"backend\" , not (target_arch = \"wasm32\")))]"));
    ws.push(String::from_str("mod"));
    ws.push(module.clone());
    ws.push(String::from_str("{ use super :: * ;"));
    ws.push(join_words(&sig.metadata));
    ws.push(String::from_str("# [tauri :: command]"));
    ws.push(sig.visibility.clone());
    ws.push(if sig.is_async {
        String::from_str("async")
    } else {
        String::new()
    });
    ws.push(String::from_str("fn"));
    ws.push(sig.name.clone());
    ws.push(item.generics.clone());
    ws.push(params);
    ws.push(output);
    ws.push(item.where_clause.clone());
    ws.push(item.body.clone());
    ws.push(String::from_str("}"));
    ws.push(String::from_str("# [cfg (all (feature = \"backend\" , not (target_arch = \"wasm32\")))]"));
    ws.push(sig.visibility.clone());
    ws.push(String::from_str("use"));
    ws.push(exported);
    ws.push(String::from_str(";"));
    let r = join_words(&ws);
    assert(texts_of(ws@) =~= seq![
        backend_cfg(),
        "mod"@,
        module_name(sig@.name),
        "{ use super :: * ;"@,
        words(sig@.metadata),
        "# [tauri :: command]"@,
        sig@.visibility,
        async_word(sig@.is_async),
        "fn"@,
        sig@.name,
        item@.generics,
        "("@ + inputs_text(sig@.params) + ")"@,
        output_text(sig@.output),
        item@.where_clause,
        item@.body,
        "}"@,
        backend_cfg(),
        sig@.visibility,
        "use"@,
        module_name(sig@.name) + " :: "@ + sig@.name,
        ";"@,
    ]);
    r
}

/// Both artifacts of `item`: the server command, then the client stubs.
pub fn tauri_bridge(item: &FunctionItem) -> (r: String)
    ensures
        r@ == words(seq![backend_text(item@), client_text(item@.signature)]),
{
    let mut ws: Vec<String> = Vec::new();
    ws.push(generate_backend(item));
    ws.push(generate_client(&item.signature));
    let r = join_words(&ws);
    assert(texts_of(ws@) =~= seq![backend_text(item@), client_text(item@.signature)]);
    r
}

} // verus!
