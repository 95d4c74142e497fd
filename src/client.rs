//! The client side: the argument record, the fallible `try_` stub that
//! encodes the arguments, dispatches the call by name and decodes the result,
//! and the convenience stub that unwraps it.

use convert_case::Casing;
use vstd::prelude::*;
use vstd::string::StringExecFns;

use crate::decode::{decode_expr, decode_for, generate_try_deserialize_expr};
use crate::signature::{
    get_return_type, names_text, params_of, params_text, render_names, render_params,
    return_model, FunctionSignature, Param, ParamModel, SignatureModel,
};
use crate::text::{join_words, texts_of, words};
use crate::types::{
    all_filled, borrows, copy_type, has_reference_type, lemma_retag_tags, ref_scopes, render_type,
    retag, transform_ref_to_lifetime, type_text,
};

verus! {

/// The PascalCase form of an identifier, as convert_case computes it.
pub uninterp spec fn pascal_case_of(s: Seq<char>) -> Seq<char>;

/// Relies on convert_case's `Casing::to_case` with `Case::Pascal`: the words
/// of `s`, each capitalised, joined; the result depends on `s` alone.
#[verifier::external_body]
fn to_pascal_case(s: &String) -> (r: String)
    ensures
        r@ == pascal_case_of(s@),
{
    s.to_case(convert_case::Case::Pascal)
}

/// The scope tag shared by every untagged reference of a stub.
pub open spec fn shared_scope() -> Seq<char> {
    "'a"@
}

/// Some parameter type holds a borrowed view.
pub open spec fn needs_scope(ps: Seq<ParamModel>) -> bool {
    exists|i: int| 0 <= i < ps.len() && #[trigger] borrows(ps[i].ty)
}

/// A parameter as the stubs declare it: without attributes, and retagged
/// when `scoped`.
pub open spec fn client_param(p: ParamModel, scoped: bool) -> ParamModel {
    ParamModel {
        attributes: Seq::empty(),
        name: p.name,
        ty: if scoped {
            retag(p.ty, shared_scope())
        } else {
            p.ty
        },
    }
}

pub open spec fn client_params(ps: Seq<ParamModel>) -> Seq<ParamModel> {
    ps.map_values(|p: ParamModel| client_param(p, needs_scope(ps)))
}

/// The name of the argument record, from the PascalCase form of the
/// function's name.
pub open spec fn record_name(pascal: Seq<char>) -> Seq<char> {
    pascal + "Args"@
}

pub struct RecordModel {
    pub name: Seq<char>,
    pub scope: Option<Seq<char>>,
    pub fields: Seq<ParamModel>,
}

/// The record that carries the arguments of `sig`: none for a function
/// without parameters; otherwise one field per parameter in order, and the
/// shared scope tag when some parameter type holds a borrowed view.
pub open spec fn args_record_of(sig: SignatureModel) -> Option<RecordModel> {
    args_record_for(sig, pascal_case_of(sig.name))
}

/// The record of `sig` when the PascalCase form of its name is `pascal`.
pub open spec fn args_record_for(sig: SignatureModel, pascal: Seq<char>) -> Option<RecordModel> {
    if sig.params.len() == 0 {
        None
    } else {
        Some(
            RecordModel {
                name: record_name(pascal),
                scope: if needs_scope(sig.params) {
                    Some(shared_scope())
                } else {
                    None
                },
                fields: client_params(sig.params),
            },
        )
    }
}

/// The argument record synthesised for a function with parameters.
pub struct ArgsRecord {
    pub name: String,
    pub scope: Option<String>,
    pub fields: Vec<Param>,
}

impl View for ArgsRecord {
    type V = RecordModel;

    open spec fn view(&self) -> RecordModel {
        RecordModel {
            name: self.name@,
            scope: match self.scope {
                Some(s) => Some(s@),
                None => None,
            },
            fields: params_of(self.fields@),
        }
    }
}

pub open spec fn record_view(r: Option<ArgsRecord>) -> Option<RecordModel> {
    match r {
        Some(rec) => Some(rec@),
        None => None,
    }
}

/// A function without parameters gets no argument record; one with
/// parameters always gets one, with one field per parameter, named as the
/// parameter and in the order of declaration.
pub proof fn lemma_record_fields(sig: SignatureModel)
    ensures
        args_record_of(sig) is None <==> sig.params.len() == 0,
        sig.params.len() > 0 ==> {
            let rec = args_record_of(sig)->Some_0;
            &&& rec.fields.len() == sig.params.len()
            &&& forall|i: int| 0 <= i < sig.params.len() ==> #[trigger] rec.fields[i].name == sig.params[i].name
        },
{
}

/// When some parameter type holds a borrowed view at any depth, the record
/// and both stubs carry the one shared scope tag, and every parameter type is
/// rewritten with it: each of its references that had no tag now has the
/// shared one, and each explicit tag stays.
pub proof fn lemma_shared_scope(sig: SignatureModel)
    requires
        exists|i: int| 0 <= i < sig.params.len() && #[trigger] borrows(sig.params[i].ty),
    ensures
        args_record_of(sig) is Some,
        args_record_of(sig)->Some_0.scope == Some(shared_scope()),
        stub_scope(sig) == Some(shared_scope()),
        forall|i: int|
            0 <= i < sig.params.len() ==> {
                let field = #[trigger] args_record_of(sig)->Some_0.fields[i];
                &&& field.ty == retag(sig.params[i].ty, shared_scope())
                &&& ref_scopes(field.ty) == all_filled(ref_scopes(sig.params[i].ty), shared_scope())
            },
{
    assert forall|i: int| 0 <= i < sig.params.len() implies {
        let field = #[trigger] args_record_of(sig)->Some_0.fields[i];
        &&& field.ty == retag(sig.params[i].ty, shared_scope())
        &&& ref_scopes(field.ty) == all_filled(ref_scopes(sig.params[i].ty), shared_scope())
    } by {
        lemma_retag_tags(sig.params[i].ty, shared_scope());
    }
}

/// Whether some parameter type holds a borrowed view.
pub fn needs_shared_scope(params: &Vec<Param>) -> (r: bool)
    ensures
        r == needs_scope(params_of(params@)),
{
    let mut found = false;
    let mut i: usize = 0;
    while i < params.len()
        invariant
            i <= params.len(),
            found == exists|j: int| 0 <= j < i && #[trigger] borrows(params@[j].ty@),
        decreases params.len() - i,
    {
        let here = has_reference_type(&params[i].ty);
        found = found || here;
        i += 1;
    }
    proof {
        let ps = params_of(params@);
        if found {
            let j = choose|j: int| 0 <= j < params.len() && #[trigger] borrows(params@[j].ty@);
            assert(borrows(ps[j].ty));
        } else {
            assert forall|j: int| 0 <= j < ps.len() implies !#[trigger] borrows(ps[j].ty) by {
                assert(!borrows(params@[j].ty@));
            }
        }
    }
    found
}

/// The parameters as the stubs declare them.
fn stub_params(params: &Vec<Param>, scoped: bool) -> (r: Vec<Param>)
    ensures
        params_of(r@) == params_of(params@).map_values(|p: ParamModel| client_param(p, scoped)),
{
    let tag = String::from_str("'a");
    let mut out: Vec<Param> = Vec::new();
    let mut i: usize = 0;
    while i < params.len()
        invariant
            i <= params.len(),
            tag@ == shared_scope(),
            out@.len() == i,
            forall|j: int| 0 <= j < i ==> #[trigger] out@[j]@ == client_param(params@[j]@, scoped),
        decreases params.len() - i,
    {
        let p = &params[i];
        let ty = if scoped {
            transform_ref_to_lifetime(&p.ty, &tag)
        } else {
            copy_type(&p.ty)
        };
        let attributes: Vec<String> = Vec::new();
        assert(texts_of(attributes@) =~= Seq::empty());
        out.push(Param { attributes, name: p.name.clone(), ty });
        i += 1;
    }
    assert(params_of(out@) =~= params_of(params@).map_values(
        |p: ParamModel| client_param(p, scoped),
    ));
    out
}

/// The record that carries the arguments of `sig`, if it has parameters.
pub fn args_record(sig: &FunctionSignature) -> (r: Option<ArgsRecord>)
    ensures
        record_view(r) == args_record_of(sig@),
{
    let pascal = to_pascal_case(&sig.name);
    args_record_named(sig, &pascal)
}

/// The record that carries the arguments of `sig`, if it has parameters,
/// when the PascalCase form of its name is `pascal`.
pub fn args_record_named(sig: &FunctionSignature, pascal: &String) -> (r: Option<ArgsRecord>)
    ensures
        record_view(r) == args_record_for(sig@, pascal@),
{
    if sig.params.len() == 0 {
        None
    } else {
        let scoped = needs_shared_scope(&sig.params);
        let mut name = pascal.clone();
        name.append("Args");
        let scope = if scoped {
            Some(String::from_str("'a"))
        } else {
            None
        };
        let fields = stub_params(&sig.params, scoped);
        Some(ArgsRecord { name, scope, fields })
    }
}

/// The generic list that introduces a scope tag, if there is one.
pub open spec fn scope_generics(scope: Option<Seq<char>>) -> Seq<char> {
    match scope {
        Some(s) => "< "@ + s + " >"@,
        None => Seq::empty(),
    }
}

pub open spec fn client_cfg() -> Seq<char> {
    "# [cfg (target_arch = \"wasm32\")]"@
}

pub open spec fn record_derives() -> Seq<char> {
    "# [derive (serde :: Serialize , serde :: Deserialize)]"@
}

/// The definition of the argument record, or nothing.
pub open spec fn record_text(r: Option<RecordModel>) -> Seq<char> {
    match r {
        None => Seq::empty(),
        Some(rec) => words(
            seq![
                client_cfg(),
                record_derives(),
                "struct"@,
                rec.name,
                scope_generics(rec.scope),
                "{"@,
                params_text(rec.fields),
                "}"@,
            ],
        ),
    }
}

/// The encoded payload: the record built from the parameters, or the
/// explicit null value when there are none.
pub open spec fn payload_text(r: Option<RecordModel>) -> Seq<char> {
    match r {
        None => "& serde_json :: Value :: Null"@,
        Some(rec) => "& "@ + rec.name + " { "@ + names_text(rec.fields) + " }"@,
    }
}

/// Encoding the arguments and dispatching the call by its declared name.
pub open spec fn invoke_text(name: Seq<char>, r: Option<RecordModel>) -> Seq<char> {
    "let args = serde_wasm_bindgen :: to_value ("@ + payload_text(r)
        + ") . map_err (| e | format ! (\"Failed to serialize arguments: {}\" , e)) ? ; let result = crate :: invoke (\""@
        + name + "\" , args) . await ;"@
}

pub open spec fn stub_scope(sig: SignatureModel) -> Option<Seq<char>> {
    if needs_scope(sig.params) {
        Some(shared_scope())
    } else {
        None
    }
}

pub open spec fn ret_text(sig: SignatureModel) -> Seq<char> {
    type_text(return_model(sig.output))
}

/// The fallible stub `try_<name>`, returning `Result < T , String >`.
pub open spec fn try_fn_text(sig: SignatureModel, pascal: Seq<char>) -> Seq<char> {
    words(
        seq![
            client_cfg(),
            sig.visibility,
            "async fn"@,
            "try_"@ + sig.name,
            scope_generics(stub_scope(sig)),
            "("@ + params_text(client_params(sig.params)) + ")"@,
            "-> Result <"@,
            ret_text(sig),
            ", String > {"@,
            invoke_text(sig.name, args_record_for(sig, pascal)),
            decode_expr(decode_for(ret_text(sig))),
            "}"@,
        ],
    )
}

/// The convenience stub `<name>`, which unwraps the fallible one.
pub open spec fn call_fn_text(sig: SignatureModel) -> Seq<char> {
    words(
        seq![
            client_cfg(),
            sig.visibility,
            "async fn"@,
            sig.name,
            scope_generics(stub_scope(sig)),
            "("@ + params_text(client_params(sig.params)) + ")"@,
            "->"@,
            ret_text(sig),
            "{"@,
            "try_"@ + sig.name,
            "("@ + names_text(client_params(sig.params)) + ")"@,
            ". await . unwrap ()"@,
            "}"@,
        ],
    )
}

/// The whole client artifact of `sig`.
pub open spec fn client_text(sig: SignatureModel) -> Seq<char> {
    client_text_for(sig, pascal_case_of(sig.name))
}

/// The client artifact of `sig` when the PascalCase form of its name is
/// `pascal`.
pub open spec fn client_text_for(sig: SignatureModel, pascal: Seq<char>) -> Seq<char> {
    words(
        seq![record_text(args_record_for(sig, pascal)), try_fn_text(sig, pascal), call_fn_text(sig)],
    )
}

fn render_scope_generics(scope: &Option<String>) -> (r: String)
    ensures
        r@ == scope_generics(match scope {
            Some(s) => Some(s@),
            None => None,
        }),
{
    match scope {
        Some(s) => {
            let mut out = String::from_str("< ");
            out.append(s.as_str());
            out.append(" >");
            out
        },
        None => String::new(),
    }
}

fn render_record(r: &Option<ArgsRecord>) -> (t: String)
    ensures
        t@ == record_text(record_view(*r)),
{
    match r {
        None => String::new(),
        Some(rec) => {
            let mut ws: Vec<String> = Vec::new();
            ws.push(String::from_str("# [cfg (target_arch = \"wasm32\")]"));
            ws.push(String::from_str("# [derive (serde :: Serialize , serde :: Deserialize)]"));
            ws.push(String::from_str("struct"));
            ws.push(rec.name.clone());
            ws.push(render_scope_generics(&rec.scope));
            ws.push(String::from_str("{"));
            ws.push(render_params(&rec.fields));
            ws.push(String::from_str("}"));
            let t = join_words(&ws);
            assert(texts_of(ws@) =~= seq![
                client_cfg(),
                record_derives(),
                "struct"@,
                rec@.name,
                scope_generics(rec@.scope),
                "{"@,
                params_text(rec@.fields),
                "}"@,
            ]);
            t
        },
    }
}

fn render_invoke(name: &String, r: &Option<ArgsRecord>) -> (t: String)
    ensures
        t@ == invoke_text(name@, record_view(*r)),
{
    let mut out = String::from_str("let args = serde_wasm_bindgen :: to_value (");
    match r {
        None => out.append("& serde_json :: Value :: Null"),
        Some(rec) => {
            out.append("& ");
            out.append(rec.name.as_str());
            out.append(" { ");
            let names = render_names(&rec.fields);
            out.append(names.as_str());
            out.append(" }");
        },
    }
    out.append(") . map_err (| e | format ! (\"Failed to serialize arguments: {}\" , e)) ? ; let result = crate :: invoke (\"");
    out.append(name.as_str());
    out.append("\" , args) . await ;");
    assert(out@ =~= invoke_text(name@, record_view(*r)));
    out
}

/// The client artifact of `sig`: the argument record (when it has
/// parameters), the fallible `try_` stub and the convenience stub.
pub fn generate_client(sig: &FunctionSignature) -> (r: String)
    ensures
        r@ == client_text(sig@),
{
    let pascal = to_pascal_case(&sig.name);
    generate_client_named(sig, &pascal)
}

/// The client artifact of `sig` when the PascalCase form of its name is
/// `pascal`.
pub fn generate_client_named(sig: &FunctionSignature, pascal: &String) -> (r: String)
    ensures
        r@ == client_text_for(sig@, pascal@),
{
    let record = args_record_named(sig, pascal);
    let scoped = needs_shared_scope(&sig.params);
    let params = stub_params(&sig.params, scoped);
    let scope = if scoped {
        Some(String::from_str("'a"))
    } else {
        None
    };
    let generics = render_scope_generics(&scope);
    let param_list = render_params(&params);
    let name_list = render_names(&params);
    let ret = render_type(&get_return_type(sig));
    let mut try_name = String::from_str("try_");
    try_name.append(sig.name.as_str());
    let mut open_params = String::from_str("(");
    open_params.append(param_list.as_str());
    open_params.append(")");
    let mut call_args = String::from_str("(");
    call_args.append(name_list.as_str());
    call_args.append(")");
    proof {
        assert(params_of(params@) =~= client_params(sig@.params));
    }

    let mut try_ws: Vec<String> = Vec::new();
    try_ws.push(String::from_str("# [cfg (target_arch = \"wasm32\")]"));
    try_ws.push(sig.visibility.clone());
    try_ws.push(String::from_str("async fn"));
    try_ws.push(try_name.clone());
    try_ws.push(generics.clone());
    try_ws.push(open_params.clone());
    try_ws.push(String::from_str("-> Result <"));
    try_ws.push(ret.clone());
    try_ws.push(String::from_str(", String > {"));
    try_ws.push(render_invoke(&sig.name, &record));
    try_ws.push(generate_try_deserialize_expr(&ret));
    try_ws.push(String::from_str("}"));
    let try_fn = join_words(&try_ws);
    assert(texts_of(try_ws@) =~= seq![
        client_cfg(),
        sig@.visibility,
        "async fn"@,
        "try_"@ + sig@.name,
        scope_generics(stub_scope(sig@)),
        "("@ + params_text(client_params(sig@.params)) + ")"@,
        "-> Result <"@,
        ret_text(sig@),
        ", String > {"@,
        invoke_text(sig@.name, args_record_for(sig@, pascal@)),
        decode_expr(decode_for(ret_text(sig@))),
        "}"@,
    ]);

    let mut call_ws: Vec<String> = Vec::new();
    call_ws.push(String::from_str("# [cfg (target_arch = \"wasm32\")]"));
    call_ws.push(sig.visibility.clone());
    call_ws.push(String::from_str("async fn"));
    call_ws.push(sig.name.clone());
    call_ws.push(generics);
    call_ws.push(open_params);
    call_ws.push(String::from_str("->"));
    call_ws.push(ret);
    call_ws.push(String::from_str("{"));
    call_ws.push(try_name);
    call_ws.push(call_args);
    call_ws.push(String::from_str(". await . unwrap ()"));
    call_ws.push(String::from_str("}"));
    let call_fn = join_words(&call_ws);
    assert(texts_of(call_ws@) =~= seq![
        client_cfg(),
        sig@.visibility,
        "async fn"@,
        sig@.name,
        scope_generics(stub_scope(sig@)),
        "("@ + params_text(client_params(sig@.params)) + ")"@,
        "->"@,
        ret_text(sig@),
        "{"@,
        "try_"@ + sig@.name,
        "("@ + names_text(client_params(sig@.params)) + ")"@,
        ". await . unwrap ()"@,
        "}"@,
    ]);

    let mut all: Vec<String> = Vec::new();
    all.push(render_record(&record));
    all.push(try_fn);
    all.push(call_fn);
    let out = join_words(&all);
    assert(texts_of(all@) =~= seq![
        record_text(args_record_for(sig@, pascal@)),
        try_fn_text(sig@, pascal@),
        call_fn_text(sig@),
    ]);
    out
}

} // verus!
