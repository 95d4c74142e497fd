//! The declaration of one bridged function, as the generator receives it.

use vstd::prelude::*;

use vstd::string::StringExecFns;

use crate::text::{join, join_with, join_words, push_word, spaced, texts_of, words};
use crate::types::{copy_type, render_type, type_text, TypeDescriptor, TypeModel};

verus! {

/// One parameter: the attributes written on it (each as token text), its
/// name and its declared type.
pub struct Param {
    pub attributes: Vec<String>,
    pub name: String,
    pub ty: TypeDescriptor,
}

pub struct ParamModel {
    pub attributes: Seq<Seq<char>>,
    pub name: Seq<char>,
    pub ty: TypeModel,
}

impl View for Param {
    type V = ParamModel;

    open spec fn view(&self) -> ParamModel {
        ParamModel { attributes: texts_of(self.attributes@), name: self.name@, ty: self.ty@ }
    }
}

pub open spec fn params_of(ps: Seq<Param>) -> Seq<ParamModel> {
    ps.map_values(|p: Param| p@)
}

/// The declaration of a function: its name, visibility (as token text, empty
/// when private), whether it is `async`, its parameters in order, its return
/// type (`None` when it returns nothing) and the attributes written above it,
/// each as token text.
pub struct FunctionSignature {
    pub name: String,
    pub visibility: String,
    pub is_async: bool,
    pub params: Vec<Param>,
    pub output: Option<TypeDescriptor>,
    pub metadata: Vec<String>,
}

pub struct SignatureModel {
    pub name: Seq<char>,
    pub visibility: Seq<char>,
    pub is_async: bool,
    pub params: Seq<ParamModel>,
    pub output: Option<TypeModel>,
    pub metadata: Seq<Seq<char>>,
}

impl View for FunctionSignature {
    type V = SignatureModel;

    open spec fn view(&self) -> SignatureModel {
        SignatureModel {
            name: self.name@,
            visibility: self.visibility@,
            is_async: self.is_async,
            params: params_of(self.params@),
            output: match self.output {
                Some(t) => Some(t@),
                None => None,
            },
            metadata: texts_of(self.metadata@),
        }
    }
}

/// A whole function: its declaration, and the token text of its generic
/// parameters, its `where` clause and its body, each empty when absent.
pub struct FunctionItem {
    pub signature: FunctionSignature,
    pub generics: String,
    pub where_clause: String,
    pub body: String,
}

pub struct ItemModel {
    pub signature: SignatureModel,
    pub generics: Seq<char>,
    pub where_clause: Seq<char>,
    pub body: Seq<char>,
}

impl View for FunctionItem {
    type V = ItemModel;

    open spec fn view(&self) -> ItemModel {
        ItemModel {
            signature: self.signature@,
            generics: self.generics@,
            where_clause: self.where_clause@,
            body: self.body@,
        }
    }
}

/// The unit type `()`, which stands for "no value".
pub open spec fn unit_model() -> TypeModel {
    TypeModel::Tuple { elems: Seq::empty() }
}

/// The declared return type, or `()` when there is none.
pub open spec fn return_model(output: Option<TypeModel>) -> TypeModel {
    match output {
        Some(t) => t,
        None => unit_model(),
    }
}

/// The return type of `sig`, with `()` for a function that returns nothing.
pub fn get_return_type(sig: &FunctionSignature) -> (r: TypeDescriptor)
    ensures
        r@ == return_model(sig@.output),
{
    match &sig.output {
        Some(t) => copy_type(t),
        None => {
            let r = TypeDescriptor::Tuple { elems: Vec::new() };
            assert(r@ == unit_model()) by {
                assert(crate::types::models_of(Seq::<TypeDescriptor>::empty()) =~= Seq::empty());
            }
            r
        },
    }
}

/// `name : type` for one parameter.
pub open spec fn param_text(p: ParamModel) -> Seq<char> {
    p.name + " : "@ + type_text(p.ty)
}

/// A parameter list or a record's fields: `a : i32 , b : & 'a str`.
pub open spec fn params_text(ps: Seq<ParamModel>) -> Seq<char> {
    join(ps.map_values(|p: ParamModel| param_text(p)), " , "@)
}

/// One parameter as declared: its attributes, then `name : type`.
pub open spec fn input_text(p: ParamModel) -> Seq<char> {
    spaced(words(p.attributes), param_text(p))
}

/// The parameter list as declared, attributes included.
pub open spec fn inputs_text(ps: Seq<ParamModel>) -> Seq<char> {
    join(ps.map_values(|p: ParamModel| input_text(p)), " , "@)
}

/// The parameter names, as arguments of a call or in a record literal.
pub open spec fn names_text(ps: Seq<ParamModel>) -> Seq<char> {
    join(ps.map_values(|p: ParamModel| p.name), " , "@)
}

/// The token text of a parameter list.
pub fn render_params(ps: &Vec<Param>) -> (r: String)
    ensures
        r@ == params_text(params_of(ps@)),
{
    let mut parts: Vec<String> = Vec::new();
    let mut i: usize = 0;
    while i < ps.len()
        invariant
            i <= ps.len(),
            parts@.len() == i,
            forall|j: int| 0 <= j < i ==> #[trigger] parts@[j]@ == param_text(ps@[j]@),
        decreases ps.len() - i,
    {
        let mut part = ps[i].name.clone();
        part.append(" : ");
        let ty = render_type(&ps[i].ty);
        part.append(ty.as_str());
        parts.push(part);
        i += 1;
    }
    assert(texts_of(parts@) =~= params_of(ps@).map_values(|p: ParamModel| param_text(p)));
    join_with(&parts, " , ")
}

/// The token text of the parameter list as declared, attributes included.
pub fn render_inputs(ps: &Vec<Param>) -> (r: String)
    ensures
        r@ == inputs_text(params_of(ps@)),
{
    let mut parts: Vec<String> = Vec::new();
    let mut i: usize = 0;
    while i < ps.len()
        invariant
            i <= ps.len(),
            parts@.len() == i,
            forall|j: int| 0 <= j < i ==> #[trigger] parts@[j]@ == input_text(ps@[j]@),
        decreases ps.len() - i,
    {
        let mut part = join_words(&ps[i].attributes);
        let mut declared = ps[i].name.clone();
        declared.append(" : ");
        let ty = render_type(&ps[i].ty);
        declared.append(ty.as_str());
        push_word(&mut part, declared.as_str());
        parts.push(part);
        i += 1;
    }
    assert(texts_of(parts@) =~= params_of(ps@).map_values(|p: ParamModel| input_text(p)));
    join_with(&parts, " , ")
}

/// The parameter names, separated by commas.
pub fn render_names(ps: &Vec<Param>) -> (r: String)
    ensures
        r@ == names_text(params_of(ps@)),
{
    let mut parts: Vec<String> = Vec::new();
    let mut i: usize = 0;
    while i < ps.len()
        invariant
            i <= ps.len(),
            parts@.len() == i,
            forall|j: int| 0 <= j < i ==> #[trigger] parts@[j]@ == ps@[j].name@,
        decreases ps.len() - i,
    {
        parts.push(ps[i].name.clone());
        i += 1;
    }
    assert(texts_of(parts@) =~= params_of(ps@).map_values(|p: ParamModel| p.name));
    join_with(&parts, " , ")
}

} // verus!
