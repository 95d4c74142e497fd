//! The type tree of a parameter or return type, and the queries over it:
//! whether it holds a borrowed view anywhere, and the rewrite that gives every
//! untagged borrowed view one shared scope tag.

use vstd::prelude::*;

use vstd::string::StringExecFns;

use crate::text::{join, join_with, texts_of};

verus! {

/// Mathematical model of a type descriptor.
pub enum TypeModel {
    /// A reference; `scope` is its explicit scope tag, if it carries one.
    Reference { mutable: bool, scope: Option<Seq<char>>, inner: Box<TypeModel> },
    /// A path such as `std :: vec :: Vec`, with the generic arguments of its
    /// last segment (none when `args` is empty).
    Named { path: Seq<Seq<char>>, args: Seq<TypeModel> },
    Tuple { elems: Seq<TypeModel> },
    Array { elem: Box<TypeModel>, len: Seq<char> },
    Slice { elem: Box<TypeModel> },
    Paren { inner: Box<TypeModel> },
    /// Any other shape, kept as its token text.
    Other { text: Seq<char> },
}

/// A type as it stands in a function declaration.
pub enum TypeDescriptor {
    Reference { mutable: bool, scope: Option<String>, inner: Box<TypeDescriptor> },
    Named { path: Vec<String>, args: Vec<TypeDescriptor> },
    Tuple { elems: Vec<TypeDescriptor> },
    Array { elem: Box<TypeDescriptor>, len: String },
    Slice { elem: Box<TypeDescriptor> },
    Paren { inner: Box<TypeDescriptor> },
    Other { text: String },
}

pub open spec fn opt_text(o: Option<String>) -> Option<Seq<char>> {
    match o {
        Some(s) => Some(s@),
        None => None,
    }
}

pub open spec fn model_of(t: TypeDescriptor) -> TypeModel
    decreases t,
{
    match t {
        TypeDescriptor::Reference { mutable, scope, inner } => TypeModel::Reference {
            mutable,
            scope: opt_text(scope),
            inner: Box::new(model_of(*inner)),
        },
        TypeDescriptor::Named { path, args } => TypeModel::Named {
            path: texts_of(path@),
            args: models_of(args@),
        },
        TypeDescriptor::Tuple { elems } => TypeModel::Tuple { elems: models_of(elems@) },
        TypeDescriptor::Array { elem, len } => TypeModel::Array {
            elem: Box::new(model_of(*elem)),
            len: len@,
        },
        TypeDescriptor::Slice { elem } => TypeModel::Slice { elem: Box::new(model_of(*elem)) },
        TypeDescriptor::Paren { inner } => TypeModel::Paren { inner: Box::new(model_of(*inner)) },
        TypeDescriptor::Other { text } => TypeModel::Other { text: text@ },
    }
}

pub open spec fn models_of(s: Seq<TypeDescriptor>) -> Seq<TypeModel>
    decreases s,
{
    if s.len() == 0 {
        Seq::empty()
    } else {
        models_of(s.take(s.len() - 1)).push(model_of(s.last()))
    }
}

impl View for TypeDescriptor {
    type V = TypeModel;

    open spec fn view(&self) -> TypeModel {
        model_of(*self)
    }
}

/// A borrowed view occurs in `t`, or in a type reachable from it through
/// generic arguments, tuple elements, array or slice elements, or parentheses.
pub open spec fn borrows(t: TypeModel) -> bool
    decreases t,
{
    match t {
        TypeModel::Reference { .. } => true,
        TypeModel::Named { args, .. } => any_borrows(args),
        TypeModel::Tuple { elems } => any_borrows(elems),
        TypeModel::Array { elem, .. } => borrows(*elem),
        TypeModel::Slice { elem } => borrows(*elem),
        TypeModel::Paren { inner } => borrows(*inner),
        TypeModel::Other { .. } => false,
    }
}

pub open spec fn any_borrows(ts: Seq<TypeModel>) -> bool
    decreases ts,
{
    if ts.len() == 0 {
        false
    } else {
        any_borrows(ts.take(ts.len() - 1)) || borrows(ts.last())
    }
}

/// `t` with every reference that carries no scope tag given `tag`; tags
/// already present are kept, and the walk goes on below every reference.
pub open spec fn retag(t: TypeModel, tag: Seq<char>) -> TypeModel
    decreases t,
{
    match t {
        TypeModel::Reference { mutable, scope, inner } => TypeModel::Reference {
            mutable,
            scope: match scope {
                Some(s) => Some(s),
                None => Some(tag),
            },
            inner: Box::new(retag(*inner, tag)),
        },
        TypeModel::Named { path, args } => TypeModel::Named { path, args: retag_all(args, tag) },
        TypeModel::Tuple { elems } => TypeModel::Tuple { elems: retag_all(elems, tag) },
        TypeModel::Array { elem, len } => TypeModel::Array { elem: Box::new(retag(*elem, tag)), len },
        TypeModel::Slice { elem } => TypeModel::Slice { elem: Box::new(retag(*elem, tag)) },
        TypeModel::Paren { inner } => TypeModel::Paren { inner: Box::new(retag(*inner, tag)) },
        TypeModel::Other { text } => TypeModel::Other { text },
    }
}

pub open spec fn retag_all(ts: Seq<TypeModel>, tag: Seq<char>) -> Seq<TypeModel>
    decreases ts,
{
    if ts.len() == 0 {
        Seq::empty()
    } else {
        retag_all(ts.take(ts.len() - 1), tag).push(retag(ts.last(), tag))
    }
}

pub open spec fn scope_text(scope: Option<Seq<char>>) -> Seq<char> {
    match scope {
        Some(s) => " "@ + s,
        None => Seq::empty(),
    }
}

pub open spec fn mut_text(mutable: bool) -> Seq<char> {
    if mutable {
        " mut"@
    } else {
        Seq::empty()
    }
}

/// The generic argument list after a path: nothing, or ` < A , B >`.
pub open spec fn args_text(arg_texts: Seq<Seq<char>>) -> Seq<char> {
    if arg_texts.len() == 0 {
        Seq::empty()
    } else {
        " < "@ + join(arg_texts, " , "@) + " >"@
    }
}

pub open spec fn tuple_close(n: nat) -> Seq<char> {
    if n == 1 {
        " ,)"@
    } else {
        ")"@
    }
}

/// The token text of a type, one space between tokens as a token stream
/// prints them (`& 'a mut str`, `Vec < & 'a str >`, `[u8 ; 4]`).
pub open spec fn type_text(t: TypeModel) -> Seq<char>
    decreases t,
{
    match t {
        TypeModel::Reference { mutable, scope, inner } => "&"@ + scope_text(scope) + mut_text(mutable)
            + " "@ + type_text(*inner),
        TypeModel::Named { path, args } => join(path, " :: "@) + args_text(type_texts(args)),
        TypeModel::Tuple { elems } => "("@ + join(type_texts(elems), " , "@) + tuple_close(elems.len()),
        TypeModel::Array { elem, len } => "["@ + type_text(*elem) + " ; "@ + len + "]"@,
        TypeModel::Slice { elem } => "["@ + type_text(*elem) + "]"@,
        TypeModel::Paren { inner } => "("@ + type_text(*inner) + ")"@,
        TypeModel::Other { text } => text,
    }
}

pub open spec fn type_texts(ts: Seq<TypeModel>) -> Seq<Seq<char>>
    decreases ts,
{
    if ts.len() == 0 {
        Seq::empty()
    } else {
        type_texts(ts.take(ts.len() - 1)).push(type_text(ts.last()))
    }
}

/// The scope tags of the references in `t`, in pre-order (`None` for a
/// reference that carries none).
pub open spec fn ref_scopes(t: TypeModel) -> Seq<Option<Seq<char>>>
    decreases t,
{
    match t {
        TypeModel::Reference { scope, inner, .. } => seq![scope] + ref_scopes(*inner),
        TypeModel::Named { args, .. } => ref_scopes_all(args),
        TypeModel::Tuple { elems } => ref_scopes_all(elems),
        TypeModel::Array { elem, .. } => ref_scopes(*elem),
        TypeModel::Slice { elem } => ref_scopes(*elem),
        TypeModel::Paren { inner } => ref_scopes(*inner),
        TypeModel::Other { .. } => Seq::empty(),
    }
}

pub open spec fn ref_scopes_all(ts: Seq<TypeModel>) -> Seq<Option<Seq<char>>>
    decreases ts,
{
    if ts.len() == 0 {
        Seq::empty()
    } else {
        ref_scopes_all(ts.take(ts.len() - 1)) + ref_scopes(ts.last())
    }
}

/// A scope tag after the rewrite: an explicit one kept, a missing one `tag`.
pub open spec fn filled(scope: Option<Seq<char>>, tag: Seq<char>) -> Option<Seq<char>> {
    match scope {
        Some(s) => Some(s),
        None => Some(tag),
    }
}

pub open spec fn all_filled(scopes: Seq<Option<Seq<char>>>, tag: Seq<char>) -> Seq<
    Option<Seq<char>>,
> {
    scopes.map_values(|o: Option<Seq<char>>| filled(o, tag))
}

/// The shape of `t` with every scope tag dropped.
pub open spec fn shape(t: TypeModel) -> TypeModel
    decreases t,
{
    match t {
        TypeModel::Reference { mutable, inner, .. } => TypeModel::Reference {
            mutable,
            scope: None,
            inner: Box::new(shape(*inner)),
        },
        TypeModel::Named { path, args } => TypeModel::Named { path, args: shapes(args) },
        TypeModel::Tuple { elems } => TypeModel::Tuple { elems: shapes(elems) },
        TypeModel::Array { elem, len } => TypeModel::Array { elem: Box::new(shape(*elem)), len },
        TypeModel::Slice { elem } => TypeModel::Slice { elem: Box::new(shape(*elem)) },
        TypeModel::Paren { inner } => TypeModel::Paren { inner: Box::new(shape(*inner)) },
        TypeModel::Other { text } => TypeModel::Other { text },
    }
}

pub open spec fn shapes(ts: Seq<TypeModel>) -> Seq<TypeModel>
    decreases ts,
{
    if ts.len() == 0 {
        Seq::empty()
    } else {
        shapes(ts.take(ts.len() - 1)).push(shape(ts.last()))
    }
}

proof fn lemma_retag_all_parts(ts: Seq<TypeModel>, tag: Seq<char>)
    requires
        ts.len() > 0,
    ensures
        retag_all(ts, tag).take(ts.len() - 1) == retag_all(ts.take(ts.len() - 1), tag),
        retag_all(ts, tag).last() == retag(ts.last(), tag),
        retag_all(ts, tag).len() == ts.len(),
    decreases ts.len(),
{
    lemma_retag_all_len(ts.take(ts.len() - 1), tag);
    lemma_push_take(retag_all(ts.take(ts.len() - 1), tag), retag(ts.last(), tag));
}

proof fn lemma_retag_all_len(ts: Seq<TypeModel>, tag: Seq<char>)
    ensures
        retag_all(ts, tag).len() == ts.len(),
    decreases ts.len(),
{
    if ts.len() > 0 {
        lemma_retag_all_len(ts.take(ts.len() - 1), tag);
    }
}

/// Rewriting with `tag` fills every missing scope tag with `tag` and keeps
/// every explicit one, reference by reference in order; it keeps the shape
/// of the type and whether it holds a borrowed view; and rewriting the
/// result again with the same tag changes nothing.
pub proof fn lemma_retag_tags(t: TypeModel, tag: Seq<char>)
    ensures
        ref_scopes(retag(t, tag)) == all_filled(ref_scopes(t), tag),
        shape(retag(t, tag)) == shape(t),
        borrows(retag(t, tag)) == borrows(t),
        retag(retag(t, tag), tag) == retag(t, tag),
    decreases t,
{
    match t {
        TypeModel::Reference { mutable, scope, inner } => {
            lemma_retag_tags(*inner, tag);
            assert(all_filled(ref_scopes(t), tag) =~= seq![filled(scope, tag)] + all_filled(
                ref_scopes(*inner),
                tag,
            ));
        },
        TypeModel::Named { path, args } => {
            lemma_retag_all_tags(args, tag);
        },
        TypeModel::Tuple { elems } => {
            lemma_retag_all_tags(elems, tag);
        },
        TypeModel::Array { elem, len } => {
            lemma_retag_tags(*elem, tag);
        },
        TypeModel::Slice { elem } => {
            lemma_retag_tags(*elem, tag);
        },
        TypeModel::Paren { inner } => {
            lemma_retag_tags(*inner, tag);
        },
        TypeModel::Other { .. } => {},
    }
}

/// The laws of `lemma_retag_tags`, for a list of types.
pub proof fn lemma_retag_all_tags(ts: Seq<TypeModel>, tag: Seq<char>)
    ensures
        ref_scopes_all(retag_all(ts, tag)) == all_filled(ref_scopes_all(ts), tag),
        shapes(retag_all(ts, tag)) == shapes(ts),
        any_borrows(retag_all(ts, tag)) == any_borrows(ts),
        retag_all(retag_all(ts, tag), tag) == retag_all(ts, tag),
    decreases ts,
{
    if ts.len() > 0 {
        let init = ts.take(ts.len() - 1);
        let r = retag_all(ts, tag);
        lemma_retag_all_tags(init, tag);
        lemma_retag_tags(ts.last(), tag);
        lemma_retag_all_parts(ts, tag);
        lemma_retag_all_parts(r, tag);
        assert(all_filled(ref_scopes_all(ts), tag) =~= all_filled(ref_scopes_all(init), tag)
            + all_filled(ref_scopes(ts.last()), tag));
    }
}

/// A type that holds no borrowed view has no reference at any depth, and
/// rewriting it changes nothing.
pub proof fn lemma_retag_without_borrows(t: TypeModel, tag: Seq<char>)
    ensures
        borrows(t) == (ref_scopes(t).len() > 0),
        !borrows(t) ==> retag(t, tag) == t,
    decreases t,
{
    match t {
        TypeModel::Reference { inner, .. } => {},
        TypeModel::Named { args, .. } => {
            lemma_retag_all_without_borrows(args, tag);
        },
        TypeModel::Tuple { elems } => {
            lemma_retag_all_without_borrows(elems, tag);
        },
        TypeModel::Array { elem, .. } => {
            lemma_retag_without_borrows(*elem, tag);
        },
        TypeModel::Slice { elem } => {
            lemma_retag_without_borrows(*elem, tag);
        },
        TypeModel::Paren { inner } => {
            lemma_retag_without_borrows(*inner, tag);
        },
        TypeModel::Other { .. } => {},
    }
}

/// The laws of `lemma_retag_without_borrows`, for a list of types.
pub proof fn lemma_retag_all_without_borrows(ts: Seq<TypeModel>, tag: Seq<char>)
    ensures
        any_borrows(ts) == (ref_scopes_all(ts).len() > 0),
        !any_borrows(ts) ==> retag_all(ts, tag) == ts,
    decreases ts,
{
    if ts.len() > 0 {
        let init = ts.take(ts.len() - 1);
        lemma_retag_all_without_borrows(init, tag);
        lemma_retag_without_borrows(ts.last(), tag);
        if !any_borrows(ts) {
            assert(retag_all(ts, tag) =~= ts);
        }
    }
}

proof fn lemma_models_step(s: Seq<TypeDescriptor>, i: int)
    requires
        0 <= i < s.len(),
    ensures
        models_of(s.take(i + 1)) == models_of(s.take(i)).push(model_of(s[i])),
{
    assert(s.take(i + 1).take(i) =~= s.take(i));
}

pub proof fn lemma_push_take<A>(s: Seq<A>, x: A)
    ensures
        s.push(x).take(s.len() as int) == s,
        s.push(x).last() == x,
        s.push(x).len() == s.len() + 1,
{
    assert(s.push(x).take(s.len() as int) =~= s);
}

/// Whether `ty` holds a borrowed view at any depth.
pub fn has_reference_type(ty: &TypeDescriptor) -> (r: bool)
    ensures
        r == borrows(ty@),
    decreases ty,
{
    match ty {
        TypeDescriptor::Reference { .. } => true,
        TypeDescriptor::Named { args, .. } => any_reference_type(args),
        TypeDescriptor::Tuple { elems } => any_reference_type(elems),
        TypeDescriptor::Array { elem, .. } => has_reference_type(elem),
        TypeDescriptor::Slice { elem } => has_reference_type(elem),
        TypeDescriptor::Paren { inner } => has_reference_type(inner),
        TypeDescriptor::Other { .. } => false,
    }
}

fn any_reference_type(ts: &Vec<TypeDescriptor>) -> (r: bool)
    ensures
        r == any_borrows(models_of(ts@)),
    decreases ts,
{
    let mut found = false;
    let mut i: usize = 0;
    while i < ts.len()
        invariant
            i <= ts.len(),
            found == any_borrows(models_of(ts@.take(i as int))),
        decreases ts.len() - i,
    {
        proof {
            lemma_models_step(ts@, i as int);
            lemma_push_take(models_of(ts@.take(i as int)), model_of(ts@[i as int]));
        }
        let here = has_reference_type(&ts[i]);
        found = found || here;
        i += 1;
    }
    assert(ts@.take(ts.len() as int) =~= ts@);
    found
}

proof fn lemma_models_push(s: Seq<TypeDescriptor>, x: TypeDescriptor)
    ensures
        models_of(s.push(x)) == models_of(s).push(model_of(x)),
        models_of(s).len() == s.len(),
    decreases s.len(),
{
    lemma_push_take(s, x);
    if s.len() > 0 {
        lemma_models_push(s.take(s.len() - 1), s.last());
        assert(s.take(s.len() - 1).push(s.last()) =~= s);
    }
}

fn clone_texts(v: &Vec<String>) -> (r: Vec<String>)
    ensures
        texts_of(r@) == texts_of(v@),
{
    let mut out: Vec<String> = Vec::new();
    let mut i: usize = 0;
    while i < v.len()
        invariant
            i <= v.len(),
            texts_of(out@) =~= texts_of(v@.take(i as int)),
        decreases v.len() - i,
    {
        let ghost before = out@;
        out.push(v[i].clone());
        assert(texts_of(out@) =~= texts_of(before).push(v@[i as int]@));
        assert(texts_of(v@.take(i + 1)) =~= texts_of(v@.take(i as int)).push(v@[i as int]@));
        i += 1;
    }
    assert(v@.take(v.len() as int) =~= v@);
    out
}

/// `ty` with every reference that carries no scope tag given `tag`, at every
/// depth; references that already carry a tag keep it.
pub fn transform_ref_to_lifetime(ty: &TypeDescriptor, tag: &String) -> (r: TypeDescriptor)
    ensures
        r@ == retag(ty@, tag@),
    decreases ty,
{
    match ty {
        TypeDescriptor::Reference { mutable, scope, inner } => {
            let kept = match scope {
                Some(s) => s.clone(),
                None => tag.clone(),
            };
            let inner = transform_ref_to_lifetime(inner, tag);
            TypeDescriptor::Reference { mutable: *mutable, scope: Some(kept), inner: Box::new(inner) }
        },
        TypeDescriptor::Named { path, args } => {
            TypeDescriptor::Named { path: clone_texts(path), args: transform_all(args, tag) }
        },
        TypeDescriptor::Tuple { elems } => TypeDescriptor::Tuple { elems: transform_all(elems, tag) },
        TypeDescriptor::Array { elem, len } => {
            let elem = transform_ref_to_lifetime(elem, tag);
            TypeDescriptor::Array { elem: Box::new(elem), len: len.clone() }
        },
        TypeDescriptor::Slice { elem } => {
            let elem = transform_ref_to_lifetime(elem, tag);
            TypeDescriptor::Slice { elem: Box::new(elem) }
        },
        TypeDescriptor::Paren { inner } => {
            let inner = transform_ref_to_lifetime(inner, tag);
            TypeDescriptor::Paren { inner: Box::new(inner) }
        },
        TypeDescriptor::Other { text } => TypeDescriptor::Other { text: text.clone() },
    }
}

fn transform_all(ts: &Vec<TypeDescriptor>, tag: &String) -> (r: Vec<TypeDescriptor>)
    ensures
        models_of(r@) == retag_all(models_of(ts@), tag@),
    decreases ts,
{
    let mut out: Vec<TypeDescriptor> = Vec::new();
    let mut i: usize = 0;
    while i < ts.len()
        invariant
            i <= ts.len(),
            models_of(out@) == retag_all(models_of(ts@.take(i as int)), tag@),
        decreases ts.len() - i,
    {
        proof {
            lemma_models_step(ts@, i as int);
            lemma_push_take(models_of(ts@.take(i as int)), model_of(ts@[i as int]));
        }
        let next = transform_ref_to_lifetime(&ts[i], tag);
        proof {
            lemma_models_push(out@, next);
        }
        out.push(next);
        i += 1;
    }
    assert(ts@.take(ts.len() as int) =~= ts@);
    out
}

/// A copy of `ty`, equal to it in the model.
pub fn copy_type(ty: &TypeDescriptor) -> (r: TypeDescriptor)
    ensures
        r@ == ty@,
    decreases ty,
{
    match ty {
        TypeDescriptor::Reference { mutable, scope, inner } => {
            let scope = match scope {
                Some(s) => Some(s.clone()),
                None => None,
            };
            let inner = copy_type(inner);
            TypeDescriptor::Reference { mutable: *mutable, scope, inner: Box::new(inner) }
        },
        TypeDescriptor::Named { path, args } => {
            TypeDescriptor::Named { path: clone_texts(path), args: copy_all(args) }
        },
        TypeDescriptor::Tuple { elems } => TypeDescriptor::Tuple { elems: copy_all(elems) },
        TypeDescriptor::Array { elem, len } => {
            let elem = copy_type(elem);
            TypeDescriptor::Array { elem: Box::new(elem), len: len.clone() }
        },
        TypeDescriptor::Slice { elem } => {
            let elem = copy_type(elem);
            TypeDescriptor::Slice { elem: Box::new(elem) }
        },
        TypeDescriptor::Paren { inner } => {
            let inner = copy_type(inner);
            TypeDescriptor::Paren { inner: Box::new(inner) }
        },
        TypeDescriptor::Other { text } => TypeDescriptor::Other { text: text.clone() },
    }
}

fn copy_all(ts: &Vec<TypeDescriptor>) -> (r: Vec<TypeDescriptor>)
    ensures
        models_of(r@) == models_of(ts@),
    decreases ts,
{
    let mut out: Vec<TypeDescriptor> = Vec::new();
    let mut i: usize = 0;
    while i < ts.len()
        invariant
            i <= ts.len(),
            models_of(out@) == models_of(ts@.take(i as int)),
        decreases ts.len() - i,
    {
        proof {
            lemma_models_step(ts@, i as int);
        }
        let next = copy_type(&ts[i]);
        proof {
            lemma_models_push(out@, next);
        }
        out.push(next);
        i += 1;
    }
    assert(ts@.take(ts.len() as int) =~= ts@);
    out
}

/// The token text of `ty`.
pub fn render_type(ty: &TypeDescriptor) -> (r: String)
    ensures
        r@ == type_text(ty@),
    decreases ty,
{
    match ty {
        TypeDescriptor::Reference { mutable, scope, inner } => {
            let mut out = String::from_str("&");
            match scope {
                Some(s) => {
                    out.append(" ");
                    out.append(s.as_str());
                },
                None => {},
            }
            assert(out@ =~= "&"@ + scope_text(opt_text(*scope)));
            if *mutable {
                out.append(" mut");
            }
            assert(out@ =~= "&"@ + scope_text(opt_text(*scope)) + mut_text(*mutable));
            out.append(" ");
            let inner_text = render_type(inner);
            out.append(inner_text.as_str());
            proof {
                assert(inner_text@ == type_text(model_of(**inner)));
                assert(out@ =~= type_text(ty@));
            }
            out
        },
        TypeDescriptor::Named { path, args } => {
            let mut out = join_with(path, " :: ");
            if args.len() > 0 {
                let parts = render_all(args);
                let inside = join_with(&parts, " , ");
                out.append(" < ");
                out.append(inside.as_str());
                out.append(" >");
            }
            proof {
                lemma_models_len(args@);
                assert(ty@ == TypeModel::Named { path: texts_of(path@), args: models_of(args@) });
                assert(type_text(ty@) == join(texts_of(path@), " :: "@) + args_text(type_texts(models_of(args@))));
                assert(out@ =~= type_text(ty@));
            }
            out
        },
        TypeDescriptor::Tuple { elems } => {
            let parts = render_all(elems);
            let inside = join_with(&parts, " , ");
            let mut out = String::from_str("(");
            out.append(inside.as_str());
            if elems.len() == 1 {
                out.append(" ,)");
            } else {
                out.append(")");
            }
            proof {
                lemma_models_len(elems@);
                assert(ty@ == TypeModel::Tuple { elems: models_of(elems@) });
                assert(out@ =~= type_text(ty@));
            }
            out
        },
        TypeDescriptor::Array { elem, len } => {
            let mut out = String::from_str("[");
            let elem_text = render_type(elem);
            out.append(elem_text.as_str());
            out.append(" ; ");
            out.append(len.as_str());
            out.append("]");
            proof {
                assert(out@ =~= type_text(ty@));
            }
            out
        },
        TypeDescriptor::Slice { elem } => {
            let mut out = String::from_str("[");
            let elem_text = render_type(elem);
            out.append(elem_text.as_str());
            out.append("]");
            proof {
                assert(out@ =~= type_text(ty@));
            }
            out
        },
        TypeDescriptor::Paren { inner } => {
            let mut out = String::from_str("(");
            let inner_text = render_type(inner);
            out.append(inner_text.as_str());
            out.append(")");
            proof {
                assert(out@ =~= type_text(ty@));
            }
            out
        },
        TypeDescriptor::Other { text } => text.clone(),
    }
}

proof fn lemma_models_len(s: Seq<TypeDescriptor>)
    ensures
        models_of(s).len() == s.len(),
        type_texts(models_of(s)).len() == s.len(),
    decreases s.len(),
{
    if s.len() > 0 {
        lemma_models_len(s.take(s.len() - 1));
    }
    lemma_type_texts_len(models_of(s));
}

proof fn lemma_type_texts_len(ts: Seq<TypeModel>)
    ensures
        type_texts(ts).len() == ts.len(),
    decreases ts.len(),
{
    if ts.len() > 0 {
        lemma_type_texts_len(ts.take(ts.len() - 1));
    }
}

fn render_all(ts: &Vec<TypeDescriptor>) -> (r: Vec<String>)
    ensures
        texts_of(r@) == type_texts(models_of(ts@)),
    decreases ts,
{
    let mut out: Vec<String> = Vec::new();
    let mut i: usize = 0;
    while i < ts.len()
        invariant
            i <= ts.len(),
            texts_of(out@) == type_texts(models_of(ts@.take(i as int))),
        decreases ts.len() - i,
    {
        proof {
            lemma_models_step(ts@, i as int);
            lemma_push_take(models_of(ts@.take(i as int)), model_of(ts@[i as int]));
        }
        let next = render_type(&ts[i]);
        let ghost before = out@;
        out.push(next);
        assert(texts_of(out@) =~= texts_of(before).push(out@.last()@));
        i += 1;
    }
    assert(ts@.take(ts.len() as int) =~= ts@);
    out
}

} // verus!
