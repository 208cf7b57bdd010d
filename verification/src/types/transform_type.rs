use vstd::prelude::*;
use crate::lua::{IndexedTypeInfo, TypeArgument, TypeInfo};
use crate::text::str_eq;
use crate::ts::{
    view_opt_type_params, view_bindings, view_type, view_types, BindingIdent, SpecBinding, SpecEntityName, SpecType,
    Str, TsEntityName, TsType, TsTypeParamDecl,
};
use crate::types::transform_table_type::{spec_type_fields, transform_table_type};
use crate::types::transform_type_generic::{spec_type_generic, transform_generic_params};
use crate::util::{boxed, ident, ident_str, make_string, skip_type, spec_skip_type};

verus! {

/// The TypeScript type of a Luau type.
pub open spec fn spec_type(t: TypeInfo) -> SpecType
    decreases t,
{
    match t {
        TypeInfo::Array(inner) => SpecType::Array(Box::new(spec_type(*inner))),
        TypeInfo::Basic(name) => SpecType::TypeRef {
            name: SpecEntityName::Ident(name@),
            params: None,
        },
        TypeInfo::String(text) => SpecType::LitStr(text@),
        TypeInfo::Boolean(text) => SpecType::LitBool(text@ == "true"@),
        TypeInfo::Callback { generics, arguments, return_type } => SpecType::Fn {
            type_params: spec_type_generic(generics),
            params: spec_callback_arguments(arguments@),
            ret: Box::new(spec_type(*return_type)),
        },
        TypeInfo::Generic { base, generics } => SpecType::TypeRef {
            name: SpecEntityName::Ident(base@),
            params: Some(spec_type_list(generics@)),
        },
        TypeInfo::GenericPack { source } => spec_skip_type(
            "TS does not allow variadic type arguments"@,
            source@,
        ),
        TypeInfo::Intersection { left, right } => SpecType::Intersection(
            seq![spec_type(*left), spec_type(*right)],
        ),
        TypeInfo::Module { module, type_info } => match *type_info {
            IndexedTypeInfo::Basic(name) => SpecType::TypeRef {
                name: SpecEntityName::Qualified { left: module@, right: name@ },
                params: None,
            },
            IndexedTypeInfo::Generic { base, generics } => SpecType::TypeRef {
                name: SpecEntityName::Qualified { left: module@, right: base@ },
                params: Some(spec_type_list(generics@)),
            },
        },
        TypeInfo::Optional { base } => SpecType::Union(seq![spec_type(*base), SpecType::Undefined]),
        TypeInfo::Table { fields } => SpecType::TypeLit(spec_type_fields(fields@)),
        TypeInfo::Typeof { source } => spec_skip_type(
            "TS has no functional equivalent of Luau typeof"@,
            source@,
        ),
        TypeInfo::Tuple { types } => if types@.len() == 1 {
            SpecType::Paren(Box::new(spec_type(types@[0])))
        } else {
            SpecType::TypeRef {
                name: SpecEntityName::Ident("LuaTuple"@),
                params: Some(seq![SpecType::Tuple(spec_tuple_elements(types@))]),
            }
        },
        TypeInfo::Union { left, right } => SpecType::Union(seq![spec_type(*left), spec_type(*right)]),
        TypeInfo::Variadic { type_info } => SpecType::TypeRef {
            name: SpecEntityName::Ident("LuaTuple"@),
            params: Some(seq![SpecType::Array(Box::new(spec_type(*type_info)))]),
        },
        TypeInfo::VariadicPack { source } => spec_skip_type(
            "TS does not allow variadic type arguments"@,
            source@,
        ),
        TypeInfo::Other(source) => spec_skip_type("Unknown TypeInfo kind"@, source@),
    }
}

/// The name and the type arguments of a type reference.
pub open spec fn type_ref_parts(t: SpecType) -> Option<(SpecEntityName, Option<Seq<SpecType>>)> {
    match t {
        SpecType::TypeRef { name, params } => Some((name, params)),
        _ => None,
    }
}

/// The types that `generics` become, one for each, in order.
pub open spec fn each_type(generics: Seq<TypeInfo>) -> Seq<SpecType> {
    Seq::new(generics.len(), |k: int| spec_type(generics[k]))
}

/// A named type keeps its name and its type arguments: `T` and `T<A, B>`
/// name `T`; a module's type `m.T` or `m.T<A, B>` names `T` qualified by
/// `m`, with or without type arguments. The arguments are the given types,
/// transformed, in order.
pub proof fn lemma_type_reference_names(t: TypeInfo)
    ensures
        t matches TypeInfo::Basic(name) ==> type_ref_parts(spec_type(t)) == Some(
            (SpecEntityName::Ident(name@), None::<Seq<SpecType>>),
        ),
        t matches TypeInfo::Generic { base, generics } ==> type_ref_parts(spec_type(t)) == Some(
            (SpecEntityName::Ident(base@), Some(each_type(generics@))),
        ),
        t matches TypeInfo::Module { module, type_info } ==> (*type_info matches IndexedTypeInfo::Basic(
            name,
        ) ==> type_ref_parts(spec_type(t)) == Some(
            ((SpecEntityName::Qualified { left: module@, right: name@ }), None::<Seq<SpecType>>),
        )),
        t matches TypeInfo::Module { module, type_info } ==> (*type_info matches IndexedTypeInfo::Generic {
            base,
            generics,
        } ==> type_ref_parts(spec_type(t)) == Some(
            ((SpecEntityName::Qualified { left: module@, right: base@ }), Some(each_type(generics@))),
        )),
{
    match t {
        TypeInfo::Generic { base, generics } => {
            assert(spec_type_list(generics@) =~= each_type(generics@));
        },
        TypeInfo::Module { module, type_info } => match *type_info {
            IndexedTypeInfo::Generic { base, generics } => {
                assert(spec_type_list(generics@) =~= each_type(generics@));
            },
            _ => {},
        },
        _ => {},
    }
}

/// An optional type `T?` is `T | undefined`; a union `A | B` and an
/// intersection `A & B` keep their members in order; an array `{T}` is
/// `T[]`.
pub proof fn lemma_type_combinations(t: TypeInfo)
    ensures
        t matches TypeInfo::Optional { base } ==> spec_type(t) == SpecType::Union(
            seq![spec_type(*base), SpecType::Undefined],
        ),
        t matches TypeInfo::Union { left, right } ==> spec_type(t) == SpecType::Union(
            seq![spec_type(*left), spec_type(*right)],
        ),
        t matches TypeInfo::Intersection { left, right } ==> spec_type(t) == SpecType::Intersection(
            seq![spec_type(*left), spec_type(*right)],
        ),
        t matches TypeInfo::Array(inner) ==> spec_type(t) == SpecType::Array(Box::new(spec_type(*inner))),
        t matches TypeInfo::String(text) ==> spec_type(t) == SpecType::LitStr(text@),
        t matches TypeInfo::Boolean(text) ==> (text@ == "true"@ ==> spec_type(t) == SpecType::LitBool(
            true,
        )),
        t matches TypeInfo::Boolean(text) ==> (text@ == "false"@ ==> spec_type(t) == SpecType::LitBool(
            false,
        )),
        t matches TypeInfo::Callback { return_type, .. } ==> spec_type(t) is Fn && *spec_type(
            t,
        )->Fn_ret == spec_type(*return_type),
        t matches TypeInfo::Variadic { type_info } ==> type_ref_parts(spec_type(t)) == Some(
            (
                SpecEntityName::Ident("LuaTuple"@),
                Some(seq![SpecType::Array(Box::new(spec_type(*type_info)))]),
            ),
        ),
{
    match t {
        TypeInfo::Boolean(text) => {
            if text@ == "false"@ {
                assert("false"@ != "true"@) by {
                    reveal_strlit("false");
                    reveal_strlit("true");
                    assert("false"@[0] != "true"@[0]);
                }
            }
        },
        _ => {},
    }
}

/// Each type of `s`, transformed.
pub open spec fn spec_type_list(s: Seq<TypeInfo>) -> Seq<SpecType>
    decreases s,
{
    Seq::new(s.len(), |i: int| if 0 <= i < s.len() { spec_type(s[i]) } else { arbitrary() })
}

/// The element types of a tuple: `...T` becomes the rest element `...T[]`.
pub open spec fn spec_tuple_elements(s: Seq<TypeInfo>) -> Seq<SpecType>
    decreases s,
{
    Seq::new(
        s.len(),
        |i: int|
            if 0 <= i < s.len() {
                match s[i] {
                    TypeInfo::Variadic { type_info } => SpecType::Rest(
                        Box::new(SpecType::Array(Box::new(spec_type(*type_info)))),
                    ),
                    _ => spec_type(s[i]),
                }
            } else {
                arbitrary()
            },
    )
}

/// A callback's argument `name: T` becomes the parameter `name: T`; an
/// unnamed argument is named `_`.
pub open spec fn spec_callback_argument(a: TypeArgument) -> SpecBinding
    decreases a,
{
    SpecBinding {
        id: match a.name {
            Some(n) => n@,
            None => "_"@,
        },
        type_ann: Some(spec_type(a.type_info)),
    }
}

pub open spec fn spec_callback_arguments(s: Seq<TypeArgument>) -> Seq<SpecBinding>
    decreases s,
{
    Seq::new(
        s.len(),
        |i: int| if 0 <= i < s.len() { spec_callback_argument(s[i]) } else { arbitrary() },
    )
}

/// The list `[a]`.
pub(crate) fn one_type(a: TsType) -> (r: Vec<TsType>)
    ensures
        view_types(r@) == seq![a@],
{
    let mut v = Vec::new();
    v.push(a);
    assert(view_types(v@) =~= seq![a@]);
    v
}

/// The list `[a, b]`.
pub(crate) fn two_types(a: TsType, b: TsType) -> (r: Vec<TsType>)
    ensures
        view_types(r@) == seq![a@, b@],
{
    let mut v = Vec::new();
    v.push(a);
    v.push(b);
    assert(view_types(v@) =~= seq![a@, b@]);
    v
}

pub(crate) fn transform_type_list(v: &Vec<TypeInfo>) -> (r: Vec<TsType>)
    ensures
        view_types(r@) == spec_type_list(v@),
    decreases v,
{
    let mut out: Vec<TsType> = Vec::new();
    let mut i: usize = 0;
    while i < v.len()
        invariant
            i <= v@.len(),
            out@.len() == i,
            forall|k: int| 0 <= k < i ==> view_type(#[trigger] out@[k]) == spec_type(v@[k]),
        decreases v@.len() - i,
    {
        proof {
            assert(decreases_to!(*v => v[i as int]));
        }
        let t = transform_type(&v[i]);
        out.push(*t);
        i = i + 1;
    }
    assert(view_types(out@) =~= spec_type_list(v@));
    out
}

fn transform_tuple_elements(v: &Vec<TypeInfo>) -> (r: Vec<TsType>)
    ensures
        view_types(r@) == spec_tuple_elements(v@),
    decreases v,
{
    let mut out: Vec<TsType> = Vec::new();
    let mut i: usize = 0;
    while i < v.len()
        invariant
            i <= v@.len(),
            out@.len() == i,
            forall|k: int|
                0 <= k < i ==> view_type(#[trigger] out@[k]) == spec_tuple_elements(v@)[k],
        decreases v@.len() - i,
    {
        proof {
            assert(decreases_to!(*v => v[i as int]));
        }
        let element = match &v[i] {
            TypeInfo::Variadic { type_info } => {
                let inner = boxed(TsType::Array(transform_type(type_info)));
                assert(inner@ == SpecType::Array(Box::new(spec_type(**type_info))));
                TsType::Rest(inner)
            },
            other => *transform_type(other),
        };
        out.push(element);
        i = i + 1;
    }
    assert(view_types(out@) =~= spec_tuple_elements(v@));
    out
}

fn transform_callback_arguments(v: &Vec<TypeArgument>) -> (r: Vec<BindingIdent>)
    ensures
        view_bindings(r@) == spec_callback_arguments(v@),
    decreases v,
{
    let mut out: Vec<BindingIdent> = Vec::new();
    let mut i: usize = 0;
    while i < v.len()
        invariant
            i <= v@.len(),
            out@.len() == i,
            forall|k: int|
                0 <= k < i ==> crate::ts::view_binding(#[trigger] out@[k]) == spec_callback_argument(
                    v@[k],
                ),
        decreases v@.len() - i,
    {
        proof {
            assert(decreases_to!(*v => v[i as int]));
        }
        let argument = &v[i];
        let name = match &argument.name {
            Some(n) => n.clone(),
            None => "_".to_owned(),
        };
        let type_ann = transform_type(&argument.type_info);
        out.push(BindingIdent { id: ident(name), type_ann: Some(type_ann) });
        i = i + 1;
    }
    assert(view_bindings(out@) =~= spec_callback_arguments(v@));
    out
}

/// Transforms a Luau type into the TypeScript type that stands for it. A type
/// that TypeScript cannot express becomes a string literal type that says so.
#[verifier::rlimit(100)]
#[verifier::spinoff_prover]
pub fn transform_type(type_info: &TypeInfo) -> (r: Box<TsType>)
    ensures
        r@ == spec_type(*type_info),
    decreases type_info,
{
    match type_info {
        TypeInfo::Array(inner) => {
            let r = boxed(TsType::Array(transform_type(inner)));
            assert(r@ == spec_type(*type_info));
            r
        },
        TypeInfo::Basic(name) => boxed(
            TsType::TypeRef { name: TsEntityName::Ident(ident(name.clone())), params: None },
        ),
        TypeInfo::String(text) => boxed(TsType::LitStr(make_string(text.as_str()))),
        TypeInfo::Boolean(text) => boxed(TsType::LitBool(str_eq(text.as_str(), "true"))),
        TypeInfo::Callback { generics, arguments, return_type } => {
            let type_params = match generics {
                Some(g) => Some(TsTypeParamDecl { params: transform_generic_params(&g.generics) }),
                None => None,
            };
            assert(view_opt_type_params(type_params) == spec_type_generic(*generics));
            let params = transform_callback_arguments(arguments);
            let ret = transform_type(return_type);
            let r = boxed(TsType::Fn { type_params, params, ret });
            assert(r@ == spec_type(*type_info));
            r
        },
        TypeInfo::Generic { base, generics } => {
            let params = transform_type_list(generics);
            let r = boxed(
                TsType::TypeRef {
                    name: TsEntityName::Ident(ident(base.clone())),
                    params: Some(params),
                },
            );
            assert(r@ == spec_type(*type_info));
            r
        },
        TypeInfo::GenericPack { source } => skip_type(
            "TS does not allow variadic type arguments",
            source.as_str(),
        ),
        TypeInfo::Intersection { left, right } => {
            let l = transform_type(left);
            let r = transform_type(right);
            boxed(TsType::Intersection(two_types(*l, *r)))
        },
        TypeInfo::Module { module, type_info } => match &**type_info {
            IndexedTypeInfo::Basic(name) => boxed(
                TsType::TypeRef {
                    name: TsEntityName::Qualified {
                        left: ident(module.clone()),
                        right: ident(name.clone()),
                    },
                    params: None,
                },
            ),
            IndexedTypeInfo::Generic { base, generics } => {
                let params = transform_type_list(generics);
                boxed(
                    TsType::TypeRef {
                        name: TsEntityName::Qualified {
                            left: ident(module.clone()),
                            right: ident(base.clone()),
                        },
                        params: Some(params),
                    },
                )
            },
        },
        TypeInfo::Optional { base } => {
            let b = transform_type(base);
            assert(view_type(TsType::Undefined) == SpecType::Undefined);
            boxed(TsType::Union(two_types(*b, TsType::Undefined)))
        },
        TypeInfo::Table { fields } => boxed(transform_table_type(fields)),
        TypeInfo::Typeof { source } => skip_type(
            "TS has no functional equivalent of Luau typeof",
            source.as_str(),
        ),
        TypeInfo::Tuple { types } => {
            if types.len() == 1 {
                proof {
                    assert(decreases_to!(*types => types[0]));
                }
                boxed(TsType::Paren(transform_type(&types[0])))
            } else {
                let elements = transform_tuple_elements(types);
                let params = one_type(TsType::Tuple(elements));
                boxed(
                    TsType::TypeRef {
                        name: TsEntityName::Ident(ident_str("LuaTuple")),
                        params: Some(params),
                    },
                )
            }
        },
        TypeInfo::Union { left, right } => {
            let l = transform_type(left);
            let r = transform_type(right);
            boxed(TsType::Union(two_types(*l, *r)))
        },
        TypeInfo::Variadic { type_info } => {
            let params = one_type(TsType::Array(transform_type(type_info)));
            boxed(
                TsType::TypeRef {
                    name: TsEntityName::Ident(ident_str("LuaTuple")),
                    params: Some(params),
                },
            )
        },
        TypeInfo::VariadicPack { source } => skip_type(
            "TS does not allow variadic type arguments",
            source.as_str(),
        ),
        TypeInfo::Other(source) => skip_type("Unknown TypeInfo kind", source.as_str()),
    }
}

} // verus!
