use vstd::prelude::*;
use crate::lua::{GenericDeclaration, GenericDeclarationParameter, GenericParameterInfo};
use crate::ts::{
    view_opt_type, view_opt_type_params, view_type_param, view_type_params, Ident, SpecType,
    SpecTypeParam, TsType, TsTypeParam, TsTypeParamDecl,
};
use crate::types::transform_type::{spec_type, transform_type};
use crate::util::{ident, ident_str, skip_type, spec_skip_type};

verus! {

/// The name and constraint of a generic parameter. A parameter that
/// TypeScript cannot express is named `FailedToTransformType` and
/// constrained by a string literal type that says why.
pub open spec fn spec_generic_name(p: GenericParameterInfo) -> (Seq<char>, Option<SpecType>) {
    match p {
        GenericParameterInfo::Name(name) => (name@, None),
        GenericParameterInfo::Variadic { source } => (
            "FailedToTransformType"@,
            Some(spec_skip_type("variadic type generic not supported"@, source@)),
        ),
        GenericParameterInfo::Other(source) => (
            "FailedToTransformType"@,
            Some(spec_skip_type("unknown type generic kind"@, source@)),
        ),
    }
}

pub open spec fn spec_generic_param(p: GenericDeclarationParameter) -> SpecTypeParam
    decreases p,
{
    SpecTypeParam {
        name: spec_generic_name(p.parameter).0,
        constraint: spec_generic_name(p.parameter).1,
        default: match p.default_type {
            Some(t) => Some(spec_type(t)),
            None => None,
        },
    }
}

pub open spec fn spec_generic_params(s: Seq<GenericDeclarationParameter>) -> Seq<SpecTypeParam>
    decreases s,
{
    Seq::new(s.len(), |i: int| if 0 <= i < s.len() { spec_generic_param(s[i]) } else { arbitrary() })
}

/// The TypeScript type parameters of Luau generics, if there are any.
pub open spec fn spec_type_generic(g: Option<GenericDeclaration>) -> Option<Seq<SpecTypeParam>>
    decreases g,
{
    match g {
        Some(d) => Some(spec_generic_params(d.generics@)),
        None => None,
    }
}

/// Generic parameters stay, one for each, in order: a named parameter keeps
/// its name, with no constraint, and its default type, transformed.
pub proof fn lemma_generic_params_in_order(s: Seq<GenericDeclarationParameter>)
    ensures
        spec_generic_params(s).len() == s.len(),
        forall|k: int|
            0 <= k < s.len() ==> (s[k].parameter matches GenericParameterInfo::Name(name) ==> #[trigger] spec_generic_params(
                s,
            )[k] == (SpecTypeParam {
                name: name@,
                constraint: None,
                default: match s[k].default_type {
                    Some(t) => Some(spec_type(t)),
                    None => None,
                },
            })),
{
}

pub fn skipped_type_name() -> (r: Ident)
    ensures
        r@ == "FailedToTransformType"@,
{
    ident_str("FailedToTransformType")
}

fn transform_type_generic_name(generic: &GenericParameterInfo) -> (r: (Ident, Option<Box<TsType>>))
    ensures
        r.0@ == spec_generic_name(*generic).0,
        view_opt_type(r.1) == spec_generic_name(*generic).1,
{
    match generic {
        GenericParameterInfo::Name(name) => (ident(name.clone()), None),
        GenericParameterInfo::Variadic { source } => (
            skipped_type_name(),
            Some(skip_type("variadic type generic not supported", source.as_str())),
        ),
        GenericParameterInfo::Other(source) => (
            skipped_type_name(),
            Some(skip_type("unknown type generic kind", source.as_str())),
        ),
    }
}

pub(crate) fn transform_generic_params(v: &Vec<GenericDeclarationParameter>) -> (r: Vec<TsTypeParam>)
    ensures
        view_type_params(r@) == spec_generic_params(v@),
    decreases v,
{
    let mut out: Vec<TsTypeParam> = Vec::new();
    let mut i: usize = 0;
    while i < v.len()
        invariant
            i <= v@.len(),
            out@.len() == i,
            forall|k: int|
                0 <= k < i ==> view_type_param(#[trigger] out@[k]) == spec_generic_param(v@[k]),
        decreases v@.len() - i,
    {
        proof {
            assert(decreases_to!(*v => v[i as int]));
        }
        let generic = &v[i];
        let (name, constraint) = transform_type_generic_name(&generic.parameter);
        let default = match &generic.default_type {
            Some(t) => Some(transform_type(t)),
            None => None,
        };
        out.push(TsTypeParam { name, constraint, default });
        i = i + 1;
    }
    assert(view_type_params(out@) =~= spec_generic_params(v@));
    out
}

/// The TypeScript type parameters of Luau generics.
pub fn transform_type_generic(generic: Option<&GenericDeclaration>) -> (r: Option<TsTypeParamDecl>)
    ensures
        view_opt_type_params(r) == spec_type_generic(
            match generic {
                Some(g) => Some(*g),
                None => None,
            },
        ),
{
    match generic {
        Some(g) => Some(TsTypeParamDecl { params: transform_generic_params(&g.generics) }),
        None => None,
    }
}

} // verus!
