use vstd::prelude::*;
use crate::lua::{Parameter, TypeInfo};
use crate::text::{concat, str_eq};
use crate::ts::{view_binding, view_pat, view_pats, BindingIdent, Pat, SpecBinding, SpecPat, SpecType, TsType};
use crate::types::transform_type::{spec_type, transform_type};
use crate::types::transform_type_specifier::transform_type_specifier;
use crate::util::{boxed, ident, ident_str, skip, spec_skip, REST_ARGS_NAME};

verus! {

/// Why a second `...` or `_args` parameter is not transformed.
pub open spec fn double_rest_reason() -> Seq<char> {
    "Double use of `"@ + REST_ARGS_NAME@ + "` or ... in function parameters"@
}

/// Whether the parameter takes the name of the variadic arguments: it is
/// `...`, or it is named `_args`.
pub open spec fn is_rest_like(p: Parameter) -> bool {
    match p {
        Parameter::Name { name, .. } => name@ == REST_ARGS_NAME@,
        Parameter::Ellipse { .. } => true,
        Parameter::Other(_) => false,
    }
}

/// Whether a parameter before the `i`th took the name of the variadic
/// arguments.
pub open spec fn rest_claimed_before(params: Seq<Parameter>, i: int) -> bool {
    exists|j: int| 0 <= j < i && is_rest_like(#[trigger] params[j])
}

/// The type given to the `i`th parameter, if any.
pub open spec fn type_at(types: Seq<Option<TypeInfo>>, i: int) -> Option<TypeInfo> {
    if 0 <= i < types.len() {
        types[i]
    } else {
        None
    }
}

/// A parameter given its type, if any, and whether an earlier parameter took
/// the name of the variadic arguments: `name: T` stays `name: T`; `...: T`
/// becomes the rest parameter `..._args: T[]`. A second `...` or `_args`
/// cannot be transformed, nor can a parameter of an unknown kind.
pub open spec fn spec_param_given(param: Parameter, ty: Option<TypeInfo>, claimed: bool) -> SpecPat {
    match param {
        Parameter::Name { name, source } => if name@ == REST_ARGS_NAME@ && claimed {
            SpecPat::Expr(Box::new(spec_skip(double_rest_reason(), source@)))
        } else {
            SpecPat::Ident(
                SpecBinding {
                    id: name@,
                    type_ann: match ty {
                        Some(t) => Some(spec_type(t)),
                        None => None,
                    },
                },
            )
        },
        Parameter::Ellipse { source } => if claimed {
            SpecPat::Expr(Box::new(spec_skip(double_rest_reason(), source@)))
        } else {
            SpecPat::Rest {
                arg: Box::new(SpecPat::Ident(SpecBinding { id: REST_ARGS_NAME@, type_ann: None })),
                type_ann: match ty {
                    Some(t) => Some(SpecType::Array(Box::new(spec_type(t)))),
                    None => None,
                },
            }
        },
        Parameter::Other(source) => SpecPat::Expr(
            Box::new(spec_skip("Unknown parameter type"@, source@)),
        ),
    }
}

/// The `i`th parameter of a function.
pub open spec fn spec_param(params: Seq<Parameter>, types: Seq<Option<TypeInfo>>, i: int) -> SpecPat {
    spec_param_given(params[i], type_at(types, i), rest_claimed_before(params, i))
}

/// The parameters of a function, each with the type given to it.
pub open spec fn spec_function_params(params: Seq<Parameter>, types: Seq<Option<TypeInfo>>) -> Seq<
    SpecPat,
> {
    Seq::new(params.len(), |i: int| spec_param(params, types, i))
}

/// Whether a transformed parameter binds the variadic arguments: the rest
/// parameter, or a parameter named `_args`.
pub open spec fn binds_rest(p: SpecPat) -> bool {
    match p {
        SpecPat::Rest { .. } => true,
        SpecPat::Ident(b) => b.id == REST_ARGS_NAME@,
        _ => false,
    }
}

/// At most one transformed parameter of a function binds the variadic
/// arguments, so the function never declares `_args` twice.
pub proof fn lemma_one_rest_binding(params: Seq<Parameter>, types: Seq<Option<TypeInfo>>, i: int, j: int)
    requires
        0 <= i < j < params.len(),
    ensures
        !(binds_rest(spec_function_params(params, types)[i]) && binds_rest(
            spec_function_params(params, types)[j],
        )),
{
    let out = spec_function_params(params, types);
    if binds_rest(out[i]) {
        assert(is_rest_like(params[i]));
        assert(rest_claimed_before(params, j));
    }
}

/// A function keeps one parameter per Luau parameter, in order. A named
/// parameter (other than a repeated `_args`) binds its own name, with the
/// type given at its position; the first `...` becomes the rest parameter
/// `..._args`, typed as an array of its type.
pub proof fn lemma_params_in_order(params: Seq<Parameter>, types: Seq<Option<TypeInfo>>)
    ensures
        spec_function_params(params, types).len() == params.len(),
        forall|k: int|
            0 <= k < params.len() ==> (params[k] matches Parameter::Name { name, .. } ==> (
            name@ != REST_ARGS_NAME@ ==> #[trigger] spec_function_params(params, types)[k]
                == SpecPat::Ident(
                SpecBinding {
                    id: name@,
                    type_ann: if 0 <= k < types.len() && types[k] is Some {
                        Some(spec_type(types[k]->Some_0))
                    } else {
                        None
                    },
                },
            ))),
        forall|k: int|
            0 <= k < params.len() ==> (params[k] is Ellipse && (forall|j: int|
                0 <= j < k ==> !(params[j] is Ellipse) && !(params[j] matches Parameter::Name {
                    name,
                    ..
                } && name@ == REST_ARGS_NAME@)) ==> #[trigger] spec_function_params(params, types)[k]
                == (SpecPat::Rest {
                arg: Box::new(SpecPat::Ident(SpecBinding { id: REST_ARGS_NAME@, type_ann: None })),
                type_ann: if 0 <= k < types.len() && types[k] is Some {
                    Some(SpecType::Array(Box::new(spec_type(types[k]->Some_0))))
                } else {
                    None
                },
            })),
{
    assert forall|k: int|
        0 <= k < params.len() && params[k] is Ellipse && (forall|j: int|
            0 <= j < k ==> !(params[j] is Ellipse) && !(params[j] matches Parameter::Name {
                name,
                ..
            } && name@ == REST_ARGS_NAME@)) implies !rest_claimed_before(params, k) by {
        if rest_claimed_before(params, k) {
            let j = choose|j: int| 0 <= j < k && is_rest_like(#[trigger] params[j]);
            assert(is_rest_like(params[j]));
        }
    }
}

fn skip_double_rest(source: &str) -> (r: Pat)
    ensures
        r@ == SpecPat::Expr(Box::new(spec_skip(double_rest_reason(), source@))),
{
    let reason = concat(
        concat("Double use of `", REST_ARGS_NAME).as_str(),
        "` or ... in function parameters",
    );
    Pat::Expr(skip(reason.as_str(), source))
}

fn transform_param(param: &Parameter, type_specifier: Option<&TypeInfo>, claimed: bool) -> (r: (
    Pat,
    bool,
))
    ensures
        r.0@ == spec_param_given(
            *param,
            match type_specifier {
                Some(t) => Some(*t),
                None => None,
            },
            claimed,
        ),
        r.1 == (claimed || is_rest_like(*param)),
{
    match param {
        Parameter::Name { name, source } => {
            let is_rest = str_eq(name.as_str(), REST_ARGS_NAME);
            if is_rest && claimed {
                (skip_double_rest(source.as_str()), true)
            } else {
                let type_ann = match type_specifier {
                    Some(t) => Some(transform_type_specifier(t)),
                    None => None,
                };
                let b = BindingIdent { id: ident(name.clone()), type_ann };
                assert(view_binding(b) == SpecBinding {
                    id: name@,
                    type_ann: match type_specifier {
                        Some(t) => Some(spec_type(*t)),
                        None => None,
                    },
                });
                (Pat::Ident(b), claimed || is_rest)
            }
        },
        Parameter::Ellipse { source } => {
            if claimed {
                (skip_double_rest(source.as_str()), true)
            } else {
                let type_ann = match type_specifier {
                    Some(t) => Some(boxed(TsType::Array(transform_type(t)))),
                    None => None,
                };
                let b = BindingIdent { id: ident_str(REST_ARGS_NAME), type_ann: None };
                assert(view_binding(b) == SpecBinding { id: REST_ARGS_NAME@, type_ann: None });
                let arg = boxed(Pat::Ident(b));
                assert(view_pat(*arg) == SpecPat::Ident(
                    SpecBinding { id: REST_ARGS_NAME@, type_ann: None },
                ));
                (Pat::Rest { arg, type_ann }, true)
            }
        },
        Parameter::Other(source) => (
            Pat::Expr(skip("Unknown parameter type", source.as_str())),
            claimed,
        ),
    }
}

/// Transforms the parameters of a function; `type_specifiers[i]` is the type
/// given to `params[i]`, if any.
pub fn transform_function_params(
    params: &Vec<Parameter>,
    type_specifiers: &Vec<Option<TypeInfo>>,
) -> (r: Vec<Pat>)
    ensures
        view_pats(r@) == spec_function_params(params@, type_specifiers@),
{
    let mut out: Vec<Pat> = Vec::new();
    let mut has_args_or_ellipse = false;
    let mut i: usize = 0;
    while i < params.len()
        invariant
            i <= params@.len(),
            out@.len() == i,
            has_args_or_ellipse == rest_claimed_before(params@, i as int),
            forall|k: int|
                0 <= k < i ==> view_pat(#[trigger] out@[k]) == spec_param(
                    params@,
                    type_specifiers@,
                    k,
                ),
        decreases params@.len() - i,
    {
        let type_specifier = if i < type_specifiers.len() {
            match &type_specifiers[i] {
                Some(t) => Some(t),
                None => None,
            }
        } else {
            None
        };
        let (pat, claimed) = transform_param(&params[i], type_specifier, has_args_or_ellipse);
        has_args_or_ellipse = claimed;
        proof {
            if is_rest_like(params@[i as int]) {
                assert(rest_claimed_before(params@, i + 1));
            } else {
                assert forall|j: int| 0 <= j < i + 1 && is_rest_like(#[trigger] params@[j]) implies 0
                    <= j < i by {}
            }
            assert(has_args_or_ellipse == rest_claimed_before(params@, i + 1));
        }
        out.push(pat);
        i = i + 1;
    }
    assert(view_pats(out@) =~= spec_function_params(params@, type_specifiers@));
    out
}

} // verus!
