use vstd::prelude::*;
use crate::lua::{GenericDeclaration, GenericDeclarationParameter, GenericParameterInfo, TypeDeclaration};
use crate::text::concat;
use crate::ts::{
    view_opt_type_params, view_type_param, view_type_params, SpecStmt, SpecType, SpecTypeParam,
    Stmt, TsType, TsTypeParam, TsTypeParamDecl,
};
use crate::types::transform_type::{spec_type, transform_type};
use crate::util::{boxed, ident, ident_str, make_string};

verus! {

/// A type parameter that cannot be transformed: it is named
/// `FailedToTransformType` and constrained by the string literal type made
/// of the reason followed by the parameter's text.
pub open spec fn spec_skipped_param(reason: Seq<char>, node: Seq<char>) -> SpecTypeParam {
    SpecTypeParam {
        name: "FailedToTransformType"@,
        constraint: Some(SpecType::LitStr(reason + node)),
        default: None,
    }
}

/// A generic parameter `T` becomes the type parameter `T`, without a
/// default; a variadic or unknown parameter cannot be transformed.
pub open spec fn spec_declared_param(p: GenericDeclarationParameter) -> SpecTypeParam {
    match p.parameter {
        GenericParameterInfo::Name(name) => SpecTypeParam { name: name@, constraint: None, default: None },
        GenericParameterInfo::Variadic { .. } => spec_skipped_param(
            "variadic type generic not supported"@,
            p.source@,
        ),
        GenericParameterInfo::Other(_) => spec_skipped_param("unknown type generic kind"@, p.source@),
    }
}

pub open spec fn spec_declared_params(g: Option<GenericDeclaration>) -> Option<Seq<SpecTypeParam>> {
    match g {
        Some(d) => Some(Seq::new(d.generics@.len(), |i: int| spec_declared_param(d.generics@[i]))),
        None => None,
    }
}

/// `type Name<T> = U` becomes `type Name<T> = U`, keeping only the names of
/// the generic parameters.
pub open spec fn spec_type_declaration(d: TypeDeclaration) -> SpecStmt {
    SpecStmt::TypeAlias {
        id: d.name@,
        type_params: spec_declared_params(d.generics),
        type_ann: Box::new(spec_type(d.type_definition)),
    }
}

pub fn skip_type(reason: &str, node: &str) -> (r: TsTypeParam)
    ensures
        view_type_param(r) == spec_skipped_param(reason@, node@),
{
    let message = concat(reason, node);
    TsTypeParam {
        name: ident_str("FailedToTransformType"),
        constraint: Some(boxed(TsType::LitStr(make_string(message.as_str())))),
        default: None,
    }
}

/// Transforms a type declaration into a type alias, keeping only the names
/// of its generic parameters.
pub fn transform_type_declaration(type_declaration: &TypeDeclaration) -> (r: Stmt)
    ensures
        r@ == spec_type_declaration(*type_declaration),
{
    let type_params = match &type_declaration.generics {
        Some(generic) => {
            let mut params: Vec<TsTypeParam> = Vec::new();
            let mut i: usize = 0;
            while i < generic.generics.len()
                invariant
                    i <= generic.generics@.len(),
                    params@.len() == i,
                    forall|k: int|
                        0 <= k < i ==> view_type_param(#[trigger] params@[k]) == spec_declared_param(
                            generic.generics@[k],
                        ),
                decreases generic.generics@.len() - i,
            {
                let g = &generic.generics[i];
                let param = match &g.parameter {
                    GenericParameterInfo::Name(token) => TsTypeParam {
                        name: ident(token.clone()),
                        constraint: None,
                        default: None,
                    },
                    GenericParameterInfo::Variadic { .. } => skip_type(
                        "variadic type generic not supported",
                        g.source.as_str(),
                    ),
                    GenericParameterInfo::Other(_) => skip_type(
                        "unknown type generic kind",
                        g.source.as_str(),
                    ),
                };
                params.push(param);
                i = i + 1;
            }
            assert(view_type_params(params@) =~= Seq::new(
                generic.generics@.len(),
                |i: int| spec_declared_param(generic.generics@[i]),
            ));
            Some(TsTypeParamDecl { params })
        },
        None => None,
    };
    let type_ann = transform_type(&type_declaration.type_definition);
    Stmt::TypeAlias { id: ident(type_declaration.name.clone()), type_params, type_ann }
}

} // verus!
