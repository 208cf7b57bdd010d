use vstd::prelude::*;
use crate::lua::TypeDeclaration;
use crate::ts::{SpecStmt, Stmt};
use crate::types::transform_type::{spec_type, transform_type};
use crate::types::transform_type_generic::{spec_type_generic, transform_type_generic};
use crate::util::ident;

verus! {

/// `type Name<T> = U` becomes the type alias `type Name<T> = U`.
pub open spec fn spec_type_declaration(d: TypeDeclaration) -> SpecStmt {
    SpecStmt::TypeAlias {
        id: d.name@,
        type_params: spec_type_generic(d.generics),
        type_ann: Box::new(spec_type(d.type_definition)),
    }
}

/// A type declaration is an alias under the same name, for the declared
/// type, with the declared type parameters.
pub proof fn lemma_type_alias_named(d: TypeDeclaration)
    ensures
        spec_type_declaration(d) is TypeAlias,
        spec_type_declaration(d)->TypeAlias_id == d.name@,
        *spec_type_declaration(d)->TypeAlias_type_ann == spec_type(d.type_definition),
        spec_type_declaration(d)->TypeAlias_type_params == spec_type_generic(d.generics),
{
}

/// Transforms a Luau type declaration into a TypeScript type alias.
pub fn transform_type_declaration(type_declaration: &TypeDeclaration) -> (r: Stmt)
    ensures
        r@ == spec_type_declaration(*type_declaration),
{
    let type_params = transform_type_generic(type_declaration.generics.as_ref());
    let type_ann = transform_type(&type_declaration.type_definition);
    Stmt::TypeAlias { id: ident(type_declaration.name.clone()), type_params, type_ann }
}

} // verus!
