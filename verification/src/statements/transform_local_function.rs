use vstd::prelude::*;
use crate::accepted::accepted_function_body;
use crate::expressions::transform_function_params::{spec_function_params, transform_function_params};
use crate::lua::LocalFunction;
use crate::statements::transform_block_statements::{
    spec_block_statements, transform_block_statements,
};
use crate::ts::{view_function, Function, SpecFunction, SpecStmt, Stmt};
use crate::util::{boxed, ident};

verus! {

/// `local function f(params) ... end` becomes `function f(params) { ... }`,
/// without the return type and the type parameters.
pub open spec fn spec_local_function(l: LocalFunction) -> SpecStmt
    decreases l,
{
    SpecStmt::FnDecl {
        ident: l.name@,
        function: Box::new(
            SpecFunction {
                params: spec_function_params(l.body.parameters@, l.body.type_specifiers@),
                return_type: None,
                type_params: None,
                body: spec_block_statements(l.body.block),
            },
        ),
    }
}

/// A local function is declared under its own name, with the parameters
/// and the body of the Luau function.
pub proof fn lemma_local_function_named(l: LocalFunction)
    ensures
        spec_local_function(l) is FnDecl,
        spec_local_function(l)->FnDecl_ident == l.name@,
        spec_local_function(l)->FnDecl_function.params == spec_function_params(
            l.body.parameters@,
            l.body.type_specifiers@,
        ),
        spec_local_function(l)->FnDecl_function.body == spec_block_statements(l.body.block),
{
}

/// Transforms a local function declaration.
pub fn transform_local_function(declaration: &LocalFunction) -> (r: Stmt)
    requires
        accepted_function_body(declaration.body),
    ensures
        r@ == spec_local_function(*declaration),
    decreases declaration, 0nat,
{
    let params = transform_function_params(&declaration.body.parameters, &declaration.body.type_specifiers);
    let body = transform_block_statements(&declaration.body.block);
    let function = Function { params, return_type: None, type_params: None, body };
    assert(view_function(function) == SpecFunction {
        params: spec_function_params(declaration.body.parameters@, declaration.body.type_specifiers@),
        return_type: None,
        type_params: None,
        body: spec_block_statements(declaration.body.block),
    });
    Stmt::FnDecl { ident: ident(declaration.name.clone()), function: boxed(function) }
}

} // verus!
