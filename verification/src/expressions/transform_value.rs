use vstd::prelude::*;
use crate::accepted::{accepted_block, accepted_value};
use crate::expressions::transform_expression::{spec_expression, transform_expression};
use crate::expressions::transform_function_call::{spec_function_call, transform_function_call};
use crate::expressions::transform_function_params::{spec_function_params, transform_function_params};
use crate::expressions::transform_if_expression::{spec_if_expression, transform_if_expression};
use crate::expressions::transform_number::{spec_number, transform_number};
use crate::expressions::transform_string::{spec_string, transform_string};
use crate::expressions::transform_table_constructor::{
    spec_table_constructor, transform_table_constructor,
};
use crate::expressions::transform_var::{spec_var, transform_var};
use crate::lua::{FunctionBody, Symbol, Token, TokenKind, Value};
use crate::statements::transform_block_statements::{
    spec_block_statements, transform_block_statements,
};
use crate::text::concat;
use crate::ts::{view_function, view_opt_type, view_opt_type_params, Expr, Function, Ident, Lit, SpecExpr, SpecFunction, SpecLit};
use crate::types::transform_type::{spec_type, transform_type};
use crate::types::transform_type_generic::{spec_type_generic, transform_type_generic};
use crate::util::{skip, spec_skip, REST_ARGS_NAME};

verus! {

/// `nil` is `undefined`; `true` and `false` stay; `...` becomes the spread
/// `..._args` of the variadic arguments.
pub open spec fn spec_symbol(token: Token) -> SpecExpr {
    match token.kind {
        TokenKind::Symbol(Symbol::Nil) => SpecExpr::Ident("undefined"@),
        TokenKind::Symbol(Symbol::True) => SpecExpr::Lit(SpecLit::Bool(true)),
        TokenKind::Symbol(Symbol::False) => SpecExpr::Lit(SpecLit::Bool(false)),
        TokenKind::Symbol(Symbol::Ellipse) => SpecExpr::Ident("..."@ + REST_ARGS_NAME@),
        _ => spec_skip("Unknown value variant"@, token.source@),
    }
}

/// The parameters, return type, type parameters and body of a function.
pub open spec fn spec_function_body(body: FunctionBody) -> SpecFunction
    decreases body,
{
    SpecFunction {
        params: spec_function_params(body.parameters@, body.type_specifiers@),
        return_type: match body.return_type {
            Some(t) => Some(spec_type(t)),
            None => None,
        },
        type_params: spec_type_generic(body.generics),
        body: spec_block_statements(body.block),
    }
}

pub open spec fn spec_value(v: Value) -> SpecExpr
    decreases v,
{
    match v {
        Value::Function(body) => SpecExpr::Arrow(Box::new(spec_function_body(*body))),
        Value::FunctionCall(fc) => spec_function_call(fc),
        Value::IfExpression(ie) => spec_if_expression(*ie),
        Value::TableConstructor(t) => spec_table_constructor(t),
        Value::Number(token) => spec_number(token),
        Value::ParenthesesExpression(e) => spec_expression(*e),
        Value::String(token) => spec_string(token),
        Value::Symbol(token) => spec_symbol(token),
        Value::Var(var) => spec_var(var),
        Value::Other(source) => spec_skip("Unknown value variant"@, source@),
    }
}

/// `nil` is `undefined`, `true` is `true` and `false` is `false`: each
/// literal keeps its meaning.
pub proof fn lemma_symbol_meaning(token: Token)
    ensures
        token.kind == TokenKind::Symbol(Symbol::Nil) ==> spec_symbol(token) == SpecExpr::Ident(
            "undefined"@,
        ),
        token.kind == TokenKind::Symbol(Symbol::True) ==> spec_symbol(token) == SpecExpr::Lit(
            SpecLit::Bool(true),
        ),
        token.kind == TokenKind::Symbol(Symbol::False) ==> spec_symbol(token) == SpecExpr::Lit(
            SpecLit::Bool(false),
        ),
{
}

/// An anonymous function becomes an arrow function with the parameters,
/// return type, type parameters and body of the Luau function.
pub proof fn lemma_function_value(body: FunctionBody)
    ensures
        spec_value(Value::Function(Box::new(body))) == SpecExpr::Arrow(
            Box::new(spec_function_body(body)),
        ),
        spec_function_body(body).params == spec_function_params(
            body.parameters@,
            body.type_specifiers@,
        ),
        spec_function_body(body).body == spec_block_statements(body.block),
        body.return_type matches Some(t) ==> spec_function_body(body).return_type == Some(spec_type(t)),
        body.return_type is None ==> spec_function_body(body).return_type is None,
        spec_function_body(body).type_params == spec_type_generic(body.generics),
{
}

fn transform_symbol(token: &Token) -> (r: Expr)
    ensures
        r@ == spec_symbol(*token),
{
    match &token.kind {
        TokenKind::Symbol(Symbol::Nil) => Expr::Ident(Ident { sym: "undefined".to_owned() }),
        TokenKind::Symbol(Symbol::True) => Expr::Lit(Lit::Bool(true)),
        TokenKind::Symbol(Symbol::False) => Expr::Lit(Lit::Bool(false)),
        TokenKind::Symbol(Symbol::Ellipse) => Expr::Ident(Ident { sym: concat("...", REST_ARGS_NAME) }),
        _ => *skip("Unknown value variant", token.source.as_str()),
    }
}

/// Transforms the parameters, types and body of a function.
pub(crate) fn transform_function_body(body: &FunctionBody) -> (r: Function)
    requires
        accepted_block(body.block),
    ensures
        view_function(r) == spec_function_body(*body),
    decreases body, 0nat,
{
    let return_type = match &body.return_type {
        Some(t) => Some(transform_type(t)),
        None => None,
    };
    assert(view_opt_type(return_type) == match body.return_type {
        Some(t) => Some(spec_type(t)),
        None => None,
    });
    let type_params = transform_type_generic(body.generics.as_ref());
    assert(view_opt_type_params(type_params) == spec_type_generic(body.generics));
    let params = transform_function_params(&body.parameters, &body.type_specifiers);
    let stmts = transform_block_statements(&body.block);
    Function { params, return_type, type_params, body: stmts }
}

/// Transforms a Luau value into a TypeScript expression. An anonymous
/// function becomes an arrow function.
pub fn transform_value(value: &Value) -> (r: Expr)
    requires
        accepted_value(*value),
    ensures
        r@ == spec_value(*value),
    decreases value, 0nat,
{
    match value {
        Value::Function(body) => {
            let f = transform_function_body(body);
            Expr::Arrow(Box::new(f))
        },
        Value::FunctionCall(call) => *transform_function_call(call),
        Value::IfExpression(if_expression) => *transform_if_expression(if_expression),
        Value::TableConstructor(table_constructor) => transform_table_constructor(table_constructor),
        Value::Number(number) => transform_number(number),
        Value::ParenthesesExpression(expr) => *transform_expression(expr),
        Value::String(string) => *transform_string(string),
        Value::Symbol(token) => transform_symbol(token),
        Value::Var(var) => *transform_var(var),
        Value::Other(source) => *skip("Unknown value variant", source.as_str()),
    }
}

} // verus!
