use vstd::prelude::*;
use crate::accepted::accepted_expression;
use crate::expressions::transform_binary::{spec_binary_expression, transform_binary_expression};
use crate::expressions::transform_unary::{spec_unary_with, transform_unary_expression};
use crate::expressions::transform_value::{spec_value, transform_value};
use crate::lua::Expression;
use crate::ts::{Expr, SpecExpr};
use crate::types::transform_type::{spec_type, transform_type};
use crate::util::{boxed, skip, spec_skip};

verus! {

/// The TypeScript expression of a Luau expression: `(e)` stays `(e)`, and
/// `v :: T` becomes `v as T`.
pub open spec fn spec_expression(e: Expression) -> SpecExpr
    decreases e,
{
    match e {
        Expression::BinaryOperator(b) => spec_binary_expression(*b),
        Expression::Parentheses { expression } => SpecExpr::Paren(
            Box::new(spec_expression(*expression)),
        ),
        Expression::UnaryOperator { unop, expression } => spec_unary_with(
            unop,
            spec_expression(*expression),
        ),
        Expression::Value { value, type_assertion } => match type_assertion {
            Some(t) => SpecExpr::TsAs {
                expr: Box::new(spec_value(*value)),
                type_ann: Box::new(spec_type(t)),
            },
            None => spec_value(*value),
        },
        Expression::Other(source) => spec_skip("Unknown expression variant"@, source@),
    }
}

/// Parentheses stay around the same expression; `v :: T` asserts the value
/// `v` to have the type `T`; a value without an assertion is the value
/// itself; a binary operation is transformed as such.
pub proof fn lemma_expression_structure(e: Expression)
    ensures
        e matches Expression::Parentheses { expression } ==> spec_expression(e) == SpecExpr::Paren(
            Box::new(spec_expression(*expression)),
        ),
        e matches Expression::Value { value, type_assertion } ==> (type_assertion matches Some(t)
            ==> spec_expression(e) == (SpecExpr::TsAs {
            expr: Box::new(spec_value(*value)),
            type_ann: Box::new(spec_type(t)),
        })),
        e matches Expression::Value { value, type_assertion } ==> (type_assertion is None
            ==> spec_expression(e) == spec_value(*value)),
        e matches Expression::BinaryOperator(b) ==> spec_expression(e) == spec_binary_expression(
            *b,
        ),
{
}

/// Transforms a Luau expression into a TypeScript expression.
pub fn transform_expression(expr: &Expression) -> (r: Box<Expr>)
    requires
        accepted_expression(*expr),
    ensures
        r@ == spec_expression(*expr),
    decreases expr, 0nat,
{
    match expr {
        Expression::BinaryOperator(b) => boxed(transform_binary_expression(b)),
        Expression::Parentheses { expression } => boxed(Expr::Paren(transform_expression(expression))),
        Expression::UnaryOperator { unop, expression } => boxed(
            transform_unary_expression(unop, expression),
        ),
        Expression::Value { value, type_assertion } => {
            let expr = transform_value(value);
            match type_assertion {
                Some(t) => boxed(Expr::TsAs { expr: boxed(expr), type_ann: transform_type(t) }),
                None => boxed(expr),
            }
        },
        Expression::Other(source) => skip("Unknown expression variant", source.as_str()),
    }
}

} // verus!
