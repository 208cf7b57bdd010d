use vstd::prelude::*;
use crate::accepted::accepted_expression;
use crate::expressions::transform_expression::{spec_expression, transform_expression};
use crate::lua::{BinOp, BinaryOperation};
use crate::ts::{BinaryOp, Expr, SpecExpr};
use crate::util::{skip, spec_skip};

verus! {

/// The TypeScript operator of a Luau binary operator: `~=` is `!==`, `==` is
/// `===`, `..` is `+`, `^` is `**`; `and`, `or` are `&&`, `||`.
pub open spec fn binary_op_of(op: BinOp) -> Option<BinaryOp> {
    match op {
        BinOp::And => Some(BinaryOp::LogicalAnd),
        BinOp::Caret => Some(BinaryOp::Exp),
        BinOp::GreaterThan => Some(BinaryOp::Gt),
        BinOp::GreaterThanEqual => Some(BinaryOp::GtEq),
        BinOp::LessThan => Some(BinaryOp::Lt),
        BinOp::LessThanEqual => Some(BinaryOp::LtEq),
        BinOp::Minus => Some(BinaryOp::Sub),
        BinOp::Or => Some(BinaryOp::LogicalOr),
        BinOp::Percent => Some(BinaryOp::Mod),
        BinOp::Plus => Some(BinaryOp::Add),
        BinOp::Slash => Some(BinaryOp::Div),
        BinOp::Star => Some(BinaryOp::Mul),
        BinOp::TildeEqual => Some(BinaryOp::NotEqEq),
        BinOp::TwoDots => Some(BinaryOp::Add),
        BinOp::TwoEqual => Some(BinaryOp::EqEqEq),
        BinOp::Other(_) => None,
    }
}

pub open spec fn spec_binary_expression(b: BinaryOperation) -> SpecExpr
    decreases b,
{
    match b.binop {
        BinOp::Other(source) => spec_skip("Unknown binary operator"@, source@),
        _ => SpecExpr::Bin {
            op: binary_op_of(b.binop).unwrap(),
            left: Box::new(spec_expression(b.lhs)),
            right: Box::new(spec_expression(b.rhs)),
        },
    }
}

/// `lhs op rhs` in TypeScript: the operator `op` applied to the transformed
/// operands, left to right.
pub open spec fn applied(op: BinaryOp, b: BinaryOperation) -> SpecExpr {
    SpecExpr::Bin {
        op,
        left: Box::new(spec_expression(b.lhs)),
        right: Box::new(spec_expression(b.rhs)),
    }
}

/// Every known Luau operator becomes the TypeScript operator with the same
/// meaning, applied to the same operands in the same order: arithmetic stays
/// arithmetic (`-` is `-`, `+` is `+`, `*` is `*`, `/` is `/`, `%` is `%`,
/// `^` is `**`), each comparison stays the same comparison (`==` is `===`,
/// `~=` is `!==`), `and`/`or` are `&&`/`||`, and concatenation `..` is `+`.
pub proof fn lemma_binary_operator_meaning(b: BinaryOperation)
    ensures
        b.binop is Minus ==> spec_binary_expression(b) == applied(BinaryOp::Sub, b),
        b.binop is Plus ==> spec_binary_expression(b) == applied(BinaryOp::Add, b),
        b.binop is Star ==> spec_binary_expression(b) == applied(BinaryOp::Mul, b),
        b.binop is Slash ==> spec_binary_expression(b) == applied(BinaryOp::Div, b),
        b.binop is Percent ==> spec_binary_expression(b) == applied(BinaryOp::Mod, b),
        b.binop is Caret ==> spec_binary_expression(b) == applied(BinaryOp::Exp, b),
        b.binop is GreaterThan ==> spec_binary_expression(b) == applied(BinaryOp::Gt, b),
        b.binop is GreaterThanEqual ==> spec_binary_expression(b) == applied(BinaryOp::GtEq, b),
        b.binop is LessThan ==> spec_binary_expression(b) == applied(BinaryOp::Lt, b),
        b.binop is LessThanEqual ==> spec_binary_expression(b) == applied(BinaryOp::LtEq, b),
        b.binop is TwoEqual ==> spec_binary_expression(b) == applied(BinaryOp::EqEqEq, b),
        b.binop is TildeEqual ==> spec_binary_expression(b) == applied(BinaryOp::NotEqEq, b),
        b.binop is And ==> spec_binary_expression(b) == applied(BinaryOp::LogicalAnd, b),
        b.binop is Or ==> spec_binary_expression(b) == applied(BinaryOp::LogicalOr, b),
        b.binop is TwoDots ==> spec_binary_expression(b) == applied(BinaryOp::Add, b),
        binary_op_of(BinOp::Minus) == Some(BinaryOp::Sub),
        binary_op_of(BinOp::Plus) == Some(BinaryOp::Add),
        binary_op_of(BinOp::Star) == Some(BinaryOp::Mul),
        binary_op_of(BinOp::Slash) == Some(BinaryOp::Div),
        binary_op_of(BinOp::Percent) == Some(BinaryOp::Mod),
{
}

fn binary_op(op: &BinOp) -> (r: Option<BinaryOp>)
    ensures
        r == binary_op_of(*op),
{
    match op {
        BinOp::And => Some(BinaryOp::LogicalAnd),
        BinOp::Caret => Some(BinaryOp::Exp),
        BinOp::GreaterThan => Some(BinaryOp::Gt),
        BinOp::GreaterThanEqual => Some(BinaryOp::GtEq),
        BinOp::LessThan => Some(BinaryOp::Lt),
        BinOp::LessThanEqual => Some(BinaryOp::LtEq),
        BinOp::Minus => Some(BinaryOp::Sub),
        BinOp::Or => Some(BinaryOp::LogicalOr),
        BinOp::Percent => Some(BinaryOp::Mod),
        BinOp::Plus => Some(BinaryOp::Add),
        BinOp::Slash => Some(BinaryOp::Div),
        BinOp::Star => Some(BinaryOp::Mul),
        BinOp::TildeEqual => Some(BinaryOp::NotEqEq),
        BinOp::TwoDots => Some(BinaryOp::Add),
        BinOp::TwoEqual => Some(BinaryOp::EqEqEq),
        BinOp::Other(_) => None,
    }
}

/// Transforms `lhs binop rhs`.
pub fn transform_binary_expression(binary: &BinaryOperation) -> (r: Expr)
    requires
        binary.binop is Other || (accepted_expression(binary.lhs) && accepted_expression(binary.rhs)),
    ensures
        r@ == spec_binary_expression(*binary),
    decreases binary, 0nat,
{
    match &binary.binop {
        BinOp::Other(source) => *skip("Unknown binary operator", source.as_str()),
        op => {
            let op = binary_op(op).unwrap();
            Expr::Bin {
                op,
                left: transform_expression(&binary.lhs),
                right: transform_expression(&binary.rhs),
            }
        },
    }
}

} // verus!
