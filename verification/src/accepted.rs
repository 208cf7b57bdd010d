//! The Luau trees that the transformation accepts.
//!
//! The transformation turns `{ unpack(t) }` into `[ ...t ]`. It gives up (the
//! program stops) on an array-like table constructor whose element calls
//! `unpack` in any other way: with an index or a method call first
//! (`unpack.x(t)`, `unpack:f(t)`) or with no argument (`unpack()`). A tree is
//! accepted when no such element occurs anywhere in it.
use vstd::prelude::*;
use crate::statements::transform_numeric_for::step_comparison;
use crate::lua::{
    Block, Call, Expression, Field, FunctionArgs, FunctionBody, FunctionCall, IfExpression, Index,
    LastStmt, Prefix, Stmt, Suffix, TableConstructor, Value, Var,
};

verus! {

/// Whether `e` is a call of the name `unpack`.
pub open spec fn is_unpack_call(e: Expression) -> bool {
    match e {
        Expression::Value { value, .. } => match *value {
            Value::FunctionCall(fc) => match fc.prefix {
                Prefix::Name(name) => name@ == "unpack"@,
                _ => false,
            },
            _ => false,
        },
        _ => false,
    }
}

/// Whether the arguments give at least one value.
pub open spec fn has_argument(args: FunctionArgs) -> bool {
    match args {
        FunctionArgs::Parentheses(v) => v@.len() > 0,
        _ => true,
    }
}

/// Whether the call of `unpack` in `e` is a plain call with an argument.
pub open spec fn unpack_call_well_formed(e: Expression) -> bool {
    match e {
        Expression::Value { value, .. } => match *value {
            Value::FunctionCall(fc) => fc.suffixes@.len() > 0 && match fc.suffixes@[0] {
                Suffix::Call(Call::AnonymousCall(args)) => has_argument(args),
                _ => false,
            },
            _ => false,
        },
        _ => false,
    }
}

/// Whether every field of the table is positional (`{ a, b }`), so that the
/// table becomes an array.
pub open spec fn is_array_table(fields: Seq<Field>) -> bool {
    forall|i: int| 0 <= i < fields.len() ==> #[trigger] fields[i] is NoKey
}

/// Whether the field, in an array-like table, is not a misused `unpack`.
pub open spec fn array_element_accepted(f: Field) -> bool {
    match f {
        Field::NoKey(e) => is_unpack_call(e) ==> unpack_call_well_formed(e),
        _ => true,
    }
}

pub open spec fn accepted_expression(e: Expression) -> bool
    decreases e,
{
    match e {
        Expression::BinaryOperator(b) => b.binop is Other || (accepted_expression(b.lhs)
            && accepted_expression(b.rhs)),
        Expression::Parentheses { expression } => accepted_expression(*expression),
        Expression::UnaryOperator { unop, expression } => unop is Other || accepted_expression(
            *expression,
        ),
        Expression::Value { value, .. } => accepted_value(*value),
        Expression::Other(_) => true,
    }
}

pub open spec fn accepted_expressions(s: Seq<Expression>) -> bool
    decreases s,
{
    forall|i: int| 0 <= i < s.len() ==> accepted_expression(#[trigger] s[i])
}

pub open spec fn accepted_value(v: Value) -> bool
    decreases v,
{
    match v {
        Value::Function(body) => accepted_function_body(*body),
        Value::FunctionCall(fc) => accepted_function_call(fc),
        Value::IfExpression(ie) => accepted_if_expression(*ie),
        Value::TableConstructor(t) => accepted_table(t),
        Value::ParenthesesExpression(e) => accepted_expression(*e),
        Value::Var(var) => accepted_var(var),
        _ => true,
    }
}

pub open spec fn accepted_function_call(fc: FunctionCall) -> bool
    decreases fc,
{
    accepted_prefix(fc.prefix) && accepted_suffixes(fc.suffixes@)
}

pub open spec fn accepted_var(v: Var) -> bool
    decreases v,
{
    match v {
        Var::Expression(ve) => accepted_prefix(ve.prefix) && accepted_suffixes(ve.suffixes@),
        _ => true,
    }
}

pub open spec fn accepted_vars(s: Seq<Var>) -> bool
    decreases s,
{
    forall|i: int| 0 <= i < s.len() ==> accepted_var(#[trigger] s[i])
}

pub open spec fn accepted_prefix(p: Prefix) -> bool
    decreases p,
{
    match p {
        Prefix::Expression(e) => accepted_expression(*e),
        _ => true,
    }
}

pub open spec fn accepted_suffixes(s: Seq<Suffix>) -> bool
    decreases s,
{
    forall|i: int| 0 <= i < s.len() ==> accepted_suffix(#[trigger] s[i])
}

pub open spec fn accepted_suffix(s: Suffix) -> bool
    decreases s,
{
    match s {
        Suffix::Call(c) => accepted_call(c),
        Suffix::Index(i) => accepted_index(i),
        Suffix::Other(_) => true,
    }
}

pub open spec fn accepted_call(c: Call) -> bool
    decreases c,
{
    match c {
        Call::MethodCall { args, .. } => accepted_args(args),
        Call::AnonymousCall(args) => accepted_args(args),
        Call::Other(_) => true,
    }
}

pub open spec fn accepted_args(a: FunctionArgs) -> bool
    decreases a,
{
    match a {
        FunctionArgs::Parentheses(v) => accepted_expressions(v@),
        FunctionArgs::TableConstructor(t) => accepted_table(t),
        _ => true,
    }
}

pub open spec fn accepted_index(i: Index) -> bool
    decreases i,
{
    match i {
        Index::Brackets(e) => accepted_expression(*e),
        _ => true,
    }
}

pub open spec fn accepted_if_expression(ie: IfExpression) -> bool
    decreases ie,
{
    &&& accepted_expression(ie.condition)
    &&& accepted_expression(ie.if_expression)
    &&& accepted_expression(ie.else_expression)
    &&& match ie.else_if_expressions {
        Some(v) => forall|i: int|
            0 <= i < v@.len() ==> accepted_expression(#[trigger] v@[i].condition)
                && accepted_expression(v@[i].expression),
        None => true,
    }
}

pub open spec fn accepted_table(t: TableConstructor) -> bool
    decreases t,
{
    &&& forall|i: int| 0 <= i < t.fields@.len() ==> accepted_field(#[trigger] t.fields@[i])
    &&& is_array_table(t.fields@) ==> forall|i: int|
        0 <= i < t.fields@.len() ==> array_element_accepted(#[trigger] t.fields@[i])
}

pub open spec fn accepted_field(f: Field) -> bool
    decreases f,
{
    match f {
        Field::NameKey { value, .. } => accepted_expression(value),
        Field::ExpressionKey { key, value } => accepted_expression(key) && accepted_expression(
            value,
        ),
        Field::NoKey(e) => accepted_expression(e),
        Field::Other(_) => true,
    }
}

pub open spec fn accepted_function_body(b: FunctionBody) -> bool
    decreases b,
{
    accepted_block(b.block)
}

pub open spec fn accepted_block(b: Block) -> bool
    decreases b,
{
    &&& forall|i: int| 0 <= i < b.stmts@.len() ==> accepted_statement(#[trigger] b.stmts@[i])
    &&& match b.last_stmt {
        Some(l) => accepted_last_statement(l),
        None => true,
    }
}

pub open spec fn accepted_last_statement(l: LastStmt) -> bool
    decreases l,
{
    match l {
        LastStmt::Return(v) => accepted_expressions(v@),
        _ => true,
    }
}

pub open spec fn accepted_statement(s: Stmt) -> bool
    decreases s,
{
    match s {
        Stmt::Assignment(a) => accepted_vars(a.variables@) && accepted_expressions(a.expressions@),
        Stmt::Do(b) => accepted_block(b),
        Stmt::FunctionCall(fc) => accepted_function_call(fc),
        Stmt::FunctionDeclaration(d) => accepted_function_body(d.body),
        Stmt::GenericFor(g) => g.expressions@.len() != 1 || (accepted_expression(g.expressions@[0])
            && accepted_block(g.block)),
        Stmt::If(i) => {
            &&& accepted_expression(i.condition)
            &&& accepted_block(i.block)
            &&& match i.else_if {
                Some(v) => forall|k: int|
                    0 <= k < v@.len() ==> accepted_expression(#[trigger] v@[k].condition)
                        && accepted_block(v@[k].block),
                None => true,
            }
            &&& match i.else_block {
                Some(b) => accepted_block(b),
                None => true,
            }
        },
        Stmt::LocalAssignment(l) => !(l.has_equal && l.expressions@.len() == 1)
            || accepted_expression(l.expressions@[0]),
        Stmt::LocalFunction(l) => accepted_function_body(l.body),
        Stmt::NumericFor(n) => step_comparison(n.step) is None || {
            &&& accepted_expression(n.start)
            &&& accepted_expression(n.end)
            &&& match n.step {
                Some(e) => accepted_expression(e),
                None => true,
            }
            &&& accepted_block(n.block)
        },
        Stmt::Repeat { block, until } => accepted_block(block) && accepted_expression(until),
        Stmt::While { condition, block } => accepted_expression(condition) && accepted_block(block),
        Stmt::CompoundAssignment(c) => c.operator is Other || (accepted_var(c.lhs)
            && accepted_expression(c.rhs)),
        _ => true,
    }
}

} // verus!
