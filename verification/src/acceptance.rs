//! Deciding whether the transformation accepts a Luau tree.
use vstd::prelude::*;
use crate::accepted::{
    accepted_args, accepted_block, accepted_call, accepted_expression, accepted_expressions,
    accepted_field, accepted_function_body, accepted_function_call, accepted_if_expression,
    accepted_index, accepted_last_statement, accepted_prefix, accepted_statement, accepted_suffix,
    accepted_suffixes, accepted_table, accepted_value, accepted_var, accepted_vars,
    array_element_accepted, has_argument, is_array_table, is_unpack_call, unpack_call_well_formed,
};
use crate::statements::transform_numeric_for::comparison;
use crate::lua::{
    BinOp, CompoundOp, UnOp, Block, Call, ElseIf, ElseIfExpression, Expression, Field, FunctionArgs, FunctionCall,
    IfExpression, Index, LastStmt, Prefix, Stmt, Suffix, TableConstructor, Value, Var,
};
use crate::expressions::transform_table_constructor::all_no_key;
use crate::text::str_eq;

verus! {

/// Whether `e` is a call of the name `unpack`.
fn unpack_call(e: &Expression) -> (r: bool)
    ensures
        r == is_unpack_call(*e),
{
    match e {
        Expression::Value { value, .. } => match &**value {
            Value::FunctionCall(fc) => match &fc.prefix {
                Prefix::Name(name) => str_eq(name.as_str(), "unpack"),
                _ => false,
            },
            _ => false,
        },
        _ => false,
    }
}

/// Whether the call of `unpack` in `e` is a plain call with an argument.
fn unpack_well_formed(e: &Expression) -> (r: bool)
    ensures
        r == unpack_call_well_formed(*e),
{
    match e {
        Expression::Value { value, .. } => match &**value {
            Value::FunctionCall(fc) => {
                if fc.suffixes.len() == 0 {
                    return false;
                }
                match &fc.suffixes[0] {
                    Suffix::Call(Call::AnonymousCall(args)) => {
                        let r = match args {
                            FunctionArgs::Parentheses(v) => v.len() > 0,
                            _ => true,
                        };
                        assert(r == has_argument(*args));
                        r
                    },
                    _ => false,
                }
            },
            _ => false,
        },
        _ => false,
    }
}

fn array_element_ok(f: &Field) -> (r: bool)
    ensures
        r == array_element_accepted(*f),
{
    match f {
        Field::NoKey(e) => !unpack_call(e) || unpack_well_formed(e),
        _ => true,
    }
}

/// Whether the transformation accepts the expression.
pub fn expression_accepted(e: &Expression) -> (r: bool)
    ensures
        r == accepted_expression(*e),
    decreases e, 0nat,
{
    match e {
        Expression::BinaryOperator(b) => match &b.binop {
            BinOp::Other(_) => true,
            _ => expression_accepted(&b.lhs) && expression_accepted(&b.rhs),
        },
        Expression::Parentheses { expression } => expression_accepted(expression),
        Expression::UnaryOperator { unop, expression } => match unop {
            UnOp::Other(_) => true,
            _ => expression_accepted(expression),
        },
        Expression::Value { value, .. } => value_accepted(value),
        Expression::Other(_) => true,
    }
}

fn expressions_accepted(v: &Vec<Expression>) -> (r: bool)
    ensures
        r == accepted_expressions(v@),
    decreases v, 0nat,
{
    let mut i: usize = 0;
    while i < v.len()
        invariant
            i <= v@.len(),
            forall|k: int| 0 <= k < i ==> accepted_expression(#[trigger] v@[k]),
        decreases v@.len() - i,
    {
        proof {
            assert(decreases_to!(*v => v[i as int]));
        }
        if !expression_accepted(&v[i]) {
            return false;
        }
        i = i + 1;
    }
    true
}

fn value_accepted(v: &Value) -> (r: bool)
    ensures
        r == accepted_value(*v),
    decreases v, 0nat,
{
    match v {
        Value::Function(body) => block_accepted(&body.block),
        Value::FunctionCall(fc) => function_call_accepted(fc),
        Value::IfExpression(ie) => if_expression_accepted(ie),
        Value::TableConstructor(t) => table_accepted(t),
        Value::ParenthesesExpression(e) => expression_accepted(e),
        Value::Var(var) => var_accepted(var),
        _ => true,
    }
}

fn function_call_accepted(fc: &FunctionCall) -> (r: bool)
    ensures
        r == accepted_function_call(*fc),
    decreases fc, 0nat,
{
    prefix_accepted(&fc.prefix) && suffixes_accepted(&fc.suffixes)
}

fn var_accepted(v: &Var) -> (r: bool)
    ensures
        r == accepted_var(*v),
    decreases v, 0nat,
{
    match v {
        Var::Expression(ve) => prefix_accepted(&ve.prefix) && suffixes_accepted(&ve.suffixes),
        _ => true,
    }
}

fn vars_accepted(v: &Vec<Var>) -> (r: bool)
    ensures
        r == accepted_vars(v@),
    decreases v, 0nat,
{
    let mut i: usize = 0;
    while i < v.len()
        invariant
            i <= v@.len(),
            forall|k: int| 0 <= k < i ==> accepted_var(#[trigger] v@[k]),
        decreases v@.len() - i,
    {
        proof {
            assert(decreases_to!(*v => v[i as int]));
        }
        if !var_accepted(&v[i]) {
            return false;
        }
        i = i + 1;
    }
    true
}

fn prefix_accepted(p: &Prefix) -> (r: bool)
    ensures
        r == accepted_prefix(*p),
    decreases p, 0nat,
{
    match p {
        Prefix::Expression(e) => expression_accepted(e),
        _ => true,
    }
}

fn suffixes_accepted(v: &Vec<Suffix>) -> (r: bool)
    ensures
        r == accepted_suffixes(v@),
    decreases v, 0nat,
{
    let mut i: usize = 0;
    while i < v.len()
        invariant
            i <= v@.len(),
            forall|k: int| 0 <= k < i ==> accepted_suffix(#[trigger] v@[k]),
        decreases v@.len() - i,
    {
        proof {
            assert(decreases_to!(*v => v[i as int]));
        }
        if !suffix_accepted(&v[i]) {
            return false;
        }
        i = i + 1;
    }
    true
}

fn suffix_accepted(s: &Suffix) -> (r: bool)
    ensures
        r == accepted_suffix(*s),
    decreases s, 0nat,
{
    match s {
        Suffix::Call(c) => call_accepted(c),
        Suffix::Index(i) => index_accepted(i),
        Suffix::Other(_) => true,
    }
}

fn call_accepted(c: &Call) -> (r: bool)
    ensures
        r == accepted_call(*c),
    decreases c, 0nat,
{
    match c {
        Call::MethodCall { args, .. } => args_accepted(args),
        Call::AnonymousCall(args) => args_accepted(args),
        Call::Other(_) => true,
    }
}

fn args_accepted(a: &FunctionArgs) -> (r: bool)
    ensures
        r == accepted_args(*a),
    decreases a, 0nat,
{
    match a {
        FunctionArgs::Parentheses(v) => expressions_accepted(v),
        FunctionArgs::TableConstructor(t) => table_accepted(t),
        _ => true,
    }
}

fn index_accepted(i: &Index) -> (r: bool)
    ensures
        r == accepted_index(*i),
    decreases i, 0nat,
{
    match i {
        Index::Brackets(e) => expression_accepted(e),
        _ => true,
    }
}

fn else_if_expressions_accepted(v: &Vec<ElseIfExpression>) -> (r: bool)
    ensures
        r == forall|i: int|
            0 <= i < v@.len() ==> accepted_expression(#[trigger] v@[i].condition)
                && accepted_expression(v@[i].expression),
    decreases v, 0nat,
{
    let mut i: usize = 0;
    while i < v.len()
        invariant
            i <= v@.len(),
            forall|k: int|
                0 <= k < i ==> accepted_expression(#[trigger] v@[k].condition)
                    && accepted_expression(v@[k].expression),
        decreases v@.len() - i,
    {
        proof {
            assert(decreases_to!(*v => v[i as int]));
        }
        if !expression_accepted(&v[i].condition) || !expression_accepted(&v[i].expression) {
            return false;
        }
        i = i + 1;
    }
    true
}

fn if_expression_accepted(ie: &IfExpression) -> (r: bool)
    ensures
        r == accepted_if_expression(*ie),
    decreases ie, 0nat,
{
    if !expression_accepted(&ie.condition) || !expression_accepted(&ie.if_expression)
        || !expression_accepted(&ie.else_expression) {
        return false;
    }
    match &ie.else_if_expressions {
        Some(v) => else_if_expressions_accepted(v),
        None => true,
    }
}

fn fields_accepted(v: &Vec<Field>) -> (r: bool)
    ensures
        r == forall|i: int| 0 <= i < v@.len() ==> accepted_field(#[trigger] v@[i]),
    decreases v, 0nat,
{
    let mut i: usize = 0;
    while i < v.len()
        invariant
            i <= v@.len(),
            forall|k: int| 0 <= k < i ==> accepted_field(#[trigger] v@[k]),
        decreases v@.len() - i,
    {
        proof {
            assert(decreases_to!(*v => v[i as int]));
        }
        if !field_accepted(&v[i]) {
            return false;
        }
        i = i + 1;
    }
    true
}

fn array_elements_accepted(v: &Vec<Field>) -> (r: bool)
    ensures
        r == forall|i: int| 0 <= i < v@.len() ==> array_element_accepted(#[trigger] v@[i]),
{
    let mut i: usize = 0;
    while i < v.len()
        invariant
            i <= v@.len(),
            forall|k: int| 0 <= k < i ==> array_element_accepted(#[trigger] v@[k]),
        decreases v@.len() - i,
    {
        if !array_element_ok(&v[i]) {
            return false;
        }
        i = i + 1;
    }
    true
}

fn table_accepted(t: &TableConstructor) -> (r: bool)
    ensures
        r == accepted_table(*t),
    decreases t, 0nat,
{
    fields_accepted(&t.fields) && (!all_no_key(&t.fields) || array_elements_accepted(&t.fields))
}

fn field_accepted(f: &Field) -> (r: bool)
    ensures
        r == accepted_field(*f),
    decreases f, 0nat,
{
    match f {
        Field::NameKey { value, .. } => expression_accepted(value),
        Field::ExpressionKey { key, value } => expression_accepted(key) && expression_accepted(
            value,
        ),
        Field::NoKey(e) => expression_accepted(e),
        Field::Other(_) => true,
    }
}

fn stmts_accepted(v: &Vec<Stmt>) -> (r: bool)
    ensures
        r == forall|i: int| 0 <= i < v@.len() ==> accepted_statement(#[trigger] v@[i]),
    decreases v, 0nat,
{
    let mut i: usize = 0;
    while i < v.len()
        invariant
            i <= v@.len(),
            forall|k: int| 0 <= k < i ==> accepted_statement(#[trigger] v@[k]),
        decreases v@.len() - i,
    {
        proof {
            assert(decreases_to!(*v => v[i as int]));
        }
        if !statement_accepted(&v[i]) {
            return false;
        }
        i = i + 1;
    }
    true
}

/// Whether the transformation accepts the block.
pub fn block_accepted(b: &Block) -> (r: bool)
    ensures
        r == accepted_block(*b),
    decreases b, 0nat,
{
    if !stmts_accepted(&b.stmts) {
        return false;
    }
    match &b.last_stmt {
        Some(l) => last_statement_accepted(l),
        None => true,
    }
}

fn last_statement_accepted(l: &LastStmt) -> (r: bool)
    ensures
        r == accepted_last_statement(*l),
    decreases l, 0nat,
{
    match l {
        LastStmt::Return(v) => expressions_accepted(v),
        _ => true,
    }
}

fn else_ifs_accepted(v: &Vec<ElseIf>) -> (r: bool)
    ensures
        r == forall|k: int|
            0 <= k < v@.len() ==> accepted_expression(#[trigger] v@[k].condition) && accepted_block(
                v@[k].block,
            ),
    decreases v, 0nat,
{
    let mut i: usize = 0;
    while i < v.len()
        invariant
            i <= v@.len(),
            forall|k: int|
                0 <= k < i ==> accepted_expression(#[trigger] v@[k].condition) && accepted_block(
                    v@[k].block,
                ),
        decreases v@.len() - i,
    {
        proof {
            assert(decreases_to!(*v => v[i as int]));
        }
        if !expression_accepted(&v[i].condition) || !block_accepted(&v[i].block) {
            return false;
        }
        i = i + 1;
    }
    true
}

fn statement_accepted(s: &Stmt) -> (r: bool)
    ensures
        r == accepted_statement(*s),
    decreases s, 0nat,
{
    match s {
        Stmt::Assignment(a) => vars_accepted(&a.variables) && expressions_accepted(&a.expressions),
        Stmt::Do(b) => block_accepted(b),
        Stmt::FunctionCall(fc) => function_call_accepted(fc),
        Stmt::FunctionDeclaration(d) => block_accepted(&d.body.block),
        Stmt::GenericFor(g) => g.expressions.len() != 1 || (expression_accepted(&g.expressions[0])
            && block_accepted(&g.block)),
        Stmt::If(i) => {
            expression_accepted(&i.condition) && block_accepted(&i.block) && match &i.else_if {
                Some(v) => else_ifs_accepted(v),
                None => true,
            } && match &i.else_block {
                Some(b) => block_accepted(b),
                None => true,
            }
        },
        Stmt::LocalAssignment(l) => !(l.has_equal && l.expressions.len() == 1) || expression_accepted(
            &l.expressions[0],
        ),
        Stmt::LocalFunction(l) => block_accepted(&l.body.block),
        Stmt::NumericFor(n) => comparison(&n.step).is_none() || {
            expression_accepted(&n.start) && expression_accepted(&n.end) && match &n.step {
                Some(e) => expression_accepted(e),
                None => true,
            } && block_accepted(&n.block)
        },
        Stmt::Repeat { block, until } => block_accepted(block) && expression_accepted(until),
        Stmt::While { condition, block } => expression_accepted(condition) && block_accepted(block),
        Stmt::CompoundAssignment(c) => match &c.operator {
            CompoundOp::Other(_) => true,
            _ => var_accepted(&c.lhs) && expression_accepted(&c.rhs),
        },
        _ => true,
    }
}

} // verus!
