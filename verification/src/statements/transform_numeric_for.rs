use vstd::prelude::*;
use crate::accepted::{accepted_block, accepted_expression};
use crate::expressions::transform_expression::{spec_expression, transform_expression};
use crate::lua::{Expression, NumericFor, UnOp, Value};
use crate::statements::transform_block::transform_block;
use crate::statements::transform_block_statements::spec_block_statements;
use crate::ts::{
    view_binding, view_opt_expr, view_pat, view_pat_or_expr, view_var_decl, view_declarator, view_declarators, AssignOp, BinaryOp, BindingIdent, Expr, Ident, Lit, Pat,
    PatOrExpr, SpecBinding, SpecDeclarator, SpecExpr, SpecLit, SpecPat, SpecPatOrExpr, SpecStmt,
    SpecVarDecl, Stmt, VarDecl, VarDeclKind, VarDeclarator,
};
use crate::types::transform_type::spec_type;
use crate::types::transform_type_specifier::transform_type_specifier;
use crate::util::{boxed, ident, skip_stmt, spec_skip_stmt};

verus! {

/// The comparison that ends a numeric loop: `<=` with no step or a number
/// literal as step, `>=` with a negated number literal as step; no comparison
/// for any other step.
pub open spec fn step_comparison(step: Option<Expression>) -> Option<BinaryOp> {
    match step {
        None => Some(BinaryOp::LtEq),
        Some(e) => match e {
            Expression::Value { value, .. } => match *value {
                Value::Number(_) => Some(BinaryOp::LtEq),
                _ => None,
            },
            Expression::UnaryOperator { unop: UnOp::Minus, expression } => match *expression {
                Expression::Value { value, .. } => match *value {
                    Value::Number(_) => Some(BinaryOp::GtEq),
                    _ => None,
                },
                _ => None,
            },
            _ => None,
        },
    }
}

/// The loop variable `i: T`.
pub open spec fn spec_index_binding(n: NumericFor) -> SpecBinding {
    SpecBinding {
        id: n.index_variable@,
        type_ann: match n.type_specifier {
            Some(t) => Some(spec_type(t)),
            None => None,
        },
    }
}

/// `for i: T = a, b, s do ... end` becomes
/// `for (let i: T = a; i <= b; i += s) { ... }` (`>=` for a negative step,
/// `1` when there is no step). A step that is not a number literal cannot be
/// transformed.
pub open spec fn spec_numeric_for(n: NumericFor) -> SpecStmt
    decreases n,
{
    match step_comparison(n.step) {
        None => spec_skip_stmt(
            "Numeric for loops with non-literal step are not supported"@,
            n.source@,
        ),
        Some(op) => SpecStmt::For {
            init: SpecVarDecl {
                kind: VarDeclKind::Let,
                decls: seq![
                    SpecDeclarator {
                        name: SpecPat::Ident(
                            spec_index_binding(n),
                        ),
                        init: Some(spec_expression(n.start)),
                    },
                ],
            },
            test: Box::new(
                SpecExpr::Bin {
                    op,
                    left: Box::new(SpecExpr::Ident(n.index_variable@)),
                    right: Box::new(spec_expression(n.end)),
                },
            ),
            update: Box::new(
                SpecExpr::Assign {
                    op: AssignOp::AddAssign,
                    left: SpecPatOrExpr::Expr(Box::new(SpecExpr::Ident(n.index_variable@))),
                    right: Box::new(
                        match n.step {
                            Some(e) => spec_expression(e),
                            None => SpecExpr::Lit(SpecLit::Num("1"@)),
                        },
                    ),
                },
            ),
            body: Box::new(SpecStmt::Block(spec_block_statements(n.block))),
        },
    }
}

/// Whether `e` is a number literal.
pub open spec fn is_number_literal(e: Expression) -> bool {
    match e {
        Expression::Value { value, .. } => *value is Number,
        _ => false,
    }
}

/// Whether `e` is a negated number literal.
pub open spec fn is_negated_number_literal(e: Expression) -> bool {
    match e {
        Expression::UnaryOperator { unop, expression } => unop is Minus && is_number_literal(
            *expression,
        ),
        _ => false,
    }
}

/// The parts of a `for (init; test; update) body` statement.
pub open spec fn for_parts(st: SpecStmt) -> Option<(SpecVarDecl, SpecExpr, SpecExpr, SpecStmt)> {
    match st {
        SpecStmt::For { init, test, update, body } => Some((init, *test, *update, *body)),
        _ => None,
    }
}

/// `i op end`, with `i` the loop variable.
pub open spec fn counter_test(n: NumericFor, op: BinaryOp) -> SpecExpr {
    SpecExpr::Bin {
        op,
        left: Box::new(SpecExpr::Ident(n.index_variable@)),
        right: Box::new(spec_expression(n.end)),
    }
}

/// `i += by`, with `i` the loop variable.
pub open spec fn counter_step(n: NumericFor, by: SpecExpr) -> SpecExpr {
    SpecExpr::Assign {
        op: AssignOp::AddAssign,
        left: SpecPatOrExpr::Expr(Box::new(SpecExpr::Ident(n.index_variable@))),
        right: Box::new(by),
    }
}

/// A numeric loop counts its variable from the start value, declared with
/// `let`, and runs its block while the variable has not passed the end value:
/// counting up by 1 with no step, up by the step while `i <= end` for a
/// number step, down by the step while `i >= end` for a negated number step.
/// Any other step is not transformed into a loop.
pub proof fn lemma_numeric_for_counts(n: NumericFor)
    ensures
        n.step is None ==> for_parts(spec_numeric_for(n)) is Some,
        n.step is None ==> for_parts(spec_numeric_for(n)).unwrap().1 == counter_test(
            n,
            BinaryOp::LtEq,
        ),
        n.step is None ==> for_parts(spec_numeric_for(n)).unwrap().2 == counter_step(
            n,
            SpecExpr::Lit(SpecLit::Num("1"@)),
        ),
        n.step matches Some(e) ==> (is_number_literal(e) ==> for_parts(spec_numeric_for(n)) is Some),
        n.step matches Some(e) ==> (is_number_literal(e) ==> for_parts(
            spec_numeric_for(n),
        ).unwrap().1 == counter_test(n, BinaryOp::LtEq)),
        n.step matches Some(e) ==> (is_number_literal(e) ==> for_parts(
            spec_numeric_for(n),
        ).unwrap().2 == counter_step(n, spec_expression(e))),
        n.step matches Some(e) ==> (is_negated_number_literal(e) ==> for_parts(
            spec_numeric_for(n),
        ) is Some),
        n.step matches Some(e) ==> (is_negated_number_literal(e) ==> for_parts(
            spec_numeric_for(n),
        ).unwrap().1 == counter_test(n, BinaryOp::GtEq)),
        n.step matches Some(e) ==> (is_negated_number_literal(e) ==> for_parts(
            spec_numeric_for(n),
        ).unwrap().2 == counter_step(n, spec_expression(e))),
        n.step matches Some(e) ==> (!is_number_literal(e) && !is_negated_number_literal(e)
            ==> for_parts(spec_numeric_for(n)) is None),
        for_parts(spec_numeric_for(n)) is Some ==> for_parts(spec_numeric_for(n)).unwrap().0
            == (SpecVarDecl {
            kind: VarDeclKind::Let,
            decls: seq![
                SpecDeclarator {
                    name: SpecPat::Ident(spec_index_binding(n)),
                    init: Some(spec_expression(n.start)),
                },
            ],
        }),
        for_parts(spec_numeric_for(n)) is Some ==> for_parts(spec_numeric_for(n)).unwrap().3
            == SpecStmt::Block(spec_block_statements(n.block)),
{
}

pub(crate) fn comparison(step: &Option<Expression>) -> (r: Option<BinaryOp>)
    ensures
        r == step_comparison(*step),
{
    match step {
        None => Some(BinaryOp::LtEq),
        Some(expr) => match expr {
            Expression::Value { value, .. } => match &**value {
                Value::Number(_) => Some(BinaryOp::LtEq),
                _ => None,
            },
            Expression::UnaryOperator { unop: UnOp::Minus, expression } => match &**expression {
                Expression::Value { value, .. } => match &**value {
                    Value::Number(_) => Some(BinaryOp::GtEq),
                    _ => None,
                },
                _ => None,
            },
            _ => None,
        },
    }
}

/// The loop variable `i: T` as a pattern.
fn index_pat(numeric_for: &NumericFor) -> (r: Pat)
    ensures
        view_pat(r) == SpecPat::Ident(spec_index_binding(*numeric_for)),
{
    let type_ann = match &numeric_for.type_specifier {
        Some(t) => Some(transform_type_specifier(t)),
        None => None,
    };
    let b = BindingIdent { id: ident(numeric_for.index_variable.clone()), type_ann };
    assert(view_binding(b) == spec_index_binding(*numeric_for));
    Pat::Ident(b)
}

/// `let name = start`.
fn loop_init(name: Pat, start: &Expression) -> (r: VarDecl)
    requires
        accepted_expression(*start),
    ensures
        view_var_decl(r) == (SpecVarDecl {
            kind: VarDeclKind::Let,
            decls: seq![SpecDeclarator { name: view_pat(name), init: Some(spec_expression(*start)) }],
        }),
    decreases start, 1nat,
{
    let ghost d = SpecDeclarator { name: view_pat(name), init: Some(spec_expression(*start)) };
    let init = Some(transform_expression(start));
    let declarator = VarDeclarator { name, init };
    assert(view_declarator(declarator) == d);
    let mut decls = Vec::new();
    decls.push(declarator);
    assert(view_declarators(decls@) =~= seq![d]);
    let decl = VarDecl { kind: VarDeclKind::Let, decls };
    assert(view_var_decl(decl) == SpecVarDecl { kind: VarDeclKind::Let, decls: seq![d] });
    decl
}

/// `i <= b` or `i >= b`.
fn loop_test(numeric_for: &NumericFor, op: BinaryOp) -> (r: Box<Expr>)
    requires
        accepted_expression(numeric_for.end),
    ensures
        r@ == (SpecExpr::Bin {
            op,
            left: Box::new(SpecExpr::Ident(numeric_for.index_variable@)),
            right: Box::new(spec_expression(numeric_for.end)),
        }),
    decreases numeric_for, 0nat,
{
    let left = boxed(Expr::Ident(ident(numeric_for.index_variable.clone())));
    assert(left@ == SpecExpr::Ident(numeric_for.index_variable@));
    let right = transform_expression(&numeric_for.end);
    let ghost rv = right@;
    let r = boxed(Expr::Bin { op, left, right });
    assert(r@ == SpecExpr::Bin {
        op,
        left: Box::new(SpecExpr::Ident(numeric_for.index_variable@)),
        right: Box::new(rv),
    });
    r
}

/// `i += s`, with `1` as the step when there is none.
fn loop_update(numeric_for: &NumericFor) -> (r: Box<Expr>)
    requires
        match numeric_for.step {
            Some(e) => accepted_expression(e),
            None => true,
        },
    ensures
        r@ == (SpecExpr::Assign {
            op: AssignOp::AddAssign,
            left: SpecPatOrExpr::Expr(Box::new(SpecExpr::Ident(numeric_for.index_variable@))),
            right: Box::new(
                match numeric_for.step {
                    Some(e) => spec_expression(e),
                    None => SpecExpr::Lit(SpecLit::Num("1"@)),
                },
            ),
        }),
    decreases numeric_for, 0nat,
{
    let step = match &numeric_for.step {
        Some(e) => transform_expression(e),
        None => {
            let one = boxed(Expr::Lit(Lit::Num("1".to_owned())));
            assert(one@ == SpecExpr::Lit(SpecLit::Num("1"@)));
            one
        },
    };
    let ghost sv = step@;
    let target = boxed(Expr::Ident(ident(numeric_for.index_variable.clone())));
    assert(target@ == SpecExpr::Ident(numeric_for.index_variable@));
    let left = PatOrExpr::Expr(target);
    assert(view_pat_or_expr(left) == SpecPatOrExpr::Expr(
        Box::new(SpecExpr::Ident(numeric_for.index_variable@)),
    ));
    let r = boxed(Expr::Assign { op: AssignOp::AddAssign, left, right: step });
    assert(r@ == SpecExpr::Assign {
        op: AssignOp::AddAssign,
        left: SpecPatOrExpr::Expr(Box::new(SpecExpr::Ident(numeric_for.index_variable@))),
        right: Box::new(sv),
    });
    r
}

/// Transforms a numeric for loop.
pub fn transform_numeric_for(numeric_for: &NumericFor) -> (r: Stmt)
    requires
        step_comparison(numeric_for.step) is Some ==> {
            &&& accepted_expression(numeric_for.start)
            &&& accepted_expression(numeric_for.end)
            &&& match numeric_for.step {
                Some(e) => accepted_expression(e),
                None => true,
            }
            &&& accepted_block(numeric_for.block)
        },
    ensures
        r@ == spec_numeric_for(*numeric_for),
    decreases numeric_for, 1nat,
{
    let op = match comparison(&numeric_for.step) {
        Some(op) => op,
        None => {
            return skip_stmt(
                "Numeric for loops with non-literal step are not supported",
                numeric_for.source.as_str(),
            );
        },
    };
    let init = loop_init(index_pat(numeric_for), &numeric_for.start);
    let test = loop_test(numeric_for, op);
    let update = loop_update(numeric_for);
    let body = boxed(transform_block(&numeric_for.block));
    assert(body@ == SpecStmt::Block(spec_block_statements(numeric_for.block)));
    let ghost (iv, tv, uv, bv) = (view_var_decl(init), test@, update@, body@);
    let r = Stmt::For { init, test, update, body };
    assert(r@ == SpecStmt::For {
        init: iv,
        test: Box::new(tv),
        update: Box::new(uv),
        body: Box::new(bv),
    });
    r
}

} // verus!
