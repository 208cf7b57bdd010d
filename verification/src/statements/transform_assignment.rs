use vstd::prelude::*;
use crate::accepted::{accepted_expressions, accepted_var, accepted_vars};
use crate::expressions::transform_expression::{spec_expression, transform_expression};
use crate::expressions::transform_var::{spec_var, transform_var};
use crate::lua::{Assignment, Expression, Var};
use crate::ts::{
    view_pat, view_pat_or_expr, view_opt_arg, view_opt_args, view_opt_pat, view_opt_pats, AssignOp, Expr, ExprOrSpread, Pat,
    PatOrExpr, SpecArg, SpecExpr, SpecPat, SpecPatOrExpr, SpecStmt, Stmt,
};
use crate::util::boxed;

verus! {

/// Each variable, as an element of an array pattern.
pub open spec fn spec_var_pats(s: Seq<Var>) -> Seq<Option<SpecPat>>
    decreases s,
{
    Seq::new(
        s.len(),
        |i: int|
            if 0 <= i < s.len() {
                Some(SpecPat::Expr(Box::new(spec_var(s[i]))))
            } else {
                arbitrary()
            },
    )
}

/// Each expression, as an element of an array literal.
pub open spec fn spec_expr_elems(s: Seq<Expression>) -> Seq<Option<SpecArg>>
    decreases s,
{
    Seq::new(
        s.len(),
        |i: int|
            if 0 <= i < s.len() {
                Some(SpecArg { spread: false, expr: spec_expression(s[i]) })
            } else {
                arbitrary()
            },
    )
}

/// `a = e` becomes `a = e`; with several names or values on either side, that
/// side becomes an array: `a, b = 1, 2` becomes `[a, b] = [1, 2]`.
pub open spec fn spec_assignment(a: Assignment) -> SpecStmt
    decreases a,
{
    SpecStmt::Expr(
        Box::new(
            SpecExpr::Assign {
                op: AssignOp::Assign,
                left: if a.variables@.len() == 1 {
                    SpecPatOrExpr::Expr(Box::new(spec_var(a.variables@[0])))
                } else {
                    SpecPatOrExpr::Pat(Box::new(SpecPat::Array(spec_var_pats(a.variables@))))
                },
                right: Box::new(
                    if a.expressions@.len() != 1 {
                        SpecExpr::Array(spec_expr_elems(a.expressions@))
                    } else {
                        spec_expression(a.expressions@[0])
                    },
                ),
            },
        ),
    )
}

/// The operator, target and value of an expression statement that assigns.
pub open spec fn assignment_parts(st: SpecStmt) -> Option<(AssignOp, SpecPatOrExpr, SpecExpr)> {
    match st {
        SpecStmt::Expr(e) => match *e {
            SpecExpr::Assign { op, left, right } => Some((op, left, *right)),
            _ => None,
        },
        _ => None,
    }
}

/// An assignment assigns with `=`. Its value side is the one value itself,
/// transformed, when there is exactly one, whatever the number of targets
/// (so `a, b = f()` destructures what `f()` returns); otherwise it is an
/// array literal of the values in order. Its target side is the one target
/// when there is exactly one, otherwise an array pattern of the targets in
/// order.
pub proof fn lemma_assignment_sides(a: Assignment)
    ensures
        assignment_parts(spec_assignment(a)) is Some,
        assignment_parts(spec_assignment(a)).unwrap().0 == AssignOp::Assign,
        a.expressions@.len() == 1 ==> assignment_parts(spec_assignment(a)).unwrap().2
            == spec_expression(a.expressions@[0]),
        a.expressions@.len() != 1 ==> assignment_parts(spec_assignment(a)).unwrap().2
            == SpecExpr::Array(
            Seq::new(
                a.expressions@.len(),
                |k: int| Some(SpecArg { spread: false, expr: spec_expression(a.expressions@[k]) }),
            ),
        ),
        a.variables@.len() == 1 ==> assignment_parts(spec_assignment(a)).unwrap().1
            == SpecPatOrExpr::Expr(Box::new(spec_var(a.variables@[0]))),
        a.variables@.len() != 1 ==> assignment_parts(spec_assignment(a)).unwrap().1
            == SpecPatOrExpr::Pat(
            Box::new(
                SpecPat::Array(
                    Seq::new(
                        a.variables@.len(),
                        |k: int| Some(SpecPat::Expr(Box::new(spec_var(a.variables@[k])))),
                    ),
                ),
            ),
        ),
{
    assert(spec_expr_elems(a.expressions@) =~= Seq::new(
        a.expressions@.len(),
        |k: int| Some(SpecArg { spread: false, expr: spec_expression(a.expressions@[k]) }),
    ));
    assert(spec_var_pats(a.variables@) =~= Seq::new(
        a.variables@.len(),
        |k: int| Some(SpecPat::Expr(Box::new(spec_var(a.variables@[k])))),
    ));
}

fn transform_var_pats(v: &Vec<Var>) -> (r: Vec<Option<Pat>>)
    requires
        accepted_vars(v@),
    ensures
        view_opt_pats(r@) == spec_var_pats(v@),
    decreases v, 0nat,
{
    let mut out: Vec<Option<Pat>> = Vec::new();
    let mut i: usize = 0;
    while i < v.len()
        invariant
            i <= v@.len(),
            out@.len() == i,
            accepted_vars(v@),
            forall|k: int| 0 <= k < i ==> view_opt_pat(#[trigger] out@[k]) == spec_var_pats(v@)[k],
        decreases v@.len() - i,
    {
        proof {
            assert(decreases_to!(*v => v[i as int]));
            assert(accepted_var(v@[i as int]));
        }
        out.push(Some(Pat::Expr(transform_var(&v[i]))));
        i = i + 1;
    }
    assert(view_opt_pats(out@) =~= spec_var_pats(v@));
    out
}

/// Each expression, transformed, as an element of an array literal.
pub(crate) fn transform_expr_elems(v: &Vec<Expression>) -> (r: Vec<Option<ExprOrSpread>>)
    requires
        accepted_expressions(v@),
    ensures
        view_opt_args(r@) == spec_expr_elems(v@),
    decreases v, 0nat,
{
    let mut out: Vec<Option<ExprOrSpread>> = Vec::new();
    let mut i: usize = 0;
    while i < v.len()
        invariant
            i <= v@.len(),
            out@.len() == i,
            accepted_expressions(v@),
            forall|k: int| 0 <= k < i ==> view_opt_arg(#[trigger] out@[k]) == spec_expr_elems(v@)[k],
        decreases v@.len() - i,
    {
        proof {
            assert(decreases_to!(*v => v[i as int]));
            assert(crate::accepted::accepted_expression(v@[i as int]));
        }
        out.push(Some(ExprOrSpread { spread: false, expr: transform_expression(&v[i]) }));
        i = i + 1;
    }
    assert(view_opt_args(out@) =~= spec_expr_elems(v@));
    out
}

/// Transforms an assignment.
pub fn transform_assignment(assignment: &Assignment) -> (r: Stmt)
    requires
        accepted_vars(assignment.variables@),
        accepted_expressions(assignment.expressions@),
    ensures
        r@ == spec_assignment(*assignment),
    decreases assignment, 0nat,
{
    let names = &assignment.variables;
    let expressions = &assignment.expressions;
    let ghost left_view = if names@.len() == 1 {
        SpecPatOrExpr::Expr(Box::new(spec_var(names@[0])))
    } else {
        SpecPatOrExpr::Pat(Box::new(SpecPat::Array(spec_var_pats(names@))))
    };
    let ghost right_view = if expressions@.len() != 1 {
        SpecExpr::Array(spec_expr_elems(expressions@))
    } else {
        spec_expression(expressions@[0])
    };
    let left = if names.len() == 1 {
        proof {
            assert(decreases_to!(*names => names[0]));
            assert(accepted_var(names@[0]));
        }
        let l = PatOrExpr::Expr(transform_var(&names[0]));
        assert(view_pat_or_expr(l) == left_view);
        l
    } else {
        let p = boxed(Pat::Array(transform_var_pats(names)));
        assert(view_pat(*p) == SpecPat::Array(spec_var_pats(names@)));
        let l = PatOrExpr::Pat(p);
        assert(view_pat_or_expr(l) == left_view);
        l
    };
    let right = if expressions.len() != 1 {
        boxed(Expr::Array(transform_expr_elems(expressions)))
    } else {
        proof {
            assert(decreases_to!(*expressions => expressions[0]));
            assert(crate::accepted::accepted_expression(expressions@[0]));
        }
        transform_expression(&expressions[0])
    };
    assert(right@ == right_view);
    let e = boxed(Expr::Assign { op: AssignOp::Assign, left, right });
    assert(e@ == SpecExpr::Assign {
        op: AssignOp::Assign,
        left: left_view,
        right: Box::new(right_view),
    });
    Stmt::Expr(e)
}

} // verus!
