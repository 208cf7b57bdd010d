use vstd::prelude::*;
use crate::accepted::{accepted_expression, accepted_var};
use crate::expressions::transform_expression::{spec_expression, transform_expression};
use crate::expressions::transform_var::{spec_var, transform_var};
use crate::lua::{CompoundAssignment, CompoundOp};
use crate::ts::{view_pat_or_expr, AssignOp, Expr, PatOrExpr, SpecExpr, SpecPatOrExpr, SpecStmt, Stmt};
use crate::util::{boxed, skip_stmt, spec_skip_stmt};

verus! {

/// The TypeScript operator of a compound assignment: `..=` is `+=`, `^=` is
/// `**=`; the others keep their symbol.
pub open spec fn compound_op_of(op: CompoundOp) -> Option<AssignOp> {
    match op {
        CompoundOp::PlusEqual => Some(AssignOp::AddAssign),
        CompoundOp::MinusEqual => Some(AssignOp::SubAssign),
        CompoundOp::StarEqual => Some(AssignOp::MulAssign),
        CompoundOp::SlashEqual => Some(AssignOp::DivAssign),
        CompoundOp::PercentEqual => Some(AssignOp::ModAssign),
        CompoundOp::CaretEqual => Some(AssignOp::ExpAssign),
        CompoundOp::TwoDotsEqual => Some(AssignOp::AddAssign),
        CompoundOp::Other(_) => None,
    }
}

pub open spec fn spec_compound_assignment(c: CompoundAssignment) -> SpecStmt
    decreases c,
{
    match c.operator {
        CompoundOp::Other(source) => spec_skip_stmt(
            "Unknown compound assignment operator"@,
            source@,
        ),
        _ => SpecStmt::Expr(
            Box::new(
                SpecExpr::Assign {
                    op: compound_op_of(c.operator).unwrap(),
                    left: SpecPatOrExpr::Expr(Box::new(spec_var(c.lhs))),
                    right: Box::new(spec_expression(c.rhs)),
                },
            ),
        ),
    }
}

/// `lhs op= rhs` in TypeScript: the assignment operator `op` applied to the
/// transformed target and value.
pub open spec fn assigned_with(op: AssignOp, c: CompoundAssignment) -> SpecStmt {
    SpecStmt::Expr(
        Box::new(
            SpecExpr::Assign {
                op,
                left: SpecPatOrExpr::Expr(Box::new(spec_var(c.lhs))),
                right: Box::new(spec_expression(c.rhs)),
            },
        ),
    )
}

/// Every known compound assignment keeps its arithmetic meaning on the same
/// target and value: `-=` is `-=`, `+=` is `+=`, `*=` is `*=`, `/=` is `/=`,
/// `%=` is `%=`, `^=` is `**=`, and the concatenation `..=` is `+=`.
pub proof fn lemma_compound_operator_meaning(c: CompoundAssignment)
    ensures
        c.operator is MinusEqual ==> spec_compound_assignment(c) == assigned_with(AssignOp::SubAssign, c),
        c.operator is PlusEqual ==> spec_compound_assignment(c) == assigned_with(AssignOp::AddAssign, c),
        c.operator is StarEqual ==> spec_compound_assignment(c) == assigned_with(AssignOp::MulAssign, c),
        c.operator is SlashEqual ==> spec_compound_assignment(c) == assigned_with(AssignOp::DivAssign, c),
        c.operator is PercentEqual ==> spec_compound_assignment(c) == assigned_with(AssignOp::ModAssign, c),
        c.operator is CaretEqual ==> spec_compound_assignment(c) == assigned_with(AssignOp::ExpAssign, c),
        c.operator is TwoDotsEqual ==> spec_compound_assignment(c) == assigned_with(AssignOp::AddAssign, c),
        compound_op_of(CompoundOp::MinusEqual) == Some(AssignOp::SubAssign),
{
}

fn compound_op(op: &CompoundOp) -> (r: Option<AssignOp>)
    ensures
        r == compound_op_of(*op),
{
    match op {
        CompoundOp::PlusEqual => Some(AssignOp::AddAssign),
        CompoundOp::MinusEqual => Some(AssignOp::SubAssign),
        CompoundOp::StarEqual => Some(AssignOp::MulAssign),
        CompoundOp::SlashEqual => Some(AssignOp::DivAssign),
        CompoundOp::PercentEqual => Some(AssignOp::ModAssign),
        CompoundOp::CaretEqual => Some(AssignOp::ExpAssign),
        CompoundOp::TwoDotsEqual => Some(AssignOp::AddAssign),
        CompoundOp::Other(_) => None,
    }
}

/// Transforms a compound assignment such as `a += 1`.
pub fn transform_compound_assignment(assignment: &CompoundAssignment) -> (r: Stmt)
    requires
        assignment.operator is Other || (accepted_var(assignment.lhs) && accepted_expression(
            assignment.rhs,
        )),
    ensures
        r@ == spec_compound_assignment(*assignment),
    decreases assignment, 0nat,
{
    if let CompoundOp::Other(source) = &assignment.operator {
        return skip_stmt("Unknown compound assignment operator", source.as_str());
    }
    let op = match compound_op(&assignment.operator) {
        Some(op) => op,
        None => {
            proof {
                assert(false);
            }
            vstd::pervasive::unreached()
        },
    };
    let lhs = transform_var(&assignment.lhs);
    let ghost lhs_view = lhs@;
    let left = PatOrExpr::Expr(lhs);
    assert(view_pat_or_expr(left) == SpecPatOrExpr::Expr(Box::new(lhs_view)));
    let right = transform_expression(&assignment.rhs);
    let ghost right_view = right@;
    let ghost expected = SpecExpr::Assign {
        op,
        left: SpecPatOrExpr::Expr(Box::new(lhs_view)),
        right: Box::new(right_view),
    };
    let e = boxed(Expr::Assign { op, left, right });
    assert(e@ == expected);
    assert(spec_compound_assignment(*assignment) == SpecStmt::Expr(Box::new(expected)));
    Stmt::Expr(e)
}

} // verus!
