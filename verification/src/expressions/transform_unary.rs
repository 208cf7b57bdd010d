use vstd::prelude::*;
use crate::accepted::accepted_expression;
use crate::expressions::transform_expression::{spec_expression, transform_expression};
use crate::lua::{Expression, UnOp};
use crate::ts::{view_args, view_member_prop, Expr, ExprOrSpread, MemberProp, SpecArg, SpecExpr, SpecMemberProp, UnaryOp};
use crate::util::{boxed, ident_str, skip, spec_skip};

verus! {

/// A unary operator applied to the already transformed operand `arg`: `#t`
/// becomes `t.size()`; `not e` becomes `!e`; `-e` stays `-e`.
pub open spec fn spec_unary_with(op: UnOp, arg: SpecExpr) -> SpecExpr {
    match op {
        UnOp::Hash => SpecExpr::Call {
            callee: Box::new(SpecExpr::Member { obj: Box::new(arg), prop: SpecMemberProp::Ident("size"@) }),
            args: Seq::<SpecArg>::empty(),
        },
        UnOp::Not => SpecExpr::Unary { op: UnaryOp::Bang, arg: Box::new(arg) },
        UnOp::Minus => SpecExpr::Unary { op: UnaryOp::Minus, arg: Box::new(arg) },
        UnOp::Other(source) => spec_skip("Unknown unary operator"@, source@),
    }
}

/// `op e`.
pub open spec fn spec_unary_expression(op: UnOp, e: Expression) -> SpecExpr {
    spec_unary_with(op, spec_expression(e))
}

/// `not e` is the negation `!e` of the same operand, `-e` the arithmetic
/// negation `-e`, and the length `#t` is `t.size()`, a call of `size` on the
/// same operand with no arguments.
pub proof fn lemma_unary_operator_meaning(op: UnOp, e: Expression)
    ensures
        op is Not ==> spec_unary_expression(op, e) == (SpecExpr::Unary {
            op: UnaryOp::Bang,
            arg: Box::new(spec_expression(e)),
        }),
        op is Minus ==> spec_unary_expression(op, e) == (SpecExpr::Unary {
            op: UnaryOp::Minus,
            arg: Box::new(spec_expression(e)),
        }),
        op is Hash ==> spec_unary_expression(op, e) == (SpecExpr::Call {
            callee: Box::new(
                SpecExpr::Member {
                    obj: Box::new(spec_expression(e)),
                    prop: SpecMemberProp::Ident("size"@),
                },
            ),
            args: Seq::<SpecArg>::empty(),
        }),
{
}

/// Transforms `op expression`.
pub fn transform_unary_expression(op: &UnOp, expression: &Expression) -> (r: Expr)
    requires
        *op is Other || accepted_expression(*expression),
    ensures
        r@ == spec_unary_expression(*op, *expression),
    decreases expression, 1nat,
{
    match op {
        UnOp::Hash => {
            let obj = transform_expression(expression);
            let ghost obj_view = obj@;
            let prop = MemberProp::Ident(ident_str("size"));
            assert(view_member_prop(prop) == SpecMemberProp::Ident("size"@));
            let callee = boxed(Expr::Member { obj, prop });
            assert(callee@ == SpecExpr::Member {
                obj: Box::new(obj_view),
                prop: SpecMemberProp::Ident("size"@),
            });
            let args: Vec<ExprOrSpread> = Vec::new();
            assert(view_args(args@) =~= Seq::<SpecArg>::empty());
            Expr::Call { callee, args }
        },
        UnOp::Not => Expr::Unary { op: UnaryOp::Bang, arg: transform_expression(expression) },
        UnOp::Minus => Expr::Unary { op: UnaryOp::Minus, arg: transform_expression(expression) },
        UnOp::Other(source) => *skip("Unknown unary operator", source.as_str()),
    }
}

} // verus!
