use vstd::prelude::*;
use crate::accepted::{accepted_expression, accepted_if_expression};
use crate::expressions::transform_expression::{spec_expression, transform_expression};
use crate::lua::{ElseIfExpression, IfExpression};
use crate::ts::{Expr, SpecExpr};
use crate::util::{boxed, parens};

verus! {

/// `elseif c then e ... else last` as nested conditionals `(c) ? (e) : ...`.
pub open spec fn spec_else_if_chain(s: Seq<ElseIfExpression>, last: SpecExpr) -> SpecExpr
    decreases s,
{
    if s.len() == 0 {
        last
    } else {
        SpecExpr::Cond {
            test: Box::new(SpecExpr::Paren(Box::new(spec_expression(s[0].condition)))),
            cons: Box::new(SpecExpr::Paren(Box::new(spec_expression(s[0].expression)))),
            alt: Box::new(spec_else_if_chain(s.drop_first(), last)),
        }
    }
}

/// `if c then a elseif ... else b` becomes the conditional `c ? a : ...`;
/// with no `elseif` part, the `else` branch is parenthesized.
pub open spec fn spec_if_expression(ie: IfExpression) -> SpecExpr
    decreases ie,
{
    SpecExpr::Cond {
        test: Box::new(spec_expression(ie.condition)),
        cons: Box::new(spec_expression(ie.if_expression)),
        alt: Box::new(
            match ie.else_if_expressions {
                None => SpecExpr::Paren(Box::new(spec_expression(ie.else_expression))),
                Some(v) => spec_else_if_chain(v@, spec_expression(ie.else_expression)),
            },
        ),
    }
}

/// The conditional reached from `e` by taking the alternative `k` times.
pub open spec fn nth_alternative(e: SpecExpr, k: nat) -> SpecExpr
    decreases k,
{
    if k == 0 {
        e
    } else {
        match e {
            SpecExpr::Cond { alt, .. } => nth_alternative(*alt, (k - 1) as nat),
            _ => e,
        }
    }
}

/// The test and the consequent of a conditional.
pub open spec fn cond_parts(e: SpecExpr) -> Option<(SpecExpr, SpecExpr)> {
    match e {
        SpecExpr::Cond { test, cons, .. } => Some((*test, *cons)),
        _ => None,
    }
}

/// The `elseif` branches are tested in their source order: the `k`-th
/// conditional of the chain tests the `k`-th branch's condition and gives its
/// expression, and after the last branch comes `last`.
pub proof fn lemma_else_if_chain_order(s: Seq<ElseIfExpression>, last: SpecExpr)
    ensures
        forall|k: int|
            0 <= k < s.len() ==> #[trigger] cond_parts(
                nth_alternative(spec_else_if_chain(s, last), k as nat),
            ) == Some(
                (
                    SpecExpr::Paren(Box::new(spec_expression(s[k].condition))),
                    SpecExpr::Paren(Box::new(spec_expression(s[k].expression))),
                ),
            ),
        nth_alternative(spec_else_if_chain(s, last), s.len()) == last,
    decreases s.len(),
{
    if s.len() > 0 {
        let t = s.drop_first();
        lemma_else_if_chain_order(t, last);
        let c = spec_else_if_chain(s, last);
        let ct = spec_else_if_chain(t, last);
        assert forall|k: int| 0 <= k < s.len() implies #[trigger] cond_parts(
            nth_alternative(c, k as nat),
        ) == Some(
            (
                SpecExpr::Paren(Box::new(spec_expression(s[k].condition))),
                SpecExpr::Paren(Box::new(spec_expression(s[k].expression))),
            ),
        ) by {
            if k > 0 {
                assert(nth_alternative(c, k as nat) == nth_alternative(ct, (k - 1) as nat));
                assert(s[k] == t[k - 1]);
                assert(cond_parts(nth_alternative(ct, (k - 1) as nat)) == Some(
                    (
                        SpecExpr::Paren(Box::new(spec_expression(t[k - 1].condition))),
                        SpecExpr::Paren(Box::new(spec_expression(t[k - 1].expression))),
                    ),
                ));
            }
        }
        assert(nth_alternative(c, s.len()) == nth_alternative(ct, t.len()));
    }
}

/// An if-expression tests its condition first, then its `elseif` branches in
/// their source order, and gives its `else` expression when none holds.
pub proof fn lemma_if_expression_order(ie: IfExpression)
    ensures
        cond_parts(spec_if_expression(ie)) == Some(
            (spec_expression(ie.condition), spec_expression(ie.if_expression)),
        ),
        ie.else_if_expressions matches Some(v) ==> forall|k: int|
            0 <= k < v@.len() ==> #[trigger] cond_parts(
                nth_alternative(spec_if_expression(ie), (k + 1) as nat),
            ) == Some(
                (
                    SpecExpr::Paren(Box::new(spec_expression(v@[k].condition))),
                    SpecExpr::Paren(Box::new(spec_expression(v@[k].expression))),
                ),
            ),
        ie.else_if_expressions matches Some(v) ==> nth_alternative(
            spec_if_expression(ie),
            (v@.len() + 1) as nat,
        ) == spec_expression(ie.else_expression),
        ie.else_if_expressions is None ==> nth_alternative(spec_if_expression(ie), 1)
            == SpecExpr::Paren(Box::new(spec_expression(ie.else_expression))),
{
    match ie.else_if_expressions {
        Some(v) => {
            let last = spec_expression(ie.else_expression);
            lemma_else_if_chain_order(v@, last);
            assert forall|k: int| 0 <= k < v@.len() implies #[trigger] nth_alternative(
                spec_if_expression(ie),
                (k + 1) as nat,
            ) == nth_alternative(spec_else_if_chain(v@, last), k as nat) by {}
            assert(nth_alternative(spec_if_expression(ie), (v@.len() + 1) as nat) == nth_alternative(
                spec_else_if_chain(v@, last),
                v@.len(),
            ));
        },
        None => {
            let alt = SpecExpr::Paren(Box::new(spec_expression(ie.else_expression)));
            assert(nth_alternative(spec_if_expression(ie), 1) == nth_alternative(alt, 0));
        },
    }
}

fn transform_else_if_chain(v: &Vec<ElseIfExpression>, last: Box<Expr>) -> (r: Box<Expr>)
    requires
        forall|k: int|
            0 <= k < v@.len() ==> accepted_expression(#[trigger] v@[k].condition)
                && accepted_expression(v@[k].expression),
    ensures
        r@ == spec_else_if_chain(v@, last@),
    decreases v, 0nat,
{
    let ghost last_view = last@;
    let n = v.len();
    let mut acc = last;
    let mut i: usize = n;
    assert(v@.subrange(n as int, n as int) =~= Seq::<ElseIfExpression>::empty());
    while i > 0
        invariant
            n == v@.len(),
            i <= n,
            forall|k: int|
                0 <= k < v@.len() ==> accepted_expression(#[trigger] v@[k].condition)
                    && accepted_expression(v@[k].expression),
            acc@ == spec_else_if_chain(v@.subrange(i as int, n as int), last_view),
        decreases i,
    {
        i = i - 1;
        proof {
            assert(decreases_to!(*v => v[i as int]));
            assert(v@.subrange(i as int, n as int).drop_first() =~= v@.subrange(i + 1, n as int));
            assert(accepted_expression(v@[i as int].condition));
        }
        let else_if = &v[i];
        let test = parens(transform_expression(&else_if.condition));
        let cons = parens(transform_expression(&else_if.expression));
        acc = boxed(Expr::Cond { test, cons, alt: acc });
    }
    assert(v@.subrange(0, n as int) =~= v@);
    acc
}

/// Transforms an if-expression into a conditional expression.
pub fn transform_if_expression(expression: &IfExpression) -> (r: Box<Expr>)
    requires
        accepted_if_expression(*expression),
    ensures
        r@ == spec_if_expression(*expression),
    decreases expression, 0nat,
{
    let test = transform_expression(&expression.condition);
    let cons = transform_expression(&expression.if_expression);
    let alt = match &expression.else_if_expressions {
        None => parens(transform_expression(&expression.else_expression)),
        Some(else_ifs) => transform_else_if_chain(
            else_ifs,
            transform_expression(&expression.else_expression),
        ),
    };
    boxed(Expr::Cond { test, cons, alt })
}

} // verus!
