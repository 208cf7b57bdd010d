use vstd::prelude::*;
use crate::accepted::{accepted_block, accepted_expression};
use crate::expressions::transform_expression::{spec_expression, transform_expression};
use crate::lua::{ElseIf, If};
use crate::statements::transform_block::transform_block;
use crate::statements::transform_block_statements::spec_block_statements;
use crate::ts::{view_stmt, SpecExpr, SpecStmt, Stmt};
use crate::util::boxed;

verus! {

/// The model of an optional statement.
pub open spec fn view_opt_stmt(s: Option<Box<Stmt>>) -> Option<SpecStmt> {
    match s {
        Some(b) => Some(view_stmt(*b)),
        None => None,
    }
}

/// `elseif c then ... ... else ...` as nested `if (c) { ... } else ...`.
pub open spec fn spec_else_if_stmt_chain(s: Seq<ElseIf>, last: Option<SpecStmt>) -> Option<SpecStmt>
    decreases s,
{
    if s.len() == 0 {
        last
    } else {
        Some(
            SpecStmt::If {
                test: Box::new(spec_expression(s[0].condition)),
                cons: Box::new(SpecStmt::Block(spec_block_statements(s[0].block))),
                alt: match spec_else_if_stmt_chain(s.drop_first(), last) {
                    Some(x) => Some(Box::new(x)),
                    None => None,
                },
            },
        )
    }
}

/// The `else` branch, as a block statement.
pub open spec fn spec_else_stmt(b: Option<crate::lua::Block>) -> Option<SpecStmt>
    decreases b,
{
    match b {
        Some(b) => Some(SpecStmt::Block(spec_block_statements(b))),
        None => None,
    }
}

/// `if c then a elseif d then b else e end` becomes
/// `if (c) { a } else if (d) { b } else { e }`.
pub open spec fn spec_if_statement(i: If) -> SpecStmt
    decreases i,
{
    let else_stmt = spec_else_stmt(i.else_block);
    SpecStmt::If {
        test: Box::new(spec_expression(i.condition)),
        cons: Box::new(SpecStmt::Block(spec_block_statements(i.block))),
        alt: match (
            match i.else_if {
                None => else_stmt,
                Some(v) => spec_else_if_stmt_chain(v@, else_stmt),
            }
        ) {
            Some(x) => Some(Box::new(x)),
            None => None,
        },
    }
}

/// The statement reached from `st` by taking the `else` branch `k` times.
pub open spec fn nth_else(st: Option<SpecStmt>, k: nat) -> Option<SpecStmt>
    decreases k,
{
    if k == 0 {
        st
    } else {
        match st {
            Some(SpecStmt::If { alt, .. }) => nth_else(
                match alt {
                    Some(b) => Some(*b),
                    None => None,
                },
                (k - 1) as nat,
            ),
            _ => st,
        }
    }
}

/// The test and the `then` branch of an `if` statement.
pub open spec fn if_parts(st: Option<SpecStmt>) -> Option<(SpecExpr, SpecStmt)> {
    match st {
        Some(SpecStmt::If { test, cons, .. }) => Some((*test, *cons)),
        _ => None,
    }
}

/// The `elseif` branches are tested in their source order: the `k`-th `if`
/// of the chain tests the `k`-th branch's condition and runs its block, and
/// after the last branch comes `last`.
pub proof fn lemma_else_if_stmt_chain_order(s: Seq<ElseIf>, last: Option<SpecStmt>)
    ensures
        forall|k: int|
            0 <= k < s.len() ==> #[trigger] if_parts(
                nth_else(spec_else_if_stmt_chain(s, last), k as nat),
            ) == Some(
                (spec_expression(s[k].condition), SpecStmt::Block(spec_block_statements(s[k].block))),
            ),
        nth_else(spec_else_if_stmt_chain(s, last), s.len()) == last,
    decreases s.len(),
{
    if s.len() > 0 {
        let t = s.drop_first();
        lemma_else_if_stmt_chain_order(t, last);
        let c = spec_else_if_stmt_chain(s, last);
        let ct = spec_else_if_stmt_chain(t, last);
        assert forall|k: int| 0 <= k < s.len() implies #[trigger] if_parts(nth_else(c, k as nat))
            == Some(
            (spec_expression(s[k].condition), SpecStmt::Block(spec_block_statements(s[k].block))),
        ) by {
            if k > 0 {
                assert(nth_else(c, k as nat) == nth_else(ct, (k - 1) as nat));
                assert(s[k] == t[k - 1]);
                assert(if_parts(nth_else(ct, (k - 1) as nat)) == Some(
                    (
                        spec_expression(t[k - 1].condition),
                        SpecStmt::Block(spec_block_statements(t[k - 1].block)),
                    ),
                ));
            }
        }
        assert(nth_else(c, s.len()) == nth_else(ct, t.len()));
    }
}

/// An `if` statement tests its condition first, then its `elseif` branches
/// in their source order, and runs its `else` block, if any, when none holds.
pub proof fn lemma_if_statement_order(i: If)
    ensures
        if_parts(Some(spec_if_statement(i))) == Some(
            (spec_expression(i.condition), SpecStmt::Block(spec_block_statements(i.block))),
        ),
        i.else_if matches Some(v) ==> forall|k: int|
            0 <= k < v@.len() ==> #[trigger] if_parts(
                nth_else(Some(spec_if_statement(i)), (k + 1) as nat),
            ) == Some(
                (spec_expression(v@[k].condition), SpecStmt::Block(spec_block_statements(v@[k].block))),
            ),
        i.else_if matches Some(v) ==> nth_else(Some(spec_if_statement(i)), (v@.len() + 1) as nat)
            == spec_else_stmt(i.else_block),
        i.else_if is None ==> nth_else(Some(spec_if_statement(i)), 1) == spec_else_stmt(
            i.else_block,
        ),
{
    let last = spec_else_stmt(i.else_block);
    match i.else_if {
        Some(v) => {
            lemma_else_if_stmt_chain_order(v@, last);
            assert forall|k: int| 0 <= k < v@.len() implies #[trigger] nth_else(
                Some(spec_if_statement(i)),
                (k + 1) as nat,
            ) == nth_else(spec_else_if_stmt_chain(v@, last), k as nat) by {}
            assert(nth_else(Some(spec_if_statement(i)), (v@.len() + 1) as nat) == nth_else(
                spec_else_if_stmt_chain(v@, last),
                v@.len(),
            ));
        },
        None => {
            assert(nth_else(Some(spec_if_statement(i)), 1) == nth_else(last, 0));
        },
    }
}

/// Builds the nested `else if` statements of `v` in front of `last`.
fn transform_else_if_stmt_chain(v: &Vec<ElseIf>, last: Option<Box<Stmt>>) -> (r: Option<Box<Stmt>>)
    requires
        forall|k: int|
            0 <= k < v@.len() ==> accepted_expression(#[trigger] v@[k].condition)
                && accepted_block(v@[k].block),
    ensures
        view_opt_stmt(r) == spec_else_if_stmt_chain(v@, view_opt_stmt(last)),
    decreases v, 0nat,
{
    let ghost last_view = view_opt_stmt(last);
    let n = v.len();
    let mut acc = last;
    let mut i: usize = n;
    assert(v@.subrange(n as int, n as int) =~= Seq::<ElseIf>::empty());
    while i > 0
        invariant
            n == v@.len(),
            i <= n,
            forall|k: int|
                0 <= k < v@.len() ==> accepted_expression(#[trigger] v@[k].condition)
                    && accepted_block(v@[k].block),
            view_opt_stmt(acc) == spec_else_if_stmt_chain(v@.subrange(i as int, n as int), last_view),
        decreases i,
    {
        i = i - 1;
        proof {
            assert(decreases_to!(*v => v[i as int]));
            assert(v@.subrange(i as int, n as int).drop_first() =~= v@.subrange(i + 1, n as int));
            assert(accepted_expression(v@[i as int].condition));
        }
        let else_if = &v[i];
        let test = transform_expression(&else_if.condition);
        let cons = boxed(transform_block(&else_if.block));
        acc = Some(boxed(Stmt::If { test, cons, alt: acc }));
    }
    assert(v@.subrange(0, n as int) =~= v@);
    acc
}

/// Transforms an if statement with its `elseif` and `else` branches.
pub fn transform_if_statement(statement: &If) -> (r: Stmt)
    requires
        accepted_expression(statement.condition),
        accepted_block(statement.block),
        match statement.else_if {
            Some(v) => forall|k: int|
                0 <= k < v@.len() ==> accepted_expression(#[trigger] v@[k].condition)
                    && accepted_block(v@[k].block),
            None => true,
        },
        match statement.else_block {
            Some(b) => accepted_block(b),
            None => true,
        },
    ensures
        r@ == spec_if_statement(*statement),
    decreases statement, 0nat,
{
    let test = transform_expression(&statement.condition);
    let cons = boxed(transform_block(&statement.block));
    let else_stmt = match &statement.else_block {
        Some(b) => Some(boxed(transform_block(b))),
        None => None,
    };
    assert(view_opt_stmt(else_stmt) == spec_else_stmt(statement.else_block));
    let alt = match &statement.else_if {
        None => else_stmt,
        Some(else_ifs) => transform_else_if_stmt_chain(else_ifs, else_stmt),
    };
    Stmt::If { test, cons, alt }
}

} // verus!
