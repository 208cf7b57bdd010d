use vstd::prelude::*;
use crate::accepted::{accepted_block, accepted_statement};
use crate::lua::{Block, Stmt as LuaStmt};
use crate::statements::transform_last_statement::{spec_last_statement, transform_last_statement};
use crate::statements::transform_statement::{spec_statement, transform_statement};
use crate::ts::{view_stmt, view_stmts, SpecStmt, Stmt};

verus! {

/// The statements that the statements of `s` become, in order.
pub open spec fn spec_stmt_list(s: Seq<LuaStmt>) -> Seq<SpecStmt>
    decreases s,
{
    if s.len() == 0 {
        Seq::empty()
    } else {
        spec_stmt_list(s.drop_last()) + spec_statement(s.last())
    }
}

/// The statements that a block becomes: those of its statements, then that
/// of its last statement (`return`, `break`, `continue`), if any.
pub open spec fn spec_block_statements(b: Block) -> Seq<SpecStmt>
    decreases b,
{
    spec_stmt_list(b.stmts@) + match b.last_stmt {
        Some(l) => seq![spec_last_statement(l)],
        None => Seq::empty(),
    }
}

/// Statements are transformed in order: those of `a` followed by `b` are
/// those of `a`, then those of `b`.
pub proof fn lemma_statements_in_order(a: Seq<LuaStmt>, b: Seq<LuaStmt>)
    ensures
        spec_stmt_list(a + b) == spec_stmt_list(a) + spec_stmt_list(b),
    decreases b.len(),
{
    if b.len() == 0 {
        assert(a + b =~= a);
        assert(spec_stmt_list(a) + spec_stmt_list(b) =~= spec_stmt_list(a));
    } else {
        lemma_statements_in_order(a, b.drop_last());
        assert((a + b).drop_last() =~= a + b.drop_last());
        assert((a + b).last() == b.last());
        assert(spec_stmt_list(a) + spec_stmt_list(b) =~= spec_stmt_list(a) + spec_stmt_list(
            b.drop_last(),
        ) + spec_statement(b.last()));
    }
}

/// A block becomes the statements of its statements, in order, followed by
/// the one statement of its last statement, if it has one.
pub proof fn lemma_block_ends_with_last_statement(b: Block)
    ensures
        b.last_stmt matches Some(l) ==> spec_block_statements(b) == spec_stmt_list(b.stmts@).push(
            spec_last_statement(l),
        ),
        b.last_stmt is None ==> spec_block_statements(b) == spec_stmt_list(b.stmts@),
{
    match b.last_stmt {
        Some(l) => {
            assert(spec_block_statements(b) =~= spec_stmt_list(b.stmts@).push(spec_last_statement(l)));
        },
        None => {
            assert(spec_block_statements(b) =~= spec_stmt_list(b.stmts@));
        },
    }
}

/// Appends `more` to `out`.
pub(crate) fn append_stmts(out: &mut Vec<Stmt>, more: Vec<Stmt>)
    ensures
        view_stmts(final(out)@) == view_stmts(old(out)@) + view_stmts(more@),
{
    let ghost a = out@;
    let ghost b = more@;
    let mut more = more;
    out.append(&mut more);
    assert(view_stmts(a + b) =~= view_stmts(a) + view_stmts(b));
}

/// Transforms the statements of a block.
pub fn transform_block_statements(block: &Block) -> (r: Vec<Stmt>)
    requires
        accepted_block(*block),
    ensures
        view_stmts(r@) == spec_block_statements(*block),
    decreases block, 0nat,
{
    let stmts = &block.stmts;
    let mut out: Vec<Stmt> = Vec::new();
    let mut i: usize = 0;
    assert(stmts@.take(0) =~= Seq::<LuaStmt>::empty());
    assert(view_stmts(out@) =~= Seq::<SpecStmt>::empty());
    while i < stmts.len()
        invariant
            i <= stmts@.len(),
            *stmts == block.stmts,
            accepted_block(*block),
            view_stmts(out@) == spec_stmt_list(stmts@.take(i as int)),
        decreases stmts@.len() - i,
    {
        proof {
            assert(decreases_to!(*stmts => stmts[i as int]));
            assert(stmts@.take(i + 1).drop_last() =~= stmts@.take(i as int));
            assert(accepted_statement(stmts@[i as int]));
        }
        let more = transform_statement(&stmts[i]);
        append_stmts(&mut out, more);
        i = i + 1;
    }
    assert(stmts@.take(stmts@.len() as int) =~= stmts@);
    match &block.last_stmt {
        Some(last) => {
            let s = transform_last_statement(last);
            let ghost before = out@;
            out.push(s);
            assert(view_stmts(out@) =~= view_stmts(before) + seq![spec_last_statement(*last)]);
        },
        None => {
            assert(view_stmts(out@) =~= view_stmts(out@) + Seq::<SpecStmt>::empty());
        },
    }
    out
}

} // verus!
