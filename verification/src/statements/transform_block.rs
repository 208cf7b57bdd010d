use vstd::prelude::*;
use crate::accepted::accepted_block;
use crate::lua::Block;
use crate::statements::transform_block_statements::{
    spec_block_statements, transform_block_statements,
};
use crate::ts::{SpecStmt, Stmt};

verus! {

/// A block becomes a block statement `{ ... }`.
pub open spec fn spec_block(b: Block) -> SpecStmt {
    SpecStmt::Block(spec_block_statements(b))
}

/// Transforms a block into a block statement.
pub fn transform_block(block: &Block) -> (r: Stmt)
    requires
        accepted_block(*block),
    ensures
        r@ == spec_block(*block),
    decreases block, 1nat,
{
    Stmt::Block(transform_block_statements(block))
}

} // verus!
