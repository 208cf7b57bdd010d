use vstd::prelude::*;
use crate::accepted::{accepted_block, accepted_expressions, accepted_last_statement, accepted_statement};
use crate::expressions::transform_expression::{spec_expression, transform_expression};
use crate::lua::{Block, LastStmt, Stmt as LuaStmt};
use crate::statements::transform_statement::{spec_statement, transform_statement};
use crate::ts::{
    view_module_item, view_module_items, view_stmts, Ident, ModuleItem, SpecModuleItem, Stmt,
};
use crate::types::transform_type_declaration::{spec_type_declaration, transform_type_declaration};

verus! {

/// The module items that a top-level statement becomes: an exported type
/// declaration becomes a type alias and its type-only export; any other
/// statement becomes its statements.
pub open spec fn spec_module_stmt(s: LuaStmt) -> Seq<SpecModuleItem> {
    match s {
        LuaStmt::ExportedTypeDeclaration { declaration, .. } => seq![
            SpecModuleItem::Stmt(spec_type_declaration(declaration)),
            SpecModuleItem::ExportTypeName(declaration.name_source@),
        ],
        _ => Seq::new(spec_statement(s).len(), |i: int| SpecModuleItem::Stmt(spec_statement(s)[i])),
    }
}

pub open spec fn spec_module_items(s: Seq<LuaStmt>) -> Seq<SpecModuleItem>
    decreases s.len(),
{
    if s.len() == 0 {
        Seq::empty()
    } else {
        spec_module_items(s.drop_last()) + spec_module_stmt(s.last())
    }
}

/// Whether a `return` that ends the block gives a value (a module exports
/// the first value it returns).
pub open spec fn returns_value(b: Block) -> bool {
    match b.last_stmt {
        Some(LastStmt::Return(v)) => v@.len() > 0,
        _ => true,
    }
}

/// The module that a file's top-level block becomes: its statements, then,
/// when the block ends with `return v, ...`, the default export of `v`.
pub open spec fn spec_module_block(b: Block) -> Seq<SpecModuleItem> {
    spec_module_items(b.stmts@) + match b.last_stmt {
        Some(LastStmt::Return(v)) => seq![SpecModuleItem::ExportDefault(spec_expression(v@[0]))],
        _ => Seq::empty(),
    }
}

/// Statements become module items in order: the items of `a` followed by
/// `b` are those of `a`, then those of `b`.
pub proof fn lemma_module_items_in_order(a: Seq<LuaStmt>, b: Seq<LuaStmt>)
    ensures
        spec_module_items(a + b) == spec_module_items(a) + spec_module_items(b),
    decreases b.len(),
{
    if b.len() == 0 {
        assert(a + b =~= a);
        assert(spec_module_items(a) + spec_module_items(b) =~= spec_module_items(a));
    } else {
        lemma_module_items_in_order(a, b.drop_last());
        assert((a + b).drop_last() =~= a + b.drop_last());
        assert((a + b).last() == b.last());
        assert(spec_module_items(a) + spec_module_items(b) =~= spec_module_items(a)
            + spec_module_items(b.drop_last()) + spec_module_stmt(b.last()));
    }
}

/// A module holds the items of its statements and, when its block ends by
/// returning values, ends with the default export of the first of them; a
/// block that does not end with `return` exports nothing.
pub proof fn lemma_module_exports_first_returned(b: Block)
    ensures
        b.last_stmt matches Some(LastStmt::Return(v)) ==> spec_module_block(b) == spec_module_items(
            b.stmts@,
        ).push(SpecModuleItem::ExportDefault(spec_expression(v@[0]))),
        !(b.last_stmt matches Some(LastStmt::Return(_))) ==> spec_module_block(b)
            == spec_module_items(b.stmts@),
{
    match b.last_stmt {
        Some(LastStmt::Return(v)) => {
            assert(spec_module_block(b) =~= spec_module_items(b.stmts@).push(
                SpecModuleItem::ExportDefault(spec_expression(v@[0])),
            ));
        },
        _ => {
            assert(spec_module_block(b) =~= spec_module_items(b.stmts@));
        },
    }
}

/// Each statement, as a module item.
fn module_stmts(v: Vec<Stmt>) -> (r: Vec<ModuleItem>)
    ensures
        view_module_items(r@) == Seq::new(
            view_stmts(v@).len(),
            |k: int| SpecModuleItem::Stmt(view_stmts(v@)[k]),
        ),
{
    let ghost given = v@;
    let mut v = v;
    let mut out: Vec<ModuleItem> = Vec::new();
    let n = v.len();
    let mut j: usize = 0;
    while j < n
        invariant
            n == given.len(),
            j <= n,
            v@ == given.skip(j as int),
            out@.len() == j,
            forall|k: int|
                0 <= k < j ==> view_module_item(#[trigger] out@[k]) == SpecModuleItem::Stmt(
                    view_stmts(given)[k],
                ),
        decreases n - j,
    {
        assert(v@[0] == given[j as int]);
        let s = v.remove(0);
        assert(v@ =~= given.skip(j + 1));
        out.push(ModuleItem::Stmt(s));
        j = j + 1;
    }
    assert(view_module_items(out@) =~= Seq::new(
        view_stmts(given).len(),
        |k: int| SpecModuleItem::Stmt(view_stmts(given)[k]),
    ));
    out
}

/// Transforms the top-level block of a Luau file into a TypeScript module.
pub fn transform_module_block(block: &Block) -> (r: Vec<ModuleItem>)
    requires
        accepted_block(*block),
        returns_value(*block),
    ensures
        view_module_items(r@) == spec_module_block(*block),
{
    let stmts = &block.stmts;
    let mut out: Vec<ModuleItem> = Vec::new();
    let mut i: usize = 0;
    assert(stmts@.take(0) =~= Seq::<LuaStmt>::empty());
    assert(view_module_items(out@) =~= Seq::<SpecModuleItem>::empty());
    while i < stmts.len()
        invariant
            i <= stmts@.len(),
            *stmts == block.stmts,
            accepted_block(*block),
            view_module_items(out@) == spec_module_items(stmts@.take(i as int)),
        decreases stmts@.len() - i,
    {
        assert(stmts@.take(i + 1).drop_last() =~= stmts@.take(i as int));
        assert(accepted_statement(stmts@[i as int]));
        let ghost before = out@;
        match &stmts[i] {
            LuaStmt::ExportedTypeDeclaration { declaration, .. } => {
                let alias = transform_type_declaration(declaration);
                out.push(ModuleItem::Stmt(alias));
                out.push(ModuleItem::ExportTypeName(Ident { sym: declaration.name_source.clone() }));
                assert(view_module_items(out@) =~= view_module_items(before) + spec_module_stmt(
                    stmts@[i as int],
                ));
            },
            stmt => {
                let transformed = transform_statement(stmt);
                let items = module_stmts(transformed);
                let mut items = items;
                out.append(&mut items);
                assert(view_module_items(out@) =~= view_module_items(before) + spec_module_stmt(
                    stmts@[i as int],
                ));
            },
        }
        i = i + 1;
    }
    assert(stmts@.take(stmts@.len() as int) =~= stmts@);
    if let Some(LastStmt::Return(return_statement)) = &block.last_stmt {
        assert(accepted_last_statement(LastStmt::Return(*return_statement)));
        assert(accepted_expressions(return_statement@));
        assert(crate::accepted::accepted_expression(return_statement@[0]));
        let ghost before = out@;
        let expr = transform_expression(&return_statement[0]);
        out.push(ModuleItem::ExportDefault(expr));
        assert(view_module_items(out@) =~= view_module_items(before) + seq![
            SpecModuleItem::ExportDefault(spec_expression(return_statement@[0])),
        ]);
    } else {
        assert(view_module_items(out@) =~= view_module_items(out@) + Seq::<SpecModuleItem>::empty());
    }
    out
}

} // verus!
