use vstd::prelude::*;
use crate::accepted::accepted_statement;
use crate::expressions::transform_expression::{spec_expression, transform_expression};
use crate::expressions::transform_function_call::{spec_function_call, transform_function_call};
use crate::lua::{Stmt as LuaStmt, TypeDeclaration};
use crate::statements::transform_assignment::{spec_assignment, transform_assignment};
use crate::statements::transform_block::transform_block;
use crate::statements::transform_block_statements::spec_block_statements;
use crate::statements::transform_compound_assignment::{
    spec_compound_assignment, transform_compound_assignment,
};
use crate::statements::transform_function_declaration::{
    spec_function_declaration, transform_function_declaration,
};
use crate::statements::transform_generic_for::{spec_generic_for, transform_generic_for};
use crate::statements::transform_local_assignment::{spec_local_assignment, transform_local_assignment};
use crate::statements::transform_local_function::{spec_local_function, transform_local_function};
use crate::statements::transform_if_statement::{spec_if_statement, transform_if_statement};
use crate::statements::transform_numeric_for::{spec_numeric_for, transform_numeric_for};
use crate::ts::{view_stmts, Expr, SpecExpr, SpecStmt, Stmt, UnaryOp};
use crate::types::transform_type_declaration::{spec_type_declaration, transform_type_declaration};
use crate::util::{boxed, skip_stmt, spec_skip_stmt};

verus! {

/// The statements that a Luau statement becomes. `repeat ... until c`
/// becomes `do { ... } while (!c)`; an `if` keeps its `elseif` and `else`
/// branches; an exported type declaration becomes a type alias and a marker
/// that asks for the export to be written by hand.
pub open spec fn spec_statement(s: LuaStmt) -> Seq<SpecStmt>
    decreases s,
{
    match s {
        LuaStmt::Assignment(a) => seq![spec_assignment(a)],
        LuaStmt::Do(b) => seq![SpecStmt::Block(spec_block_statements(b))],
        LuaStmt::FunctionCall(fc) => seq![SpecStmt::Expr(Box::new(spec_function_call(fc)))],
        LuaStmt::FunctionDeclaration(d) => seq![spec_function_declaration(d)],
        LuaStmt::GenericFor(g) => seq![spec_generic_for(g)],
        LuaStmt::If(i) => seq![spec_if_statement(i)],
        LuaStmt::LocalAssignment(l) => seq![spec_local_assignment(l)],
        LuaStmt::LocalFunction(l) => seq![spec_local_function(l)],
        LuaStmt::NumericFor(n) => seq![spec_numeric_for(n)],
        LuaStmt::Repeat { block, until } => seq![
            SpecStmt::DoWhile {
                body: Box::new(SpecStmt::Block(spec_block_statements(block))),
                test: Box::new(
                    SpecExpr::Unary { op: UnaryOp::Bang, arg: Box::new(spec_expression(until)) },
                ),
            },
        ],
        LuaStmt::While { condition, block } => seq![
            SpecStmt::While {
                test: Box::new(spec_expression(condition)),
                body: Box::new(SpecStmt::Block(spec_block_statements(block))),
            },
        ],
        LuaStmt::CompoundAssignment(c) => seq![spec_compound_assignment(c)],
        LuaStmt::ExportedTypeDeclaration { declaration, source } => seq![
            spec_type_declaration(declaration),
            spec_skip_stmt("ModuleItem not allowed in architecture, export manually"@, source@),
        ],
        LuaStmt::TypeDeclaration(d) => seq![spec_type_declaration(d)],
        LuaStmt::Other(source) => seq![spec_skip_stmt("Unknown statement type"@, source@)],
    }
}

/// A `while c` loop runs its block while `c` holds; a `repeat ... until c`
/// loop runs its block once and then again while `c` does not hold; a `do`
/// block stays a block. Each is a single statement.
pub proof fn lemma_loops_keep_their_meaning(s: LuaStmt)
    ensures
        s matches LuaStmt::While { condition, block } ==> spec_statement(s) == seq![
            SpecStmt::While {
                test: Box::new(spec_expression(condition)),
                body: Box::new(SpecStmt::Block(spec_block_statements(block))),
            },
        ],
        s matches LuaStmt::Repeat { block, until } ==> spec_statement(s) == seq![
            SpecStmt::DoWhile {
                body: Box::new(SpecStmt::Block(spec_block_statements(block))),
                test: Box::new(
                    SpecExpr::Unary { op: UnaryOp::Bang, arg: Box::new(spec_expression(until)) },
                ),
            },
        ],
        s matches LuaStmt::Do(block) ==> spec_statement(s) == seq![
            SpecStmt::Block(spec_block_statements(block)),
        ],
{
}

/// The list `[s]`.
pub(crate) fn one_stmt(s: Stmt) -> (r: Vec<Stmt>)
    ensures
        view_stmts(r@) == seq![s@],
{
    let ghost v = s@;
    let mut out = Vec::new();
    out.push(s);
    assert(view_stmts(out@) =~= seq![v]);
    out
}

/// `repeat ... until c` as `do { ... } while (!c)`, and `while c do ... end`
/// as `while (c) { ... }`.
fn transform_loop(stmt: &LuaStmt) -> (r: Stmt)
    requires
        accepted_statement(*stmt),
        stmt is Repeat || stmt is While,
    ensures
        seq![r@] == spec_statement(*stmt),
    decreases stmt, 0nat,
{
    match stmt {
        LuaStmt::Repeat { block, until } => {
            let body = boxed(transform_block(block));
            assert(body@ == SpecStmt::Block(spec_block_statements(*block)));
            let arg = transform_expression(until);
            let ghost uv = arg@;
            let test = boxed(Expr::Unary { op: UnaryOp::Bang, arg });
            assert(test@ == SpecExpr::Unary { op: UnaryOp::Bang, arg: Box::new(uv) });
            let r = Stmt::DoWhile { body, test };
            assert(r@ == SpecStmt::DoWhile {
                body: Box::new(SpecStmt::Block(spec_block_statements(*block))),
                test: Box::new(SpecExpr::Unary { op: UnaryOp::Bang, arg: Box::new(uv) }),
            });
            r
        },
        LuaStmt::While { condition, block } => {
            let test = transform_expression(condition);
            let ghost tv = test@;
            let body = boxed(transform_block(block));
            assert(body@ == SpecStmt::Block(spec_block_statements(*block)));
            let r = Stmt::While { test, body };
            assert(r@ == SpecStmt::While {
                test: Box::new(tv),
                body: Box::new(SpecStmt::Block(spec_block_statements(*block))),
            });
            r
        },
        _ => {
            proof {
                assert(false);
            }
            vstd::pervasive::unreached()
        },
    }
}

/// An exported type declaration: the type alias, then a marker that asks for
/// the export to be written by hand.
fn transform_exported_type(declaration: &TypeDeclaration, source: &String) -> (r: Vec<Stmt>)
    ensures
        view_stmts(r@) == seq![
            spec_type_declaration(*declaration),
            spec_skip_stmt("ModuleItem not allowed in architecture, export manually"@, source@),
        ],
{
    let a = transform_type_declaration(declaration);
    let b = skip_stmt("ModuleItem not allowed in architecture, export manually", source.as_str());
    let ghost (va, vb) = (a@, b@);
    let mut out = Vec::new();
    out.push(a);
    out.push(b);
    assert(view_stmts(out@) =~= seq![va, vb]);
    out
}

/// Transforms a Luau statement into the TypeScript statements it stands for.
pub fn transform_statement(stmt: &LuaStmt) -> (r: Vec<Stmt>)
    requires
        accepted_statement(*stmt),
    ensures
        view_stmts(r@) == spec_statement(*stmt),
    decreases stmt, 1nat,
{
    match stmt {
        LuaStmt::Assignment(assignment) => one_stmt(transform_assignment(assignment)),
        LuaStmt::Do(do_stmt) => {
            let b = transform_block(do_stmt);
            assert(b@ == SpecStmt::Block(spec_block_statements(*do_stmt)));
            one_stmt(b)
        },
        LuaStmt::FunctionCall(function_call) => {
            let e = transform_function_call(function_call);
            let ghost ev = e@;
            let s = Stmt::Expr(e);
            assert(s@ == SpecStmt::Expr(Box::new(ev)));
            one_stmt(s)
        },
        LuaStmt::FunctionDeclaration(declaration) => one_stmt(
            transform_function_declaration(declaration),
        ),
        LuaStmt::GenericFor(generic_for) => one_stmt(transform_generic_for(generic_for)),
        LuaStmt::If(if_stmt) => one_stmt(transform_if_statement(if_stmt)),
        LuaStmt::LocalAssignment(local_assignment) => one_stmt(
            transform_local_assignment(local_assignment),
        ),
        LuaStmt::LocalFunction(declaration) => one_stmt(transform_local_function(declaration)),
        LuaStmt::NumericFor(numeric_for) => one_stmt(transform_numeric_for(numeric_for)),
        LuaStmt::Repeat { .. } | LuaStmt::While { .. } => one_stmt(transform_loop(stmt)),
        LuaStmt::CompoundAssignment(compound_assignment) => one_stmt(
            transform_compound_assignment(compound_assignment),
        ),
        LuaStmt::ExportedTypeDeclaration { declaration, source } => transform_exported_type(
            declaration,
            source,
        ),
        LuaStmt::TypeDeclaration(declaration) => one_stmt(transform_type_declaration(declaration)),
        LuaStmt::Other(source) => one_stmt(skip_stmt("Unknown statement type", source.as_str())),
    }
}

} // verus!
