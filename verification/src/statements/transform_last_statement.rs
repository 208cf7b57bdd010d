use vstd::prelude::*;
use crate::accepted::{accepted_expressions, accepted_last_statement};
use crate::expressions::transform_expression::{spec_expression, transform_expression};
use crate::lua::{Expression, LastStmt};
use crate::statements::transform_assignment::{spec_expr_elems, transform_expr_elems};
use crate::ts::{
    view_entity_name, view_types, Expr, SpecArg, SpecEntityName, SpecExpr, SpecStmt, SpecType, Stmt, TsEntityName, TsType,
};
use crate::util::{boxed, ident_str, skip_stmt, spec_skip_stmt};

verus! {

/// `break` and `continue` stay; `return` stays with no value or one value;
/// several values are returned as `[a, b] as LuaTuple<``>`.
pub open spec fn spec_last_statement(l: LastStmt) -> SpecStmt
    decreases l,
{
    match l {
        LastStmt::Break => SpecStmt::Break,
        LastStmt::Continue => SpecStmt::Continue,
        LastStmt::Return(v) => SpecStmt::Return(
            if v@.len() == 0 {
                None
            } else if v@.len() == 1 {
                Some(Box::new(spec_expression(v@[0])))
            } else {
                Some(
                    Box::new(
                        SpecExpr::TsAs {
                            expr: Box::new(SpecExpr::Array(spec_expr_elems(v@))),
                            type_ann: Box::new(
                                SpecType::TypeRef {
                                    name: SpecEntityName::Ident("LuaTuple"@),
                                    params: Some(seq![SpecType::LitEmptyTemplate]),
                                },
                            ),
                        },
                    ),
                )
            },
        ),
        LastStmt::Other(source) => spec_skip_stmt("Unknown last statement type"@, source@),
    }
}

/// `break` and `continue` keep their meaning; `return` with no value returns
/// nothing, with one value returns that value, and with several returns them
/// all, in order, as one array.
pub proof fn lemma_last_statement_meaning(l: LastStmt)
    ensures
        l is Break ==> spec_last_statement(l) == SpecStmt::Break,
        l is Continue ==> spec_last_statement(l) == SpecStmt::Continue,
        l matches LastStmt::Return(v) ==> (v@.len() == 0 ==> spec_last_statement(l)
            == SpecStmt::Return(None)),
        l matches LastStmt::Return(v) ==> (v@.len() == 1 ==> spec_last_statement(l)
            == SpecStmt::Return(Some(Box::new(spec_expression(v@[0]))))),
        l matches LastStmt::Return(v) ==> (v@.len() > 1 ==> spec_last_statement(l)
            == SpecStmt::Return(
            Some(
                Box::new(
                    SpecExpr::TsAs {
                        expr: Box::new(
                            SpecExpr::Array(
                                Seq::new(
                                    v@.len(),
                                    |k: int|
                                        Some(
                                            SpecArg {
                                                spread: false,
                                                expr: spec_expression(v@[k]),
                                            },
                                        ),
                                ),
                            ),
                        ),
                        type_ann: Box::new(
                            SpecType::TypeRef {
                                name: SpecEntityName::Ident("LuaTuple"@),
                                params: Some(seq![SpecType::LitEmptyTemplate]),
                            },
                        ),
                    },
                ),
            ),
        )),
{
    match l {
        LastStmt::Return(v) => {
            assert(spec_expr_elems(v@) =~= Seq::new(
                v@.len(),
                |k: int| Some(SpecArg { spread: false, expr: spec_expression(v@[k]) }),
            ));
        },
        _ => {},
    }
}

/// The type `LuaTuple<``>`.
fn lua_tuple_type() -> (r: Box<TsType>)
    ensures
        r@ == (SpecType::TypeRef {
            name: SpecEntityName::Ident("LuaTuple"@),
            params: Some(seq![SpecType::LitEmptyTemplate]),
        }),
{
    let mut params = Vec::new();
    params.push(TsType::LitEmptyTemplate);
    assert(view_types(params@) =~= seq![SpecType::LitEmptyTemplate]);
    let name = TsEntityName::Ident(ident_str("LuaTuple"));
    assert(view_entity_name(name) == SpecEntityName::Ident("LuaTuple"@));
    boxed(TsType::TypeRef { name, params: Some(params) })
}

/// Several returned values, as `[a, b] as LuaTuple<``>`.
fn transform_tuple(values: &Vec<Expression>) -> (r: Box<Expr>)
    requires
        accepted_expressions(values@),
    ensures
        r@ == (SpecExpr::TsAs {
            expr: Box::new(SpecExpr::Array(spec_expr_elems(values@))),
            type_ann: Box::new(
                SpecType::TypeRef {
                    name: SpecEntityName::Ident("LuaTuple"@),
                    params: Some(seq![SpecType::LitEmptyTemplate]),
                },
            ),
        }),
    decreases values, 1nat,
{
    let elems = transform_expr_elems(values);
    let array = boxed(Expr::Array(elems));
    let ghost array_view = SpecExpr::Array(spec_expr_elems(values@));
    assert(array@ == array_view);
    let type_ann = lua_tuple_type();
    let ghost type_view = type_ann@;
    let r = boxed(Expr::TsAs { expr: array, type_ann });
    assert(r@ == SpecExpr::TsAs { expr: Box::new(array_view), type_ann: Box::new(type_view) });
    r
}

/// Transforms the last statement of a block.
pub fn transform_last_statement(stmt: &LastStmt) -> (r: Stmt)
    requires
        accepted_last_statement(*stmt),
    ensures
        r@ == spec_last_statement(*stmt),
    decreases stmt, 0nat,
{
    match stmt {
        LastStmt::Break => Stmt::Break,
        LastStmt::Continue => Stmt::Continue,
        LastStmt::Return(values) => {
            if values.len() == 0 {
                Stmt::Return(None)
            } else if values.len() == 1 {
                proof {
                    assert(decreases_to!(*values => values[0]));
                    assert(crate::accepted::accepted_expression(values@[0]));
                }
                Stmt::Return(Some(transform_expression(&values[0])))
            } else {
                Stmt::Return(Some(transform_tuple(values)))
            }
        },
        LastStmt::Other(source) => skip_stmt("Unknown last statement type", source.as_str()),
    }
}

} // verus!
