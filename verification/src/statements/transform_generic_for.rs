use vstd::prelude::*;
use crate::accepted::{accepted_block, accepted_expression};
use crate::expressions::transform_expression::{spec_expression, transform_expression};
use crate::lua::GenericFor;
use crate::statements::transform_block::transform_block;
use crate::statements::transform_block_statements::spec_block_statements;
use crate::statements::transform_local_assignment::{annotation_at, local_names, spec_local_names};
use crate::ts::{
    view_declarator, view_declarators, view_pat, view_var_decl, Pat, SpecBinding, SpecDeclarator, SpecExpr, SpecPat,
    SpecStmt, SpecVarDecl, Stmt, VarDecl, VarDeclKind, VarDeclarator,
};
use crate::util::{boxed, skip_stmt, spec_skip_stmt};

verus! {

/// `for a: A, b in e do ... end` becomes `for (let [a: A, b] of e) { ... }`,
/// the names keeping their types. A loop over several expressions cannot be
/// transformed.
pub open spec fn spec_generic_for(g: GenericFor) -> SpecStmt
    decreases g,
{
    if g.expressions@.len() != 1 {
        spec_skip_stmt("For-in loops with multiple expressions not supported"@, g.source@)
    } else {
        SpecStmt::ForOf {
            left: SpecVarDecl {
                kind: VarDeclKind::Let,
                decls: seq![
                    SpecDeclarator { name: SpecPat::Array(spec_local_names(g.names@, g.type_specifiers@)), init: None },
                ],
            },
            right: Box::new(spec_expression(g.expressions@[0])),
            body: Box::new(SpecStmt::Block(spec_block_statements(g.block))),
        }
    }
}

/// The parts of a `for (left of right) body` statement.
pub open spec fn for_of_parts(st: SpecStmt) -> Option<(SpecVarDecl, SpecExpr, SpecStmt)> {
    match st {
        SpecStmt::ForOf { left, right, body } => Some((left, *right, *body)),
        _ => None,
    }
}

/// A loop over one expression iterates over that expression, binding each
/// item with `let` to an array pattern of the loop's names, in order, each
/// with its own annotation, and runs the loop's block; a loop over any other
/// number of expressions is not transformed into a loop.
pub proof fn lemma_generic_for_iterates(g: GenericFor)
    ensures
        g.expressions@.len() == 1 <==> for_of_parts(spec_generic_for(g)) is Some,
        g.expressions@.len() == 1 ==> for_of_parts(spec_generic_for(g)).unwrap().1
            == spec_expression(g.expressions@[0]),
        g.expressions@.len() == 1 ==> for_of_parts(spec_generic_for(g)).unwrap().2
            == SpecStmt::Block(spec_block_statements(g.block)),
        g.expressions@.len() == 1 ==> for_of_parts(spec_generic_for(g)).unwrap().0 == (SpecVarDecl {
            kind: VarDeclKind::Let,
            decls: seq![
                SpecDeclarator {
                    name: SpecPat::Array(
                        Seq::new(
                            g.names@.len(),
                            |k: int|
                                Some(
                                    SpecPat::Ident(
                                        SpecBinding {
                                            id: g.names@[k]@,
                                            type_ann: annotation_at(g.type_specifiers@, k),
                                        },
                                    ),
                                ),
                        ),
                    ),
                    init: None,
                },
            ],
        }),
{
}

/// Transforms a generic for loop.
pub fn transform_generic_for(generic_for: &GenericFor) -> (r: Stmt)
    requires
        generic_for.expressions@.len() == 1 ==> accepted_expression(generic_for.expressions@[0])
            && accepted_block(generic_for.block),
    ensures
        r@ == spec_generic_for(*generic_for),
    decreases generic_for, 0nat,
{
    let expression = &generic_for.expressions;
    if expression.len() != 1 {
        return skip_stmt(
            "For-in loops with multiple expressions not supported",
            generic_for.source.as_str(),
        );
    }
    let pats = local_names(&generic_for.names, &generic_for.type_specifiers);
    let name = Pat::Array(pats);
    assert(view_pat(name) == SpecPat::Array(
        spec_local_names(generic_for.names@, generic_for.type_specifiers@),
    ));
    let declarator = VarDeclarator { name, init: None };
    let ghost d = view_declarator(declarator);
    assert(d == SpecDeclarator {
        name: SpecPat::Array(spec_local_names(generic_for.names@, generic_for.type_specifiers@)),
        init: None,
    });
    let mut decls = Vec::new();
    decls.push(declarator);
    assert(view_declarators(decls@) =~= seq![d]);
    proof {
        assert(decreases_to!(*expression => expression[0]));
        assert(crate::accepted::accepted_expression(expression@[0]));
    }
    let right = transform_expression(&expression[0]);
    let body = boxed(transform_block(&generic_for.block));
    assert(body@ == SpecStmt::Block(spec_block_statements(generic_for.block)));
    let left = VarDecl { kind: VarDeclKind::Let, decls };
    assert(view_var_decl(left) == SpecVarDecl { kind: VarDeclKind::Let, decls: seq![d] });
    Stmt::ForOf { left, right, body }
}

} // verus!
