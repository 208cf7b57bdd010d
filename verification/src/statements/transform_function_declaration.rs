use vstd::prelude::*;
use crate::accepted::accepted_function_body;
use crate::expressions::transform_value::{spec_function_body, transform_function_body};
use crate::lua::{FunctionDeclaration, FunctionName};
use crate::statements::transform_assignment::assignment_parts;
use crate::ts::{view_member_prop, view_pat_or_expr, AssignOp, Expr, Ident, MemberProp, PatOrExpr, SpecExpr, SpecMemberProp, SpecPatOrExpr, SpecStmt, Stmt};
use crate::util::{boxed, ident};

verus! {

/// `first.rest[0]...` as a chain of member accesses.
pub open spec fn spec_name_chain(first: Seq<char>, rest: Seq<String>) -> SpecExpr
    decreases rest.len(),
{
    if rest.len() == 0 {
        SpecExpr::Ident(first)
    } else {
        SpecExpr::Member {
            obj: Box::new(spec_name_chain(first, rest.drop_last())),
            prop: SpecMemberProp::Ident(rest.last()@),
        }
    }
}

/// The expression that names a declared function: `a.b.c` or `a.b:c` both
/// become `a.b.c`.
pub open spec fn spec_function_name(name: FunctionName) -> SpecExpr {
    match name.method_name {
        Some(m) => SpecExpr::Member {
            obj: Box::new(spec_name_chain(name.first@, name.rest@)),
            prop: SpecMemberProp::Ident(m@),
        },
        None => spec_name_chain(name.first@, name.rest@),
    }
}

/// `function f() ... end` becomes the declaration `function f() { ... }`;
/// `function a.b() ... end` becomes the assignment `a.b = function() { ... }`.
pub open spec fn spec_function_declaration(d: FunctionDeclaration) -> SpecStmt
    decreases d,
{
    match spec_function_name(d.name) {
        SpecExpr::Ident(id) => SpecStmt::FnDecl {
            ident: id,
            function: Box::new(spec_function_body(d.body)),
        },
        name => SpecStmt::Expr(
            Box::new(
                SpecExpr::Assign {
                    op: AssignOp::Assign,
                    left: SpecPatOrExpr::Expr(Box::new(name)),
                    right: Box::new(SpecExpr::Fn(Box::new(spec_function_body(d.body)))),
                },
            ),
        ),
    }
}

/// The names along a chain of member accesses `a.b.c`, from the outermost
/// object: `[a, b, c]`; `None` for anything else.
pub open spec fn member_path(e: SpecExpr) -> Option<Seq<Seq<char>>>
    decreases e,
{
    match e {
        SpecExpr::Ident(x) => Some(seq![x]),
        SpecExpr::Member { obj, prop: SpecMemberProp::Ident(p) } => match member_path(*obj) {
            Some(path) => Some(path.push(p)),
            None => None,
        },
        _ => None,
    }
}

/// The names of `first.rest[0].rest[1]...`, with the method name, if any,
/// last.
pub open spec fn declared_path(name: FunctionName) -> Seq<Seq<char>> {
    let path = seq![name.first@] + Seq::new(name.rest@.len(), |k: int| name.rest@[k]@);
    match name.method_name {
        Some(m) => path.push(m@),
        None => path,
    }
}

proof fn lemma_name_chain_path(first: Seq<char>, rest: Seq<String>)
    ensures
        member_path(spec_name_chain(first, rest)) == Some(
            seq![first] + Seq::new(rest.len(), |k: int| rest[k]@),
        ),
    decreases rest.len(),
{
    if rest.len() > 0 {
        lemma_name_chain_path(first, rest.drop_last());
        assert(seq![first] + Seq::new(rest.len(), |k: int| rest[k]@) =~= (seq![first] + Seq::new(
            rest.drop_last().len(),
            |k: int| rest.drop_last()[k]@,
        )).push(rest.last()@));
    } else {
        assert(seq![first] + Seq::new(rest.len(), |k: int| rest[k]@) =~= seq![first]);
    }
}

/// A function declared under a plain name `f` becomes the declaration of
/// `f`; one declared under `a.b.c` or `a.b:c` is assigned, as a function,
/// to the member that those names reach, in order. Either way it has the
/// parameters, types and body of the declared function.
pub proof fn lemma_function_declaration_target(d: FunctionDeclaration)
    ensures
        d.name.rest@.len() == 0 && d.name.method_name is None ==> spec_function_declaration(d)
            == (SpecStmt::FnDecl {
            ident: d.name.first@,
            function: Box::new(spec_function_body(d.body)),
        }),
        d.name.rest@.len() > 0 || d.name.method_name is Some ==> assignment_parts(
            spec_function_declaration(d),
        ) is Some,
        d.name.rest@.len() > 0 || d.name.method_name is Some ==> assignment_parts(
            spec_function_declaration(d),
        ).unwrap().0 == AssignOp::Assign,
        d.name.rest@.len() > 0 || d.name.method_name is Some ==> assignment_parts(
            spec_function_declaration(d),
        ).unwrap().1 is Expr,
        d.name.rest@.len() > 0 || d.name.method_name is Some ==> member_path(
            *assignment_parts(spec_function_declaration(d)).unwrap().1->Expr_0,
        ) == Some(declared_path(d.name)),
        d.name.rest@.len() > 0 || d.name.method_name is Some ==> assignment_parts(
            spec_function_declaration(d),
        ).unwrap().2 == SpecExpr::Fn(Box::new(spec_function_body(d.body))),
{
    lemma_name_chain_path(d.name.first@, d.name.rest@);
    let chain = spec_name_chain(d.name.first@, d.name.rest@);
    if d.name.rest@.len() > 0 {
        assert(chain is Member);
    }
}

/// `obj.name`.
fn member(obj: Expr, name: &String) -> (r: Expr)
    ensures
        r@ == (SpecExpr::Member { obj: Box::new(obj@), prop: SpecMemberProp::Ident(name@) }),
{
    let prop = MemberProp::Ident(ident(name.clone()));
    assert(view_member_prop(prop) == SpecMemberProp::Ident(name@));
    Expr::Member { obj: boxed(obj), prop }
}

fn transform_function_name(name: &FunctionName) -> (r: Expr)
    ensures
        r@ == spec_function_name(*name),
{
    let mut result = Expr::Ident(ident(name.first.clone()));
    let mut i: usize = 0;
    assert(name.rest@.take(0) =~= Seq::<String>::empty());
    while i < name.rest.len()
        invariant
            i <= name.rest@.len(),
            result@ == spec_name_chain(name.first@, name.rest@.take(i as int)),
        decreases name.rest@.len() - i,
    {
        assert(name.rest@.take(i + 1).drop_last() =~= name.rest@.take(i as int));
        assert(name.rest@.take(i + 1).last() == name.rest@[i as int]);
        result = member(result, &name.rest[i]);
        i = i + 1;
    }
    assert(name.rest@.take(name.rest@.len() as int) =~= name.rest@);
    if let Some(token) = &name.method_name {
        result = member(result, token);
    }
    result
}

/// Transforms a function declaration.
pub fn transform_function_declaration(declaration: &FunctionDeclaration) -> (r: Stmt)
    requires
        accepted_function_body(declaration.body),
    ensures
        r@ == spec_function_declaration(*declaration),
    decreases declaration, 0nat,
{
    let function = boxed(transform_function_body(&declaration.body));
    let ghost fview = spec_function_body(declaration.body);
    let name = transform_function_name(&declaration.name);
    let ghost name_view = name@;
    match name {
        Expr::Ident(ident) => Stmt::FnDecl { ident, function },
        name => {
            let right = boxed(Expr::Fn(function));
            assert(right@ == SpecExpr::Fn(Box::new(fview)));
            let left = PatOrExpr::Expr(boxed(name));
            assert(view_pat_or_expr(left) == SpecPatOrExpr::Expr(Box::new(name_view)));
            let e = boxed(Expr::Assign { op: AssignOp::Assign, left, right });
            assert(e@ == SpecExpr::Assign {
                op: AssignOp::Assign,
                left: SpecPatOrExpr::Expr(Box::new(name_view)),
                right: Box::new(SpecExpr::Fn(Box::new(fview))),
            });
            Stmt::Expr(e)
        },
    }
}

} // verus!
