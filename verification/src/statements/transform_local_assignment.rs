use vstd::prelude::*;
use crate::accepted::accepted_expression;
use crate::expressions::transform_expression::{spec_expression, transform_expression};
use crate::expressions::transform_function_params::type_at;
use crate::lua::{Expression, LocalAssignment, TypeInfo};
use crate::ts::{
    view_binding, view_opt_expr, view_pat, view_var_decl, view_declarator, view_declarators, view_opt_pat, view_opt_pats, view_opt_type, BindingIdent,
    Pat, SpecBinding, SpecDeclarator, SpecPat, SpecStmt, SpecType, SpecVarDecl, Stmt, TsType,
    VarDecl, VarDeclKind, VarDeclarator,
};
use crate::types::transform_type::spec_type;
use crate::types::transform_type_specifier::transform_type_specifier;
use crate::util::{ident, skip, spec_skip};

verus! {

/// The annotation of the `i`th name: the type given to it, if any.
pub open spec fn annotation_at(types: Seq<Option<TypeInfo>>, i: int) -> Option<SpecType> {
    match type_at(types, i) {
        Some(t) => Some(spec_type(t)),
        None => None,
    }
}

/// The names of `local a: A, b: B = ...`, as an array pattern.
pub open spec fn spec_local_names(names: Seq<String>, types: Seq<Option<TypeInfo>>) -> Seq<
    Option<SpecPat>,
> {
    Seq::new(
        names.len(),
        |i: int|
            Some(SpecPat::Ident(SpecBinding { id: names[i]@, type_ann: annotation_at(types, i) })),
    )
}

/// The declarations of `local a, b` (no `=`): one per name, each annotated
/// with the type given to the first name.
pub open spec fn spec_uninitialized(names: Seq<String>, types: Seq<Option<TypeInfo>>) -> Seq<
    SpecDeclarator,
> {
    Seq::new(
        names.len(),
        |i: int|
            SpecDeclarator {
                name: SpecPat::Ident(SpecBinding { id: names[i]@, type_ann: annotation_at(types, 0) }),
                init: None,
            },
    )
}

/// The one declarator of `local a: T = e`: several names become an array
/// pattern `[a, b]`; several values cannot be transformed.
pub open spec fn spec_initialized_declarator(
    names: Seq<String>,
    types: Seq<Option<TypeInfo>>,
    expressions: Seq<Expression>,
    source: Seq<char>,
) -> SpecDeclarator
    decreases expressions,
{
    SpecDeclarator {
        name: if names.len() == 1 {
            SpecPat::Ident(SpecBinding { id: names[0]@, type_ann: annotation_at(types, 0) })
        } else {
            SpecPat::Array(spec_local_names(names, types))
        },
        init: if expressions.len() != 1 {
            Some(spec_skip("multiple expressions in variable assignment not supported"@, source))
        } else {
            Some(spec_expression(expressions[0]))
        },
    }
}

/// `local a: T = e` becomes `let a: T = e`; without `=`, `local a, b`
/// becomes `let a, b`.
pub open spec fn spec_local_assignment(l: LocalAssignment) -> SpecStmt
    decreases l,
{
    SpecStmt::Var(
        SpecVarDecl {
            kind: VarDeclKind::Let,
            decls: if l.has_equal {
                seq![
                    spec_initialized_declarator(
                        l.names@,
                        l.type_specifiers@,
                        l.expressions@,
                        l.source@,
                    ),
                ]
            } else {
                spec_uninitialized(l.names@, l.type_specifiers@)
            },
        },
    )
}

/// The declaration that a statement makes, if it is one.
pub open spec fn declaration_of(st: SpecStmt) -> Option<SpecVarDecl> {
    match st {
        SpecStmt::Var(d) => Some(d),
        _ => None,
    }
}

/// A `local` statement declares with `let`. With `=` it makes one
/// declarator: its initializer is the one value itself when there is exactly
/// one, whatever the number of names (so `local a, b = f()` destructures what
/// `f()` returns); one name is bound as itself, several as an array pattern
/// of the names in order, each with its own annotation. Without `=`, each
/// name, in order, is declared with no initializer.
pub proof fn lemma_local_declarations(l: LocalAssignment)
    ensures
        declaration_of(spec_local_assignment(l)) is Some,
        declaration_of(spec_local_assignment(l)).unwrap().kind == VarDeclKind::Let,
        l.has_equal ==> declaration_of(spec_local_assignment(l)).unwrap().decls.len() == 1,
        l.has_equal && l.expressions@.len() == 1 ==> declaration_of(
            spec_local_assignment(l),
        ).unwrap().decls[0].init == Some(spec_expression(l.expressions@[0])),
        l.has_equal && l.names@.len() == 1 ==> declaration_of(
            spec_local_assignment(l),
        ).unwrap().decls[0].name == SpecPat::Ident(
            SpecBinding { id: l.names@[0]@, type_ann: annotation_at(l.type_specifiers@, 0) },
        ),
        l.has_equal && l.names@.len() != 1 ==> declaration_of(
            spec_local_assignment(l),
        ).unwrap().decls[0].name == SpecPat::Array(
            Seq::new(
                l.names@.len(),
                |k: int|
                    Some(
                        SpecPat::Ident(
                            SpecBinding {
                                id: l.names@[k]@,
                                type_ann: annotation_at(l.type_specifiers@, k),
                            },
                        ),
                    ),
            ),
        ),
        !l.has_equal ==> declaration_of(spec_local_assignment(l)).unwrap().decls.len()
            == l.names@.len(),
        !l.has_equal ==> forall|k: int|
            0 <= k < l.names@.len() ==> (#[trigger] declaration_of(
                spec_local_assignment(l),
            ).unwrap().decls[k]).init is None && declaration_of(
                spec_local_assignment(l),
            ).unwrap().decls[k].name is Ident && declaration_of(
                spec_local_assignment(l),
            ).unwrap().decls[k].name->Ident_0.id == l.names@[k]@,
{
}

fn annotation(types: &Vec<Option<TypeInfo>>, i: usize) -> (r: Option<Box<TsType>>)
    ensures
        view_opt_type(r) == annotation_at(types@, i as int),
{
    if i < types.len() {
        match &types[i] {
            Some(t) => Some(transform_type_specifier(t)),
            None => None,
        }
    } else {
        None
    }
}

/// `name: T`, or `name` without a type.
fn binding_pat(name: &String, type_ann: Option<Box<TsType>>) -> (r: Pat)
    ensures
        view_pat(r) == SpecPat::Ident(SpecBinding { id: name@, type_ann: view_opt_type(type_ann) }),
{
    let b = BindingIdent { id: ident(name.clone()), type_ann };
    assert(view_binding(b) == SpecBinding { id: name@, type_ann: view_opt_type(type_ann) });
    Pat::Ident(b)
}

pub(crate) fn local_names(names: &Vec<String>, types: &Vec<Option<TypeInfo>>) -> (r: Vec<Option<Pat>>)
    ensures
        view_opt_pats(r@) == spec_local_names(names@, types@),
{
    let mut out: Vec<Option<Pat>> = Vec::new();
    let mut i: usize = 0;
    while i < names.len()
        invariant
            i <= names@.len(),
            out@.len() == i,
            forall|k: int|
                0 <= k < i ==> view_opt_pat(#[trigger] out@[k]) == spec_local_names(names@, types@)[k],
        decreases names@.len() - i,
    {
        let type_ann = annotation(types, i);
        out.push(Some(binding_pat(&names[i], type_ann)));
        i = i + 1;
    }
    assert(view_opt_pats(out@) =~= spec_local_names(names@, types@));
    out
}

fn uninitialized(names: &Vec<String>, types: &Vec<Option<TypeInfo>>) -> (r: Vec<VarDeclarator>)
    ensures
        view_declarators(r@) == spec_uninitialized(names@, types@),
{
    let mut out: Vec<VarDeclarator> = Vec::new();
    let mut i: usize = 0;
    while i < names.len()
        invariant
            i <= names@.len(),
            out@.len() == i,
            forall|k: int|
                0 <= k < i ==> view_declarator(#[trigger] out@[k]) == spec_uninitialized(
                    names@,
                    types@,
                )[k],
        decreases names@.len() - i,
    {
        let type_ann = annotation(types, 0);
        let name = binding_pat(&names[i], type_ann);
        let d = VarDeclarator { name, init: None };
        assert(view_declarator(d) == spec_uninitialized(names@, types@)[i as int]);
        out.push(d);
        i = i + 1;
    }
    assert(view_declarators(out@) =~= spec_uninitialized(names@, types@));
    out
}

/// The one declarator of `local a = e`.
fn initialized_declarator(local_assignment: &LocalAssignment) -> (r: VarDeclarator)
    requires
        local_assignment.expressions@.len() == 1 ==> accepted_expression(
            local_assignment.expressions@[0],
        ),
        local_assignment.has_equal,
    ensures
        view_declarator(r) == spec_initialized_declarator(
            local_assignment.names@,
            local_assignment.type_specifiers@,
            local_assignment.expressions@,
            local_assignment.source@,
        ),
    decreases local_assignment, 0nat,
{
    let names = &local_assignment.names;
    let expressions = &local_assignment.expressions;
    let types = &local_assignment.type_specifiers;
    let name = if names.len() == 1 {
        binding_pat(&names[0], annotation(types, 0))
    } else {
        let p = Pat::Array(local_names(names, types));
        assert(view_pat(p) == SpecPat::Array(spec_local_names(names@, types@)));
        p
    };
    let init = if expressions.len() != 1 {
        Some(
            skip(
                "multiple expressions in variable assignment not supported",
                local_assignment.source.as_str(),
            ),
        )
    } else {
        proof {
            assert(decreases_to!(*expressions => expressions[0]));
            assert(crate::accepted::accepted_expression(expressions@[0]));
        }
        Some(transform_expression(&expressions[0]))
    };
    let ghost init_view = view_opt_expr(init);
    let ghost name_view = view_pat(name);
    let declarator = VarDeclarator { name, init };
    assert(view_declarator(declarator) == SpecDeclarator { name: name_view, init: init_view });
    declarator
}

/// Transforms a local variable declaration.
pub fn transform_local_assignment(local_assignment: &LocalAssignment) -> (r: Stmt)
    requires
        local_assignment.has_equal && local_assignment.expressions@.len() == 1 ==> accepted_expression(
            local_assignment.expressions@[0],
        ),
    ensures
        r@ == spec_local_assignment(*local_assignment),
    decreases local_assignment, 1nat,
{
    let decls = if local_assignment.has_equal {
        let declarator = initialized_declarator(local_assignment);
        let ghost d = view_declarator(declarator);
        let mut decls = Vec::new();
        decls.push(declarator);
        assert(view_declarators(decls@) =~= seq![d]);
        decls
    } else {
        uninitialized(&local_assignment.names, &local_assignment.type_specifiers)
    };
    let ghost decls_view = view_declarators(decls@);
    let decl = VarDecl { kind: VarDeclKind::Let, decls };
    assert(view_var_decl(decl) == SpecVarDecl { kind: VarDeclKind::Let, decls: decls_view });
    Stmt::Var(decl)
}

} // verus!
