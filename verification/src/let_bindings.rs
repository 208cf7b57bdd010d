//! Every variable that the transformation declares is declared with `let`,
//! whatever the Luau code looks like.
use vstd::prelude::*;
use crate::expressions::transform_binary::spec_binary_expression;
use crate::expressions::transform_expression::spec_expression;
use crate::expressions::transform_function_params::{
    double_rest_reason, rest_claimed_before, spec_function_params, type_at,
};
use crate::expressions::transform_unary::spec_unary_with;
use crate::expressions::transform_value::{spec_function_body, spec_value};
use crate::accepted::is_array_table;
use crate::expressions::transform_call::spec_call;
use crate::expressions::transform_function_args::{spec_arg_list, spec_function_args};
use crate::expressions::transform_function_call::spec_function_call;
use crate::expressions::transform_if_expression::{spec_else_if_chain, spec_if_expression};
use crate::expressions::transform_index::spec_index_prop;
use crate::expressions::transform_prefix_suffixes::{spec_prefix, spec_suffix, spec_suffixes};
use crate::expressions::transform_string::spec_string;
use crate::expressions::transform_table_constructor::{
    spec_array_elements, spec_object_props, spec_table_constructor, spec_unpack_argument,
};
use crate::expressions::transform_var::spec_var;
use crate::lua::{
    Assignment, Block, CompoundAssignment, CompoundOp, FunctionDeclaration, GenericFor, LastStmt,
    LocalAssignment, LocalFunction, NumericFor, Stmt as LuaStmt, ElseIf, If,
    BinOp, BinaryOperation, Call, ElseIfExpression, Expression, Field, FunctionArgs, FunctionBody,
    FunctionCall, IfExpression, Index, Parameter, Prefix, Suffix, TableConstructor, TypeInfo, UnOp,
    Value, Var,
};
use crate::statements::transform_assignment::{spec_assignment, spec_expr_elems, spec_var_pats};
use crate::statements::transform_block_statements::{spec_block_statements, spec_stmt_list};
use crate::statements::transform_compound_assignment::{compound_op_of, spec_compound_assignment};
use crate::statements::transform_function_declaration::{
    spec_function_declaration, spec_function_name, spec_name_chain,
};
use crate::statements::transform_generic_for::spec_generic_for;
use crate::statements::transform_if_statement::{
    spec_else_if_stmt_chain, spec_else_stmt, spec_if_statement,
};
use crate::statements::transform_last_statement::spec_last_statement;
use crate::statements::transform_local_assignment::{
    annotation_at, spec_initialized_declarator, spec_local_assignment, spec_local_names,
    spec_uninitialized,
};
use crate::statements::transform_local_function::spec_local_function;
use crate::statements::transform_module_block::{
    returns_value, spec_module_block, spec_module_items, spec_module_stmt,
};
use crate::statements::transform_numeric_for::{spec_index_binding, spec_numeric_for, step_comparison};
use crate::statements::transform_statement::spec_statement;
use crate::types::transform_type_declaration::spec_type_declaration;
use crate::util::{fail_message, spec_skip, spec_skip_stmt, REST_ARGS_NAME};
use crate::ts::{AssignOp, SpecBinding, SpecEntityName, SpecLit, SpecType, UnaryOp,
    SpecArg, SpecDeclarator, SpecExpr, SpecFunction, SpecMemberProp, SpecModuleItem, SpecPat,
    SpecPatOrExpr, SpecProp, SpecPropName, SpecStmt, SpecVarDecl, VarDeclKind,
};

verus! {

/// Whether every variable declaration in the expression is a `let`.
pub open spec fn lets_expr(e: SpecExpr) -> bool
    decreases e,
{
    match e {
        SpecExpr::Ident(_) => true,
        SpecExpr::Lit(_) => true,
        SpecExpr::Paren(x) => lets_expr(*x),
        SpecExpr::Member { obj, prop } => lets_expr(*obj) && match prop {
            SpecMemberProp::Ident(_) => true,
            SpecMemberProp::Computed(x) => lets_expr(*x),
        },
        SpecExpr::Call { callee, args } => lets_expr(*callee) && lets_args(args),
        SpecExpr::New { callee, args } => lets_expr(*callee) && lets_args(args),
        SpecExpr::Cond { test, cons, alt } => lets_expr(*test) && lets_expr(*cons) && lets_expr(*alt),
        SpecExpr::Arrow(f) => lets_function(*f),
        SpecExpr::Bin { left, right, .. } => lets_expr(*left) && lets_expr(*right),
        SpecExpr::Unary { arg, .. } => lets_expr(*arg),
        SpecExpr::TsAs { expr, .. } => lets_expr(*expr),
        SpecExpr::Array(elems) => lets_opt_args(elems),
        SpecExpr::Object(props) => lets_props(props),
        SpecExpr::Assign { left, right, .. } => lets_expr(*right) && match left {
            SpecPatOrExpr::Expr(x) => lets_expr(*x),
            SpecPatOrExpr::Pat(p) => lets_pat(*p),
        },
        SpecExpr::Fn(f) => lets_function(*f),
    }
}

pub open spec fn lets_args(args: Seq<SpecArg>) -> bool
    decreases args,
{
    forall|i: int| 0 <= i < args.len() ==> lets_expr(#[trigger] args[i].expr)
}

pub open spec fn lets_opt_args(args: Seq<Option<SpecArg>>) -> bool
    decreases args,
{
    forall|i: int|
        0 <= i < args.len() ==> match #[trigger] args[i] {
            Some(a) => lets_expr(a.expr),
            None => true,
        }
}

pub open spec fn lets_props(props: Seq<SpecProp>) -> bool
    decreases props,
{
    forall|i: int|
        0 <= i < props.len() ==> lets_expr(#[trigger] props[i].value) && match props[i].key {
            SpecPropName::Computed(x) => lets_expr(*x),
            _ => true,
        }
}

/// Whether every variable declaration in the pattern is a `let`.
pub open spec fn lets_pat(p: SpecPat) -> bool
    decreases p,
{
    match p {
        SpecPat::Ident(_) => true,
        SpecPat::Rest { arg, .. } => lets_pat(*arg),
        SpecPat::Expr(x) => lets_expr(*x),
        SpecPat::Array(elems) => lets_opt_pats(elems),
    }
}

pub open spec fn lets_pats(pats: Seq<SpecPat>) -> bool
    decreases pats,
{
    forall|i: int| 0 <= i < pats.len() ==> lets_pat(#[trigger] pats[i])
}

pub open spec fn lets_opt_pats(pats: Seq<Option<SpecPat>>) -> bool
    decreases pats,
{
    forall|i: int|
        0 <= i < pats.len() ==> match #[trigger] pats[i] {
            Some(p) => lets_pat(p),
            None => true,
        }
}

/// Whether every variable declaration in the function is a `let`.
pub open spec fn lets_function(f: SpecFunction) -> bool
    decreases f,
{
    lets_pats(f.params) && lets_stmts(f.body)
}

/// Whether the declaration is a `let`, and every declaration in its
/// patterns and initial values too.
pub open spec fn lets_var_decl(d: SpecVarDecl) -> bool
    decreases d,
{
    d.kind == VarDeclKind::Let && lets_declarators(d.decls)
}

pub open spec fn lets_declarators(decls: Seq<SpecDeclarator>) -> bool
    decreases decls,
{
    forall|i: int|
        0 <= i < decls.len() ==> lets_pat(#[trigger] decls[i].name) && match decls[i].init {
            Some(x) => lets_expr(x),
            None => true,
        }
}

/// Whether every variable declaration in the statement is a `let`.
pub open spec fn lets_stmt(s: SpecStmt) -> bool
    decreases s,
{
    match s {
        SpecStmt::Expr(x) => lets_expr(*x),
        SpecStmt::Block(b) => lets_stmts(b),
        SpecStmt::FnDecl { function, .. } => lets_function(*function),
        SpecStmt::Var(d) => lets_var_decl(d),
        SpecStmt::TypeAlias { .. } => true,
        SpecStmt::If { test, cons, alt } => lets_expr(*test) && lets_stmt(*cons) && match alt {
            Some(a) => lets_stmt(*a),
            None => true,
        },
        SpecStmt::Return(x) => match x {
            Some(x) => lets_expr(*x),
            None => true,
        },
        SpecStmt::Break => true,
        SpecStmt::Continue => true,
        SpecStmt::ForOf { left, right, body } => lets_var_decl(left) && lets_expr(*right) && lets_stmt(
            *body,
        ),
        SpecStmt::For { init, test, update, body } => lets_var_decl(init) && lets_expr(*test)
            && lets_expr(*update) && lets_stmt(*body),
        SpecStmt::While { test, body } => lets_expr(*test) && lets_stmt(*body),
        SpecStmt::DoWhile { body, test } => lets_stmt(*body) && lets_expr(*test),
    }
}

pub open spec fn lets_stmts(s: Seq<SpecStmt>) -> bool
    decreases s,
{
    forall|i: int| 0 <= i < s.len() ==> lets_stmt(#[trigger] s[i])
}

/// Whether every variable declaration in the module item is a `let`.
pub open spec fn lets_module_item(m: SpecModuleItem) -> bool {
    match m {
        SpecModuleItem::Stmt(s) => lets_stmt(s),
        SpecModuleItem::ExportDefault(x) => lets_expr(x),
        _ => true,
    }
}

// ---------------------------------------------------------------------------
// What the transformation produces declares with `let` only.
// ---------------------------------------------------------------------------

/// The marker for a node that could not be transformed declares nothing.
proof fn lemma_skip(reason: Seq<char>, node: Seq<char>)
    ensures
        lets_expr(spec_skip(reason, node)),
{
    let arg = SpecArg { spread: false, expr: SpecExpr::Lit(SpecLit::Str(fail_message(reason, node))) };
    assert(lets_expr(arg.expr));
    assert(lets_args(seq![arg]));
    assert(lets_expr(SpecExpr::Ident("error"@)));
}

proof fn lemma_params(params: Seq<Parameter>, types: Seq<Option<TypeInfo>>)
    ensures
        lets_pats(spec_function_params(params, types)),
{
    let out = spec_function_params(params, types);
    assert forall|i: int| 0 <= i < out.len() implies lets_pat(#[trigger] out[i]) by {
        let ty = type_at(types, i);
        let claimed = rest_claimed_before(params, i);
        match params[i] {
            Parameter::Name { name, source } => {
                lemma_skip(double_rest_reason(), source@);
            },
            Parameter::Ellipse { source } => {
                lemma_skip(double_rest_reason(), source@);
                let b = SpecPat::Ident(SpecBinding { id: REST_ARGS_NAME@, type_ann: None });
                assert(lets_pat(b));
            },
            Parameter::Other(source) => {
                lemma_skip("Unknown parameter type"@, source@);
            },
        }
    }
}

proof fn lemma_expression(e: Expression)
    ensures
        lets_expr(spec_expression(e)),
    decreases e,
{
    match e {
        Expression::BinaryOperator(b) => lemma_binary(*b),
        Expression::Parentheses { expression } => lemma_expression(*expression),
        Expression::UnaryOperator { unop, expression } => {
            lemma_expression(*expression);
            lemma_unary(unop, spec_expression(*expression));
        },
        Expression::Value { value, type_assertion } => {
            lemma_value(*value);
        },
        Expression::Other(source) => lemma_skip("Unknown expression variant"@, source@),
    }
}

proof fn lemma_unary(op: UnOp, arg: SpecExpr)
    requires
        lets_expr(arg),
    ensures
        lets_expr(spec_unary_with(op, arg)),
{
    match op {
        UnOp::Hash => {
            let callee = SpecExpr::Member { obj: Box::new(arg), prop: SpecMemberProp::Ident("size"@) };
            assert(lets_expr(callee));
            assert(lets_args(Seq::<SpecArg>::empty()));
        },
        UnOp::Other(source) => lemma_skip("Unknown unary operator"@, source@),
        _ => {},
    }
}

proof fn lemma_binary(b: BinaryOperation)
    ensures
        lets_expr(spec_binary_expression(b)),
    decreases b,
{
    match b.binop {
        BinOp::Other(source) => lemma_skip("Unknown binary operator"@, source@),
        _ => {
            lemma_expression(b.lhs);
            lemma_expression(b.rhs);
        },
    }
}

proof fn lemma_value(v: Value)
    ensures
        lets_expr(spec_value(v)),
    decreases v,
{
    match v {
        Value::Function(body) => lemma_function_body(*body),
        Value::FunctionCall(fc) => lemma_function_call(fc),
        Value::IfExpression(ie) => lemma_if_expression(*ie),
        Value::TableConstructor(t) => lemma_table(t),
        Value::Number(token) => {
            lemma_skip("transform_number token was not TokenType::Number"@, token.source@);
        },
        Value::ParenthesesExpression(e) => lemma_expression(*e),
        Value::String(token) => {
            lemma_skip("transform_string token was not TokenType::StringLiteral"@, token.source@);
        },
        Value::Symbol(token) => {
            lemma_skip("Unknown value variant"@, token.source@);
        },
        Value::Var(var) => lemma_var(var),
        Value::Other(source) => lemma_skip("Unknown value variant"@, source@),
    }
}

proof fn lemma_function_body(body: FunctionBody)
    ensures
        lets_function(spec_function_body(body)),
    decreases body,
{
    lemma_params(body.parameters@, body.type_specifiers@);
    lemma_block_statements(body.block);
}

proof fn lemma_function_call(call: FunctionCall)
    ensures
        lets_expr(spec_function_call(call)),
    decreases call,
{
    lemma_prefix(call.prefix);
    lemma_suffixes(spec_prefix(call.prefix), call.suffixes@);
}

proof fn lemma_prefix(p: Prefix)
    ensures
        lets_expr(spec_prefix(p)),
    decreases p,
{
    match p {
        Prefix::Expression(e) => lemma_expression(*e),
        Prefix::Other(source) => lemma_skip("Unknown prefix variant"@, source@),
        _ => {},
    }
}

proof fn lemma_suffixes(base: SpecExpr, s: Seq<Suffix>)
    requires
        lets_expr(base),
    ensures
        lets_expr(spec_suffixes(base, s)),
    decreases s,
{
    if s.len() > 0 {
        lemma_suffixes(base, s.drop_last());
        lemma_suffix(s.last(), spec_suffixes(base, s.drop_last()));
    }
}

proof fn lemma_suffix(s: Suffix, base: SpecExpr)
    requires
        lets_expr(base),
    ensures
        lets_expr(spec_suffix(s, base)),
    decreases s,
{
    match s {
        Suffix::Call(call) => lemma_call(call, base),
        Suffix::Index(index) => {
            lemma_index_prop(index);
            let prop = spec_index_prop(index);
            assert(lets_expr(SpecExpr::Member { obj: Box::new(base), prop }));
        },
        Suffix::Other(source) => lemma_skip("Unknown suffix variant"@, source@),
    }
}

proof fn lemma_index_prop(index: Index)
    ensures
        match spec_index_prop(index) {
            SpecMemberProp::Computed(x) => lets_expr(*x),
            _ => true,
        },
    decreases index,
{
    match index {
        Index::Brackets(e) => lemma_expression(*e),
        Index::Other(source) => lemma_skip("Unknown index variant"@, source@),
        _ => {},
    }
}

proof fn lemma_call(call: Call, base: SpecExpr)
    requires
        lets_expr(base),
    ensures
        lets_expr(spec_call(call, base)),
    decreases call,
{
    match call {
        Call::MethodCall { name, args } => {
            lemma_function_args(args);
            let callee = SpecExpr::Member {
                obj: Box::new(base),
                prop: SpecMemberProp::Ident(name@),
            };
            assert(lets_expr(callee));
        },
        Call::AnonymousCall(args) => {
            lemma_function_args(args);
            match base {
                SpecExpr::Member { obj, prop } => {
                    assert(lets_expr(*obj));
                },
                _ => {},
            }
        },
        Call::Other(source) => {
            lemma_skip("Unknown call type"@, source@);
            let args = seq![SpecArg { spread: false, expr: spec_skip("Unknown call type"@, source@) }];
            assert(lets_args(args));
        },
    }
}

proof fn lemma_function_args(args: FunctionArgs)
    ensures
        lets_args(spec_function_args(args)),
    decreases args,
{
    match args {
        FunctionArgs::Parentheses(v) => lemma_arg_list(v@),
        FunctionArgs::String(token) => {
            lemma_skip("transform_string token was not TokenType::StringLiteral"@, token.source@);
            assert(lets_expr(spec_string(token)));
            assert(lets_args(seq![SpecArg { spread: false, expr: spec_string(token) }]));
        },
        FunctionArgs::TableConstructor(t) => {
            lemma_table(t);
            assert(lets_args(seq![SpecArg { spread: false, expr: spec_table_constructor(t) }]));
        },
        FunctionArgs::Other(source) => {
            lemma_skip("Unknown function args type"@, source@);
            let e = spec_skip("Unknown function args type"@, source@);
            assert(lets_args(seq![SpecArg { spread: false, expr: e }]));
        },
    }
}

proof fn lemma_arg_list(s: Seq<Expression>)
    ensures
        lets_args(spec_arg_list(s)),
    decreases s,
{
    let out = spec_arg_list(s);
    assert forall|i: int| 0 <= i < out.len() implies lets_expr(#[trigger] out[i].expr) by {
        lemma_expression(s[i]);
    }
}

proof fn lemma_var(v: Var)
    ensures
        lets_expr(spec_var(v)),
    decreases v,
{
    match v {
        Var::Expression(ve) => {
            lemma_prefix(ve.prefix);
            lemma_suffixes(spec_prefix(ve.prefix), ve.suffixes@);
        },
        Var::Other(source) => lemma_skip("Unknown variable variant"@, source@),
        _ => {},
    }
}

proof fn lemma_if_expression(ie: IfExpression)
    ensures
        lets_expr(spec_if_expression(ie)),
    decreases ie,
{
    lemma_expression(ie.condition);
    lemma_expression(ie.if_expression);
    lemma_expression(ie.else_expression);
    match ie.else_if_expressions {
        None => {
            assert(lets_expr(SpecExpr::Paren(Box::new(spec_expression(ie.else_expression)))));
        },
        Some(v) => lemma_else_if_chain(v@, spec_expression(ie.else_expression)),
    }
}

proof fn lemma_else_if_chain(s: Seq<ElseIfExpression>, last: SpecExpr)
    requires
        lets_expr(last),
    ensures
        lets_expr(spec_else_if_chain(s, last)),
    decreases s,
{
    if s.len() > 0 {
        lemma_expression(s[0].condition);
        lemma_expression(s[0].expression);
        lemma_else_if_chain(s.drop_first(), last);
        assert(lets_expr(SpecExpr::Paren(Box::new(spec_expression(s[0].condition)))));
        assert(lets_expr(SpecExpr::Paren(Box::new(spec_expression(s[0].expression)))));
    }
}

proof fn lemma_table(t: TableConstructor)
    ensures
        lets_expr(spec_table_constructor(t)),
    decreases t,
{
    if is_array_table(t.fields@) {
        lemma_array_elements(t.fields@);
    } else {
        lemma_object_props(t.fields@);
    }
}

proof fn lemma_array_elements(fields: Seq<Field>)
    requires
        is_array_table(fields),
    ensures
        lets_opt_args(spec_array_elements(fields)),
    decreases fields,
{
    let out = spec_array_elements(fields);
    assert forall|i: int| 0 <= i < out.len() implies match #[trigger] out[i] {
        Some(a) => lets_expr(a.expr),
        None => true,
    } by {
        assert(fields[i] is NoKey);
        match fields[i] {
            Field::NoKey(e) => {
                lemma_expression(e);
                lemma_unpack_argument(e);
            },
            _ => {},
        }
    }
}

proof fn lemma_unpack_argument(e: Expression)
    ensures
        lets_expr(spec_unpack_argument(e)),
    decreases e,
{
    match e {
        Expression::Value { value, .. } => match *value {
            Value::FunctionCall(fc) => if fc.suffixes@.len() > 0 {
                match fc.suffixes@[0] {
                    Suffix::Call(Call::AnonymousCall(args)) => {
                        lemma_function_args(args);
                        if spec_function_args(args).len() > 0 {
                            assert(lets_expr(spec_function_args(args)[0].expr));
                        }
                    },
                    _ => {},
                }
            },
            _ => {},
        },
        _ => {},
    }
}

proof fn lemma_object_props(fields: Seq<Field>)
    ensures
        lets_props(spec_object_props(fields)),
    decreases fields,
{
    let out = spec_object_props(fields);
    assert forall|i: int| 0 <= i < out.len() implies lets_expr(#[trigger] out[i].value) && match out[i].key {
        SpecPropName::Computed(x) => lets_expr(*x),
        _ => true,
    } by {
        match fields[i] {
            Field::NameKey { value, .. } => lemma_expression(value),
            Field::ExpressionKey { key, value } => {
                lemma_expression(key);
                lemma_expression(value);
            },
            Field::NoKey(value) => lemma_expression(value),
            Field::Other(source) => lemma_skip("Unknown Field kind"@, source@),
        }
    }
}

proof fn lemma_block_statements(b: Block)
    ensures
        lets_stmts(spec_block_statements(b)),
    decreases b,
{
    lemma_stmt_list(b.stmts@);
    let head = spec_stmt_list(b.stmts@);
    match b.last_stmt {
        Some(l) => {
            lemma_last_statement(l);
            let tail = seq![spec_last_statement(l)];
            assert(lets_stmts(tail));
            lemma_concat_stmts(head, tail);
        },
        None => {
            lemma_concat_stmts(head, Seq::empty());
        },
    }
}

/// Two lists of statements that declare with `let` only make one.
proof fn lemma_concat_stmts(a: Seq<SpecStmt>, b: Seq<SpecStmt>)
    requires
        lets_stmts(a),
        lets_stmts(b),
    ensures
        lets_stmts(a + b),
{
    assert forall|i: int| 0 <= i < (a + b).len() implies lets_stmt(#[trigger] (a + b)[i]) by {
        if i < a.len() {
            assert((a + b)[i] == a[i]);
        } else {
            assert((a + b)[i] == b[i - a.len()]);
        }
    }
}

proof fn lemma_stmt_list(s: Seq<LuaStmt>)
    ensures
        lets_stmts(spec_stmt_list(s)),
    decreases s,
{
    if s.len() > 0 {
        lemma_stmt_list(s.drop_last());
        lemma_statement(s.last());
        lemma_concat_stmts(spec_stmt_list(s.drop_last()), spec_statement(s.last()));
    }
}

proof fn lemma_last_statement(l: LastStmt)
    ensures
        lets_stmt(spec_last_statement(l)),
    decreases l,
{
    match l {
        LastStmt::Return(v) => {
            if v@.len() == 1 {
                lemma_expression(v@[0]);
                let r = SpecStmt::Return(Some(Box::new(spec_expression(v@[0]))));
                assert(lets_stmt(r));
            } else if v@.len() > 1 {
                lemma_expr_elems(v@);
                let array = SpecExpr::Array(spec_expr_elems(v@));
                assert(lets_expr(array));
                let tuple = SpecExpr::TsAs {
                    expr: Box::new(array),
                    type_ann: Box::new(
                        SpecType::TypeRef {
                            name: SpecEntityName::Ident("LuaTuple"@),
                            params: Some(seq![SpecType::LitEmptyTemplate]),
                        },
                    ),
                };
                assert(lets_expr(tuple));
                assert(lets_stmt(SpecStmt::Return(Some(Box::new(tuple)))));
            } else {
                assert(lets_stmt(SpecStmt::Return(None)));
            }
        },
        LastStmt::Other(source) => {
            lemma_skip("Unknown last statement type"@, source@);
            assert(lets_stmt(spec_skip_stmt("Unknown last statement type"@, source@)));
        },
        LastStmt::Break => {
            assert(lets_stmt(SpecStmt::Break));
        },
        LastStmt::Continue => {
            assert(lets_stmt(SpecStmt::Continue));
        },
    }
}

proof fn lemma_expr_elems(s: Seq<Expression>)
    ensures
        lets_opt_args(spec_expr_elems(s)),
    decreases s,
{
    let out = spec_expr_elems(s);
    assert forall|i: int| 0 <= i < out.len() implies match #[trigger] out[i] {
        Some(a) => lets_expr(a.expr),
        None => true,
    } by {
        lemma_expression(s[i]);
    }
}

proof fn lemma_var_pats(s: Seq<Var>)
    ensures
        lets_opt_pats(spec_var_pats(s)),
    decreases s,
{
    let out = spec_var_pats(s);
    assert forall|i: int| 0 <= i < out.len() implies match #[trigger] out[i] {
        Some(p) => lets_pat(p),
        None => true,
    } by {
        lemma_var(s[i]);
        assert(lets_pat(SpecPat::Expr(Box::new(spec_var(s[i])))));
    }
}

proof fn lemma_assignment(a: Assignment)
    ensures
        lets_stmt(spec_assignment(a)),
    decreases a,
{
    let left = if a.variables@.len() == 1 {
        SpecPatOrExpr::Expr(Box::new(spec_var(a.variables@[0])))
    } else {
        SpecPatOrExpr::Pat(Box::new(SpecPat::Array(spec_var_pats(a.variables@))))
    };
    let right = if a.expressions@.len() != 1 {
        SpecExpr::Array(spec_expr_elems(a.expressions@))
    } else {
        spec_expression(a.expressions@[0])
    };
    if a.variables@.len() == 1 {
        lemma_var(a.variables@[0]);
    } else {
        lemma_var_pats(a.variables@);
        assert(lets_pat(SpecPat::Array(spec_var_pats(a.variables@))));
    }
    if a.expressions@.len() != 1 {
        lemma_expr_elems(a.expressions@);
    } else {
        lemma_expression(a.expressions@[0]);
    }
    assert(lets_expr(right));
    let e = SpecExpr::Assign { op: AssignOp::Assign, left, right: Box::new(right) };
    assert(lets_expr(e));
    assert(spec_assignment(a) == SpecStmt::Expr(Box::new(e)));
}

proof fn lemma_compound_assignment(c: CompoundAssignment)
    ensures
        lets_stmt(spec_compound_assignment(c)),
    decreases c,
{
    match c.operator {
        CompoundOp::Other(source) => {
            lemma_skip("Unknown compound assignment operator"@, source@);
            assert(lets_stmt(spec_skip_stmt("Unknown compound assignment operator"@, source@)));
        },
        _ => {
            lemma_var(c.lhs);
            lemma_expression(c.rhs);
            let e = SpecExpr::Assign {
                op: compound_op_of(c.operator).unwrap(),
                left: SpecPatOrExpr::Expr(Box::new(spec_var(c.lhs))),
                right: Box::new(spec_expression(c.rhs)),
            };
            assert(lets_expr(e));
            assert(spec_compound_assignment(c) == SpecStmt::Expr(Box::new(e)));
        },
    }
}

proof fn lemma_name_chain(first: Seq<char>, rest: Seq<String>)
    ensures
        lets_expr(spec_name_chain(first, rest)),
    decreases rest.len(),
{
    if rest.len() > 0 {
        lemma_name_chain(first, rest.drop_last());
    }
}

proof fn lemma_function_declaration(d: FunctionDeclaration)
    ensures
        lets_stmt(spec_function_declaration(d)),
    decreases d,
{
    lemma_function_body(d.body);
    lemma_name_chain(d.name.first@, d.name.rest@);
    let f = spec_function_body(d.body);
    let name = spec_function_name(d.name);
    match d.name.method_name {
        Some(m) => {
            let chain = spec_name_chain(d.name.first@, d.name.rest@);
            assert(lets_expr(SpecExpr::Member { obj: Box::new(chain), prop: SpecMemberProp::Ident(m@) }));
        },
        None => {},
    }
    assert(lets_expr(name));
    match name {
        SpecExpr::Ident(id) => {
            assert(lets_stmt(SpecStmt::FnDecl { ident: id, function: Box::new(f) }));
        },
        _ => {
            let value = SpecExpr::Fn(Box::new(f));
            assert(lets_expr(value));
            let e = SpecExpr::Assign {
                op: AssignOp::Assign,
                left: SpecPatOrExpr::Expr(Box::new(name)),
                right: Box::new(value),
            };
            assert(lets_expr(e));
            assert(lets_stmt(SpecStmt::Expr(Box::new(e))));
        },
    }
}

proof fn lemma_generic_for(g: GenericFor)
    ensures
        lets_stmt(spec_generic_for(g)),
    decreases g,
{
    if g.expressions@.len() != 1 {
        lemma_skip("For-in loops with multiple expressions not supported"@, g.source@);
        assert(lets_stmt(
            spec_skip_stmt("For-in loops with multiple expressions not supported"@, g.source@),
        ));
    } else {
        lemma_expression(g.expressions@[0]);
        lemma_block_statements(g.block);
        lemma_local_names(g.names@, g.type_specifiers@);
        let pats = spec_local_names(g.names@, g.type_specifiers@);
        let d = SpecDeclarator { name: SpecPat::Array(pats), init: None };
        assert(lets_pat(d.name));
        assert(lets_declarators(seq![d]));
        let left = SpecVarDecl { kind: VarDeclKind::Let, decls: seq![d] };
        assert(lets_var_decl(left));
        let body = SpecStmt::Block(spec_block_statements(g.block));
        assert(lets_stmt(body));
        assert(lets_stmt(SpecStmt::ForOf {
            left,
            right: Box::new(spec_expression(g.expressions@[0])),
            body: Box::new(body),
        }));
    }
}

proof fn lemma_local_assignment(l: LocalAssignment)
    ensures
        lets_stmt(spec_local_assignment(l)),
    decreases l,
{
    let decls = if l.has_equal {
        seq![spec_initialized_declarator(l.names@, l.type_specifiers@, l.expressions@, l.source@)]
    } else {
        spec_uninitialized(l.names@, l.type_specifiers@)
    };
    if l.has_equal {
        lemma_initialized_declarator(l.names@, l.type_specifiers@, l.expressions@, l.source@);
    } else {
        assert forall|i: int| 0 <= i < decls.len() implies lets_pat(#[trigger] decls[i].name) && match decls[i].init {
            Some(x) => lets_expr(x),
            None => true,
        } by {
            assert(lets_pat(decls[i].name));
        }
    }
    assert(lets_declarators(decls));
    let d = SpecVarDecl { kind: VarDeclKind::Let, decls };
    assert(lets_var_decl(d));
    assert(spec_local_assignment(l) == SpecStmt::Var(d));
}

proof fn lemma_local_names(names: Seq<String>, types: Seq<Option<TypeInfo>>)
    ensures
        lets_pat(SpecPat::Array(spec_local_names(names, types))),
{
    let pats = spec_local_names(names, types);
    assert forall|i: int| 0 <= i < pats.len() implies match #[trigger] pats[i] {
        Some(p) => lets_pat(p),
        None => true,
    } by {
        let b = SpecBinding { id: names[i]@, type_ann: annotation_at(types, i) };
        assert(pats[i] == Some(SpecPat::Ident(b)));
        assert(lets_pat(SpecPat::Ident(b)));
    }
    assert(lets_opt_pats(pats));
}

proof fn lemma_initialized_declarator(
    names: Seq<String>,
    types: Seq<Option<TypeInfo>>,
    expressions: Seq<Expression>,
    source: Seq<char>,
)
    ensures
        lets_pat(spec_initialized_declarator(names, types, expressions, source).name),
        match spec_initialized_declarator(names, types, expressions, source).init {
            Some(x) => lets_expr(x),
            None => true,
        },
    decreases expressions,
{
    let d = spec_initialized_declarator(names, types, expressions, source);
    if names.len() != 1 {
        lemma_local_names(names, types);
    } else {
        let b = SpecBinding { id: names[0]@, type_ann: annotation_at(types, 0) };
        assert(lets_pat(SpecPat::Ident(b)));
    }
    if expressions.len() != 1 {
        lemma_skip("multiple expressions in variable assignment not supported"@, source);
    } else {
        lemma_expression(expressions[0]);
    }
}

proof fn lemma_local_function(l: LocalFunction)
    ensures
        lets_stmt(spec_local_function(l)),
    decreases l,
{
    lemma_params(l.body.parameters@, l.body.type_specifiers@);
    lemma_block_statements(l.body.block);
    let f = SpecFunction {
        params: spec_function_params(l.body.parameters@, l.body.type_specifiers@),
        return_type: None,
        type_params: None,
        body: spec_block_statements(l.body.block),
    };
    assert(lets_function(f));
    assert(lets_stmt(SpecStmt::FnDecl { ident: l.name@, function: Box::new(f) }));
}

proof fn lemma_numeric_for(n: NumericFor)
    ensures
        lets_stmt(spec_numeric_for(n)),
    decreases n,
{
    match step_comparison(n.step) {
        None => lemma_skip("Numeric for loops with non-literal step are not supported"@, n.source@),
        Some(op) => {
            lemma_expression(n.start);
            lemma_expression(n.end);
            let step = match n.step {
                Some(e) => {
                    lemma_expression(e);
                    spec_expression(e)
                },
                None => SpecExpr::Lit(SpecLit::Num("1"@)),
            };
            lemma_block_statements(n.block);
            let d = SpecDeclarator {
                name: SpecPat::Ident(spec_index_binding(n)),
                init: Some(spec_expression(n.start)),
            };
            assert(lets_declarators(seq![d]));
            let index = SpecExpr::Ident(n.index_variable@);
            assert(lets_expr(index));
            assert(lets_expr(step));
            assert(lets_expr(SpecExpr::Bin {
                op,
                left: Box::new(index),
                right: Box::new(spec_expression(n.end)),
            }));
            assert(lets_expr(SpecExpr::Assign {
                op: AssignOp::AddAssign,
                left: SpecPatOrExpr::Expr(Box::new(index)),
                right: Box::new(step),
            }));
            assert(lets_stmt(SpecStmt::Block(spec_block_statements(n.block))));
            let init = SpecVarDecl { kind: VarDeclKind::Let, decls: seq![d] };
            assert(lets_var_decl(init));
        },
    }
}

proof fn lemma_if_statement(i: If)
    ensures
        lets_stmt(spec_if_statement(i)),
    decreases i,
{
    lemma_expression(i.condition);
    lemma_block_statements(i.block);
    assert(lets_stmt(SpecStmt::Block(spec_block_statements(i.block))));
    match i.else_block {
        Some(b) => {
            lemma_block_statements(b);
            assert(lets_stmt(SpecStmt::Block(spec_block_statements(b))));
        },
        None => {},
    }
    match i.else_if {
        Some(v) => {
            assert(decreases_to!(i => v@));
            lemma_else_if_stmt_chain(v@, spec_else_stmt(i.else_block));
        },
        None => {},
    }
}

proof fn lemma_else_if_stmt_chain(s: Seq<ElseIf>, last: Option<SpecStmt>)
    requires
        last matches Some(x) ==> lets_stmt(x),
    ensures
        spec_else_if_stmt_chain(s, last) matches Some(x) ==> lets_stmt(x),
    decreases s,
{
    if s.len() > 0 {
        lemma_expression(s[0].condition);
        lemma_block_statements(s[0].block);
        lemma_else_if_stmt_chain(s.drop_first(), last);
        assert(lets_stmt(SpecStmt::Block(spec_block_statements(s[0].block))));
    }
}

proof fn lemma_statement(s: LuaStmt)
    ensures
        lets_stmts(spec_statement(s)),
    decreases s,
{
    match s {
        LuaStmt::Assignment(a) => lemma_assignment(a),
        LuaStmt::Do(b) => {
            lemma_block_statements(b);
            assert(lets_stmt(SpecStmt::Block(spec_block_statements(b))));
        },
        LuaStmt::FunctionCall(fc) => {
            lemma_function_call(fc);
            assert(lets_stmt(SpecStmt::Expr(Box::new(spec_function_call(fc)))));
        },
        LuaStmt::FunctionDeclaration(d) => lemma_function_declaration(d),
        LuaStmt::GenericFor(g) => lemma_generic_for(g),
        LuaStmt::If(i) => lemma_if_statement(i),
        LuaStmt::LocalAssignment(l) => lemma_local_assignment(l),
        LuaStmt::LocalFunction(l) => lemma_local_function(l),
        LuaStmt::NumericFor(n) => lemma_numeric_for(n),
        LuaStmt::Repeat { block, until } => {
            lemma_block_statements(block);
            lemma_expression(until);
            assert(lets_stmt(SpecStmt::Block(spec_block_statements(block))));
            assert(lets_expr(
                SpecExpr::Unary { op: UnaryOp::Bang, arg: Box::new(spec_expression(until)) },
            ));
        },
        LuaStmt::While { condition, block } => {
            lemma_block_statements(block);
            lemma_expression(condition);
            assert(lets_stmt(SpecStmt::Block(spec_block_statements(block))));
        },
        LuaStmt::CompoundAssignment(c) => lemma_compound_assignment(c),
        LuaStmt::ExportedTypeDeclaration { declaration, source } => {
            lemma_skip("ModuleItem not allowed in architecture, export manually"@, source@);
            assert(lets_stmt(spec_type_declaration(declaration)));
            assert(lets_stmt(
                spec_skip_stmt("ModuleItem not allowed in architecture, export manually"@, source@),
            ));
        },
        LuaStmt::TypeDeclaration(d) => {
            assert(lets_stmt(spec_type_declaration(d)));
        },
        LuaStmt::Other(source) => {
            lemma_skip("Unknown statement type"@, source@);
            assert(lets_stmt(spec_skip_stmt("Unknown statement type"@, source@)));
        },
    }
}

/// Every variable that the module made of a Luau file declares is declared
/// with `let`, in its statements, its functions and its exported value alike.
pub proof fn lemma_module_declares_with_let(b: Block)
    requires
        returns_value(b),
    ensures
        forall|i: int|
            0 <= i < spec_module_block(b).len() ==> lets_module_item(#[trigger] spec_module_block(b)[i]),
{
    lemma_module_items(b.stmts@);
    let head = spec_module_items(b.stmts@);
    let out = spec_module_block(b);
    match b.last_stmt {
        Some(LastStmt::Return(v)) => {
            lemma_expression(v@[0]);
            assert(out == head + seq![SpecModuleItem::ExportDefault(spec_expression(v@[0]))]);
        },
        _ => {
            assert(out =~= head);
        },
    }
    assert forall|i: int| 0 <= i < out.len() implies lets_module_item(#[trigger] out[i]) by {
        if i < head.len() {
            assert(out[i] == head[i]);
        }
    }
}

proof fn lemma_module_items(s: Seq<LuaStmt>)
    ensures
        forall|i: int|
            0 <= i < spec_module_items(s).len() ==> lets_module_item(#[trigger] spec_module_items(s)[i]),
    decreases s.len(),
{
    if s.len() > 0 {
        lemma_module_items(s.drop_last());
        let head = spec_module_items(s.drop_last());
        let tail = spec_module_stmt(s.last());
        match s.last() {
            LuaStmt::ExportedTypeDeclaration { declaration, .. } => {
                assert(lets_stmt(spec_type_declaration(declaration)));
            },
            _ => {
                lemma_statement(s.last());
            },
        }
        assert forall|i: int| 0 <= i < tail.len() implies lets_module_item(#[trigger] tail[i]) by {
            match s.last() {
                LuaStmt::ExportedTypeDeclaration { .. } => {},
                _ => {
                    assert(lets_stmt(spec_statement(s.last())[i]));
                },
            }
        }
        assert forall|i: int| 0 <= i < (head + tail).len() implies lets_module_item(#[trigger] (head + tail)[i]) by {
            if i < head.len() {
                assert((head + tail)[i] == head[i]);
            } else {
                assert((head + tail)[i] == tail[i - head.len()]);
            }
        }
    }
}

} // verus!
