use lua_to_ts::lua::{
    Assignment, BinOp, BinaryOperation, Block, CompoundAssignment, CompoundOp, ElseIf, Expression,
    FunctionBody, FunctionDeclaration, FunctionName, GenericFor, If, LastStmt, LocalAssignment,
    LocalFunction, NumericFor, Parameter, Stmt as LuaStmt, Token, TokenKind, TypeDeclaration,
    TypeInfo, UnOp, Value, Var,
};
use lua_to_ts::statements::transform_block_statements::transform_block_statements;
use lua_to_ts::statements::transform_if_statement::transform_if_statement;
use lua_to_ts::statements::transform_last_statement::transform_last_statement;
use lua_to_ts::statements::transform_module_block::transform_module_block;
use lua_to_ts::statements::transform_statement::transform_statement;
use lua_to_ts::ts::{
    AssignOp, BinaryOp, BindingIdent, Expr, ExprOrSpread, Function, Ident, Lit, MemberProp,
    ModuleItem, Pat, PatOrExpr, Stmt, Str, TsEntityName, TsType, UnaryOp, VarDecl, VarDeclKind,
    VarDeclarator,
};

fn id(name: &str) -> Ident {
    Ident { sym: name.to_owned() }
}

fn e_id(name: &str) -> Expr {
    Expr::Ident(id(name))
}

fn e_num(text: &str) -> Expr {
    Expr::Lit(Lit::Num(text.to_owned()))
}

fn e_str(text: &str) -> Expr {
    Expr::Lit(Lit::Str(Str { value: text.to_owned() }))
}

fn arg(e: Expr) -> ExprOrSpread {
    ExprOrSpread { spread: false, expr: Box::new(e) }
}

fn error_call(message: &str) -> Expr {
    Expr::Call { callee: Box::new(e_id("error")), args: vec![arg(e_str(message))] }
}

fn value(v: Value) -> Expression {
    Expression::Value { value: Box::new(v), type_assertion: None }
}

fn name(n: &str) -> Expression {
    value(Value::Var(Var::Name(n.to_owned())))
}

fn number(text: &str) -> Expression {
    value(Value::Number(Token {
        kind: TokenKind::Number { text: text.to_owned() },
        source: text.to_owned(),
    }))
}

fn empty_block() -> Block {
    Block { stmts: vec![], last_stmt: None }
}

fn binding(name: &str, type_ann: Option<TsType>) -> Pat {
    Pat::Ident(BindingIdent { id: id(name), type_ann: type_ann.map(Box::new) })
}

fn type_ref(name: &str) -> TsType {
    TsType::TypeRef { name: TsEntityName::Ident(id(name)), params: None }
}

fn let_decl(name: Pat, init: Option<Expr>) -> VarDecl {
    VarDecl { kind: VarDeclKind::Let, decls: vec![VarDeclarator { name, init: init.map(Box::new) }] }
}

fn empty_body() -> FunctionBody {
    FunctionBody {
        generics: None,
        parameters: vec![],
        type_specifiers: vec![],
        return_type: None,
        block: empty_block(),
    }
}

#[test]
fn single_assignment_stays() {
    let s = LuaStmt::Assignment(Assignment { variables: vec![Var::Name("a".to_owned())], expressions: vec![number("1")] });
    assert_eq!(
        transform_statement(&s),
        vec![Stmt::Expr(Box::new(Expr::Assign {
            op: AssignOp::Assign,
            left: PatOrExpr::Expr(Box::new(e_id("a"))),
            right: Box::new(e_num("1")),
        }))]
    );
}

#[test]
fn multiple_assignment_becomes_array_destructuring() {
    let s = LuaStmt::Assignment(Assignment {
        variables: vec![Var::Name("a".to_owned()), Var::Name("b".to_owned())],
        expressions: vec![number("1"), number("2")],
    });
    assert_eq!(
        transform_statement(&s),
        vec![Stmt::Expr(Box::new(Expr::Assign {
            op: AssignOp::Assign,
            left: PatOrExpr::Pat(Box::new(Pat::Array(vec![
                Some(Pat::Expr(Box::new(e_id("a")))),
                Some(Pat::Expr(Box::new(e_id("b")))),
            ]))),
            right: Box::new(Expr::Array(vec![Some(arg(e_num("1"))), Some(arg(e_num("2")))])),
        }))]
    );
}

#[test]
fn concatenating_assignment_becomes_add_assign() {
    let s = LuaStmt::CompoundAssignment(CompoundAssignment {
        lhs: Var::Name("s".to_owned()),
        operator: CompoundOp::TwoDotsEqual,
        rhs: name("t"),
    });
    assert_eq!(
        transform_statement(&s),
        vec![Stmt::Expr(Box::new(Expr::Assign {
            op: AssignOp::AddAssign,
            left: PatOrExpr::Expr(Box::new(e_id("s"))),
            right: Box::new(e_id("t")),
        }))]
    );
}

#[test]
fn power_assignment_becomes_exponent_assign() {
    let s = LuaStmt::CompoundAssignment(CompoundAssignment {
        lhs: Var::Name("x".to_owned()),
        operator: CompoundOp::CaretEqual,
        rhs: number("2"),
    });
    assert_eq!(
        transform_statement(&s),
        vec![Stmt::Expr(Box::new(Expr::Assign {
            op: AssignOp::ExpAssign,
            left: PatOrExpr::Expr(Box::new(e_id("x"))),
            right: Box::new(e_num("2")),
        }))]
    );
}

#[test]
fn unknown_compound_operator_is_reported() {
    let s = LuaStmt::CompoundAssignment(CompoundAssignment {
        lhs: Var::Name("x".to_owned()),
        operator: CompoundOp::Other("//=".to_owned()),
        rhs: number("2"),
    });
    assert_eq!(
        transform_statement(&s),
        vec![Stmt::Expr(Box::new(error_call(
            "[lua-to-ts] Failed to transform: `//=` because: Unknown compound assignment operator"
        )))]
    );
}

#[test]
fn typed_local_becomes_typed_let() {
    let s = LuaStmt::LocalAssignment(LocalAssignment {
        names: vec!["x".to_owned()],
        type_specifiers: vec![Some(TypeInfo::Basic("number".to_owned()))],
        has_equal: true,
        expressions: vec![number("5")],
        source: "local x: number = 5".to_owned(),
    });
    assert_eq!(
        transform_statement(&s),
        vec![Stmt::Var(let_decl(binding("x", Some(type_ref("number"))), Some(e_num("5"))))]
    );
}

#[test]
fn local_with_several_names_destructures() {
    let s = LuaStmt::LocalAssignment(LocalAssignment {
        names: vec!["a".to_owned(), "b".to_owned()],
        type_specifiers: vec![None, Some(TypeInfo::Basic("string".to_owned()))],
        has_equal: true,
        expressions: vec![name("f")],
        source: "local a, b: string = f".to_owned(),
    });
    assert_eq!(
        transform_statement(&s),
        vec![Stmt::Var(let_decl(
            Pat::Array(vec![Some(binding("a", None)), Some(binding("b", Some(type_ref("string"))))]),
            Some(e_id("f")),
        ))]
    );
}

#[test]
fn local_with_several_values_is_reported() {
    let s = LuaStmt::LocalAssignment(LocalAssignment {
        names: vec!["a".to_owned(), "b".to_owned()],
        type_specifiers: vec![],
        has_equal: true,
        expressions: vec![number("1"), number("2")],
        source: "local a, b = 1, 2 ".to_owned(),
    });
    assert_eq!(
        transform_statement(&s),
        vec![Stmt::Var(let_decl(
            Pat::Array(vec![Some(binding("a", None)), Some(binding("b", None))]),
            Some(error_call(
                "[lua-to-ts] Failed to transform: `local a, b = 1, 2` because: multiple expressions in variable assignment not supported"
            )),
        ))]
    );
}

#[test]
fn local_without_value_declares_each_name() {
    let s = LuaStmt::LocalAssignment(LocalAssignment {
        names: vec!["a".to_owned(), "b".to_owned()],
        type_specifiers: vec![Some(TypeInfo::Basic("number".to_owned()))],
        has_equal: false,
        expressions: vec![],
        source: "local a: number, b".to_owned(),
    });
    assert_eq!(
        transform_statement(&s),
        vec![Stmt::Var(VarDecl {
            kind: VarDeclKind::Let,
            decls: vec![
                VarDeclarator { name: binding("a", Some(type_ref("number"))), init: None },
                VarDeclarator { name: binding("b", Some(type_ref("number"))), init: None },
            ],
        })]
    );
}

#[test]
fn local_function_becomes_function_declaration() {
    let s = LuaStmt::LocalFunction(LocalFunction {
        name: "f".to_owned(),
        body: FunctionBody {
            generics: None,
            parameters: vec![
                Parameter::Name { name: "a".to_owned(), source: "a".to_owned() },
                Parameter::Ellipse { source: "...".to_owned() },
            ],
            type_specifiers: vec![Some(TypeInfo::Basic("number".to_owned())), Some(TypeInfo::Basic("string".to_owned()))],
            return_type: Some(TypeInfo::Basic("number".to_owned())),
            block: Block { stmts: vec![], last_stmt: Some(LastStmt::Return(vec![name("a")])) },
        },
    });
    assert_eq!(
        transform_statement(&s),
        vec![Stmt::FnDecl {
            ident: id("f"),
            function: Box::new(Function {
                params: vec![
                    binding("a", Some(type_ref("number"))),
                    Pat::Rest {
                        arg: Box::new(binding("_args", None)),
                        type_ann: Some(Box::new(TsType::Array(Box::new(type_ref("string"))))),
                    },
                ],
                return_type: None,
                type_params: None,
                body: vec![Stmt::Return(Some(Box::new(e_id("a"))))],
            }),
        }]
    );
}

#[test]
fn second_rest_parameter_is_reported() {
    let s = LuaStmt::LocalFunction(LocalFunction {
        name: "f".to_owned(),
        body: FunctionBody {
            generics: None,
            parameters: vec![
                Parameter::Name { name: "_args".to_owned(), source: "_args".to_owned() },
                Parameter::Ellipse { source: "...".to_owned() },
            ],
            type_specifiers: vec![],
            return_type: None,
            block: empty_block(),
        },
    });
    assert_eq!(
        transform_statement(&s),
        vec![Stmt::FnDecl {
            ident: id("f"),
            function: Box::new(Function {
                params: vec![
                    binding("_args", None),
                    Pat::Expr(Box::new(error_call(
                        "[lua-to-ts] Failed to transform: `...` because: Double use of `_args` or ... in function parameters"
                    ))),
                ],
                return_type: None,
                type_params: None,
                body: vec![],
            }),
        }]
    );
}

#[test]
fn global_function_keeps_its_return_type() {
    let s = LuaStmt::FunctionDeclaration(FunctionDeclaration {
        name: FunctionName { first: "f".to_owned(), rest: vec![], method_name: None },
        body: FunctionBody { return_type: Some(TypeInfo::Basic("string".to_owned())), ..empty_body() },
    });
    assert_eq!(
        transform_statement(&s),
        vec![Stmt::FnDecl {
            ident: id("f"),
            function: Box::new(Function {
                params: vec![],
                return_type: Some(Box::new(type_ref("string"))),
                type_params: None,
                body: vec![],
            }),
        }]
    );
}

#[test]
fn method_declaration_becomes_member_assignment() {
    let s = LuaStmt::FunctionDeclaration(FunctionDeclaration {
        name: FunctionName { first: "a".to_owned(), rest: vec!["b".to_owned()], method_name: Some("c".to_owned()) },
        body: empty_body(),
    });
    let target = Expr::Member {
        obj: Box::new(Expr::Member { obj: Box::new(e_id("a")), prop: MemberProp::Ident(id("b")) }),
        prop: MemberProp::Ident(id("c")),
    };
    assert_eq!(
        transform_statement(&s),
        vec![Stmt::Expr(Box::new(Expr::Assign {
            op: AssignOp::Assign,
            left: PatOrExpr::Expr(Box::new(target)),
            right: Box::new(Expr::Fn(Box::new(Function { params: vec![], return_type: None, type_params: None, body: vec![] }))),
        }))]
    );
}

#[test]
fn generic_for_becomes_for_of_with_destructuring() {
    let s = LuaStmt::GenericFor(GenericFor {
        names: vec!["k".to_owned(), "v".to_owned()],
        type_specifiers: vec![],
        expressions: vec![name("t")],
        block: empty_block(),
        source: "for k, v in t do end".to_owned(),
    });
    assert_eq!(
        transform_statement(&s),
        vec![Stmt::ForOf {
            left: let_decl(Pat::Array(vec![Some(binding("k", None)), Some(binding("v", None))]), None),
            right: Box::new(e_id("t")),
            body: Box::new(Stmt::Block(vec![])),
        }]
    );
}

#[test]
fn generic_for_keeps_the_types_of_its_names() {
    let s = LuaStmt::GenericFor(GenericFor {
        names: vec!["a".to_owned()],
        type_specifiers: vec![Some(TypeInfo::Basic("number".to_owned()))],
        expressions: vec![name("b")],
        block: empty_block(),
        source: "for a: number in b do end".to_owned(),
    });
    assert_eq!(
        transform_statement(&s),
        vec![Stmt::ForOf {
            left: let_decl(Pat::Array(vec![Some(binding("a", Some(type_ref("number"))))]), None),
            right: Box::new(e_id("b")),
            body: Box::new(Stmt::Block(vec![])),
        }]
    );
}

#[test]
fn generic_for_over_several_expressions_is_reported() {
    let s = LuaStmt::GenericFor(GenericFor {
        names: vec!["_".to_owned()],
        type_specifiers: vec![],
        expressions: vec![name("a"), name("b")],
        block: empty_block(),
        source: "for _ in a, b do end".to_owned(),
    });
    assert_eq!(
        transform_statement(&s),
        vec![Stmt::Expr(Box::new(error_call(
            "[lua-to-ts] Failed to transform: `for _ in a, b do end` because: For-in loops with multiple expressions not supported"
        )))]
    );
}

fn numeric_for(step: Option<Expression>) -> LuaStmt {
    LuaStmt::NumericFor(NumericFor {
        index_variable: "i".to_owned(),
        type_specifier: None,
        start: number("1"),
        end: number("10"),
        step,
        block: empty_block(),
        source: "for i = 1, 10, a do end".to_owned(),
    })
}

fn expected_for(op: BinaryOp, step: Expr) -> Vec<Stmt> {
    vec![Stmt::For {
        init: let_decl(binding("i", None), Some(e_num("1"))),
        test: Box::new(Expr::Bin { op, left: Box::new(e_id("i")), right: Box::new(e_num("10")) }),
        update: Box::new(Expr::Assign {
            op: AssignOp::AddAssign,
            left: PatOrExpr::Expr(Box::new(e_id("i"))),
            right: Box::new(step),
        }),
        body: Box::new(Stmt::Block(vec![])),
    }]
}

#[test]
fn numeric_for_without_step_counts_up_by_one() {
    assert_eq!(transform_statement(&numeric_for(None)), expected_for(BinaryOp::LtEq, e_num("1")));
}

#[test]
fn numeric_for_with_literal_step() {
    assert_eq!(transform_statement(&numeric_for(Some(number("2")))), expected_for(BinaryOp::LtEq, e_num("2")));
}

#[test]
fn numeric_for_with_negative_step_counts_down() {
    let step = Expression::UnaryOperator { unop: UnOp::Minus, expression: Box::new(number("1")) };
    assert_eq!(
        transform_statement(&numeric_for(Some(step))),
        expected_for(BinaryOp::GtEq, Expr::Unary { op: UnaryOp::Minus, arg: Box::new(e_num("1")) })
    );
}

#[test]
fn numeric_for_with_variable_step_is_reported() {
    assert_eq!(
        transform_statement(&numeric_for(Some(name("a")))),
        vec![Stmt::Expr(Box::new(error_call(
            "[lua-to-ts] Failed to transform: `for i = 1, 10, a do end` because: Numeric for loops with non-literal step are not supported"
        )))]
    );
}

#[test]
fn if_statement_keeps_else() {
    let s = LuaStmt::If(If {
        condition: name("c"),
        block: Block { stmts: vec![], last_stmt: Some(LastStmt::Break) },
        else_if: None,
        else_block: Some(Block { stmts: vec![], last_stmt: Some(LastStmt::Continue) }),
    });
    assert_eq!(
        transform_statement(&s),
        vec![Stmt::If {
            test: Box::new(e_id("c")),
            cons: Box::new(Stmt::Block(vec![Stmt::Break])),
            alt: Some(Box::new(Stmt::Block(vec![Stmt::Continue]))),
        }]
    );
}

#[test]
fn if_statement_with_elseif_chains() {
    let s = If {
        condition: name("a"),
        block: empty_block(),
        else_if: Some(vec![ElseIf { condition: name("b"), block: empty_block() }]),
        else_block: Some(empty_block()),
    };
    assert_eq!(
        transform_if_statement(&s),
        Stmt::If {
            test: Box::new(e_id("a")),
            cons: Box::new(Stmt::Block(vec![])),
            alt: Some(Box::new(Stmt::If {
                test: Box::new(e_id("b")),
                cons: Box::new(Stmt::Block(vec![])),
                alt: Some(Box::new(Stmt::Block(vec![]))),
            })),
        }
    );
}

#[test]
fn statement_if_keeps_every_elseif_in_order() {
    let s = LuaStmt::If(If {
        condition: name("a"),
        block: Block { stmts: vec![], last_stmt: Some(LastStmt::Break) },
        else_if: Some(vec![
            ElseIf { condition: name("b"), block: empty_block() },
            ElseIf {
                condition: name("c"),
                block: Block { stmts: vec![], last_stmt: Some(LastStmt::Continue) },
            },
        ]),
        else_block: None,
    });
    assert_eq!(
        transform_statement(&s),
        vec![Stmt::If {
            test: Box::new(e_id("a")),
            cons: Box::new(Stmt::Block(vec![Stmt::Break])),
            alt: Some(Box::new(Stmt::If {
                test: Box::new(e_id("b")),
                cons: Box::new(Stmt::Block(vec![])),
                alt: Some(Box::new(Stmt::If {
                    test: Box::new(e_id("c")),
                    cons: Box::new(Stmt::Block(vec![Stmt::Continue])),
                    alt: None,
                })),
            })),
        }]
    );
}

#[test]
fn repeat_becomes_do_while_not() {
    let s = LuaStmt::Repeat { block: empty_block(), until: name("done") };
    assert_eq!(
        transform_statement(&s),
        vec![Stmt::DoWhile {
            body: Box::new(Stmt::Block(vec![])),
            test: Box::new(Expr::Unary { op: UnaryOp::Bang, arg: Box::new(e_id("done")) }),
        }]
    );
}

#[test]
fn while_loop_stays() {
    let s = LuaStmt::While { condition: name("c"), block: empty_block() };
    assert_eq!(
        transform_statement(&s),
        vec![Stmt::While { test: Box::new(e_id("c")), body: Box::new(Stmt::Block(vec![])) }]
    );
}

#[test]
fn do_block_becomes_block() {
    let s = LuaStmt::Do(Block { stmts: vec![], last_stmt: Some(LastStmt::Return(vec![])) });
    assert_eq!(transform_statement(&s), vec![Stmt::Block(vec![Stmt::Return(None)])]);
}

#[test]
fn unknown_statement_is_reported() {
    let s = LuaStmt::Other("goto continue".to_owned());
    assert_eq!(
        transform_statement(&s),
        vec![Stmt::Expr(Box::new(error_call(
            "[lua-to-ts] Failed to transform: `goto continue` because: Unknown statement type"
        )))]
    );
}

#[test]
fn return_of_several_values_is_a_lua_tuple() {
    let r = transform_last_statement(&LastStmt::Return(vec![number("1"), number("2")]));
    assert_eq!(
        r,
        Stmt::Return(Some(Box::new(Expr::TsAs {
            expr: Box::new(Expr::Array(vec![Some(arg(e_num("1"))), Some(arg(e_num("2")))])),
            type_ann: Box::new(TsType::TypeRef {
                name: TsEntityName::Ident(id("LuaTuple")),
                params: Some(vec![TsType::LitEmptyTemplate]),
            }),
        })))
    );
}

#[test]
fn unknown_last_statement_is_reported() {
    assert_eq!(
        transform_last_statement(&LastStmt::Other("?".to_owned())),
        Stmt::Expr(Box::new(error_call("[lua-to-ts] Failed to transform: `?` because: Unknown last statement type")))
    );
}

fn alias_declaration() -> TypeDeclaration {
    TypeDeclaration {
        name: "Point".to_owned(),
        name_source: "Point".to_owned(),
        generics: None,
        type_definition: TypeInfo::Basic("number".to_owned()),
    }
}

#[test]
fn exported_type_in_a_block_asks_for_a_manual_export() {
    let b = Block {
        stmts: vec![LuaStmt::ExportedTypeDeclaration {
            declaration: alias_declaration(),
            source: "export type Point = number".to_owned(),
        }],
        last_stmt: None,
    };
    assert_eq!(
        transform_block_statements(&b),
        vec![
            Stmt::TypeAlias { id: id("Point"), type_params: None, type_ann: Box::new(type_ref("number")) },
            Stmt::Expr(Box::new(error_call(
                "[lua-to-ts] Failed to transform: `export type Point = number` because: ModuleItem not allowed in architecture, export manually"
            ))),
        ]
    );
}

#[test]
fn module_exports_types_and_its_returned_value() {
    let b = Block {
        stmts: vec![
            LuaStmt::ExportedTypeDeclaration {
                declaration: alias_declaration(),
                source: "export type Point = number".to_owned(),
            },
            LuaStmt::LocalAssignment(LocalAssignment {
                names: vec!["M".to_owned()],
                type_specifiers: vec![],
                has_equal: true,
                expressions: vec![value(Value::TableConstructor(lua_to_ts::lua::TableConstructor { fields: vec![] }))],
                source: "local M = {}".to_owned(),
            }),
        ],
        last_stmt: Some(LastStmt::Return(vec![name("M")])),
    };
    assert_eq!(
        transform_module_block(&b),
        vec![
            ModuleItem::Stmt(Stmt::TypeAlias { id: id("Point"), type_params: None, type_ann: Box::new(type_ref("number")) }),
            ModuleItem::ExportTypeName(id("Point")),
            ModuleItem::Stmt(Stmt::Var(let_decl(binding("M", None), Some(Expr::Array(vec![]))))),
            ModuleItem::ExportDefault(Box::new(e_id("M"))),
        ]
    );
}

#[test]
fn every_declaration_is_let() {
    let b = Block {
        stmts: vec![
            LuaStmt::LocalAssignment(LocalAssignment {
                names: vec!["a".to_owned()],
                type_specifiers: vec![],
                has_equal: true,
                expressions: vec![Expression::BinaryOperator(Box::new(BinaryOperation {
                    lhs: number("1"),
                    binop: BinOp::Plus,
                    rhs: number("2"),
                }))],
                source: "local a = 1 + 2".to_owned(),
            }),
            LuaStmt::LocalAssignment(LocalAssignment {
                names: vec!["a".to_owned()],
                type_specifiers: vec![],
                has_equal: true,
                expressions: vec![name("a")],
                source: "local a = a".to_owned(),
            }),
        ],
        last_stmt: None,
    };
    for s in transform_block_statements(&b) {
        match s {
            Stmt::Var(d) => assert_eq!(d.kind, VarDeclKind::Let),
            other => panic!("unexpected statement {:?}", other),
        }
    }
}
