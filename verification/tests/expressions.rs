use lua_to_ts::expressions::transform_expression::transform_expression;
use lua_to_ts::expressions::transform_number::{parse_i32_radix, radix_literal, transform_number};
use lua_to_ts::expressions::transform_string::transform_string;
use lua_to_ts::expressions::transform_table_constructor::transform_table_constructor;
use lua_to_ts::lua::{
    BinOp, BinaryOperation, Call, ElseIfExpression, Expression, Field, FunctionArgs, FunctionBody,
    FunctionCall, IfExpression, Index, Prefix, Suffix, Symbol, TableConstructor, Token, TokenKind,
    TypeInfo, UnOp, Value, Var, VarExpression,
};
use lua_to_ts::lua::{GenericDeclaration, GenericDeclarationParameter, GenericParameterInfo, Parameter};
use lua_to_ts::ts::{BindingIdent, Pat, TsTypeParam, TsTypeParamDecl};
use lua_to_ts::ts::{
    BinaryOp, Expr, ExprOrSpread, Function, Ident, KeyValueProp, Lit, MemberProp, PropName, Str,
    TsEntityName, TsType, UnaryOp,
};

fn id(name: &str) -> Ident {
    Ident { sym: name.to_owned() }
}

fn e_id(name: &str) -> Expr {
    Expr::Ident(id(name))
}

fn e_num(text: &str) -> Expr {
    Expr::Lit(Lit::Num(text.to_owned()))
}

fn e_str(text: &str) -> Expr {
    Expr::Lit(Lit::Str(Str { value: text.to_owned() }))
}

fn arg(e: Expr) -> ExprOrSpread {
    ExprOrSpread { spread: false, expr: Box::new(e) }
}

fn error_call(message: &str) -> Expr {
    Expr::Call { callee: Box::new(e_id("error")), args: vec![arg(e_str(message))] }
}

fn value(v: Value) -> Expression {
    Expression::Value { value: Box::new(v), type_assertion: None }
}

fn name(n: &str) -> Expression {
    value(Value::Var(Var::Name(n.to_owned())))
}

fn number(text: &str) -> Expression {
    value(Value::Number(Token {
        kind: TokenKind::Number { text: text.to_owned() },
        source: text.to_owned(),
    }))
}

fn string(text: &str) -> Expression {
    value(Value::String(Token {
        kind: TokenKind::StringLiteral { literal: text.to_owned() },
        source: format!("\"{}\"", text),
    }))
}

fn symbol(s: Symbol, source: &str) -> Expression {
    value(Value::Symbol(Token { kind: TokenKind::Symbol(s), source: source.to_owned() }))
}

fn binary(lhs: Expression, binop: BinOp, rhs: Expression) -> Expression {
    Expression::BinaryOperator(Box::new(BinaryOperation { lhs, binop, rhs }))
}

fn call(prefix: &str, suffixes: Vec<Suffix>) -> Expression {
    value(Value::FunctionCall(FunctionCall { prefix: Prefix::Name(prefix.to_owned()), suffixes }))
}

fn paren_args(args: Vec<Expression>) -> Suffix {
    Suffix::Call(Call::AnonymousCall(FunctionArgs::Parentheses(args)))
}

fn bin(op: BinaryOp, left: Expr, right: Expr) -> Expr {
    Expr::Bin { op, left: Box::new(left), right: Box::new(right) }
}

#[test]
fn number_literal_keeps_its_text() {
    let t = Token { kind: TokenKind::Number { text: "0x1F".to_owned() }, source: "0x1F".to_owned() };
    assert_eq!(transform_number(&t), e_num("0x1F"));
}

#[test]
fn number_literal_loses_its_digit_separators() {
    let t = Token { kind: TokenKind::Number { text: "1_000_000".to_owned() }, source: "1_000_000".to_owned() };
    assert_eq!(transform_number(&t), e_num("1000000"));
}

#[test]
fn number_token_of_another_kind_is_reported() {
    let t = Token { kind: TokenKind::Other, source: " x ".to_owned() };
    assert_eq!(
        transform_number(&t),
        error_call(
            "[lua-to-ts] Failed to transform: `x` because: transform_number token was not TokenType::Number"
        )
    );
}

#[test]
fn string_literal_keeps_its_content() {
    let t = Token {
        kind: TokenKind::StringLiteral { literal: "hi there".to_owned() },
        source: "'hi there'".to_owned(),
    };
    assert_eq!(*transform_string(&t), e_str("hi there"));
}

#[test]
fn string_token_of_another_kind_is_reported() {
    let t = Token { kind: TokenKind::Other, source: "x".to_owned() };
    assert_eq!(
        *transform_string(&t),
        error_call(
            "[lua-to-ts] Failed to transform: `x` because: transform_string token was not TokenType::StringLiteral"
        )
    );
}

#[test]
fn not_equal_becomes_strict_inequality() {
    let e = binary(name("a"), BinOp::TildeEqual, name("b"));
    assert_eq!(*transform_expression(&e), bin(BinaryOp::NotEqEq, e_id("a"), e_id("b")));
}

#[test]
fn equal_becomes_strict_equality() {
    let e = binary(name("a"), BinOp::TwoEqual, number("1"));
    assert_eq!(*transform_expression(&e), bin(BinaryOp::EqEqEq, e_id("a"), e_num("1")));
}

#[test]
fn concatenation_becomes_addition() {
    let e = binary(string("a"), BinOp::TwoDots, name("b"));
    assert_eq!(*transform_expression(&e), bin(BinaryOp::Add, e_str("a"), e_id("b")));
}

#[test]
fn logical_operators_and_power() {
    let e = binary(name("a"), BinOp::And, binary(name("b"), BinOp::Or, name("c")));
    assert_eq!(
        *transform_expression(&e),
        bin(BinaryOp::LogicalAnd, e_id("a"), bin(BinaryOp::LogicalOr, e_id("b"), e_id("c")))
    );
    let p = binary(number("2"), BinOp::Caret, number("3"));
    assert_eq!(*transform_expression(&p), bin(BinaryOp::Exp, e_num("2"), e_num("3")));
}

#[test]
fn unknown_binary_operator_is_reported() {
    let e = binary(name("a"), BinOp::Other("//".to_owned()), name("b"));
    assert_eq!(
        *transform_expression(&e),
        error_call("[lua-to-ts] Failed to transform: `//` because: Unknown binary operator")
    );
}

#[test]
fn length_becomes_size_call() {
    let e = Expression::UnaryOperator { unop: UnOp::Hash, expression: Box::new(name("t")) };
    assert_eq!(
        *transform_expression(&e),
        Expr::Call {
            callee: Box::new(Expr::Member { obj: Box::new(e_id("t")), prop: MemberProp::Ident(id("size")) }),
            args: vec![],
        }
    );
}

#[test]
fn not_and_negation() {
    let n = Expression::UnaryOperator { unop: UnOp::Not, expression: Box::new(name("a")) };
    assert_eq!(*transform_expression(&n), Expr::Unary { op: UnaryOp::Bang, arg: Box::new(e_id("a")) });
    let m = Expression::UnaryOperator { unop: UnOp::Minus, expression: Box::new(number("5")) };
    assert_eq!(*transform_expression(&m), Expr::Unary { op: UnaryOp::Minus, arg: Box::new(e_num("5")) });
}

#[test]
fn unknown_unary_operator_is_reported() {
    let e = Expression::UnaryOperator { unop: UnOp::Other("~".to_owned()), expression: Box::new(name("a")) };
    assert_eq!(
        *transform_expression(&e),
        error_call("[lua-to-ts] Failed to transform: `~` because: Unknown unary operator")
    );
}

#[test]
fn parentheses_stay() {
    let e = Expression::Parentheses { expression: Box::new(name("a")) };
    assert_eq!(*transform_expression(&e), Expr::Paren(Box::new(e_id("a"))));
}

#[test]
fn type_assertion_becomes_as() {
    let e = Expression::Value {
        value: Box::new(Value::Var(Var::Name("x".to_owned()))),
        type_assertion: Some(TypeInfo::Basic("number".to_owned())),
    };
    assert_eq!(
        *transform_expression(&e),
        Expr::TsAs {
            expr: Box::new(e_id("x")),
            type_ann: Box::new(TsType::TypeRef { name: TsEntityName::Ident(id("number")), params: None }),
        }
    );
}

#[test]
fn symbols() {
    assert_eq!(*transform_expression(&symbol(Symbol::Nil, "nil")), e_id("undefined"));
    assert_eq!(*transform_expression(&symbol(Symbol::True, "true")), Expr::Lit(Lit::Bool(true)));
    assert_eq!(*transform_expression(&symbol(Symbol::False, "false")), Expr::Lit(Lit::Bool(false)));
    assert_eq!(*transform_expression(&symbol(Symbol::Ellipse, "...")), e_id("..._args"));
}

#[test]
fn unknown_expression_is_reported() {
    let e = Expression::Other("@x".to_owned());
    assert_eq!(
        *transform_expression(&e),
        error_call("[lua-to-ts] Failed to transform: `@x` because: Unknown expression variant")
    );
}

#[test]
fn method_call_becomes_member_call() {
    let e = value(Value::FunctionCall(FunctionCall {
        prefix: Prefix::Name("obj".to_owned()),
        suffixes: vec![Suffix::Call(Call::MethodCall {
            name: "go".to_owned(),
            args: FunctionArgs::Parentheses(vec![number("1")]),
        })],
    }));
    assert_eq!(
        *transform_expression(&e),
        Expr::Call {
            callee: Box::new(Expr::Member { obj: Box::new(e_id("obj")), prop: MemberProp::Ident(id("go")) }),
            args: vec![arg(e_num("1"))],
        }
    );
}

#[test]
fn constructor_call_becomes_new() {
    let e = call("Vector3", vec![
        Suffix::Index(Index::Dot("new".to_owned())),
        paren_args(vec![number("1"), number("2"), number("3")]),
    ]);
    assert_eq!(
        *transform_expression(&e),
        Expr::New { callee: Box::new(e_id("Vector3")), args: vec![arg(e_num("1")), arg(e_num("2")), arg(e_num("3"))] }
    );
}

#[test]
fn plain_call_and_indexing() {
    let e = call("print", vec![paren_args(vec![string("hi")])]);
    assert_eq!(*transform_expression(&e), Expr::Call { callee: Box::new(e_id("print")), args: vec![arg(e_str("hi"))] });
    let v = value(Value::Var(Var::Expression(Box::new(VarExpression {
        prefix: Prefix::Name("t".to_owned()),
        suffixes: vec![
            Suffix::Index(Index::Dot("a".to_owned())),
            Suffix::Index(Index::Brackets(Box::new(number("1")))),
        ],
    }))));
    assert_eq!(
        *transform_expression(&v),
        Expr::Member {
            obj: Box::new(Expr::Member { obj: Box::new(e_id("t")), prop: MemberProp::Ident(id("a")) }),
            prop: MemberProp::Computed(Box::new(e_num("1"))),
        }
    );
}

#[test]
fn string_and_table_call_arguments() {
    let s = call("require", vec![Suffix::Call(Call::AnonymousCall(FunctionArgs::String(Token {
        kind: TokenKind::StringLiteral { literal: "mod".to_owned() },
        source: "\"mod\"".to_owned(),
    })))]);
    assert_eq!(*transform_expression(&s), Expr::Call { callee: Box::new(e_id("require")), args: vec![arg(e_str("mod"))] });
    let t = call("f", vec![Suffix::Call(Call::AnonymousCall(FunctionArgs::TableConstructor(TableConstructor {
        fields: vec![],
    })))]);
    assert_eq!(*transform_expression(&t), Expr::Call { callee: Box::new(e_id("f")), args: vec![arg(Expr::Array(vec![]))] });
}

#[test]
fn unknown_call_is_reported() {
    let e = call("f", vec![Suffix::Call(Call::Other("<call>".to_owned()))]);
    assert_eq!(
        *transform_expression(&e),
        Expr::Call {
            callee: Box::new(e_id("f")),
            args: vec![arg(error_call("[lua-to-ts] Failed to transform: `<call>` because: Unknown call type"))],
        }
    );
}

#[test]
fn array_table_becomes_array() {
    let t = TableConstructor { fields: vec![Field::NoKey(number("1")), Field::NoKey(string("b"))] };
    assert_eq!(transform_table_constructor(&t), Expr::Array(vec![Some(arg(e_num("1"))), Some(arg(e_str("b")))]));
}

#[test]
fn unpack_becomes_spread() {
    let t = TableConstructor {
        fields: vec![Field::NoKey(number("0")), Field::NoKey(call("unpack", vec![paren_args(vec![name("rest")])]))],
    };
    assert_eq!(
        transform_table_constructor(&t),
        Expr::Array(vec![
            Some(arg(e_num("0"))),
            Some(ExprOrSpread { spread: true, expr: Box::new(e_id("rest")) }),
        ])
    );
}

#[test]
fn object_table_numbers_positional_fields_from_one() {
    let t = TableConstructor {
        fields: vec![
            Field::NoKey(string("a")),
            Field::NameKey { key: "x".to_owned(), value: number("1") },
            Field::NoKey(string("b")),
            Field::ExpressionKey { key: string("k"), value: number("2") },
        ],
    };
    assert_eq!(
        transform_table_constructor(&t),
        Expr::Object(vec![
            KeyValueProp { key: PropName::Num(1), value: Box::new(e_str("a")) },
            KeyValueProp { key: PropName::Str(Str { value: "x".to_owned() }), value: Box::new(e_num("1")) },
            KeyValueProp { key: PropName::Num(2), value: Box::new(e_str("b")) },
            KeyValueProp { key: PropName::Computed(Box::new(e_str("k"))), value: Box::new(e_num("2")) },
        ])
    );
}

#[test]
fn unknown_table_field_is_reported() {
    let t = TableConstructor { fields: vec![Field::Other("?".to_owned())] };
    assert_eq!(
        transform_table_constructor(&t),
        Expr::Object(vec![KeyValueProp {
            key: PropName::Ident(id("UnknownTableField")),
            value: Box::new(error_call("[lua-to-ts] Failed to transform: `?` because: Unknown Field kind")),
        }])
    );
}

#[test]
fn if_expression_becomes_conditional() {
    let ie = IfExpression {
        condition: name("c"),
        if_expression: number("1"),
        else_if_expressions: None,
        else_expression: number("2"),
    };
    assert_eq!(
        *transform_expression(&value(Value::IfExpression(Box::new(ie)))),
        Expr::Cond {
            test: Box::new(e_id("c")),
            cons: Box::new(e_num("1")),
            alt: Box::new(Expr::Paren(Box::new(e_num("2")))),
        }
    );
}

#[test]
fn if_expression_with_elseif_chains_conditionals() {
    let ie = IfExpression {
        condition: name("a"),
        if_expression: number("1"),
        else_if_expressions: Some(vec![ElseIfExpression { condition: name("b"), expression: number("2") }]),
        else_expression: number("3"),
    };
    assert_eq!(
        *transform_expression(&value(Value::IfExpression(Box::new(ie)))),
        Expr::Cond {
            test: Box::new(e_id("a")),
            cons: Box::new(e_num("1")),
            alt: Box::new(Expr::Cond {
                test: Box::new(Expr::Paren(Box::new(e_id("b")))),
                cons: Box::new(Expr::Paren(Box::new(e_num("2")))),
                alt: Box::new(e_num("3")),
            }),
        }
    );
}

#[test]
fn anonymous_function_becomes_arrow() {
    let body = FunctionBody {
        generics: None,
        parameters: vec![],
        type_specifiers: vec![],
        return_type: None,
        block: lua_to_ts::lua::Block { stmts: vec![], last_stmt: None },
    };
    assert_eq!(
        *transform_expression(&value(Value::Function(Box::new(body)))),
        Expr::Arrow(Box::new(Function { params: vec![], return_type: None, type_params: None, body: vec![] }))
    );
}

#[test]
fn unknown_prefix_suffix_and_index_are_reported() {
    let p = value(Value::FunctionCall(FunctionCall { prefix: Prefix::Other("?p".to_owned()), suffixes: vec![] }));
    assert_eq!(
        *transform_expression(&p),
        error_call("[lua-to-ts] Failed to transform: `?p` because: Unknown prefix variant")
    );
    let s = call("f", vec![Suffix::Other("?s".to_owned())]);
    assert_eq!(
        *transform_expression(&s),
        error_call("[lua-to-ts] Failed to transform: `?s` because: Unknown suffix variant")
    );
    let i = call("t", vec![Suffix::Index(Index::Other("?i".to_owned()))]);
    assert_eq!(
        *transform_expression(&i),
        Expr::Member {
            obj: Box::new(e_id("t")),
            prop: MemberProp::Computed(Box::new(error_call(
                "[lua-to-ts] Failed to transform: `?i` because: Unknown index variant"
            ))),
        }
    );
}

#[test]
fn parenthesized_prefix_and_unknown_values() {
    let e = value(Value::FunctionCall(FunctionCall {
        prefix: Prefix::Expression(Box::new(Expression::Parentheses { expression: Box::new(name("f")) })),
        suffixes: vec![paren_args(vec![])],
    }));
    assert_eq!(
        *transform_expression(&e),
        Expr::Call { callee: Box::new(Expr::Paren(Box::new(e_id("f")))), args: vec![] }
    );
    assert_eq!(
        *transform_expression(&value(Value::Other("<v>".to_owned()))),
        error_call("[lua-to-ts] Failed to transform: `<v>` because: Unknown value variant")
    );
    assert_eq!(
        *transform_expression(&value(Value::Var(Var::Other("<var>".to_owned())))),
        error_call("[lua-to-ts] Failed to transform: `<var>` because: Unknown variable variant")
    );
}

#[test]
fn unknown_function_arguments_are_reported() {
    let e = call("f", vec![Suffix::Call(Call::AnonymousCall(FunctionArgs::Other("<a>".to_owned())))]);
    assert_eq!(
        *transform_expression(&e),
        Expr::Call {
            callee: Box::new(e_id("f")),
            args: vec![arg(error_call("[lua-to-ts] Failed to transform: `<a>` because: Unknown function args type"))],
        }
    );
}

#[test]
fn method_named_new_stays_a_method_call() {
    let e = value(Value::FunctionCall(FunctionCall {
        prefix: Prefix::Name("X".to_owned()),
        suffixes: vec![Suffix::Call(Call::MethodCall { name: "new".to_owned(), args: FunctionArgs::Parentheses(vec![]) })],
    }));
    assert_eq!(
        *transform_expression(&e),
        Expr::Call {
            callee: Box::new(Expr::Member { obj: Box::new(e_id("X")), prop: MemberProp::Ident(id("new")) }),
            args: vec![],
        }
    );
}

#[test]
fn typed_generic_anonymous_function() {
    let body = FunctionBody {
        generics: Some(GenericDeclaration {
            generics: vec![GenericDeclarationParameter {
                parameter: GenericParameterInfo::Name("T".to_owned()),
                default_type: None,
                source: "T".to_owned(),
            }],
        }),
        parameters: vec![
            Parameter::Name { name: "x".to_owned(), source: "x".to_owned() },
            Parameter::Other("?".to_owned()),
        ],
        type_specifiers: vec![Some(TypeInfo::Basic("T".to_owned()))],
        return_type: Some(TypeInfo::Basic("T".to_owned())),
        block: lua_to_ts::lua::Block { stmts: vec![], last_stmt: None },
    };
    let t = TsType::TypeRef { name: TsEntityName::Ident(id("T")), params: None };
    assert_eq!(
        *transform_expression(&value(Value::Function(Box::new(body)))),
        Expr::Arrow(Box::new(Function {
            params: vec![
                Pat::Ident(BindingIdent { id: id("x"), type_ann: Some(Box::new(TsType::TypeRef {
                    name: TsEntityName::Ident(id("T")),
                    params: None,
                })) }),
                Pat::Expr(Box::new(error_call("[lua-to-ts] Failed to transform: `?` because: Unknown parameter type"))),
            ],
            return_type: Some(Box::new(t)),
            type_params: Some(TsTypeParamDecl {
                params: vec![TsTypeParam { name: id("T"), constraint: None, default: None }],
            }),
            body: vec![],
        }))
    );
}

#[test]
fn radix_literals_follow_their_prefix() {
    assert_eq!(radix_literal("0x1F"), Some(31));
    assert_eq!(radix_literal("0XfF"), Some(255));
    assert_eq!(radix_literal("0b101"), Some(5));
    assert_eq!(radix_literal("0B1111111111"), Some(1023));
    assert_eq!(radix_literal("0x7fffffff"), Some(i32::MAX));
    assert_eq!(radix_literal("0x80000000"), None);
    assert_eq!(radix_literal("0x"), None);
    assert_eq!(radix_literal("0b102"), None);
}

#[test]
fn radix_digits_read_as_std_does() {
    for (text, radix) in [("-80000000", 16), ("+7f", 16), ("-", 16), ("+", 2), ("", 10), ("zz", 36), ("1_0", 10), ("2147483648", 10), ("-2147483648", 10)] {
        assert_eq!(parse_i32_radix(text, radix), i32::from_str_radix(text, radix).ok(), "{} in radix {}", text, radix);
    }
}
