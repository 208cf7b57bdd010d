use lua_to_ts::ts::{Expr, ExprOrSpread, Ident, Lit, Stmt, Str, TsType};
use lua_to_ts::util::{boxed, ident, make_string, parens, skip, skip_stmt, skip_type};

fn error_call(message: &str) -> Expr {
    Expr::Call {
        callee: Box::new(Expr::Ident(Ident { sym: "error".to_owned() })),
        args: vec![ExprOrSpread {
            spread: false,
            expr: Box::new(Expr::Lit(Lit::Str(Str { value: message.to_owned() }))),
        }],
    }
}

#[test]
fn boxed_keeps_the_value() {
    assert_eq!(*boxed(7u32), 7);
}

#[test]
fn make_string_holds_the_text() {
    assert_eq!(make_string("hello"), Str { value: "hello".to_owned() });
}

#[test]
fn ident_holds_the_name() {
    assert_eq!(ident("foo".to_owned()), Ident { sym: "foo".to_owned() });
}

#[test]
fn parens_wraps_the_expression() {
    let e = parens(Box::new(Expr::Ident(Ident { sym: "a".to_owned() })));
    assert_eq!(*e, Expr::Paren(Box::new(Expr::Ident(Ident { sym: "a".to_owned() }))));
}

#[test]
fn skip_reports_the_trimmed_node_and_the_reason() {
    let e = skip("Unknown statement type", "  goto x \n");
    assert_eq!(
        *e,
        error_call("[lua-to-ts] Failed to transform: `goto x` because: Unknown statement type")
    );
}

#[test]
fn skip_stmt_is_an_expression_statement() {
    let s = skip_stmt("r", "n");
    assert_eq!(
        s,
        Stmt::Expr(Box::new(error_call("[lua-to-ts] Failed to transform: `n` because: r")))
    );
}

#[test]
fn skip_type_is_a_string_literal_type() {
    let t = skip_type("Unknown type", " typeof(x) ");
    assert_eq!(
        *t,
        TsType::LitStr(Str {
            value: "[lua-to-ts] Failed to transform: `typeof(x)` because: Unknown type".to_owned()
        })
    );
}
