//! Building blocks of the TypeScript tree, and the markers left in it where a
//! Luau construct could not be transformed.
use vstd::prelude::*;
use vstd::string::StringExecFns;
use crate::text::trim;
use crate::text::trimmed;
use crate::ts::{view_arg, view_args, Expr, ExprOrSpread, Ident, Lit, SpecArg, SpecExpr, SpecLit, SpecStmt, SpecType, Stmt, Str, TsType};

verus! {

/// The name under which a function's variadic arguments (`...`) are bound.
pub const REST_ARGS_NAME: &'static str = "_args";

/// The text of the marker for a node that could not be transformed: the
/// node's text without surrounding white space, and the reason.
pub open spec fn fail_message(reason: Seq<char>, node: Seq<char>) -> Seq<char> {
    "[lua-to-ts] Failed to transform: `"@ + trimmed(node) + "` because: "@ + reason
}

/// `error("<fail_message>")`, the expression that stands for a node that
/// could not be transformed.
pub open spec fn spec_skip(reason: Seq<char>, node: Seq<char>) -> SpecExpr {
    SpecExpr::Call {
        callee: Box::new(SpecExpr::Ident("error"@)),
        args: seq![
            SpecArg {
                spread: false,
                expr: SpecExpr::Lit(SpecLit::Str(fail_message(reason, node))),
            },
        ],
    }
}

pub open spec fn spec_skip_stmt(reason: Seq<char>, node: Seq<char>) -> SpecStmt {
    SpecStmt::Expr(Box::new(spec_skip(reason, node)))
}

/// The string literal type `"<fail_message>"`, the type that stands for a
/// type that could not be transformed.
pub open spec fn spec_skip_type(reason: Seq<char>, node: Seq<char>) -> SpecType {
    SpecType::LitStr(fail_message(reason, node))
}

pub fn boxed<T>(arg: T) -> (r: Box<T>)
    ensures
        *r == arg,
{
    Box::new(arg)
}

pub fn make_string(content: &str) -> (r: Str)
    ensures
        r@ == content@,
{
    Str { value: content.to_owned() }
}

pub fn ident(name: String) -> (r: Ident)
    ensures
        r@ == name@,
{
    Ident { sym: name }
}

/// An identifier named `name`.
pub fn ident_str(name: &str) -> (r: Ident)
    ensures
        r@ == name@,
{
    Ident { sym: name.to_owned() }
}

pub fn parens(expr: Box<Expr>) -> (r: Box<Expr>)
    ensures
        r@ == SpecExpr::Paren(Box::new(expr@)),
{
    boxed(Expr::Paren(expr))
}

fn get_fail_string(reason: &str, node: &str) -> (r: Str)
    ensures
        r@ == fail_message(reason@, node@),
{
    let mut message = "[lua-to-ts] Failed to transform: `".to_owned();
    let t = trim(node);
    message.append(t.as_str());
    message.append("` because: ");
    message.append(reason);
    make_string(message.as_str())
}

/// `error("[lua-to-ts] Failed to transform: `<node>` because: <reason>")`,
/// where `node` is the source text of the node that could not be transformed.
pub fn skip(reason: &str, node: &str) -> (r: Box<Expr>)
    ensures
        r@ == spec_skip(reason@, node@),
{
    let message = get_fail_string(reason, node);
    let arg = ExprOrSpread { spread: false, expr: boxed(Expr::Lit(Lit::Str(message))) };
    let ghost arg_view = view_arg(arg);
    let mut args = Vec::new();
    args.push(arg);
    let callee = boxed(Expr::Ident(ident_str("error")));
    assert(callee@ == SpecExpr::Ident("error"@));
    assert(arg_view.expr == SpecExpr::Lit(SpecLit::Str(fail_message(reason@, node@))));
    assert(view_args(args@) =~= seq![
        SpecArg {
            spread: false,
            expr: SpecExpr::Lit(SpecLit::Str(fail_message(reason@, node@))),
        },
    ]);
    boxed(Expr::Call { callee, args })
}

pub fn skip_stmt(reason: &str, node: &str) -> (r: Stmt)
    ensures
        r@ == spec_skip_stmt(reason@, node@),
{
    Stmt::Expr(skip(reason, node))
}

pub fn skip_type(reason: &str, node: &str) -> (r: Box<TsType>)
    ensures
        r@ == spec_skip_type(reason@, node@),
{
    boxed(TsType::LitStr(get_fail_string(reason, node)))
}

} // verus!
