use vstd::prelude::*;
use crate::lua::{Token, TokenKind};
use crate::ts::{Expr, Lit, SpecExpr, SpecLit};
use crate::util::{boxed, make_string, skip, spec_skip};

verus! {

/// A string literal keeps its content.
pub open spec fn spec_string(token: Token) -> SpecExpr {
    match token.kind {
        TokenKind::StringLiteral { literal } => SpecExpr::Lit(SpecLit::Str(literal@)),
        _ => spec_skip(
            "transform_string token was not TokenType::StringLiteral"@,
            token.source@,
        ),
    }
}

/// A string literal stands for the same text in TypeScript.
pub proof fn lemma_string_keeps_content(token: Token)
    ensures
        token.kind matches TokenKind::StringLiteral { literal } ==> spec_string(token)
            == SpecExpr::Lit(SpecLit::Str(literal@)),
{
}

/// Transforms a Luau string literal into a TypeScript string literal.
pub fn transform_string(token: &Token) -> (r: Box<Expr>)
    ensures
        r@ == spec_string(*token),
{
    match &token.kind {
        TokenKind::StringLiteral { literal } => boxed(
            Expr::Lit(Lit::Str(make_string(literal.as_str()))),
        ),
        _ => skip("transform_string token was not TokenType::StringLiteral", token.source.as_str()),
    }
}

} // verus!
