use vstd::prelude::*;
use crate::accepted::accepted_var;
use crate::expressions::transform_prefix_suffixes::{
    spec_prefix, spec_suffixes, transform_prefix, transform_suffixes,
};
use crate::lua::Var;
use crate::ts::{Expr, Ident, SpecExpr};
use crate::util::{boxed, skip, spec_skip};

verus! {

/// A variable: a name, or `prefix suffixes...`.
pub open spec fn spec_var(v: Var) -> SpecExpr
    decreases v,
{
    match v {
        Var::Expression(ve) => spec_suffixes(spec_prefix(ve.prefix), ve.suffixes@),
        Var::Name(name) => SpecExpr::Ident(name@),
        Var::Other(source) => spec_skip("Unknown variable variant"@, source@),
    }
}

/// Transforms a Luau variable into a TypeScript expression.
pub fn transform_var(var: &Var) -> (r: Box<Expr>)
    requires
        accepted_var(*var),
    ensures
        r@ == spec_var(*var),
    decreases var, 0nat,
{
    match var {
        Var::Expression(expr) => {
            let base = transform_prefix(&expr.prefix);
            transform_suffixes(base, &expr.suffixes)
        },
        Var::Name(name) => boxed(Expr::Ident(Ident { sym: name.clone() })),
        Var::Other(source) => skip("Unknown variable variant", source.as_str()),
    }
}

} // verus!
