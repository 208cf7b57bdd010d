use vstd::prelude::*;
use crate::accepted::accepted_function_call;
use crate::expressions::transform_prefix_suffixes::{
    spec_prefix, spec_suffixes, transform_prefix, transform_suffixes,
};
use crate::lua::FunctionCall;
use crate::ts::{Expr, SpecExpr};

verus! {

/// A call `prefix suffixes...`: the prefix, then each suffix in turn.
pub open spec fn spec_function_call(call: FunctionCall) -> SpecExpr
    decreases call,
{
    spec_suffixes(spec_prefix(call.prefix), call.suffixes@)
}

/// Transforms a Luau function call.
pub fn transform_function_call(call: &FunctionCall) -> (r: Box<Expr>)
    requires
        accepted_function_call(*call),
    ensures
        r@ == spec_function_call(*call),
    decreases call, 0nat,
{
    let base = transform_prefix(&call.prefix);
    transform_suffixes(base, &call.suffixes)
}

} // verus!
