use vstd::prelude::*;
use crate::accepted::{accepted_args, accepted_expressions};
use crate::expressions::transform_expression::{spec_expression, transform_expression};
use crate::expressions::transform_string::{spec_string, transform_string};
use crate::expressions::transform_table_constructor::{
    spec_table_constructor, transform_table_constructor,
};
use crate::lua::{Expression, FunctionArgs};
use crate::ts::{view_arg, view_args, Expr, ExprOrSpread, SpecArg, SpecExpr};
use crate::util::{boxed, skip, spec_skip};

verus! {

/// Each expression, as an argument.
pub open spec fn spec_arg_list(s: Seq<Expression>) -> Seq<SpecArg>
    decreases s,
{
    Seq::new(
        s.len(),
        |i: int|
            if 0 <= i < s.len() {
                SpecArg { spread: false, expr: spec_expression(s[i]) }
            } else {
                arbitrary()
            },
    )
}

/// The arguments of a call: `f(a, b)` passes `a, b`; `f"s"` and `f{...}`
/// pass the one string or table.
pub open spec fn spec_function_args(args: FunctionArgs) -> Seq<SpecArg>
    decreases args,
{
    match args {
        FunctionArgs::Parentheses(v) => spec_arg_list(v@),
        FunctionArgs::String(token) => seq![SpecArg { spread: false, expr: spec_string(token) }],
        FunctionArgs::TableConstructor(t) => seq![
            SpecArg { spread: false, expr: spec_table_constructor(t) },
        ],
        FunctionArgs::Other(source) => seq![
            SpecArg { spread: false, expr: spec_skip("Unknown function args type"@, source@) },
        ],
    }
}

/// A call passes its arguments in order and unspread: `f(a, b)` passes `a`
/// then `b`; `f"s"` and `f{...}` pass that one string or table.
pub proof fn lemma_arguments_in_order(args: FunctionArgs)
    ensures
        args matches FunctionArgs::Parentheses(v) ==> spec_function_args(args) == Seq::new(
            v@.len(),
            |k: int| SpecArg { spread: false, expr: spec_expression(v@[k]) },
        ),
        args matches FunctionArgs::String(token) ==> spec_function_args(args) == seq![
            SpecArg { spread: false, expr: spec_string(token) },
        ],
        args matches FunctionArgs::TableConstructor(t) ==> spec_function_args(args) == seq![
            SpecArg { spread: false, expr: spec_table_constructor(t) },
        ],
{
    match args {
        FunctionArgs::Parentheses(v) => {
            assert(spec_arg_list(v@) =~= Seq::new(
                v@.len(),
                |k: int| SpecArg { spread: false, expr: spec_expression(v@[k]) },
            ));
        },
        _ => {},
    }
}

/// The list holding the one argument `expr`.
pub(crate) fn one_arg(expr: Box<Expr>) -> (r: Vec<ExprOrSpread>)
    ensures
        view_args(r@) == seq![SpecArg { spread: false, expr: expr@ }],
{
    let arg = ExprOrSpread { spread: false, expr };
    let ghost v = view_arg(arg);
    let mut out = Vec::new();
    out.push(arg);
    assert(view_args(out@) =~= seq![v]);
    out
}

pub(crate) fn transform_arg_list(v: &Vec<Expression>) -> (r: Vec<ExprOrSpread>)
    requires
        accepted_expressions(v@),
    ensures
        view_args(r@) == spec_arg_list(v@),
    decreases v, 0nat,
{
    let mut out: Vec<ExprOrSpread> = Vec::new();
    let mut i: usize = 0;
    while i < v.len()
        invariant
            i <= v@.len(),
            out@.len() == i,
            accepted_expressions(v@),
            forall|k: int|
                0 <= k < i ==> view_arg(#[trigger] out@[k]) == spec_arg_list(v@)[k],
        decreases v@.len() - i,
    {
        proof {
            assert(decreases_to!(*v => v[i as int]));
            assert(crate::accepted::accepted_expression(v@[i as int]));
        }
        let expr = transform_expression(&v[i]);
        out.push(ExprOrSpread { spread: false, expr });
        i = i + 1;
    }
    assert(view_args(out@) =~= spec_arg_list(v@));
    out
}

/// Transforms the arguments of a call.
pub fn transform_function_args(args: &FunctionArgs) -> (r: Vec<ExprOrSpread>)
    requires
        accepted_args(*args),
    ensures
        view_args(r@) == spec_function_args(*args),
    decreases args, 0nat,
{
    match args {
        FunctionArgs::Parentheses(arguments) => transform_arg_list(arguments),
        FunctionArgs::String(string) => one_arg(transform_string(string)),
        FunctionArgs::TableConstructor(table) => one_arg(boxed(transform_table_constructor(table))),
        FunctionArgs::Other(source) => one_arg(skip("Unknown function args type", source.as_str())),
    }
}

} // verus!
