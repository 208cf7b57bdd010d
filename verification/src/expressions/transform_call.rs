use vstd::prelude::*;
use crate::accepted::{accepted_args, accepted_call};
use crate::expressions::transform_function_args::{one_arg, spec_function_args, transform_function_args};
use crate::lua::{Call, FunctionArgs};
use crate::text::str_eq;
use crate::ts::{view_args, view_member_prop, Expr, ExprOrSpread, MemberProp, SpecArg, SpecExpr, SpecMemberProp};
use crate::util::{boxed, ident, skip, spec_skip};

verus! {

/// A call applied to `base`. `base:name(args)` becomes `base.name(args)`;
/// `X.new(args)` becomes `new X(args)`; `base(args)` stays.
pub open spec fn spec_call(call: Call, base: SpecExpr) -> SpecExpr
    decreases call,
{
    match call {
        Call::MethodCall { name, args } => SpecExpr::Call {
            callee: Box::new(
                SpecExpr::Member { obj: Box::new(base), prop: SpecMemberProp::Ident(name@) },
            ),
            args: spec_function_args(args),
        },
        Call::AnonymousCall(args) => match base {
            SpecExpr::Member { obj, prop: SpecMemberProp::Ident(p) } => if p == "new"@ {
                SpecExpr::New { callee: obj, args: spec_function_args(args) }
            } else {
                SpecExpr::Call { callee: Box::new(base), args: spec_function_args(args) }
            },
            _ => SpecExpr::Call { callee: Box::new(base), args: spec_function_args(args) },
        },
        Call::Other(source) => SpecExpr::Call {
            callee: Box::new(base),
            args: seq![SpecArg { spread: false, expr: spec_skip("Unknown call type"@, source@) }],
        },
    }
}

/// `base:name(args)` calls the method `name` of `base` with the same
/// arguments; `X.new(args)` constructs `X` with them; any other `base(args)`
/// calls `base` with them.
pub proof fn lemma_call_meaning(call: Call, base: SpecExpr)
    ensures
        call matches Call::MethodCall { name, args } ==> spec_call(call, base) == (SpecExpr::Call {
            callee: Box::new(
                SpecExpr::Member { obj: Box::new(base), prop: SpecMemberProp::Ident(name@) },
            ),
            args: spec_function_args(args),
        }),
        call matches Call::AnonymousCall(args) ==> (base matches SpecExpr::Member {
            obj,
            prop: SpecMemberProp::Ident(p),
        } ==> (p == "new"@ ==> spec_call(call, base) == (SpecExpr::New {
            callee: obj,
            args: spec_function_args(args),
        }))),
        call matches Call::AnonymousCall(args) ==> (!names_new(base) ==> spec_call(call, base)
            == (SpecExpr::Call { callee: Box::new(base), args: spec_function_args(args) })),
{
}

/// Whether `base` is a member named `new`.
pub open spec fn names_new(base: SpecExpr) -> bool {
    match base {
        SpecExpr::Member { prop: SpecMemberProp::Ident(p), .. } => p == "new"@,
        _ => false,
    }
}

/// Whether `base` is `x.new`.
fn is_new_member(base: &Expr) -> (r: bool)
    ensures
        r == (base@ matches SpecExpr::Member { prop: SpecMemberProp::Ident(p), .. } && p == "new"@),
{
    match base {
        Expr::Member { prop, .. } => match prop {
            MemberProp::Ident(id) => {
                assert(view_member_prop(*prop) == SpecMemberProp::Ident(id.sym@));
                str_eq(id.sym.as_str(), "new")
            },
            MemberProp::Computed(_) => false,
        },
        _ => false,
    }
}

fn transform_anonymous_call(args: &FunctionArgs, base: Box<Expr>) -> (r: Box<Expr>)
    requires
        accepted_args(*args),
    ensures
        r@ == spec_call(Call::AnonymousCall(*args), base@),
    decreases args, 1nat,
{
    let arguments = transform_function_args(args);
    if is_new_member(&base) {
        match *base {
            Expr::Member { obj, .. } => boxed(Expr::New { callee: obj, args: arguments }),
            _ => {
                proof {
                    assert(false);
                }
                vstd::pervasive::unreached()
            },
        }
    } else {
        boxed(Expr::Call { callee: base, args: arguments })
    }
}

fn transform_method_call(name: &String, args: &FunctionArgs, base: Box<Expr>) -> (r: Box<Expr>)
    requires
        accepted_args(*args),
    ensures
        r@ == (SpecExpr::Call {
            callee: Box::new(
                SpecExpr::Member { obj: Box::new(base@), prop: SpecMemberProp::Ident(name@) },
            ),
            args: spec_function_args(*args),
        }),
    decreases args, 1nat,
{
    let prop = MemberProp::Ident(ident(name.clone()));
    assert(view_member_prop(prop) == SpecMemberProp::Ident(name@));
    let ghost base_view = base@;
    let callee = boxed(Expr::Member { obj: base, prop });
    assert(callee@ == SpecExpr::Member {
        obj: Box::new(base_view),
        prop: SpecMemberProp::Ident(name@),
    });
    boxed(Expr::Call { callee, args: transform_function_args(args) })
}

fn transform_unknown_call(source: &String, base: Box<Expr>) -> (r: Box<Expr>)
    ensures
        r@ == (SpecExpr::Call {
            callee: Box::new(base@),
            args: seq![SpecArg { spread: false, expr: spec_skip("Unknown call type"@, source@) }],
        }),
{
    let args = one_arg(skip("Unknown call type", source.as_str()));
    boxed(Expr::Call { callee: base, args })
}

/// Transforms a call applied to `base`.
pub fn transform_call(call: &Call, base: Box<Expr>) -> (r: Box<Expr>)
    requires
        accepted_call(*call),
    ensures
        r@ == spec_call(*call, base@),
    decreases call, 0nat,
{
    match call {
        Call::MethodCall { name, args } => transform_method_call(name, args, base),
        Call::AnonymousCall(args) => transform_anonymous_call(args, base),
        Call::Other(source) => transform_unknown_call(source, base),
    }
}

} // verus!
