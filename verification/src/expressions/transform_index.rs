use vstd::prelude::*;
use crate::accepted::accepted_index;
use crate::expressions::transform_expression::{spec_expression, transform_expression};
use crate::lua::Index;
use crate::ts::{view_member_prop, Expr, MemberProp, SpecExpr, SpecMemberProp};
use crate::util::{boxed, ident, skip, spec_skip};

verus! {

/// An index applied to `base`: `base[e]` stays `base[e]`; `base.name` stays
/// `base.name`.
pub open spec fn spec_index(index: Index, base: SpecExpr) -> SpecExpr {
    SpecExpr::Member { obj: Box::new(base), prop: spec_index_prop(index) }
}

/// The property that an index reads.
pub open spec fn spec_index_prop(index: Index) -> SpecMemberProp
    decreases index,
{
    match index {
        Index::Brackets(e) => SpecMemberProp::Computed(Box::new(spec_expression(*e))),
        Index::Dot(name) => SpecMemberProp::Ident(name@),
        Index::Other(source) => SpecMemberProp::Computed(
            Box::new(spec_skip("Unknown index variant"@, source@)),
        ),
    }
}

/// `base.name` reads the property `name` of the same object, and `base[e]`
/// the property that `e` computes.
pub proof fn lemma_index_reads_property(index: Index, base: SpecExpr)
    ensures
        index matches Index::Dot(name) ==> spec_index(index, base) == (SpecExpr::Member {
            obj: Box::new(base),
            prop: SpecMemberProp::Ident(name@),
        }),
        index matches Index::Brackets(e) ==> spec_index(index, base) == (SpecExpr::Member {
            obj: Box::new(base),
            prop: SpecMemberProp::Computed(Box::new(spec_expression(*e))),
        }),
{
}

/// Transforms an index applied to `base`.
pub fn transform_index(index: &Index, base: Box<Expr>) -> (r: Box<Expr>)
    requires
        accepted_index(*index),
    ensures
        r@ == spec_index(*index, base@),
    decreases index, 0nat,
{
    let prop = match index {
        Index::Brackets(expression) => MemberProp::Computed(transform_expression(expression)),
        Index::Dot(name) => MemberProp::Ident(ident(name.clone())),
        Index::Other(source) => MemberProp::Computed(skip("Unknown index variant", source.as_str())),
    };
    assert(view_member_prop(prop) == spec_index_prop(*index));
    boxed(Expr::Member { obj: base, prop })
}

} // verus!
