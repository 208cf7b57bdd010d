use vstd::prelude::*;
use crate::accepted::{accepted_prefix, accepted_suffix, accepted_suffixes};
use crate::expressions::transform_call::{spec_call, transform_call};
use crate::expressions::transform_expression::{spec_expression, transform_expression};
use crate::expressions::transform_index::{spec_index_prop, transform_index};
use crate::lua::{Prefix, Suffix};
use crate::ts::{Expr, Ident, SpecExpr};
use crate::util::{boxed, skip, spec_skip};

verus! {

/// The expression that a prefix stands for: a name, or a parenthesized
/// expression.
pub open spec fn spec_prefix(p: Prefix) -> SpecExpr
    decreases p,
{
    match p {
        Prefix::Name(name) => SpecExpr::Ident(name@),
        Prefix::Expression(e) => spec_expression(*e),
        Prefix::Other(source) => spec_skip("Unknown prefix variant"@, source@),
    }
}

/// A suffix applied to `base`: a call or an index.
pub open spec fn spec_suffix(s: Suffix, base: SpecExpr) -> SpecExpr
    decreases s,
{
    match s {
        Suffix::Call(call) => spec_call(call, base),
        Suffix::Index(index) => SpecExpr::Member { obj: Box::new(base), prop: spec_index_prop(index) },
        Suffix::Other(source) => spec_skip("Unknown suffix variant"@, source@),
    }
}

/// The suffixes applied to `base`, first to last.
pub open spec fn spec_suffixes(base: SpecExpr, s: Seq<Suffix>) -> SpecExpr
    decreases s,
{
    if s.len() == 0 {
        base
    } else {
        spec_suffix(s.last(), spec_suffixes(base, s.drop_last()))
    }
}

/// Suffixes apply left to right: `base` followed by `a` then `b` is `b`
/// applied to what `a` makes of `base`.
pub proof fn lemma_suffixes_left_to_right(base: SpecExpr, a: Seq<Suffix>, b: Seq<Suffix>)
    ensures
        spec_suffixes(base, a + b) == spec_suffixes(spec_suffixes(base, a), b),
    decreases b.len(),
{
    if b.len() == 0 {
        assert(a + b =~= a);
    } else {
        lemma_suffixes_left_to_right(base, a, b.drop_last());
        assert((a + b).drop_last() =~= a + b.drop_last());
        assert((a + b).last() == b.last());
    }
}

/// A single suffix is applied to `base` itself.
pub proof fn lemma_one_suffix(base: SpecExpr, x: Suffix)
    ensures
        spec_suffixes(base, seq![x]) == spec_suffix(x, base),
{
    assert(seq![x].drop_last() =~= Seq::<Suffix>::empty());
    assert(spec_suffixes(base, seq![x].drop_last()) == base);
    assert(seq![x].last() == x);
}

/// The expression `prefix suffixes...`.
pub open spec fn spec_prefix_suffixes(prefix: Prefix, suffixes: Seq<Suffix>) -> SpecExpr {
    spec_suffixes(spec_prefix(prefix), suffixes)
}

pub(crate) fn transform_prefix(prefix: &Prefix) -> (r: Box<Expr>)
    requires
        accepted_prefix(*prefix),
    ensures
        r@ == spec_prefix(*prefix),
    decreases prefix, 0nat,
{
    match prefix {
        Prefix::Name(name) => boxed(Expr::Ident(Ident { sym: name.clone() })),
        Prefix::Expression(expr) => transform_expression(expr),
        Prefix::Other(source) => skip("Unknown prefix variant", source.as_str()),
    }
}

/// Applies one suffix to `base`.
fn transform_suffix(suffix: &Suffix, base: Box<Expr>) -> (r: Box<Expr>)
    requires
        accepted_suffix(*suffix),
    ensures
        r@ == spec_suffix(*suffix, base@),
    decreases suffix, 0nat,
{
    match suffix {
        Suffix::Call(call) => transform_call(call, base),
        Suffix::Index(index) => transform_index(index, base),
        Suffix::Other(source) => skip("Unknown suffix variant", source.as_str()),
    }
}

/// Applies each suffix in turn to `base`.
pub(crate) fn transform_suffixes(base: Box<Expr>, suffixes: &Vec<Suffix>) -> (r: Box<Expr>)
    requires
        accepted_suffixes(suffixes@),
    ensures
        r@ == spec_suffixes(base@, suffixes@),
    decreases suffixes, 0nat,
{
    let ghost base_view = base@;
    let mut acc = base;
    let mut i: usize = 0;
    assert(suffixes@.take(0) =~= Seq::<Suffix>::empty());
    while i < suffixes.len()
        invariant
            i <= suffixes@.len(),
            accepted_suffixes(suffixes@),
            acc@ == spec_suffixes(base_view, suffixes@.take(i as int)),
        decreases suffixes@.len() - i,
    {
        proof {
            assert(decreases_to!(*suffixes => suffixes[i as int]));
            assert(suffixes@.take(i + 1).drop_last() =~= suffixes@.take(i as int));
            assert(accepted_suffix(suffixes@[i as int]));
        }
        assert(suffixes@.take(i + 1).last() == suffixes@[i as int]);
        acc = transform_suffix(&suffixes[i], acc);
        i = i + 1;
    }
    assert(suffixes@.take(suffixes@.len() as int) =~= suffixes@);
    acc
}

/// Transforms `prefix suffixes...`: the prefix, then each suffix applied to
/// the result so far.
pub fn transform_prefix_suffixes(prefix: &Prefix, suffixes: &Vec<Suffix>) -> (r: Box<Expr>)
    requires
        accepted_prefix(*prefix),
        accepted_suffixes(suffixes@),
    ensures
        r@ == spec_prefix_suffixes(*prefix, suffixes@),
{
    let base = transform_prefix(prefix);
    transform_suffixes(base, suffixes)
}

} // verus!
