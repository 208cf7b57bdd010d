//! Type declarations for the instances of a Roblox model.
use itertools::Itertools;
use std::cmp::Ordering;
use vstd::prelude::*;
use vstd::string::StrSliceExecFns;
use crate::text::str_eq;
use crate::ts::{
    view_entity_name, view_module_item, view_module_items, view_type_element, view_type_elements,
    view_types, ModuleItem, SpecEntityName, SpecModuleItem, SpecType, SpecTypeElement, TsEntityName,
    TsType, TsTypeElement,
};
use crate::util::{boxed, ident};

verus! {

/// An instance of a Roblox model: its name, its class and its children.
#[derive(Debug, PartialEq)]
pub struct Instance {
    pub name: String,
    pub class: String,
    pub children: Vec<Instance>,
}

/// A Roblox model; the instances that it holds are the children of `root`.
#[derive(Debug, PartialEq)]
pub struct Dom {
    pub root: Instance,
}

/// Whether the name `a` comes before the name `b` in the order of `String`:
/// the first character where they differ decides, and a proper prefix comes
/// first.
pub open spec fn name_lt(a: Seq<char>, b: Seq<char>) -> bool
    decreases a.len(),
{
    if a.len() == 0 {
        b.len() > 0
    } else if b.len() == 0 {
        false
    } else if a[0] != b[0] {
        (a[0] as int) < (b[0] as int)
    } else {
        name_lt(a.drop_first(), b.drop_first())
    }
}

/// No name comes before itself.
pub proof fn lemma_name_lt_irreflexive(a: Seq<char>)
    ensures
        !name_lt(a, a),
    decreases a.len(),
{
    if a.len() > 0 {
        lemma_name_lt_irreflexive(a.drop_first());
    }
}

/// Of two different names, exactly one comes first.
pub proof fn lemma_name_lt_total(a: Seq<char>, b: Seq<char>)
    ensures
        a != b ==> (name_lt(a, b) || name_lt(b, a)),
        !(name_lt(a, b) && name_lt(b, a)),
    decreases a.len(),
{
    if a.len() > 0 && b.len() > 0 {
        if a[0] == b[0] {
            lemma_name_lt_total(a.drop_first(), b.drop_first());
            if a.drop_first() == b.drop_first() {
                assert(a =~= seq![a[0]] + a.drop_first());
                assert(b =~= seq![b[0]] + b.drop_first());
            }
        } else {
            assert((a[0] as int) != (b[0] as int));
        }
    } else if a.len() == 0 && b.len() == 0 {
        assert(a =~= b);
    }
}

/// Whether `a` and `b` first differ at position `k`, where `a` has the
/// smaller character.
pub open spec fn first_difference_smaller(a: Seq<char>, b: Seq<char>, k: int) -> bool {
    0 <= k < a.len() && k < b.len() && a.take(k) == b.take(k) && (a[k] as int) < (b[k] as int)
}

/// The order of names is that of `String`: `a` comes before `b` exactly when,
/// at the first position where they differ, `a` has the smaller character,
/// or when `a` is a proper prefix of `b`.
pub proof fn lemma_name_lt_lexicographic(a: Seq<char>, b: Seq<char>)
    ensures
        name_lt(a, b) <==> (exists|k: int| first_difference_smaller(a, b, k)) || (a.len() < b.len()
            && a == b.take(a.len() as int)),
    decreases a.len(),
{
    if a.len() == 0 {
        assert(a =~= b.take(0));
    } else if b.len() == 0 {
        if exists|k: int| first_difference_smaller(a, b, k) {
            let k = choose|k: int| first_difference_smaller(a, b, k);
        }
    } else if a[0] != b[0] {
        if (a[0] as int) < (b[0] as int) {
            assert(a.take(0) =~= b.take(0));
            assert(first_difference_smaller(a, b, 0));
        } else {
            if exists|k: int| first_difference_smaller(a, b, k) {
                let k = choose|k: int| first_difference_smaller(a, b, k);
                if k > 0 {
                    assert(a.take(k)[0] == b.take(k)[0]);
                }
            }
            if a.len() < b.len() && a == b.take(a.len() as int) {
                assert(a[0] == b.take(a.len() as int)[0]);
            }
        }
    } else {
        let a1 = a.drop_first();
        let b1 = b.drop_first();
        lemma_name_lt_lexicographic(a1, b1);
        if exists|k: int| first_difference_smaller(a1, b1, k) {
            let k = choose|k: int| first_difference_smaller(a1, b1, k);
            assert(a.take(k + 1) =~= seq![a[0]] + a1.take(k));
            assert(b.take(k + 1) =~= seq![b[0]] + b1.take(k));
            assert(first_difference_smaller(a, b, k + 1));
        }
        if exists|k: int| first_difference_smaller(a, b, k) {
            let k = choose|k: int| first_difference_smaller(a, b, k);
            assert(k != 0);
            assert(a1.take(k - 1) =~= a.take(k).drop_first());
            assert(b1.take(k - 1) =~= b.take(k).drop_first());
            assert(first_difference_smaller(a1, b1, k - 1));
        }
        if a.len() < b.len() && a == b.take(a.len() as int) {
            assert(a1 =~= b1.take(a1.len() as int));
        }
        if a1.len() < b1.len() && a1 == b1.take(a1.len() as int) {
            assert forall|i: int| 0 <= i < a.len() implies a[i] == b.take(a.len() as int)[i] by {
                if i > 0 {
                    assert(a[i] == a1[i - 1]);
                    assert(a1[i - 1] == b1.take(a1.len() as int)[i - 1]);
                    assert(b[i] == b1[i - 1]);
                }
            }
            assert(a =~= b.take(a.len() as int));
        }
    }
}

/// A name that comes before one that comes before a third comes before the
/// third.
pub proof fn lemma_name_lt_transitive(a: Seq<char>, b: Seq<char>, c: Seq<char>)
    requires
        name_lt(a, b),
        name_lt(b, c),
    ensures
        name_lt(a, c),
    decreases a.len(),
{
    if a.len() > 0 && a[0] == b[0] && b[0] == c[0] {
        lemma_name_lt_transitive(a.drop_first(), b.drop_first(), c.drop_first());
    }
}

/// Whether the name `a` comes before the name `b`.
pub fn name_before(a: &str, b: &str) -> (r: bool)
    ensures
        r == name_lt(a@, b@),
{
    let n = a.unicode_len();
    let m = b.unicode_len();
    let mut i: usize = 0;
    assert(a@.skip(0) =~= a@);
    assert(b@.skip(0) =~= b@);
    while i < n && i < m && a.get_char(i) == b.get_char(i)
        invariant
            n == a@.len(),
            m == b@.len(),
            i <= n,
            i <= m,
            name_lt(a@, b@) == name_lt(a@.skip(i as int), b@.skip(i as int)),
        decreases n - i,
    {
        assert(a@.skip(i as int).drop_first() =~= a@.skip(i + 1));
        assert(b@.skip(i as int).drop_first() =~= b@.skip(i + 1));
        i = i + 1;
    }
    if i < n && i < m {
        let ca = a.get_char(i);
        let cb = b.get_char(i);
        assert(a@.skip(i as int)[0] == ca);
        assert(b@.skip(i as int)[0] == cb);
        ca < cb
    } else {
        i < m
    }
}

/// Compares two names in the order of `String`.
pub fn compare_names(a: &str, b: &str) -> (r: Ordering)
    ensures
        (r == Ordering::Less) == name_lt(a@, b@),
        (r == Ordering::Equal) == (a@ == b@),
        (r == Ordering::Greater) == name_lt(b@, a@),
{
    proof {
        lemma_name_lt_irreflexive(a@);
        lemma_name_lt_total(a@, b@);
    }
    if str_eq(a, b) {
        Ordering::Equal
    } else if name_before(a, b) {
        Ordering::Less
    } else {
        Ordering::Greater
    }
}

/// The name of the instance at position `i` of `s`.
pub open spec fn name_at(s: Seq<Instance>, i: usize) -> Seq<char> {
    s[i as int].name@
}

/// Whether `s[i]` is the first instance of `s` with its name.
pub open spec fn is_first_of_name(s: Seq<Instance>, i: int) -> bool {
    0 <= i < s.len() && forall|j: int| 0 <= j < i ==> s[j].name@ != s[i].name@
}

/// Whether the names at the positions `p` of `s` strictly increase.
pub open spec fn names_increase(s: Seq<Instance>, p: Seq<usize>) -> bool {
    forall|a: int, b: int|
        0 <= a < b < p.len() ==> name_lt(
            #[trigger] name_at(s, p[a]),
            #[trigger] name_at(s, p[b]),
        )
}

/// Whether `p` lists the positions of the first instance of each name of `s`,
/// each once, in the order of their names.
pub open spec fn is_name_order(s: Seq<Instance>, p: Seq<usize>) -> bool {
    &&& forall|k: int| 0 <= k < p.len() ==> is_first_of_name(s, #[trigger] p[k] as int)
    &&& forall|i: int| is_first_of_name(s, i) ==> p.contains(i as usize)
    &&& names_increase(s, p)
}

/// The positions of the first instance of each name of `s`, in the order of
/// their names.
pub open spec fn name_order(s: Seq<Instance>) -> Seq<usize> {
    choose|p: Seq<usize>| is_name_order(s, p)
}

/// Two sequences of positions that hold the same positions, each with names
/// that strictly increase, are equal.
proof fn lemma_increasing_names_unique(s: Seq<Instance>, p1: Seq<usize>, p2: Seq<usize>)
    requires
        names_increase(s, p1),
        names_increase(s, p2),
        forall|x: usize| p1.contains(x) <==> p2.contains(x),
    ensures
        p1 == p2,
    decreases p1.len(),
{
    if p1.len() == 0 {
        if p2.len() > 0 {
            assert(p2.contains(p2[0]));
        }
        assert(p1 =~= p2);
    } else {
        assert(p1.contains(p1[0]));
        let j = choose|j: int| 0 <= j < p2.len() && p2[j] == p1[0];
        assert(p2.contains(p2[0]));
        let i = choose|i: int| 0 <= i < p1.len() && p1[i] == p2[0];
        lemma_name_lt_irreflexive(name_at(s, p1[0]));
        lemma_name_lt_total(name_at(s, p1[0]), name_at(s, p2[0]));
        if j > 0 {
            assert(name_lt(name_at(s, p2[0]), name_at(s, p2[j])));
            if i > 0 {
                assert(name_lt(name_at(s, p1[0]), name_at(s, p1[i])));
            }
        }
        assert(p1[0] == p2[0]);
        let t1 = p1.drop_first();
        let t2 = p2.drop_first();
        assert forall|x: usize| t1.contains(x) implies t2.contains(x) by {
            let a = choose|a: int| 0 <= a < t1.len() && t1[a] == x;
            assert(name_lt(name_at(s, p1[0]), name_at(s, p1[a + 1])));
            assert(p2.contains(x));
            let b = choose|b: int| 0 <= b < p2.len() && p2[b] == x;
            lemma_name_lt_irreflexive(name_at(s, x));
            assert(b != 0);
            assert(t2[b - 1] == x);
        }
        assert forall|x: usize| t2.contains(x) implies t1.contains(x) by {
            let a = choose|a: int| 0 <= a < t2.len() && t2[a] == x;
            assert(name_lt(name_at(s, p2[0]), name_at(s, p2[a + 1])));
            assert(p1.contains(x));
            let b = choose|b: int| 0 <= b < p1.len() && p1[b] == x;
            lemma_name_lt_irreflexive(name_at(s, x));
            assert(b != 0);
            assert(t1[b - 1] == x);
        }
        assert forall|a: int, b: int| 0 <= a < b < t1.len() implies name_lt(
            #[trigger] name_at(s, t1[a]),
            #[trigger] name_at(s, t1[b]),
        ) by {
            assert(name_lt(name_at(s, p1[a + 1]), name_at(s, p1[b + 1])));
        }
        assert forall|a: int, b: int| 0 <= a < b < t2.len() implies name_lt(
            #[trigger] name_at(s, t2[a]),
            #[trigger] name_at(s, t2[b]),
        ) by {
            assert(name_lt(name_at(s, p2[a + 1]), name_at(s, p2[b + 1])));
        }
        lemma_increasing_names_unique(s, t1, t2);
        assert(p1 =~= seq![p1[0]].add(t1));
        assert(p2 =~= seq![p2[0]].add(t2));
    }
}

/// The positions of the first instance of each name, in the order of names,
/// are determined by the instances.
pub proof fn lemma_name_order_unique(s: Seq<Instance>, p1: Seq<usize>, p2: Seq<usize>)
    requires
        is_name_order(s, p1),
        is_name_order(s, p2),
    ensures
        p1 == p2,
{
    assert forall|x: usize| p1.contains(x) implies p2.contains(x) by {
        let k = choose|k: int| 0 <= k < p1.len() && p1[k] == x;
        assert(is_first_of_name(s, p1[k] as int));
    }
    assert forall|x: usize| p2.contains(x) implies p1.contains(x) by {
        let k = choose|k: int| 0 <= k < p2.len() && p2[k] == x;
        assert(is_first_of_name(s, p2[k] as int));
    }
    lemma_increasing_names_unique(s, p1, p2);
}

/// `p` with the position `n` put where its name falls among theirs.
spec fn insert_by_name(s: Seq<Instance>, p: Seq<usize>, n: usize) -> Seq<usize>
    decreases p.len(),
{
    if p.len() == 0 {
        seq![n]
    } else if name_lt(name_at(s, n), name_at(s, p[0])) {
        seq![n] + p
    } else {
        seq![p[0]] + insert_by_name(s, p.drop_first(), n)
    }
}

proof fn lemma_insert_by_name(s: Seq<Instance>, p: Seq<usize>, n: usize)
    requires
        names_increase(s, p),
        forall|k: int| 0 <= k < p.len() ==> name_at(s, #[trigger] p[k]) != name_at(s, n),
    ensures
        names_increase(s, insert_by_name(s, p, n)),
        insert_by_name(s, p, n).contains(n),
        forall|k: int| 0 <= k < p.len() ==> insert_by_name(s, p, n).contains(#[trigger] p[k]),
        forall|k: int|
            0 <= k < insert_by_name(s, p, n).len() ==> #[trigger] insert_by_name(s, p, n)[k] == n
                || p.contains(insert_by_name(s, p, n)[k]),
    decreases p.len(),
{
    let r = insert_by_name(s, p, n);
    if p.len() == 0 {
        assert(r[0] == n);
    } else if name_lt(name_at(s, n), name_at(s, p[0])) {
        assert(r[0] == n);
        assert forall|k: int| 0 <= k < p.len() implies r.contains(#[trigger] p[k]) by {
            assert(r[k + 1] == p[k]);
        }
        assert forall|k: int| 0 <= k < r.len() implies #[trigger] r[k] == n || p.contains(r[k]) by {
            if k > 0 {
                assert(r[k] == p[k - 1]);
            }
        }
        assert forall|a: int, b: int| 0 <= a < b < r.len() implies name_lt(
            #[trigger] name_at(s, r[a]),
            #[trigger] name_at(s, r[b]),
        ) by {
            assert(r[b] == p[b - 1]);
            if a == 0 {
                if b > 1 {
                    assert(name_lt(name_at(s, p[0]), name_at(s, p[b - 1])));
                    lemma_name_lt_transitive(name_at(s, n), name_at(s, p[0]), name_at(s, p[b - 1]));
                }
            } else {
                assert(r[a] == p[a - 1]);
                assert(name_lt(name_at(s, p[a - 1]), name_at(s, p[b - 1])));
            }
        }
    } else {
        let t = p.drop_first();
        assert forall|a: int, b: int| 0 <= a < b < t.len() implies name_lt(
            #[trigger] name_at(s, t[a]),
            #[trigger] name_at(s, t[b]),
        ) by {
            assert(name_lt(name_at(s, p[a + 1]), name_at(s, p[b + 1])));
        }
        assert forall|k: int| 0 <= k < t.len() implies name_at(s, #[trigger] t[k]) != name_at(s, n) by {
            assert(name_at(s, p[k + 1]) != name_at(s, n));
        }
        lemma_insert_by_name(s, t, n);
        let rt = insert_by_name(s, t, n);
        assert(r == seq![p[0]] + rt);
        assert(name_at(s, p[0]) != name_at(s, n));
        lemma_name_lt_total(name_at(s, n), name_at(s, p[0]));
        assert(rt.contains(n));
        let i = choose|i: int| 0 <= i < rt.len() && rt[i] == n;
        assert(r[i + 1] == n);
        assert forall|k: int| 0 <= k < p.len() implies r.contains(#[trigger] p[k]) by {
            if k == 0 {
                assert(r[0] == p[0]);
            } else {
                assert(t[k - 1] == p[k]);
                assert(rt.contains(t[k - 1]));
                let j = choose|j: int| 0 <= j < rt.len() && rt[j] == t[k - 1];
                assert(r[j + 1] == p[k]);
            }
        }
        assert forall|k: int| 0 <= k < r.len() implies #[trigger] r[k] == n || p.contains(r[k]) by {
            if k == 0 {
                assert(p[0] == r[0]);
            } else {
                assert(r[k] == rt[k - 1]);
                if rt[k - 1] != n {
                    assert(t.contains(rt[k - 1]));
                    let j = choose|j: int| 0 <= j < t.len() && t[j] == rt[k - 1];
                    assert(p[j + 1] == r[k]);
                }
            }
        }
        assert forall|a: int, b: int| 0 <= a < b < r.len() implies name_lt(
            #[trigger] name_at(s, r[a]),
            #[trigger] name_at(s, r[b]),
        ) by {
            assert(r[b] == rt[b - 1]);
            if a == 0 {
                assert(r[0] == p[0]);
                if rt[b - 1] != n {
                    assert(t.contains(rt[b - 1]));
                    let j = choose|j: int| 0 <= j < t.len() && t[j] == rt[b - 1];
                    assert(name_lt(name_at(s, p[0]), name_at(s, p[j + 1])));
                }
            } else {
                assert(r[a] == rt[a - 1]);
                assert(name_lt(name_at(s, rt[a - 1]), name_at(s, rt[b - 1])));
            }
        }
    }
}

/// The positions of the first instance of each name of `s`, in the order of
/// their names, built one instance at a time.
spec fn build_name_order(s: Seq<Instance>) -> Seq<usize>
    decreases s.len(),
{
    if s.len() == 0 {
        Seq::empty()
    } else {
        let t = s.drop_last();
        let p = build_name_order(t);
        if exists|j: int| 0 <= j < t.len() && t[j].name@ == s.last().name@ {
            p
        } else {
            insert_by_name(s, p, (s.len() - 1) as usize)
        }
    }
}

proof fn lemma_build_name_order(s: Seq<Instance>)
    requires
        s.len() <= usize::MAX,
    ensures
        is_name_order(s, build_name_order(s)),
    decreases s.len(),
{
    if s.len() > 0 {
        let t = s.drop_last();
        let p = build_name_order(t);
        let n = (s.len() - 1) as usize;
        lemma_build_name_order(t);
        assert forall|i: int| 0 <= i < t.len() implies is_first_of_name(s, i) == is_first_of_name(t, i) by {
            assert forall|j: int| 0 <= j < i implies s[j] == t[j] by {}
        }
        assert forall|k: int| 0 <= k < p.len() implies (#[trigger] p[k] as int) < t.len() by {
            assert(is_first_of_name(t, p[k] as int));
        }
        assert forall|a: int, b: int| 0 <= a < b < p.len() implies name_lt(
            #[trigger] name_at(s, p[a]),
            #[trigger] name_at(s, p[b]),
        ) by {
            assert(name_lt(name_at(t, p[a]), name_at(t, p[b])));
        }
        if exists|j: int| 0 <= j < t.len() && t[j].name@ == s.last().name@ {
            let j = choose|j: int| 0 <= j < t.len() && t[j].name@ == s.last().name@;
            assert(!is_first_of_name(s, n as int));
            assert forall|k: int| 0 <= k < p.len() implies is_first_of_name(s, #[trigger] p[k] as int) by {
                assert(is_first_of_name(t, p[k] as int));
            }
            assert forall|i: int| is_first_of_name(s, i) implies p.contains(i as usize) by {
                assert(i != n);
                assert(is_first_of_name(t, i));
            }
        } else {
            assert forall|j: int| 0 <= j < n implies s[j].name@ != s[n as int].name@ by {
                assert(s[j] == t[j]);
                assert(s[n as int] == s.last());
            }
            assert(is_first_of_name(s, n as int));
            assert forall|k: int| 0 <= k < p.len() implies name_at(s, #[trigger] p[k]) != name_at(s, n) by {
                assert(s[p[k] as int] == t[p[k] as int]);
            }
            lemma_insert_by_name(s, p, n);
            let r = insert_by_name(s, p, n);
            assert forall|k: int| 0 <= k < r.len() implies is_first_of_name(s, #[trigger] r[k] as int) by {
                if r[k] != n {
                    let j = choose|j: int| 0 <= j < p.len() && p[j] == r[k];
                    assert(is_first_of_name(t, p[j] as int));
                }
            }
            assert forall|i: int| is_first_of_name(s, i) implies r.contains(i as usize) by {
                if i != n {
                    assert(is_first_of_name(t, i));
                    let j = choose|j: int| 0 <= j < p.len() && p[j] == i as usize;
                    assert(r.contains(p[j]));
                }
            }
        }
    }
}

/// Every list of instances that a `Vec` can hold has an order by names.
pub proof fn lemma_name_order_exists(s: Seq<Instance>)
    requires
        s.len() <= usize::MAX,
    ensures
        is_name_order(s, name_order(s)),
{
    lemma_build_name_order(s);
    assert(is_name_order(s, build_name_order(s)));
}

/// Compares the names of the instances at positions `a` and `b`.
fn compare_positions(instances: &Vec<Instance>, a: &usize, b: &usize) -> (r: Ordering)
    requires
        *a < instances@.len(),
        *b < instances@.len(),
    ensures
        (r == Ordering::Less) == name_lt(name_at(instances@, *a), name_at(instances@, *b)),
        (r == Ordering::Equal) == (name_at(instances@, *a) == name_at(instances@, *b)),
        (r == Ordering::Greater) == name_lt(name_at(instances@, *b), name_at(instances@, *a)),
{
    compare_names(instances[*a].name.as_str(), instances[*b].name.as_str())
}

/// `Itertools::unique_by`, keyed by name, over the positions of `instances`:
/// the positions of the instances whose name no earlier instance has, in
/// their order.
#[verifier::external_body]
fn first_of_each_name(instances: &Vec<Instance>) -> (r: Vec<usize>)
    ensures
        forall|k: int| 0 <= k < r@.len() ==> is_first_of_name(instances@, #[trigger] r@[k] as int),
        forall|i: int| is_first_of_name(instances@, i) ==> r@.contains(i as usize),
        forall|a: int, b: int| 0 <= a < b < r@.len() ==> r@[a] < r@[b],
{
    instances.iter().enumerate().unique_by(|&(_, instance)| &instance.name).map(|(i, _)| i).collect()
}

/// `Itertools::sorted_by` over positions of `instances`, ordered by the names
/// there (an order that is total and transitive, as the lemmas above prove):
/// the same positions, each as often, with names that never decrease.
#[verifier::external_body]
fn sort_by_name(instances: &Vec<Instance>, positions: Vec<usize>) -> (r: Vec<usize>)
    requires
        forall|k: int| 0 <= k < positions@.len() ==> #[trigger] positions@[k] < instances@.len(),
    ensures
        r@.to_multiset() == positions@.to_multiset(),
        forall|a: int, b: int|
            0 <= a < b < r@.len() ==> !name_lt(
                #[trigger] name_at(instances@, r@[b]),
                #[trigger] name_at(instances@, r@[a]),
            ),
{
    positions.into_iter().sorted_by(|a, b| compare_positions(instances, a, b)).collect()
}

/// The positions of the first instance of each name of `instances`, in the
/// order of their names.
pub fn sorted_unique_positions(instances: &Vec<Instance>) -> (r: Vec<usize>)
    ensures
        is_name_order(instances@, r@),
        r@ == name_order(instances@),
{
    let firsts = first_of_each_name(instances);
    proof {
        assert forall|k: int| 0 <= k < firsts@.len() implies #[trigger] firsts@[k] < instances@.len() by {
            assert(is_first_of_name(instances@, firsts@[k] as int));
        }
    }
    let sorted = sort_by_name(instances, firsts);
    proof {
        let s = instances@;
        broadcast use vstd::seq_lib::group_to_multiset_ensures;
        assert(firsts@.no_duplicates());
        firsts@.lemma_multiset_has_no_duplicates();
        assert forall|x: usize| sorted@.to_multiset().contains(x) implies sorted@.to_multiset().count(x) == 1 by {
            assert(firsts@.to_multiset().contains(x));
        }
        sorted@.lemma_multiset_has_no_duplicates_conv();
        assert forall|k: int| 0 <= k < sorted@.len() implies is_first_of_name(s, #[trigger] sorted@[k] as int) by {
            assert(sorted@.contains(sorted@[k]));
            assert(sorted@.to_multiset().count(sorted@[k]) > 0);
            assert(firsts@.contains(sorted@[k]));
            let j = choose|j: int| 0 <= j < firsts@.len() && firsts@[j] == sorted@[k];
            assert(is_first_of_name(s, firsts@[j] as int));
        }
        assert forall|i: int| is_first_of_name(s, i) implies sorted@.contains(i as usize) by {
            assert(firsts@.contains(i as usize));
            assert(firsts@.to_multiset().count(i as usize) > 0);
        }
        assert forall|a: int, b: int| 0 <= a < b < sorted@.len() implies name_lt(
            #[trigger] name_at(s, sorted@[a]),
            #[trigger] name_at(s, sorted@[b]),
        ) by {
            let x = sorted@[a] as int;
            let y = sorted@[b] as int;
            assert(is_first_of_name(s, x));
            assert(is_first_of_name(s, y));
            assert(x != y);
            if x < y {
                assert(s[x].name@ != s[y].name@);
            } else {
                assert(s[y].name@ != s[x].name@);
            }
            lemma_name_lt_total(name_at(s, sorted@[a]), name_at(s, sorted@[b]));
        }
        assert(is_name_order(s, sorted@));
        lemma_name_order_unique(s, sorted@, name_order(s));
    }
    sorted
}

/// The type named by a class: `Class`.
pub open spec fn class_type(class: Seq<char>) -> SpecType {
    SpecType::TypeRef { name: SpecEntityName::Ident(class), params: None }
}

/// The property that an instance becomes: `Name: Class`, or, when it has
/// children, `Name: Class & { ...children }`.
pub open spec fn spec_instance(instance: Instance) -> SpecTypeElement
    decreases instance,
{
    SpecTypeElement::Property {
        key: instance.name@,
        optional: false,
        type_ann: if instance.children@.len() > 0 {
            SpecType::Intersection(
                seq![class_type(instance.class@), SpecType::TypeLit(spec_children(instance.children@))],
            )
        } else {
            class_type(instance.class@)
        },
    }
}

/// The properties that children become: the first child of each name, in the
/// order of names.
pub open spec fn spec_children(s: Seq<Instance>) -> Seq<SpecTypeElement>
    decreases s,
{
    let p = name_order(s);
    Seq::new(
        p.len(),
        |k: int|
            if 0 <= p[k] < s.len() {
                spec_instance(s[p[k] as int])
            } else {
                arbitrary()
            },
    )
}

/// The interfaces that a model becomes: one for the first top-level instance
/// of each name, in the order of names, extending its class.
pub open spec fn spec_dom(dom: Dom) -> Seq<SpecModuleItem> {
    let s = dom.root.children@;
    let p = name_order(s);
    Seq::new(
        p.len(),
        |k: int|
            SpecModuleItem::ExportInterface {
                id: s[p[k] as int].name@,
                extends: s[p[k] as int].class@,
                body: spec_children(s[p[k] as int].children@),
            },
    )
}

/// The properties that children become: one for each distinct name among
/// them, that of the first child with the name, in strictly ascending order of
/// names. This holds at every level of a model, for any list of children.
pub proof fn lemma_children_by_name(s: Seq<Instance>)
    requires
        s.len() <= usize::MAX,
    ensures
        is_name_order(s, name_order(s)),
        spec_children(s) == Seq::new(
            name_order(s).len(),
            |k: int| spec_instance(s[name_order(s)[k] as int]),
        ),
        forall|a: int, b: int|
            0 <= a < b < spec_children(s).len() ==> name_lt(
                #[trigger] spec_children(s)[a]->Property_key,
                #[trigger] spec_children(s)[b]->Property_key,
            ),
{
    lemma_name_order_exists(s);
    let p = name_order(s);
    assert forall|k: int| 0 <= k < p.len() implies 0 <= #[trigger] p[k] < s.len() by {
        assert(is_first_of_name(s, p[k] as int));
    }
    assert(spec_children(s) =~= Seq::new(p.len(), |k: int| spec_instance(s[p[k] as int])));
    assert forall|a: int, b: int| 0 <= a < b < spec_children(s).len() implies name_lt(
        #[trigger] spec_children(s)[a]->Property_key,
        #[trigger] spec_children(s)[b]->Property_key,
    ) by {
        assert(name_lt(name_at(s, p[a]), name_at(s, p[b])));
        assert(p[a] < s.len() && p[b] < s.len());
    }
}

/// The property that an instance becomes: keyed by its name, typed by its
/// class, and, when it has children, by the intersection of its class with a
/// type literal of their properties: one per distinct child name, that of
/// the first child with the name, in strictly ascending order of names.
pub proof fn lemma_instance_property(instance: Instance)
    requires
        instance.children@.len() <= usize::MAX,
    ensures
        spec_instance(instance) == (SpecTypeElement::Property {
            key: instance.name@,
            optional: false,
            type_ann: if instance.children@.len() == 0 {
                class_type(instance.class@)
            } else {
                SpecType::Intersection(
                    seq![
                        class_type(instance.class@),
                        SpecType::TypeLit(spec_children(instance.children@)),
                    ],
                )
            },
        }),
        is_name_order(instance.children@, name_order(instance.children@)),
        spec_children(instance.children@) == Seq::new(
            name_order(instance.children@).len(),
            |k: int| spec_instance(instance.children@[name_order(instance.children@)[k] as int]),
        ),
        forall|a: int, b: int|
            0 <= a < b < spec_children(instance.children@).len() ==> name_lt(
                #[trigger] spec_children(instance.children@)[a]->Property_key,
                #[trigger] spec_children(instance.children@)[b]->Property_key,
            ),
{
    lemma_children_by_name(instance.children@);
}

/// The interfaces of a model: one for each distinct name among its
/// top-level instances, that of the first instance with the name, in
/// strictly ascending order of names; each is named after its instance,
/// extends its class, and holds the properties of its children.
pub proof fn lemma_interfaces_by_name(dom: Dom)
    requires
        dom.root.children@.len() <= usize::MAX,
    ensures
        is_name_order(dom.root.children@, name_order(dom.root.children@)),
        spec_dom(dom).len() == name_order(dom.root.children@).len(),
        forall|k: int|
            0 <= k < spec_dom(dom).len() ==> #[trigger] spec_dom(dom)[k] == (SpecModuleItem::ExportInterface {
                id: dom.root.children@[name_order(dom.root.children@)[k] as int].name@,
                extends: dom.root.children@[name_order(dom.root.children@)[k] as int].class@,
                body: spec_children(
                    dom.root.children@[name_order(dom.root.children@)[k] as int].children@,
                ),
            }),
        forall|a: int, b: int|
            0 <= a < b < spec_dom(dom).len() ==> name_lt(
                #[trigger] spec_dom(dom)[a]->ExportInterface_id,
                #[trigger] spec_dom(dom)[b]->ExportInterface_id,
            ),
{
    let s = dom.root.children@;
    lemma_name_order_exists(s);
    let p = name_order(s);
    assert forall|a: int, b: int| 0 <= a < b < spec_dom(dom).len() implies name_lt(
        #[trigger] spec_dom(dom)[a]->ExportInterface_id,
        #[trigger] spec_dom(dom)[b]->ExportInterface_id,
    ) by {
        assert(name_lt(name_at(s, p[a]), name_at(s, p[b])));
    }
}

/// `Class`.
fn transform_class(class: &String) -> (r: TsType)
    ensures
        r@ == class_type(class@),
{
    let name = TsEntityName::Ident(ident(class.clone()));
    assert(view_entity_name(name) == SpecEntityName::Ident(class@));
    TsType::TypeRef { name, params: None }
}

fn transform_instance(instance: &Instance) -> (r: TsTypeElement)
    ensures
        view_type_element(r) == spec_instance(*instance),
    decreases instance, 0nat,
{
    let class_type = transform_class(&instance.class);
    let type_ann = if instance.children.len() > 0 {
        let ghost cv = class_type@;
        let members = transform_children(&instance.children);
        let lit = TsType::TypeLit(members);
        assert(lit@ == SpecType::TypeLit(spec_children(instance.children@)));
        let ghost lv = lit@;
        let mut types = Vec::new();
        types.push(class_type);
        types.push(lit);
        assert(view_types(types@) =~= seq![cv, lv]);
        TsType::Intersection(types)
    } else {
        class_type
    };
    let ghost tv = type_ann@;
    let r = TsTypeElement::Property {
        key: ident(instance.name.clone()),
        optional: false,
        type_ann: boxed(type_ann),
    };
    assert(view_type_element(r) == SpecTypeElement::Property {
        key: instance.name@,
        optional: false,
        type_ann: tv,
    });
    r
}

fn transform_children(children: &Vec<Instance>) -> (r: Vec<TsTypeElement>)
    ensures
        view_type_elements(r@) == spec_children(children@),
        is_name_order(children@, name_order(children@)),
    decreases children, 0nat,
{
    let positions = sorted_unique_positions(children);
    let mut out: Vec<TsTypeElement> = Vec::new();
    let mut k: usize = 0;
    while k < positions.len()
        invariant
            k <= positions@.len(),
            out@.len() == k,
            is_name_order(children@, positions@),
            positions@ == name_order(children@),
            forall|m: int|
                0 <= m < k ==> view_type_element(#[trigger] out@[m]) == spec_instance(
                    children@[positions@[m] as int],
                ),
        decreases positions@.len() - k,
    {
        let position = positions[k];
        proof {
            assert(is_first_of_name(children@, positions@[k as int] as int));
            assert(decreases_to!(*children => children[position as int]));
        }
        out.push(transform_instance(&children[position]));
        k = k + 1;
    }
    proof {
        assert forall|m: int| 0 <= m < positions@.len() implies 0 <= #[trigger] positions@[m] < children@.len() by {
            assert(is_first_of_name(children@, positions@[m] as int));
        }
    }
    assert(view_type_elements(out@) =~= spec_children(children@));
    out
}

/// Transforms a Roblox model into the interfaces of its top-level instances.
/// Each interface holds the properties of the instance's children; where
/// several instances share a name, the first of them stands for all; the
/// interfaces, and the properties of each, come in the order of names.
pub fn transform_dom(dom: Dom) -> (r: Vec<ModuleItem>)
    ensures
        view_module_items(r@) == spec_dom(dom),
        is_name_order(dom.root.children@, name_order(dom.root.children@)),
{
    let children = &dom.root.children;
    let positions = sorted_unique_positions(children);
    let mut out: Vec<ModuleItem> = Vec::new();
    let mut k: usize = 0;
    while k < positions.len()
        invariant
            k <= positions@.len(),
            out@.len() == k,
            *children == dom.root.children,
            is_name_order(children@, positions@),
            positions@ == name_order(children@),
            forall|m: int|
                0 <= m < k ==> view_module_item(#[trigger] out@[m]) == spec_dom(dom)[m],
        decreases positions@.len() - k,
    {
        let position = positions[k];
        proof {
            assert(is_first_of_name(children@, positions@[k as int] as int));
        }
        let instance = &children[position];
        let body = transform_children(&instance.children);
        let item = ModuleItem::ExportInterface {
            id: ident(instance.name.clone()),
            extends: ident(instance.class.clone()),
            body,
        };
        out.push(item);
        k = k + 1;
    }
    assert(view_module_items(out@) =~= spec_dom(dom));
    out
}

} // verus!
