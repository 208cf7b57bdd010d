use vstd::prelude::*;
use crate::accepted::{
    accepted_call, accepted_expression, accepted_field, accepted_function_call, accepted_suffix,
    accepted_suffixes, accepted_value, has_argument, accepted_table, array_element_accepted, is_array_table,
    is_unpack_call, unpack_call_well_formed,
};
use crate::expressions::transform_expression::{spec_expression, transform_expression};
use crate::expressions::transform_function_args::{spec_function_args, transform_function_args};
use crate::lua::{Call, Expression, Field, Prefix, Suffix, TableConstructor, Value};
use crate::text::str_eq;
use crate::ts::{
    view_arg, view_args, view_expr, view_opt_arg, view_opt_args, view_prop, view_props, Expr, ExprOrSpread,
    KeyValueProp, PropName, SpecArg, SpecExpr, SpecProp, SpecPropName,
};
use crate::util::{boxed, ident_str, make_string, skip, spec_skip};

verus! {

/// The number of positional fields (`{ a, b }`) in `fields`.
pub open spec fn no_key_count(fields: Seq<Field>) -> nat
    decreases fields.len(),
{
    if fields.len() == 0 {
        0
    } else {
        no_key_count(fields.drop_last()) + if fields.last() is NoKey {
            1nat
        } else {
            0nat
        }
    }
}

/// `no_key_count` is the number of positional fields.
pub proof fn lemma_no_key_count_counts(fields: Seq<Field>)
    ensures
        no_key_count(fields) == fields.filter(|f: Field| f is NoKey).len(),
    decreases fields.len(),
{
    reveal(Seq::filter);
    if fields.len() > 0 {
        lemma_no_key_count_counts(fields.drop_last());
    }
}

/// The first argument of the call of `unpack` in `e`. (Where `e` is no such
/// call with an argument, the name with no letters stands in; the
/// transformation does not accept a table with such an element.)
pub open spec fn spec_unpack_argument(e: Expression) -> SpecExpr
    decreases e,
{
    match e {
        Expression::Value { value, .. } => match *value {
            Value::FunctionCall(fc) => if fc.suffixes@.len() > 0 {
                match fc.suffixes@[0] {
                    Suffix::Call(Call::AnonymousCall(args)) => if spec_function_args(args).len() > 0 {
                        spec_function_args(args)[0].expr
                    } else {
                        SpecExpr::Ident(Seq::empty())
                    },
                    _ => SpecExpr::Ident(Seq::empty()),
                }
            } else {
                SpecExpr::Ident(Seq::empty())
            },
            _ => SpecExpr::Ident(Seq::empty()),
        },
        _ => SpecExpr::Ident(Seq::empty()),
    }
}

/// The elements of an array-like table: `unpack(t)` becomes the spread
/// `...t`; any other value stays.
pub open spec fn spec_array_elements(fields: Seq<Field>) -> Seq<Option<SpecArg>>
    decreases fields,
{
    Seq::new(
        fields.len(),
        |i: int|
            if 0 <= i < fields.len() {
                match fields[i] {
                    Field::NoKey(e) => if is_unpack_call(e) {
                        Some(SpecArg { spread: true, expr: spec_unpack_argument(e) })
                    } else {
                        Some(SpecArg { spread: false, expr: spec_expression(e) })
                    },
                    _ => arbitrary(),
                }
            } else {
                arbitrary()
            },
    )
}

/// More positional fields lie in a longer start of the fields: the count up
/// to `j` exceeds the count up to `i` by at least the positional field at `i`.
proof fn lemma_no_key_count_grows(fields: Seq<Field>, i: int, j: int)
    requires
        0 <= i < j <= fields.len(),
    ensures
        no_key_count(fields.take(j)) >= no_key_count(fields.take(i)) + if fields[i] is NoKey {
            1nat
        } else {
            0nat
        },
    decreases j - i,
{
    assert(fields.take(j).drop_last() =~= fields.take(j - 1));
    if j - 1 > i {
        lemma_no_key_count_grows(fields, i, j - 1);
    } else {
        assert(fields.take(j).last() == fields[i]);
    }
}

/// The positional fields of an object-like table are numbered from 1 in
/// their order, so no two of them share a key.
pub proof fn lemma_positional_keys_distinct(fields: Seq<Field>, i: int, j: int)
    requires
        0 <= i < j < fields.len(),
        fields[i] is NoKey,
        fields[j] is NoKey,
    ensures
        spec_object_props(fields)[i].key != spec_object_props(fields)[j].key,
        spec_object_props(fields)[i].key == SpecPropName::Num(no_key_count(fields.take(i)) + 1),
        no_key_count(fields.take(i)) + 1 <= no_key_count(fields.take(j)),
{
    lemma_no_key_count_grows(fields, i, j);
}

/// The properties of an object-like table: `name = v` becomes `"name": v`,
/// `[k] = v` becomes `[k]: v`, and the `n`th positional value becomes
/// `n: v`, counting from 1 as Luau tables do.
pub open spec fn spec_object_props(fields: Seq<Field>) -> Seq<SpecProp>
    decreases fields,
{
    Seq::new(
        fields.len(),
        |i: int|
            if 0 <= i < fields.len() {
                match fields[i] {
                    Field::NameKey { key, value } => SpecProp {
                        key: SpecPropName::Str(key@),
                        value: spec_expression(value),
                    },
                    Field::ExpressionKey { key, value } => SpecProp {
                        key: SpecPropName::Computed(Box::new(spec_expression(key))),
                        value: spec_expression(value),
                    },
                    Field::NoKey(value) => SpecProp {
                        key: SpecPropName::Num(no_key_count(fields.take(i)) + 1),
                        value: spec_expression(value),
                    },
                    Field::Other(source) => SpecProp {
                        key: SpecPropName::Ident("UnknownTableField"@),
                        value: spec_skip("Unknown Field kind"@, source@),
                    },
                }
            } else {
                arbitrary()
            },
    )
}

/// A table whose fields are all positional becomes an array; any other table
/// becomes an object.
pub open spec fn spec_table_constructor(t: TableConstructor) -> SpecExpr
    decreases t,
{
    if is_array_table(t.fields@) {
        SpecExpr::Array(spec_array_elements(t.fields@))
    } else {
        SpecExpr::Object(spec_object_props(t.fields@))
    }
}

/// The elements of an array literal.
pub open spec fn array_literal_elements(e: SpecExpr) -> Option<Seq<Option<SpecArg>>> {
    match e {
        SpecExpr::Array(elems) => Some(elems),
        _ => None,
    }
}

/// The properties of an object literal.
pub open spec fn object_literal_props(e: SpecExpr) -> Option<Seq<SpecProp>> {
    match e {
        SpecExpr::Object(props) => Some(props),
        _ => None,
    }
}

/// A table of positional values only becomes an array of those values, one
/// element per field, in order; `unpack(t)` among them spreads `t`. Any
/// other table becomes an object with one property per field, in order: a
/// named field keeps its name, a bracketed key is computed, and a positional
/// value is keyed by its position among the positional values, counting
/// from 1. Each value is transformed in place.
pub proof fn lemma_table_fields_in_order(t: TableConstructor)
    ensures
        is_array_table(t.fields@) ==> array_literal_elements(spec_table_constructor(t)) is Some,
        is_array_table(t.fields@) ==> array_literal_elements(spec_table_constructor(t)).unwrap().len()
            == t.fields@.len(),
        is_array_table(t.fields@) ==> forall|k: int|
            0 <= k < t.fields@.len() ==> (t.fields@[k] matches Field::NoKey(e) ==> (!is_unpack_call(e)
                ==> #[trigger] array_literal_elements(spec_table_constructor(t)).unwrap()[k] == Some(
                SpecArg { spread: false, expr: spec_expression(e) },
            ))),
        is_array_table(t.fields@) ==> forall|k: int|
            0 <= k < t.fields@.len() ==> (t.fields@[k] matches Field::NoKey(e) ==> (is_unpack_call(e)
                ==> #[trigger] array_literal_elements(spec_table_constructor(t)).unwrap()[k] == Some(
                SpecArg { spread: true, expr: spec_unpack_argument(e) },
            ))),
        !is_array_table(t.fields@) ==> object_literal_props(spec_table_constructor(t)) is Some,
        !is_array_table(t.fields@) ==> object_literal_props(spec_table_constructor(t)).unwrap().len()
            == t.fields@.len(),
        !is_array_table(t.fields@) ==> forall|k: int|
            0 <= k < t.fields@.len() ==> (t.fields@[k] matches Field::NameKey { key, value } ==> #[trigger] object_literal_props(
                spec_table_constructor(t),
            ).unwrap()[k] == (SpecProp { key: SpecPropName::Str(key@), value: spec_expression(value) })),
        !is_array_table(t.fields@) ==> forall|k: int|
            0 <= k < t.fields@.len() ==> (t.fields@[k] matches Field::ExpressionKey { key, value } ==> #[trigger] object_literal_props(
                spec_table_constructor(t),
            ).unwrap()[k] == (SpecProp {
                key: SpecPropName::Computed(Box::new(spec_expression(key))),
                value: spec_expression(value),
            })),
        !is_array_table(t.fields@) ==> forall|k: int|
            0 <= k < t.fields@.len() ==> (t.fields@[k] matches Field::NoKey(value) ==> #[trigger] object_literal_props(
                spec_table_constructor(t),
            ).unwrap()[k] == (SpecProp {
                key: SpecPropName::Num(no_key_count(t.fields@.take(k)) + 1),
                value: spec_expression(value),
            })),
{
}

/// Detects `unpack(t)`, which becomes the spread `...t`: for such a call, the
/// marker and the transformed argument; for any other expression, no marker
/// and the transformed expression.
fn get_unpack_data(element: &Expression) -> (r: (Option<()>, Expr))
    requires
        accepted_expression(*element),
        is_unpack_call(*element) ==> unpack_call_well_formed(*element),
    ensures
        r.0 is Some <==> is_unpack_call(*element),
        view_expr(r.1) == if is_unpack_call(*element) {
            spec_unpack_argument(*element)
        } else {
            spec_expression(*element)
        },
    decreases element, 1nat,
{
    if let Expression::Value { value, .. } = element {
        if let Value::FunctionCall(function_call) = &**value {
            if let Prefix::Name(token) = &function_call.prefix {
                if str_eq(token.as_str(), "unpack") {
                    proof {
                        assert(accepted_value(**value));
                        assert(accepted_function_call(*function_call));
                        assert(accepted_suffixes(function_call.suffixes@));
                        assert(accepted_suffix(function_call.suffixes@[0]));
                    }
                    if let Suffix::Call(Call::AnonymousCall(function_args)) = &function_call.suffixes[0] {
                        proof {
                            assert(accepted_call(Call::AnonymousCall(*function_args)));
                            assert(has_argument(*function_args));
                            assert(spec_function_args(*function_args).len() > 0);
                        }
                        let mut args = transform_function_args(function_args);
                        assert(view_args(args@).len() == args@.len());
                        assert(view_args(args@)[0] == view_arg(args@[0]));
                        let arg = args.remove(0);
                        return (Some(()), *arg.expr);
                    } else {
                        proof {
                            assert(false);
                        }
                        return vstd::pervasive::unreached();
                    }
                }
            }
        }
    }
    (None, *transform_expression(element))
}

/// Whether every field is positional.
pub(crate) fn all_no_key(fields: &Vec<Field>) -> (r: bool)
    ensures
        r == is_array_table(fields@),
{
    let mut i: usize = 0;
    while i < fields.len()
        invariant
            i <= fields@.len(),
            forall|k: int| 0 <= k < i ==> #[trigger] fields@[k] is NoKey,
        decreases fields@.len() - i,
    {
        match &fields[i] {
            Field::NoKey(_) => {},
            _ => {
                return false;
            },
        }
        i = i + 1;
    }
    true
}

fn transform_array_elements(fields: &Vec<Field>) -> (r: Vec<Option<ExprOrSpread>>)
    requires
        is_array_table(fields@),
        forall|i: int| 0 <= i < fields@.len() ==> accepted_field(#[trigger] fields@[i]),
        forall|i: int| 0 <= i < fields@.len() ==> array_element_accepted(#[trigger] fields@[i]),
    ensures
        view_opt_args(r@) == spec_array_elements(fields@),
    decreases fields, 0nat,
{
    let mut out: Vec<Option<ExprOrSpread>> = Vec::new();
    let mut i: usize = 0;
    while i < fields.len()
        invariant
            i <= fields@.len(),
            out@.len() == i,
            is_array_table(fields@),
            forall|i: int| 0 <= i < fields@.len() ==> accepted_field(#[trigger] fields@[i]),
            forall|i: int| 0 <= i < fields@.len() ==> array_element_accepted(#[trigger] fields@[i]),
            forall|k: int|
                0 <= k < i ==> view_opt_arg(#[trigger] out@[k]) == spec_array_elements(fields@)[k],
        decreases fields@.len() - i,
    {
        proof {
            assert(decreases_to!(*fields => fields[i as int]));
            assert(fields@[i as int] is NoKey);
            assert(accepted_field(fields@[i as int]));
            assert(array_element_accepted(fields@[i as int]));
        }
        if let Field::NoKey(element) = &fields[i] {
            let (spread, expression) = get_unpack_data(element);
            out.push(Some(ExprOrSpread { spread: spread.is_some(), expr: boxed(expression) }));
        } else {
            proof {
                assert(false);
            }
        }
        i = i + 1;
    }
    assert(view_opt_args(out@) =~= spec_array_elements(fields@));
    out
}

proof fn lemma_no_key_count_step(fields: Seq<Field>, i: int)
    requires
        0 <= i < fields.len(),
    ensures
        no_key_count(fields.take(i + 1)) == no_key_count(fields.take(i)) + if fields[i] is NoKey {
            1nat
        } else {
            0nat
        },
        no_key_count(fields.take(i)) <= i,
    decreases i,
{
    assert(fields.take(i + 1).drop_last() =~= fields.take(i));
    if i > 0 {
        lemma_no_key_count_step(fields, i - 1);
    } else {
        assert(fields.take(0) =~= Seq::<Field>::empty());
    }
}

fn transform_object_props(fields: &Vec<Field>) -> (r: Vec<KeyValueProp>)
    requires
        forall|i: int| 0 <= i < fields@.len() ==> accepted_field(#[trigger] fields@[i]),
    ensures
        view_props(r@) == spec_object_props(fields@),
    decreases fields, 0nat,
{
    let mut out: Vec<KeyValueProp> = Vec::new();
    let mut no_keys: usize = 0;
    let mut i: usize = 0;
    while i < fields.len()
        invariant
            i <= fields@.len(),
            out@.len() == i,
            no_keys == no_key_count(fields@.take(i as int)),
            no_keys <= i,
            forall|i: int| 0 <= i < fields@.len() ==> accepted_field(#[trigger] fields@[i]),
            forall|k: int| 0 <= k < i ==> view_prop(#[trigger] out@[k]) == spec_object_props(fields@)[k],
        decreases fields@.len() - i,
    {
        proof {
            assert(decreases_to!(*fields => fields[i as int]));
            assert(accepted_field(fields@[i as int]));
            lemma_no_key_count_step(fields@, i as int);
        }
        let prop = match &fields[i] {
            Field::NameKey { key, value } => KeyValueProp {
                key: PropName::Str(make_string(key.as_str())),
                value: transform_expression(value),
            },
            Field::ExpressionKey { key, value } => KeyValueProp {
                key: PropName::Computed(transform_expression(key)),
                value: transform_expression(value),
            },
            Field::NoKey(value) => {
                no_keys = no_keys + 1;
                KeyValueProp { key: PropName::Num(no_keys), value: transform_expression(value) }
            },
            Field::Other(source) => KeyValueProp {
                key: PropName::Ident(ident_str("UnknownTableField")),
                value: skip("Unknown Field kind", source.as_str()),
            },
        };
        out.push(prop);
        i = i + 1;
    }
    assert(view_props(out@) =~= spec_object_props(fields@));
    out
}

/// Transforms a table constructor: into an array when every field is
/// positional, into an object otherwise.
pub fn transform_table_constructor(args: &TableConstructor) -> (r: Expr)
    requires
        accepted_table(*args),
    ensures
        r@ == spec_table_constructor(*args),
    decreases args, 0nat,
{
    if all_no_key(&args.fields) {
        Expr::Array(transform_array_elements(&args.fields))
    } else {
        Expr::Object(transform_object_props(&args.fields))
    }
}

} // verus!
