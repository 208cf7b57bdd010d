use vstd::prelude::*;
use crate::lua::{TypeField, TypeFieldKey, TypeInfo};
use crate::ts::{view_type_element, view_type_elements, SpecType, SpecTypeElement, TsType, TsTypeElement};
use crate::types::transform_type::{spec_type, transform_type};
use crate::util::{ident, ident_str};

verus! {

/// A field `key: T` of a table type becomes the property `key: T`, optional
/// when `T` is an optional type; a field `[K]: T` becomes the index signature
/// `[_: K]: T`.
pub open spec fn spec_type_field(f: TypeField) -> SpecTypeElement
    decreases f,
{
    match f.key {
        TypeFieldKey::Name(name) => SpecTypeElement::Property {
            key: name@,
            optional: f.value is Optional,
            type_ann: spec_type(f.value),
        },
        TypeFieldKey::IndexSignature(inner) => SpecTypeElement::Index {
            param: "_"@,
            param_type: spec_type(inner),
            type_ann: spec_type(f.value),
        },
    }
}

pub open spec fn spec_type_fields(fields: Seq<TypeField>) -> Seq<SpecTypeElement>
    decreases fields,
{
    Seq::new(
        fields.len(),
        |i: int| if 0 <= i < fields.len() { spec_type_field(fields[i]) } else { arbitrary() },
    )
}

/// A table type has one member per field, in order: a named field is a
/// property of that name, of the field's type, optional exactly when that
/// type is optional; an indexer `[K]: V` is an index signature from `K` to
/// `V`.
pub proof fn lemma_table_type_members(fields: Seq<TypeField>)
    ensures
        spec_type_fields(fields).len() == fields.len(),
        forall|k: int|
            0 <= k < fields.len() ==> (fields[k].key matches TypeFieldKey::Name(name) ==> #[trigger] spec_type_fields(
                fields,
            )[k] == (SpecTypeElement::Property {
                key: name@,
                optional: fields[k].value is Optional,
                type_ann: spec_type(fields[k].value),
            })),
        forall|k: int|
            0 <= k < fields.len() ==> (fields[k].key matches TypeFieldKey::IndexSignature(inner) ==> #[trigger] spec_type_fields(
                fields,
            )[k] == (SpecTypeElement::Index {
                param: "_"@,
                param_type: spec_type(inner),
                type_ann: spec_type(fields[k].value),
            })),
{
}

/// The TypeScript type literal of a Luau table type.
pub open spec fn spec_table_type(fields: Seq<TypeField>) -> SpecType {
    SpecType::TypeLit(spec_type_fields(fields))
}

/// Transforms the fields of a Luau table type into a TypeScript type literal.
pub fn transform_table_type(fields: &Vec<TypeField>) -> (r: TsType)
    ensures
        r@ == spec_table_type(fields@),
    decreases fields,
{
    let mut members: Vec<TsTypeElement> = Vec::new();
    let mut i: usize = 0;
    while i < fields.len()
        invariant
            i <= fields@.len(),
            members@.len() == i,
            forall|k: int|
                0 <= k < i ==> view_type_element(#[trigger] members@[k]) == spec_type_field(
                    fields@[k],
                ),
        decreases fields@.len() - i,
    {
        proof {
            assert(decreases_to!(*fields => fields[i as int]));
        }
        let field = &fields[i];
        let member = match &field.key {
            TypeFieldKey::Name(name) => {
                let optional = match &field.value {
                    TypeInfo::Optional { .. } => true,
                    _ => false,
                };
                TsTypeElement::Property {
                    key: ident(name.clone()),
                    optional,
                    type_ann: transform_type(&field.value),
                }
            },
            TypeFieldKey::IndexSignature(inner) => TsTypeElement::Index {
                param: ident_str("_"),
                param_type: transform_type(inner),
                type_ann: transform_type(&field.value),
            },
        };
        members.push(member);
        i = i + 1;
    }
    assert(view_type_elements(members@) =~= spec_type_fields(fields@));
    TsType::TypeLit(members)
}

} // verus!
