use vstd::prelude::*;
use crate::lua::TypeInfo;
use crate::ts::TsType;
use crate::types::transform_type::{spec_type, transform_type};

verus! {

/// The type annotation `: T` for a Luau type.
pub fn transform_type_info(type_info: &TypeInfo) -> (r: Box<TsType>)
    ensures
        r@ == spec_type(*type_info),
{
    transform_type(type_info)
}

} // verus!
