use vstd::prelude::*;
use crate::lua::TypeInfo;
use crate::ts::TsType;
use crate::types::transform_type::spec_type;
use crate::types::transform_type_info::transform_type_info;

verus! {

/// The type annotation for a type specifier (`: T` after a name); the
/// specifier is given by its type.
pub fn transform_type_specifier(type_specifier: &TypeInfo) -> (r: Box<TsType>)
    ensures
        r@ == spec_type(*type_specifier),
{
    transform_type_info(type_specifier)
}

} // verus!
