//! Luau types to TypeScript types.
pub mod transform_table_type;
pub mod transform_type;
pub mod transform_type_declaration;
pub mod transform_type_generic;
pub mod transform_type_info;
pub mod transform_type_specifier;

pub use transform_table_type::transform_table_type;
pub use transform_type::transform_type;
pub use transform_type_declaration::transform_type_declaration;
pub use transform_type_generic::transform_type_generic;
pub use transform_type_info::transform_type_info;
pub use transform_type_specifier::transform_type_specifier;
