//! Luau expressions to TypeScript expressions.
pub mod transform_binary;
pub mod transform_call;
pub mod transform_expression;
pub mod transform_function_args;
pub mod transform_function_call;
pub mod transform_function_params;
pub mod transform_if_expression;
pub mod transform_index;
pub mod transform_number;
pub mod transform_prefix_suffixes;
pub mod transform_string;
pub mod transform_table_constructor;
pub mod transform_unary;
pub mod transform_value;
pub mod transform_var;

pub use transform_binary::transform_binary_expression;
pub use transform_call::transform_call;
pub use transform_expression::transform_expression;
pub use transform_function_args::transform_function_args;
pub use transform_function_call::transform_function_call;
pub use transform_function_params::transform_function_params;
pub use transform_if_expression::transform_if_expression;
pub use transform_index::transform_index;
pub use transform_number::transform_number;
pub use transform_prefix_suffixes::transform_prefix_suffixes;
pub use transform_string::transform_string;
pub use transform_table_constructor::transform_table_constructor;
pub use transform_unary::transform_unary_expression;
pub use transform_value::transform_value;
pub use transform_var::transform_var;
