//! Luau statements to TypeScript statements.
pub mod transform_assignment;
pub mod transform_block;
pub mod transform_block_statements;
pub mod transform_compound_assignment;
pub mod transform_function_declaration;
pub mod transform_generic_for;
pub mod transform_if_statement;
pub mod transform_last_statement;
pub mod transform_local_assignment;
pub mod transform_local_function;
pub mod transform_module_block;
pub mod transform_numeric_for;
pub mod transform_statement;
pub mod transform_type_declaration;

pub use transform_assignment::transform_assignment;
pub use transform_block::transform_block;
pub use transform_block_statements::transform_block_statements;
pub use transform_compound_assignment::transform_compound_assignment;
pub use transform_function_declaration::transform_function_declaration;
pub use transform_generic_for::transform_generic_for;
pub use transform_if_statement::transform_if_statement;
pub use transform_last_statement::transform_last_statement;
pub use transform_local_assignment::transform_local_assignment;
pub use transform_local_function::transform_local_function;
pub use transform_module_block::transform_module_block;
pub use transform_numeric_for::transform_numeric_for;
pub use transform_statement::transform_statement;
