//! A verified transformation of Luau syntax trees into TypeScript syntax
//! trees, and of Roblox models into TypeScript interfaces.
pub mod acceptance;
pub mod accepted;
pub mod driver;
pub mod expressions;
pub mod let_bindings;
pub mod lua;
pub mod parsing;
pub mod roblox;
pub mod statements;
pub mod text;
pub mod ts;
pub mod types;
pub mod util;
