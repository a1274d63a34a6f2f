pub mod ast;
pub mod cache;
pub mod context;
pub mod engine;
pub mod semantics;
pub mod text;
pub mod value;
