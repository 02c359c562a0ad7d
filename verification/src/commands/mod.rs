//! Chat commands: the registry, the parser and the executor.

pub mod registry;
pub mod executor;
pub mod parser;
