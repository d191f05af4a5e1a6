//! Reads the description of a hierarchical state machine from the syntax tree
//! of a Rust source file that implements the `TopState` and `State<Tag>` traits.
pub mod errors;
pub mod model;
pub mod syntax;
pub mod parser;
pub mod rust_source;
