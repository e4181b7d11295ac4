//! The command that wraps a key and writes the payload to a file.
pub mod arguments;
pub mod delete;
pub mod order;
pub mod run;
pub mod service;
