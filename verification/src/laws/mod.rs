//! What the operations promise, said of their inputs and results alone.
pub mod choice;
pub mod command;
pub mod devices;
pub mod interface;
pub mod keys;
pub mod protocol;
pub mod storage;
pub mod text;
pub mod wire;
