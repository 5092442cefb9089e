//! What the operations of the library promise, said of their inputs and results
//! directly.
//!
//! The contracts of the library speak through spec functions that say how a
//! result comes about. The laws here say what must hold of it, so that a reader
//! can hold them against the purpose of each operation.

pub mod composed;
pub mod create_tool;
pub mod gemini;
pub mod hardware;
pub mod mcp;
pub mod persona;
pub mod serial;
pub mod stored;
pub mod values;
pub mod views;
