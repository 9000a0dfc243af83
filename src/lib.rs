//! Loads compiled bytecode images and runs them on a stack machine.
//!
//! `stream` reads bytes, `marshal` rebuilds the serialized object graph with its
//! back-reference table, `object` holds the value model, and `frame` and `interpreter`
//! execute the instructions. Every executable function states its behaviour in its
//! contract over the models in `object`, `frame` and `interpreter`.

pub mod code;
pub mod decimal;
pub mod error;
pub mod frame;
pub mod interpreter;
pub mod magic;
pub mod marshal;
pub mod namespace;
pub mod object;
pub mod opcode;
pub mod ops;
pub mod render;
pub mod stream;
