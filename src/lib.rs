//! Execution core of an adapter interpreter: a stack machine that moves
//! values between invocation arguments, the exports of a wasm instance and
//! its linear memory.

pub mod errors;
pub mod instructions;
pub mod interpreter;
pub mod laws;
pub mod semantics;
pub mod stack;
pub mod text;
pub mod utf8;
pub mod values;
pub mod wasm;

pub use errors::{ErrorKind, InstructionError};
pub use instructions::Instruction;
pub use interpreter::Interpreter;
pub use stack::Stack;
pub use values::{InterfaceType, InterfaceValue};
