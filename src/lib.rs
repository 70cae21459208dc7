//! A virtual machine for a closed 16-bit-word instruction set: an address space
//! of 32768 words, eight registers, an unbounded stack and 22 opcodes.
pub mod error;
pub mod isa;
pub mod model;
pub mod vm;
pub mod image;
pub mod laws;

pub use error::{Step, VmError};
pub use isa::Inst;
pub use vm::VM;
