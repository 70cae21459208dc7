//! Outcomes of a step and the failures of a run.
use vstd::prelude::*;

verus! {

/// What a step of the machine asks of its surroundings.
#[derive(Debug, Clone, Copy, PartialEq, Eq, Structural)]
pub enum Step {
    /// An instruction ran; the machine can go on.
    Running,
    /// An OUT instruction ran and emits this byte.
    Output(u8),
    /// An IN instruction waits for input; nothing changed.
    NeedInput,
    /// The machine stopped: HALT, RET on an empty stack, or the end of memory.
    Halted,
}

/// A fatal failure, with the address of the offending instruction.
#[derive(Debug, Clone, Copy, PartialEq, Eq, Structural)]
pub enum VmError {
    /// The image has an odd number of bytes.
    MalformedImage { len: usize },
    /// The image holds more words than the address space.
    ImageTooLarge { words: usize },
    /// The word at `pc` is not an opcode.
    InvalidOpcode { pc: usize, word: u16 },
    /// An operand is neither a literal nor a register reference.
    InvalidOperand { pc: usize, word: u16 },
    /// A destination operand is not a register reference.
    InvalidDestination { pc: usize, word: u16 },
    /// MOD with a zero divisor.
    DivisionByZero { pc: usize },
    /// POP on an empty stack.
    StackUnderflow { pc: usize },
}

} // verus!
