//! The closed instruction set: opcode numbering and operand counts.
use vstd::prelude::*;

verus! {

/// One of the 22 operations of the machine.
#[derive(Debug, Clone, Copy, PartialEq, Eq, Structural)]
pub enum Inst {
    Halt,
    SetReg,
    Push,
    Pop,
    Equal,
    Greater,
    Jump,
    JumpIfTrue,
    JumpIfFalse,
    Add,
    Mult,
    Mod,
    And,
    Or,
    Not,
    ReadMem,
    WriteMem,
    Call,
    Ret,
    Out,
    In,
    Noop,
}

/// The instruction whose opcode is `w`, if there is one.
pub open spec fn decode(w: u16) -> Option<Inst> {
    match w {
        0 => Some(Inst::Halt),
        1 => Some(Inst::SetReg),
        2 => Some(Inst::Push),
        3 => Some(Inst::Pop),
        4 => Some(Inst::Equal),
        5 => Some(Inst::Greater),
        6 => Some(Inst::Jump),
        7 => Some(Inst::JumpIfTrue),
        8 => Some(Inst::JumpIfFalse),
        9 => Some(Inst::Add),
        10 => Some(Inst::Mult),
        11 => Some(Inst::Mod),
        12 => Some(Inst::And),
        13 => Some(Inst::Or),
        14 => Some(Inst::Not),
        15 => Some(Inst::ReadMem),
        16 => Some(Inst::WriteMem),
        17 => Some(Inst::Call),
        18 => Some(Inst::Ret),
        19 => Some(Inst::Out),
        20 => Some(Inst::In),
        21 => Some(Inst::Noop),
        _ => None,
    }
}

/// Number of operand words that follow the opcode word.
pub open spec fn operand_count(i: Inst) -> nat {
    match i {
        Inst::Halt | Inst::Ret | Inst::Noop => 0,
        Inst::Push | Inst::Pop | Inst::Jump | Inst::Call | Inst::Out | Inst::In => 1,
        Inst::SetReg | Inst::JumpIfTrue | Inst::JumpIfFalse | Inst::Not | Inst::ReadMem
        | Inst::WriteMem => 2,
        Inst::Equal | Inst::Greater | Inst::Add | Inst::Mult | Inst::Mod | Inst::And
        | Inst::Or => 3,
    }
}

/// The instructions of the form `r := a op b`.
pub open spec fn is_binary(i: Inst) -> bool {
    operand_count(i) == 3
}

impl Inst {
    /// Decodes an opcode word; `None` for any value outside the table.
    pub fn from_u16(w: u16) -> (r: Option<Inst>)
        ensures
            r == decode(w),
            r is None <==> w >= 22,
    {
        match w {
            0 => Some(Inst::Halt),
            1 => Some(Inst::SetReg),
            2 => Some(Inst::Push),
            3 => Some(Inst::Pop),
            4 => Some(Inst::Equal),
            5 => Some(Inst::Greater),
            6 => Some(Inst::Jump),
            7 => Some(Inst::JumpIfTrue),
            8 => Some(Inst::JumpIfFalse),
            9 => Some(Inst::Add),
            10 => Some(Inst::Mult),
            11 => Some(Inst::Mod),
            12 => Some(Inst::And),
            13 => Some(Inst::Or),
            14 => Some(Inst::Not),
            15 => Some(Inst::ReadMem),
            16 => Some(Inst::WriteMem),
            17 => Some(Inst::Call),
            18 => Some(Inst::Ret),
            19 => Some(Inst::Out),
            20 => Some(Inst::In),
            21 => Some(Inst::Noop),
            _ => None,
        }
    }

    /// Number of operand words of this instruction.
    pub fn arity(&self) -> (n: usize)
        ensures
            n == operand_count(*self),
    {
        match self {
            Inst::Halt | Inst::Ret | Inst::Noop => 0,
            Inst::Push | Inst::Pop | Inst::Jump | Inst::Call | Inst::Out | Inst::In => 1,
            Inst::SetReg | Inst::JumpIfTrue | Inst::JumpIfFalse | Inst::Not | Inst::ReadMem
            | Inst::WriteMem => 2,
            Inst::Equal | Inst::Greater | Inst::Add | Inst::Mult | Inst::Mod | Inst::And
            | Inst::Or => 3,
        }
    }
}

} // verus!
