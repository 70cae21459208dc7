//! The machine as a mathematical state, and what one instruction does to it.
use vstd::prelude::*;
use crate::error::{Step, VmError};
use crate::isa::{decode, is_binary, operand_count, Inst};

verus! {

/// Number of words in the address space.
pub const MEM_SIZE: usize = 32768;

/// Number of registers.
pub const NUM_REGS: usize = 8;

/// The whole state of the machine.
pub struct Machine {
    pub mem: Seq<u16>,
    pub regs: Seq<u16>,
    pub stack: Seq<u16>,
    pub pc: usize,
    pub input: Seq<u8>,
}

impl Machine {
    /// Memory and registers have their fixed sizes, registers hold 15-bit
    /// values, the stack holds at most addresses one past the end of memory,
    /// and the program counter is within memory or just past it.
    pub open spec fn wf(self) -> bool {
        &&& self.mem.len() == MEM_SIZE
        &&& self.regs.len() == NUM_REGS
        &&& forall|i: int| 0 <= i < NUM_REGS ==> #[trigger] self.regs[i] < 32768
        &&& forall|i: int| 0 <= i < self.stack.len() ==> #[trigger] self.stack[i] <= MEM_SIZE
        &&& self.pc <= MEM_SIZE
    }

    /// The same state with the program counter at `pc`.
    pub open spec fn at(self, pc: usize) -> Machine {
        Machine { pc, ..self }
    }

    /// The `k`-th word after the opcode word.
    pub open spec fn operand(self, k: int) -> u16 {
        self.mem[self.pc + k]
    }

    /// The state with the program counter past instruction `i`.
    pub open spec fn after(self, i: Inst) -> Machine {
        Machine { pc: (self.pc + 1 + operand_count(i)) as usize, ..self }
    }

    /// Register `raw` set to `v` modulo 32768.
    pub open spec fn set_reg(self, raw: u16, v: int) -> Machine {
        Machine { regs: self.regs.update(raw - 32768, (v % 32768) as u16), ..self }
    }
}

/// True when `raw` names one of the eight registers.
pub open spec fn is_register(raw: u16) -> bool {
    32768 <= raw && raw < 32776
}

/// An operand read as a value: a literal stands for itself, a register
/// reference for the register's content.
pub open spec fn value_of(regs: Seq<u16>, raw: u16) -> Option<u16> {
    if raw < 32768 {
        Some(raw)
    } else if raw < 32776 {
        Some(regs[raw - 32768])
    } else {
        None
    }
}

/// An operand read as a jump target: a literal is the address itself, a
/// register reference gives the address held in the register.
pub open spec fn address_of(regs: Seq<u16>, raw: u16) -> Option<u16> {
    if raw < 32768 {
        Some(raw)
    } else if raw < 32776 {
        Some(regs[raw - 32768])
    } else {
        None
    }
}

/// Whether a step outcome moves the program counter on (the instruction took effect).
pub open spec fn moves(r: Result<Step, VmError>) -> bool {
    match r {
        Ok(Step::Running) => true,
        Ok(Step::Output(_)) => true,
        _ => false,
    }
}

/// The result written by `r := a op b`.
pub open spec fn binary_value(i: Inst, a: u16, b: u16) -> u16 {
    match i {
        Inst::Equal => if a == b { 1 } else { 0 },
        Inst::Greater => if a > b { 1 } else { 0 },
        Inst::Add => ((a + b) % 32768) as u16,
        Inst::Mult => ((a * b) % 32768) as u16,
        Inst::Mod => (a % b) as u16,
        Inst::And => a & b,
        Inst::Or => a | b,
        _ => 0,
    }
}

/// Bitwise negation kept to 15 bits.
pub open spec fn not15(a: u16) -> u16 {
    (!a) & 0x7fff
}

/// Fails on operand word `w`, changing nothing.
pub open spec fn bad_operand(m: Machine, w: u16) -> (Machine, Result<Step, VmError>) {
    (m, Err(VmError::InvalidOperand { pc: m.pc, word: w }))
}

/// Fails on destination word `w`, changing nothing.
pub open spec fn bad_destination(m: Machine, w: u16) -> (Machine, Result<Step, VmError>) {
    (m, Err(VmError::InvalidDestination { pc: m.pc, word: w }))
}

/// `r := a op b` for the binary instructions.
pub open spec fn exec_binary(m: Machine, i: Inst) -> (Machine, Result<Step, VmError>) {
    let d = m.operand(1);
    match value_of(m.regs, m.operand(2)) {
        None => bad_operand(m, m.operand(2)),
        Some(a) => match value_of(m.regs, m.operand(3)) {
            None => bad_operand(m, m.operand(3)),
            Some(b) => if i == Inst::Mod && b == 0 {
                (m, Err(VmError::DivisionByZero { pc: m.pc }))
            } else if !is_register(d) {
                bad_destination(m, d)
            } else {
                (m.after(i).set_reg(d, binary_value(i, a, b) as int), Ok(Step::Running))
            },
        },
    }
}

/// SET, NOT and RMEM: `r := f(a)`.
pub open spec fn exec_unary(m: Machine, i: Inst) -> (Machine, Result<Step, VmError>) {
    let d = m.operand(1);
    match value_of(m.regs, m.operand(2)) {
        None => bad_operand(m, m.operand(2)),
        Some(a) => if !is_register(d) {
            bad_destination(m, d)
        } else {
            let v: int = match i {
                Inst::Not => not15(a) as int,
                Inst::ReadMem => m.mem[a as int] as int,
                _ => a as int,
            };
            (m.after(i).set_reg(d, v), Ok(Step::Running))
        },
    }
}

/// JMP, JT, JF and CALL.
pub open spec fn exec_jump(m: Machine, i: Inst) -> (Machine, Result<Step, VmError>) {
    match i {
        Inst::JumpIfTrue | Inst::JumpIfFalse => match value_of(m.regs, m.operand(1)) {
            None => bad_operand(m, m.operand(1)),
            Some(a) => match address_of(m.regs, m.operand(2)) {
                None => bad_operand(m, m.operand(2)),
                Some(t) => if (a != 0) == (i == Inst::JumpIfTrue) {
                    (m.at(t as usize), Ok(Step::Running))
                } else {
                    (m.after(i), Ok(Step::Running))
                },
            },
        },
        _ => match address_of(m.regs, m.operand(1)) {
            None => bad_operand(m, m.operand(1)),
            Some(t) => if i == Inst::Call {
                let ret = (m.pc + 2) as u16;
                (Machine { stack: m.stack.push(ret), ..m.at(t as usize) }, Ok(Step::Running))
            } else {
                (m.at(t as usize), Ok(Step::Running))
            },
        },
    }
}

/// The instructions that use the stack or the outside world, and the rest.
pub open spec fn exec_other(m: Machine, i: Inst) -> (Machine, Result<Step, VmError>) {
    match i {
        Inst::Push => match value_of(m.regs, m.operand(1)) {
            None => bad_operand(m, m.operand(1)),
            Some(a) => (Machine { stack: m.stack.push(a), ..m.after(i) }, Ok(Step::Running)),
        },
        Inst::Pop => if m.stack.len() == 0 {
            (m, Err(VmError::StackUnderflow { pc: m.pc }))
        } else if !is_register(m.operand(1)) {
            bad_destination(m, m.operand(1))
        } else {
            (
                Machine { stack: m.stack.drop_last(), ..m.after(i) }.set_reg(
                    m.operand(1),
                    m.stack.last() as int,
                ),
                Ok(Step::Running),
            )
        },
        Inst::Ret => if m.stack.len() == 0 {
            (m, Ok(Step::Halted))
        } else {
            (Machine { stack: m.stack.drop_last(), ..m.at(m.stack.last() as usize) }, Ok(Step::Running))
        },
        Inst::WriteMem => match value_of(m.regs, m.operand(1)) {
            None => bad_operand(m, m.operand(1)),
            Some(a) => match value_of(m.regs, m.operand(2)) {
                None => bad_operand(m, m.operand(2)),
                Some(b) => (Machine { mem: m.mem.update(a as int, b), ..m.after(i) }, Ok(Step::Running)),
            },
        },
        Inst::Out => match value_of(m.regs, m.operand(1)) {
            None => bad_operand(m, m.operand(1)),
            Some(a) => (m.after(i), Ok(Step::Output((a % 256) as u8))),
        },
        Inst::In => if m.input.len() == 0 {
            (m, Ok(Step::NeedInput))
        } else if !is_register(m.operand(1)) {
            bad_destination(m, m.operand(1))
        } else {
            (
                Machine { input: m.input.drop_first(), ..m.after(i) }.set_reg(
                    m.operand(1),
                    m.input[0] as int,
                ),
                Ok(Step::Running),
            )
        },
        Inst::Noop => (m.after(i), Ok(Step::Running)),
        _ => (m, Ok(Step::Halted)),
    }
}

/// What instruction `i`, whose opcode word is at `m.pc`, does to `m`.
pub open spec fn exec_inst(m: Machine, i: Inst) -> (Machine, Result<Step, VmError>) {
    if is_binary(i) {
        exec_binary(m, i)
    } else if i == Inst::SetReg || i == Inst::Not || i == Inst::ReadMem {
        exec_unary(m, i)
    } else if i == Inst::Jump || i == Inst::JumpIfTrue || i == Inst::JumpIfFalse || i == Inst::Call {
        exec_jump(m, i)
    } else {
        exec_other(m, i)
    }
}

/// One step of the machine: the new state and what the step reports.
/// A step that fails, halts or waits for input leaves the state as it was.
pub open spec fn next(m: Machine) -> (Machine, Result<Step, VmError>) {
    if m.pc >= MEM_SIZE {
        (m, Ok(Step::Halted))
    } else {
        match decode(m.mem[m.pc as int]) {
            None => (m, Err(VmError::InvalidOpcode { pc: m.pc, word: m.mem[m.pc as int] })),
            Some(i) => if m.pc + 1 + operand_count(i) > MEM_SIZE {
                (m, Ok(Step::Halted))
            } else {
                exec_inst(m, i)
            },
        }
    }
}

/// At most `fuel` steps, stopping at the first that does not report
/// `Running`: the state then, and that step's report (`None` when the fuel
/// ran out first).
pub open spec fn run_for(m: Machine, fuel: nat) -> (Machine, Option<Result<Step, VmError>>)
    decreases fuel,
{
    if fuel == 0 {
        (m, None)
    } else {
        let (m1, r) = next(m);
        if r == Ok::<Step, VmError>(Step::Running) {
            run_for(m1, (fuel - 1) as nat)
        } else {
            (m1, Some(r))
        }
    }
}

/// The state with `bytes` added to the pending input.
pub open spec fn with_input(m: Machine, bytes: Seq<u8>) -> Machine {
    Machine { input: m.input + bytes, ..m }
}

} // verus!
