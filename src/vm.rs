//! The executable machine and its fetch/decode/execute step.
use vstd::prelude::*;
use crate::error::{Step, VmError};
use crate::isa::{is_binary, operand_count, Inst};
use crate::model::{
    address_of, exec_binary, exec_inst, exec_jump, exec_other, exec_unary, is_register, moves,
    next, run_for, value_of, with_input, Machine, MEM_SIZE,
};

verus! {

/// The machine: address space, register bank, stack, program counter and
/// the input characters not yet consumed by IN.
pub struct VM {
    pub memory: Vec<u16>,
    pub regs: Vec<u16>,
    pub stack: Vec<u16>,
    pub pc: usize,
    pub input: Vec<u8>,
}

impl View for VM {
    type V = Machine;

    open spec fn view(&self) -> Machine {
        Machine {
            mem: self.memory@,
            regs: self.regs@,
            stack: self.stack@,
            pc: self.pc,
            input: self.input@,
        }
    }
}

/// What a handler leaves behind: the reported outcome is the model's, a
/// state that moved on is the model's, and any other leaves the data alone.
pub open spec fn handled(
    pre: Machine,
    out: (Machine, Result<Step, VmError>),
    post: Machine,
    r: Result<Step, VmError>,
) -> bool {
    &&& r == out.1
    &&& moves(r) ==> post == out.0
    &&& !moves(r) ==> post.at(pre.pc) == pre
    &&& post.wf()
}

impl VM {
    /// The machine's state is well formed (see `Machine::wf`).
    pub open spec fn wf(&self) -> bool {
        self@.wf()
    }

    /// Resolves a value operand: a literal is itself, a register reference
    /// reads the register, anything else is `None`.
    pub fn read_reg(&self, r: u16) -> (v: Option<u16>)
        requires
            self.wf(),
        ensures
            v == value_of(self.regs@, r),
            v matches Some(x) ==> x < 32768,
    {
        if r < 32768 {
            Some(r)
        } else if r < 32776 {
            Some(self.regs[(r - 32768) as usize])
        } else {
            None
        }
    }

    /// Writes `value` modulo 32768 into the register that `r` names; returns
    /// false, and writes nothing, when `r` is not a register reference.
    pub fn write_reg(&mut self, r: u16, value: u16) -> (ok: bool)
        requires
            old(self).wf(),
        ensures
            ok == is_register(r),
            ok ==> final(self)@ == old(self)@.set_reg(r, value as int),
            !ok ==> final(self)@ == old(self)@,
            final(self).wf(),
    {
        if 32768 <= r && r < 32776 {
            self.regs.set((r - 32768) as usize, value % 32768);
            true
        } else {
            false
        }
    }

    /// Resolves a jump target: a literal is the address, a register
    /// reference gives the address it holds, anything else is `None`.
    pub fn read_addr(&self, addr: u16) -> (a: Option<usize>)
        requires
            self.wf(),
        ensures
            a is Some <==> address_of(self.regs@, addr) is Some,
            a matches Some(t) ==> address_of(self.regs@, addr) == Some(t as u16) && t < MEM_SIZE,
    {
        if addr < 32768 {
            Some(addr as usize)
        } else if addr < 32776 {
            Some(self.regs[(addr - 32768) as usize] as usize)
        } else {
            None
        }
    }

    /// Fetches the word at the program counter and moves past it.
    pub fn next_u16(&mut self) -> (w: u16)
        requires
            old(self).wf(),
            old(self).pc < MEM_SIZE,
        ensures
            w == old(self).memory@[old(self).pc as int],
            final(self)@ == old(self)@.at((old(self).pc + 1) as usize),
            final(self).wf(),
    {
        let w = self.memory[self.pc];
        self.pc = self.pc + 1;
        assert(self@.regs == old(self)@.regs && self@.stack == old(self)@.stack);
        w
    }

    /// `r := a op b` for EQ, GT, ADD, MULT, MOD, AND and OR.
    fn run_binary(&mut self, inst: Inst, start: usize) -> (r: Result<Step, VmError>)
        requires
            old(self).wf(),
            is_binary(inst),
            old(self).pc == start + 1,
            start + 4 <= MEM_SIZE,
        ensures
            handled(old(self)@.at(start), exec_binary(old(self)@.at(start), inst), final(self)@, r),
    {
        let d = self.next_u16();
        let a_raw = self.next_u16();
        let b_raw = self.next_u16();
        let a = match self.read_reg(a_raw) {
            Some(v) => v,
            None => return Err(VmError::InvalidOperand { pc: start, word: a_raw }),
        };
        let b = match self.read_reg(b_raw) {
            Some(v) => v,
            None => return Err(VmError::InvalidOperand { pc: start, word: b_raw }),
        };
        if inst == Inst::Mod && b == 0 {
            return Err(VmError::DivisionByZero { pc: start });
        }
        let v: u16 = match inst {
            Inst::Equal => if a == b { 1 } else { 0 },
            Inst::Greater => if a > b { 1 } else { 0 },
            Inst::Add => ((a as u32 + b as u32) % 32768) as u16,
            Inst::Mult => {
                assert((a as u32) * (b as u32) < 0x4000_0000) by (nonlinear_arith)
                    requires a < 32768, b < 32768;
                ((a as u32 * b as u32) % 32768) as u16
            },
            Inst::Mod => a % b,
            Inst::And => a & b,
            Inst::Or => a | b,
            _ => 0,
        };
        if self.write_reg(d, v) {
            Ok(Step::Running)
        } else {
            Err(VmError::InvalidDestination { pc: start, word: d })
        }
    }

    /// SET, NOT and RMEM: `r := f(a)`.
    fn run_unary(&mut self, inst: Inst, start: usize) -> (r: Result<Step, VmError>)
        requires
            old(self).wf(),
            inst == Inst::SetReg || inst == Inst::Not || inst == Inst::ReadMem,
            old(self).pc == start + 1,
            start + 3 <= MEM_SIZE,
        ensures
            handled(old(self)@.at(start), exec_unary(old(self)@.at(start), inst), final(self)@, r),
    {
        let d = self.next_u16();
        let a_raw = self.next_u16();
        let a = match self.read_reg(a_raw) {
            Some(v) => v,
            None => return Err(VmError::InvalidOperand { pc: start, word: a_raw }),
        };
        let v: u16 = match inst {
            Inst::Not => !a & 0x7fff,
            Inst::ReadMem => self.memory[a as usize],
            _ => a,
        };
        if self.write_reg(d, v) {
            Ok(Step::Running)
        } else {
            Err(VmError::InvalidDestination { pc: start, word: d })
        }
    }

    /// JMP, JT, JF and CALL.
    fn run_jump(&mut self, inst: Inst, start: usize) -> (r: Result<Step, VmError>)
        requires
            old(self).wf(),
            inst == Inst::Jump || inst == Inst::JumpIfTrue || inst == Inst::JumpIfFalse
                || inst == Inst::Call,
            old(self).pc == start + 1,
            start + 1 + operand_count(inst) <= MEM_SIZE,
        ensures
            handled(old(self)@.at(start), exec_jump(old(self)@.at(start), inst), final(self)@, r),
    {
        if inst == Inst::JumpIfTrue || inst == Inst::JumpIfFalse {
            let a_raw = self.next_u16();
            let t_raw = self.next_u16();
            let a = match self.read_reg(a_raw) {
                Some(v) => v,
                None => return Err(VmError::InvalidOperand { pc: start, word: a_raw }),
            };
            let t = match self.read_addr(t_raw) {
                Some(t) => t,
                None => return Err(VmError::InvalidOperand { pc: start, word: t_raw }),
            };
            if (a != 0) == (inst == Inst::JumpIfTrue) {
                self.pc = t;
            }
            Ok(Step::Running)
        } else {
            let t_raw = self.next_u16();
            let t = match self.read_addr(t_raw) {
                Some(t) => t,
                None => return Err(VmError::InvalidOperand { pc: start, word: t_raw }),
            };
            if inst == Inst::Call {
                self.stack.push((start + 2) as u16);
            }
            self.pc = t;
            Ok(Step::Running)
        }
    }

    /// PUSH, POP, RET, WMEM, OUT, IN, NOOP and HALT.
    fn run_other(&mut self, inst: Inst, start: usize) -> (r: Result<Step, VmError>)
        requires
            old(self).wf(),
            !is_binary(inst),
            inst != Inst::SetReg && inst != Inst::Not && inst != Inst::ReadMem,
            inst != Inst::Jump && inst != Inst::JumpIfTrue && inst != Inst::JumpIfFalse
                && inst != Inst::Call,
            old(self).pc == start + 1,
            start + 1 + operand_count(inst) <= MEM_SIZE,
        ensures
            handled(old(self)@.at(start), exec_other(old(self)@.at(start), inst), final(self)@, r),
    {
        match inst {
            Inst::Push => {
                let a_raw = self.next_u16();
                match self.read_reg(a_raw) {
                    Some(a) => {
                        self.stack.push(a);
                        Ok(Step::Running)
                    },
                    None => Err(VmError::InvalidOperand { pc: start, word: a_raw }),
                }
            },
            Inst::Pop => {
                let d = self.next_u16();
                if self.stack.len() == 0 {
                    return Err(VmError::StackUnderflow { pc: start });
                }
                let v = self.stack[self.stack.len() - 1];
                if self.write_reg(d, v) {
                    self.stack.pop();
                    assert(self.stack@ =~= old(self).stack@.drop_last());
                    Ok(Step::Running)
                } else {
                    Err(VmError::InvalidDestination { pc: start, word: d })
                }
            },
            Inst::Ret => {
                match self.stack.pop() {
                    Some(t) => {
                        self.pc = t as usize;
                        assert(self.stack@ =~= old(self).stack@.drop_last());
                        Ok(Step::Running)
                    },
                    None => Ok(Step::Halted),
                }
            },
            Inst::WriteMem => {
                let a_raw = self.next_u16();
                let b_raw = self.next_u16();
                let a = match self.read_reg(a_raw) {
                    Some(v) => v,
                    None => return Err(VmError::InvalidOperand { pc: start, word: a_raw }),
                };
                let b = match self.read_reg(b_raw) {
                    Some(v) => v,
                    None => return Err(VmError::InvalidOperand { pc: start, word: b_raw }),
                };
                self.memory.set(a as usize, b);
                Ok(Step::Running)
            },
            Inst::Out => {
                let a_raw = self.next_u16();
                match self.read_reg(a_raw) {
                    Some(a) => Ok(Step::Output((a % 256) as u8)),
                    None => Err(VmError::InvalidOperand { pc: start, word: a_raw }),
                }
            },
            Inst::In => {
                let d = self.next_u16();
                if self.input.len() == 0 {
                    return Ok(Step::NeedInput);
                }
                if !(32768 <= d && d < 32776) {
                    return Err(VmError::InvalidDestination { pc: start, word: d });
                }
                let c = self.input.remove(0);
                assert(self.input@ =~= old(self).input@.drop_first());
                self.write_reg(d, c as u16);
                Ok(Step::Running)
            },
            Inst::Noop => Ok(Step::Running),
            _ => Ok(Step::Halted),
        }
    }

    /// Executes `inst`, whose opcode word is at `start`, with the program
    /// counter just past that word.
    pub fn run_instruction(&mut self, inst: Inst, start: usize) -> (r: Result<Step, VmError>)
        requires
            old(self).wf(),
            old(self).pc == start + 1,
            start + 1 + operand_count(inst) <= MEM_SIZE,
        ensures
            handled(old(self)@.at(start), exec_inst(old(self)@.at(start), inst), final(self)@, r),
    {
        if inst.arity() == 3 {
            self.run_binary(inst, start)
        } else if inst == Inst::SetReg || inst == Inst::Not || inst == Inst::ReadMem {
            self.run_unary(inst, start)
        } else if inst == Inst::Jump || inst == Inst::JumpIfTrue || inst == Inst::JumpIfFalse
            || inst == Inst::Call {
            self.run_jump(inst, start)
        } else {
            self.run_other(inst, start)
        }
    }

    /// Fetches, decodes and executes one instruction. A step that fails,
    /// halts or waits for input leaves the machine exactly as it was.
    pub fn step(&mut self) -> (r: Result<Step, VmError>)
        requires
            old(self).wf(),
        ensures
            final(self).wf(),
            (final(self)@, r) == next(old(self)@),
    {
        let start = self.pc;
        if start >= MEM_SIZE {
            return Ok(Step::Halted);
        }
        let word = self.memory[start];
        let inst = match Inst::from_u16(word) {
            Some(i) => i,
            None => return Err(VmError::InvalidOpcode { pc: start, word }),
        };
        if start + 1 + inst.arity() > MEM_SIZE {
            return Ok(Step::Halted);
        }
        self.pc = start + 1;
        assert(self@ == old(self)@.at(self.pc));
        let r = self.run_instruction(inst, start);
        match r {
            Ok(Step::Running) | Ok(Step::Output(_)) => {},
            _ => self.pc = start,
        }
        r
    }

    /// Runs until a step reports something other than `Running`, for at
    /// most `fuel` steps; `None` when the fuel runs out first.
    pub fn run(&mut self, fuel: usize) -> (r: Option<Result<Step, VmError>>)
        requires
            old(self).wf(),
        ensures
            final(self).wf(),
            (final(self)@, r) == run_for(old(self)@, fuel as nat),
    {
        let mut left = fuel;
        while left > 0
            invariant
                self.wf(),
                run_for(self@, left as nat) == run_for(old(self)@, fuel as nat),
            decreases left,
        {
            let r = self.step();
            match r {
                Ok(Step::Running) => {},
                _ => return Some(r),
            }
            left = left - 1;
        }
        None
    }

    /// Appends characters for IN to consume, first to last.
    pub fn feed_input(&mut self, bytes: &Vec<u8>)
        requires
            old(self).wf(),
        ensures
            final(self)@ == with_input(old(self)@, bytes@),
            final(self).wf(),
    {
        let mut i: usize = 0;
        while i < bytes.len()
            invariant
                self@ == with_input(old(self)@, bytes@.subrange(0, i as int)),
                i <= bytes@.len(),
            decreases bytes@.len() - i,
        {
            self.input.push(bytes[i]);
            i = i + 1;
            assert(self.input@ =~= old(self).input@ + bytes@.subrange(0, i as int));
        }
        assert(bytes@.subrange(0, i as int) =~= bytes@);
    }
}

} // verus!
