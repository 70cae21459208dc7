//! Properties of the instruction set, proved over the model of one step.
use vstd::prelude::*;
use crate::error::{Step, VmError};
use crate::model::{address_of, is_register, next, not15, value_of, Machine, MEM_SIZE};

verus! {

/// Negating twice within 15 bits gives back a 15-bit value.
proof fn lemma_not15_twice(v: u16)
    requires
        v < 32768,
    ensures
        not15(v) < 32768,
        not15(not15(v)) == v,
{
    assert(((!v) & 0x7fffu16) < 32768u16 && (!((!v) & 0x7fffu16)) & 0x7fffu16 == v)
        by (bit_vector)
        requires v < 32768u16;
}

/// ADD writes `(a + b) mod 32768` and MULT writes `(a * b) mod 32768` into
/// the destination register, for all operand values `a` and `b`; the value
/// written is always below 32768.
pub proof fn add_mult_wrap(m: Machine, a: u16, b: u16)
    requires
        m.wf(),
        m.pc + 4 <= MEM_SIZE,
        m.mem[m.pc as int] == 9 || m.mem[m.pc as int] == 10,
        is_register(m.operand(1)),
        value_of(m.regs, m.operand(2)) == Some(a),
        value_of(m.regs, m.operand(3)) == Some(b),
    ensures
        next(m).1 == Ok::<Step, VmError>(Step::Running),
        m.mem[m.pc as int] == 9 ==> next(m).0.regs[m.operand(1) - 32768] == (a + b) % 32768,
        m.mem[m.pc as int] == 10 ==> next(m).0.regs[m.operand(1) - 32768] == (a * b) % 32768,
        next(m).0.regs[m.operand(1) - 32768] < 32768,
{
}

/// `NOT r a` followed by `NOT r2 r` leaves in `r2` the value of `a`.
pub proof fn not_twice_restores(m: Machine, r: u16, r2: u16, a: u16)
    requires
        m.wf(),
        m.pc + 6 <= MEM_SIZE,
        m.mem[m.pc as int] == 14,
        m.operand(1) == r,
        m.operand(2) == a,
        m.operand(3) == 14,
        m.operand(4) == r2,
        m.operand(5) == r,
        is_register(r),
        is_register(r2),
        value_of(m.regs, a) is Some,
    ensures
        next(m).1 == Ok::<Step, VmError>(Step::Running),
        next(next(m).0).1 == Ok::<Step, VmError>(Step::Running),
        next(next(m).0).0.regs[r2 - 32768] == value_of(m.regs, a).unwrap(),
{
    let v = value_of(m.regs, a).unwrap();
    lemma_not15_twice(v);
    let m1 = next(m).0;
    assert(m1.pc == m.pc + 3);
    assert(m1.regs[r - 32768] == not15(v));
    assert(m1.mem[m1.pc as int] == 14);
}

/// `PUSH v` followed by `POP r` leaves the value of `v` in `r`, and the
/// stack as it was before the PUSH.
pub proof fn push_pop_restores(m: Machine, v: u16, r: u16)
    requires
        m.wf(),
        m.pc + 4 <= MEM_SIZE,
        m.mem[m.pc as int] == 2,
        m.operand(1) == v,
        m.operand(2) == 3,
        m.operand(3) == r,
        is_register(r),
        value_of(m.regs, v) is Some,
    ensures
        next(m).1 == Ok::<Step, VmError>(Step::Running),
        next(next(m).0).1 == Ok::<Step, VmError>(Step::Running),
        next(next(m).0).0.regs[r - 32768] == value_of(m.regs, v).unwrap(),
        next(next(m).0).0.stack == m.stack,
        next(next(m).0).0.pc == m.pc + 4,
{
    let m1 = next(m).0;
    assert(m1.pc == m.pc + 2);
    assert(m1.mem[m1.pc as int] == 3);
    assert(m1.stack.drop_last() =~= m.stack);
}

/// `CALL t` followed by the `RET` found at `t` comes back to the word after
/// the CALL's operand, with the stack, registers and memory as before.
pub proof fn call_ret_returns(m: Machine, t: u16)
    requires
        m.wf(),
        m.pc + 2 <= MEM_SIZE,
        m.mem[m.pc as int] == 17,
        address_of(m.regs, m.operand(1)) == Some(t),
        m.mem[t as int] == 18,
    ensures
        next(m).1 == Ok::<Step, VmError>(Step::Running),
        next(m).0.pc == t,
        next(next(m).0).1 == Ok::<Step, VmError>(Step::Running),
        next(next(m).0).0 == m.at((m.pc + 2) as usize),
{
    let m1 = next(m).0;
    assert(t < 32768);
    assert(m1.pc == t);
    assert(m1.stack.drop_last() =~= m.stack);
}

/// A word of 22 or more where an opcode is expected fails with
/// `InvalidOpcode`, reporting that word's address, and changes nothing.
pub proof fn bad_opcode_reported(m: Machine)
    requires
        m.wf(),
        m.pc < MEM_SIZE,
        m.mem[m.pc as int] >= 22,
    ensures
        next(m) == (m, Err::<Step, VmError>(VmError::InvalidOpcode { pc: m.pc, word: m.mem[m.pc as int] })),
{
}

/// MOD with a zero divisor fails with `DivisionByZero` and leaves memory,
/// registers and the rest of the state unchanged.
pub proof fn mod_by_zero_writes_nothing(m: Machine)
    requires
        m.wf(),
        m.pc + 4 <= MEM_SIZE,
        m.mem[m.pc as int] == 11,
        value_of(m.regs, m.operand(2)) is Some,
        value_of(m.regs, m.operand(3)) == Some(0u16),
    ensures
        next(m) == (m, Err::<Step, VmError>(VmError::DivisionByZero { pc: m.pc })),
{
}

} // verus!
