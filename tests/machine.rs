use synacor_vm::{Inst, Step, VmError, VM};

const R0: u16 = 32768;
const R1: u16 = 32769;
const R2: u16 = 32770;

fn machine(words: &[u16]) -> VM {
    VM::new(&words.to_vec()).unwrap()
}

fn image(words: &[u16]) -> Vec<u8> {
    let mut bytes = Vec::new();
    for w in words {
        bytes.push((w & 0xff) as u8);
        bytes.push((w >> 8) as u8);
    }
    bytes
}

/// Runs to the end, collecting what OUT emits.
fn run_collect(vm: &mut VM) -> (Result<Step, VmError>, Vec<u8>) {
    let mut out = Vec::new();
    loop {
        match vm.run(100_000) {
            Some(Ok(Step::Output(c))) => out.push(c),
            Some(r) => return (r, out),
            None => panic!("program did not stop"),
        }
    }
}

#[test]
fn add_wraps_modulo() {
    let mut vm = machine(&[9, R0, 32767, 5, 0]);
    assert_eq!(vm.step(), Ok(Step::Running));
    assert_eq!(vm.regs[0], 4);
    assert_eq!(vm.pc, 4);
}

#[test]
fn mult_wraps_modulo() {
    let mut vm = machine(&[10, R1, 300, 300, 0]);
    assert_eq!(vm.step(), Ok(Step::Running));
    assert_eq!(vm.regs[1], (300 * 300 % 32768) as u16);
    assert_eq!(vm.regs[1], 24464);
}

#[test]
fn add_mult_stay_fifteen_bit() {
    let mut vm = machine(&[9, R0, 32767, 32767, 10, R1, 32767, 32767, 0]);
    assert_eq!(vm.run(10), Some(Ok(Step::Halted)));
    assert_eq!(vm.regs[0], 32766);
    assert_eq!(vm.regs[1], 1);
}

#[test]
fn double_not_restores() {
    let mut vm = machine(&[14, R0, 12345, 14, R1, R0, 0]);
    assert_eq!(vm.step(), Ok(Step::Running));
    assert_eq!(vm.regs[0], 32767 - 12345);
    assert_eq!(vm.step(), Ok(Step::Running));
    assert_eq!(vm.regs[1], 12345);
}

#[test]
fn push_then_pop() {
    let mut vm = machine(&[2, 4242, 3, R2, 0]);
    vm.stack.push(7);
    assert_eq!(vm.step(), Ok(Step::Running));
    assert_eq!(vm.stack, vec![7, 4242]);
    assert_eq!(vm.step(), Ok(Step::Running));
    assert_eq!(vm.regs[2], 4242);
    assert_eq!(vm.stack, vec![7]);
    assert_eq!(vm.pc, 4);
}

#[test]
fn call_then_ret() {
    // CALL 10 at 0, RET at 10: back at 2, where HALT stands.
    let mut words = vec![17, 10, 0];
    words.resize(10, 21);
    words.push(18);
    let mut vm = machine(&words);
    assert_eq!(vm.step(), Ok(Step::Running));
    assert_eq!(vm.pc, 10);
    assert_eq!(vm.stack, vec![2]);
    assert_eq!(vm.step(), Ok(Step::Running));
    assert_eq!(vm.pc, 2);
    assert!(vm.stack.is_empty());
    assert_eq!(vm.step(), Ok(Step::Halted));
}

#[test]
fn call_through_register() {
    let mut vm = machine(&[1, R0, 6, 17, R0, 0, 18]);
    assert_eq!(vm.run(3), None);
    assert_eq!(vm.pc, 5);
    assert_eq!(vm.step(), Ok(Step::Halted));
}

#[test]
fn illustrative_image_stops_cleanly() {
    let bytes: Vec<u8> = vec![
        9, 0, 0, 128, 1, 128, 4, 0, 1, 128, 0, 128, 1, 0, 19, 0, 1, 128, 0, 0,
    ];
    assert_eq!(bytes, image(&[9, 32768, 32769, 4, 32769, 32768, 1, 19, 32769, 0]));
    let mut vm = VM::load(&bytes).unwrap();
    assert_eq!(vm.step(), Ok(Step::Running));
    assert_eq!(vm.regs[0], 4);
    // With ADD taking three operands, the next opcode word is 32769.
    let (r, out) = run_collect(&mut vm);
    assert_eq!(r, Err(VmError::InvalidOpcode { pc: 4, word: 32769 }));
    assert!(out.is_empty());
}

#[test]
fn set_add_out_halt() {
    let words = [1, R1, 60, 9, R0, R1, 5, 19, R0, 0];
    let mut vm = VM::load(&image(&words)).unwrap();
    let (r, out) = run_collect(&mut vm);
    assert_eq!(r, Ok(Step::Halted));
    assert_eq!(out, vec![b'A']);
    assert_eq!(vm.pc, 9);
}

#[test]
fn odd_image_is_malformed() {
    assert_eq!(VM::load(&vec![9, 0, 1]).err(), Some(VmError::MalformedImage { len: 3 }));
    assert_eq!(VM::load(&vec![0]).err(), Some(VmError::MalformedImage { len: 1 }));
}

#[test]
fn empty_image_halts() {
    let mut vm = VM::load(&Vec::new()).unwrap();
    assert_eq!(vm.memory.len(), 32768);
    assert_eq!(vm.step(), Ok(Step::Halted));
    assert_eq!(vm.pc, 0);
}

#[test]
fn image_words_little_endian() {
    let vm = VM::load(&vec![0x34, 0x12, 0xff, 0xff]).unwrap();
    assert_eq!(vm.memory[0], 0x1234);
    assert_eq!(vm.memory[1], 0xffff);
    assert_eq!(vm.memory[2], 0);
    assert_eq!(vm.regs, vec![0; 8]);
    assert!(vm.stack.is_empty());
}

#[test]
fn oversized_image_rejected() {
    let words = vec![21u16; 32769];
    assert_eq!(VM::new(&words).err(), Some(VmError::ImageTooLarge { words: 32769 }));
    assert_eq!(
        VM::load(&image(&words)).err(),
        Some(VmError::ImageTooLarge { words: 32769 })
    );
    let full = vec![21u16; 32768];
    let mut vm = VM::new(&full).unwrap();
    assert_eq!(vm.run(40000), Some(Ok(Step::Halted)));
    assert_eq!(vm.pc, 32768);
}

#[test]
fn bad_opcode_reports_its_address() {
    let mut vm = machine(&[21, 21, 22]);
    let (r, _) = run_collect(&mut vm);
    assert_eq!(r, Err(VmError::InvalidOpcode { pc: 2, word: 22 }));
    assert_eq!(vm.pc, 2);
    let mut vm = machine(&[65535]);
    assert_eq!(vm.step(), Err(VmError::InvalidOpcode { pc: 0, word: 65535 }));
}

#[test]
fn mod_by_zero_writes_nothing() {
    let mut vm = machine(&[1, R0, 77, 11, R0, 9, R1, 0]);
    assert_eq!(vm.step(), Ok(Step::Running));
    let memory = vm.memory.clone();
    let regs = vm.regs.clone();
    assert_eq!(vm.step(), Err(VmError::DivisionByZero { pc: 3 }));
    assert_eq!(vm.memory, memory);
    assert_eq!(vm.regs, regs);
    assert_eq!(vm.pc, 3);
}

#[test]
fn mod_computes_remainder() {
    let mut vm = machine(&[11, R0, 17, 5, 0]);
    assert_eq!(vm.step(), Ok(Step::Running));
    assert_eq!(vm.regs[0], 2);
}

#[test]
fn invalid_operand() {
    let mut vm = machine(&[9, R0, 32776, 1]);
    assert_eq!(vm.step(), Err(VmError::InvalidOperand { pc: 0, word: 32776 }));
    assert_eq!(vm.pc, 0);
}

#[test]
fn invalid_destination() {
    let mut vm = machine(&[1, 5, 1]);
    assert_eq!(vm.step(), Err(VmError::InvalidDestination { pc: 0, word: 5 }));
    assert_eq!(vm.memory[5], 0);
}

#[test]
fn pop_on_empty_stack() {
    let mut vm = machine(&[3, R0]);
    assert_eq!(vm.step(), Err(VmError::StackUnderflow { pc: 0 }));
}

#[test]
fn ret_on_empty_stack_halts() {
    let mut vm = machine(&[21, 18, 19, 65]);
    let (r, out) = run_collect(&mut vm);
    assert_eq!(r, Ok(Step::Halted));
    assert!(out.is_empty());
    assert_eq!(vm.pc, 1);
}

#[test]
fn comparisons_and_bitwise() {
    let words = [
        4, R0, 3, 3, // EQ
        5, R1, 3, 4, // GT
        12, R2, 0b1100, 0b1010, // AND
        13, 32771, 0b1100, 0b1010, // OR
        0,
    ];
    let mut vm = machine(&words);
    assert_eq!(vm.run(10), Some(Ok(Step::Halted)));
    assert_eq!(vm.regs[0..4], [1, 0, 0b1000, 0b1110]);
}

#[test]
fn conditional_jumps() {
    // JT 0 -> falls through; JF 0 -> jumps to 9: OUT 'y'.
    let words = [7, 0, 20, 8, 0, 9, 19, 110, 0, 19, 121, 0];
    let mut vm = machine(&words);
    let (r, out) = run_collect(&mut vm);
    assert_eq!(r, Ok(Step::Halted));
    assert_eq!(out, b"y".to_vec());
    let mut vm = machine(&[7, 1, 5, 19, 110, 6, 8]);
    let (r, out) = run_collect(&mut vm);
    assert_eq!(r, Ok(Step::Halted));
    assert!(out.is_empty());
    assert_eq!(vm.pc, 8);
}

#[test]
fn memory_read_and_write() {
    let words = [16, 100, 321, 15, R0, 100, 16, R0, 9, 0];
    let mut vm = machine(&words);
    assert_eq!(vm.run(10), Some(Ok(Step::Halted)));
    assert_eq!(vm.memory[100], 321);
    assert_eq!(vm.regs[0], 321);
    assert_eq!(vm.memory[321], 9);
}

#[test]
fn rmem_truncates_raw_word() {
    let mut vm = machine(&[15, R0, 3, 40000]);
    assert_eq!(vm.step(), Ok(Step::Running));
    assert_eq!(vm.regs[0], 40000 - 32768);
}

#[test]
fn out_masks_to_a_byte() {
    let mut vm = machine(&[19, 321, 0]);
    assert_eq!(vm.step(), Ok(Step::Output(65)));
    assert_eq!(vm.pc, 2);
}

#[test]
fn in_waits_then_reads() {
    let mut vm = machine(&[20, R0, 20, R1, 0]);
    assert_eq!(vm.step(), Ok(Step::NeedInput));
    assert_eq!(vm.pc, 0);
    vm.feed_input(&b"h\n".to_vec());
    assert_eq!(vm.step(), Ok(Step::Running));
    assert_eq!(vm.regs[0], b'h' as u16);
    assert_eq!(vm.step(), Ok(Step::Running));
    assert_eq!(vm.regs[1], b'\n' as u16);
    assert!(vm.input.is_empty());
    assert_eq!(vm.step(), Ok(Step::Halted));
}

#[test]
fn self_modifying_code() {
    // WMEM 3 19 turns the NOOP at 3 into OUT 66.
    let mut vm = machine(&[16, 3, 19, 21, 66, 0]);
    let (r, out) = run_collect(&mut vm);
    assert_eq!(r, Ok(Step::Halted));
    assert_eq!(out, b"B".to_vec());
}

#[test]
fn truncated_instruction_halts() {
    let mut words = vec![21u16; 32767];
    words.push(9);
    let mut vm = machine(&words);
    vm.pc = 32767;
    assert_eq!(vm.step(), Ok(Step::Halted));
}

#[test]
fn opcode_table() {
    assert_eq!(Inst::from_u16(0), Some(Inst::Halt));
    assert_eq!(Inst::from_u16(9), Some(Inst::Add));
    assert_eq!(Inst::from_u16(21), Some(Inst::Noop));
    assert_eq!(Inst::from_u16(22), None);
    assert_eq!(Inst::Mult.arity(), 3);
    assert_eq!(Inst::Call.arity(), 1);
    assert_eq!(Inst::Ret.arity(), 0);
}

#[test]
fn operand_resolution() {
    let mut vm = machine(&[]);
    assert!(vm.write_reg(R2, 40000));
    assert_eq!(vm.regs[2], 40000 - 32768);
    assert!(!vm.write_reg(7, 1));
    assert_eq!(vm.read_reg(17), Some(17));
    assert_eq!(vm.read_reg(R2), Some(7232));
    assert_eq!(vm.read_reg(32776), None);
    assert_eq!(vm.read_addr(R2), Some(7232));
    assert_eq!(vm.read_addr(32767), Some(32767));
    assert_eq!(vm.read_addr(40000), None);
    assert_eq!(vm.next_u16(), 0);
    assert_eq!(vm.pc, 1);
}
