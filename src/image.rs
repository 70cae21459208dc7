//! Loading a program image: little-endian word pairs copied to address 0.
use vstd::prelude::*;
use crate::error::VmError;
use crate::model::{Machine, MEM_SIZE, NUM_REGS};
use crate::vm::VM;

verus! {

/// The word whose low byte is `lo` and high byte is `hi`.
pub open spec fn word_le(lo: u8, hi: u8) -> u16 {
    (lo as int + 256 * hi as int) as u16
}

/// The words of an image of even length, paired little-endian.
pub open spec fn image_words(b: Seq<u8>) -> Seq<u16> {
    Seq::new(b.len() / 2, |i: int| word_le(b[2 * i], b[2 * i + 1]))
}

/// The starting state for a program: the program at address 0, zero
/// everywhere else, zero registers, empty stack and input, and the program
/// counter at 0.
pub open spec fn loaded(p: Seq<u16>) -> Machine {
    Machine {
        mem: Seq::new(MEM_SIZE as nat, |i: int| if i < p.len() { p[i] } else { 0u16 }),
        regs: Seq::new(NUM_REGS as nat, |i: int| 0u16),
        stack: Seq::empty(),
        pc: 0,
        input: Seq::empty(),
    }
}

/// Turns the bytes of an image into words; an odd byte count is a
/// `MalformedImage`.
pub fn words_of_image(bytes: &Vec<u8>) -> (r: Result<Vec<u16>, VmError>)
    ensures
        bytes@.len() % 2 == 1 ==> r == Err::<Vec<u16>, VmError>(
            VmError::MalformedImage { len: bytes.len() },
        ),
        bytes@.len() % 2 == 0 ==> r is Ok && r.unwrap()@ == image_words(bytes@),
{
    let n = bytes.len();
    if n % 2 == 1 {
        return Err(VmError::MalformedImage { len: n });
    }
    let mut words: Vec<u16> = Vec::new();
    let mut i: usize = 0;
    while i < n / 2
        invariant
            n == bytes@.len(),
            n % 2 == 0,
            i <= n / 2,
            words@ =~= image_words(bytes@).subrange(0, i as int),
        decreases n / 2 - i,
    {
        let lo = bytes[2 * i];
        let hi = bytes[2 * i + 1];
        words.push((lo as u16) + 256 * (hi as u16));
        i = i + 1;
    }
    assert(words@ =~= image_words(bytes@));
    Ok(words)
}

impl VM {
    /// A machine with `program` loaded at address 0; a program longer than
    /// the address space is an `ImageTooLarge`.
    pub fn new(program: &Vec<u16>) -> (r: Result<VM, VmError>)
        ensures
            program@.len() > MEM_SIZE ==> r == Err::<VM, VmError>(
                VmError::ImageTooLarge { words: program.len() },
            ),
            program@.len() <= MEM_SIZE ==> r is Ok && r.unwrap()@ == loaded(program@)
                && r.unwrap().wf(),
    {
        let n = program.len();
        if n > MEM_SIZE {
            return Err(VmError::ImageTooLarge { words: n });
        }
        let mut memory: Vec<u16> = Vec::new();
        let mut i: usize = 0;
        while i < MEM_SIZE
            invariant
                n == program@.len(),
                n <= MEM_SIZE,
                i <= MEM_SIZE,
                memory@ =~= loaded(program@).mem.subrange(0, i as int),
            decreases MEM_SIZE - i,
        {
            if i < n {
                memory.push(program[i]);
            } else {
                memory.push(0);
            }
            i = i + 1;
        }
        let mut regs: Vec<u16> = Vec::new();
        let mut k: usize = 0;
        while k < NUM_REGS
            invariant
                k <= NUM_REGS,
                regs@ =~= loaded(program@).regs.subrange(0, k as int),
            decreases NUM_REGS - k,
        {
            regs.push(0);
            k = k + 1;
        }
        let vm = VM { memory, regs, stack: Vec::new(), pc: 0, input: Vec::new() };
        assert(vm@.mem =~= loaded(program@).mem);
        assert(vm@.regs =~= loaded(program@).regs);
        assert(vm@.stack =~= loaded(program@).stack);
        assert(vm@.input =~= loaded(program@).input);
        Ok(vm)
    }

    /// A machine started on the image `bytes`.
    pub fn load(bytes: &Vec<u8>) -> (r: Result<VM, VmError>)
        ensures
            bytes@.len() % 2 == 1 ==> r == Err::<VM, VmError>(
                VmError::MalformedImage { len: bytes.len() },
            ),
            bytes@.len() % 2 == 0 && bytes@.len() / 2 > MEM_SIZE ==> r == Err::<VM, VmError>(
                VmError::ImageTooLarge { words: bytes.len() / 2 },
            ),
            bytes@.len() % 2 == 0 && bytes@.len() / 2 <= MEM_SIZE ==> r is Ok
                && r.unwrap()@ == loaded(image_words(bytes@)) && r.unwrap().wf(),
    {
        match words_of_image(bytes) {
            Ok(words) => VM::new(&words),
            Err(e) => Err(e),
        }
    }
}

} // verus!
