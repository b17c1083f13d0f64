//! The instruction set and the decoder that reads it from memory.
use vstd::prelude::*;

verus! {

/// Size of the memory bank in bytes; code and data share it.
pub const MEMORY_SIZE: usize = 2048;

/// One decoded instruction, with its immediate operand where it has one.
#[allow(non_camel_case_types)]
#[derive(Clone, Copy, Debug, PartialEq, Eq, Structural)]
pub enum Instruction {
    /// No operation.
    nop,
    /// `a, carry = a + b` (8-bit, wrapping).
    add,
    /// `a, carry = a - b` (8-bit, wrapping; carry is the borrow).
    sub,
    /// Load the immediate byte into register a.
    load(u8),
    /// Load the immediate little-endian word into the address register.
    loadj(u16),
    /// Load the byte at the address register into register a.
    fetch,
    /// Load the little-endian word at the address register into the address register.
    fetchj,
    /// Store register a at the address register.
    write,
    /// Copy register a to register b.
    copyab,
    /// Copy register b to register a.
    copyba,
    /// Jump to the address register.
    jmp,
    /// Jump to the address register if register a is zero.
    jz,
    /// Jump to the address register if the carry flag is set.
    jc,
    /// Stop the machine.
    halt,
}

/// Every way in which loading or running a program can fail.
#[derive(Clone, Copy, Debug, PartialEq, Eq, Structural)]
pub enum EmulatorError {
    /// The image does not fit in the memory bank.
    Load,
    /// The opcode is not in the table, or its operand runs past the end of memory.
    Decode,
    /// The address register (or the byte after it) lies outside memory.
    MemoryAccess,
    /// The machine was stepped after it halted or faulted.
    InvalidState,
}

/// The word whose low byte is `lo` and whose high byte is `hi`.
pub open spec fn le_word(lo: u8, hi: u8) -> u16 {
    (lo as int + 256 * hi as int) as u16
}

/// Number of bytes that `i` occupies in memory: the opcode and its operand.
pub open spec fn encoded_len(i: Instruction) -> nat {
    match i {
        Instruction::load(_) => 2,
        Instruction::loadj(_) => 3,
        _ => 1,
    }
}

/// Whether `i` may set the program counter to something other than the next instruction.
pub open spec fn is_jump(i: Instruction) -> bool {
    i is jmp || i is jz || i is jc
}

/// Whether `op` is an opcode of the table.
pub open spec fn is_opcode(op: u8) -> bool {
    op <= 12 || op == 255
}

/// The instruction that starts at `loc` in `mem`.
pub open spec fn decode(mem: Seq<u8>, loc: int) -> Result<Instruction, EmulatorError> {
    if !(0 <= loc < mem.len()) {
        Err(EmulatorError::Decode)
    } else {
        let op = mem[loc];
        if op == 0 {
            Ok(Instruction::nop)
        } else if op == 1 {
            Ok(Instruction::add)
        } else if op == 2 {
            Ok(Instruction::sub)
        } else if op == 3 {
            if loc + 1 < mem.len() {
                Ok(Instruction::load(mem[loc + 1]))
            } else {
                Err(EmulatorError::Decode)
            }
        } else if op == 4 {
            if mem.len() - loc > 2 {
                Ok(Instruction::loadj(le_word(mem[loc + 1], mem[loc + 2])))
            } else {
                Err(EmulatorError::Decode)
            }
        } else if op == 5 {
            Ok(Instruction::fetch)
        } else if op == 6 {
            Ok(Instruction::fetchj)
        } else if op == 7 {
            Ok(Instruction::write)
        } else if op == 8 {
            Ok(Instruction::copyab)
        } else if op == 9 {
            Ok(Instruction::copyba)
        } else if op == 10 {
            Ok(Instruction::jmp)
        } else if op == 11 {
            Ok(Instruction::jz)
        } else if op == 12 {
            Ok(Instruction::jc)
        } else if op == 255 {
            Ok(Instruction::halt)
        } else {
            Err(EmulatorError::Decode)
        }
    }
}

/// Joins two bytes into a little-endian word.
pub fn word_from_le_bytes(lo: u8, hi: u8) -> (r: u16)
    ensures
        r == le_word(lo, hi),
{
    lo as u16 + (hi as u16) * 256
}

/// Decodes the instruction that starts at `location` in `mem`.
pub fn decode_at(mem: &Vec<u8>, location: u32) -> (r: Result<Instruction, EmulatorError>)
    ensures
        r == decode(mem@, location as int),
{
    let loc = location as usize;
    if loc >= mem.len() {
        return Err(EmulatorError::Decode);
    }
    let op = mem[loc];
    match op {
        0 => Ok(Instruction::nop),
        1 => Ok(Instruction::add),
        2 => Ok(Instruction::sub),
        3 => {
            if loc + 1 < mem.len() {
                Ok(Instruction::load(mem[loc + 1]))
            } else {
                Err(EmulatorError::Decode)
            }
        },
        4 => {
            if mem.len() - loc > 2 {
                Ok(Instruction::loadj(word_from_le_bytes(mem[loc + 1], mem[loc + 2])))
            } else {
                Err(EmulatorError::Decode)
            }
        },
        5 => Ok(Instruction::fetch),
        6 => Ok(Instruction::fetchj),
        7 => Ok(Instruction::write),
        8 => Ok(Instruction::copyab),
        9 => Ok(Instruction::copyba),
        10 => Ok(Instruction::jmp),
        11 => Ok(Instruction::jz),
        12 => Ok(Instruction::jc),
        255 => Ok(Instruction::halt),
        _ => Err(EmulatorError::Decode),
    }
}

} // verus!
