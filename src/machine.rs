//! The machine state and the fetch-decode-execute engine that drives it.
use vstd::prelude::*;
use crate::instruction::{decode, decode_at, le_word, EmulatorError, Instruction, MEMORY_SIZE};

verus! {

/// Where the machine stands in its life: it runs until it halts or faults,
/// and both of those are final.
#[derive(Clone, Copy, Debug, PartialEq, Eq, Structural)]
pub enum Status {
    Running,
    Halted,
    Faulted,
}

/// The machine state as a mathematical value.
pub ghost struct MachineState {
    pub program_counter: nat,
    pub register_a: u8,
    pub register_b: u8,
    pub address_register: u16,
    pub carry_flag: bool,
    pub memory: Seq<u8>,
    pub status: Status,
}

impl MachineState {
    /// The memory bank has its fixed size.
    pub open spec fn wf(self) -> bool {
        self.memory.len() == MEMORY_SIZE
    }

    /// The same state with the program counter moved on by `n` bytes.
    pub open spec fn advanced(self, n: nat) -> MachineState {
        MachineState { program_counter: self.program_counter + n, ..self }
    }

    /// The same state, stopped by a fault.
    pub open spec fn faulted(self) -> MachineState {
        MachineState { status: Status::Faulted, ..self }
    }
}

/// The state in which a run of `image` starts: everything zero, and the
/// image at the low end of memory, padded with zeros.
pub open spec fn initial_state(image: Seq<u8>) -> MachineState {
    MachineState {
        program_counter: 0,
        register_a: 0,
        register_b: 0,
        address_register: 0,
        carry_flag: false,
        memory: Seq::new(
            MEMORY_SIZE as nat,
            |k: int|
                if k < image.len() {
                    image[k]
                } else {
                    0u8
                },
        ),
        status: Status::Running,
    }
}

/// The effect of `i` on `s`, program counter included, or the memory access
/// that it cannot make.
pub open spec fn execute(s: MachineState, i: Instruction) -> Result<MachineState, EmulatorError> {
    let a = s.register_a as int;
    let b = s.register_b as int;
    let addr = s.address_register as int;
    match i {
        Instruction::nop => Ok(s.advanced(1)),
        Instruction::add => Ok(
            MachineState { register_a: ((a + b) % 256) as u8, carry_flag: a + b > 255, ..s }.advanced(
                1,
            ),
        ),
        Instruction::sub => Ok(
            MachineState { register_a: ((a - b + 256) % 256) as u8, carry_flag: a < b, ..s }.advanced(
                1,
            ),
        ),
        Instruction::load(v) => Ok(MachineState { register_a: v, ..s }.advanced(2)),
        Instruction::loadj(w) => Ok(MachineState { address_register: w, ..s }.advanced(3)),
        Instruction::fetch => if addr < s.memory.len() {
            Ok(MachineState { register_a: s.memory[addr], ..s }.advanced(1))
        } else {
            Err(EmulatorError::MemoryAccess)
        },
        Instruction::fetchj => if addr + 1 < s.memory.len() {
            Ok(
                MachineState {
                    address_register: le_word(s.memory[addr], s.memory[addr + 1]),
                    ..s
                }.advanced(1),
            )
        } else {
            Err(EmulatorError::MemoryAccess)
        },
        Instruction::write => if addr < s.memory.len() {
            Ok(MachineState { memory: s.memory.update(addr, s.register_a), ..s }.advanced(1))
        } else {
            Err(EmulatorError::MemoryAccess)
        },
        Instruction::copyab => Ok(MachineState { register_b: s.register_a, ..s }.advanced(1)),
        Instruction::copyba => Ok(MachineState { register_a: s.register_b, ..s }.advanced(1)),
        Instruction::jmp => Ok(MachineState { program_counter: addr as nat, ..s }),
        Instruction::jz => if s.register_a == 0 {
            Ok(MachineState { program_counter: addr as nat, ..s })
        } else {
            Ok(s.advanced(1))
        },
        Instruction::jc => if s.carry_flag {
            Ok(MachineState { program_counter: addr as nat, ..s })
        } else {
            Ok(s.advanced(1))
        },
        Instruction::halt => Ok(MachineState { status: Status::Halted, ..s }.advanced(1)),
    }
}

/// One step from `s`: the state after it, and whether it succeeded.
/// A machine that is not running is left as it is; a decode or memory
/// error leaves everything but the status as it was.
pub open spec fn step_outcome(s: MachineState) -> (MachineState, Result<(), EmulatorError>) {
    if s.status != Status::Running {
        (s, Err(EmulatorError::InvalidState))
    } else {
        match decode(s.memory, s.program_counter as int) {
            Err(e) => (s.faulted(), Err(e)),
            Ok(i) => match execute(s, i) {
                Ok(t) => (t, Ok(())),
                Err(e) => (s.faulted(), Err(e)),
            },
        }
    }
}

/// Steps from `s` until the machine halts, a step fails, or `fuel` steps
/// have been taken.
pub open spec fn run_outcome(s: MachineState, fuel: nat) -> (MachineState, Result<(), EmulatorError>)
    decreases fuel,
{
    if s.status == Status::Halted || fuel == 0 {
        (s, Ok(()))
    } else {
        let (t, r) = step_outcome(s);
        if r is Err {
            (t, r)
        } else {
            run_outcome(t, (fuel - 1) as nat)
        }
    }
}

/// A FlewittPC with its memory image loaded.
pub struct FlewittPCEmulator {
    program_counter: u32,
    register_a: u8,
    register_b: u8,
    address_register: u16,
    carry_flag: bool,
    memory: Vec<u8>,
    status: Status,
}

impl View for FlewittPCEmulator {
    type V = MachineState;

    closed spec fn view(&self) -> MachineState {
        MachineState {
            program_counter: self.program_counter as nat,
            register_a: self.register_a,
            register_b: self.register_b,
            address_register: self.address_register,
            carry_flag: self.carry_flag,
            memory: self.memory@,
            status: self.status,
        }
    }
}

impl FlewittPCEmulator {
    /// The machine's invariant: the memory bank has its fixed size.
    pub open spec fn wf(&self) -> bool {
        self@.wf()
    }

    /// A machine whose memory holds `image` at its low end and zeros above it,
    /// with every register zero; an image larger than memory is refused.
    pub fn from_image(image: &[u8]) -> (r: Result<FlewittPCEmulator, EmulatorError>)
        ensures
            image@.len() > MEMORY_SIZE ==> r == Err::<FlewittPCEmulator, EmulatorError>(
                EmulatorError::Load,
            ),
            image@.len() <= MEMORY_SIZE ==> r is Ok && r->Ok_0.wf() && r->Ok_0@ == initial_state(
                image@,
            ),
    {
        if image.len() > MEMORY_SIZE {
            return Err(EmulatorError::Load);
        }
        let mut memory: Vec<u8> = Vec::with_capacity(MEMORY_SIZE);
        let mut i: usize = 0;
        while i < MEMORY_SIZE
            invariant
                i <= MEMORY_SIZE,
                image@.len() <= MEMORY_SIZE,
                memory@.len() == i,
                forall|k: int| 0 <= k < i ==> memory@[k] == initial_state(image@).memory[k],
            decreases MEMORY_SIZE - i,
        {
            if i < image.len() {
                memory.push(image[i]);
            } else {
                memory.push(0);
            }
            i = i + 1;
        }
        let machine = FlewittPCEmulator {
            program_counter: 0,
            register_a: 0,
            register_b: 0,
            address_register: 0,
            carry_flag: false,
            memory,
            status: Status::Running,
        };
        assert(machine@.memory =~= initial_state(image@).memory);
        Ok(machine)
    }

    /// Decodes the instruction at the program counter.
    pub fn read_instruction(&self) -> (r: Result<Instruction, EmulatorError>)
        ensures
            r == decode(self@.memory, self@.program_counter as int),
    {
        self.read_instruction_at(self.program_counter)
    }

    /// Decodes the instruction that starts at `location`.
    pub fn read_instruction_at(&self, location: u32) -> (r: Result<Instruction, EmulatorError>)
        ensures
            r == decode(self@.memory, location as int),
    {
        decode_at(&self.memory, location)
    }

    /// Executes one instruction. On a decode or memory error the machine
    /// faults and nothing else changes; a machine that has halted or faulted
    /// is not touched and reports `InvalidState`.
    pub fn step(&mut self) -> (r: Result<(), EmulatorError>)
        requires
            old(self).wf(),
        ensures
            final(self).wf(),
            (final(self)@, r) == step_outcome(old(self)@),
    {
        if self.status != Status::Running {
            return Err(EmulatorError::InvalidState);
        }
        match self.read_instruction() {
            Err(e) => {
                self.status = Status::Faulted;
                Err(e)
            },
            Ok(instruction) => match self.handle_instruction(instruction) {
                Ok(()) => Ok(()),
                Err(e) => {
                    self.status = Status::Faulted;
                    Err(e)
                },
            },
        }
    }

    /// Steps until the machine halts or a step fails, and reports that
    /// failure. The number of steps is bounded by `u64::MAX`, which no
    /// program reaches in practice; a program that runs that long is left
    /// running.
    pub fn run(&mut self) -> (r: Result<(), EmulatorError>)
        requires
            old(self).wf(),
        ensures
            final(self).wf(),
            (final(self)@, r) == run_outcome(old(self)@, u64::MAX as nat),
    {
        let mut fuel: u64 = u64::MAX;
        while fuel > 0 && self.status != Status::Halted
            invariant
                self.wf(),
                run_outcome(old(self)@, u64::MAX as nat) == run_outcome(self@, fuel as nat),
            decreases fuel,
        {
            let r = self.step();
            if r.is_err() {
                return r;
            }
            fuel = fuel - 1;
        }
        Ok(())
    }

    /// Address of the next byte to decode.
    pub fn program_counter(&self) -> (r: u32)
        ensures
            r as nat == self@.program_counter,
    {
        self.program_counter
    }

    /// The accumulator.
    pub fn register_a(&self) -> (r: u8)
        ensures
            r == self@.register_a,
    {
        self.register_a
    }

    /// The operand register.
    pub fn register_b(&self) -> (r: u8)
        ensures
            r == self@.register_b,
    {
        self.register_b
    }

    /// The address used by indirect loads, stores and jumps.
    pub fn address_register(&self) -> (r: u16)
        ensures
            r == self@.address_register,
    {
        self.address_register
    }

    /// Whether the last `add` or `sub` overflowed.
    pub fn carry_flag(&self) -> (r: bool)
        ensures
            r == self@.carry_flag,
    {
        self.carry_flag
    }

    /// Whether the machine is running, halted or faulted.
    pub fn status(&self) -> (r: Status)
        ensures
            r == self@.status,
    {
        self.status
    }

    /// Whether the machine has executed a `halt`.
    pub fn is_halted(&self) -> (r: bool)
        ensures
            r == (self@.status == Status::Halted),
    {
        self.status == Status::Halted
    }

    /// The byte at `address`, or `None` past the end of memory.
    pub fn memory_byte(&self, address: usize) -> (r: Option<u8>)
        ensures
            address < self@.memory.len() ==> r == Some(self@.memory[address as int]),
            address >= self@.memory.len() ==> r is None,
    {
        if address < self.memory.len() {
            Some(self.memory[address])
        } else {
            None
        }
    }

    /// Applies `instruction`, which was decoded at the program counter.
    /// Nothing changes when it needs a memory access outside the bank.
    fn handle_instruction(&mut self, instruction: Instruction) -> (r: Result<(), EmulatorError>)
        requires
            old(self).wf(),
            old(self)@.program_counter < MEMORY_SIZE,
        ensures
            match execute(old(self)@, instruction) {
                Ok(t) => r is Ok && final(self)@ == t,
                Err(e) => r == Err::<(), EmulatorError>(e) && final(self)@ == old(self)@,
            },
    {
        match instruction {
            Instruction::nop => {
                self.program_counter = self.program_counter + 1;
            },
            Instruction::add => {
                let sum: u16 = self.register_a as u16 + self.register_b as u16;
                self.register_a = (sum % 256) as u8;
                self.carry_flag = sum > 255;
                self.program_counter = self.program_counter + 1;
            },
            Instruction::sub => {
                let diff: u16 = self.register_a as u16 + 256 - self.register_b as u16;
                self.carry_flag = self.register_a < self.register_b;
                self.register_a = (diff % 256) as u8;
                self.program_counter = self.program_counter + 1;
            },
            Instruction::load(constant) => {
                self.register_a = constant;
                self.program_counter = self.program_counter + 2;
            },
            Instruction::loadj(word) => {
                self.address_register = word;
                self.program_counter = self.program_counter + 3;
            },
            Instruction::fetch => {
                let addr = self.address_register as usize;
                if addr >= self.memory.len() {
                    return Err(EmulatorError::MemoryAccess);
                }
                self.register_a = self.memory[addr];
                self.program_counter = self.program_counter + 1;
            },
            Instruction::fetchj => {
                let addr = self.address_register as usize;
                if addr + 1 >= self.memory.len() {
                    return Err(EmulatorError::MemoryAccess);
                }
                self.address_register = crate::instruction::word_from_le_bytes(
                    self.memory[addr],
                    self.memory[addr + 1],
                );
                self.program_counter = self.program_counter + 1;
            },
            Instruction::write => {
                let addr = self.address_register as usize;
                if addr >= self.memory.len() {
                    return Err(EmulatorError::MemoryAccess);
                }
                self.memory.set(addr, self.register_a);
                self.program_counter = self.program_counter + 1;
            },
            Instruction::copyab => {
                self.register_b = self.register_a;
                self.program_counter = self.program_counter + 1;
            },
            Instruction::copyba => {
                self.register_a = self.register_b;
                self.program_counter = self.program_counter + 1;
            },
            Instruction::jmp => {
                self.program_counter = self.address_register as u32;
            },
            Instruction::jz => {
                if self.register_a == 0 {
                    self.program_counter = self.address_register as u32;
                } else {
                    self.program_counter = self.program_counter + 1;
                }
            },
            Instruction::jc => {
                if self.carry_flag {
                    self.program_counter = self.address_register as u32;
                } else {
                    self.program_counter = self.program_counter + 1;
                }
            },
            Instruction::halt => {
                self.status = Status::Halted;
                self.program_counter = self.program_counter + 1;
            },
        }
        Ok(())
    }
}

} // verus!
