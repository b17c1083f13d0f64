//! Properties of the engine that span several steps or every state.
use vstd::prelude::*;
use crate::instruction::{decode, encoded_len, is_jump, is_opcode, EmulatorError, MEMORY_SIZE};
use crate::machine::{initial_state, step_outcome, MachineState, Status};

verus! {

/// A step that succeeds on an instruction other than the three jumps moves
/// the program counter forward by exactly the instruction's encoded length.
pub proof fn lemma_sequential_advance(s: MachineState)
    requires
        s.wf(),
        step_outcome(s).1 is Ok,
        !is_jump(decode(s.memory, s.program_counter as int)->Ok_0),
    ensures
        decode(s.memory, s.program_counter as int) is Ok,
        step_outcome(s).0.program_counter == s.program_counter + encoded_len(
            decode(s.memory, s.program_counter as int)->Ok_0,
        ),
{
}

/// An `add` followed by a `sub` gives register a back, whatever register b
/// holds; where the sum does not overflow, the carry flag is clear after
/// each of the two steps.
pub proof fn lemma_add_sub_round_trip(s: MachineState)
    requires
        s.wf(),
        s.status == Status::Running,
        s.program_counter + 1 < MEMORY_SIZE,
        s.memory[s.program_counter as int] == 1,
        s.memory[s.program_counter + 1int] == 2,
    ensures
        ({
            let (t, r1) = step_outcome(s);
            let (u, r2) = step_outcome(t);
            &&& r1 is Ok
            &&& r2 is Ok
            &&& u.register_a == s.register_a
            &&& u.register_b == s.register_b
            &&& u.program_counter == s.program_counter + 2
            &&& s.register_a + s.register_b <= 255 ==> !t.carry_flag && !u.carry_flag
        }),
{
}

/// A byte stored by `write` at the address register is what a `fetch` from
/// that address loads next, provided the store does not overwrite the
/// `fetch` itself.
pub proof fn lemma_write_fetch_round_trip(s: MachineState)
    requires
        s.wf(),
        s.status == Status::Running,
        s.program_counter + 1 < MEMORY_SIZE,
        s.memory[s.program_counter as int] == 7,
        s.memory[s.program_counter + 1int] == 5,
        s.address_register < MEMORY_SIZE,
        s.address_register != s.program_counter + 1,
    ensures
        ({
            let (t, r1) = step_outcome(s);
            let (u, r2) = step_outcome(t);
            &&& r1 is Ok
            &&& r2 is Ok
            &&& u.register_a == s.register_a
            &&& u.memory == s.memory.update(s.address_register as int, s.register_a)
        }),
{
}

/// `jz` jumps to the address register exactly when register a is zero, and
/// otherwise moves on to the next instruction; nothing else changes.
pub proof fn lemma_jump_if_zero(s: MachineState)
    requires
        s.wf(),
        s.status == Status::Running,
        s.program_counter < MEMORY_SIZE,
        s.memory[s.program_counter as int] == 11,
    ensures
        step_outcome(s).1 is Ok,
        step_outcome(s).0 == (MachineState {
            program_counter: if s.register_a == 0 {
                s.address_register as nat
            } else {
                s.program_counter + 1
            },
            ..s
        }),
{
}

/// `jc` jumps to the address register exactly when the stored carry flag is
/// set, whatever the registers now hold, and otherwise moves on to the next
/// instruction; nothing else changes.
pub proof fn lemma_jump_if_carry(s: MachineState)
    requires
        s.wf(),
        s.status == Status::Running,
        s.program_counter < MEMORY_SIZE,
        s.memory[s.program_counter as int] == 12,
    ensures
        step_outcome(s).1 is Ok,
        step_outcome(s).0 == (MachineState {
            program_counter: if s.carry_flag {
                s.address_register as nat
            } else {
                s.program_counter + 1
            },
            ..s
        }),
{
}

/// A machine that has halted or faulted stays exactly as it is: every
/// further step is refused with `InvalidState`.
pub proof fn lemma_stopped_machine_is_unchanged(s: MachineState)
    requires
        s.status != Status::Running,
    ensures
        step_outcome(s) == (s, Err::<(), EmulatorError>(EmulatorError::InvalidState)),
{
}

/// A `halt` takes a running machine to the halted state in one step, and the
/// step after that is refused with `InvalidState`.
pub proof fn lemma_halt(s: MachineState)
    requires
        s.wf(),
        s.status == Status::Running,
        s.program_counter < MEMORY_SIZE,
        s.memory[s.program_counter as int] == 255,
    ensures
        ({
            let (t, r1) = step_outcome(s);
            &&& r1 is Ok
            &&& t.status == Status::Halted
            &&& step_outcome(t) == (t, Err::<(), EmulatorError>(EmulatorError::InvalidState))
        }),
{
}

/// An image whose first byte is no opcode faults on the first step with a
/// decode error, and every register keeps its initial zero.
pub proof fn lemma_unknown_first_opcode(image: Seq<u8>)
    requires
        0 < image.len() <= MEMORY_SIZE,
        !is_opcode(image[0]),
    ensures
        step_outcome(initial_state(image)) == (
            initial_state(image).faulted(),
            Err::<(), EmulatorError>(EmulatorError::Decode),
        ),
        step_outcome(initial_state(image)).0.register_a == 0,
        step_outcome(initial_state(image)).0.register_b == 0,
        step_outcome(initial_state(image)).0.address_register == 0,
        step_outcome(initial_state(image)).0.program_counter == 0,
        !step_outcome(initial_state(image)).0.carry_flag,
{
}

} // verus!
