use flewitt_pc::instruction::{decode_at, word_from_le_bytes, EmulatorError, Instruction, MEMORY_SIZE};
use flewitt_pc::machine::{FlewittPCEmulator, Status};

fn machine(image: &[u8]) -> FlewittPCEmulator {
    FlewittPCEmulator::from_image(image).unwrap()
}

#[test]
fn end_to_end_load_add_halt() {
    // the second load replaces register a, and b is still zero: 7 + 0
    let mut m = machine(&[3, 5, 3, 7, 1, 255]);
    assert_eq!(m.run(), Ok(()));
    assert_eq!(m.register_a(), 7);
    assert!(!m.carry_flag());
    assert!(m.is_halted());

    // with 5 copied into b first, the sum is 12
    let mut n = machine(&[3, 5, 8, 3, 7, 1, 255]);
    assert_eq!(n.run(), Ok(()));
    assert_eq!(n.register_a(), 12);
    assert!(!n.carry_flag());
    assert!(n.is_halted());
}

#[test]
fn add_overflow_sets_carry() {
    // a = 1; b = a; a = 255; a = a + b
    let mut m = machine(&[3, 1, 8, 3, 255, 1, 255]);
    assert_eq!(m.run(), Ok(()));
    assert_eq!(m.register_a(), 0);
    assert!(m.carry_flag());
}

#[test]
fn sub_underflow_sets_carry() {
    // a = 1; b = a; a = 0; a = a - b
    let mut m = machine(&[3, 1, 8, 3, 0, 2, 255]);
    assert_eq!(m.run(), Ok(()));
    assert_eq!(m.register_a(), 255);
    assert!(m.carry_flag());
}

#[test]
fn add_then_sub_restores_register_a() {
    // a = 200; b = a; a = 100; add; sub
    let mut m = machine(&[3, 200, 8, 3, 100, 1, 2, 255]);
    assert_eq!(m.run(), Ok(()));
    assert_eq!(m.register_a(), 100);
    assert_eq!(m.register_b(), 200);
    // 100 + 200 overflows, so the subtraction borrows
    assert!(m.carry_flag());

    let mut n = machine(&[3, 20, 8, 3, 100, 1, 2, 255]);
    for _ in 0..5 {
        assert_eq!(n.step(), Ok(()));
        if n.program_counter() == 6 {
            assert_eq!(n.register_a(), 120);
            assert!(!n.carry_flag());
        }
    }
    assert_eq!(n.register_a(), 100);
    assert!(!n.carry_flag());
}

#[test]
fn program_counter_advances_by_encoded_length() {
    let mut m = machine(&[0, 3, 9, 4, 0x34, 0x12, 8, 9, 255]);
    let expected = [1u32, 3, 6, 7, 8, 9];
    for pc in expected {
        assert_eq!(m.step(), Ok(()));
        assert_eq!(m.program_counter(), pc);
    }
    assert_eq!(m.register_a(), 9);
    assert_eq!(m.register_b(), 9);
    assert_eq!(m.address_register(), 0x1234);
}

#[test]
fn write_then_fetch_round_trip() {
    // addr = 0x0100; a = 42; write; a = 0; fetch
    let mut m = machine(&[4, 0x00, 0x01, 3, 42, 7, 3, 0, 5, 255]);
    assert_eq!(m.run(), Ok(()));
    assert_eq!(m.register_a(), 42);
    assert_eq!(m.memory_byte(0x100), Some(42));
}

#[test]
fn self_modifying_code_is_seen_on_next_fetch() {
    // write 255 (halt) over the byte at 7, which holds an unknown opcode
    let mut m = machine(&[4, 7, 0, 3, 255, 7, 0, 13]);
    assert_eq!(m.run(), Ok(()));
    assert!(m.is_halted());
    assert_eq!(m.program_counter(), 8);
}

#[test]
fn fetchj_loads_little_endian_word() {
    // addr = 6; addr = word at 6 (0xbeef)
    let mut m = machine(&[4, 6, 0, 6, 255, 0, 0xef, 0xbe]);
    assert_eq!(m.run(), Ok(()));
    assert_eq!(m.address_register(), 0xbeef);
}

#[test]
fn jz_jumps_only_on_zero() {
    // a = 0; addr = 8; jz -> 8: a = 9; halt
    let mut m = machine(&[3, 0, 4, 8, 0, 11, 3, 1, 3, 9, 255]);
    assert_eq!(m.run(), Ok(()));
    assert_eq!(m.register_a(), 9);

    // a = 1: falls through to a = 1, then a = 9 after
    let mut n = machine(&[3, 1, 4, 8, 0, 11, 255]);
    for _ in 0..3 {
        assert_eq!(n.step(), Ok(()));
    }
    assert_eq!(n.program_counter(), 6);
    assert_eq!(n.step(), Ok(()));
    assert!(n.is_halted());
}

#[test]
fn jc_uses_stored_carry() {
    // a = 255; b = a; a = 1; add (carry set, a = 0); a = 0; b = a; addr = 16; jc
    let image = [3, 255, 8, 3, 1, 1, 8, 4, 16, 0, 12, 255, 0, 0, 0, 0, 3, 77, 255];
    let mut m = machine(&image);
    assert_eq!(m.run(), Ok(()));
    assert_eq!(m.register_a(), 77);

    // no carry: the jump is not taken
    let mut n = machine(&[4, 16, 0, 12, 255]);
    assert_eq!(n.run(), Ok(()));
    assert_eq!(n.program_counter(), 5);
    assert_eq!(n.register_a(), 0);
}

#[test]
fn jmp_sets_program_counter() {
    let mut m = machine(&[4, 5, 0, 10, 13, 255]);
    assert_eq!(m.step(), Ok(()));
    assert_eq!(m.step(), Ok(()));
    assert_eq!(m.program_counter(), 5);
    assert_eq!(m.step(), Ok(()));
    assert!(m.is_halted());
}

#[test]
fn halt_then_step_is_invalid() {
    let mut m = machine(&[255]);
    assert_eq!(m.status(), Status::Running);
    assert_eq!(m.step(), Ok(()));
    assert!(m.is_halted());
    assert_eq!(m.status(), Status::Halted);
    assert_eq!(m.program_counter(), 1);
    assert_eq!(m.step(), Err(EmulatorError::InvalidState));
    assert_eq!(m.status(), Status::Halted);
    assert_eq!(m.program_counter(), 1);
}

#[test]
fn unknown_first_opcode_is_decode_error() {
    for op in [13u8, 14, 15, 100, 254] {
        let mut m = machine(&[op, 1, 2]);
        assert_eq!(m.step(), Err(EmulatorError::Decode));
        assert_eq!(m.status(), Status::Faulted);
        assert_eq!(m.register_a(), 0);
        assert_eq!(m.register_b(), 0);
        assert_eq!(m.address_register(), 0);
        assert_eq!(m.program_counter(), 0);
        assert!(!m.carry_flag());
        assert_eq!(m.step(), Err(EmulatorError::InvalidState));
    }
}

#[test]
fn run_reports_decode_error() {
    let mut m = machine(&[3, 4, 14]);
    assert_eq!(m.run(), Err(EmulatorError::Decode));
    assert_eq!(m.register_a(), 4);
    assert_eq!(m.status(), Status::Faulted);
}

#[test]
fn operand_past_end_of_memory_is_decode_error() {
    let mut image = vec![0u8; MEMORY_SIZE];
    image[0] = 4;
    image[1] = 0xff;
    image[2] = 0x07;
    image[3] = 10;
    image[MEMORY_SIZE - 1] = 3;
    let mut m = machine(&image);
    assert_eq!(m.step(), Ok(()));
    assert_eq!(m.step(), Ok(()));
    assert_eq!(m.program_counter(), 2047);
    assert_eq!(m.step(), Err(EmulatorError::Decode));

    image[MEMORY_SIZE - 2] = 4;
    image[1] = 0xfe;
    let mut n = machine(&image);
    assert_eq!(n.run(), Err(EmulatorError::Decode));
    assert_eq!(n.program_counter(), 2046);
}

#[test]
fn running_off_the_end_of_memory_is_decode_error() {
    let mut m = machine(&[]);
    assert_eq!(m.run(), Err(EmulatorError::Decode));
    assert_eq!(m.program_counter(), 2048);
    assert_eq!(m.status(), Status::Faulted);
}

#[test]
fn memory_access_out_of_bounds() {
    // addr = 2048; fetch
    let mut m = machine(&[4, 0x00, 0x08, 5]);
    assert_eq!(m.run(), Err(EmulatorError::MemoryAccess));
    assert_eq!(m.program_counter(), 3);
    assert_eq!(m.status(), Status::Faulted);

    // addr = 2047; fetchj needs 2048 too
    let mut n = machine(&[4, 0xff, 0x07, 6]);
    assert_eq!(n.run(), Err(EmulatorError::MemoryAccess));
    assert_eq!(n.address_register(), 2047);

    // addr = 0xffff; a = 1; write
    let mut w = machine(&[4, 0xff, 0xff, 3, 1, 7]);
    assert_eq!(w.run(), Err(EmulatorError::MemoryAccess));
    assert_eq!(w.register_a(), 1);
}

#[test]
fn image_loading() {
    let big = vec![0u8; MEMORY_SIZE + 1];
    assert!(matches!(FlewittPCEmulator::from_image(&big), Err(EmulatorError::Load)));
    let full = vec![7u8; MEMORY_SIZE];
    let m = machine(&full);
    assert_eq!(m.memory_byte(MEMORY_SIZE - 1), Some(7));
    assert_eq!(m.memory_byte(MEMORY_SIZE), None);
    let short = machine(&[9, 8]);
    assert_eq!(short.memory_byte(0), Some(9));
    assert_eq!(short.memory_byte(1), Some(8));
    assert_eq!(short.memory_byte(2), Some(0));
    assert_eq!(short.program_counter(), 0);
    assert_eq!(short.status(), Status::Running);
}

#[test]
fn decoder_reads_operands() {
    let m = machine(&[3, 42, 4, 0x34, 0x12, 13, 255, 12]);
    assert_eq!(m.read_instruction(), Ok(Instruction::load(42)));
    assert_eq!(m.read_instruction_at(2), Ok(Instruction::loadj(0x1234)));
    assert_eq!(m.read_instruction_at(5), Err(EmulatorError::Decode));
    assert_eq!(m.read_instruction_at(6), Ok(Instruction::halt));
    assert_eq!(m.read_instruction_at(7), Ok(Instruction::jc));
    assert_eq!(m.read_instruction_at(8), Ok(Instruction::nop));
    assert_eq!(m.read_instruction_at(5000), Err(EmulatorError::Decode));
    assert_eq!(word_from_le_bytes(0x34, 0x12), 0x1234);
    let mem: Vec<u8> = vec![1, 2, 5, 6, 7, 8, 9, 10, 11];
    let expected = [
        Instruction::add,
        Instruction::sub,
        Instruction::fetch,
        Instruction::fetchj,
        Instruction::write,
        Instruction::copyab,
        Instruction::copyba,
        Instruction::jmp,
        Instruction::jz,
    ];
    for (i, e) in expected.iter().enumerate() {
        assert_eq!(decode_at(&mem, i as u32), Ok(*e));
    }
}
