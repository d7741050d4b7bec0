use perfaware_8086::decoder::decode;
use perfaware_8086::op_code::OpCode;
use perfaware_8086::register::word::{AX, BP, BX, CX, DI};
use perfaware_8086::simulator::simulate::{run, simulate, step, StopReason};
use perfaware_8086::simulator::simulator_state::{SimulatorRegisters, SimulatorState};

#[test]
fn mov_immediate_sets_accumulator_and_ip() {
    let s = simulate(&[0xB8, 0x05, 0x00], false, 100);
    assert_eq!(s.stop, Some(StopReason::EndOfProgram));
    assert_eq!(s.state.read_register(AX), 5);
    assert_eq!(s.state.read_ip(), 3);
}

#[test]
fn mov_then_add_registers() {
    let bytes = [0xB8, 0x05, 0x00, 0x89, 0xC3, 0x01, 0xC3];
    let s = simulate(&bytes, false, 100);
    assert_eq!(s.stop, Some(StopReason::EndOfProgram));
    assert_eq!(s.state.read_register(AX), 5);
    assert_eq!(s.state.read_register(BX), 10);
    assert!(!s.state.flags().zero);
    assert!(!s.state.flags().sign);
    assert_eq!(s.state.read_ip(), 7);
}

#[test]
fn compare_equal_registers_sets_zero() {
    let bytes = [0xB8, 0x05, 0x00, 0xBB, 0x05, 0x00, 0x39, 0xD8];
    let s = simulate(&bytes, false, 100);
    assert_eq!(s.stop, Some(StopReason::EndOfProgram));
    assert!(s.state.flags().zero);
    assert!(!s.state.flags().sign);
    assert_eq!(s.state.read_register(AX), 5);
    assert_eq!(s.state.read_register(BX), 5);
}

#[test]
fn jnz_back_onto_itself_loops() {
    let bytes = [0x75u8, 0xFE];
    let d = decode(&bytes, false);
    let mut state = SimulatorState::new();
    assert_eq!(step(&d.program, &mut state, false), None);
    assert_eq!(state.read_ip(), 0);
    assert_eq!(run(&d.program, &mut state, false, 50), None);
    assert_eq!(state.read_ip(), 0);
}

#[test]
fn taken_branch_lands_at_offset_plus_length_plus_displacement() {
    // MOV CX, 3; SUB CX, 1 (imm); JNZ back to the SUB.
    let bytes = [0xB9, 0x03, 0x00, 0x83, 0xE9, 0x01, 0x75, 0xFB];
    let d = decode(&bytes, false);
    let mut state = SimulatorState::new();
    assert_eq!(step(&d.program, &mut state, false), None);
    assert_eq!(step(&d.program, &mut state, false), None);
    assert_eq!(state.read_register(CX), 2);
    assert_eq!(step(&d.program, &mut state, false), None);
    assert_eq!(state.read_ip(), 3);
    assert_eq!(run(&d.program, &mut state, false, 100), Some(StopReason::EndOfProgram));
    assert_eq!(state.read_register(CX), 0);
    assert!(state.flags().zero);
    assert_eq!(state.read_ip(), 8);
}

#[test]
fn je_not_taken_falls_through() {
    let s = simulate(&[0x74, 0x10], false, 10);
    assert_eq!(s.stop, Some(StopReason::EndOfProgram));
    assert_eq!(s.state.read_ip(), 2);
}

#[test]
fn subtract_below_zero_sets_sign_and_wraps() {
    // MOV AX, 1; SUB AX, 2 (imm, sign-extend form)
    let s = simulate(&[0xB8, 0x01, 0x00, 0x83, 0xE8, 0x02], false, 10);
    assert_eq!(s.state.read_register(AX), 0xFFFF);
    assert!(s.state.flags().sign);
    assert!(!s.state.flags().zero);
}

#[test]
fn add_wraps_modulo_two_to_the_sixteen() {
    // MOV AX, 0xFFFF; ADD AX, 1 (imm word)
    let s = simulate(&[0xB8, 0xFF, 0xFF, 0x81, 0xC0, 0x01, 0x00], false, 10);
    assert_eq!(s.state.read_register(AX), 0);
    assert!(s.state.flags().zero);
    assert!(!s.state.flags().sign);
}

#[test]
fn memory_round_trip_little_endian() {
    // MOV BX, 1000; MOV CX, 0x1234; MOV [BX + 4], CX; MOV DX, [BX + 4]
    let bytes = [
        0xBB, 0xE8, 0x03, 0xB9, 0x34, 0x12, 0x89, 0x4F, 0x04, 0x8B, 0x57, 0x04,
    ];
    let s = simulate(&bytes, false, 10);
    assert_eq!(s.stop, Some(StopReason::EndOfProgram));
    assert_eq!(s.state.read_mem_byte(1004), 0x34);
    assert_eq!(s.state.read_mem_byte(1005), 0x12);
    assert_eq!(s.state.read_register(2), 0x1234);
}

#[test]
fn add_to_memory_sets_flags_from_result() {
    // MOV BP, 10; MOV DI, 20; MOV CX, 0xFFFF; MOV [BP + DI + 4], CX;
    // MOV AX, 1; ADD [BP + DI + 4], AX
    let bytes = [
        0xBD, 0x0A, 0x00, 0xBF, 0x14, 0x00, 0xB9, 0xFF, 0xFF, 0x89, 0x4B, 0x04, 0xB8, 0x01,
        0x00, 0x01, 0x43, 0x04,
    ];
    let s = simulate(&bytes, false, 10);
    assert_eq!(s.stop, Some(StopReason::EndOfProgram));
    assert_eq!(s.state.read_register(BP), 10);
    assert_eq!(s.state.read_register(DI), 20);
    assert_eq!(s.state.read_mem_byte(34), 0);
    assert_eq!(s.state.read_mem_byte(35), 0);
    assert!(s.state.flags().zero);
}

#[test]
fn unimplemented_jump_halts_distinctly() {
    let s = simulate(&[0x7C, 0x02], false, 10);
    assert_eq!(s.stop, Some(StopReason::Unimplemented(OpCode::Jl)));
    assert_eq!(s.state.read_ip(), 0);
}

#[test]
fn byte_register_write_halts_as_unimplemented() {
    let s = simulate(&[0xB1, 0x0C], false, 10);
    assert_eq!(s.stop, Some(StopReason::Unimplemented(OpCode::Mov)));
}

#[test]
fn jump_into_middle_of_instruction_halts_with_invalid_address() {
    // MOV AX, 5; JNZ -4 lands on offset 1, inside the MOV.
    let bytes = [0xB8, 0x05, 0x00, 0x75, 0xFC];
    let s = simulate(&bytes, false, 10);
    assert_eq!(s.stop, Some(StopReason::InvalidAddress));
    assert_eq!(s.state.read_ip(), 1);
}

#[test]
fn timed_run_counts_cycles() {
    // MOV AX, 5 (4); MOV BX, AX (2); ADD BX, AX (3)
    let bytes = [0xB8, 0x05, 0x00, 0x89, 0xC3, 0x01, 0xC3];
    let s = simulate(&bytes, true, 100);
    assert_eq!(s.stop, Some(StopReason::EndOfProgram));
    assert_eq!(s.state.cycles(), 9);
}

#[test]
fn timed_run_stops_without_estimate() {
    let bytes = [0xB8, 0x05, 0x00, 0x39, 0xD8];
    let s = simulate(&bytes, true, 100);
    assert_eq!(s.stop, Some(StopReason::MissingTiming));
    assert_eq!(s.state.read_ip(), 3);
    assert_eq!(s.state.cycles(), 4);
}

#[test]
fn untimed_run_counts_no_cycles() {
    let s = simulate(&[0xB8, 0x05, 0x00], false, 100);
    assert_eq!(s.state.cycles(), 0);
}

#[test]
fn step_limit_stops_a_run() {
    let s = simulate(&[0xB8, 0x05, 0x00, 0xBB, 0x01, 0x00], false, 1);
    assert_eq!(s.stop, None);
    assert_eq!(s.state.read_ip(), 3);
    assert_eq!(s.state.read_register(BX), 0);
}

#[test]
fn repeated_simulation_is_identical() {
    let bytes = [
        0xB9, 0x03, 0x00, 0x83, 0xE9, 0x01, 0x75, 0xFB, 0xBB, 0xE8, 0x03, 0x89, 0x0F,
    ];
    let a = simulate(&bytes, true, 1000);
    let b = simulate(&bytes, true, 1000);
    assert_eq!(a.stop, b.stop);
    assert_eq!(a.state.read_ip(), b.state.read_ip());
    assert_eq!(a.state.cycles(), b.state.cycles());
    assert_eq!(a.state.flags(), b.state.flags());
    assert_eq!(a.state.registers(), b.state.registers());
    assert!(a.state.memory() == b.state.memory());
}

#[test]
fn fresh_state_is_zero() {
    let s = SimulatorState::new();
    assert_eq!(s.read_ip(), 0);
    assert_eq!(s.cycles(), 0);
    assert_eq!(s.memory().len(), 1024 * 1024);
    assert!(s.memory().iter().all(|b| *b == 0));
    assert_eq!(*s.registers(), SimulatorRegisters::new());
    assert!(!s.flags().zero && !s.flags().sign);
}

#[test]
fn register_write_and_read() {
    let mut r = SimulatorRegisters::new();
    r.write(77, BX, true);
    assert_eq!(r.read(BX, true), 77);
    assert_eq!(r.read(AX, true), 0);
    r.write(5, AX, true);
    assert_eq!(r.read(AX, true), 5);
    assert_eq!(r.read(BX, true), 77);
    assert_eq!(r.read(BX, false), 0);
}

#[test]
fn state_memory_and_ip_accessors() {
    let mut s = SimulatorState::new();
    s.write_mem_byte(0xFFFFF, 9);
    assert_eq!(s.read_mem_byte(0xFFFFF), 9);
    s.write_ip(42);
    assert_eq!(s.read_ip(), 42);
}

#[test]
fn add_to_memory_sets_sign_from_bit_fifteen() {
    // MOV CX, 0x7FFF; MOV [1000], CX; ADD word [1000], 1 (sign-extend form)
    let bytes = [
        0xB9, 0xFF, 0x7F, 0x89, 0x0E, 0xE8, 0x03, 0x83, 0x06, 0xE8, 0x03, 0x01,
    ];
    let s = simulate(&bytes, false, 10);
    assert_eq!(s.stop, Some(StopReason::EndOfProgram));
    assert_eq!(s.state.read_mem_byte(1000), 0x00);
    assert_eq!(s.state.read_mem_byte(1001), 0x80);
    assert!(s.state.flags().sign);
    assert!(!s.state.flags().zero);
}

#[test]
fn je_taken_skips_forward() {
    // CMP AX, BX (both zero); JE +3; MOV CX, 7; MOV DX, 9
    let bytes = [0x39, 0xD8, 0x74, 0x03, 0xB9, 0x07, 0x00, 0xBA, 0x09, 0x00];
    let s = simulate(&bytes, false, 10);
    assert_eq!(s.stop, Some(StopReason::EndOfProgram));
    assert_eq!(s.state.read_register(CX), 0);
    assert_eq!(s.state.read_register(2), 9);
    assert_eq!(s.state.read_ip(), 10);
}

#[test]
fn byte_width_arithmetic_on_memory_uses_the_word() {
    // MOV CX, 0x01FF; MOV [1000], CX; ADD byte [1000], 1
    let bytes = [
        0xB9, 0xFF, 0x01, 0x89, 0x0E, 0xE8, 0x03, 0x80, 0x06, 0xE8, 0x03, 0x01,
    ];
    let s = simulate(&bytes, false, 10);
    assert_eq!(s.stop, Some(StopReason::EndOfProgram));
    assert_eq!(s.state.read_mem_byte(1000), 0x00);
    assert_eq!(s.state.read_mem_byte(1001), 0x02);
    assert!(!s.state.flags().zero);
    assert!(!s.state.flags().sign);
}

#[test]
fn mov_from_memory_into_word_register_reads_a_word() {
    // MOV CX, 0x1234; MOV [232], CX; MOV AX, [232] (accumulator form, width bit clear)
    let bytes = [0xB9, 0x34, 0x12, 0x89, 0x0E, 0xE8, 0x00, 0xA0, 0xE8];
    let s = simulate(&bytes, false, 10);
    assert_eq!(s.stop, Some(StopReason::EndOfProgram));
    assert_eq!(s.state.read_register(AX), 0x1234);
}

#[test]
fn byte_move_to_memory_writes_one_byte() {
    // MOV byte [232], 7 after a word store of 0x1234 there
    let bytes = [
        0xB9, 0x34, 0x12, 0x89, 0x0E, 0xE8, 0x00, 0xC6, 0x06, 0xE8, 0x00, 0x07,
    ];
    let s = simulate(&bytes, false, 10);
    assert_eq!(s.stop, Some(StopReason::EndOfProgram));
    assert_eq!(s.state.read_mem_byte(232), 7);
    assert_eq!(s.state.read_mem_byte(233), 0x12);
}

#[test]
fn byte_register_write_reports_not_done() {
    let mut r = SimulatorRegisters::new();
    assert!(!r.write(9, 1, false));
    assert!(!r.write(9, 8, true));
    assert_eq!(r, SimulatorRegisters::new());
    assert!(r.write(9, 1, true));
    assert_eq!(r.read(1, true), 9);
}
