use vstd::prelude::*;

use crate::decoder::{
    byte_at, decode, decode_form, decodes_to, sign_extend, signed_byte,
};
use crate::instruction::{Instruction, InstructionOperand, InstructionTime, OperandType};
use crate::op_code::OpCode;
use crate::program::{lookup, Program};
use crate::simulator::simulator_state::{initial_machine, Machine, SimulatorState};

verus! {

/// Why a run stopped.
#[derive(Clone, Copy, Debug, PartialEq, Eq, Structural)]
pub enum StopReason {
    /// The instruction pointer reached the end of the program: normal end.
    EndOfProgram,
    /// The instruction pointer is at an undecodable instruction.
    InvalidOpCode,
    /// The instruction pointer is at an offset that starts no instruction.
    InvalidAddress,
    /// The instruction decodes but executing it is not supported: a
    /// conditional jump other than JNZ and JE, or a byte register operand.
    Unimplemented(OpCode),
    /// Cycle accounting is on and the instruction has no cycle estimate.
    MissingTiming,
    /// The operands form a combination that no encoding produces, such as
    /// arithmetic into an immediate.
    InvalidOperands,
}

/// Value of an optional register, zero when absent.
pub open spec fn opt_reg(m: Machine, r: Option<u8>) -> int {
    match r {
        Some(r) => m.regs[r as int] as int,
        None => 0,
    }
}

/// Address of a memory operand: base plus index plus displacement, modulo
/// 2^16.
pub open spec fn ea_address(m: Machine, o: InstructionOperand) -> int {
    let disp = match o.eac_displacement {
        Some(d) => d as int,
        None => 0,
    };
    (opt_reg(m, o.eac_reg_0) + opt_reg(m, o.eac_reg_1) + disp) % 0x10000
}

/// Whether a memory operand is accessed as a word (the default) or a byte.
pub open spec fn word_access(o: InstructionOperand) -> bool {
    o.register_word != Some(false)
}

/// The operand as add, subtract and compare use it: a memory operand is
/// always accessed as a little-endian word.
pub open spec fn as_word(o: InstructionOperand) -> InstructionOperand {
    if o.operand_type == OperandType::EAC {
        InstructionOperand { register_word: Some(true), ..o }
    } else {
        o
    }
}

/// The source of a move as it is read: a memory source moved into a
/// register is read at the register's width.
pub open spec fn mov_source(src: InstructionOperand, dest: InstructionOperand) -> InstructionOperand {
    if src.operand_type == OperandType::EAC && dest.operand_type == OperandType::REGISTER {
        InstructionOperand { register_word: dest.register_word, ..src }
    } else {
        src
    }
}

/// Value of an operand.
pub open spec fn read_operand(m: Machine, o: InstructionOperand) -> u16 {
    match o.operand_type {
        OperandType::REGISTER => m.regs[o.register.unwrap() as int],
        OperandType::EAC => {
            let a = ea_address(m, o);
            if word_access(o) {
                (m.memory[a] + m.memory[a + 1] * 256) as u16
            } else {
                m.memory[a] as u16
            }
        },
        OperandType::LITERAL => o.literal.unwrap(),
    }
}

/// The state after writing `v` to a register or memory operand, memory
/// little-endian.
pub open spec fn write_operand(m: Machine, o: InstructionOperand, v: u16) -> Machine {
    match o.operand_type {
        OperandType::REGISTER => Machine { regs: m.regs.update(o.register.unwrap() as int, v), ..m },
        OperandType::EAC => {
            let a = ea_address(m, o);
            if word_access(o) {
                Machine {
                    memory: m.memory.update(a, (v % 256) as u8).update(a + 1, (v / 256) as u8),
                    ..m
                }
            } else {
                Machine { memory: m.memory.update(a, (v % 256) as u8), ..m }
            }
        },
        OperandType::LITERAL => m,
    }
}

/// Result of an add, or of a subtract or compare, on 16 bits, modulo 2^16.
pub open spec fn arith(op: OpCode, d: u16, s: u16) -> u16 {
    if op == OpCode::Add {
        ((d + s) % 0x10000) as u16
    } else {
        ((d - s + 0x10000) % 0x10000) as u16
    }
}

/// Whether the zero and sign flags in `m` are those of the result `r`.
pub open spec fn flags_of(m: Machine, r: u16) -> bool {
    &&& m.zero == (r == 0)
    &&& m.sign == (r >= 0x8000)
}

/// What stops an operand from being executed, if anything.
pub open spec fn operand_problem(op: OpCode, o: InstructionOperand) -> Option<StopReason> {
    match o.operand_type {
        OperandType::REGISTER => match o.register {
            Some(r) => if r >= 8 {
                Some(StopReason::InvalidOperands)
            } else if o.register_word != Some(true) {
                Some(StopReason::Unimplemented(op))
            } else {
                None
            },
            None => Some(StopReason::InvalidOperands),
        },
        OperandType::EAC => {
            let bad_base = match o.eac_reg_0 {
                Some(r) => r >= 8,
                None => false,
            };
            let bad_index = match o.eac_reg_1 {
                Some(r) => r >= 8,
                None => false,
            };
            if bad_base || bad_index {
                Some(StopReason::InvalidOperands)
            } else {
                None
            }
        },
        OperandType::LITERAL => if o.literal is None {
            Some(StopReason::InvalidOperands)
        } else {
            None
        },
    }
}

/// What stops instruction `i` from being executed, if anything.
pub open spec fn instruction_problem(i: Instruction) -> Option<StopReason> {
    match i.op_code {
        OpCode::EndOfProgram => Some(StopReason::EndOfProgram),
        OpCode::Invalid => Some(StopReason::InvalidOpCode),
        OpCode::InvalidAddress => Some(StopReason::InvalidAddress),
        OpCode::Mov | OpCode::Add | OpCode::Sub | OpCode::Cmp => match (
            i.dest_operand,
            i.src_operand,
        ) {
            (Some(d), Some(s)) => if d.operand_type == OperandType::LITERAL {
                Some(StopReason::InvalidOperands)
            } else if operand_problem(i.op_code, d) is Some {
                operand_problem(i.op_code, d)
            } else {
                operand_problem(i.op_code, s)
            },
            _ => Some(StopReason::InvalidOperands),
        },
        OpCode::Jnz | OpCode::Je => match i.dest_operand {
            Some(d) => if d.operand_type == OperandType::LITERAL && d.literal is Some {
                None
            } else {
                Some(StopReason::InvalidOperands)
            },
            None => Some(StopReason::InvalidOperands),
        },
        _ => Some(StopReason::Unimplemented(i.op_code)),
    }
}

/// Whether a conditional jump is taken.
pub open spec fn branch_taken(op: OpCode, zero: bool) -> bool {
    (op == OpCode::Jnz && !zero) || (op == OpCode::Je && zero)
}

/// Effect of an executable instruction on a state whose instruction
/// pointer has already moved past it.
#[verifier::opaque]
pub open spec fn execute(i: Instruction, m: Machine) -> Machine {
    let d = i.dest_operand.unwrap();
    match i.op_code {
        OpCode::Mov => write_operand(m, d, read_operand(m, mov_source(i.src_operand.unwrap(), d))),
        OpCode::Add | OpCode::Sub | OpCode::Cmp => {
            let r = arith(
                i.op_code,
                read_operand(m, as_word(d)),
                read_operand(m, as_word(i.src_operand.unwrap())),
            );
            let flagged = Machine { zero: r == 0, sign: r >= 0x8000, ..m };
            if i.op_code == OpCode::Cmp {
                flagged
            } else {
                write_operand(flagged, as_word(d), r)
            }
        },
        _ => if branch_taken(i.op_code, m.zero) {
            Machine { ip: ((m.ip + d.literal.unwrap()) % 0x10000) as u16, ..m }
        } else {
            m
        },
    }
}

/// Cycle counter after adding an estimate, saturating.
pub open spec fn add_time(cycles: u64, t: InstructionTime) -> u64 {
    cycles.saturating_add(t.cycles_base as u64).saturating_add(t.cycles_ea as u64)
}

/// One step from state `m`: the next state, and the reason to stop, if the
/// instruction at the instruction pointer cannot be executed. A step that
/// stops leaves the state unchanged.
pub open spec fn step_spec(p: Program, m: Machine, timed: bool) -> (Machine, Option<StopReason>) {
    let i = lookup(p, m.ip as int);
    if instruction_problem(i) is Some {
        (m, instruction_problem(i))
    } else if timed && i.time_estimation is None {
        (m, Some(StopReason::MissingTiming))
    } else {
        let counted = if timed {
            add_time(m.cycles, i.time_estimation.unwrap())
        } else {
            m.cycles
        };
        let advanced = Machine { cycles: counted, ip: ((m.ip + i.length) % 0x10000) as u16, ..m };
        (execute(i, advanced), None)
    }
}

/// At most `n` steps from `m`: the final state and why the run stopped, or
/// `None` when it was still running after `n` steps.
pub open spec fn run_spec(p: Program, m: Machine, timed: bool, n: nat) -> (Machine, Option<
    StopReason,
>)
    decreases n,
{
    if n == 0 {
        (m, None)
    } else {
        let (next, stop) = step_spec(p, m, timed);
        if stop is Some {
            (next, stop)
        } else {
            run_spec(p, next, timed, (n - 1) as nat)
        }
    }
}

/// Value of an optional register, zero when absent.
fn opt_reg_value(state: &SimulatorState, r: Option<u8>) -> (v: u16)
    requires
        state.wf(),
        match r {
            Some(r) => r < 8,
            None => true,
        },
    ensures
        v == opt_reg(state@, r),
{
    match r {
        Some(r) => state.read_register(r),
        None => 0,
    }
}

/// Address of a memory operand.
fn effective_address(state: &SimulatorState, o: &InstructionOperand) -> (a: usize)
    requires
        state.wf(),
        o.operand_type == OperandType::EAC,
        operand_problem(OpCode::Mov, *o) is None,
    ensures
        a == ea_address(state@, *o),
        a < 0x10000,
{
    let base = opt_reg_value(state, o.eac_reg_0) as u32;
    let index = opt_reg_value(state, o.eac_reg_1) as u32;
    let disp: u32 = match o.eac_displacement {
        Some(d) => d as u32,
        None => 0,
    };
    ((base + index + disp) % 0x10000) as usize
}

/// Value of an operand.
fn read_operand_value(state: &SimulatorState, op: OpCode, o: &InstructionOperand) -> (v: u16)
    requires
        state.wf(),
        operand_problem(op, *o) is None,
    ensures
        v == read_operand(state@, *o),
{
    match o.operand_type {
        OperandType::REGISTER => state.read_register(o.register.unwrap()),
        OperandType::EAC => {
            let a = effective_address(state, o);
            let lo = state.read_mem_byte(a) as u16;
            if o.register_word != Some(false) {
                let hi = state.read_mem_byte(a + 1) as u16;
                lo + hi * 256
            } else {
                lo
            }
        },
        OperandType::LITERAL => o.literal.unwrap(),
    }
}

/// Writes `v` to a register or memory operand.
fn write_operand_value(state: &mut SimulatorState, op: OpCode, o: &InstructionOperand, v: u16)
    requires
        old(state).wf(),
        operand_problem(op, *o) is None,
        o.operand_type != OperandType::LITERAL,
    ensures
        final(state).wf(),
        final(state)@ == write_operand(old(state)@, *o, v),
{
    match o.operand_type {
        OperandType::REGISTER => state.write_register(v, o.register.unwrap()),
        OperandType::EAC => {
            let a = effective_address(state, o);
            state.write_mem_byte(a, (v % 256) as u8);
            if o.register_word != Some(false) {
                state.write_mem_byte(a + 1, (v / 256) as u8);
            }
        },
        OperandType::LITERAL => {},
    }
}

/// Executes a move whose instruction pointer has already been advanced. The
/// value moved has the destination's width: a memory source is read as a
/// word into a word register, and a memory destination is written at its
/// own width.
fn simulate_mov(instruction: &Instruction, state: &mut SimulatorState)
    requires
        old(state).wf(),
        instruction.op_code == OpCode::Mov,
        instruction_problem(*instruction) is None,
    ensures
        final(state).wf(),
        final(state)@ == execute(*instruction, old(state)@),
{
    reveal(execute);
    let mut src = instruction.src_operand.unwrap();
    let dest = instruction.dest_operand.unwrap();
    if src.operand_type == OperandType::EAC && dest.operand_type == OperandType::REGISTER {
        src.register_word = dest.register_word;
    }
    let data = read_operand_value(state, instruction.op_code, &src);
    write_operand_value(state, instruction.op_code, &dest, data);
}

/// Executes an add, subtract or compare whose instruction pointer has
/// already been advanced: sets the zero and sign flags from the 16-bit
/// result and, but for a compare, writes it to the destination. Memory
/// operands are read and written as little-endian words.
fn simulate_add_sub_cmp(instruction: &Instruction, state: &mut SimulatorState)
    requires
        old(state).wf(),
        instruction.op_code == OpCode::Add || instruction.op_code == OpCode::Sub
            || instruction.op_code == OpCode::Cmp,
        instruction_problem(*instruction) is None,
    ensures
        final(state).wf(),
        final(state)@ == execute(*instruction, old(state)@),
{
    reveal(execute);
    let op = instruction.op_code;
    let mut src = instruction.src_operand.unwrap();
    let mut dest = instruction.dest_operand.unwrap();
    if src.operand_type == OperandType::EAC {
        src.register_word = Some(true);
    }
    if dest.operand_type == OperandType::EAC {
        dest.register_word = Some(true);
    }
    let data_src = read_operand_value(state, op, &src) as u32;
    let data_dest = read_operand_value(state, op, &dest) as u32;
    let result: u16 = if op == OpCode::Add {
        ((data_dest + data_src) % 0x10000) as u16
    } else {
        ((data_dest + 0x10000 - data_src) % 0x10000) as u16
    };
    state.write_flags(result == 0, result >= 0x8000);
    if op != OpCode::Cmp {
        write_operand_value(state, op, &dest, result);
    }
}

/// Executes a JNZ or JE whose instruction pointer has already been
/// advanced: when taken, adds the sign-extended displacement to it.
fn simulate_conditional_jmp(instruction: &Instruction, state: &mut SimulatorState)
    requires
        old(state).wf(),
        instruction.op_code == OpCode::Jnz || instruction.op_code == OpCode::Je,
        instruction_problem(*instruction) is None,
    ensures
        final(state).wf(),
        final(state)@ == execute(*instruction, old(state)@),
{
    reveal(execute);
    let zero = state.flags().zero;
    let taken = (instruction.op_code == OpCode::Jnz && !zero) || (instruction.op_code == OpCode::Je
        && zero);
    if taken {
        let increment = instruction.dest_operand.unwrap().literal.unwrap() as u32;
        let ip = state.read_ip() as u32;
        state.write_ip(((ip + increment) % 0x10000) as u16);
    }
}

/// What stops an operand from being executed, if anything.
fn check_operand(op: OpCode, o: &InstructionOperand) -> (r: Option<StopReason>)
    ensures
        r == operand_problem(op, *o),
{
    match o.operand_type {
        OperandType::REGISTER => match o.register {
            Some(r) => if r >= 8 {
                Some(StopReason::InvalidOperands)
            } else if o.register_word != Some(true) {
                Some(StopReason::Unimplemented(op))
            } else {
                None
            },
            None => Some(StopReason::InvalidOperands),
        },
        OperandType::EAC => {
            let bad_base = match o.eac_reg_0 {
                Some(r) => r >= 8,
                None => false,
            };
            let bad_index = match o.eac_reg_1 {
                Some(r) => r >= 8,
                None => false,
            };
            if bad_base || bad_index {
                Some(StopReason::InvalidOperands)
            } else {
                None
            }
        },
        OperandType::LITERAL => if o.literal.is_none() {
            Some(StopReason::InvalidOperands)
        } else {
            None
        },
    }
}

/// What stops an instruction from being executed, if anything.
pub fn check_instruction(i: &Instruction) -> (r: Option<StopReason>)
    ensures
        r == instruction_problem(*i),
{
    match i.op_code {
        OpCode::EndOfProgram => Some(StopReason::EndOfProgram),
        OpCode::Invalid => Some(StopReason::InvalidOpCode),
        OpCode::InvalidAddress => Some(StopReason::InvalidAddress),
        OpCode::Mov | OpCode::Add | OpCode::Sub | OpCode::Cmp => match (
            i.dest_operand,
            i.src_operand,
        ) {
            (Some(d), Some(s)) => if d.operand_type == OperandType::LITERAL {
                Some(StopReason::InvalidOperands)
            } else {
                let problem = check_operand(i.op_code, &d);
                if problem.is_some() {
                    problem
                } else {
                    check_operand(i.op_code, &s)
                }
            },
            _ => Some(StopReason::InvalidOperands),
        },
        OpCode::Jnz | OpCode::Je => match i.dest_operand {
            Some(d) => if d.operand_type == OperandType::LITERAL && d.literal.is_some() {
                None
            } else {
                Some(StopReason::InvalidOperands)
            },
            None => Some(StopReason::InvalidOperands),
        },
        _ => Some(StopReason::Unimplemented(i.op_code)),
    }
}

/// Runs one fetch-dispatch-execute step: looks up the instruction at the
/// instruction pointer, counts its cycles when `estimate_cycles` is set,
/// moves the instruction pointer past it and executes it. Returns why the
/// run must stop, leaving the state unchanged, when the instruction cannot
/// be executed.
pub fn step(program: &Program, state: &mut SimulatorState, estimate_cycles: bool) -> (r: Option<
    StopReason,
>)
    requires
        program.wf(),
        old(state).wf(),
    ensures
        final(state).wf(),
        (final(state)@, r) == step_spec(*program, old(state)@, estimate_cycles),
{
    let instruction = program.get_instruction_at_byte(state.read_ip() as usize).unwrap();
    let problem = check_instruction(instruction);
    if problem.is_some() {
        return problem;
    }
    if estimate_cycles {
        match instruction.time_estimation {
            Some(t) => {
                state.add_cycles(t.cycles_base as u64);
                state.add_cycles(t.cycles_ea as u64);
            },
            None => return Some(StopReason::MissingTiming),
        }
    }
    let ip = state.read_ip() as usize;
    state.write_ip(((ip + instruction.length % 0x10000) % 0x10000) as u16);
    match instruction.op_code {
        OpCode::Mov => simulate_mov(instruction, state),
        OpCode::Add | OpCode::Sub | OpCode::Cmp => simulate_add_sub_cmp(instruction, state),
        _ => simulate_conditional_jmp(instruction, state),
    }
    None
}

/// Runs at most `max_steps` steps; returns why the run stopped, or `None`
/// when it was still running after `max_steps` steps.
pub fn run(program: &Program, state: &mut SimulatorState, estimate_cycles: bool, max_steps: u64) -> (r:
    Option<StopReason>)
    requires
        program.wf(),
        old(state).wf(),
    ensures
        final(state).wf(),
        (final(state)@, r) == run_spec(*program, old(state)@, estimate_cycles, max_steps as nat),
{
    let mut n = max_steps;
    while n > 0
        invariant
            program.wf(),
            state.wf(),
            run_spec(*program, state@, estimate_cycles, n as nat) == run_spec(
                *program,
                old(state)@,
                estimate_cycles,
                max_steps as nat,
            ),
        decreases n,
    {
        let ghost before = state@;
        let stop = step(program, state, estimate_cycles);
        assert(run_spec(*program, before, estimate_cycles, n as nat) == if stop is Some {
            (state@, stop)
        } else {
            run_spec(*program, state@, estimate_cycles, (n - 1) as nat)
        });
        if stop.is_some() {
            return stop;
        }
        n = n - 1;
    }
    None
}

/// A simulation run: the decoded program, the final state, and why the run
/// stopped (`None` when the step limit was reached first).
pub struct Simulation {
    pub program: Program,
    pub state: SimulatorState,
    pub stop: Option<StopReason>,
}

/// Decodes `bytes` and runs the program from a fresh state for at most
/// `max_steps` steps, counting cycles when `estimate_cycles` is set.
pub fn simulate(bytes: &[u8], estimate_cycles: bool, max_steps: u64) -> (r: Simulation)
    ensures
        decodes_to(r.program, bytes@, estimate_cycles),
        r.state.wf(),
        (r.state@, r.stop) == run_spec(r.program, initial_machine(), estimate_cycles, max_steps as nat),
{
    let disassembly = decode(bytes, estimate_cycles);
    let program = disassembly.program;
    let mut state = SimulatorState::new();
    let stop = run(&program, &mut state, estimate_cycles, max_steps);
    Simulation { program, state, stop }
}

/// The two instructions agree on everything that execution reads.
pub open spec fn same_behaviour(i1: Instruction, i2: Instruction) -> bool {
    &&& i1.op_code == i2.op_code
    &&& i1.dest_operand == i2.dest_operand
    &&& i1.src_operand == i2.src_operand
    &&& i1.length == i2.length
    &&& i1.time_estimation == i2.time_estimation
}

/// Two programs decoded from the same bytes answer every lookup alike, but
/// for the text.
proof fn lemma_same_lookup(b: Seq<u8>, first: Program, second: Program, timed: bool, ip: int)
    requires
        decodes_to(first, b, timed),
        decodes_to(second, b, timed),
        0 <= ip,
    ensures
        same_behaviour(lookup(first, ip), lookup(second, ip)),
{
    if 0 <= ip < b.len() {
        let k = ip as usize;
        if first.instruction_map().contains_key(k) {
            assert(second.instruction_map().contains_key(k));
        } else {
            assert(!second.instruction_map().contains_key(k));
        }
    }
}

/// Two programs decoded from the same bytes run alike from any state.
proof fn lemma_run_same(b: Seq<u8>, first: Program, second: Program, timed: bool, m: Machine, n: nat)
    requires
        decodes_to(first, b, timed),
        decodes_to(second, b, timed),
    ensures
        run_spec(first, m, timed, n) == run_spec(second, m, timed, n),
    decreases n,
{
    reveal(execute);
    if n > 0 {
        lemma_same_lookup(b, first, second, timed, m.ip as int);
        assert(step_spec(first, m, timed) == step_spec(second, m, timed));
        let (next, stop) = step_spec(first, m, timed);
        lemma_run_same(b, first, second, timed, next, (n - 1) as nat);
    }
}

/// Simulation is deterministic: two runs on the same bytes, with the same
/// settings, end in the same registers, flags, instruction pointer, memory
/// and cycle count, and stop for the same reason.
pub proof fn lemma_simulation_deterministic(
    b: Seq<u8>,
    first: Program,
    second: Program,
    timed: bool,
    max_steps: nat,
)
    requires
        decodes_to(first, b, timed),
        decodes_to(second, b, timed),
    ensures
        run_spec(first, initial_machine(), timed, max_steps) == run_spec(
            second,
            initial_machine(),
            timed,
            max_steps,
        ),
{
    lemma_run_same(b, first, second, timed, initial_machine(), max_steps);
}

/// A taken conditional jump of length `l` at offset `o`, with signed
/// displacement `d`, sets the instruction pointer to `o + l + d` (modulo
/// 2^16).
#[verifier::rlimit(40)]
pub proof fn lemma_branch_displacement(b: Seq<u8>, p: Program, m: Machine, o: usize)
    requires
        decodes_to(p, b, false),
        p.instruction_map().contains_key(o),
        m.ip == o,
        lookup(p, o as int).op_code == OpCode::Jnz || lookup(p, o as int).op_code == OpCode::Je,
        branch_taken(lookup(p, o as int).op_code, m.zero),
    ensures
        step_spec(p, m, false).1 is None,
        step_spec(p, m, false).0.ip == (o + lookup(p, o as int).length + signed_byte(
            byte_at(b, o + 1),
        )) % 0x10000,
{
    reveal(execute);
    let f = decode_form(b, o as int).unwrap();
    let x = byte_at(b, o + 1);
    assert(f.length == 2);
    assert(f.dest == Some(crate::instruction::literal_operand(sign_extend(x), None)));
}

/// Add, subtract and compare set the zero flag exactly when the 16-bit
/// result is zero, and the sign flag to bit 15 of the result, whatever the
/// kinds of the operands (a memory operand counts as the little-endian word
/// at its address).
pub proof fn lemma_flags(p: Program, m: Machine, timed: bool)
    requires
        p.wf(),
        lookup(p, m.ip as int).op_code == OpCode::Add || lookup(p, m.ip as int).op_code == OpCode::Sub
            || lookup(p, m.ip as int).op_code == OpCode::Cmp,
        step_spec(p, m, timed).1 is None,
    ensures
        ({
            let i = lookup(p, m.ip as int);
            let r = arith(
                i.op_code,
                read_operand(m, as_word(i.dest_operand.unwrap())),
                read_operand(m, as_word(i.src_operand.unwrap())),
            );
            &&& step_spec(p, m, timed).0.zero == (r == 0)
            &&& step_spec(p, m, timed).0.sign == (r & 0x8000 != 0)
        }),
{
    reveal(execute);
    let i = lookup(p, m.ip as int);
    let r = arith(
        i.op_code,
        read_operand(m, as_word(i.dest_operand.unwrap())),
        read_operand(m, as_word(i.src_operand.unwrap())),
    );
    assert(r >= 0x8000 <==> r & 0x8000 != 0) by (bit_vector);
}

} // verus!
