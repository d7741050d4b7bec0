use vstd::prelude::*;

verus! {

/// Size of the flat address space, in bytes.
pub const MEMORY_SIZE: usize = 0x100000;

/// Mathematical model of the CPU state: the eight word registers in
/// encoding order (AX, CX, DX, BX, SP, BP, SI, DI), the zero and sign flags,
/// the instruction pointer, the memory and the cycle counter.
pub struct Machine {
    pub regs: Seq<u16>,
    pub zero: bool,
    pub sign: bool,
    pub ip: u16,
    pub memory: Seq<u8>,
    pub cycles: u64,
}

/// The eight word registers.
#[derive(Clone, Copy, Debug, PartialEq, Eq, Structural)]
pub struct SimulatorRegisters {
    ax: u16,
    bx: u16,
    cx: u16,
    dx: u16,
    sp: u16,
    bp: u16,
    si: u16,
    di: u16,
}

/// The modelled flags: zero and sign.
#[derive(Clone, Copy, Debug, PartialEq, Eq, Structural)]
pub struct SimulatorFlagsRegister {
    pub sign: bool,
    pub zero: bool,
}

/// CPU state of one simulation run.
pub struct SimulatorState {
    registers: SimulatorRegisters,
    flags_register: SimulatorFlagsRegister,
    ip: u16,
    memory: Vec<u8>,
    cycles: u64,
}

impl View for SimulatorRegisters {
    type V = Seq<u16>;

    /// Register values by register code.
    closed spec fn view(&self) -> Seq<u16> {
        seq![self.ax, self.cx, self.dx, self.bx, self.sp, self.bp, self.si, self.di]
    }
}

impl SimulatorRegisters {
    /// All registers zero.
    pub fn new() -> (r: Self)
        ensures
            r@.len() == 8,
            r@ == seq![0u16; 8],
    {
        let r = Self { ax: 0, bx: 0, cx: 0, dx: 0, sp: 0, bp: 0, si: 0, di: 0 };
        assert(r@ =~= seq![0u16; 8]);
        r
    }

    /// Value of the word register with code `reg_bytes`. Byte registers are
    /// not modelled and read as zero, as do codes wider than three bits.
    pub fn read(&self, reg_bytes: u8, is_word: bool) -> (r: u16)
        ensures
            self@.len() == 8,
            r == if is_word && reg_bytes < 8 {
                self@[reg_bytes as int]
            } else {
                0
            },
    {
        if !is_word {
            return 0;
        }
        match reg_bytes {
            0 => self.ax,
            1 => self.cx,
            2 => self.dx,
            3 => self.bx,
            4 => self.sp,
            5 => self.bp,
            6 => self.si,
            7 => self.di,
            _ => 0,
        }
    }

    /// Writes `data` to the word register with code `reg_bytes` and returns
    /// `true`. Byte registers are not modelled: a write to one, or to a code
    /// wider than three bits, changes nothing and returns `false`, so the
    /// caller learns that the write was not done.
    pub fn write(&mut self, data: u16, reg_bytes: u8, is_word: bool) -> (written: bool)
        ensures
            old(self)@.len() == 8,
            final(self)@.len() == 8,
            written == (is_word && reg_bytes < 8),
            written ==> final(self)@ == old(self)@.update(reg_bytes as int, data),
            !written ==> final(self)@ == old(self)@,
    {
        if !is_word {
            return false;
        }
        match reg_bytes {
            0 => self.ax = data,
            1 => self.cx = data,
            2 => self.dx = data,
            3 => self.bx = data,
            4 => self.sp = data,
            5 => self.bp = data,
            6 => self.si = data,
            7 => self.di = data,
            _ => return false,
        }
        assert(self@ =~= old(self)@.update(reg_bytes as int, data));
        true
    }
}

impl SimulatorFlagsRegister {
    /// Both flags clear.
    pub fn new() -> (r: Self)
        ensures
            !r.zero,
            !r.sign,
    {
        Self { zero: false, sign: false }
    }
}

impl View for SimulatorState {
    type V = Machine;

    closed spec fn view(&self) -> Machine {
        Machine {
            regs: self.registers@,
            zero: self.flags_register.zero,
            sign: self.flags_register.sign,
            ip: self.ip,
            memory: self.memory@,
            cycles: self.cycles,
        }
    }
}

/// The state in which every run starts: registers, flags, instruction
/// pointer, memory and cycle counter all zero.
pub open spec fn initial_machine() -> Machine {
    Machine {
        regs: seq![0u16; 8],
        zero: false,
        sign: false,
        ip: 0,
        memory: Seq::new(MEMORY_SIZE as nat, |i: int| 0u8),
        cycles: 0,
    }
}

impl SimulatorState {
    /// The memory has its full size.
    pub open spec fn wf(&self) -> bool {
        &&& self@.memory.len() == MEMORY_SIZE
        &&& self@.regs.len() == 8
    }

    /// A fresh state: everything zero.
    pub fn new() -> (r: Self)
        ensures
            r.wf(),
            r@ == initial_machine(),
    {
        let registers = SimulatorRegisters::new();
        let flags_register = SimulatorFlagsRegister::new();
        let memory: Vec<u8> = vec![0u8; MEMORY_SIZE];
        let r = Self { registers, flags_register, ip: 0, memory, cycles: 0 };
        assert(r@.memory =~= initial_machine().memory);
        r
    }

    /// The instruction pointer.
    pub fn read_ip(&self) -> (r: u16)
        ensures
            r == self@.ip,
    {
        self.ip
    }

    /// Sets the instruction pointer.
    pub fn write_ip(&mut self, ip: u16)
        ensures
            final(self)@ == (Machine { ip, ..old(self)@ }),
    {
        self.ip = ip;
    }

    /// The registers, read-only.
    pub fn registers(&self) -> (r: &SimulatorRegisters)
        ensures
            r@ == self@.regs,
    {
        &self.registers
    }

    /// The flags.
    pub fn flags(&self) -> (r: SimulatorFlagsRegister)
        ensures
            r.zero == self@.zero,
            r.sign == self@.sign,
    {
        self.flags_register
    }

    /// Value of the word register with code `reg`.
    pub fn read_register(&self, reg: u8) -> (r: u16)
        requires
            self.wf(),
            reg < 8,
        ensures
            r == self@.regs[reg as int],
    {
        self.registers.read(reg, true)
    }

    /// Cycles counted so far.
    pub fn cycles(&self) -> (r: u64)
        ensures
            r == self@.cycles,
    {
        self.cycles
    }

    /// Adds `n` cycles to the counter, which saturates at its maximum.
    pub fn add_cycles(&mut self, n: u64)
        ensures
            final(self)@ == (Machine { cycles: old(self)@.cycles.saturating_add(n), ..old(self)@ }),
    {
        self.cycles = self.cycles.saturating_add(n);
    }

    /// The memory byte at `address`.
    pub fn read_mem_byte(&self, address: usize) -> (r: u8)
        requires
            self.wf(),
            address < MEMORY_SIZE,
        ensures
            r == self@.memory[address as int],
    {
        self.memory[address]
    }

    /// Writes the memory byte at `address`.
    pub fn write_mem_byte(&mut self, address: usize, data: u8)
        requires
            old(self).wf(),
            address < MEMORY_SIZE,
        ensures
            final(self)@ == (Machine {
                memory: old(self)@.memory.update(address as int, data),
                ..old(self)@
            }),
    {
        self.memory.set(address, data);
    }

    /// The whole memory, read-only.
    pub fn memory(&self) -> (r: &[u8])
        ensures
            r@ == self@.memory,
    {
        self.memory.as_slice()
    }

    /// Sets the zero and sign flags.
    pub fn write_flags(&mut self, zero: bool, sign: bool)
        ensures
            final(self)@ == (Machine { zero, sign, ..old(self)@ }),
    {
        self.flags_register.zero = zero;
        self.flags_register.sign = sign;
    }

    /// Writes a word register.
    pub fn write_register(&mut self, data: u16, reg: u8)
        requires
            reg < 8,
        ensures
            final(self)@ == (Machine { regs: old(self)@.regs.update(reg as int, data), ..old(self)@ }),
    {
        self.registers.write(data, reg, true);
    }
}

} // verus!
