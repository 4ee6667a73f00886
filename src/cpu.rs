//! The executable processor: registers, flags and memory, and the
//! instruction cycle proved against the model in `machine`.
use vstd::prelude::*;
use crate::alu::{alu, daa, dad, dcr, inr, ral, rar, rlc, rrc};
use crate::isa::{Cond, Instr, Pair, Reg8, StackPair, decode, decode_spec, size_spec};
use crate::machine::{MEMORY_SIZE, Machine, lemma_next_pc, wrap16};
use crate::registers::{Flags, RegisterPair};
use crate::space_invader::IOState;

verus! {

/// The direction of a port access.
#[derive(Clone, Copy, Debug, PartialEq, Eq, Structural)]
pub enum PortDir {
    In,
    Out,
}

/// The failures of the emulator; each one ends the emulation.
#[derive(Clone, Copy, Debug, PartialEq, Eq, Structural)]
pub enum EmuError {
    /// The I/O bridge has no such port in that direction.
    UnsupportedPort { port: u8, dir: PortDir },
    /// `HLT` was fetched at `pc`.
    Halted { pc: u16 },
    /// The image does not fit in memory at the offset given.
    RomTooLarge { offset: usize, len: usize },
}

/// Memory after loading `rom` at `start` into a zeroed address space.
pub open spec fn loaded_memory(rom: Seq<u8>, start: int) -> Seq<u8> {
    Seq::new(
        MEMORY_SIZE as nat,
        |i: int|
            if start <= i < start + rom.len() {
                rom[i - start]
            } else {
                0u8
            },
    )
}

/// The state of a new processor: every register, flag and byte zero.
pub open spec fn reset_state(mem: Seq<u8>, pc: u16) -> Machine {
    Machine {
        a: 0,
        bc: 0,
        de: 0,
        hl: 0,
        sp: 0,
        pc,
        flags: Flags { zero: false, sign: false, parity: false, carry: false, aux_carry: false },
        interrupts_enabled: false,
        mem,
    }
}

/// One instruction cycle: the new state, the new I/O state, and the
/// cycles taken or the failure. A failed step changes nothing.
pub open spec fn step_spec<IO: IOState>(m: Machine, io: IO) -> (Machine, IO, Result<u64, EmuError>) {
    let i = decode_spec(m.read(m.pc));
    match i {
        Instr::Hlt => (m, io, Err(EmuError::Halted { pc: m.pc })),
        Instr::In => match io.port_in(m.imm8()) {
            Some(v) => (m.execute(i, v), io, Ok(m.cycles(i))),
            None => (m, io, Err(EmuError::UnsupportedPort { port: m.imm8(), dir: PortDir::In })),
        },
        Instr::Out => match io.port_out(m.imm8(), m.a) {
            Some(next_io) => (m.execute(i, 0), next_io, Ok(m.cycles(i))),
            None => (m, io, Err(EmuError::UnsupportedPort { port: m.imm8(), dir: PortDir::Out })),
        },
        _ => (m.execute(i, 0), io, Ok(m.cycles(i))),
    }
}

/// Every instruction takes between 4 and 18 cycles.
pub proof fn lemma_step_cycles<IO: IOState>(m: Machine, io: IO)
    ensures
        match step_spec(m, io).2 {
            Ok(c) => 4 <= c <= 18,
            Err(_) => true,
        },
{
}

/// `v + 1` modulo 65536.
fn increment(v: u16) -> (r: u16)
    ensures
        r == wrap16(v + 1),
{
    v.wrapping_add(1)
}

/// `v - 1` modulo 65536.
fn decrement(v: u16) -> (r: u16)
    ensures
        r == wrap16(v - 1),
{
    v.wrapping_sub(1)
}

/// The 8080 processor with 64 KiB of memory.
pub struct State8080 {
    pub a: u8,
    pub bc: RegisterPair,
    pub de: RegisterPair,
    pub hl: RegisterPair,
    pub sp: u16,
    pub pc: u16,
    pub(crate) memory: Vec<u8>,
    pub flags: Flags,
    pub interrupts_enabled: bool,
}

impl View for State8080 {
    type V = Machine;

    open(crate) spec fn view(&self) -> Machine {
        Machine {
            a: self.a,
            bc: self.bc.word,
            de: self.de.word,
            hl: self.hl.word,
            sp: self.sp,
            pc: self.pc,
            flags: self.flags,
            interrupts_enabled: self.interrupts_enabled,
            mem: self.memory@,
        }
    }
}

impl State8080 {
    pub open spec fn wf(&self) -> bool {
        self@.wf()
    }

    /// A processor with every register, flag and memory byte zero.
    pub fn new() -> (r: State8080)
        ensures
            r.wf(),
            r@ == reset_state(Seq::new(MEMORY_SIZE as nat, |i: int| 0u8), 0),
    {
        let memory = vec![0u8; MEMORY_SIZE];
        let r = State8080 {
            a: 0,
            bc: RegisterPair::new(),
            de: RegisterPair::new(),
            hl: RegisterPair::new(),
            sp: 0,
            pc: 0,
            memory,
            flags: Flags::new(),
            interrupts_enabled: false,
        };
        assert(r@.mem =~= Seq::new(MEMORY_SIZE as nat, |i: int| 0u8));
        r
    }

    /// A new processor with `rom` copied to memory at `rom_start` and `PC`
    /// at `pc_start`; fails when the image does not fit.
    pub fn load_from_rom(rom: &[u8], rom_start: usize, pc_start: u16) -> (r: Result<
        State8080,
        EmuError,
    >)
        ensures
            match r {
                Ok(s) => rom_start + rom@.len() <= MEMORY_SIZE && s.wf() && s@ == reset_state(
                    loaded_memory(rom@, rom_start as int),
                    pc_start,
                ),
                Err(e) => rom_start + rom@.len() > MEMORY_SIZE && e == EmuError::RomTooLarge {
                    offset: rom_start,
                    len: rom@.len() as usize,
                },
            },
    {
        if rom.len() > MEMORY_SIZE || rom_start > MEMORY_SIZE - rom.len() {
            return Err(EmuError::RomTooLarge { offset: rom_start, len: rom.len() });
        }
        let mut cpu = Self::new();
        cpu.load_rom(rom, rom_start);
        cpu.pc = pc_start;
        Ok(cpu)
    }

    fn load_rom(&mut self, rom: &[u8], rom_start: usize)
        requires
            old(self).wf(),
            rom_start + rom@.len() <= MEMORY_SIZE,
            old(self)@.mem == Seq::new(MEMORY_SIZE as nat, |i: int| 0u8),
        ensures
            final(self).wf(),
            final(self)@ == (Machine { mem: loaded_memory(rom@, rom_start as int), ..old(self)@ }),
    {
        let mut k: usize = 0;
        while k < rom.len()
            invariant
                k <= rom@.len(),
                rom_start + rom@.len() <= MEMORY_SIZE,
                self.wf(),
                self@ == (Machine { mem: self@.mem, ..old(self)@ }),
                self@.mem == Seq::new(
                    MEMORY_SIZE as nat,
                    |i: int|
                        if rom_start <= i < rom_start + k {
                            rom@[i - rom_start]
                        } else {
                            0u8
                        },
                ),
            decreases rom@.len() - k,
        {
            self.memory.set(rom_start + k, rom[k]);
            k = k + 1;
            assert(self@.mem =~= Seq::new(
                MEMORY_SIZE as nat,
                |i: int|
                    if rom_start <= i < rom_start + k {
                        rom@[i - rom_start]
                    } else {
                        0u8
                    },
            ));
        }
        assert(self@.mem =~= loaded_memory(rom@, rom_start as int));
    }

    /// A read-only view of the whole address space.
    pub fn memory(&self) -> (r: &[u8])
        ensures
            r@ == self@.mem,
    {
        self.memory.as_slice()
    }

    pub fn read_byte(&self, address: u16) -> (r: u8)
        requires
            self.wf(),
        ensures
            r == self@.read(address),
    {
        self.memory[address as usize]
    }

    pub fn write_byte(&mut self, address: u16, value: u8)
        requires
            old(self).wf(),
        ensures
            final(self).wf(),
            final(self)@ == old(self)@.write(address, value),
    {
        self.memory.set(address as usize, value);
    }

    fn read_bytes(&self, address: u16) -> (r: u16)
        requires
            self.wf(),
        ensures
            r == self@.read_word(address),
    {
        let high = self.read_byte(address.wrapping_add(1));
        let low = self.read_byte(address);
        high as u16 * 256 + low as u16
    }

    fn write_bytes(&mut self, address: u16, value: u16)
        requires
            old(self).wf(),
        ensures
            final(self).wf(),
            final(self)@ == old(self)@.write_word(address, value),
    {
        self.write_byte(address, (value % 256) as u8);
        self.write_byte(address.wrapping_add(1), (value / 256) as u8);
    }

    fn m(&self) -> (r: u8)
        requires
            self.wf(),
        ensures
            r == self@.read(self@.hl),
    {
        self.read_byte(self.hl.both())
    }

    fn reg(&self, r: Reg8) -> (v: u8)
        requires
            self.wf(),
        ensures
            v == self@.reg(r),
    {
        match r {
            Reg8::B => self.bc.msb(),
            Reg8::C => self.bc.lsb(),
            Reg8::D => self.de.msb(),
            Reg8::E => self.de.lsb(),
            Reg8::H => self.hl.msb(),
            Reg8::L => self.hl.lsb(),
            Reg8::M => self.m(),
            Reg8::A => self.a,
        }
    }

    fn set_reg(&mut self, r: Reg8, v: u8)
        requires
            old(self).wf(),
        ensures
            final(self).wf(),
            final(self)@ == old(self)@.set_reg(r, v),
    {
        match r {
            Reg8::B => self.bc.set_msb(v),
            Reg8::C => self.bc.set_lsb(v),
            Reg8::D => self.de.set_msb(v),
            Reg8::E => self.de.set_lsb(v),
            Reg8::H => self.hl.set_msb(v),
            Reg8::L => self.hl.set_lsb(v),
            Reg8::M => {
                let address = self.hl.both();
                self.write_byte(address, v);
            },
            Reg8::A => self.a = v,
        }
    }

    fn pair(&self, p: Pair) -> (v: u16)
        ensures
            v == self@.pair(p),
    {
        match p {
            Pair::BC => self.bc.both(),
            Pair::DE => self.de.both(),
            Pair::HL => self.hl.both(),
            Pair::SP => self.sp,
        }
    }

    fn set_pair(&mut self, p: Pair, v: u16)
        requires
            old(self).wf(),
        ensures
            final(self).wf(),
            final(self)@ == old(self)@.set_pair(p, v),
    {
        match p {
            Pair::BC => self.bc.set_both(v),
            Pair::DE => self.de.set_both(v),
            Pair::HL => self.hl.set_both(v),
            Pair::SP => self.sp = v,
        }
    }

    fn stack_pair(&self, p: StackPair) -> (v: u16)
        ensures
            v == self@.stack_pair(p),
    {
        match p {
            StackPair::BC => self.bc.both(),
            StackPair::DE => self.de.both(),
            StackPair::HL => self.hl.both(),
            StackPair::PSW => (self.a as u16) * 256 + self.flags.get_psw() as u16,
        }
    }

    fn set_stack_pair(&mut self, p: StackPair, v: u16)
        requires
            old(self).wf(),
        ensures
            final(self).wf(),
            final(self)@ == old(self)@.set_stack_pair(p, v),
    {
        match p {
            StackPair::BC => self.bc.set_both(v),
            StackPair::DE => self.de.set_both(v),
            StackPair::HL => self.hl.set_both(v),
            StackPair::PSW => {
                self.a = (v / 256) as u8;
                self.flags.set_with_psw((v % 256) as u8);
            },
        }
    }

    fn push(&mut self, value: u16)
        requires
            old(self).wf(),
        ensures
            final(self).wf(),
            final(self)@ == old(self)@.push(value),
    {
        self.sp = self.sp.wrapping_sub(2);
        self.write_bytes(self.sp, value);
    }

    fn pop(&mut self) -> (r: u16)
        requires
            old(self).wf(),
        ensures
            final(self).wf(),
            r == old(self)@.top(),
            final(self)@ == old(self)@.pop(),
    {
        let value = self.read_bytes(self.sp);
        self.sp = self.sp.wrapping_add(2);
        value
    }

    fn read_next_instruction_byte(&self) -> (r: u8)
        requires
            self.wf(),
        ensures
            r == self@.imm8(),
    {
        self.read_byte(self.pc.wrapping_add(1))
    }

    fn read_next_instruction_bytes(&self) -> (r: u16)
        requires
            self.wf(),
        ensures
            r == self@.imm16(),
    {
        self.read_bytes(self.pc.wrapping_add(1))
    }

    fn holds(&self, c: Cond) -> (r: bool)
        ensures
            r == self@.holds(c),
    {
        match c {
            Cond::NotZero => !self.flags.zero,
            Cond::Zero => self.flags.zero,
            Cond::NoCarry => !self.flags.carry,
            Cond::Carry => self.flags.carry,
            Cond::ParityOdd => !self.flags.parity,
            Cond::ParityEven => self.flags.parity,
            Cond::Plus => !self.flags.sign,
            Cond::Minus => self.flags.sign,
        }
    }

    fn advance(&mut self, size: u16)
        ensures
            final(self)@ == old(self)@.jump(wrap16(old(self)@.pc + size)),
    {
        self.pc = self.pc.wrapping_add(size);
    }

    /// Runs instruction `i`, which stands at `PC`; `input` is the byte that
    /// `IN` reads, and the port access itself is made by `emulate`.
    fn execute(&mut self, i: Instr, input: u8) -> (c: u64)
        requires
            old(self).wf(),
        ensures
            final(self).wf(),
            final(self)@ == old(self)@.execute(i, input),
            c == old(self)@.cycles(i),
    {
        match i {
            Instr::Lxi(..)
            | Instr::Stax(..)
            | Instr::Ldax(..)
            | Instr::Shld
            | Instr::Lhld
            | Instr::Sta
            | Instr::Lda
            | Instr::Mvi(..)
            | Instr::Mov(..)
            | Instr::Sphl
            | Instr::Xchg
            | Instr::Xthl => self.execute_transfer(i, input),
            Instr::Inx(..) | Instr::Dcx(..) | Instr::Dad(..) => self.execute_pair(i, input),
            Instr::Inr(..) | Instr::Dcr(..) => self.execute_inr_dcr(i, input),
            Instr::Alu(..) | Instr::AluImm(..) => self.execute_alu(i, input),
            Instr::Nop
            | Instr::Rlc
            | Instr::Rrc
            | Instr::Ral
            | Instr::Rar
            | Instr::Daa
            | Instr::Cma
            | Instr::Stc
            | Instr::Cmc
            | Instr::Di
            | Instr::Ei
            | Instr::Out
            | Instr::In => self.execute_single(i, input),
            Instr::RetIf(..)
            | Instr::Ret
            | Instr::Pop(..)
            | Instr::Push(..)
            | Instr::JmpIf(..)
            | Instr::Jmp
            | Instr::CallIf(..)
            | Instr::Call
            | Instr::Rst(..)
            | Instr::Pchl => self.execute_branch(i, input),
            Instr::Hlt => 7,
        }
    }

    /// Runs one of the data transfers between registers and memory.
    #[verifier::rlimit(30)]
    fn execute_transfer(&mut self, i: Instr, input: u8) -> (c: u64)
        requires
            old(self).wf(),
            i is Lxi || i is Stax || i is Ldax || i is Shld || i is Lhld || i is Sta || i is Lda || i is Mvi || i is Mov || i is Sphl || i is Xchg || i is Xthl,
        ensures
            final(self).wf(),
            final(self)@ == old(self)@.execute(i, input),
            c == old(self)@.cycles(i),
    {
        match i {
            Instr::Lxi(p) => {
                let v = self.read_next_instruction_bytes();
                self.set_pair(p, v);
                self.advance(3);
                10
            },
            Instr::Stax(p) => {
                let address = self.pair(p);
                self.write_byte(address, self.a);
                self.advance(1);
                7
            },
            Instr::Ldax(p) => {
                self.a = self.read_byte(self.pair(p));
                self.advance(1);
                7
            },
            Instr::Shld => {
                let address = self.read_next_instruction_bytes();
                self.write_bytes(address, self.hl.both());
                self.advance(3);
                16
            },
            Instr::Lhld => {
                let address = self.read_next_instruction_bytes();
                let v = self.read_bytes(address);
                self.hl.set_both(v);
                self.advance(3);
                16
            },
            Instr::Sta => {
                let address = self.read_next_instruction_bytes();
                self.write_byte(address, self.a);
                self.advance(3);
                13
            },
            Instr::Lda => {
                let address = self.read_next_instruction_bytes();
                self.a = self.read_byte(address);
                self.advance(3);
                13
            },
            Instr::Mvi(r) => {
                let v = self.read_next_instruction_byte();
                self.set_reg(r, v);
                self.advance(2);
                if r == Reg8::M { 10 } else { 7 }
            },
            Instr::Mov(d, s) => {
                let v = self.reg(s);
                self.set_reg(d, v);
                self.advance(1);
                if d == Reg8::M || s == Reg8::M { 7 } else { 5 }
            },
            Instr::Sphl => {
                self.sp = self.hl.both();
                self.advance(1);
                5
            },
            Instr::Xchg => {
                let de = self.de.both();
                self.de.set_both(self.hl.both());
                self.hl.set_both(de);
                self.advance(1);
                4
            },
            Instr::Xthl => {
                let top = self.read_bytes(self.sp);
                let old_hl = self.hl.both();
                self.hl.set_both(top);
                self.write_bytes(self.sp, old_hl);
                self.advance(1);
                18
            },
            // the other instructions are excluded by the precondition
            _ => 0,
        }
    }

    /// Runs one of the 16-bit operations on register pairs.
    #[verifier::rlimit(30)]
    fn execute_pair(&mut self, i: Instr, input: u8) -> (c: u64)
        requires
            old(self).wf(),
            i is Inx || i is Dcx || i is Dad,
        ensures
            final(self).wf(),
            final(self)@ == old(self)@.execute(i, input),
            c == old(self)@.cycles(i),
    {
        match i {
            Instr::Inx(p) => {
                let v = increment(self.pair(p));
                self.set_pair(p, v);
                self.advance(1);
                5
            },
            Instr::Dcx(p) => {
                let v = decrement(self.pair(p));
                self.set_pair(p, v);
                self.advance(1);
                5
            },
            Instr::Dad(p) => {
                let (v, f) = dad(self.hl.both(), self.pair(p), self.flags);
                self.hl.set_both(v);
                self.flags = f;
                self.advance(1);
                10
            },
            // the other instructions are excluded by the precondition
            _ => 0,
        }
    }

    /// Runs one of the increments and decrements of an 8-bit operand.
    #[verifier::rlimit(30)]
    fn execute_inr_dcr(&mut self, i: Instr, input: u8) -> (c: u64)
        requires
            old(self).wf(),
            i is Inr || i is Dcr,
        ensures
            final(self).wf(),
            final(self)@ == old(self)@.execute(i, input),
            c == old(self)@.cycles(i),
    {
        match i {
            Instr::Inr(r) => {
                let (v, f) = inr(self.reg(r), self.flags);
                self.set_reg(r, v);
                self.flags = f;
                self.advance(1);
                if r == Reg8::M { 10 } else { 5 }
            },
            Instr::Dcr(r) => {
                let (v, f) = dcr(self.reg(r), self.flags);
                self.set_reg(r, v);
                self.flags = f;
                self.advance(1);
                if r == Reg8::M { 10 } else { 5 }
            },
            // the other instructions are excluded by the precondition
            _ => 0,
        }
    }

    /// Runs one of the accumulator operations.
    #[verifier::rlimit(30)]
    fn execute_alu(&mut self, i: Instr, input: u8) -> (c: u64)
        requires
            old(self).wf(),
            i is Alu || i is AluImm,
        ensures
            final(self).wf(),
            final(self)@ == old(self)@.execute(i, input),
            c == old(self)@.cycles(i),
    {
        match i {
            Instr::Alu(op, r) => {
                let (v, f) = alu(op, self.a, self.reg(r), self.flags);
                self.a = v;
                self.flags = f;
                self.advance(1);
                if r == Reg8::M { 7 } else { 4 }
            },
            Instr::AluImm(op) => {
                let (v, f) = alu(op, self.a, self.read_next_instruction_byte(), self.flags);
                self.a = v;
                self.flags = f;
                self.advance(2);
                7
            },
            // the other instructions are excluded by the precondition
            _ => 0,
        }
    }

    /// Runs one of the one-byte operations on the accumulator, the flags, the interrupt latch and the ports.
    #[verifier::rlimit(30)]
    fn execute_single(&mut self, i: Instr, input: u8) -> (c: u64)
        requires
            old(self).wf(),
            i is Nop || i is Rlc || i is Rrc || i is Ral || i is Rar || i is Daa || i is Cma || i is Stc || i is Cmc || i is Di || i is Ei || i is Out || i is In,
        ensures
            final(self).wf(),
            final(self)@ == old(self)@.execute(i, input),
            c == old(self)@.cycles(i),
    {
        match i {
            Instr::Nop => {
                self.advance(1);
                4
            },
            Instr::Rlc => {
                let (v, f) = rlc(self.a, self.flags);
                self.a = v;
                self.flags = f;
                self.advance(1);
                4
            },
            Instr::Rrc => {
                let (v, f) = rrc(self.a, self.flags);
                self.a = v;
                self.flags = f;
                self.advance(1);
                4
            },
            Instr::Ral => {
                let (v, f) = ral(self.a, self.flags);
                self.a = v;
                self.flags = f;
                self.advance(1);
                4
            },
            Instr::Rar => {
                let (v, f) = rar(self.a, self.flags);
                self.a = v;
                self.flags = f;
                self.advance(1);
                4
            },
            Instr::Daa => {
                let (v, f) = daa(self.a, self.flags);
                self.a = v;
                self.flags = f;
                self.advance(1);
                4
            },
            Instr::Cma => {
                self.a = !self.a;
                self.advance(1);
                4
            },
            Instr::Stc => {
                self.flags.carry = true;
                self.advance(1);
                4
            },
            Instr::Cmc => {
                self.flags.carry = !self.flags.carry;
                self.advance(1);
                4
            },
            Instr::Di => {
                self.interrupts_enabled = false;
                self.advance(1);
                4
            },
            Instr::Ei => {
                self.interrupts_enabled = true;
                self.advance(1);
                4
            },
            Instr::Out => {
                self.advance(2);
                10
            },
            Instr::In => {
                self.a = input;
                self.advance(2);
                10
            },
            // the other instructions are excluded by the precondition
            _ => 0,
        }
    }

    /// Runs one of the jumps, calls, returns and stack operations.
    #[verifier::rlimit(30)]
    fn execute_branch(&mut self, i: Instr, input: u8) -> (c: u64)
        requires
            old(self).wf(),
            i is RetIf || i is Ret || i is Pop || i is Push || i is JmpIf || i is Jmp || i is CallIf || i is Call || i is Rst || i is Pchl,
        ensures
            final(self).wf(),
            final(self)@ == old(self)@.execute(i, input),
            c == old(self)@.cycles(i),
    {
        match i {
            Instr::RetIf(c) => {
                if self.holds(c) {
                    self.ret();
                    11
                } else {
                    self.advance(1);
                    5
                }
            },
            Instr::Ret => {
                self.ret();
                10
            },
            Instr::Pop(p) => {
                let v = self.pop();
                self.set_stack_pair(p, v);
                self.advance(1);
                10
            },
            Instr::Push(p) => {
                let v = self.stack_pair(p);
                self.push(v);
                self.advance(1);
                11
            },
            Instr::JmpIf(c) => {
                if self.holds(c) {
                    self.pc = self.read_next_instruction_bytes();
                } else {
                    self.advance(3);
                }
                10
            },
            Instr::Jmp => {
                self.pc = self.read_next_instruction_bytes();
                10
            },
            Instr::CallIf(c) => {
                if self.holds(c) {
                    self.call();
                    17
                } else {
                    self.advance(3);
                    11
                }
            },
            Instr::Call => {
                self.call();
                17
            },
            Instr::Rst(n) => {
                let ret = self.pc.wrapping_add(1);
                self.push(ret);
                self.pc = 8 * n as u16;
                11
            },
            Instr::Pchl => {
                self.pc = self.hl.both();
                5
            },
            // the other instructions are excluded by the precondition
            _ => 0,
        }
    }

    /// `CALL a16`: pushes the address after the instruction, then jumps.
    fn call(&mut self)
        requires
            old(self).wf(),
        ensures
            final(self).wf(),
            final(self)@ == old(self)@.call(wrap16(old(self)@.pc + 3), old(self)@.imm16()),
    {
        let target = self.read_next_instruction_bytes();
        let ret = self.pc.wrapping_add(3);
        self.push(ret);
        self.pc = target;
    }

    /// `RET`: pops `PC`.
    fn ret(&mut self)
        requires
            old(self).wf(),
        ensures
            final(self).wf(),
            final(self)@ == old(self)@.pop().jump(old(self)@.top()),
    {
        self.pc = self.pop();
    }

    /// Fetches, decodes and runs the instruction at `PC`, with `IN` and
    /// `OUT` going to `io`; returns the machine cycles taken. Fails on `HLT`
    /// and on a port that `io` does not serve, with nothing changed.
    pub fn emulate<IO: IOState>(&mut self, io: &mut IO) -> (r: Result<u64, EmuError>)
        requires
            old(self).wf(),
            old(io).wf(),
        ensures
            final(self).wf(),
            final(io).wf(),
            (final(self)@, *final(io), r) == step_spec(old(self)@, *old(io)),
            r is Ok ==> 4 <= r->Ok_0 <= 18,
    {
        proof {
            lemma_step_cycles(self@, *io);
        }
        let opcode = self.read_byte(self.pc);
        let i = decode(opcode);
        match i {
            Instr::Hlt => Err(EmuError::Halted { pc: self.pc }),
            Instr::In => {
                let port = self.read_next_instruction_byte();
                match io.input(port) {
                    Ok(v) => Ok(self.execute(i, v)),
                    Err(e) => Err(e),
                }
            },
            Instr::Out => {
                let port = self.read_next_instruction_byte();
                match io.output(port, self.a) {
                    Ok(()) => Ok(self.execute(i, 0)),
                    Err(e) => Err(e),
                }
            },
            _ => Ok(self.execute(i, 0)),
        }
    }

    /// Requests interrupt `idn`: when interrupts are enabled, pushes `PC`,
    /// jumps to `8 * idn` and disables interrupts; otherwise does nothing.
    pub fn interrupt(&mut self, idn: u16)
        requires
            old(self).wf(),
            idn < 8,
        ensures
            final(self).wf(),
            final(self)@ == old(self)@.interrupted(idn as u8),
    {
        if self.interrupts_enabled {
            let pc = self.pc;
            self.push(pc);
            self.pc = 8 * idn;
            self.interrupts_enabled = false;
        }
    }
}

/// A step that succeeds leaves `PC` at the target of the fetched
/// instruction when it transfers control, and past it otherwise; a step
/// that fails leaves the processor as it was.
pub proof fn lemma_step_next_pc<IO: IOState>(m: Machine, io: IO)
    ensures
        ({
            let i = decode_spec(m.read(m.pc));
            let s = step_spec(m, io);
            match s.2 {
                Ok(_) => s.0.pc == if m.taken(i) {
                    m.target(i)
                } else {
                    wrap16(m.pc + size_spec(i))
                },
                Err(_) => s.0 == m,
            }
        }),
{
    let i = decode_spec(m.read(m.pc));
    if i != Instr::Hlt {
        lemma_next_pc(m, i, 0);
        if let Some(v) = io.port_in(m.imm8()) {
            lemma_next_pc(m, i, v);
        }
    }
}

} // verus!
