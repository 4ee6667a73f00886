//! The mathematical model of the processor: its state, and what each
//! instruction does to it.
use vstd::prelude::*;
use crate::alu::{
    alu_spec, daa_spec, dad_spec, dcr_spec, inr_spec, ral_spec, rar_spec, rlc_spec, rrc_spec,
};
use crate::isa::{Cond, Instr, Pair, Reg8, StackPair, size_spec};
use crate::registers::{
    Flags, bit_of, flags_of_psw, hi, lemma_psw_round_trip, lo, psw_of, word,
};

verus! {

/// The size of the address space.
pub const MEMORY_SIZE: usize = 0x10000;

/// A value modulo 65536.
pub open spec fn wrap16(n: int) -> u16 {
    (n % 65536) as u16
}

/// The state of the processor: registers, flags, interrupt latch and the
/// 64 KiB of memory.
pub struct Machine {
    pub a: u8,
    pub bc: u16,
    pub de: u16,
    pub hl: u16,
    pub sp: u16,
    pub pc: u16,
    pub flags: Flags,
    pub interrupts_enabled: bool,
    pub mem: Seq<u8>,
}

impl Machine {
    pub open spec fn wf(self) -> bool {
        self.mem.len() == MEMORY_SIZE
    }

    pub open spec fn read(self, addr: u16) -> u8 {
        self.mem[addr as int]
    }

    pub open spec fn write(self, addr: u16, v: u8) -> Machine {
        Machine { mem: self.mem.update(addr as int, v), ..self }
    }

    /// The little-endian word at `addr` and `addr + 1`.
    pub open spec fn read_word(self, addr: u16) -> u16 {
        word(self.read(wrap16(addr + 1)), self.read(addr))
    }

    pub open spec fn write_word(self, addr: u16, v: u16) -> Machine {
        self.write(addr, lo(v)).write(wrap16(addr + 1), hi(v))
    }

    pub open spec fn reg(self, r: Reg8) -> u8 {
        match r {
            Reg8::B => hi(self.bc),
            Reg8::C => lo(self.bc),
            Reg8::D => hi(self.de),
            Reg8::E => lo(self.de),
            Reg8::H => hi(self.hl),
            Reg8::L => lo(self.hl),
            Reg8::M => self.read(self.hl),
            Reg8::A => self.a,
        }
    }

    pub open spec fn set_reg(self, r: Reg8, v: u8) -> Machine {
        match r {
            Reg8::B => Machine { bc: word(v, lo(self.bc)), ..self },
            Reg8::C => Machine { bc: word(hi(self.bc), v), ..self },
            Reg8::D => Machine { de: word(v, lo(self.de)), ..self },
            Reg8::E => Machine { de: word(hi(self.de), v), ..self },
            Reg8::H => Machine { hl: word(v, lo(self.hl)), ..self },
            Reg8::L => Machine { hl: word(hi(self.hl), v), ..self },
            Reg8::M => self.write(self.hl, v),
            Reg8::A => Machine { a: v, ..self },
        }
    }

    pub open spec fn pair(self, p: Pair) -> u16 {
        match p {
            Pair::BC => self.bc,
            Pair::DE => self.de,
            Pair::HL => self.hl,
            Pair::SP => self.sp,
        }
    }

    pub open spec fn set_pair(self, p: Pair, v: u16) -> Machine {
        match p {
            Pair::BC => Machine { bc: v, ..self },
            Pair::DE => Machine { de: v, ..self },
            Pair::HL => Machine { hl: v, ..self },
            Pair::SP => Machine { sp: v, ..self },
        }
    }

    /// The word that `PUSH` stores; for `PSW`, `A` above the status byte.
    pub open spec fn stack_pair(self, p: StackPair) -> u16 {
        match p {
            StackPair::BC => self.bc,
            StackPair::DE => self.de,
            StackPair::HL => self.hl,
            StackPair::PSW => word(self.a, psw_of(self.flags)),
        }
    }

    pub open spec fn set_stack_pair(self, p: StackPair, v: u16) -> Machine {
        match p {
            StackPair::BC => Machine { bc: v, ..self },
            StackPair::DE => Machine { de: v, ..self },
            StackPair::HL => Machine { hl: v, ..self },
            StackPair::PSW => Machine { a: hi(v), flags: flags_of_psw(lo(v)), ..self },
        }
    }

    /// `SP -= 2`, then the word goes to `[SP]`.
    pub open spec fn push(self, v: u16) -> Machine {
        let sp = wrap16(self.sp - 2);
        Machine { sp, ..self }.write_word(sp, v)
    }

    /// The word on top of the stack.
    pub open spec fn top(self) -> u16 {
        self.read_word(self.sp)
    }

    /// `SP += 2`.
    pub open spec fn pop(self) -> Machine {
        Machine { sp: wrap16(self.sp + 2), ..self }
    }

    pub open spec fn imm8(self) -> u8 {
        self.read(wrap16(self.pc + 1))
    }

    pub open spec fn imm16(self) -> u16 {
        self.read_word(wrap16(self.pc + 1))
    }

    pub open spec fn holds(self, c: Cond) -> bool {
        match c {
            Cond::NotZero => !self.flags.zero,
            Cond::Zero => self.flags.zero,
            Cond::NoCarry => !self.flags.carry,
            Cond::Carry => self.flags.carry,
            Cond::ParityOdd => !self.flags.parity,
            Cond::ParityEven => self.flags.parity,
            Cond::Plus => !self.flags.sign,
            Cond::Minus => self.flags.sign,
        }
    }

    pub open spec fn jump(self, pc: u16) -> Machine {
        Machine { pc, ..self }
    }

    /// Moves `PC` past the instruction.
    pub open spec fn next(self, i: Instr) -> Machine {
        self.jump(wrap16(self.pc + size_spec(i)))
    }

    pub open spec fn with_acc(self, r: (u8, Flags)) -> Machine {
        Machine { a: r.0, flags: r.1, ..self }
    }

    pub open spec fn with_flags(self, f: Flags) -> Machine {
        Machine { flags: f, ..self }
    }

    /// Whether the instruction, in this state, transfers control.
    pub open spec fn taken(self, i: Instr) -> bool {
        match i {
            Instr::RetIf(c) | Instr::JmpIf(c) | Instr::CallIf(c) => self.holds(c),
            Instr::Ret | Instr::Jmp | Instr::Call | Instr::Rst(_) | Instr::Pchl => true,
            _ => false,
        }
    }

    /// Where a control transfer goes.
    pub open spec fn target(self, i: Instr) -> u16 {
        match i {
            Instr::RetIf(_) | Instr::Ret => self.top(),
            Instr::Rst(n) => (8 * n) as u16,
            Instr::Pchl => self.hl,
            _ => self.imm16(),
        }
    }

    /// A call: the return address is pushed, then control goes to `target`.
    pub open spec fn call(self, ret: u16, target: u16) -> Machine {
        self.push(ret).jump(target)
    }

    /// The state after instruction `i`, which stands at `PC`; `input` is
    /// the byte that the port gives to `IN`.
    pub open spec fn execute(self, i: Instr, input: u8) -> Machine {
        match i {
            Instr::Nop => self.next(i),
            Instr::Lxi(p) => self.set_pair(p, self.imm16()).next(i),
            Instr::Stax(p) => self.write(self.pair(p), self.a).next(i),
            Instr::Ldax(p) => Machine { a: self.read(self.pair(p)), ..self }.next(i),
            Instr::Shld => self.write_word(self.imm16(), self.hl).next(i),
            Instr::Lhld => Machine { hl: self.read_word(self.imm16()), ..self }.next(i),
            Instr::Sta => self.write(self.imm16(), self.a).next(i),
            Instr::Lda => Machine { a: self.read(self.imm16()), ..self }.next(i),
            Instr::Inx(p) => self.set_pair(p, wrap16(self.pair(p) + 1)).next(i),
            Instr::Dcx(p) => self.set_pair(p, wrap16(self.pair(p) - 1)).next(i),
            Instr::Dad(p) => {
                let r = dad_spec(self.hl, self.pair(p), self.flags);
                Machine { hl: r.0, flags: r.1, ..self }.next(i)
            },
            Instr::Inr(r) => {
                let v = inr_spec(self.reg(r), self.flags);
                self.set_reg(r, v.0).with_flags(v.1).next(i)
            },
            Instr::Dcr(r) => {
                let v = dcr_spec(self.reg(r), self.flags);
                self.set_reg(r, v.0).with_flags(v.1).next(i)
            },
            Instr::Mvi(r) => self.set_reg(r, self.imm8()).next(i),
            Instr::Rlc => self.with_acc(rlc_spec(self.a, self.flags)).next(i),
            Instr::Rrc => self.with_acc(rrc_spec(self.a, self.flags)).next(i),
            Instr::Ral => self.with_acc(ral_spec(self.a, self.flags)).next(i),
            Instr::Rar => self.with_acc(rar_spec(self.a, self.flags)).next(i),
            Instr::Daa => self.with_acc(daa_spec(self.a, self.flags)).next(i),
            Instr::Cma => Machine { a: !self.a, ..self }.next(i),
            Instr::Stc => self.with_flags(Flags { carry: true, ..self.flags }).next(i),
            Instr::Cmc => self.with_flags(Flags { carry: !self.flags.carry, ..self.flags }).next(i),
            Instr::Mov(d, s) => self.set_reg(d, self.reg(s)).next(i),
            Instr::Hlt => self,
            Instr::Alu(op, r) => self.with_acc(alu_spec(op, self.a, self.reg(r), self.flags)).next(i),
            Instr::AluImm(op) => self.with_acc(alu_spec(op, self.a, self.imm8(), self.flags)).next(i),
            Instr::RetIf(c) => if self.holds(c) {
                self.pop().jump(self.top())
            } else {
                self.next(i)
            },
            Instr::Ret => self.pop().jump(self.top()),
            Instr::Pop(p) => self.pop().set_stack_pair(p, self.top()).next(i),
            Instr::Push(p) => self.push(self.stack_pair(p)).next(i),
            Instr::JmpIf(c) => if self.holds(c) {
                self.jump(self.imm16())
            } else {
                self.next(i)
            },
            Instr::Jmp => self.jump(self.imm16()),
            Instr::CallIf(c) => if self.holds(c) {
                self.call(wrap16(self.pc + 3), self.imm16())
            } else {
                self.next(i)
            },
            Instr::Call => self.call(wrap16(self.pc + 3), self.imm16()),
            Instr::Rst(n) => self.call(wrap16(self.pc + 1), (8 * n) as u16),
            Instr::Pchl => self.jump(self.hl),
            Instr::Sphl => Machine { sp: self.hl, ..self }.next(i),
            Instr::Out => self.next(i),
            Instr::In => Machine { a: input, ..self }.next(i),
            Instr::Xthl => Machine { hl: self.top(), ..self }.write_word(self.sp, self.hl).next(i),
            Instr::Xchg => Machine { de: self.hl, hl: self.de, ..self }.next(i),
            Instr::Di => Machine { interrupts_enabled: false, ..self }.next(i),
            Instr::Ei => Machine { interrupts_enabled: true, ..self }.next(i),
        }
    }

    /// The machine cycles that instruction `i` takes in this state.
    pub open spec fn cycles(self, i: Instr) -> u64 {
        match i {
            Instr::Nop => 4,
            Instr::Lxi(_) => 10,
            Instr::Stax(_) | Instr::Ldax(_) => 7,
            Instr::Shld | Instr::Lhld => 16,
            Instr::Sta | Instr::Lda => 13,
            Instr::Inx(_) | Instr::Dcx(_) => 5,
            Instr::Dad(_) => 10,
            Instr::Inr(r) | Instr::Dcr(r) => if r == Reg8::M { 10 } else { 5 },
            Instr::Mvi(r) => if r == Reg8::M { 10 } else { 7 },
            Instr::Mov(d, s) => if d == Reg8::M || s == Reg8::M { 7 } else { 5 },
            Instr::Hlt => 7,
            Instr::Alu(_, r) => if r == Reg8::M { 7 } else { 4 },
            Instr::AluImm(_) => 7,
            Instr::RetIf(c) => if self.holds(c) { 11 } else { 5 },
            Instr::Ret | Instr::Pop(_) => 10,
            Instr::Push(_) | Instr::Rst(_) => 11,
            Instr::JmpIf(_) | Instr::Jmp => 10,
            Instr::CallIf(c) => if self.holds(c) { 17 } else { 11 },
            Instr::Call => 17,
            Instr::Pchl | Instr::Sphl => 5,
            Instr::Out | Instr::In => 10,
            Instr::Xthl => 18,
            _ => 4,
        }
    }

    /// An interrupt request with vector `n`: when interrupts are enabled,
    /// `PC` is pushed, control goes to `8 * n` and interrupts are disabled;
    /// otherwise nothing happens.
    pub open spec fn interrupted(self, n: u8) -> Machine {
        if self.interrupts_enabled {
            Machine { interrupts_enabled: false, ..self.call(self.pc, (8 * n) as u16) }
        } else {
            self
        }
    }
}

/// A word split into its bytes and joined again is unchanged, and so are
/// two bytes joined into a word and split again.
pub proof fn lemma_word_bytes(v: u16, h: u8, l: u8)
    ensures
        word(hi(v), lo(v)) == v,
        hi(word(h, l)) == h,
        lo(word(h, l)) == l,
{
}

/// A word written at `addr` reads back from `addr`.
pub proof fn lemma_write_read_word(m: Machine, addr: u16, v: u16)
    requires
        m.wf(),
    ensures
        m.write_word(addr, v).read_word(addr) == v,
        m.write_word(addr, v).wf(),
{
    lemma_word_bytes(v, 0, 0);
}

/// After any instruction but `HLT`, `PC` is the target when the instruction
/// transfers control, and the address past the instruction otherwise.
pub proof fn lemma_next_pc(m: Machine, i: Instr, input: u8)
    requires
        i != Instr::Hlt,
    ensures
        m.execute(i, input).pc == if m.taken(i) {
            m.target(i)
        } else {
            wrap16(m.pc + size_spec(i))
        },
{
}

/// `PUSH rp` followed by `POP rp` leaves every register, `SP` and the flags
/// as they were; `PC` is past the two instructions, and memory differs at
/// most in the two bytes below `SP`.
pub proof fn lemma_push_pop(m: Machine, p: StackPair)
    requires
        m.wf(),
    ensures
        ({
            let pushed = m.execute(Instr::Push(p), 0);
            let popped = pushed.execute(Instr::Pop(p), 0);
            &&& popped == Machine { pc: wrap16(m.pc + 2), mem: pushed.mem, ..m }
            &&& popped.wf()
            &&& forall|addr: u16|
                addr != wrap16(m.sp - 2) && addr != wrap16(m.sp - 1) ==> #[trigger] popped.read(addr)
                    == m.read(addr)
        }),
{
    let sp = wrap16(m.sp - 2);
    let v = m.stack_pair(p);
    let below = Machine { sp, ..m };
    let pushed = m.execute(Instr::Push(p), 0);
    assert(pushed == below.write_word(sp, v).jump(wrap16(m.pc + 1)));
    lemma_write_read_word(below, sp, v);
    assert(pushed.top() == v);
    assert(wrap16(sp + 2) == m.sp);
    assert(wrap16(wrap16(m.pc + 1) + 1) == wrap16(m.pc + 2));
    let popped = pushed.execute(Instr::Pop(p), 0);
    let restored = Machine { sp: m.sp, ..pushed };
    assert(popped == restored.set_stack_pair(p, v).jump(wrap16(pushed.pc + 1)));
    if p == StackPair::PSW {
        lemma_word_bytes(0, m.a, psw_of(m.flags));
        lemma_psw_round_trip(m.flags);
    }
    assert forall|addr: u16|
        addr != wrap16(m.sp - 2) && addr != wrap16(m.sp - 1) implies #[trigger] popped.read(addr)
        == m.read(addr) by {
        assert(wrap16(sp + 1) == wrap16(m.sp - 1));
    }
}

/// `PUSH PSW` stores `A` above the status byte of the flags, whose bits 5
/// and 3 are clear and bit 1 set.
pub proof fn lemma_push_psw(m: Machine)
    requires
        m.wf(),
    ensures
        ({
            let pushed = m.execute(Instr::Push(StackPair::PSW), 0);
            &&& pushed.read(wrap16(m.sp - 2)) == psw_of(m.flags)
            &&& pushed.read(wrap16(m.sp - 1)) == m.a
            &&& !bit_of(psw_of(m.flags), 5)
            &&& !bit_of(psw_of(m.flags), 3)
            &&& bit_of(psw_of(m.flags), 1)
            &&& flags_of_psw(psw_of(m.flags)) == m.flags
        }),
{
    lemma_word_bytes(0, m.a, psw_of(m.flags));
    lemma_psw_round_trip(m.flags);
    assert(wrap16(wrap16(m.sp - 2) + 1) == wrap16(m.sp - 1));
}

/// An accepted interrupt `n` is `RST n` run as if it stood just before
/// `PC`, so that the address pushed is `PC` itself, with interrupts then
/// disabled; with interrupts disabled a request changes nothing.
pub proof fn lemma_interrupt_is_rst(m: Machine, n: u8)
    requires
        n < 8,
    ensures
        m.interrupts_enabled ==> m.interrupted(n) == (Machine {
            interrupts_enabled: false,
            ..m.jump(wrap16(m.pc - 1)).execute(Instr::Rst(n), 0)
        }),
        !m.interrupts_enabled ==> m.interrupted(n) == m,
{
    assert(wrap16(wrap16(m.pc - 1) + 1) == m.pc);
}

} // verus!
