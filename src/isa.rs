//! The 8080 instruction set: operands, instructions and the decoder.
use vstd::prelude::*;
use crate::alu::AluOp;

verus! {

/// An 8-bit operand: a register, or `M`, the byte that `HL` addresses.
#[derive(Clone, Copy, Debug, PartialEq, Eq, Structural)]
pub enum Reg8 {
    B,
    C,
    D,
    E,
    H,
    L,
    M,
    A,
}

/// A register pair as `LXI`, `INX`, `DCX`, `DAD`, `STAX` and `LDAX` name it.
#[derive(Clone, Copy, Debug, PartialEq, Eq, Structural)]
pub enum Pair {
    BC,
    DE,
    HL,
    SP,
}

/// A register pair as `PUSH` and `POP` name it.
#[derive(Clone, Copy, Debug, PartialEq, Eq, Structural)]
pub enum StackPair {
    BC,
    DE,
    HL,
    PSW,
}

/// A branch condition.
#[derive(Clone, Copy, Debug, PartialEq, Eq, Structural)]
pub enum Cond {
    NotZero,
    Zero,
    NoCarry,
    Carry,
    ParityOdd,
    ParityEven,
    Plus,
    Minus,
}

/// A decoded instruction.
#[derive(Clone, Copy, Debug, PartialEq, Eq, Structural)]
pub enum Instr {
    Nop,
    Lxi(Pair),
    Stax(Pair),
    Ldax(Pair),
    Shld,
    Lhld,
    Sta,
    Lda,
    Inx(Pair),
    Dcx(Pair),
    Dad(Pair),
    Inr(Reg8),
    Dcr(Reg8),
    Mvi(Reg8),
    Rlc,
    Rrc,
    Ral,
    Rar,
    Daa,
    Cma,
    Stc,
    Cmc,
    Mov(Reg8, Reg8),
    Hlt,
    Alu(AluOp, Reg8),
    AluImm(AluOp),
    RetIf(Cond),
    Ret,
    Pop(StackPair),
    Push(StackPair),
    JmpIf(Cond),
    Jmp,
    CallIf(Cond),
    Call,
    Rst(u8),
    Pchl,
    Sphl,
    Out,
    In,
    Xthl,
    Xchg,
    Di,
    Ei,
}

pub open spec fn reg_spec(n: u8) -> Reg8 {
    if n == 0 {
        Reg8::B
    } else if n == 1 {
        Reg8::C
    } else if n == 2 {
        Reg8::D
    } else if n == 3 {
        Reg8::E
    } else if n == 4 {
        Reg8::H
    } else if n == 5 {
        Reg8::L
    } else if n == 6 {
        Reg8::M
    } else {
        Reg8::A
    }
}

pub open spec fn pair_spec(n: u8) -> Pair {
    if n == 0 {
        Pair::BC
    } else if n == 1 {
        Pair::DE
    } else if n == 2 {
        Pair::HL
    } else {
        Pair::SP
    }
}

pub open spec fn stack_pair_spec(n: u8) -> StackPair {
    if n == 0 {
        StackPair::BC
    } else if n == 1 {
        StackPair::DE
    } else if n == 2 {
        StackPair::HL
    } else {
        StackPair::PSW
    }
}

pub open spec fn cond_spec(n: u8) -> Cond {
    if n == 0 {
        Cond::NotZero
    } else if n == 1 {
        Cond::Zero
    } else if n == 2 {
        Cond::NoCarry
    } else if n == 3 {
        Cond::Carry
    } else if n == 4 {
        Cond::ParityOdd
    } else if n == 5 {
        Cond::ParityEven
    } else if n == 6 {
        Cond::Plus
    } else {
        Cond::Minus
    }
}

pub open spec fn alu_op_spec(n: u8) -> AluOp {
    if n == 0 {
        AluOp::Add
    } else if n == 1 {
        AluOp::Adc
    } else if n == 2 {
        AluOp::Sub
    } else if n == 3 {
        AluOp::Sbb
    } else if n == 4 {
        AluOp::Ana
    } else if n == 5 {
        AluOp::Xra
    } else if n == 6 {
        AluOp::Ora
    } else {
        AluOp::Cmp
    }
}

/// Opcodes `00 yyy zzz`.
pub open spec fn decode_low_spec(y: u8, z: u8) -> Instr {
    let p = y / 2;
    let q = y % 2;
    if z == 0 {
        Instr::Nop
    } else if z == 1 {
        if q == 0 {
            Instr::Lxi(pair_spec(p))
        } else {
            Instr::Dad(pair_spec(p))
        }
    } else if z == 2 {
        if p == 0 {
            if q == 0 { Instr::Stax(Pair::BC) } else { Instr::Ldax(Pair::BC) }
        } else if p == 1 {
            if q == 0 { Instr::Stax(Pair::DE) } else { Instr::Ldax(Pair::DE) }
        } else if p == 2 {
            if q == 0 { Instr::Shld } else { Instr::Lhld }
        } else {
            if q == 0 { Instr::Sta } else { Instr::Lda }
        }
    } else if z == 3 {
        if q == 0 {
            Instr::Inx(pair_spec(p))
        } else {
            Instr::Dcx(pair_spec(p))
        }
    } else if z == 4 {
        Instr::Inr(reg_spec(y))
    } else if z == 5 {
        Instr::Dcr(reg_spec(y))
    } else if z == 6 {
        Instr::Mvi(reg_spec(y))
    } else if y == 0 {
        Instr::Rlc
    } else if y == 1 {
        Instr::Rrc
    } else if y == 2 {
        Instr::Ral
    } else if y == 3 {
        Instr::Rar
    } else if y == 4 {
        Instr::Daa
    } else if y == 5 {
        Instr::Cma
    } else if y == 6 {
        Instr::Stc
    } else {
        Instr::Cmc
    }
}

/// Opcodes `11 yyy zzz`.
pub open spec fn decode_high_spec(y: u8, z: u8) -> Instr {
    let p = y / 2;
    let q = y % 2;
    if z == 0 {
        Instr::RetIf(cond_spec(y))
    } else if z == 1 {
        if q == 0 {
            Instr::Pop(stack_pair_spec(p))
        } else if p <= 1 {
            Instr::Ret
        } else if p == 2 {
            Instr::Pchl
        } else {
            Instr::Sphl
        }
    } else if z == 2 {
        Instr::JmpIf(cond_spec(y))
    } else if z == 3 {
        if y <= 1 {
            Instr::Jmp
        } else if y == 2 {
            Instr::Out
        } else if y == 3 {
            Instr::In
        } else if y == 4 {
            Instr::Xthl
        } else if y == 5 {
            Instr::Xchg
        } else if y == 6 {
            Instr::Di
        } else {
            Instr::Ei
        }
    } else if z == 4 {
        Instr::CallIf(cond_spec(y))
    } else if z == 5 {
        if q == 0 {
            Instr::Push(stack_pair_spec(p))
        } else {
            Instr::Call
        }
    } else if z == 6 {
        Instr::AluImm(alu_op_spec(y))
    } else {
        Instr::Rst(y)
    }
}

/// The instruction of an opcode byte `xx yyy zzz`. Every byte has one; the
/// undocumented bytes are aliases of documented instructions.
pub open spec fn decode_spec(op: u8) -> Instr {
    let x = op / 64;
    let y = (op / 8) % 8;
    let z = op % 8;
    if x == 0 {
        decode_low_spec(y, z)
    } else if x == 1 {
        if y == 6 && z == 6 {
            Instr::Hlt
        } else {
            Instr::Mov(reg_spec(y), reg_spec(z))
        }
    } else if x == 2 {
        Instr::Alu(alu_op_spec(y), reg_spec(z))
    } else {
        decode_high_spec(y, z)
    }
}

/// The length in bytes of an instruction.
pub open spec fn size_spec(i: Instr) -> u16 {
    match i {
        Instr::Lxi(_) | Instr::Shld | Instr::Lhld | Instr::Sta | Instr::Lda | Instr::JmpIf(_)
        | Instr::Jmp | Instr::CallIf(_) | Instr::Call => 3,
        Instr::Mvi(_) | Instr::AluImm(_) | Instr::Out | Instr::In => 2,
        _ => 1,
    }
}

fn reg_of(n: u8) -> (r: Reg8)
    ensures
        r == reg_spec(n),
{
    match n {
        0 => Reg8::B,
        1 => Reg8::C,
        2 => Reg8::D,
        3 => Reg8::E,
        4 => Reg8::H,
        5 => Reg8::L,
        6 => Reg8::M,
        _ => Reg8::A,
    }
}

fn pair_of(n: u8) -> (r: Pair)
    ensures
        r == pair_spec(n),
{
    match n {
        0 => Pair::BC,
        1 => Pair::DE,
        2 => Pair::HL,
        _ => Pair::SP,
    }
}

fn stack_pair_of(n: u8) -> (r: StackPair)
    ensures
        r == stack_pair_spec(n),
{
    match n {
        0 => StackPair::BC,
        1 => StackPair::DE,
        2 => StackPair::HL,
        _ => StackPair::PSW,
    }
}

fn cond_of(n: u8) -> (r: Cond)
    ensures
        r == cond_spec(n),
{
    match n {
        0 => Cond::NotZero,
        1 => Cond::Zero,
        2 => Cond::NoCarry,
        3 => Cond::Carry,
        4 => Cond::ParityOdd,
        5 => Cond::ParityEven,
        6 => Cond::Plus,
        _ => Cond::Minus,
    }
}

fn alu_op_of(n: u8) -> (r: AluOp)
    ensures
        r == alu_op_spec(n),
{
    match n {
        0 => AluOp::Add,
        1 => AluOp::Adc,
        2 => AluOp::Sub,
        3 => AluOp::Sbb,
        4 => AluOp::Ana,
        5 => AluOp::Xra,
        6 => AluOp::Ora,
        _ => AluOp::Cmp,
    }
}

fn decode_low(y: u8, z: u8) -> (r: Instr)
    requires
        y < 8,
        z < 8,
    ensures
        r == decode_low_spec(y, z),
{
    let p = y / 2;
    let q = y % 2;
    match z {
        0 => Instr::Nop,
        1 => if q == 0 { Instr::Lxi(pair_of(p)) } else { Instr::Dad(pair_of(p)) },
        2 => match (p, q) {
            (0, 0) => Instr::Stax(Pair::BC),
            (0, _) => Instr::Ldax(Pair::BC),
            (1, 0) => Instr::Stax(Pair::DE),
            (1, _) => Instr::Ldax(Pair::DE),
            (2, 0) => Instr::Shld,
            (2, _) => Instr::Lhld,
            (_, 0) => Instr::Sta,
            _ => Instr::Lda,
        },
        3 => if q == 0 { Instr::Inx(pair_of(p)) } else { Instr::Dcx(pair_of(p)) },
        4 => Instr::Inr(reg_of(y)),
        5 => Instr::Dcr(reg_of(y)),
        6 => Instr::Mvi(reg_of(y)),
        _ => match y {
            0 => Instr::Rlc,
            1 => Instr::Rrc,
            2 => Instr::Ral,
            3 => Instr::Rar,
            4 => Instr::Daa,
            5 => Instr::Cma,
            6 => Instr::Stc,
            _ => Instr::Cmc,
        },
    }
}

fn decode_high(y: u8, z: u8) -> (r: Instr)
    requires
        y < 8,
        z < 8,
    ensures
        r == decode_high_spec(y, z),
{
    let p = y / 2;
    let q = y % 2;
    match z {
        0 => Instr::RetIf(cond_of(y)),
        1 => if q == 0 {
            Instr::Pop(stack_pair_of(p))
        } else {
            match p {
                0 | 1 => Instr::Ret,
                2 => Instr::Pchl,
                _ => Instr::Sphl,
            }
        },
        2 => Instr::JmpIf(cond_of(y)),
        3 => match y {
            0 | 1 => Instr::Jmp,
            2 => Instr::Out,
            3 => Instr::In,
            4 => Instr::Xthl,
            5 => Instr::Xchg,
            6 => Instr::Di,
            _ => Instr::Ei,
        },
        4 => Instr::CallIf(cond_of(y)),
        5 => if q == 0 { Instr::Push(stack_pair_of(p)) } else { Instr::Call },
        6 => Instr::AluImm(alu_op_of(y)),
        _ => Instr::Rst(y),
    }
}

/// Decodes an opcode byte.
pub fn decode(op: u8) -> (r: Instr)
    ensures
        r == decode_spec(op),
{
    let x = op / 64;
    let y = (op / 8) % 8;
    let z = op % 8;
    match x {
        0 => decode_low(y, z),
        1 => if y == 6 && z == 6 {
            Instr::Hlt
        } else {
            Instr::Mov(reg_of(y), reg_of(z))
        },
        2 => Instr::Alu(alu_op_of(y), reg_of(z)),
        _ => decode_high(y, z),
    }
}

/// The undocumented opcodes behave as their documented twins: `0x08`,
/// `0x10`, `0x18`, `0x20`, `0x28`, `0x30` and `0x38` as `NOP`, `0xCB` as
/// `JMP`, `0xD9` as `RET`, and `0xDD`, `0xED` and `0xFD` as `CALL`.
pub proof fn lemma_decode_aliases()
    ensures
        decode_spec(0x08) == decode_spec(0x00),
        decode_spec(0x10) == decode_spec(0x00),
        decode_spec(0x18) == decode_spec(0x00),
        decode_spec(0x20) == decode_spec(0x00),
        decode_spec(0x28) == decode_spec(0x00),
        decode_spec(0x30) == decode_spec(0x00),
        decode_spec(0x38) == decode_spec(0x00),
        decode_spec(0x00) == Instr::Nop,
        decode_spec(0xCB) == decode_spec(0xC3),
        decode_spec(0xC3) == Instr::Jmp,
        decode_spec(0xD9) == decode_spec(0xC9),
        decode_spec(0xC9) == Instr::Ret,
        decode_spec(0xDD) == decode_spec(0xCD),
        decode_spec(0xED) == decode_spec(0xCD),
        decode_spec(0xFD) == decode_spec(0xCD),
        decode_spec(0xCD) == Instr::Call,
{
}

} // verus!
