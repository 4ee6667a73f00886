//! The arithmetic and logic unit: each operation with the flags it sets.
use vstd::prelude::*;
use crate::registers::{Flags, lo, result_flags, parity};

verus! {

/// The eight accumulator operations, in the order of their opcode field.
#[derive(Clone, Copy, Debug, PartialEq, Eq, Structural)]
pub enum AluOp {
    Add,
    Adc,
    Sub,
    Sbb,
    Ana,
    Xra,
    Ora,
    Cmp,
}

pub open spec fn carry_value(c: bool) -> int {
    if c {
        1
    } else {
        0
    }
}

/// `a + x + c`: the carry is the carry out of bit 7, the auxiliary carry
/// the carry out of bit 3.
pub open spec fn sum_spec(a: u8, x: u8, c: int) -> (u8, Flags) {
    let r = a + x + c;
    let v = (r % 256) as u8;
    (v, result_flags(v, r > 0xff, a % 16 + x % 16 + c > 0xf))
}

/// `a - x - c`: the carry is the borrow out of bit 7, the auxiliary carry
/// the borrow out of bit 3.
pub open spec fn diff_spec(a: u8, x: u8, c: int) -> (u8, Flags) {
    let r = a - x - c;
    let v = ((r + 256) % 256) as u8;
    (v, result_flags(v, r < 0, a % 16 - x % 16 - c < 0))
}

/// The new accumulator and flags of an accumulator operation with operand `x`.
pub open spec fn alu_spec(op: AluOp, a: u8, x: u8, f: Flags) -> (u8, Flags) {
    match op {
        AluOp::Add => sum_spec(a, x, 0),
        AluOp::Adc => sum_spec(a, x, carry_value(f.carry)),
        AluOp::Sub => diff_spec(a, x, 0),
        AluOp::Sbb => diff_spec(a, x, carry_value(f.carry)),
        AluOp::Ana => (a & x, result_flags(a & x, false, (a | x) & 0x08 != 0)),
        AluOp::Xra => (a ^ x, result_flags(a ^ x, false, false)),
        AluOp::Ora => (a | x, result_flags(a | x, false, false)),
        AluOp::Cmp => (a, diff_spec(a, x, 0).1),
    }
}

/// `INR`: adds one; the carry is kept.
pub open spec fn inr_spec(v: u8, f: Flags) -> (u8, Flags) {
    let r = ((v + 1) % 256) as u8;
    (r, result_flags(r, f.carry, v % 16 + 1 > 0xf))
}

/// `DCR`: subtracts one; the carry is kept.
pub open spec fn dcr_spec(v: u8, f: Flags) -> (u8, Flags) {
    let r = ((v + 255) % 256) as u8;
    (r, result_flags(r, f.carry, v % 16 < 1))
}

/// `DAA`: corrects the low nibble when it is over 9 or `AC` is set, then
/// the high nibble when it is over 9 or `CY` is set; each correction adds 6
/// to its nibble and sets the carry it gives.
pub open spec fn daa_spec(a: u8, f: Flags) -> (u8, Flags) {
    let low_fix = f.aux_carry || a % 16 > 9;
    let t = if low_fix { a + 6 } else { a as int };
    let high_fix = f.carry || t / 16 > 9;
    let u = if high_fix { t + 0x60 } else { t };
    let v = (u % 256) as u8;
    (v, result_flags(v, high_fix, low_fix && a % 16 + 6 > 0xf))
}

/// `RLC`: rotates left; bit 7 goes to bit 0 and to the carry.
pub open spec fn rlc_spec(a: u8, f: Flags) -> (u8, Flags) {
    (((a * 2) % 256 + a / 128) as u8, Flags { carry: a >= 128, ..f })
}

/// `RRC`: rotates right; bit 0 goes to bit 7 and to the carry.
pub open spec fn rrc_spec(a: u8, f: Flags) -> (u8, Flags) {
    ((a / 2 + (a % 2) * 128) as u8, Flags { carry: a % 2 == 1, ..f })
}

/// `RAL`: rotates left through the carry.
pub open spec fn ral_spec(a: u8, f: Flags) -> (u8, Flags) {
    (((a * 2) % 256 + carry_value(f.carry)) as u8, Flags { carry: a >= 128, ..f })
}

/// `RAR`: rotates right through the carry.
pub open spec fn rar_spec(a: u8, f: Flags) -> (u8, Flags) {
    ((a / 2 + carry_value(f.carry) * 128) as u8, Flags { carry: a % 2 == 1, ..f })
}

/// `DAD`: 16-bit addition; only the carry changes.
pub open spec fn dad_spec(hl: u16, x: u16, f: Flags) -> (u16, Flags) {
    (((hl + x) % 65536) as u16, Flags { carry: hl + x > 0xffff, ..f })
}

fn sum(a: u8, x: u8, carry_in: bool) -> (r: (u8, Flags))
    ensures
        r == sum_spec(a, x, carry_value(carry_in)),
{
    let c: u8 = if carry_in { 1 } else { 0 };
    let result = a as u16 + x as u16 + c as u16;
    let mut flags = Flags::new();
    flags.set_all(result, a % 16 + x % 16 + c);
    ((result % 256) as u8, flags)
}

fn diff(a: u8, x: u8, carry_in: bool) -> (r: (u8, Flags))
    ensures
        r == diff_spec(a, x, carry_value(carry_in)),
{
    let c: u8 = if carry_in { 1 } else { 0 };
    let result = (a as u16).wrapping_sub(x as u16).wrapping_sub(c as u16);
    let nibble = (a % 16).wrapping_sub(x % 16).wrapping_sub(c);
    let mut flags = Flags::new();
    flags.set_all(result, nibble);
    proof {
        let r = a - x - carry_value(carry_in);
        assert(result == (r + 65536) % 65536);
        assert(lo(result) == ((r + 256) % 256) as u8);
    }
    ((result % 256) as u8, flags)
}

/// Runs one accumulator operation on `a` and the operand `x`.
pub fn alu(op: AluOp, a: u8, x: u8, flags: Flags) -> (r: (u8, Flags))
    ensures
        r == alu_spec(op, a, x, flags),
{
    match op {
        AluOp::Add => sum(a, x, false),
        AluOp::Adc => sum(a, x, flags.carry),
        AluOp::Sub => diff(a, x, false),
        AluOp::Sbb => diff(a, x, flags.carry),
        AluOp::Ana => {
            let v = a & x;
            let mut f = flags;
            f.set_all_but_aux_carry(v as u16);
            f.aux_carry = (a | x) & 0x08 != 0;
            (v, f)
        },
        AluOp::Xra => {
            let v = a ^ x;
            let mut f = flags;
            f.set_all(v as u16, 0);
            (v, f)
        },
        AluOp::Ora => {
            let v = a | x;
            let mut f = flags;
            f.set_all(v as u16, 0);
            (v, f)
        },
        AluOp::Cmp => {
            let (_, f) = diff(a, x, false);
            (a, f)
        },
    }
}

pub fn inr(v: u8, flags: Flags) -> (r: (u8, Flags))
    ensures
        r == inr_spec(v, flags),
{
    let result = v.wrapping_add(1);
    let mut f = flags;
    f.set_all_but_carry(result, v % 16 + 1);
    (result, f)
}

pub fn dcr(v: u8, flags: Flags) -> (r: (u8, Flags))
    ensures
        r == dcr_spec(v, flags),
{
    let result = v.wrapping_sub(1);
    let mut f = flags;
    f.set_all_but_carry(result, (v % 16).wrapping_sub(1));
    (result, f)
}

pub fn daa(a: u8, flags: Flags) -> (r: (u8, Flags))
    ensures
        r == daa_spec(a, flags),
{
    let low = a % 16;
    let low_fix = flags.aux_carry || low > 9;
    let t: u16 = if low_fix { a as u16 + 6 } else { a as u16 };
    let high_fix = flags.carry || t / 16 > 9;
    let u: u16 = if high_fix { t + 0x60 } else { t };
    let v = (u % 256) as u8;
    let mut f = flags;
    f.set_all_but_carry(v, if low_fix { low + 6 } else { 0 });
    f.carry = high_fix;
    (v, f)
}

pub fn rlc(a: u8, flags: Flags) -> (r: (u8, Flags))
    ensures
        r == rlc_spec(a, flags),
{
    let out = a >= 128;
    let mut f = flags;
    f.carry = out;
    ((a % 128) * 2 + a / 128, f)
}

pub fn rrc(a: u8, flags: Flags) -> (r: (u8, Flags))
    ensures
        r == rrc_spec(a, flags),
{
    let mut f = flags;
    f.carry = a % 2 == 1;
    (a / 2 + (a % 2) * 128, f)
}

pub fn ral(a: u8, flags: Flags) -> (r: (u8, Flags))
    ensures
        r == ral_spec(a, flags),
{
    let c: u8 = if flags.carry { 1 } else { 0 };
    let mut f = flags;
    f.carry = a >= 128;
    ((a % 128) * 2 + c, f)
}

pub fn rar(a: u8, flags: Flags) -> (r: (u8, Flags))
    ensures
        r == rar_spec(a, flags),
{
    let c: u8 = if flags.carry { 1 } else { 0 };
    let mut f = flags;
    f.carry = a % 2 == 1;
    (a / 2 + c * 128, f)
}

pub fn dad(hl: u16, x: u16, flags: Flags) -> (r: (u16, Flags))
    ensures
        r == dad_spec(hl, x, flags),
{
    let result = hl as u32 + x as u32;
    let mut f = flags;
    f.carry = result > 0xffff;
    ((result % 65536) as u16, f)
}

} // verus!
