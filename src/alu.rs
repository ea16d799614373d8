use vstd::prelude::*;

verus! {

/// Zero flag.
pub const FLAG_ZERO: u8 = 0x80;
/// Subtract flag.
pub const FLAG_SUB: u8 = 0x40;
/// Half-carry flag.
pub const FLAG_HALF_CARRY: u8 = 0x20;
/// Carry flag.
pub const FLAG_CARRY: u8 = 0x10;

/// The flag byte with the four flags given; the lower nibble is clear.
pub open spec fn flags(z: bool, n: bool, h: bool, c: bool) -> u8 {
    (if z { FLAG_ZERO } else { 0u8 }) | (if n { FLAG_SUB } else { 0u8 }) | (if h {
        FLAG_HALF_CARRY
    } else {
        0u8
    }) | (if c { FLAG_CARRY } else { 0u8 })
}

pub open spec fn zf(f: u8) -> bool {
    f & FLAG_ZERO != 0
}

pub open spec fn nf(f: u8) -> bool {
    f & FLAG_SUB != 0
}

pub open spec fn hf(f: u8) -> bool {
    f & FLAG_HALF_CARRY != 0
}

pub open spec fn cf(f: u8) -> bool {
    f & FLAG_CARRY != 0
}

/// The carry flag as a number, for ADC and SBC.
pub open spec fn carry_in(f: u8) -> int {
    if cf(f) {
        1
    } else {
        0
    }
}

/// Reading back a composed flag byte gives the flags it was made of.
pub broadcast proof fn lemma_flags(z: bool, n: bool, h: bool, c: bool)
    by (bit_vector)
    ensures
        #[trigger] flags(z, n, h, c) & 0x0F == 0,
        zf(flags(z, n, h, c)) == z,
        nf(flags(z, n, h, c)) == n,
        hf(flags(z, n, h, c)) == h,
        cf(flags(z, n, h, c)) == c,
{
}

/// The eight accumulator operations, in the order of their opcodes.
#[derive(Clone, Copy, Debug, PartialEq, Eq, Structural)]
pub enum AluOp {
    Add,
    Adc,
    Sub,
    Sbc,
    And,
    Xor,
    Or,
    Cp,
}

/// `a + x + c` truncated to a byte.
pub open spec fn add_result(a: u8, x: u8, c: int) -> u8 {
    ((a + x + c) % 256) as u8
}

pub open spec fn add_flags(a: u8, x: u8, c: int) -> u8 {
    flags(add_result(a, x, c) == 0, false, (a & 0xF) + (x & 0xF) + c > 0xF, a + x + c > 0xFF)
}

/// `a - x - c` modulo 256.
pub open spec fn sub_result(a: u8, x: u8, c: int) -> u8 {
    ((a - x - c + 256) % 256) as u8
}

pub open spec fn sub_flags(a: u8, x: u8, c: int) -> u8 {
    flags(sub_result(a, x, c) == 0, true, (a & 0xF) < (x & 0xF) + c, a < x + c)
}

/// The accumulator after `op` with operand `x` and flags `f`.
pub open spec fn alu_a(op: AluOp, a: u8, x: u8, f: u8) -> u8 {
    match op {
        AluOp::Add => add_result(a, x, 0),
        AluOp::Adc => add_result(a, x, carry_in(f)),
        AluOp::Sub => sub_result(a, x, 0),
        AluOp::Sbc => sub_result(a, x, carry_in(f)),
        AluOp::And => a & x,
        AluOp::Xor => a ^ x,
        AluOp::Or => a | x,
        AluOp::Cp => a,
    }
}

/// The flags after `op` with operand `x` and flags `f`.
pub open spec fn alu_f(op: AluOp, a: u8, x: u8, f: u8) -> u8 {
    match op {
        AluOp::Add => add_flags(a, x, 0),
        AluOp::Adc => add_flags(a, x, carry_in(f)),
        AluOp::Sub => sub_flags(a, x, 0),
        AluOp::Sbc => sub_flags(a, x, carry_in(f)),
        AluOp::And => flags(a & x == 0, false, true, false),
        AluOp::Xor => flags(a ^ x == 0, false, false, false),
        AluOp::Or => flags(a | x == 0, false, false, false),
        AluOp::Cp => sub_flags(a, x, 0),
    }
}

/// The eight rotate and shift operations of the CB table, in opcode order.
#[derive(Clone, Copy, Debug, PartialEq, Eq, Structural)]
pub enum Shift {
    Rlc,
    Rrc,
    Rl,
    Rr,
    Sla,
    Sra,
    Swap,
    Srl,
}

/// The value after a rotate or shift of `v` with flags `f`.
pub open spec fn shift_result(op: Shift, v: u8, f: u8) -> u8 {
    match op {
        Shift::Rlc => (v << 1u8) | (v >> 7u8),
        Shift::Rrc => (v >> 1u8) | (v << 7u8),
        Shift::Rl => (v << 1u8) | (if cf(f) { 1u8 } else { 0u8 }),
        Shift::Rr => (v >> 1u8) | (if cf(f) { 0x80u8 } else { 0u8 }),
        Shift::Sla => v << 1u8,
        Shift::Sra => (v >> 1u8) | (v & 0x80),
        Shift::Swap => (v << 4u8) | (v >> 4u8),
        Shift::Srl => v >> 1u8,
    }
}

/// The bit that a rotate or shift ejects into the carry.
pub open spec fn shift_carry(op: Shift, v: u8) -> bool {
    match op {
        Shift::Rlc | Shift::Rl | Shift::Sla => v & 0x80 != 0,
        Shift::Swap => false,
        _ => v & 0x01 != 0,
    }
}

/// The flags after a CB-prefixed rotate or shift.
pub open spec fn shift_flags(op: Shift, v: u8, f: u8) -> u8 {
    flags(shift_result(op, v, f) == 0, false, false, shift_carry(op, v))
}

/// The flags after the unprefixed accumulator rotates: Z is always clear.
pub open spec fn rot_a_flags(op: Shift, v: u8) -> u8 {
    flags(false, false, false, shift_carry(op, v))
}

/// The accumulator after the decimal adjustment.
pub open spec fn daa_a(a: u8, f: u8) -> u8 {
    if !nf(f) {
        let a1: u8 = if cf(f) || a > 0x99 {
            ((a + 0x60) % 256) as u8
        } else {
            a
        };
        if hf(f) || (a1 & 0x0F) > 0x09 {
            ((a1 + 0x06) % 256) as u8
        } else {
            a1
        }
    } else {
        let a1: u8 = if cf(f) {
            ((a - 0x60 + 256) % 256) as u8
        } else {
            a
        };
        if hf(f) {
            ((a1 - 0x06 + 256) % 256) as u8
        } else {
            a1
        }
    }
}

/// The flags after the decimal adjustment: N kept, H cleared, C set when 0x60 was added.
pub open spec fn daa_f(a: u8, f: u8) -> u8 {
    flags(daa_a(a, f) == 0, nf(f), false, cf(f) || (!nf(f) && a > 0x99))
}

/// Flags after INC of an 8-bit value `v`; the carry is kept.
pub open spec fn inc_flags(v: u8, f: u8) -> u8 {
    flags(((v + 1) % 256) as u8 == 0, false, (v & 0xF) + 1 > 0xF, cf(f))
}

/// Flags after DEC of an 8-bit value `v`; the carry is kept.
pub open spec fn dec_flags(v: u8, f: u8) -> u8 {
    flags(((v - 1 + 256) % 256) as u8 == 0, true, (v & 0xF) == 0, cf(f))
}

/// The mask of bit `b`.
pub open spec fn bit_mask(b: u8) -> u8 {
    1u8 << b
}

/// Flags after BIT `b` of `v`: Z is the complement of the bit, C kept.
pub open spec fn bit_flags(b: u8, v: u8, f: u8) -> u8 {
    flags(v & bit_mask(b) == 0, false, true, cf(f))
}

/// `v` read as a signed byte.
pub open spec fn signed8(v: u8) -> int {
    if v < 128 {
        v as int
    } else {
        v - 256
    }
}

/// Flags of ADD SP,e8 and LD HL,SP+e8: carries out of bits 3 and 7 of the low byte.
pub open spec fn sp_e8_flags(sp: u16, e: u8) -> u8 {
    flags(false, false, (sp & 0xF) + (e & 0xF) > 0xF, (sp & 0xFF) + e > 0xFF)
}

/// Flags of ADD HL,rr: Z kept, carries out of bits 11 and 15.
pub open spec fn add16_flags(hl: u16, v: u16, f: u8) -> u8 {
    flags(zf(f), false, (hl & 0xFFF) + (v & 0xFFF) > 0xFFF, hl + v > 0xFFFF)
}

} // verus!
