use vstd::prelude::*;

use crate::alu::{
    AluOp, Shift, bit_flags, bit_mask, cf, daa_a, daa_f, dec_flags, flags, inc_flags, lemma_flags,
    shift_flags, shift_result, signed8, sp_e8_flags, zf,
};
use crate::cpu::{CC, CPU, R16, R8, add16, push_mem, word};
use crate::mmu::{MMU, MmuView, lemma_write_keeps};
use crate::ops_load::high_page;

verus! {

broadcast use {lemma_flags, lemma_write_keeps};

/// The register that operand field `i` names; field 6 names the byte at HL instead.
pub open spec fn reg_of(i: u8) -> R8 {
    match i {
        0 => R8::B,
        1 => R8::C,
        2 => R8::D,
        3 => R8::E,
        4 => R8::H,
        5 => R8::L,
        _ => R8::A,
    }
}

/// The accumulator operation that field `i` of 0x80..=0xBF names.
pub open spec fn alu_of(i: u8) -> AluOp {
    match i {
        0 => AluOp::Add,
        1 => AluOp::Adc,
        2 => AluOp::Sub,
        3 => AluOp::Sbc,
        4 => AluOp::And,
        5 => AluOp::Xor,
        6 => AluOp::Or,
        _ => AluOp::Cp,
    }
}

/// The rotate or shift that field `i` of CB 0x00..=0x3F names.
pub open spec fn shift_of(i: u8) -> Shift {
    match i {
        0 => Shift::Rlc,
        1 => Shift::Rrc,
        2 => Shift::Rl,
        3 => Shift::Rr,
        4 => Shift::Sla,
        5 => Shift::Sra,
        6 => Shift::Swap,
        _ => Shift::Srl,
    }
}

/// The operand value after CB instruction `cb` on value `v` with flags `f`.
pub open spec fn cb_value(cb: u8, v: u8, f: u8) -> u8 {
    let y = (cb / 8 % 8) as u8;
    if cb < 0x40 {
        shift_result(shift_of(y), v, f)
    } else if cb < 0x80 {
        v
    } else if cb < 0xC0 {
        v & !bit_mask(y)
    } else {
        v | bit_mask(y)
    }
}

/// The flags after CB instruction `cb` on value `v` with flags `f`.
pub open spec fn cb_flags(cb: u8, v: u8, f: u8) -> u8 {
    let y = (cb / 8 % 8) as u8;
    if cb < 0x40 {
        shift_flags(shift_of(y), v, f)
    } else if cb < 0x80 {
        bit_flags(y, v, f)
    } else {
        f
    }
}

/// Machine cycles of CB instruction `cb`, prefix included.
pub open spec fn cb_cycles(cb: u8) -> u8 {
    if cb % 8 != 6 {
        2
    } else if 0x40 <= cb < 0x80 {
        3
    } else {
        4
    }
}

/// The state after the CB-prefixed instruction `cb`, whose byte was at PC.
pub open spec fn cb_effect(c: CPU, m: MmuView, cb: u8) -> (CPU, MmuView) {
    let s = c.skip(1);
    if cb % 8 == 6 {
        let v = m.read(c.hl());
        let mem = if 0x40 <= cb < 0x80 {
            m
        } else {
            m.write(c.hl(), cb_value(cb, v, c.reg_f))
        };
        (s.with_f(cb_flags(cb, v, c.reg_f)), mem)
    } else {
        let r = reg_of((cb % 8) as u8);
        let v = c.r8(r);
        (s.with_r8(r, cb_value(cb, v, c.reg_f)).with_f(cb_flags(cb, v, c.reg_f)), m)
    }
}

/// The state after an instruction of 0x40..=0x7F: register loads, and HALT at 0x76.
pub open spec fn load_effect(c: CPU, m: MmuView, opc: u8) -> (CPU, MmuView) {
    let y = (opc / 8 % 8) as u8;
    let z = (opc % 8) as u8;
    if opc == 0x76 {
        (CPU { halt: true, ..c }, m)
    } else if y == 6 {
        (c, m.write(c.hl(), c.r8(reg_of(z))))
    } else if z == 6 {
        (c.with_r8(reg_of(y), m.read(c.hl())), m)
    } else {
        (c.with_r8(reg_of(y), c.r8(reg_of(z))), m)
    }
}

/// The operand of an instruction whose field `z` names a register or the byte at HL.
pub open spec fn operand(c: CPU, m: MmuView, z: u8) -> u8 {
    if z == 6 {
        m.read(c.hl())
    } else {
        c.r8(reg_of(z))
    }
}

/// Machine cycles of a register-or-memory instruction: one more for the byte at HL.
pub open spec fn operand_cycles(z: u8) -> u8 {
    if z == 6 {
        2
    } else {
        1
    }
}

/// Effect of CALL n16 taken: the return address pushed, PC at the target.
pub open spec fn call_effect(c: CPU, m: MmuView) -> (CPU, MmuView, u8) {
    (
        c.with_sp(add16(c.reg_sp, -2)).with_pc(m.read_word(c.reg_pc)),
        push_mem(m, c.reg_sp, add16(c.reg_pc, 2)),
        6u8,
    )
}

/// Effect of an instruction of 0x00..=0x3F: the state after it and its machine
/// cycles, from the state `c` in which PC points past the opcode.
pub open spec fn block0_effect(c: CPU, m: MmuView, opc: u8) -> (CPU, MmuView, u8) {
    match opc {
        0x00 => (c, m, 1u8),
        0x01 => (c.skip(2).with_r16(R16::BC, m.read_word(c.reg_pc)), m, 3u8),
        0x02 => (c, m.write(c.r16(R16::BC), c.reg_a), 2u8),
        0x03 => (c.with_r16(R16::BC, add16(c.r16(R16::BC), 1)), m, 2u8),
        0x04 => (c.inc8(R8::B), m, 1u8),
        0x05 => (c.dec8(R8::B), m, 1u8),
        0x06 => (c.skip(1).with_r8(R8::B, m.read(c.reg_pc)), m, 2u8),
        0x07 => (c.rot_a(Shift::Rlc), m, 1u8),
        0x08 => (c.skip(2), m.write_word(m.read_word(c.reg_pc), c.reg_sp), 5u8),
        0x09 => (c.added_hl(c.r16(R16::BC)), m, 2u8),
        0x0A => (c.with_a(m.read(c.r16(R16::BC))), m, 2u8),
        0x0B => (c.with_r16(R16::BC, add16(c.r16(R16::BC), -1)), m, 2u8),
        0x0C => (c.inc8(R8::C), m, 1u8),
        0x0D => (c.dec8(R8::C), m, 1u8),
        0x0E => (c.skip(1).with_r8(R8::C, m.read(c.reg_pc)), m, 2u8),
        0x0F => (c.rot_a(Shift::Rrc), m, 1u8),
        0x10 => (CPU { stop: true, ..c }, m, 1u8),
        0x11 => (c.skip(2).with_r16(R16::DE, m.read_word(c.reg_pc)), m, 3u8),
        0x12 => (c, m.write(c.r16(R16::DE), c.reg_a), 2u8),
        0x13 => (c.with_r16(R16::DE, add16(c.r16(R16::DE), 1)), m, 2u8),
        0x14 => (c.inc8(R8::D), m, 1u8),
        0x15 => (c.dec8(R8::D), m, 1u8),
        0x16 => (c.skip(1).with_r8(R8::D, m.read(c.reg_pc)), m, 2u8),
        0x17 => (c.rot_a(Shift::Rl), m, 1u8),
        0x18 => (c.with_pc(c.jr_target(m.read(c.reg_pc))), m, 3u8),
        0x19 => (c.added_hl(c.r16(R16::DE)), m, 2u8),
        0x1A => (c.with_a(m.read(c.r16(R16::DE))), m, 2u8),
        0x1B => (c.with_r16(R16::DE, add16(c.r16(R16::DE), -1)), m, 2u8),
        0x1C => (c.inc8(R8::E), m, 1u8),
        0x1D => (c.dec8(R8::E), m, 1u8),
        0x1E => (c.skip(1).with_r8(R8::E, m.read(c.reg_pc)), m, 2u8),
        0x1F => (c.rot_a(Shift::Rr), m, 1u8),
        0x20 => if c.cond(CC::NZ) {
            (c.with_pc(c.jr_target(m.read(c.reg_pc))), m, 3u8)
        } else {
            (c.skip(1), m, 2u8)
        },
        0x21 => (c.skip(2).with_r16(R16::HL, m.read_word(c.reg_pc)), m, 3u8),
        0x22 => (c.with_r16(R16::HL, add16(c.hl(), 1)), m.write(c.hl(), c.reg_a), 2u8),
        0x23 => (c.with_r16(R16::HL, add16(c.r16(R16::HL), 1)), m, 2u8),
        0x24 => (c.inc8(R8::H), m, 1u8),
        0x25 => (c.dec8(R8::H), m, 1u8),
        0x26 => (c.skip(1).with_r8(R8::H, m.read(c.reg_pc)), m, 2u8),
        0x27 => (c.with_a(daa_a(c.reg_a, c.reg_f)).with_f(daa_f(c.reg_a, c.reg_f)), m, 1u8),
        0x28 => if c.cond(CC::Z) {
            (c.with_pc(c.jr_target(m.read(c.reg_pc))), m, 3u8)
        } else {
            (c.skip(1), m, 2u8)
        },
        0x29 => (c.added_hl(c.r16(R16::HL)), m, 2u8),
        0x2A => (c.with_r16(R16::HL, add16(c.hl(), 1)).with_a(m.read(c.hl())), m, 2u8),
        0x2B => (c.with_r16(R16::HL, add16(c.r16(R16::HL), -1)), m, 2u8),
        0x2C => (c.inc8(R8::L), m, 1u8),
        0x2D => (c.dec8(R8::L), m, 1u8),
        0x2E => (c.skip(1).with_r8(R8::L, m.read(c.reg_pc)), m, 2u8),
        0x2F => (c.with_a(!c.reg_a).with_f(flags(zf(c.reg_f), true, true, cf(c.reg_f))), m, 1u8),
        0x30 => if c.cond(CC::NC) {
            (c.with_pc(c.jr_target(m.read(c.reg_pc))), m, 3u8)
        } else {
            (c.skip(1), m, 2u8)
        },
        0x31 => (c.skip(2).with_sp(m.read_word(c.reg_pc)), m, 3u8),
        0x32 => (c.with_r16(R16::HL, add16(c.hl(), -1)), m.write(c.hl(), c.reg_a), 2u8),
        0x33 => (c.with_sp(add16(c.reg_sp, 1)), m, 2u8),
        0x34 => (
            c.with_f(inc_flags(m.read(c.hl()), c.reg_f)),
            m.write(c.hl(), ((m.read(c.hl()) + 1) % 256) as u8),
            3u8,
        ),
        0x35 => (
            c.with_f(dec_flags(m.read(c.hl()), c.reg_f)),
            m.write(c.hl(), ((m.read(c.hl()) - 1 + 256) % 256) as u8),
            3u8,
        ),
        0x36 => (c.skip(1), m.write(c.hl(), m.read(c.reg_pc)), 3u8),
        0x37 => (c.with_f(flags(zf(c.reg_f), false, false, true)), m, 1u8),
        0x38 => if c.cond(CC::C) {
            (c.with_pc(c.jr_target(m.read(c.reg_pc))), m, 3u8)
        } else {
            (c.skip(1), m, 2u8)
        },
        0x39 => (c.added_hl(c.reg_sp), m, 2u8),
        0x3A => (c.with_r16(R16::HL, add16(c.hl(), -1)).with_a(m.read(c.hl())), m, 2u8),
        0x3B => (c.with_sp(add16(c.reg_sp, -1)), m, 2u8),
        0x3C => (c.inc8(R8::A), m, 1u8),
        0x3D => (c.dec8(R8::A), m, 1u8),
        0x3E => (c.skip(1).with_r8(R8::A, m.read(c.reg_pc)), m, 2u8),
        _ => (c.with_f(flags(zf(c.reg_f), false, false, !cf(c.reg_f))), m, 1u8),
    }
}

/// Effect of an instruction of 0xC0..=0xFF other than the CB prefix.
pub open spec fn block3_effect(c: CPU, m: MmuView, opc: u8) -> (CPU, MmuView, u8) {
    match opc {
        0xC0 => if c.cond(CC::NZ) {
            (c.returned(m), m, 5u8)
        } else {
            (c, m, 2u8)
        },
        0xC1 => (c.with_sp(add16(c.reg_sp, 2)).with_r16(R16::BC, m.read_word(c.reg_sp)), m, 3u8),
        0xC2 => if c.cond(CC::NZ) {
            (c.with_pc(m.read_word(c.reg_pc)), m, 4u8)
        } else {
            (c.skip(2), m, 3u8)
        },
        0xC3 => (c.with_pc(m.read_word(c.reg_pc)), m, 4u8),
        0xC4 => if c.cond(CC::NZ) {
            call_effect(c, m)
        } else {
            (c.skip(2), m, 3u8)
        },
        0xC5 => (c.with_sp(add16(c.reg_sp, -2)), push_mem(m, c.reg_sp, c.r16(R16::BC)), 4u8),
        0xC6 => (c.skip(1).with_alu(AluOp::Add, m.read(c.reg_pc)), m, 2u8),
        0xC7 => (
            c.with_sp(add16(c.reg_sp, -2)).with_pc(0x00),
            push_mem(m, c.reg_sp, c.reg_pc),
            4u8,
        ),
        0xC8 => if c.cond(CC::Z) {
            (c.returned(m), m, 5u8)
        } else {
            (c, m, 2u8)
        },
        0xC9 => (c.returned(m), m, 4u8),
        0xCA => if c.cond(CC::Z) {
            (c.with_pc(m.read_word(c.reg_pc)), m, 4u8)
        } else {
            (c.skip(2), m, 3u8)
        },
        0xCB => {
            let cb = m.read(c.reg_pc);
            let r = cb_effect(c, m, cb);
            (r.0, r.1, cb_cycles(cb))
        },
        0xCC => if c.cond(CC::Z) {
            call_effect(c, m)
        } else {
            (c.skip(2), m, 3u8)
        },
        0xCD => call_effect(c, m),
        0xCE => (c.skip(1).with_alu(AluOp::Adc, m.read(c.reg_pc)), m, 2u8),
        0xCF => (
            c.with_sp(add16(c.reg_sp, -2)).with_pc(0x08),
            push_mem(m, c.reg_sp, c.reg_pc),
            4u8,
        ),
        0xD0 => if c.cond(CC::NC) {
            (c.returned(m), m, 5u8)
        } else {
            (c, m, 2u8)
        },
        0xD1 => (c.with_sp(add16(c.reg_sp, 2)).with_r16(R16::DE, m.read_word(c.reg_sp)), m, 3u8),
        0xD2 => if c.cond(CC::NC) {
            (c.with_pc(m.read_word(c.reg_pc)), m, 4u8)
        } else {
            (c.skip(2), m, 3u8)
        },
        0xD3 => (CPU { stop: true, illegal: Some((opc, add16(c.reg_pc, -1))), ..c }, m, 1u8),
        0xD4 => if c.cond(CC::NC) {
            call_effect(c, m)
        } else {
            (c.skip(2), m, 3u8)
        },
        0xD5 => (c.with_sp(add16(c.reg_sp, -2)), push_mem(m, c.reg_sp, c.r16(R16::DE)), 4u8),
        0xD6 => (c.skip(1).with_alu(AluOp::Sub, m.read(c.reg_pc)), m, 2u8),
        0xD7 => (
            c.with_sp(add16(c.reg_sp, -2)).with_pc(0x10),
            push_mem(m, c.reg_sp, c.reg_pc),
            4u8,
        ),
        0xD8 => if c.cond(CC::C) {
            (c.returned(m), m, 5u8)
        } else {
            (c, m, 2u8)
        },
        0xD9 => (CPU { ime: true, ..c.returned(m) }, m, 4u8),
        0xDA => if c.cond(CC::C) {
            (c.with_pc(m.read_word(c.reg_pc)), m, 4u8)
        } else {
            (c.skip(2), m, 3u8)
        },
        0xDB => (CPU { stop: true, illegal: Some((opc, add16(c.reg_pc, -1))), ..c }, m, 1u8),
        0xDC => if c.cond(CC::C) {
            call_effect(c, m)
        } else {
            (c.skip(2), m, 3u8)
        },
        0xDD => (CPU { stop: true, illegal: Some((opc, add16(c.reg_pc, -1))), ..c }, m, 1u8),
        0xDE => (c.skip(1).with_alu(AluOp::Sbc, m.read(c.reg_pc)), m, 2u8),
        0xDF => (
            c.with_sp(add16(c.reg_sp, -2)).with_pc(0x18),
            push_mem(m, c.reg_sp, c.reg_pc),
            4u8,
        ),
        0xE0 => (c.skip(1), m.write(high_page(m.read(c.reg_pc)), c.reg_a), 3u8),
        0xE1 => (c.with_sp(add16(c.reg_sp, 2)).with_r16(R16::HL, m.read_word(c.reg_sp)), m, 3u8),
        0xE2 => (c, m.write(high_page(c.reg_c), c.reg_a), 2u8),
        0xE3 => (CPU { stop: true, illegal: Some((opc, add16(c.reg_pc, -1))), ..c }, m, 1u8),
        0xE4 => (CPU { stop: true, illegal: Some((opc, add16(c.reg_pc, -1))), ..c }, m, 1u8),
        0xE5 => (c.with_sp(add16(c.reg_sp, -2)), push_mem(m, c.reg_sp, c.r16(R16::HL)), 4u8),
        0xE6 => (c.skip(1).with_alu(AluOp::And, m.read(c.reg_pc)), m, 2u8),
        0xE7 => (
            c.with_sp(add16(c.reg_sp, -2)).with_pc(0x20),
            push_mem(m, c.reg_sp, c.reg_pc),
            4u8,
        ),
        0xE8 => (
            c.skip(1).with_sp(add16(c.reg_sp, signed8(m.read(c.reg_pc)))).with_f(
                sp_e8_flags(c.reg_sp, m.read(c.reg_pc)),
            ),
            m,
            4u8,
        ),
        0xE9 => (c.with_pc(c.hl()), m, 1u8),
        0xEA => (c.skip(2), m.write(m.read_word(c.reg_pc), c.reg_a), 4u8),
        0xEB => (CPU { stop: true, illegal: Some((opc, add16(c.reg_pc, -1))), ..c }, m, 1u8),
        0xEC => (CPU { stop: true, illegal: Some((opc, add16(c.reg_pc, -1))), ..c }, m, 1u8),
        0xED => (CPU { stop: true, illegal: Some((opc, add16(c.reg_pc, -1))), ..c }, m, 1u8),
        0xEE => (c.skip(1).with_alu(AluOp::Xor, m.read(c.reg_pc)), m, 2u8),
        0xEF => (
            c.with_sp(add16(c.reg_sp, -2)).with_pc(0x28),
            push_mem(m, c.reg_sp, c.reg_pc),
            4u8,
        ),
        0xF0 => (c.skip(1).with_a(m.read(high_page(m.read(c.reg_pc)))), m, 3u8),
        0xF1 => (
            CPU {
                reg_a: (m.read_word(c.reg_sp) / 256) as u8,
                reg_f: ((m.read_word(c.reg_sp) % 256) as u8) & 0xF0,
                reg_sp: add16(c.reg_sp, 2),
                ..c
            },
            m,
            3u8,
        ),
        0xF2 => (c.with_a(m.read(high_page(c.reg_c))), m, 2u8),
        0xF3 => (CPU { ime: false, ..c }, m, 1u8),
        0xF4 => (CPU { stop: true, illegal: Some((opc, add16(c.reg_pc, -1))), ..c }, m, 1u8),
        0xF5 => (
            c.with_sp(add16(c.reg_sp, -2)),
            push_mem(m, c.reg_sp, word(c.reg_a, c.reg_f)),
            4u8,
        ),
        0xF6 => (c.skip(1).with_alu(AluOp::Or, m.read(c.reg_pc)), m, 2u8),
        0xF7 => (
            c.with_sp(add16(c.reg_sp, -2)).with_pc(0x30),
            push_mem(m, c.reg_sp, c.reg_pc),
            4u8,
        ),
        0xF8 => (
            c.skip(1).with_r16(R16::HL, add16(c.reg_sp, signed8(m.read(c.reg_pc)))).with_f(
                sp_e8_flags(c.reg_sp, m.read(c.reg_pc)),
            ),
            m,
            3u8,
        ),
        0xF9 => (c.with_sp(c.hl()), m, 2u8),
        0xFA => (c.skip(2).with_a(m.read(m.read_word(c.reg_pc))), m, 4u8),
        0xFB => (CPU { ime: true, ..c }, m, 1u8),
        0xFC => (CPU { stop: true, illegal: Some((opc, add16(c.reg_pc, -1))), ..c }, m, 1u8),
        0xFD => (CPU { stop: true, illegal: Some((opc, add16(c.reg_pc, -1))), ..c }, m, 1u8),
        0xFE => (c.skip(1).with_alu(AluOp::Cp, m.read(c.reg_pc)), m, 2u8),
        _ => (c.with_sp(add16(c.reg_sp, -2)).with_pc(0x38), push_mem(m, c.reg_sp, c.reg_pc), 4u8),
    }
}

/// Effect of instruction `opc`: the state after it and its machine cycles,
/// from the state `c` in which PC points past the opcode.
pub open spec fn instruction_effect(c: CPU, m: MmuView, opc: u8) -> (CPU, MmuView, u8) {
    if opc < 0x40 {
        block0_effect(c, m, opc)
    } else if opc < 0x80 {
        let r = load_effect(c, m, opc);
        (r.0, r.1, if opc == 0x76 || (opc / 8 % 8 != 6 && opc % 8 != 6) {
            1u8
        } else {
            2u8
        })
    } else if opc < 0xC0 {
        (
            c.with_alu(alu_of((opc / 8 % 8) as u8), operand(c, m, (opc % 8) as u8)),
            m,
            operand_cycles((opc % 8) as u8),
        )
    } else {
        block3_effect(c, m, opc)
    }
}

/// The register that operand field `i` names.
fn reg_index(i: u8) -> (r: R8)
    requires
        i < 8,
        i != 6,
    ensures
        r == reg_of(i),
{
    match i {
        0 => R8::B,
        1 => R8::C,
        2 => R8::D,
        3 => R8::E,
        4 => R8::H,
        5 => R8::L,
        _ => R8::A,
    }
}

impl CPU {
    /// Executes the CB-prefixed instruction whose second byte is at PC.
    pub fn map_cb_and_execute(&mut self, mmu: &mut MMU) -> (m: u8)
        requires
            old(mmu)@.wf(),
        ensures
            ({
                let cb = old(mmu)@.read(old(self).reg_pc);
                &&& (*final(self), final(mmu)@) == cb_effect(*old(self), old(mmu)@, cb)
                &&& m == cb_cycles(cb)
            }),
            final(mmu)@.wf(),
    {
        let cb = self.fetch8(mmu);
        let y = cb / 8 % 8;
        let z = cb % 8;
        if cb < 0x40 {
            if z == 6 {
                match y {
                    0 => self.rlc_mhl(mmu),
                    1 => self.rrc_mhl(mmu),
                    2 => self.rl_mhl(mmu),
                    3 => self.rr_mhl(mmu),
                    4 => self.sla_mhl(mmu),
                    5 => self.sra_mhl(mmu),
                    6 => self.swap_mhl(mmu),
                    _ => self.srl_mhl(mmu),
                }
            } else {
                let r = reg_index(z);
                match y {
                    0 => self.rlc_r8(r),
                    1 => self.rrc_r8(r),
                    2 => self.rl_r8(r),
                    3 => self.rr_r8(r),
                    4 => self.sla_r8(r),
                    5 => self.sra_r8(r),
                    6 => self.swap_r8(r),
                    _ => self.srl_r8(r),
                }
            }
        } else if cb < 0x80 {
            if z == 6 {
                self.bit_u3_mhl(mmu, y)
            } else {
                self.bit_u3_r8(y, reg_index(z))
            }
        } else if cb < 0xC0 {
            if z == 6 {
                self.res_u3_mhl(mmu, y)
            } else {
                self.res_u3_r8(y, reg_index(z))
            }
        } else {
            if z == 6 {
                self.set_u3_mhl(mmu, y)
            } else {
                self.set_u3_r8(y, reg_index(z))
            }
        }
    }

    /// Executes an instruction of 0x40..=0x7F.
    fn exec_load_block(&mut self, mmu: &mut MMU, opc: u8) -> (m: u8)
        requires
            0x40 <= opc < 0x80,
            old(mmu)@.wf(),
        ensures
            (*final(self), final(mmu)@) == load_effect(*old(self), old(mmu)@, opc),
            m == (if opc == 0x76 || (opc / 8 % 8 != 6 && opc % 8 != 6) {
                1u8
            } else {
                2u8
            }),
            final(mmu)@.wf(),
    {
        let y = opc / 8 % 8;
        let z = opc % 8;
        if opc == 0x76 {
            self.halt()
        } else if y == 6 {
            self.ld_mhl_r8(mmu, reg_index(z))
        } else if z == 6 {
            self.ld_r8_mhl(mmu, reg_index(y))
        } else {
            self.ld_r8_r8(reg_index(y), reg_index(z))
        }
    }

    /// Executes an accumulator instruction of 0x80..=0xBF.
    fn exec_alu_block(&mut self, mmu: &MMU, opc: u8) -> (m: u8)
        requires
            0x80 <= opc < 0xC0,
            mmu@.wf(),
        ensures
            *final(self) == old(self).with_alu(
                alu_of((opc / 8 % 8) as u8),
                operand(*old(self), mmu@, (opc % 8) as u8),
            ),
            m == operand_cycles((opc % 8) as u8),
    {
        let y = opc / 8 % 8;
        let z = opc % 8;
        if z == 6 {
            match y {
                0 => self.add_a_mhl(mmu),
                1 => self.adc_a_mhl(mmu),
                2 => self.sub_a_mhl(mmu),
                3 => self.sbc_a_mhl(mmu),
                4 => self.and_a_mhl(mmu),
                5 => self.xor_a_mhl(mmu),
                6 => self.or_a_mhl(mmu),
                _ => self.cp_a_mhl(mmu),
            }
        } else {
            let r = reg_index(z);
            match y {
                0 => self.add_a_r8(r),
                1 => self.adc_a_r8(r),
                2 => self.sub_a_r8(r),
                3 => self.sbc_a_r8(r),
                4 => self.and_a_r8(r),
                5 => self.xor_a_r8(r),
                6 => self.or_a_r8(r),
                _ => self.cp_a_r8(r),
            }
        }
    }

    /// Executes an instruction of 0x00..=0x3F.
    #[verifier::rlimit(60)]
    fn exec_block0(&mut self, mmu: &mut MMU, opc: u8) -> (m: u8)
        requires
            opc < 0x40,
            old(self).wf(),
            old(mmu)@.wf(),
        ensures
            (*final(self), final(mmu)@, m) == block0_effect(*old(self), old(mmu)@, opc),
            final(self).wf(),
            final(mmu)@.wf(),
            final(mmu)@.in_bios == old(mmu)@.in_bios,
            1 <= m <= 5,
    {
        match opc {
            0x00 => self.nop(),
            0x01 => self.ld_r16_n16(mmu, R16::BC),
            0x02 => self.ld_mr16_a(mmu, R16::BC),
            0x03 => self.inc_r16(R16::BC),
            0x04 => self.inc_r8(R8::B),
            0x05 => self.dec_r8(R8::B),
            0x06 => self.ld_r8_n8(mmu, R8::B),
            0x07 => self.rlca(),
            0x08 => self.ld_mn16_sp(mmu),
            0x09 => self.add_hl_r16(R16::BC),
            0x0A => self.ld_a_mr16(mmu, R16::BC),
            0x0B => self.dec_r16(R16::BC),
            0x0C => self.inc_r8(R8::C),
            0x0D => self.dec_r8(R8::C),
            0x0E => self.ld_r8_n8(mmu, R8::C),
            0x0F => self.rrca(),
            0x10 => self.stop(),
            0x11 => self.ld_r16_n16(mmu, R16::DE),
            0x12 => self.ld_mr16_a(mmu, R16::DE),
            0x13 => self.inc_r16(R16::DE),
            0x14 => self.inc_r8(R8::D),
            0x15 => self.dec_r8(R8::D),
            0x16 => self.ld_r8_n8(mmu, R8::D),
            0x17 => self.rla(),
            0x18 => self.jr_n16(mmu),
            0x19 => self.add_hl_r16(R16::DE),
            0x1A => self.ld_a_mr16(mmu, R16::DE),
            0x1B => self.dec_r16(R16::DE),
            0x1C => self.inc_r8(R8::E),
            0x1D => self.dec_r8(R8::E),
            0x1E => self.ld_r8_n8(mmu, R8::E),
            0x1F => self.rra(),
            0x20 => self.jr_cc_n16(mmu, CC::NZ),
            0x21 => self.ld_r16_n16(mmu, R16::HL),
            0x22 => self.ld_hli_a(mmu),
            0x23 => self.inc_r16(R16::HL),
            0x24 => self.inc_r8(R8::H),
            0x25 => self.dec_r8(R8::H),
            0x26 => self.ld_r8_n8(mmu, R8::H),
            0x27 => self.daa(),
            0x28 => self.jr_cc_n16(mmu, CC::Z),
            0x29 => self.add_hl_r16(R16::HL),
            0x2A => self.ld_a_hli(mmu),
            0x2B => self.dec_r16(R16::HL),
            0x2C => self.inc_r8(R8::L),
            0x2D => self.dec_r8(R8::L),
            0x2E => self.ld_r8_n8(mmu, R8::L),
            0x2F => self.cpl(),
            0x30 => self.jr_cc_n16(mmu, CC::NC),
            0x31 => self.ld_sp_n16(mmu),
            0x32 => self.ld_hld_a(mmu),
            0x33 => self.inc_sp(),
            0x34 => self.inc_mhl(mmu),
            0x35 => self.dec_mhl(mmu),
            0x36 => self.ld_mhl_n8(mmu),
            0x37 => self.scf(),
            0x38 => self.jr_cc_n16(mmu, CC::C),
            0x39 => self.add_hl_sp(),
            0x3A => self.ld_a_hld(mmu),
            0x3B => self.dec_sp(),
            0x3C => self.inc_r8(R8::A),
            0x3D => self.dec_r8(R8::A),
            0x3E => self.ld_r8_n8(mmu, R8::A),
            _ => self.ccf(),
        }
    }

    /// Executes an instruction of 0xC0..=0xFF.
    #[verifier::rlimit(60)]
    fn exec_block3(&mut self, mmu: &mut MMU, opc: u8) -> (m: u8)
        requires
            opc >= 0xC0,
            old(self).wf(),
            old(mmu)@.wf(),
        ensures
            (*final(self), final(mmu)@, m) == block3_effect(*old(self), old(mmu)@, opc),
            final(self).wf(),
            final(mmu)@.wf(),
            final(mmu)@.in_bios == old(mmu)@.in_bios,
            1 <= m <= 6,
    {
        match opc {
            0xC0 => self.ret_cc(mmu, CC::NZ),
            0xC1 => self.pop_r16(mmu, R16::BC),
            0xC2 => self.jp_cc_n16(mmu, CC::NZ),
            0xC3 => self.jp_n16(mmu),
            0xC4 => self.call_cc_n16(mmu, CC::NZ),
            0xC5 => self.push_r16(mmu, R16::BC),
            0xC6 => self.add_a_n8(mmu),
            0xC7 => self.rst(mmu, 0x00),
            0xC8 => self.ret_cc(mmu, CC::Z),
            0xC9 => self.ret(mmu),
            0xCA => self.jp_cc_n16(mmu, CC::Z),
            0xCB => self.map_cb_and_execute(mmu),
            0xCC => self.call_cc_n16(mmu, CC::Z),
            0xCD => self.call_n16(mmu),
            0xCE => self.adc_a_n8(mmu),
            0xCF => self.rst(mmu, 0x08),
            0xD0 => self.ret_cc(mmu, CC::NC),
            0xD1 => self.pop_r16(mmu, R16::DE),
            0xD2 => self.jp_cc_n16(mmu, CC::NC),
            0xD3 => self.xx(opc),
            0xD4 => self.call_cc_n16(mmu, CC::NC),
            0xD5 => self.push_r16(mmu, R16::DE),
            0xD6 => self.sub_a_n8(mmu),
            0xD7 => self.rst(mmu, 0x10),
            0xD8 => self.ret_cc(mmu, CC::C),
            0xD9 => self.reti(mmu),
            0xDA => self.jp_cc_n16(mmu, CC::C),
            0xDB => self.xx(opc),
            0xDC => self.call_cc_n16(mmu, CC::C),
            0xDD => self.xx(opc),
            0xDE => self.sbc_a_n8(mmu),
            0xDF => self.rst(mmu, 0x18),
            0xE0 => self.ldh_mn16_a(mmu),
            0xE1 => self.pop_r16(mmu, R16::HL),
            0xE2 => self.ldh_mc_a(mmu),
            0xE3 => self.xx(opc),
            0xE4 => self.xx(opc),
            0xE5 => self.push_r16(mmu, R16::HL),
            0xE6 => self.and_a_n8(mmu),
            0xE7 => self.rst(mmu, 0x20),
            0xE8 => self.add_sp_e8(mmu),
            0xE9 => self.jp_mhl(),
            0xEA => self.ld_mn16_a(mmu),
            0xEB => self.xx(opc),
            0xEC => self.xx(opc),
            0xED => self.xx(opc),
            0xEE => self.xor_a_n8(mmu),
            0xEF => self.rst(mmu, 0x28),
            0xF0 => self.ldh_a_mn16(mmu),
            0xF1 => self.pop_af(mmu),
            0xF2 => self.ldh_a_mc(mmu),
            0xF3 => self.di(),
            0xF4 => self.xx(opc),
            0xF5 => self.push_af(mmu),
            0xF6 => self.or_a_n8(mmu),
            0xF7 => self.rst(mmu, 0x30),
            0xF8 => self.ld_hl_spe8(mmu),
            0xF9 => self.ld_sp_hl(),
            0xFA => self.ld_a_mn16(mmu),
            0xFB => self.ei(),
            0xFC => self.xx(opc),
            0xFD => self.xx(opc),
            0xFE => self.cp_a_n8(mmu),
            _ => self.rst(mmu, 0x38),
        }
    }

    /// Executes the instruction `opc`, whose operands follow at PC, and returns
    /// the machine cycles it took.
    pub fn map_and_execute(&mut self, mmu: &mut MMU, opc: u8) -> (m: u8)
        requires
            old(self).wf(),
            old(mmu)@.wf(),
        ensures
            (*final(self), final(mmu)@, m) == instruction_effect(*old(self), old(mmu)@, opc),
            final(self).wf(),
            final(mmu)@.wf(),
            final(mmu)@.in_bios == old(mmu)@.in_bios,
            1 <= m <= 6,
    {
        if opc < 0x40 {
            self.exec_block0(mmu, opc)
        } else if opc < 0x80 {
            self.exec_load_block(mmu, opc)
        } else if opc < 0xC0 {
            self.exec_alu_block(mmu, opc)
        } else {
            self.exec_block3(mmu, opc)
        }
    }
}

} // verus!
