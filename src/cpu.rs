use vstd::prelude::*;

use crate::alu::{
    AluOp, FLAG_CARRY, FLAG_HALF_CARRY, FLAG_SUB, FLAG_ZERO, Shift, add16_flags, alu_a, alu_f,
    bit_mask, cf, dec_flags, flags, hf, inc_flags, lemma_flags, nf, rot_a_flags, shift_result, zf,
};
use crate::decode::instruction_effect;
use crate::mmu::{
    MMU, MmuView, REG_INTERRUPTS, REG_INT_ENABLE, lemma_write_other, lemma_write_read,
};

verus! {

broadcast use lemma_flags;

/// The 8-bit registers that instructions name.
#[derive(Clone, Copy, Debug, PartialEq, Eq, Structural)]
pub enum R8 {
    A,
    B,
    C,
    D,
    E,
    H,
    L,
}

/// The register pairs that instructions name.
#[derive(Clone, Copy, Debug, PartialEq, Eq, Structural)]
pub enum R16 {
    BC,
    DE,
    HL,
}

/// Branch conditions.
#[derive(Clone, Copy, Debug, PartialEq, Eq, Structural)]
pub enum CC {
    Z,
    NZ,
    C,
    NC,
}

/// Interrupt bits of IE and IF, lowest bit first in priority.
pub const FLAG_INT_VBLANK: u8 = 0x01;
pub const FLAG_INT_LCD_STAT: u8 = 0x02;
pub const FLAG_INT_TIMER: u8 = 0x04;
pub const FLAG_INT_SERIAL: u8 = 0x08;
pub const FLAG_INT_JOYP: u8 = 0x10;

/// The processor: eight 8-bit registers, PC and SP, the interrupt master enable,
/// and the HALT and STOP latches.
#[derive(Clone, Copy, Debug)]
pub struct CPU {
    pub reg_a: u8,
    pub reg_b: u8,
    pub reg_c: u8,
    pub reg_d: u8,
    pub reg_e: u8,
    pub reg_f: u8,
    pub reg_h: u8,
    pub reg_l: u8,
    pub reg_pc: u16,
    pub reg_sp: u16,
    pub ime: bool,
    pub halt: bool,
    pub stop: bool,
    /// The illegal opcode and its address, once one has been met.
    pub illegal: Option<(u8, u16)>,
}

/// `x + k` on the 16-bit address space, wrapping.
pub open spec fn add16(x: u16, k: int) -> u16 {
    ((x + k) % 0x10000) as u16
}

/// The word made of a high and a low byte.
pub open spec fn word(hi: u8, lo: u8) -> u16 {
    (hi * 256 + lo) as u16
}

/// Memory after pushing `v`: high byte at `sp - 1`, low byte at `sp - 2`.
pub open spec fn push_mem(m: MmuView, sp: u16, v: u16) -> MmuView {
    m.write(add16(sp, -1), (v / 256) as u8).write(add16(sp, -2), (v % 256) as u8)
}

/// The five interrupt sources that are both enabled and requested.
pub open spec fn pending(ie: u8, iflag: u8) -> u8 {
    ie & iflag & 0x1F
}

/// The index of the interrupt served first: the lowest pending bit.
pub open spec fn first_interrupt(p: u8) -> u8 {
    if p & 0x01 != 0 {
        0
    } else if p & 0x02 != 0 {
        1
    } else if p & 0x04 != 0 {
        2
    } else if p & 0x08 != 0 {
        3
    } else {
        4
    }
}

/// Effect of interrupt dispatch at an instruction boundary: the state after it
/// and its machine cycles. With IME set and an interrupt pending, the lowest
/// pending bit is cleared in IF, IME is cleared, PC is pushed and the vector
/// taken, for 5 machine cycles; otherwise nothing happens.
pub open spec fn interrupt_effect(c: CPU, m: MmuView) -> (CPU, MmuView, u32) {
    let iflag = m.read(REG_INTERRUPTS);
    let p = pending(m.read(REG_INT_ENABLE), iflag);
    let i = first_interrupt(p);
    if c.ime && p != 0 {
        (
            CPU { ime: false, reg_sp: add16(c.reg_sp, -2), reg_pc: interrupt_vector(i), ..c },
            push_mem(m.write(REG_INTERRUPTS, iflag & !bit_mask(i)), c.reg_sp, c.reg_pc),
            5,
        )
    } else {
        (c, m, 0)
    }
}

/// Effect of one call of `exec`: the state after it and its machine cycles.
/// Fetching from 0x0100 unmaps the boot ROM first. A halted processor with no
/// pending interrupt idles for one cycle; otherwise HALT ends, one instruction
/// runs, and then one pending interrupt may be served.
#[verifier::opaque]
pub open spec fn exec_effect(c: CPU, m: MmuView) -> (CPU, MmuView, int) {
    let m0 = MmuView { in_bios: m.in_bios && c.reg_pc != 0x0100, ..m };
    if c.halt && pending(m0.read(REG_INT_ENABLE), m0.read(REG_INTERRUPTS)) == 0 {
        (c, m0, 1)
    } else {
        let c0 = CPU { halt: false, ..c };
        let step = instruction_effect(c0.skip(1), m0, m0.read(c0.reg_pc));
        let after = interrupt_effect(step.0, step.1);
        (after.0, after.1, step.2 + after.2)
    }
}

/// The address the interrupt of index `i` jumps to.
pub open spec fn interrupt_vector(i: u8) -> u16 {
    (0x40 + 8 * i) as u16
}

impl CPU {
    /// The lower nibble of F is always clear.
    pub open spec fn wf(&self) -> bool {
        self.reg_f & 0x0F == 0
    }

    pub open spec fn r8(&self, r: R8) -> u8 {
        match r {
            R8::A => self.reg_a,
            R8::B => self.reg_b,
            R8::C => self.reg_c,
            R8::D => self.reg_d,
            R8::E => self.reg_e,
            R8::H => self.reg_h,
            R8::L => self.reg_l,
        }
    }

    pub open spec fn with_r8(self, r: R8, v: u8) -> CPU {
        match r {
            R8::A => CPU { reg_a: v, ..self },
            R8::B => CPU { reg_b: v, ..self },
            R8::C => CPU { reg_c: v, ..self },
            R8::D => CPU { reg_d: v, ..self },
            R8::E => CPU { reg_e: v, ..self },
            R8::H => CPU { reg_h: v, ..self },
            R8::L => CPU { reg_l: v, ..self },
        }
    }

    pub open spec fn hl(&self) -> u16 {
        word(self.reg_h, self.reg_l)
    }

    pub open spec fn r16(&self, r: R16) -> u16 {
        match r {
            R16::BC => word(self.reg_b, self.reg_c),
            R16::DE => word(self.reg_d, self.reg_e),
            R16::HL => word(self.reg_h, self.reg_l),
        }
    }

    pub open spec fn with_r16(self, r: R16, v: u16) -> CPU {
        let hi = (v / 256) as u8;
        let lo = (v % 256) as u8;
        match r {
            R16::BC => CPU { reg_b: hi, reg_c: lo, ..self },
            R16::DE => CPU { reg_d: hi, reg_e: lo, ..self },
            R16::HL => CPU { reg_h: hi, reg_l: lo, ..self },
        }
    }

    pub open spec fn with_f(self, f: u8) -> CPU {
        CPU { reg_f: f, ..self }
    }

    pub open spec fn with_pc(self, pc: u16) -> CPU {
        CPU { reg_pc: pc, ..self }
    }

    pub open spec fn with_sp(self, sp: u16) -> CPU {
        CPU { reg_sp: sp, ..self }
    }

    /// PC moved past `k` operand bytes.
    pub open spec fn skip(self, k: int) -> CPU {
        self.with_pc(add16(self.reg_pc, k))
    }

    pub open spec fn cond(&self, c: CC) -> bool {
        match c {
            CC::Z => zf(self.reg_f),
            CC::NZ => !zf(self.reg_f),
            CC::C => cf(self.reg_f),
            CC::NC => !cf(self.reg_f),
        }
    }

    /// The state after a return: PC popped from the stack.
    pub open spec fn returned(self, m: MmuView) -> CPU {
        self.with_sp(add16(self.reg_sp, 2)).with_pc(m.read_word(self.reg_sp))
    }

    pub open spec fn with_a(self, v: u8) -> CPU {
        CPU { reg_a: v, ..self }
    }

    /// The state after INC of register `r`.
    pub open spec fn inc8(self, r: R8) -> CPU {
        self.with_r8(r, ((self.r8(r) + 1) % 256) as u8).with_f(inc_flags(self.r8(r), self.reg_f))
    }

    /// The state after DEC of register `r`.
    pub open spec fn dec8(self, r: R8) -> CPU {
        self.with_r8(r, ((self.r8(r) - 1 + 256) % 256) as u8).with_f(dec_flags(self.r8(r), self.reg_f))
    }

    /// The state after one of RLCA, RRCA, RLA, RRA.
    pub open spec fn rot_a(self, op: Shift) -> CPU {
        CPU {
            reg_a: shift_result(op, self.reg_a, self.reg_f),
            reg_f: rot_a_flags(op, self.reg_a),
            ..self
        }
    }

    /// The state after ADD HL with operand `v`.
    pub open spec fn added_hl(self, v: u16) -> CPU {
        self.with_r16(R16::HL, add16(self.hl(), v as int)).with_f(add16_flags(self.hl(), v, self.reg_f))
    }

    /// The state after an accumulator operation with operand `x`.
    pub open spec fn with_alu(self, op: AluOp, x: u8) -> CPU {
        CPU {
            reg_a: alu_a(op, self.reg_a, x, self.reg_f),
            reg_f: alu_f(op, self.reg_a, x, self.reg_f),
            ..self
        }
    }

    pub fn read_r8(&self, r: R8) -> (v: u8)
        ensures
            v == self.r8(r),
    {
        match r {
            R8::A => self.reg_a,
            R8::B => self.reg_b,
            R8::C => self.reg_c,
            R8::D => self.reg_d,
            R8::E => self.reg_e,
            R8::H => self.reg_h,
            R8::L => self.reg_l,
        }
    }

    pub fn write_r8(&mut self, r: R8, v: u8)
        ensures
            *final(self) == old(self).with_r8(r, v),
    {
        match r {
            R8::A => self.reg_a = v,
            R8::B => self.reg_b = v,
            R8::C => self.reg_c = v,
            R8::D => self.reg_d = v,
            R8::E => self.reg_e = v,
            R8::H => self.reg_h = v,
            R8::L => self.reg_l = v,
        }
    }

    pub fn read_r16(&self, r: R16) -> (v: u16)
        ensures
            v == self.r16(r),
    {
        match r {
            R16::BC => self.reg_b as u16 * 256 + self.reg_c as u16,
            R16::DE => self.reg_d as u16 * 256 + self.reg_e as u16,
            R16::HL => self.reg_h as u16 * 256 + self.reg_l as u16,
        }
    }

    pub fn write_r16(&mut self, r: R16, v: u16)
        ensures
            *final(self) == old(self).with_r16(r, v),
    {
        let hi = (v / 256) as u8;
        let lo = (v % 256) as u8;
        match r {
            R16::BC => {
                self.reg_b = hi;
                self.reg_c = lo;
            },
            R16::DE => {
                self.reg_d = hi;
                self.reg_e = lo;
            },
            R16::HL => {
                self.reg_h = hi;
                self.reg_l = lo;
            },
        }
    }

    /// Sets F from the four flags, leaving the lower nibble clear.
    pub fn set_flags(&mut self, z: bool, n: bool, h: bool, c: bool)
        ensures
            *final(self) == old(self).with_f(flags(z, n, h, c)),
    {
        self.reg_f = (if z { FLAG_ZERO } else { 0u8 }) | (if n { FLAG_SUB } else { 0u8 }) | (if h {
            FLAG_HALF_CARRY
        } else {
            0u8
        }) | (if c { FLAG_CARRY } else { 0u8 });
    }

    pub fn flag_z(&self) -> (b: bool)
        ensures
            b == zf(self.reg_f),
    {
        self.reg_f & FLAG_ZERO != 0
    }

    pub fn flag_n(&self) -> (b: bool)
        ensures
            b == nf(self.reg_f),
    {
        self.reg_f & FLAG_SUB != 0
    }

    pub fn flag_h(&self) -> (b: bool)
        ensures
            b == hf(self.reg_f),
    {
        self.reg_f & FLAG_HALF_CARRY != 0
    }

    pub fn flag_c(&self) -> (b: bool)
        ensures
            b == cf(self.reg_f),
    {
        self.reg_f & FLAG_CARRY != 0
    }

    pub fn check(&self, c: CC) -> (b: bool)
        ensures
            b == self.cond(c),
    {
        match c {
            CC::Z => self.flag_z(),
            CC::NZ => !self.flag_z(),
            CC::C => self.flag_c(),
            CC::NC => !self.flag_c(),
        }
    }

    /// Reads the byte at PC and moves PC on by one, wrapping from 0xFFFF to 0x0000.
    pub fn fetch8(&mut self, mmu: &MMU) -> (v: u8)
        requires
            mmu@.wf(),
        ensures
            v == mmu@.read(old(self).reg_pc),
            *final(self) == old(self).skip(1),
    {
        let v = mmu.rb(self.reg_pc);
        self.reg_pc = self.reg_pc.wrapping_add(1);
        v
    }

    /// Reads the little-endian word at PC and moves PC on by two.
    pub fn fetch16(&mut self, mmu: &MMU) -> (v: u16)
        requires
            mmu@.wf(),
        ensures
            v == mmu@.read_word(old(self).reg_pc),
            *final(self) == old(self).skip(2),
    {
        let v = mmu.rw(self.reg_pc);
        self.reg_pc = self.reg_pc.wrapping_add(2);
        v
    }

    /// Pushes `v`: SP drops by two, the high byte lands at the upper address.
    pub fn push16(&mut self, mmu: &mut MMU, v: u16)
        requires
            old(mmu)@.wf(),
        ensures
            *final(self) == old(self).with_sp(add16(old(self).reg_sp, -2)),
            final(mmu)@ == push_mem(old(mmu)@, old(self).reg_sp, v),
            final(mmu)@.wf(),
    {
        self.reg_sp = self.reg_sp.wrapping_sub(1);
        mmu.wb(self.reg_sp, (v / 256) as u8);
        self.reg_sp = self.reg_sp.wrapping_sub(1);
        mmu.wb(self.reg_sp, (v % 256) as u8);
    }

    /// Pops a little-endian word: SP rises by two.
    pub fn pop16(&mut self, mmu: &MMU) -> (v: u16)
        requires
            mmu@.wf(),
        ensures
            v == mmu@.read_word(old(self).reg_sp),
            *final(self) == old(self).with_sp(add16(old(self).reg_sp, 2)),
    {
        let v = mmu.rw(self.reg_sp);
        self.reg_sp = self.reg_sp.wrapping_add(2);
        v
    }
}

/// A processor in its power-on state, for a start through the boot ROM.
pub fn new_cpu() -> (r: CPU)
    ensures
        r == cold_state(),
        r.wf(),
{
    proof {
        assert(0u8 & 0x0F == 0) by (bit_vector);
    }
    CPU {
        reg_a: 0,
        reg_b: 0,
        reg_c: 0,
        reg_d: 0,
        reg_e: 0,
        reg_f: 0,
        reg_h: 0,
        reg_l: 0,
        reg_pc: 0,
        reg_sp: 0,
        ime: false,
        halt: false,
        stop: false,
        illegal: None,
    }
}

/// All registers zero, interrupts disabled, no latch set.
pub open spec fn cold_state() -> CPU {
    CPU {
        reg_a: 0,
        reg_b: 0,
        reg_c: 0,
        reg_d: 0,
        reg_e: 0,
        reg_f: 0,
        reg_h: 0,
        reg_l: 0,
        reg_pc: 0,
        reg_sp: 0,
        ime: false,
        halt: false,
        stop: false,
        illegal: None,
    }
}

/// The register values that the boot ROM leaves behind.
pub open spec fn post_boot_state() -> CPU {
    CPU {
        reg_a: 0x01,
        reg_f: 0xB0,
        reg_b: 0x00,
        reg_c: 0x13,
        reg_d: 0x00,
        reg_e: 0xD8,
        reg_h: 0x01,
        reg_l: 0x4D,
        reg_sp: 0xFFFE,
        reg_pc: 0x0100,
        ..cold_state()
    }
}

/// A processor in the state the boot ROM leaves, for a start at 0x0100.
pub fn new_cpu_post_boot() -> (r: CPU)
    ensures
        r == post_boot_state(),
        r.wf(),
{
    let mut c = new_cpu();
    c.reg_a = 0x01;
    c.reg_f = 0xB0;
    c.reg_c = 0x13;
    c.reg_e = 0xD8;
    c.reg_h = 0x01;
    c.reg_l = 0x4D;
    c.reg_sp = 0xFFFE;
    c.reg_pc = 0x0100;
    proof {
        assert(0xB0u8 & 0x0F == 0) by (bit_vector);
    }
    c
}

impl CPU {
    /// Back to the power-on state.
    pub fn reset(&mut self)
        ensures
            *final(self) == cold_state(),
    {
        *self = new_cpu();
    }

    /// Serves the highest-priority pending interrupt, if IME is set: clears its
    /// bit in IF, clears IME, pushes PC and jumps to the vector. Returns the
    /// machine cycles taken (5, or 0 when nothing was served).
    pub fn service_interrupts(&mut self, mmu: &mut MMU) -> (m: u32)
        requires
            old(mmu)@.wf(),
        ensures
            (*final(self), final(mmu)@, m as u32) == interrupt_effect(*old(self), old(mmu)@),
            final(mmu)@.wf(),
    {
        if !self.ime {
            return 0;
        }
        let ie = mmu.rb(REG_INT_ENABLE);
        let iflag = mmu.rb(REG_INTERRUPTS);
        let p = ie & iflag & 0x1F;
        if p == 0 {
            return 0;
        }
        let i: u8 = if p & FLAG_INT_VBLANK != 0 {
            0
        } else if p & FLAG_INT_LCD_STAT != 0 {
            1
        } else if p & FLAG_INT_TIMER != 0 {
            2
        } else if p & FLAG_INT_SERIAL != 0 {
            3
        } else {
            4
        };
        mmu.wb(REG_INTERRUPTS, iflag & !(1u8 << i));
        self.ime = false;
        let pc = self.reg_pc;
        self.push16(mmu, pc);
        self.reg_pc = 0x40 + 8 * (i as u16);
        5
    }
}

impl CPU {
    /// Executes one instruction, CB-prefixed ones included, then serves one
    /// pending interrupt if IME is set. Returns the elapsed machine and T cycles.
    /// `instruction_effect` and `interrupt_effect` give the resulting state.
    ///
    /// Fetching from 0x0100 unmaps the boot ROM first. A halted processor with
    /// no pending interrupt idles for one machine cycle without moving PC.
    pub fn exec(&mut self, mmu: &mut MMU) -> (r: (u32, u32))
        requires
            old(self).wf(),
            old(mmu)@.wf(),
        ensures
            final(self).wf(),
            final(mmu)@.wf(),
            r.1 == r.0 * 4,
            1 <= r.0 <= 11,
            final(mmu)@.in_bios == (old(mmu)@.in_bios && old(self).reg_pc != 0x0100),
            (*final(self), final(mmu)@, r.0 as int) == exec_effect(*old(self), old(mmu)@),
    {
        proof {
            reveal(exec_effect);
        }
        if mmu.bios_mapped() && self.reg_pc == 0x0100 {
            mmu.unmap_bios();
        }
        if self.halt {
            let p = mmu.rb(REG_INT_ENABLE) & mmu.rb(REG_INTERRUPTS) & 0x1F;
            if p == 0 {
                return (1, 4);
            }
            self.halt = false;
        }
        let opc = self.fetch8(mmu);
        let m = self.map_and_execute(mmu, opc) as u32;
        let cycles = m + self.service_interrupts(mmu);
        (cycles, cycles * 4)
    }
}

/// The interrupt served is the lowest pending bit: it is pending, every lower
/// bit is not, and serving it clears that bit of IF alone.
pub proof fn lemma_interrupt_precedence(ie: u8, iflag: u8)
    requires
        pending(ie, iflag) != 0,
    ensures
        first_interrupt(pending(ie, iflag)) < 5,
        pending(ie, iflag) & bit_mask(first_interrupt(pending(ie, iflag))) != 0,
        forall|j: u8|
            j < first_interrupt(pending(ie, iflag)) ==> pending(ie, iflag) & #[trigger] bit_mask(j)
                == 0,
        forall|j: u8|
            j < 8 && j != first_interrupt(pending(ie, iflag)) ==> (iflag & !bit_mask(
                first_interrupt(pending(ie, iflag)),
            )) & #[trigger] bit_mask(j) == iflag & bit_mask(j),
        (iflag & !bit_mask(first_interrupt(pending(ie, iflag)))) & bit_mask(
            first_interrupt(pending(ie, iflag)),
        ) == 0,
{
    let p = pending(ie, iflag);
    let i = first_interrupt(p);
    lemma_precedence_bits(ie, iflag, p, i);
}

proof fn lemma_precedence_bits(ie: u8, iflag: u8, p: u8, i: u8)
    by (bit_vector)
    requires
        p == ie & iflag & 0x1F,
        p != 0,
        i == (if p & 0x01 != 0 {
            0u8
        } else if p & 0x02 != 0 {
            1u8
        } else if p & 0x04 != 0 {
            2u8
        } else if p & 0x08 != 0 {
            3u8
        } else {
            4u8
        }),
    ensures
        i < 5,
        p & (1u8 << i) != 0,
        forall|j: u8| j < i ==> p & #[trigger] (1u8 << j) == 0,
        forall|j: u8| j < 8 && j != i ==> (iflag & !(1u8 << i)) & #[trigger] (1u8 << j) == iflag & (1u8 << j),
        (iflag & !(1u8 << i)) & (1u8 << i) == 0,
{
}

/// RAM that a push can land in and read back from: video, external, work and
/// sprite RAM, and high RAM.
pub open spec fn stack_ram(a: u16) -> bool {
    0x8000 <= a < 0xFEA0 || 0xFF80 <= a < 0xFFFF
}

/// The instruction that `exec` runs from `c`, `m`: the state after it, before
/// any interrupt is served.
#[verifier::opaque]
pub open spec fn instruction_step(c: CPU, m: MmuView) -> (CPU, MmuView, u8) {
    let m0 = MmuView { in_bios: m.in_bios && c.reg_pc != 0x0100, ..m };
    let c0 = CPU { halt: false, ..c };
    instruction_effect(c0.skip(1), m0, m0.read(c0.reg_pc))
}

/// Outside the idle case, `exec` runs one instruction and then the interrupt check.
proof fn lemma_exec_effect_split(c: CPU, m: MmuView)
    requires
        ({
            let m0 = MmuView { in_bios: m.in_bios && c.reg_pc != 0x0100, ..m };
            !(c.halt && pending(m0.read(REG_INT_ENABLE), m0.read(REG_INTERRUPTS)) == 0)
        }),
    ensures
        ({
            let s = instruction_step(c, m);
            let a = interrupt_effect(s.0, s.1);
            exec_effect(c, m) == (a.0, a.1, s.2 + a.2)
        }),
{
    reveal(exec_effect);
    reveal(instruction_step);
}

/// Interrupt dispatch at an instruction boundary: when the instruction that
/// `exec` runs leaves IME set with an enabled interrupt requested, `exec` then
/// serves the lowest pending one (VBlank, then LCDStat, Timer, Serial, Joypad).
/// It clears that bit of IF alone, clears IME, pushes the PC that follows the
/// instruction (low byte at the new SP, high byte above it), jumps to
/// `0x40 + 8 * i`, and takes 5 machine cycles more than the instruction.
pub proof fn lemma_exec_serves_interrupt(c: CPU, m: MmuView)
    requires
        ({
            let m0 = MmuView { in_bios: m.in_bios && c.reg_pc != 0x0100, ..m };
            let s = instruction_step(c, m);
            &&& s.1.wf()
            &&& !(c.halt && pending(m0.read(REG_INT_ENABLE), m0.read(REG_INTERRUPTS)) == 0)
            &&& s.0.ime
            &&& pending(s.1.read(REG_INT_ENABLE), s.1.read(REG_INTERRUPTS)) != 0
            &&& stack_ram(add16(s.0.reg_sp, -1))
            &&& stack_ram(add16(s.0.reg_sp, -2))
        }),
    ensures
        ({
            let s = instruction_step(c, m);
            let iflag = s.1.read(REG_INTERRUPTS);
            let p = pending(s.1.read(REG_INT_ENABLE), iflag);
            let i = first_interrupt(p);
            let r = exec_effect(c, m);
            &&& i < 5
            &&& p & bit_mask(i) != 0
            &&& forall|j: u8| j < i ==> p & #[trigger] bit_mask(j) == 0
            &&& r.1.read(REG_INTERRUPTS) == iflag & !bit_mask(i)
            &&& !r.0.ime
            &&& r.0.reg_pc == interrupt_vector(i)
            &&& r.0.reg_sp == add16(s.0.reg_sp, -2)
            &&& r.1.read(r.0.reg_sp) == (s.0.reg_pc % 256) as u8
            &&& r.1.read(add16(r.0.reg_sp, 1)) == (s.0.reg_pc / 256) as u8
            &&& r.2 == s.2 + 5
        }),
{
    lemma_exec_effect_split(c, m);
    let s = instruction_step(c, m);
    let iflag = s.1.read(REG_INTERRUPTS);
    let p = pending(s.1.read(REG_INT_ENABLE), iflag);
    let i = first_interrupt(p);
    lemma_interrupt_precedence(s.1.read(REG_INT_ENABLE), iflag);
    let sp = s.0.reg_sp;
    let m1 = s.1.write(REG_INTERRUPTS, iflag & !bit_mask(i));
    let hi = (s.0.reg_pc / 256) as u8;
    let lo = (s.0.reg_pc % 256) as u8;
    lemma_write_read(s.1, REG_INTERRUPTS, iflag & !bit_mask(i));
    let m2 = m1.write(add16(sp, -1), hi);
    lemma_write_read(m1, add16(sp, -1), hi);
    lemma_write_other(m1, add16(sp, -1), REG_INTERRUPTS, hi);
    let m3 = m2.write(add16(sp, -2), lo);
    lemma_write_read(m2, add16(sp, -2), lo);
    lemma_write_other(m2, add16(sp, -2), add16(sp, -1), lo);
    lemma_write_other(m2, add16(sp, -2), REG_INTERRUPTS, lo);
    assert(add16(add16(sp, -2), 1) == add16(sp, -1));
}

} // verus!
