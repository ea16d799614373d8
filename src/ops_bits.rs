use vstd::prelude::*;

use crate::alu::{Shift, bit_flags, bit_mask, flags, lemma_flags, shift_flags, shift_result};
use crate::cpu::{CPU, R16, R8};
use crate::mmu::MMU;

verus! {

broadcast use lemma_flags;

impl CPU {
    /// Rotates or shifts `v`, sets Z from the result and C from the ejected bit,
    /// and returns the result.
    pub fn shift(&mut self, op: Shift, v: u8) -> (r: u8)
        ensures
            r == shift_result(op, v, old(self).reg_f),
            *final(self) == old(self).with_f(shift_flags(op, v, old(self).reg_f)),
    {
        let c = self.flag_c();
        let r = match op {
            Shift::Rlc => (v << 1u8) | (v >> 7u8),
            Shift::Rrc => (v >> 1u8) | (v << 7u8),
            Shift::Rl => (v << 1u8) | (if c {
                1u8
            } else {
                0u8
            }),
            Shift::Rr => (v >> 1u8) | (if c {
                0x80u8
            } else {
                0u8
            }),
            Shift::Sla => v << 1u8,
            Shift::Sra => (v >> 1u8) | (v & 0x80),
            Shift::Swap => (v << 4u8) | (v >> 4u8),
            Shift::Srl => v >> 1u8,
        };
        let carry = match op {
            Shift::Rlc | Shift::Rl | Shift::Sla => v & 0x80 != 0,
            Shift::Swap => false,
            _ => v & 0x01 != 0,
        };
        self.set_flags(r == 0, false, false, carry);
        r
    }

    /// Rotates a register with the flags of the CB table.
    pub(crate) fn shift_r8(&mut self, op: Shift, r: R8)
        ensures
            *final(self) == old(self).with_r8(
                r,
                shift_result(op, old(self).r8(r), old(self).reg_f),
            ).with_f(shift_flags(op, old(self).r8(r), old(self).reg_f)),
    {
        let v = self.read_r8(r);
        let res = self.shift(op, v);
        self.write_r8(r, res);
    }

    /// Rotates the byte at HL with the flags of the CB table.
    pub(crate) fn shift_mhl(&mut self, mmu: &mut MMU, op: Shift)
        requires
            old(mmu)@.wf(),
        ensures
            ({
                let v = old(mmu)@.read(old(self).hl());
                &&& *final(self) == old(self).with_f(shift_flags(op, v, old(self).reg_f))
                &&& final(mmu)@ == old(mmu)@.write(old(self).hl(), shift_result(op, v, old(self).reg_f))
            }),
            final(mmu)@.wf(),
    {
        let addr = self.read_r16(R16::HL);
        let v = mmu.rb(addr);
        let res = self.shift(op, v);
        mmu.wb(addr, res);
    }

    /// Rotates A without the CB prefix: Z is always cleared.
    pub(crate) fn rotate_a(&mut self, op: Shift)
        ensures
            *final(self) == old(self).rot_a(op),
    {
        let v = self.reg_a;
        let res = self.shift(op, v);
        self.reg_a = res;
        let c = self.flag_c();
        self.set_flags(false, false, false, c);
    }

    /// RLC r8
    pub(crate) fn rlc_r8(&mut self, r: R8) -> (m: u8)
        ensures
            *final(self) == old(self).with_r8(
                r,
                shift_result(Shift::Rlc, old(self).r8(r), old(self).reg_f),
            ).with_f(shift_flags(Shift::Rlc, old(self).r8(r), old(self).reg_f)),
            m == 2,
    {
        self.shift_r8(Shift::Rlc, r);
        2
    }

    /// RLC (HL)
    pub(crate) fn rlc_mhl(&mut self, mmu: &mut MMU) -> (m: u8)
        requires
            old(mmu)@.wf(),
        ensures
            ({
                let v = old(mmu)@.read(old(self).hl());
                &&& *final(self) == old(self).with_f(shift_flags(Shift::Rlc, v, old(self).reg_f))
                &&& final(mmu)@ == old(mmu)@.write(
                    old(self).hl(),
                    shift_result(Shift::Rlc, v, old(self).reg_f),
                )
            }),
            final(mmu)@.wf(),
            m == 4,
    {
        self.shift_mhl(mmu, Shift::Rlc);
        4
    }

    /// RRC r8
    pub(crate) fn rrc_r8(&mut self, r: R8) -> (m: u8)
        ensures
            *final(self) == old(self).with_r8(
                r,
                shift_result(Shift::Rrc, old(self).r8(r), old(self).reg_f),
            ).with_f(shift_flags(Shift::Rrc, old(self).r8(r), old(self).reg_f)),
            m == 2,
    {
        self.shift_r8(Shift::Rrc, r);
        2
    }

    /// RRC (HL)
    pub(crate) fn rrc_mhl(&mut self, mmu: &mut MMU) -> (m: u8)
        requires
            old(mmu)@.wf(),
        ensures
            ({
                let v = old(mmu)@.read(old(self).hl());
                &&& *final(self) == old(self).with_f(shift_flags(Shift::Rrc, v, old(self).reg_f))
                &&& final(mmu)@ == old(mmu)@.write(
                    old(self).hl(),
                    shift_result(Shift::Rrc, v, old(self).reg_f),
                )
            }),
            final(mmu)@.wf(),
            m == 4,
    {
        self.shift_mhl(mmu, Shift::Rrc);
        4
    }

    /// RL r8
    pub(crate) fn rl_r8(&mut self, r: R8) -> (m: u8)
        ensures
            *final(self) == old(self).with_r8(
                r,
                shift_result(Shift::Rl, old(self).r8(r), old(self).reg_f),
            ).with_f(shift_flags(Shift::Rl, old(self).r8(r), old(self).reg_f)),
            m == 2,
    {
        self.shift_r8(Shift::Rl, r);
        2
    }

    /// RL (HL)
    pub(crate) fn rl_mhl(&mut self, mmu: &mut MMU) -> (m: u8)
        requires
            old(mmu)@.wf(),
        ensures
            ({
                let v = old(mmu)@.read(old(self).hl());
                &&& *final(self) == old(self).with_f(shift_flags(Shift::Rl, v, old(self).reg_f))
                &&& final(mmu)@ == old(mmu)@.write(
                    old(self).hl(),
                    shift_result(Shift::Rl, v, old(self).reg_f),
                )
            }),
            final(mmu)@.wf(),
            m == 4,
    {
        self.shift_mhl(mmu, Shift::Rl);
        4
    }

    /// RR r8
    pub(crate) fn rr_r8(&mut self, r: R8) -> (m: u8)
        ensures
            *final(self) == old(self).with_r8(
                r,
                shift_result(Shift::Rr, old(self).r8(r), old(self).reg_f),
            ).with_f(shift_flags(Shift::Rr, old(self).r8(r), old(self).reg_f)),
            m == 2,
    {
        self.shift_r8(Shift::Rr, r);
        2
    }

    /// RR (HL)
    pub(crate) fn rr_mhl(&mut self, mmu: &mut MMU) -> (m: u8)
        requires
            old(mmu)@.wf(),
        ensures
            ({
                let v = old(mmu)@.read(old(self).hl());
                &&& *final(self) == old(self).with_f(shift_flags(Shift::Rr, v, old(self).reg_f))
                &&& final(mmu)@ == old(mmu)@.write(
                    old(self).hl(),
                    shift_result(Shift::Rr, v, old(self).reg_f),
                )
            }),
            final(mmu)@.wf(),
            m == 4,
    {
        self.shift_mhl(mmu, Shift::Rr);
        4
    }

    /// SLA r8
    pub(crate) fn sla_r8(&mut self, r: R8) -> (m: u8)
        ensures
            *final(self) == old(self).with_r8(
                r,
                shift_result(Shift::Sla, old(self).r8(r), old(self).reg_f),
            ).with_f(shift_flags(Shift::Sla, old(self).r8(r), old(self).reg_f)),
            m == 2,
    {
        self.shift_r8(Shift::Sla, r);
        2
    }

    /// SLA (HL)
    pub(crate) fn sla_mhl(&mut self, mmu: &mut MMU) -> (m: u8)
        requires
            old(mmu)@.wf(),
        ensures
            ({
                let v = old(mmu)@.read(old(self).hl());
                &&& *final(self) == old(self).with_f(shift_flags(Shift::Sla, v, old(self).reg_f))
                &&& final(mmu)@ == old(mmu)@.write(
                    old(self).hl(),
                    shift_result(Shift::Sla, v, old(self).reg_f),
                )
            }),
            final(mmu)@.wf(),
            m == 4,
    {
        self.shift_mhl(mmu, Shift::Sla);
        4
    }

    /// SRA r8
    pub(crate) fn sra_r8(&mut self, r: R8) -> (m: u8)
        ensures
            *final(self) == old(self).with_r8(
                r,
                shift_result(Shift::Sra, old(self).r8(r), old(self).reg_f),
            ).with_f(shift_flags(Shift::Sra, old(self).r8(r), old(self).reg_f)),
            m == 2,
    {
        self.shift_r8(Shift::Sra, r);
        2
    }

    /// SRA (HL)
    pub(crate) fn sra_mhl(&mut self, mmu: &mut MMU) -> (m: u8)
        requires
            old(mmu)@.wf(),
        ensures
            ({
                let v = old(mmu)@.read(old(self).hl());
                &&& *final(self) == old(self).with_f(shift_flags(Shift::Sra, v, old(self).reg_f))
                &&& final(mmu)@ == old(mmu)@.write(
                    old(self).hl(),
                    shift_result(Shift::Sra, v, old(self).reg_f),
                )
            }),
            final(mmu)@.wf(),
            m == 4,
    {
        self.shift_mhl(mmu, Shift::Sra);
        4
    }

    /// SWAP r8
    pub(crate) fn swap_r8(&mut self, r: R8) -> (m: u8)
        ensures
            *final(self) == old(self).with_r8(
                r,
                shift_result(Shift::Swap, old(self).r8(r), old(self).reg_f),
            ).with_f(shift_flags(Shift::Swap, old(self).r8(r), old(self).reg_f)),
            m == 2,
    {
        self.shift_r8(Shift::Swap, r);
        2
    }

    /// SWAP (HL)
    pub(crate) fn swap_mhl(&mut self, mmu: &mut MMU) -> (m: u8)
        requires
            old(mmu)@.wf(),
        ensures
            ({
                let v = old(mmu)@.read(old(self).hl());
                &&& *final(self) == old(self).with_f(shift_flags(Shift::Swap, v, old(self).reg_f))
                &&& final(mmu)@ == old(mmu)@.write(
                    old(self).hl(),
                    shift_result(Shift::Swap, v, old(self).reg_f),
                )
            }),
            final(mmu)@.wf(),
            m == 4,
    {
        self.shift_mhl(mmu, Shift::Swap);
        4
    }

    /// SRL r8
    pub(crate) fn srl_r8(&mut self, r: R8) -> (m: u8)
        ensures
            *final(self) == old(self).with_r8(
                r,
                shift_result(Shift::Srl, old(self).r8(r), old(self).reg_f),
            ).with_f(shift_flags(Shift::Srl, old(self).r8(r), old(self).reg_f)),
            m == 2,
    {
        self.shift_r8(Shift::Srl, r);
        2
    }

    /// SRL (HL)
    pub(crate) fn srl_mhl(&mut self, mmu: &mut MMU) -> (m: u8)
        requires
            old(mmu)@.wf(),
        ensures
            ({
                let v = old(mmu)@.read(old(self).hl());
                &&& *final(self) == old(self).with_f(shift_flags(Shift::Srl, v, old(self).reg_f))
                &&& final(mmu)@ == old(mmu)@.write(
                    old(self).hl(),
                    shift_result(Shift::Srl, v, old(self).reg_f),
                )
            }),
            final(mmu)@.wf(),
            m == 4,
    {
        self.shift_mhl(mmu, Shift::Srl);
        4
    }

    /// RLCA
    pub(crate) fn rlca(&mut self) -> (m: u8)
        ensures
            *final(self) == old(self).rot_a(Shift::Rlc),
            m == 1,
    {
        self.rotate_a(Shift::Rlc);
        1
    }

    /// RRCA
    pub(crate) fn rrca(&mut self) -> (m: u8)
        ensures
            *final(self) == old(self).rot_a(Shift::Rrc),
            m == 1,
    {
        self.rotate_a(Shift::Rrc);
        1
    }

    /// RLA
    pub(crate) fn rla(&mut self) -> (m: u8)
        ensures
            *final(self) == old(self).rot_a(Shift::Rl),
            m == 1,
    {
        self.rotate_a(Shift::Rl);
        1
    }

    /// RRA
    pub(crate) fn rra(&mut self) -> (m: u8)
        ensures
            *final(self) == old(self).rot_a(Shift::Rr),
            m == 1,
    {
        self.rotate_a(Shift::Rr);
        1
    }

    /// BIT u3,r8: Z set when the bit is clear; N cleared, H set, C kept.
    pub(crate) fn bit_u3_r8(&mut self, u: u8, r: R8) -> (m: u8)
        requires
            u < 8,
        ensures
            *final(self) == old(self).with_f(bit_flags(u, old(self).r8(r), old(self).reg_f)),
            m == 2,
    {
        let v = self.read_r8(r);
        let c = self.flag_c();
        self.set_flags(v & (1u8 << u) == 0, false, true, c);
        2
    }

    /// BIT u3,(HL)
    pub(crate) fn bit_u3_mhl(&mut self, mmu: &MMU, u: u8) -> (m: u8)
        requires
            u < 8,
            mmu@.wf(),
        ensures
            *final(self) == old(self).with_f(
                bit_flags(u, mmu@.read(old(self).hl()), old(self).reg_f),
            ),
            m == 3,
    {
        let v = mmu.rb(self.read_r16(R16::HL));
        let c = self.flag_c();
        self.set_flags(v & (1u8 << u) == 0, false, true, c);
        3
    }

    /// RES u3,r8: clears the bit; flags untouched.
    pub(crate) fn res_u3_r8(&mut self, u: u8, r: R8) -> (m: u8)
        requires
            u < 8,
        ensures
            *final(self) == old(self).with_r8(r, old(self).r8(r) & !bit_mask(u)),
            m == 2,
    {
        let v = self.read_r8(r);
        self.write_r8(r, v & !(1u8 << u));
        2
    }

    /// RES u3,(HL)
    pub(crate) fn res_u3_mhl(&mut self, mmu: &mut MMU, u: u8) -> (m: u8)
        requires
            u < 8,
            old(mmu)@.wf(),
        ensures
            final(mmu)@ == old(mmu)@.write(
                old(self).hl(),
                old(mmu)@.read(old(self).hl()) & !bit_mask(u),
            ),
            *final(self) == *old(self),
            final(mmu)@.wf(),
            m == 4,
    {
        let addr = self.read_r16(R16::HL);
        let v = mmu.rb(addr);
        mmu.wb(addr, v & !(1u8 << u));
        4
    }

    /// SET u3,r8: sets the bit; flags untouched.
    pub(crate) fn set_u3_r8(&mut self, u: u8, r: R8) -> (m: u8)
        requires
            u < 8,
        ensures
            *final(self) == old(self).with_r8(r, old(self).r8(r) | bit_mask(u)),
            m == 2,
    {
        let v = self.read_r8(r);
        self.write_r8(r, v | (1u8 << u));
        2
    }

    /// SET u3,(HL)
    pub(crate) fn set_u3_mhl(&mut self, mmu: &mut MMU, u: u8) -> (m: u8)
        requires
            u < 8,
            old(mmu)@.wf(),
        ensures
            final(mmu)@ == old(mmu)@.write(
                old(self).hl(),
                old(mmu)@.read(old(self).hl()) | bit_mask(u),
            ),
            *final(self) == *old(self),
            final(mmu)@.wf(),
            m == 4,
    {
        let addr = self.read_r16(R16::HL);
        let v = mmu.rb(addr);
        mmu.wb(addr, v | (1u8 << u));
        4
    }
}

} // verus!
