use vstd::prelude::*;

use crate::alu::lemma_flags;
use crate::cpu::{CPU, R16, R8, add16, push_mem, word};
use crate::mmu::MMU;

verus! {

broadcast use lemma_flags;

/// The I/O page address `0xFF00 + n`.
pub open spec fn high_page(n: u8) -> u16 {
    (0xFF00 + n) as u16
}

impl CPU {
    /// LD r8,r8
    pub(crate) fn ld_r8_r8(&mut self, dst: R8, src: R8) -> (m: u8)
        ensures
            *final(self) == old(self).with_r8(dst, old(self).r8(src)),
            m == 1,
    {
        let v = self.read_r8(src);
        self.write_r8(dst, v);
        1
    }

    /// LD r8,n8
    pub(crate) fn ld_r8_n8(&mut self, mmu: &MMU, r: R8) -> (m: u8)
        requires
            mmu@.wf(),
        ensures
            *final(self) == old(self).skip(1).with_r8(r, mmu@.read(old(self).reg_pc)),
            m == 2,
    {
        let v = self.fetch8(mmu);
        self.write_r8(r, v);
        2
    }

    /// LD r16,n16: the operand is little-endian, low byte first.
    pub(crate) fn ld_r16_n16(&mut self, mmu: &MMU, r: R16) -> (m: u8)
        requires
            mmu@.wf(),
        ensures
            *final(self) == old(self).skip(2).with_r16(r, mmu@.read_word(old(self).reg_pc)),
            m == 3,
    {
        let v = self.fetch16(mmu);
        self.write_r16(r, v);
        3
    }

    /// LD (HL),r8
    pub(crate) fn ld_mhl_r8(&mut self, mmu: &mut MMU, r: R8) -> (m: u8)
        requires
            old(mmu)@.wf(),
        ensures
            final(mmu)@ == old(mmu)@.write(old(self).hl(), old(self).r8(r)),
            *final(self) == *old(self),
            final(mmu)@.wf(),
            m == 2,
    {
        let v = self.read_r8(r);
        mmu.wb(self.read_r16(R16::HL), v);
        2
    }

    /// LD (HL),n8
    pub(crate) fn ld_mhl_n8(&mut self, mmu: &mut MMU) -> (m: u8)
        requires
            old(mmu)@.wf(),
        ensures
            final(mmu)@ == old(mmu)@.write(old(self).hl(), old(mmu)@.read(old(self).reg_pc)),
            *final(self) == old(self).skip(1),
            final(mmu)@.wf(),
            m == 3,
    {
        let v = self.fetch8(mmu);
        mmu.wb(self.read_r16(R16::HL), v);
        3
    }

    /// LD r8,(HL)
    pub(crate) fn ld_r8_mhl(&mut self, mmu: &MMU, r: R8) -> (m: u8)
        requires
            mmu@.wf(),
        ensures
            *final(self) == old(self).with_r8(r, mmu@.read(old(self).hl())),
            m == 2,
    {
        let v = mmu.rb(self.read_r16(R16::HL));
        self.write_r8(r, v);
        2
    }

    /// LD A,(r16)
    pub(crate) fn ld_a_mr16(&mut self, mmu: &MMU, r: R16) -> (m: u8)
        requires
            mmu@.wf(),
        ensures
            *final(self) == (CPU { reg_a: mmu@.read(old(self).r16(r)), ..*old(self) }),
            m == 2,
    {
        self.reg_a = mmu.rb(self.read_r16(r));
        2
    }

    /// LD (r16),A
    pub(crate) fn ld_mr16_a(&mut self, mmu: &mut MMU, r: R16) -> (m: u8)
        requires
            old(mmu)@.wf(),
        ensures
            final(mmu)@ == old(mmu)@.write(old(self).r16(r), old(self).reg_a),
            *final(self) == *old(self),
            final(mmu)@.wf(),
            m == 2,
    {
        mmu.wb(self.read_r16(r), self.reg_a);
        2
    }

    /// LD A,(n16)
    pub(crate) fn ld_a_mn16(&mut self, mmu: &MMU) -> (m: u8)
        requires
            mmu@.wf(),
        ensures
            *final(self) == (CPU {
                reg_a: mmu@.read(mmu@.read_word(old(self).reg_pc)),
                ..old(self).skip(2)
            }),
            m == 4,
    {
        let addr = self.fetch16(mmu);
        self.reg_a = mmu.rb(addr);
        4
    }

    /// LD (n16),A
    pub(crate) fn ld_mn16_a(&mut self, mmu: &mut MMU) -> (m: u8)
        requires
            old(mmu)@.wf(),
        ensures
            final(mmu)@ == old(mmu)@.write(old(mmu)@.read_word(old(self).reg_pc), old(self).reg_a),
            *final(self) == old(self).skip(2),
            final(mmu)@.wf(),
            m == 4,
    {
        let addr = self.fetch16(mmu);
        mmu.wb(addr, self.reg_a);
        4
    }

    /// LDH (n8),A: stores A at 0xFF00 + n8.
    pub(crate) fn ldh_mn16_a(&mut self, mmu: &mut MMU) -> (m: u8)
        requires
            old(mmu)@.wf(),
        ensures
            final(mmu)@ == old(mmu)@.write(
                high_page(old(mmu)@.read(old(self).reg_pc)),
                old(self).reg_a,
            ),
            *final(self) == old(self).skip(1),
            final(mmu)@.wf(),
            m == 3,
    {
        let n = self.fetch8(mmu);
        mmu.wb(0xFF00 + n as u16, self.reg_a);
        3
    }

    /// LDH (C),A: stores A at 0xFF00 + C.
    pub(crate) fn ldh_mc_a(&mut self, mmu: &mut MMU) -> (m: u8)
        requires
            old(mmu)@.wf(),
        ensures
            final(mmu)@ == old(mmu)@.write(high_page(old(self).reg_c), old(self).reg_a),
            *final(self) == *old(self),
            final(mmu)@.wf(),
            m == 2,
    {
        mmu.wb(0xFF00 + self.reg_c as u16, self.reg_a);
        2
    }

    /// LDH A,(n8): loads A from 0xFF00 + n8.
    pub(crate) fn ldh_a_mn16(&mut self, mmu: &MMU) -> (m: u8)
        requires
            mmu@.wf(),
        ensures
            *final(self) == (CPU {
                reg_a: mmu@.read(high_page(mmu@.read(old(self).reg_pc))),
                ..old(self).skip(1)
            }),
            m == 3,
    {
        let n = self.fetch8(mmu);
        self.reg_a = mmu.rb(0xFF00 + n as u16);
        3
    }

    /// LDH A,(C): loads A from 0xFF00 + C.
    pub(crate) fn ldh_a_mc(&mut self, mmu: &MMU) -> (m: u8)
        requires
            mmu@.wf(),
        ensures
            *final(self) == (CPU { reg_a: mmu@.read(high_page(old(self).reg_c)), ..*old(self) }),
            m == 2,
    {
        self.reg_a = mmu.rb(0xFF00 + self.reg_c as u16);
        2
    }

    /// LD (HL+),A
    pub(crate) fn ld_hli_a(&mut self, mmu: &mut MMU) -> (m: u8)
        requires
            old(mmu)@.wf(),
        ensures
            final(mmu)@ == old(mmu)@.write(old(self).hl(), old(self).reg_a),
            *final(self) == old(self).with_r16(R16::HL, add16(old(self).hl(), 1)),
            final(mmu)@.wf(),
            m == 2,
    {
        let hl = self.read_r16(R16::HL);
        mmu.wb(hl, self.reg_a);
        self.write_r16(R16::HL, hl.wrapping_add(1));
        2
    }

    /// LD (HL-),A
    pub(crate) fn ld_hld_a(&mut self, mmu: &mut MMU) -> (m: u8)
        requires
            old(mmu)@.wf(),
        ensures
            final(mmu)@ == old(mmu)@.write(old(self).hl(), old(self).reg_a),
            *final(self) == old(self).with_r16(R16::HL, add16(old(self).hl(), -1)),
            final(mmu)@.wf(),
            m == 2,
    {
        let hl = self.read_r16(R16::HL);
        mmu.wb(hl, self.reg_a);
        self.write_r16(R16::HL, hl.wrapping_sub(1));
        2
    }

    /// LD A,(HL+)
    pub(crate) fn ld_a_hli(&mut self, mmu: &MMU) -> (m: u8)
        requires
            mmu@.wf(),
        ensures
            *final(self) == (CPU {
                reg_a: mmu@.read(old(self).hl()),
                ..old(self).with_r16(R16::HL, add16(old(self).hl(), 1))
            }),
            m == 2,
    {
        let hl = self.read_r16(R16::HL);
        self.reg_a = mmu.rb(hl);
        self.write_r16(R16::HL, hl.wrapping_add(1));
        2
    }

    /// LD A,(HL-)
    pub(crate) fn ld_a_hld(&mut self, mmu: &MMU) -> (m: u8)
        requires
            mmu@.wf(),
        ensures
            *final(self) == (CPU {
                reg_a: mmu@.read(old(self).hl()),
                ..old(self).with_r16(R16::HL, add16(old(self).hl(), -1))
            }),
            m == 2,
    {
        let hl = self.read_r16(R16::HL);
        self.reg_a = mmu.rb(hl);
        self.write_r16(R16::HL, hl.wrapping_sub(1));
        2
    }

    /// LD SP,n16
    pub(crate) fn ld_sp_n16(&mut self, mmu: &MMU) -> (m: u8)
        requires
            mmu@.wf(),
        ensures
            *final(self) == old(self).skip(2).with_sp(mmu@.read_word(old(self).reg_pc)),
            m == 3,
    {
        self.reg_sp = self.fetch16(mmu);
        3
    }

    /// LD (n16),SP: low byte of SP at n16, high byte after it.
    pub(crate) fn ld_mn16_sp(&mut self, mmu: &mut MMU) -> (m: u8)
        requires
            old(mmu)@.wf(),
        ensures
            final(mmu)@ == old(mmu)@.write_word(
                old(mmu)@.read_word(old(self).reg_pc),
                old(self).reg_sp,
            ),
            *final(self) == old(self).skip(2),
            final(mmu)@.wf(),
            m == 5,
    {
        let addr = self.fetch16(mmu);
        mmu.ww(addr, self.reg_sp);
        5
    }

    /// LD SP,HL
    pub(crate) fn ld_sp_hl(&mut self) -> (m: u8)
        ensures
            *final(self) == old(self).with_sp(old(self).hl()),
            m == 2,
    {
        self.reg_sp = self.read_r16(R16::HL);
        2
    }

    /// PUSH r16
    pub(crate) fn push_r16(&mut self, mmu: &mut MMU, r: R16) -> (m: u8)
        requires
            old(mmu)@.wf(),
        ensures
            final(mmu)@ == push_mem(old(mmu)@, old(self).reg_sp, old(self).r16(r)),
            *final(self) == old(self).with_sp(add16(old(self).reg_sp, -2)),
            final(mmu)@.wf(),
            m == 4,
    {
        let v = self.read_r16(r);
        self.push16(mmu, v);
        4
    }

    /// PUSH AF
    pub(crate) fn push_af(&mut self, mmu: &mut MMU) -> (m: u8)
        requires
            old(mmu)@.wf(),
        ensures
            final(mmu)@ == push_mem(old(mmu)@, old(self).reg_sp, word(old(self).reg_a, old(self).reg_f)),
            *final(self) == old(self).with_sp(add16(old(self).reg_sp, -2)),
            final(mmu)@.wf(),
            m == 4,
    {
        let v = self.reg_a as u16 * 256 + self.reg_f as u16;
        self.push16(mmu, v);
        4
    }

    /// POP r16
    pub(crate) fn pop_r16(&mut self, mmu: &MMU, r: R16) -> (m: u8)
        requires
            mmu@.wf(),
        ensures
            *final(self) == old(self).with_sp(add16(old(self).reg_sp, 2)).with_r16(
                r,
                mmu@.read_word(old(self).reg_sp),
            ),
            m == 3,
    {
        let v = self.pop16(mmu);
        self.write_r16(r, v);
        3
    }

    /// POP AF: the lower nibble of F always reads back as zero.
    pub(crate) fn pop_af(&mut self, mmu: &MMU) -> (m: u8)
        requires
            mmu@.wf(),
        ensures
            ({
                let v = mmu@.read_word(old(self).reg_sp);
                *final(self) == (CPU {
                    reg_a: (v / 256) as u8,
                    reg_f: ((v % 256) as u8) & 0xF0,
                    reg_sp: add16(old(self).reg_sp, 2),
                    ..*old(self)
                })
            }),
            final(self).wf(),
            m == 3,
    {
        let v = self.pop16(mmu);
        self.reg_a = (v / 256) as u8;
        let lo = (v % 256) as u8;
        self.reg_f = lo & 0xF0;
        proof {
            assert((lo & 0xF0) & 0x0F == 0) by (bit_vector);
        }
        3
    }
}

} // verus!
