use vstd::prelude::*;

use crate::alu::{AluOp, dec_flags, inc_flags, lemma_flags, signed8, sp_e8_flags};
use crate::cpu::{CPU, R16, R8, add16};
use crate::mmu::MMU;

verus! {

broadcast use lemma_flags;

impl CPU {
    /// Applies an accumulator operation to the operand `x`.
    pub fn alu(&mut self, op: AluOp, x: u8)
        ensures
            *final(self) == old(self).with_alu(op, x),
    {
        let a = self.reg_a;
        let c: u16 = if self.flag_c() {
            1
        } else {
            0
        };
        match op {
            AluOp::Add | AluOp::Adc => {
                let cin: u16 = if op == AluOp::Adc {
                    c
                } else {
                    0
                };
                let sum: u16 = a as u16 + x as u16 + cin;
                let res = (sum % 256) as u8;
                self.reg_a = res;
                self.set_flags(
                    res == 0,
                    false,
                    (a & 0xF) as u16 + (x & 0xF) as u16 + cin > 0xF,
                    sum > 0xFF,
                );
            },
            AluOp::Sub | AluOp::Sbc | AluOp::Cp => {
                let cin: u16 = if op == AluOp::Sbc {
                    c
                } else {
                    0
                };
                let res = ((a as u16 + 256 - x as u16 - cin) % 256) as u8;
                if op != AluOp::Cp {
                    self.reg_a = res;
                }
                self.set_flags(
                    res == 0,
                    true,
                    ((a & 0xF) as u16) < (x & 0xF) as u16 + cin,
                    (a as u16) < x as u16 + cin,
                );
            },
            AluOp::And => {
                let res = a & x;
                self.reg_a = res;
                self.set_flags(res == 0, false, true, false);
            },
            AluOp::Xor => {
                let res = a ^ x;
                self.reg_a = res;
                self.set_flags(res == 0, false, false, false);
            },
            AluOp::Or => {
                let res = a | x;
                self.reg_a = res;
                self.set_flags(res == 0, false, false, false);
            },
        }
    }

    /// ADD A,r8
    pub(crate) fn add_a_r8(&mut self, r: R8) -> (m: u8)
        ensures
            *final(self) == old(self).with_alu(AluOp::Add, old(self).r8(r)),
            m == 1,
    {
        let v = self.read_r8(r);
        self.alu(AluOp::Add, v);
        1
    }

    /// ADD A,(HL)
    pub(crate) fn add_a_mhl(&mut self, mmu: &MMU) -> (m: u8)
        requires
            mmu@.wf(),
        ensures
            *final(self) == old(self).with_alu(AluOp::Add, mmu@.read(old(self).hl())),
            m == 2,
    {
        let v = mmu.rb(self.read_r16(R16::HL));
        self.alu(AluOp::Add, v);
        2
    }

    /// ADD A,n8
    pub(crate) fn add_a_n8(&mut self, mmu: &MMU) -> (m: u8)
        requires
            mmu@.wf(),
        ensures
            *final(self) == old(self).skip(1).with_alu(AluOp::Add, mmu@.read(old(self).reg_pc)),
            m == 2,
    {
        let v = self.fetch8(mmu);
        self.alu(AluOp::Add, v);
        2
    }

    /// ADC A,r8
    pub(crate) fn adc_a_r8(&mut self, r: R8) -> (m: u8)
        ensures
            *final(self) == old(self).with_alu(AluOp::Adc, old(self).r8(r)),
            m == 1,
    {
        let v = self.read_r8(r);
        self.alu(AluOp::Adc, v);
        1
    }

    /// ADC A,(HL)
    pub(crate) fn adc_a_mhl(&mut self, mmu: &MMU) -> (m: u8)
        requires
            mmu@.wf(),
        ensures
            *final(self) == old(self).with_alu(AluOp::Adc, mmu@.read(old(self).hl())),
            m == 2,
    {
        let v = mmu.rb(self.read_r16(R16::HL));
        self.alu(AluOp::Adc, v);
        2
    }

    /// ADC A,n8
    pub(crate) fn adc_a_n8(&mut self, mmu: &MMU) -> (m: u8)
        requires
            mmu@.wf(),
        ensures
            *final(self) == old(self).skip(1).with_alu(AluOp::Adc, mmu@.read(old(self).reg_pc)),
            m == 2,
    {
        let v = self.fetch8(mmu);
        self.alu(AluOp::Adc, v);
        2
    }

    /// SUB A,r8
    pub(crate) fn sub_a_r8(&mut self, r: R8) -> (m: u8)
        ensures
            *final(self) == old(self).with_alu(AluOp::Sub, old(self).r8(r)),
            m == 1,
    {
        let v = self.read_r8(r);
        self.alu(AluOp::Sub, v);
        1
    }

    /// SUB A,(HL)
    pub(crate) fn sub_a_mhl(&mut self, mmu: &MMU) -> (m: u8)
        requires
            mmu@.wf(),
        ensures
            *final(self) == old(self).with_alu(AluOp::Sub, mmu@.read(old(self).hl())),
            m == 2,
    {
        let v = mmu.rb(self.read_r16(R16::HL));
        self.alu(AluOp::Sub, v);
        2
    }

    /// SUB A,n8
    pub(crate) fn sub_a_n8(&mut self, mmu: &MMU) -> (m: u8)
        requires
            mmu@.wf(),
        ensures
            *final(self) == old(self).skip(1).with_alu(AluOp::Sub, mmu@.read(old(self).reg_pc)),
            m == 2,
    {
        let v = self.fetch8(mmu);
        self.alu(AluOp::Sub, v);
        2
    }

    /// SBC A,r8
    pub(crate) fn sbc_a_r8(&mut self, r: R8) -> (m: u8)
        ensures
            *final(self) == old(self).with_alu(AluOp::Sbc, old(self).r8(r)),
            m == 1,
    {
        let v = self.read_r8(r);
        self.alu(AluOp::Sbc, v);
        1
    }

    /// SBC A,(HL)
    pub(crate) fn sbc_a_mhl(&mut self, mmu: &MMU) -> (m: u8)
        requires
            mmu@.wf(),
        ensures
            *final(self) == old(self).with_alu(AluOp::Sbc, mmu@.read(old(self).hl())),
            m == 2,
    {
        let v = mmu.rb(self.read_r16(R16::HL));
        self.alu(AluOp::Sbc, v);
        2
    }

    /// SBC A,n8
    pub(crate) fn sbc_a_n8(&mut self, mmu: &MMU) -> (m: u8)
        requires
            mmu@.wf(),
        ensures
            *final(self) == old(self).skip(1).with_alu(AluOp::Sbc, mmu@.read(old(self).reg_pc)),
            m == 2,
    {
        let v = self.fetch8(mmu);
        self.alu(AluOp::Sbc, v);
        2
    }

    /// AND A,r8
    pub(crate) fn and_a_r8(&mut self, r: R8) -> (m: u8)
        ensures
            *final(self) == old(self).with_alu(AluOp::And, old(self).r8(r)),
            m == 1,
    {
        let v = self.read_r8(r);
        self.alu(AluOp::And, v);
        1
    }

    /// AND A,(HL)
    pub(crate) fn and_a_mhl(&mut self, mmu: &MMU) -> (m: u8)
        requires
            mmu@.wf(),
        ensures
            *final(self) == old(self).with_alu(AluOp::And, mmu@.read(old(self).hl())),
            m == 2,
    {
        let v = mmu.rb(self.read_r16(R16::HL));
        self.alu(AluOp::And, v);
        2
    }

    /// AND A,n8
    pub(crate) fn and_a_n8(&mut self, mmu: &MMU) -> (m: u8)
        requires
            mmu@.wf(),
        ensures
            *final(self) == old(self).skip(1).with_alu(AluOp::And, mmu@.read(old(self).reg_pc)),
            m == 2,
    {
        let v = self.fetch8(mmu);
        self.alu(AluOp::And, v);
        2
    }

    /// XOR A,r8
    pub(crate) fn xor_a_r8(&mut self, r: R8) -> (m: u8)
        ensures
            *final(self) == old(self).with_alu(AluOp::Xor, old(self).r8(r)),
            m == 1,
    {
        let v = self.read_r8(r);
        self.alu(AluOp::Xor, v);
        1
    }

    /// XOR A,(HL)
    pub(crate) fn xor_a_mhl(&mut self, mmu: &MMU) -> (m: u8)
        requires
            mmu@.wf(),
        ensures
            *final(self) == old(self).with_alu(AluOp::Xor, mmu@.read(old(self).hl())),
            m == 2,
    {
        let v = mmu.rb(self.read_r16(R16::HL));
        self.alu(AluOp::Xor, v);
        2
    }

    /// XOR A,n8
    pub(crate) fn xor_a_n8(&mut self, mmu: &MMU) -> (m: u8)
        requires
            mmu@.wf(),
        ensures
            *final(self) == old(self).skip(1).with_alu(AluOp::Xor, mmu@.read(old(self).reg_pc)),
            m == 2,
    {
        let v = self.fetch8(mmu);
        self.alu(AluOp::Xor, v);
        2
    }

    /// OR A,r8
    pub(crate) fn or_a_r8(&mut self, r: R8) -> (m: u8)
        ensures
            *final(self) == old(self).with_alu(AluOp::Or, old(self).r8(r)),
            m == 1,
    {
        let v = self.read_r8(r);
        self.alu(AluOp::Or, v);
        1
    }

    /// OR A,(HL)
    pub(crate) fn or_a_mhl(&mut self, mmu: &MMU) -> (m: u8)
        requires
            mmu@.wf(),
        ensures
            *final(self) == old(self).with_alu(AluOp::Or, mmu@.read(old(self).hl())),
            m == 2,
    {
        let v = mmu.rb(self.read_r16(R16::HL));
        self.alu(AluOp::Or, v);
        2
    }

    /// OR A,n8
    pub(crate) fn or_a_n8(&mut self, mmu: &MMU) -> (m: u8)
        requires
            mmu@.wf(),
        ensures
            *final(self) == old(self).skip(1).with_alu(AluOp::Or, mmu@.read(old(self).reg_pc)),
            m == 2,
    {
        let v = self.fetch8(mmu);
        self.alu(AluOp::Or, v);
        2
    }

    /// CP A,r8
    pub(crate) fn cp_a_r8(&mut self, r: R8) -> (m: u8)
        ensures
            *final(self) == old(self).with_alu(AluOp::Cp, old(self).r8(r)),
            m == 1,
    {
        let v = self.read_r8(r);
        self.alu(AluOp::Cp, v);
        1
    }

    /// CP A,(HL)
    pub(crate) fn cp_a_mhl(&mut self, mmu: &MMU) -> (m: u8)
        requires
            mmu@.wf(),
        ensures
            *final(self) == old(self).with_alu(AluOp::Cp, mmu@.read(old(self).hl())),
            m == 2,
    {
        let v = mmu.rb(self.read_r16(R16::HL));
        self.alu(AluOp::Cp, v);
        2
    }

    /// CP A,n8
    pub(crate) fn cp_a_n8(&mut self, mmu: &MMU) -> (m: u8)
        requires
            mmu@.wf(),
        ensures
            *final(self) == old(self).skip(1).with_alu(AluOp::Cp, mmu@.read(old(self).reg_pc)),
            m == 2,
    {
        let v = self.fetch8(mmu);
        self.alu(AluOp::Cp, v);
        2
    }

    /// INC r8: Z, N and H from the result, C kept.
    pub(crate) fn inc_r8(&mut self, r: R8) -> (m: u8)
        ensures
            *final(self) == old(self).inc8(r),
            m == 1,
    {
        let v = self.read_r8(r);
        let res = v.wrapping_add(1);
        let c = self.flag_c();
        self.write_r8(r, res);
        self.set_flags(res == 0, false, (v & 0xF) as u16 + 1 > 0xF, c);
        1
    }

    /// INC (HL)
    pub(crate) fn inc_mhl(&mut self, mmu: &mut MMU) -> (m: u8)
        requires
            old(mmu)@.wf(),
        ensures
            ({
                let v = old(mmu)@.read(old(self).hl());
                &&& *final(self) == old(self).with_f(inc_flags(v, old(self).reg_f))
                &&& final(mmu)@ == old(mmu)@.write(old(self).hl(), ((v + 1) % 256) as u8)
            }),
            final(mmu)@.wf(),
            m == 3,
    {
        let addr = self.read_r16(R16::HL);
        let v = mmu.rb(addr);
        let res = v.wrapping_add(1);
        mmu.wb(addr, res);
        let c = self.flag_c();
        self.set_flags(res == 0, false, (v & 0xF) as u16 + 1 > 0xF, c);
        3
    }

    /// DEC r8: Z, N and H from the result, C kept.
    pub(crate) fn dec_r8(&mut self, r: R8) -> (m: u8)
        ensures
            *final(self) == old(self).dec8(r),
            m == 1,
    {
        let v = self.read_r8(r);
        let res = v.wrapping_sub(1);
        let c = self.flag_c();
        self.write_r8(r, res);
        self.set_flags(res == 0, true, (v & 0xF) == 0, c);
        1
    }

    /// DEC (HL)
    pub(crate) fn dec_mhl(&mut self, mmu: &mut MMU) -> (m: u8)
        requires
            old(mmu)@.wf(),
        ensures
            ({
                let v = old(mmu)@.read(old(self).hl());
                &&& *final(self) == old(self).with_f(dec_flags(v, old(self).reg_f))
                &&& final(mmu)@ == old(mmu)@.write(old(self).hl(), ((v - 1 + 256) % 256) as u8)
            }),
            final(mmu)@.wf(),
            m == 3,
    {
        let addr = self.read_r16(R16::HL);
        let v = mmu.rb(addr);
        let res = v.wrapping_sub(1);
        mmu.wb(addr, res);
        let c = self.flag_c();
        self.set_flags(res == 0, true, (v & 0xF) == 0, c);
        3
    }

    /// INC r16; no flag changes.
    pub(crate) fn inc_r16(&mut self, r: R16) -> (m: u8)
        ensures
            *final(self) == old(self).with_r16(r, add16(old(self).r16(r), 1)),
            m == 2,
    {
        let v = self.read_r16(r);
        self.write_r16(r, v.wrapping_add(1));
        2
    }

    /// DEC r16; no flag changes.
    pub(crate) fn dec_r16(&mut self, r: R16) -> (m: u8)
        ensures
            *final(self) == old(self).with_r16(r, add16(old(self).r16(r), -1)),
            m == 2,
    {
        let v = self.read_r16(r);
        self.write_r16(r, v.wrapping_sub(1));
        2
    }

    /// INC SP
    pub(crate) fn inc_sp(&mut self) -> (m: u8)
        ensures
            *final(self) == old(self).with_sp(add16(old(self).reg_sp, 1)),
            m == 2,
    {
        self.reg_sp = self.reg_sp.wrapping_add(1);
        2
    }

    /// DEC SP
    pub(crate) fn dec_sp(&mut self) -> (m: u8)
        ensures
            *final(self) == old(self).with_sp(add16(old(self).reg_sp, -1)),
            m == 2,
    {
        self.reg_sp = self.reg_sp.wrapping_sub(1);
        2
    }

    /// Adds `v` to HL: Z kept, N cleared, H and C from bits 11 and 15.
    pub(crate) fn add_hl(&mut self, v: u16)
        ensures
            *final(self) == old(self).added_hl(v),
    {
        let hl = self.read_r16(R16::HL);
        let z = self.flag_z();
        let sum: u32 = hl as u32 + v as u32;
        self.write_r16(R16::HL, (sum % 0x10000) as u16);
        self.set_flags(z, false, (hl & 0xFFF) as u32 + (v & 0xFFF) as u32 > 0xFFF, sum > 0xFFFF);
    }

    /// ADD HL,r16
    pub(crate) fn add_hl_r16(&mut self, r: R16) -> (m: u8)
        ensures
            *final(self) == old(self).added_hl(old(self).r16(r)),
            m == 2,
    {
        let v = self.read_r16(r);
        self.add_hl(v);
        2
    }

    /// ADD HL,SP
    pub(crate) fn add_hl_sp(&mut self) -> (m: u8)
        ensures
            *final(self) == old(self).added_hl(old(self).reg_sp),
            m == 2,
    {
        let v = self.reg_sp;
        self.add_hl(v);
        2
    }

    /// SP plus the signed byte `e`, wrapping.
    pub(crate) fn sp_plus(&self, e: u8) -> (r: u16)
        ensures
            r == add16(self.reg_sp, signed8(e)),
    {
        if e < 128 {
            self.reg_sp.wrapping_add(e as u16)
        } else {
            self.reg_sp.wrapping_sub(256 - e as u16)
        }
    }

    /// ADD SP,e8: Z and N cleared, H and C from the low byte of SP plus the unsigned operand.
    pub(crate) fn add_sp_e8(&mut self, mmu: &MMU) -> (m: u8)
        requires
            mmu@.wf(),
        ensures
            ({
                let e = mmu@.read(old(self).reg_pc);
                *final(self) == old(self).skip(1).with_sp(add16(old(self).reg_sp, signed8(e))).with_f(
                    sp_e8_flags(old(self).reg_sp, e),
                )
            }),
            m == 4,
    {
        let e = self.fetch8(mmu);
        let sp = self.reg_sp;
        self.reg_sp = self.sp_plus(e);
        self.set_flags(false, false, (sp & 0xF) as u32 + (e & 0xF) as u32 > 0xF, (sp & 0xFF) as u32 + e as u32 > 0xFF);
        4
    }

    /// LD HL,SP+e8: flags as for ADD SP,e8.
    pub(crate) fn ld_hl_spe8(&mut self, mmu: &MMU) -> (m: u8)
        requires
            mmu@.wf(),
        ensures
            ({
                let e = mmu@.read(old(self).reg_pc);
                *final(self) == old(self).skip(1).with_r16(
                    R16::HL,
                    add16(old(self).reg_sp, signed8(e)),
                ).with_f(sp_e8_flags(old(self).reg_sp, e))
            }),
            m == 3,
    {
        let e = self.fetch8(mmu);
        let sp = self.reg_sp;
        let res = self.sp_plus(e);
        self.write_r16(R16::HL, res);
        self.set_flags(false, false, (sp & 0xF) as u32 + (e & 0xF) as u32 > 0xF, (sp & 0xFF) as u32 + e as u32 > 0xFF);
        3
    }
}

} // verus!
