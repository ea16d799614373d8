use vstd::prelude::*;

use crate::alu::{cf, daa_a, daa_f, flags, lemma_flags, signed8, zf};
use crate::cpu::{CC, CPU, R16, add16, push_mem};
use crate::mmu::MMU;

verus! {

broadcast use lemma_flags;

impl CPU {
    /// JP n16
    pub(crate) fn jp_n16(&mut self, mmu: &MMU) -> (m: u8)
        requires
            mmu@.wf(),
        ensures
            *final(self) == old(self).with_pc(mmu@.read_word(old(self).reg_pc)),
            m == 4,
    {
        self.reg_pc = mmu.rw(self.reg_pc);
        4
    }

    /// JP cc,n16: 4 cycles when taken, 3 when not.
    pub(crate) fn jp_cc_n16(&mut self, mmu: &MMU, c: CC) -> (m: u8)
        requires
            mmu@.wf(),
        ensures
            old(self).cond(c) ==> *final(self) == old(self).with_pc(
                mmu@.read_word(old(self).reg_pc),
            ) && m == 4,
            !old(self).cond(c) ==> *final(self) == old(self).skip(2) && m == 3,
    {
        let target = self.fetch16(mmu);
        if self.check(c) {
            self.reg_pc = target;
            4
        } else {
            3
        }
    }

    /// JP HL
    pub(crate) fn jp_mhl(&mut self) -> (m: u8)
        ensures
            *final(self) == old(self).with_pc(old(self).hl()),
            m == 1,
    {
        self.reg_pc = self.read_r16(R16::HL);
        1
    }

    /// The target of a relative jump whose offset byte is at PC.
    pub open spec fn jr_target(&self, e: u8) -> u16 {
        add16(add16(self.reg_pc, 1), signed8(e))
    }

    /// JR e8: relative to the address after the offset byte.
    pub(crate) fn jr_n16(&mut self, mmu: &MMU) -> (m: u8)
        requires
            mmu@.wf(),
        ensures
            *final(self) == old(self).with_pc(old(self).jr_target(mmu@.read(old(self).reg_pc))),
            m == 3,
    {
        let e = self.fetch8(mmu);
        self.reg_pc = if e < 128 {
            self.reg_pc.wrapping_add(e as u16)
        } else {
            self.reg_pc.wrapping_sub(256 - e as u16)
        };
        3
    }

    /// JR cc,e8: 3 cycles when taken, 2 when not.
    pub(crate) fn jr_cc_n16(&mut self, mmu: &MMU, c: CC) -> (m: u8)
        requires
            mmu@.wf(),
        ensures
            old(self).cond(c) ==> *final(self) == old(self).with_pc(
                old(self).jr_target(mmu@.read(old(self).reg_pc)),
            ) && m == 3,
            !old(self).cond(c) ==> *final(self) == old(self).skip(1) && m == 2,
    {
        if self.check(c) {
            self.jr_n16(mmu)
        } else {
            self.reg_pc = self.reg_pc.wrapping_add(1);
            2
        }
    }

    /// CALL n16: pushes the address after the instruction and jumps.
    pub(crate) fn call_n16(&mut self, mmu: &mut MMU) -> (m: u8)
        requires
            old(mmu)@.wf(),
        ensures
            final(mmu)@ == push_mem(old(mmu)@, old(self).reg_sp, add16(old(self).reg_pc, 2)),
            *final(self) == old(self).with_sp(add16(old(self).reg_sp, -2)).with_pc(
                old(mmu)@.read_word(old(self).reg_pc),
            ),
            final(mmu)@.wf(),
            m == 6,
    {
        let target = self.fetch16(mmu);
        let ret = self.reg_pc;
        self.push16(mmu, ret);
        self.reg_pc = target;
        6
    }

    /// CALL cc,n16: 6 cycles when taken, 3 when not.
    pub(crate) fn call_cc_n16(&mut self, mmu: &mut MMU, c: CC) -> (m: u8)
        requires
            old(mmu)@.wf(),
        ensures
            old(self).cond(c) ==> final(mmu)@ == push_mem(
                old(mmu)@,
                old(self).reg_sp,
                add16(old(self).reg_pc, 2),
            ) && *final(self) == old(self).with_sp(add16(old(self).reg_sp, -2)).with_pc(
                old(mmu)@.read_word(old(self).reg_pc),
            ) && m == 6,
            !old(self).cond(c) ==> final(mmu)@ == old(mmu)@ && *final(self) == old(self).skip(2)
                && m == 3,
            final(mmu)@.wf(),
    {
        if self.check(c) {
            self.call_n16(mmu)
        } else {
            self.reg_pc = self.reg_pc.wrapping_add(2);
            3
        }
    }

    /// RET
    pub(crate) fn ret(&mut self, mmu: &MMU) -> (m: u8)
        requires
            mmu@.wf(),
        ensures
            *final(self) == old(self).returned(mmu@),
            m == 4,
    {
        self.reg_pc = self.pop16(mmu);
        4
    }

    /// RET cc: 5 cycles when taken, 2 when not.
    pub(crate) fn ret_cc(&mut self, mmu: &MMU, c: CC) -> (m: u8)
        requires
            mmu@.wf(),
        ensures
            old(self).cond(c) ==> *final(self) == old(self).returned(mmu@) && m == 5,
            !old(self).cond(c) ==> *final(self) == *old(self) && m == 2,
    {
        if self.check(c) {
            self.reg_pc = self.pop16(mmu);
            5
        } else {
            2
        }
    }

    /// RETI: returns and enables interrupts.
    pub(crate) fn reti(&mut self, mmu: &MMU) -> (m: u8)
        requires
            mmu@.wf(),
        ensures
            *final(self) == (CPU { ime: true, ..old(self).returned(mmu@) }),
            m == 4,
    {
        self.ime = true;
        self.reg_pc = self.pop16(mmu);
        4
    }

    /// RST: pushes PC and jumps to the fixed vector.
    pub(crate) fn rst(&mut self, mmu: &mut MMU, vector: u16) -> (m: u8)
        requires
            old(mmu)@.wf(),
        ensures
            final(mmu)@ == push_mem(old(mmu)@, old(self).reg_sp, old(self).reg_pc),
            *final(self) == old(self).with_sp(add16(old(self).reg_sp, -2)).with_pc(vector),
            final(mmu)@.wf(),
            m == 4,
    {
        let pc = self.reg_pc;
        self.push16(mmu, pc);
        self.reg_pc = vector;
        4
    }

    /// CCF: flips C, clears N and H.
    pub(crate) fn ccf(&mut self) -> (m: u8)
        ensures
            *final(self) == old(self).with_f(
                flags(zf(old(self).reg_f), false, false, !cf(old(self).reg_f)),
            ),
            m == 1,
    {
        let z = self.flag_z();
        let c = self.flag_c();
        self.set_flags(z, false, false, !c);
        1
    }

    /// CPL: complements A, sets N and H.
    pub(crate) fn cpl(&mut self) -> (m: u8)
        ensures
            *final(self) == (CPU {
                reg_a: !old(self).reg_a,
                reg_f: flags(zf(old(self).reg_f), true, true, cf(old(self).reg_f)),
                ..*old(self)
            }),
            m == 1,
    {
        self.reg_a = !self.reg_a;
        let z = self.flag_z();
        let c = self.flag_c();
        self.set_flags(z, true, true, c);
        1
    }

    /// SCF: sets C, clears N and H.
    pub(crate) fn scf(&mut self) -> (m: u8)
        ensures
            *final(self) == old(self).with_f(flags(zf(old(self).reg_f), false, false, true)),
            m == 1,
    {
        let z = self.flag_z();
        self.set_flags(z, false, false, true);
        1
    }

    /// DAA: adjusts A to packed BCD after an addition or a subtraction.
    #[verifier::rlimit(40)]
    pub(crate) fn daa(&mut self) -> (m: u8)
        ensures
            *final(self) == (CPU {
                reg_a: daa_a(old(self).reg_a, old(self).reg_f),
                reg_f: daa_f(old(self).reg_a, old(self).reg_f),
                ..*old(self)
            }),
            m == 1,
    {
        let a = self.reg_a;
        let n = self.flag_n();
        let h = self.flag_h();
        let c = self.flag_c();
        let mut res = a;
        let mut carry = c;
        if !n {
            if c || a > 0x99 {
                res = res.wrapping_add(0x60);
                carry = true;
            }
            if h || (res & 0x0F) > 0x09 {
                res = res.wrapping_add(0x06);
            }
        } else {
            if c {
                res = res.wrapping_sub(0x60);
            }
            if h {
                res = res.wrapping_sub(0x06);
            }
        }
        self.reg_a = res;
        self.set_flags(res == 0, n, false, carry);
        1
    }

    /// DI
    pub(crate) fn di(&mut self) -> (m: u8)
        ensures
            *final(self) == (CPU { ime: false, ..*old(self) }),
            m == 1,
    {
        self.ime = false;
        1
    }

    /// EI
    pub(crate) fn ei(&mut self) -> (m: u8)
        ensures
            *final(self) == (CPU { ime: true, ..*old(self) }),
            m == 1,
    {
        self.ime = true;
        1
    }

    /// HALT: waits for an interrupt.
    pub(crate) fn halt(&mut self) -> (m: u8)
        ensures
            *final(self) == (CPU { halt: true, ..*old(self) }),
            m == 1,
    {
        self.halt = true;
        1
    }

    /// NOP
    pub(crate) fn nop(&mut self) -> (m: u8)
        ensures
            *final(self) == *old(self),
            m == 1,
    {
        1
    }

    /// STOP: sets the STOP latch.
    pub(crate) fn stop(&mut self) -> (m: u8)
        ensures
            *final(self) == (CPU { stop: true, ..*old(self) }),
            m == 1,
    {
        self.stop = true;
        1
    }

    /// An opcode that the processor does not define: sets the STOP latch and
    /// records the opcode with the address it was fetched from.
    pub(crate) fn xx(&mut self, opc: u8) -> (m: u8)
        ensures
            *final(self) == (CPU {
                stop: true,
                illegal: Some((opc, add16(old(self).reg_pc, -1))),
                ..*old(self)
            }),
            m == 1,
    {
        self.stop = true;
        self.illegal = Some((opc, self.reg_pc.wrapping_sub(1)));
        1
    }
}

} // verus!
