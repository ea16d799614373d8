use vstd::prelude::*;

use crate::cartridge::Cartridge;
use crate::keys::{KeyState, new_key_state};

verus! {

/// Address of the joypad register.
pub const REG_JOYPAD: u16 = 0xFF00;
/// Address of the interrupt flag register.
pub const REG_INTERRUPTS: u16 = 0xFF0F;
/// Address of the interrupt enable register.
pub const REG_INT_ENABLE: u16 = 0xFFFF;

/// The DMG boot program, mapped at 0x0000..0x00FF until the cartridge takes over.
pub const BIOS: [u8; 256] = [
    0x31, 0xFE, 0xFF, 0xAF, 0x21, 0xFF, 0x9F, 0x32, 0xCB, 0x7C, 0x20, 0xFB, 0x21, 0x26, 0xFF, 0x0E,
    0x11, 0x3E, 0x80, 0x32, 0xE2, 0x0C, 0x3E, 0xF3, 0xE2, 0x32, 0x3E, 0x77, 0x77, 0x3E, 0xFC, 0xE0,
    0x47, 0x11, 0x04, 0x01, 0x21, 0x10, 0x80, 0x1A, 0xCD, 0x95, 0x00, 0xCD, 0x96, 0x00, 0x13, 0x7B,
    0xFE, 0x34, 0x20, 0xF3, 0x11, 0xD8, 0x00, 0x06, 0x08, 0x1A, 0x13, 0x22, 0x23, 0x05, 0x20, 0xF9,
    0x3E, 0x19, 0xEA, 0x10, 0x99, 0x21, 0x2F, 0x99, 0x0E, 0x0C, 0x3D, 0x28, 0x08, 0x32, 0x0D, 0x20,
    0xF9, 0x2E, 0x0F, 0x18, 0xF3, 0x67, 0x3E, 0x64, 0x57, 0xE0, 0x42, 0x3E, 0x91, 0xE0, 0x40, 0x04,
    0x1E, 0x02, 0x0E, 0x0C, 0xF0, 0x44, 0xFE, 0x90, 0x20, 0xFA, 0x0D, 0x20, 0xF7, 0x1D, 0x20, 0xF2,
    0x0E, 0x13, 0x24, 0x7C, 0x1E, 0x83, 0xFE, 0x62, 0x28, 0x06, 0x1E, 0xC1, 0xFE, 0x64, 0x20, 0x06,
    0x7B, 0xE2, 0x0C, 0x3E, 0x87, 0xF2, 0xF0, 0x42, 0x90, 0xE0, 0x42, 0x15, 0x20, 0xD2, 0x05, 0x20,
    0x4F, 0x16, 0x20, 0x18, 0xCB, 0x4F, 0x06, 0x04, 0xC5, 0xCB, 0x11, 0x17, 0xC1, 0xCB, 0x11, 0x17,
    0x05, 0x20, 0xF5, 0x22, 0x23, 0x22, 0x23, 0xC9, 0xCE, 0xED, 0x66, 0x66, 0xCC, 0x0D, 0x00, 0x0B,
    0x03, 0x73, 0x00, 0x83, 0x00, 0x0C, 0x00, 0x0D, 0x00, 0x08, 0x11, 0x1F, 0x88, 0x89, 0x00, 0x0E,
    0xDC, 0xCC, 0x6E, 0xE6, 0xDD, 0xDD, 0xD9, 0x99, 0xBB, 0xBB, 0x67, 0x63, 0x6E, 0x0E, 0xEC, 0xCC,
    0xDD, 0xDC, 0x99, 0x9F, 0xBB, 0xB9, 0x33, 0x3E, 0x3c, 0x42, 0xB9, 0xA5, 0xB9, 0xA5, 0x42, 0x4C,
    0x21, 0x04, 0x01, 0x11, 0xA8, 0x00, 0x1A, 0x13, 0xBE, 0x20, 0xFE, 0x23, 0x7D, 0xFE, 0x34, 0x20,
    0xF5, 0x06, 0x19, 0x78, 0x86, 0x23, 0x05, 0x20, 0xFB, 0x86, 0x20, 0xFE, 0x3E, 0x01, 0xE0, 0x50,
];

/// The memory map: boot ROM, two cartridge banks, video, external and work RAM,
/// sprite attributes, I/O registers, high RAM and the interrupt enable byte.
pub struct MMU {
    /// Whether the boot ROM shadows 0x0000..0x00FF.
    pub in_bios: bool,
    bios: Vec<u8>,
    rom_bank0: Vec<u8>,
    rom_bankx: Vec<u8>,
    g_ram: Vec<u8>,
    e_ram: Vec<u8>,
    w_ram: Vec<u8>,
    s_info: Vec<u8>,
    mm_io: Vec<u8>,
    z_ram: Vec<u8>,
    int_enable: u8,
    /// The joypad matrix behind 0xFF00.
    pub keys: KeyState,
}

/// The contents of the memory map as sequences.
pub struct MmuView {
    pub in_bios: bool,
    pub bios: Seq<u8>,
    pub rom_bank0: Seq<u8>,
    pub rom_bankx: Seq<u8>,
    pub g_ram: Seq<u8>,
    pub e_ram: Seq<u8>,
    pub w_ram: Seq<u8>,
    pub s_info: Seq<u8>,
    pub mm_io: Seq<u8>,
    pub z_ram: Seq<u8>,
    pub int_enable: u8,
    pub keys: KeyState,
}

/// The address one past `addr`, wrapping at the top of the map.
pub open spec fn next_addr(addr: u16) -> u16 {
    ((addr + 1) % 0x10000) as u16
}

impl MmuView {
    pub open spec fn wf(&self) -> bool {
        &&& self.bios.len() == 0x100
        &&& self.rom_bank0.len() == 0x4000
        &&& self.rom_bankx.len() == 0x4000
        &&& self.g_ram.len() == 0x2000
        &&& self.e_ram.len() == 0x2000
        &&& self.w_ram.len() == 0x2000
        &&& self.s_info.len() == 0xA0
        &&& self.mm_io.len() == 0x80
        &&& self.z_ram.len() == 0x7F
    }

    /// The byte that a read of `addr` returns.
    pub open spec fn read(&self, addr: u16) -> u8 {
        if addr < 0x0100 {
            if self.in_bios {
                self.bios[addr as int]
            } else {
                self.rom_bank0[addr as int]
            }
        } else if addr < 0x4000 {
            self.rom_bank0[addr as int]
        } else if addr < 0x8000 {
            self.rom_bankx[addr - 0x4000]
        } else if addr < 0xA000 {
            self.g_ram[addr - 0x8000]
        } else if addr < 0xC000 {
            self.e_ram[addr - 0xA000]
        } else if addr < 0xE000 {
            self.w_ram[addr - 0xC000]
        } else if addr < 0xFE00 {
            self.w_ram[addr - 0xE000]
        } else if addr < 0xFEA0 {
            self.s_info[addr - 0xFE00]
        } else if addr < 0xFF00 {
            0
        } else if addr == 0xFF00 {
            self.keys.keys_spec()
        } else if addr < 0xFF80 {
            self.mm_io[addr - 0xFF00]
        } else if addr < 0xFFFF {
            self.z_ram[addr - 0xFF80]
        } else {
            self.int_enable
        }
    }

    /// The memory map after a write of `v` to `addr`.
    pub open spec fn write(self, addr: u16, v: u8) -> MmuView {
        if addr < 0x8000 {
            self
        } else if addr < 0xA000 {
            MmuView { g_ram: self.g_ram.update(addr - 0x8000, v), ..self }
        } else if addr < 0xC000 {
            MmuView { e_ram: self.e_ram.update(addr - 0xA000, v), ..self }
        } else if addr < 0xE000 {
            MmuView { w_ram: self.w_ram.update(addr - 0xC000, v), ..self }
        } else if addr < 0xFE00 {
            MmuView { w_ram: self.w_ram.update(addr - 0xE000, v), ..self }
        } else if addr < 0xFEA0 {
            MmuView { s_info: self.s_info.update(addr - 0xFE00, v), ..self }
        } else if addr < 0xFF00 {
            self
        } else if addr == 0xFF00 {
            MmuView { keys: KeyState { column: v & 0x30, ..self.keys }, ..self }
        } else if addr < 0xFF80 {
            MmuView { mm_io: self.mm_io.update(addr - 0xFF00, v), ..self }
        } else if addr < 0xFFFF {
            MmuView { z_ram: self.z_ram.update(addr - 0xFF80, v), ..self }
        } else {
            MmuView { int_enable: v, ..self }
        }
    }

    /// Little-endian word at `addr`.
    pub open spec fn read_word(&self, addr: u16) -> u16 {
        (self.read(addr) as int + 256 * self.read(next_addr(addr)) as int) as u16
    }

    /// The memory map after a little-endian write of `v` at `addr`.
    pub open spec fn write_word(self, addr: u16, v: u16) -> MmuView {
        self.write(addr, (v % 256) as u8).write(next_addr(addr), (v / 256) as u8)
    }
}

impl View for MMU {
    type V = MmuView;

    closed spec fn view(&self) -> MmuView {
        MmuView {
            in_bios: self.in_bios,
            bios: self.bios@,
            rom_bank0: self.rom_bank0@,
            rom_bankx: self.rom_bankx@,
            g_ram: self.g_ram@,
            e_ram: self.e_ram@,
            w_ram: self.w_ram@,
            s_info: self.s_info@,
            mm_io: self.mm_io@,
            z_ram: self.z_ram@,
            int_enable: self.int_enable,
            keys: self.keys,
        }
    }
}

fn zeroed(n: usize) -> (r: Vec<u8>)
    ensures
        r@ == Seq::new(n as nat, |i: int| 0u8),
{
    let mut v: Vec<u8> = Vec::with_capacity(n);
    let mut i: usize = 0;
    while i < n
        invariant
            i <= n,
            v@ == Seq::new(i as nat, |j: int| 0u8),
        decreases n - i,
    {
        v.push(0);
        i = i + 1;
        proof {
            assert(v@ =~= Seq::new(i as nat, |j: int| 0u8));
        }
    }
    v
}

/// A memory map with the boot ROM mapped in, the cartridge's two banks and all RAM cleared.
pub fn new_mmu(cart: &Cartridge) -> (r: MMU)
    ensures
        r@.wf(),
        r@.in_bios,
        r@.bios == BIOS@,
        r@.rom_bank0 == cart.bank(0),
        r@.rom_bankx == cart.bank(1),
        r@.g_ram == Seq::new(0x2000, |i: int| 0u8),
        r@.e_ram == Seq::new(0x2000, |i: int| 0u8),
        r@.w_ram == Seq::new(0x2000, |i: int| 0u8),
        r@.s_info == Seq::new(0xA0, |i: int| 0u8),
        r@.mm_io == Seq::new(0x80, |i: int| 0u8),
        r@.z_ram == Seq::new(0x7F, |i: int| 0u8),
        r@.int_enable == 0,
        r@.keys.wf(),
{
    let mut bios: Vec<u8> = Vec::with_capacity(256);
    let mut i: usize = 0;
    while i < 256
        invariant
            i <= 256,
            bios@ == BIOS@.subrange(0, i as int),
        decreases 256 - i,
    {
        bios.push(BIOS[i]);
        i = i + 1;
        proof {
            assert(bios@ =~= BIOS@.subrange(0, i as int));
        }
    }
    proof {
        assert(bios@ =~= BIOS@);
    }
    MMU {
        in_bios: true,
        bios,
        rom_bank0: cart.read_bank_0(),
        rom_bankx: cart.read_bank_n(),
        g_ram: zeroed(0x2000),
        e_ram: zeroed(0x2000),
        w_ram: zeroed(0x2000),
        s_info: zeroed(0xA0),
        mm_io: zeroed(0x80),
        z_ram: zeroed(0x7F),
        int_enable: 0,
        keys: new_key_state(),
    }
}

impl MMU {
    /// Read byte.
    pub fn rb(&self, addr: u16) -> (r: u8)
        requires
            self@.wf(),
        ensures
            r == self@.read(addr),
    {
        let a = addr as usize;
        if addr < 0x0100 {
            if self.in_bios {
                self.bios[a]
            } else {
                self.rom_bank0[a]
            }
        } else if addr < 0x4000 {
            self.rom_bank0[a]
        } else if addr < 0x8000 {
            self.rom_bankx[a - 0x4000]
        } else if addr < 0xA000 {
            self.g_ram[a - 0x8000]
        } else if addr < 0xC000 {
            self.e_ram[a - 0xA000]
        } else if addr < 0xE000 {
            self.w_ram[a - 0xC000]
        } else if addr < 0xFE00 {
            self.w_ram[a - 0xE000]
        } else if addr < 0xFEA0 {
            self.s_info[a - 0xFE00]
        } else if addr < 0xFF00 {
            0
        } else if addr == REG_JOYPAD {
            self.keys.get_keys()
        } else if addr < 0xFF80 {
            self.mm_io[a - 0xFF00]
        } else if addr < 0xFFFF {
            self.z_ram[a - 0xFF80]
        } else {
            self.int_enable
        }
    }

    /// Read a little-endian word: low byte at `addr`, high byte at the next address.
    pub fn rw(&self, addr: u16) -> (r: u16)
        requires
            self@.wf(),
        ensures
            r == self@.read_word(addr),
    {
        let lo = self.rb(addr);
        let hi = self.rb(addr.wrapping_add(1));
        lo as u16 + (hi as u16) * 256
    }

    /// Whether the boot ROM is still mapped in.
    pub fn bios_mapped(&self) -> (r: bool)
        ensures
            r == self@.in_bios,
    {
        self.in_bios
    }

    /// Maps the cartridge in place of the boot ROM at 0x0000..0x00FF.
    pub fn unmap_bios(&mut self)
        ensures
            final(self)@ == (MmuView { in_bios: false, ..old(self)@ }),
    {
        self.in_bios = false;
    }

    /// Write byte; writes to ROM and to the unused area are discarded.
    pub fn wb(&mut self, addr: u16, val: u8)
        requires
            old(self)@.wf(),
        ensures
            final(self)@ == old(self)@.write(addr, val),
            final(self)@.wf(),
    {
        let a = addr as usize;
        if addr < 0x8000 {
        } else if addr < 0xA000 {
            self.g_ram.set(a - 0x8000, val);
        } else if addr < 0xC000 {
            self.e_ram.set(a - 0xA000, val);
        } else if addr < 0xE000 {
            self.w_ram.set(a - 0xC000, val);
        } else if addr < 0xFE00 {
            self.w_ram.set(a - 0xE000, val);
        } else if addr < 0xFEA0 {
            self.s_info.set(a - 0xFE00, val);
        } else if addr < 0xFF00 {
        } else if addr == REG_JOYPAD {
            self.keys.set_column(val);
        } else if addr < 0xFF80 {
            self.mm_io.set(a - 0xFF00, val);
        } else if addr < 0xFFFF {
            self.z_ram.set(a - 0xFF80, val);
        } else {
            self.int_enable = val;
        }
    }

    /// Write a little-endian word: low byte at `addr`, high byte at the next address.
    pub fn ww(&mut self, addr: u16, val: u16)
        requires
            old(self)@.wf(),
        ensures
            final(self)@ == old(self)@.write_word(addr, val),
            final(self)@.wf(),
    {
        self.wb(addr, (val % 256) as u8);
        self.wb(addr.wrapping_add(1), (val / 256) as u8);
    }
}

/// A write never touches the boot ROM flag, and keeps the map well formed.
pub broadcast proof fn lemma_write_keeps(m: MmuView, a: u16, v: u8)
    ensures
        #[trigger] m.write(a, v).in_bios == m.in_bios,
        m.wf() ==> m.write(a, v).wf(),
{
}

/// Work RAM appears a second time at 0xE000: a byte written at `a` in
/// 0xC000..=0xDDFF reads back at `a + 0x2000`, and one written at
/// `a + 0x2000` reads back at `a`.
pub proof fn lemma_wram_echo(m: MmuView, a: u16, v: u8)
    requires
        m.wf(),
        0xC000 <= a <= 0xDDFF,
    ensures
        m.write(a, v).read((a + 0x2000) as u16) == v,
        m.write((a + 0x2000) as u16, v).read(a) == v,
{
}

/// A written RAM byte reads back unchanged.
pub proof fn lemma_write_read(m: MmuView, a: u16, v: u8)
    requires
        m.wf(),
        0x8000 <= a < 0xFEA0 || 0xFF01 <= a,
    ensures
        m.write(a, v).read(a) == v,
        m.write(a, v).wf(),
{
}

/// A write leaves every address that does not alias it unchanged.
pub proof fn lemma_write_other(m: MmuView, a: u16, b: u16, v: u8)
    requires
        m.wf(),
        a != b,
        !(0xC000 <= a < 0xFE00 && 0xC000 <= b < 0xFE00 && (a - b == 0x2000 || b - a == 0x2000)),
        a != 0xFF00,
    ensures
        m.write(a, v).read(b) == m.read(b),
        m.write(a, v).wf(),
{
}

} // verus!
