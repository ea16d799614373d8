use rusty_gb::cartridge::new_cartridge;
use rusty_gb::keys::Keys;
use rusty_gb::mmu::{new_mmu, MMU};

fn mmu_with(rom: Vec<u8>) -> MMU {
    new_mmu(&new_cartridge(rom).expect("two banks"))
}

#[test]
fn short_image_is_refused() {
    assert!(new_cartridge(vec![0u8; 0x7FFF]).is_none());
    assert!(new_cartridge(vec![0u8; 0x8000]).is_some());
}

#[test]
fn banks_are_the_two_halves() {
    let mut rom = vec![0u8; 0x8000];
    rom[0x0000] = 1;
    rom[0x3FFF] = 2;
    rom[0x4000] = 3;
    rom[0x7FFF] = 4;
    let cart = new_cartridge(rom).expect("two banks");
    let b0 = cart.read_bank_0();
    let bn = cart.read_bank_n();
    assert_eq!(b0.len(), 0x4000);
    assert_eq!(bn.len(), 0x4000);
    assert_eq!((b0[0], b0[0x3FFF]), (1, 2));
    assert_eq!((bn[0], bn[0x3FFF]), (3, 4));
}

#[test]
fn rom_reads_and_ignores_writes() {
    let mut rom = vec![0u8; 0x8000];
    rom[0x0150] = 0xAA;
    rom[0x4001] = 0xBB;
    let mut mmu = mmu_with(rom);
    assert_eq!(mmu.rb(0x0150), 0xAA);
    assert_eq!(mmu.rb(0x4001), 0xBB);
    mmu.wb(0x0150, 0x11);
    mmu.wb(0x4001, 0x22);
    assert_eq!(mmu.rb(0x0150), 0xAA);
    assert_eq!(mmu.rb(0x4001), 0xBB);
}

#[test]
fn work_ram_echo_both_ways() {
    let mut mmu = mmu_with(vec![0u8; 0x8000]);
    for a in [0xC000u16, 0xC123, 0xDDFF] {
        mmu.wb(a, 0x5A);
        assert_eq!(mmu.rb(a + 0x2000), 0x5A);
        mmu.wb(a + 0x2000, 0xA5);
        assert_eq!(mmu.rb(a), 0xA5);
    }
}

#[test]
fn ram_regions_read_back() {
    let mut mmu = mmu_with(vec![0u8; 0x8000]);
    for (a, v) in [(0x8000u16, 1u8), (0x9FFF, 2), (0xA000, 3), (0xBFFF, 4), (0xFE00, 5), (0xFE9F, 6), (0xFF01, 7), (0xFF7F, 8), (0xFF80, 9), (0xFFFE, 10), (0xFFFF, 11)] {
        mmu.wb(a, v);
        assert_eq!(mmu.rb(a), v);
    }
}

#[test]
fn unused_area_reads_zero() {
    let mut mmu = mmu_with(vec![0u8; 0x8000]);
    mmu.wb(0xFEA0, 0x12);
    mmu.wb(0xFEFF, 0x34);
    assert_eq!(mmu.rb(0xFEA0), 0);
    assert_eq!(mmu.rb(0xFEFF), 0);
}

#[test]
fn words_are_little_endian() {
    let mut mmu = mmu_with(vec![0u8; 0x8000]);
    mmu.ww(0xC010, 0xBEEF);
    assert_eq!(mmu.rb(0xC010), 0xEF);
    assert_eq!(mmu.rb(0xC011), 0xBE);
    assert_eq!(mmu.rw(0xC010), 0xBEEF);
}

#[test]
fn boot_rom_shadows_low_page() {
    let mut rom = vec![0u8; 0x8000];
    rom[0x0000] = 0x99;
    rom[0x0100] = 0x42;
    let mut mmu = mmu_with(rom);
    assert!(mmu.in_bios);
    assert_eq!(mmu.rb(0x0000), 0x31);
    assert_eq!(mmu.rb(0x00FF), 0x50);
    assert_eq!(mmu.rb(0x0100), 0x42);
    mmu.unmap_bios();
    assert_eq!(mmu.rb(0x0000), 0x99);
}

#[test]
fn joypad_register_shows_selected_row() {
    let mut mmu = mmu_with(vec![0u8; 0x8000]);
    mmu.keys.key_down(Keys::START);
    mmu.keys.key_down(Keys::LEFT);
    mmu.wb(0xFF00, 0x10);
    assert_eq!(mmu.rb(0xFF00), 0x07);
    mmu.wb(0xFF00, 0x20);
    assert_eq!(mmu.rb(0xFF00), 0x0D);
    mmu.wb(0xFF00, 0x00);
    assert_eq!(mmu.rb(0xFF00), 0x00);
}
