use rusty_gb::cartridge::new_cartridge;
use rusty_gb::cpu::new_cpu;
use rusty_gb::engine::run_frame;
use rusty_gb::gpu::{new_gpu, Mode, FB_SIZE};
use rusty_gb::mmu::{new_mmu, MMU};

fn blank_mmu() -> MMU {
    let mut mmu = new_mmu(&new_cartridge(vec![0u8; 0x8000]).expect("two banks"));
    mmu.unmap_bios();
    mmu
}

fn grey(s: u8) -> u8 {
    [255u8, 192, 96, 0][s as usize]
}

#[test]
fn background_palette_round_trip() {
    for bgp in [0x1Bu8, 0xE4, 0x00, 0xFF, 0x9C] {
        let mut mmu = blank_mmu();
        // Tile 0, row 0: columns 0..3 carry colour keys 0, 1, 2, 3.
        mmu.wb(0x8000, 0x50);
        mmu.wb(0x8001, 0x30);
        mmu.wb(0xFF40, 0x91);
        mmu.wb(0xFF47, bgp);
        let mut gpu = new_gpu();
        gpu.step(&mut mmu, 80);
        gpu.step(&mut mmu, 172);
        let expect = [bgp & 3, (bgp >> 2) & 3, (bgp >> 4) & 3, (bgp >> 6) & 3];
        for x in 0..4 {
            for c in 0..3 {
                assert_eq!(gpu.fb[x * 3 + c], grey(expect[x]));
            }
        }
    }
}

#[test]
fn signed_tile_addressing_uses_upper_tiles() {
    let mut mmu = blank_mmu();
    // LCDC bit 4 clear: tile id 0 reads tile 256 at 0x9000.
    mmu.wb(0x9000, 0xFF);
    mmu.wb(0x9001, 0xFF);
    // Column 8 shows tile id 1, that is tile 257, which is blank.
    mmu.wb(0x9801, 1);
    mmu.wb(0xFF40, 0x81);
    mmu.wb(0xFF47, 0xE4);
    let mut gpu = new_gpu();
    gpu.step(&mut mmu, 80);
    gpu.step(&mut mmu, 172);
    assert_eq!(gpu.fb[0], 0);
    assert_eq!(gpu.fb[7 * 3], 0);
    assert_eq!(gpu.fb[8 * 3], 255);
}

#[test]
fn sprite_drawn_over_background_and_transparent_key_skipped() {
    let mut mmu = blank_mmu();
    // Sprite 0 at screen (0, 0), tile 1, row 0 keys: 3 0 3 0 3 0 3 0.
    mmu.wb(0x8010, 0xAA);
    mmu.wb(0x8011, 0xAA);
    mmu.wb(0xFE00, 16);
    mmu.wb(0xFE01, 8);
    mmu.wb(0xFE02, 1);
    mmu.wb(0xFE03, 0);
    mmu.wb(0xFF40, 0x93);
    mmu.wb(0xFF47, 0x00);
    mmu.wb(0xFF48, 0xC0);
    let mut gpu = new_gpu();
    gpu.step(&mut mmu, 80);
    gpu.step(&mut mmu, 172);
    assert_eq!(gpu.fb[0], 0);
    assert_eq!(gpu.fb[3], 255);
    assert_eq!(gpu.fb[6], 0);
}

#[test]
fn lower_oam_index_wins() {
    let mut mmu = blank_mmu();
    mmu.wb(0x8010, 0xFF);
    mmu.wb(0x8011, 0xFF);
    for i in 0..2u16 {
        mmu.wb(0xFE00 + i * 4, 16);
        mmu.wb(0xFE01 + i * 4, 8);
        mmu.wb(0xFE02 + i * 4, 1);
    }
    mmu.wb(0xFE03, 0x00);
    mmu.wb(0xFE07, 0x10);
    mmu.wb(0xFF40, 0x93);
    mmu.wb(0xFF48, 0xC0);
    mmu.wb(0xFF49, 0x40);
    let mut gpu = new_gpu();
    gpu.step(&mut mmu, 80);
    gpu.step(&mut mmu, 172);
    assert_eq!(gpu.fb[0], 0);
}

#[test]
fn one_frame_per_frame_of_cycles() {
    let mut mmu = blank_mmu();
    let mut gpu = new_gpu();
    let mut frames = 0;
    let mut elapsed = 0u32;
    while elapsed < 70224 {
        if let Some(f) = gpu.step(&mut mmu, 4) {
            assert_eq!(f.len(), FB_SIZE);
            frames += 1;
            assert_eq!(elapsed + 4, 65664);
        }
        elapsed += 4;
    }
    assert_eq!(frames, 1);
    while elapsed < 2 * 70224 {
        if gpu.step(&mut mmu, 12).is_some() {
            frames += 1;
        }
        elapsed += 12;
    }
    assert_eq!(frames, 2);
}

#[test]
fn vblank_raises_interrupt_flag() {
    let mut mmu = blank_mmu();
    let mut gpu = new_gpu();
    assert!(gpu.step(&mut mmu, 65660).is_none());
    assert_eq!(mmu.rb(0xFF0F) & 1, 0);
    assert!(gpu.step(&mut mmu, 4).is_some());
    assert_eq!(mmu.rb(0xFF0F) & 1, 1);
    assert!(gpu.mode == Mode::VBlank);
    assert_eq!(gpu.line, 144);
}

#[test]
fn ly_follows_the_line() {
    let mut mmu = blank_mmu();
    let mut gpu = new_gpu();
    for _ in 0..400 {
        gpu.step(&mut mmu, 100);
        assert_eq!(mmu.rb(0xFF44), gpu.line);
    }
    let mut gpu = new_gpu();
    gpu.step(&mut mmu, 456 * 3);
    assert_eq!(gpu.line, 3);
    assert_eq!(mmu.rb(0xFF44), 3);
    gpu.step(&mut mmu, 456 * 151);
    assert_eq!(gpu.line, 0);
    assert_eq!(mmu.rb(0xFF44), 0);
}

#[test]
fn run_frame_yields_a_frame() {
    let mut mmu = blank_mmu();
    let mut cpu = new_cpu();
    cpu.reg_pc = 0xC000;
    // JR -2 spins forever in work RAM.
    mmu.wb(0xC000, 0x18);
    mmu.wb(0xC001, 0xFE);
    let mut gpu = new_gpu();
    let f = run_frame(&mut cpu, &mut mmu, &mut gpu);
    assert_eq!(f.map(|v| v.len()), Some(FB_SIZE));
    assert_eq!(cpu.reg_pc, 0xC000);
}

#[test]
fn returned_frame_is_the_framebuffer_at_vblank() {
    let mut mmu = blank_mmu();
    mmu.wb(0x8000, 0xFF);
    mmu.wb(0x8001, 0x00);
    mmu.wb(0xFF40, 0x91);
    mmu.wb(0xFF47, 0xE4);
    let mut gpu = new_gpu();
    assert!(gpu.step(&mut mmu, 65660).is_none());
    let f = gpu.step(&mut mmu, 4).expect("VBlank starts");
    assert_eq!(f, gpu.fb);
    assert_eq!(f[0], 192);
    assert_eq!(f[(136 * 160 + 7) * 3], 192);
    assert_eq!(f[(143 * 160 + 7) * 3], 255);
    assert_eq!(f[(136 * 160 + 8) * 3 + 2], 192);
}

#[test]
fn run_frame_runs_the_program_and_returns_its_picture() {
    let mut mmu = blank_mmu();
    // INC B; JR -3 : counts loop rounds in B.
    mmu.wb(0xC000, 0x04);
    mmu.wb(0xC001, 0x18);
    mmu.wb(0xC002, 0xFD);
    mmu.wb(0xFF40, 0x91);
    mmu.wb(0x8000, 0xFF);
    mmu.wb(0x8001, 0xFF);
    mmu.wb(0xFF47, 0xE4);
    let mut cpu = new_cpu();
    cpu.reg_pc = 0xC000;
    let mut gpu = new_gpu();
    let f = run_frame(&mut cpu, &mut mmu, &mut gpu).expect("a frame");
    assert_eq!(f, gpu.fb);
    assert_eq!(f[0], 0);
    // 70224 T-cycles of 4 + 12 per round: 4389 rounds, B wraps modulo 256.
    assert_eq!(cpu.reg_b, (4389 % 256) as u8);
    assert!(cpu.reg_pc == 0xC000 || cpu.reg_pc == 0xC001);
}
