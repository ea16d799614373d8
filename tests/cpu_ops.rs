use rusty_gb::cartridge::new_cartridge;
use rusty_gb::cpu::{new_cpu, new_cpu_post_boot, CPU};
use rusty_gb::mmu::{new_mmu, MMU};

fn machine_with_rom(patch: &[(usize, u8)]) -> (CPU, MMU) {
    let mut rom = vec![0u8; 0x8000];
    for &(a, v) in patch {
        rom[a] = v;
    }
    let cart = new_cartridge(rom).expect("two banks");
    let mut mmu = new_mmu(&cart);
    mmu.unmap_bios();
    (new_cpu(), mmu)
}

fn machine() -> (CPU, MMU) {
    machine_with_rom(&[])
}

fn load(mmu: &mut MMU, at: u16, code: &[u8]) {
    for (i, b) in code.iter().enumerate() {
        mmu.wb(at + i as u16, *b);
    }
}

#[test]
fn add_a_b_sets_zero_half_carry_and_carry() {
    let (mut cpu, mut mmu) = machine();
    load(&mut mmu, 0xC000, &[0x80]);
    cpu.reg_pc = 0xC000;
    cpu.reg_a = 0x3A;
    cpu.reg_b = 0xC6;
    cpu.reg_f = 0;
    let (m, t) = cpu.exec(&mut mmu);
    assert_eq!(cpu.reg_a, 0x00);
    assert_eq!(cpu.reg_f, 0xB0);
    assert_eq!((m, t), (1, 4));
}

#[test]
fn sbc_a_h_with_carry_in() {
    let (mut cpu, mut mmu) = machine();
    load(&mut mmu, 0xC000, &[0x9C]);
    cpu.reg_pc = 0xC000;
    cpu.reg_a = 0x3B;
    cpu.reg_h = 0x2A;
    cpu.reg_f = 0x10;
    cpu.exec(&mut mmu);
    assert_eq!(cpu.reg_a, 0x10);
    assert_eq!(cpu.reg_f, 0x40);
}

#[test]
fn daa_after_bcd_add() {
    let (mut cpu, mut mmu) = machine();
    load(&mut mmu, 0xC000, &[0x80, 0x27]);
    cpu.reg_pc = 0xC000;
    cpu.reg_a = 0x45;
    cpu.reg_b = 0x38;
    cpu.exec(&mut mmu);
    assert_eq!(cpu.reg_a, 0x7D);
    // 0x5 + 0x8 does not carry out of the low nibble, so H stays clear.
    assert_eq!(cpu.reg_f, 0x00);
    cpu.exec(&mut mmu);
    assert_eq!(cpu.reg_a, 0x83);
    assert_eq!(cpu.reg_f, 0x00);
}

#[test]
fn call_then_ret_round_trip() {
    let (mut cpu, mut mmu) = machine_with_rom(&[(0x1234, 0xC9)]);
    load(&mut mmu, 0x8000, &[0xCD, 0x34, 0x12]);
    cpu.reg_sp = 0xFFFE;
    cpu.reg_pc = 0x8000;
    let (m, _) = cpu.exec(&mut mmu);
    assert_eq!(m, 6);
    assert_eq!(cpu.reg_pc, 0x1234);
    assert_eq!(cpu.reg_sp, 0xFFFC);
    assert_eq!(mmu.rb(0xFFFC), 0x03);
    assert_eq!(mmu.rb(0xFFFD), 0x80);
    let (m, _) = cpu.exec(&mut mmu);
    assert_eq!(m, 4);
    assert_eq!(cpu.reg_pc, 0x8003);
    assert_eq!(cpu.reg_sp, 0xFFFE);
}

#[test]
fn rla_rotates_through_carry() {
    let (mut cpu, mut mmu) = machine();
    load(&mut mmu, 0xC000, &[0x17]);
    cpu.reg_pc = 0xC000;
    cpu.reg_a = 0x85;
    cpu.reg_f = 0x10;
    cpu.exec(&mut mmu);
    assert_eq!(cpu.reg_a, 0x0B);
    assert_eq!(cpu.reg_f, 0x10);
}

#[test]
fn cb_swap_of_zero_sets_zero_flag() {
    let (mut cpu, mut mmu) = machine();
    load(&mut mmu, 0xC000, &[0xCB, 0x37]);
    cpu.reg_pc = 0xC000;
    cpu.reg_a = 0x00;
    let (m, t) = cpu.exec(&mut mmu);
    assert_eq!(cpu.reg_a, 0x00);
    assert_eq!(cpu.reg_f, 0x80);
    assert_eq!((m, t), (2, 8));
    assert_eq!(cpu.reg_pc, 0xC002);
}

#[test]
fn t_cycles_are_four_per_machine_cycle() {
    let (mut cpu, mut mmu) = machine();
    // NOP, LD BC,n16, LD (HL),n8, CB BIT 0,(HL), CB RES 0,(HL), ADD SP,e8, LD HL,SP+e8, JR +0
    let code = [
        0x00, 0x01, 0x34, 0x12, 0x36, 0x55, 0xCB, 0x46, 0xCB, 0x86, 0xE8, 0x02, 0xF8, 0xFE, 0x18,
        0x00,
    ];
    load(&mut mmu, 0xC000, &code);
    cpu.reg_pc = 0xC000;
    cpu.reg_h = 0xC1;
    cpu.reg_l = 0x00;
    cpu.reg_sp = 0xDFF0;
    let expected = [1u32, 3, 3, 3, 4, 4, 3, 3];
    for m in expected {
        let (dm, dt) = cpu.exec(&mut mmu);
        assert_eq!(dm, m);
        assert_eq!(dt, dm * 4);
    }
}

#[test]
fn ld_r16_n16_is_little_endian() {
    let (mut cpu, mut mmu) = machine();
    load(&mut mmu, 0xC000, &[0x01, 0x34, 0x12]);
    cpu.reg_pc = 0xC000;
    cpu.exec(&mut mmu);
    assert_eq!(cpu.reg_b, 0x12);
    assert_eq!(cpu.reg_c, 0x34);
    assert_eq!(cpu.reg_pc, 0xC003);
}

#[test]
fn pop_af_clears_low_nibble_of_f() {
    let (mut cpu, mut mmu) = machine();
    load(&mut mmu, 0xC000, &[0xF1]);
    mmu.ww(0xD000, 0x12FF);
    cpu.reg_pc = 0xC000;
    cpu.reg_sp = 0xD000;
    cpu.exec(&mut mmu);
    assert_eq!(cpu.reg_a, 0x12);
    assert_eq!(cpu.reg_f, 0xF0);
    assert_eq!(cpu.reg_f & 0x0F, 0);
    assert_eq!(cpu.reg_sp, 0xD002);
}

#[test]
fn pc_wraps_from_ffff_to_zero() {
    let (mut cpu, mut mmu) = machine();
    // 0xFFFF is IE; 0x00 there decodes as NOP.
    mmu.wb(0xFFFF, 0x00);
    cpu.reg_pc = 0xFFFF;
    cpu.exec(&mut mmu);
    assert_eq!(cpu.reg_pc, 0x0000);
}

#[test]
fn interrupts_are_served_lowest_bit_first() {
    let (mut cpu, mut mmu) = machine();
    load(&mut mmu, 0xC000, &[0x00]);
    mmu.wb(0xFFFF, 0x1F);
    mmu.wb(0xFF0F, 0x1F);
    cpu.reg_sp = 0xDFF0;
    let vectors = [0x40u16, 0x48, 0x50, 0x58, 0x60];
    let remaining = [0x1Eu8, 0x1C, 0x18, 0x10, 0x00];
    for i in 0..5 {
        cpu.reg_pc = 0xC000;
        cpu.ime = true;
        let (m, t) = cpu.exec(&mut mmu);
        assert_eq!(m, 1 + 5);
        assert_eq!(t, 24);
        assert_eq!(cpu.reg_pc, vectors[i]);
        assert!(!cpu.ime);
        assert_eq!(mmu.rb(0xFF0F), remaining[i]);
        assert_eq!(cpu.reg_sp, 0xDFEE);
        assert_eq!(mmu.rw(0xDFEE), 0xC001);
        cpu.reg_sp = 0xDFF0;
    }
}

#[test]
fn no_interrupt_while_ime_clear() {
    let (mut cpu, mut mmu) = machine();
    load(&mut mmu, 0xC000, &[0x00]);
    mmu.wb(0xFFFF, 0x1F);
    mmu.wb(0xFF0F, 0x01);
    cpu.reg_pc = 0xC000;
    cpu.ime = false;
    assert_eq!(cpu.exec(&mut mmu), (1, 4));
    assert_eq!(cpu.reg_pc, 0xC001);
    assert_eq!(mmu.rb(0xFF0F), 0x01);
}

#[test]
fn halt_idles_until_an_interrupt_is_pending() {
    let (mut cpu, mut mmu) = machine();
    load(&mut mmu, 0xC000, &[0x76, 0x00]);
    cpu.reg_pc = 0xC000;
    cpu.exec(&mut mmu);
    assert!(cpu.halt);
    assert_eq!(cpu.exec(&mut mmu), (1, 4));
    assert_eq!(cpu.reg_pc, 0xC001);
    mmu.wb(0xFFFF, 0x04);
    mmu.wb(0xFF0F, 0x04);
    cpu.exec(&mut mmu);
    assert!(!cpu.halt);
    assert_eq!(cpu.reg_pc, 0xC002);
}

#[test]
fn illegal_opcode_sets_stop_and_records_it() {
    let (mut cpu, mut mmu) = machine();
    load(&mut mmu, 0xC100, &[0xD3]);
    cpu.reg_pc = 0xC100;
    cpu.exec(&mut mmu);
    assert!(cpu.stop);
    assert_eq!(cpu.illegal, Some((0xD3, 0xC100)));
}

#[test]
fn stop_sets_the_latch() {
    let (mut cpu, mut mmu) = machine();
    load(&mut mmu, 0xC000, &[0x10]);
    cpu.reg_pc = 0xC000;
    cpu.exec(&mut mmu);
    assert!(cpu.stop);
    assert_eq!(cpu.illegal, None);
}

#[test]
fn sub_and_cp_flags() {
    let (mut cpu, mut mmu) = machine();
    load(&mut mmu, 0xC000, &[0xD6, 0x01, 0xFE, 0x20]);
    cpu.reg_pc = 0xC000;
    cpu.reg_a = 0x10;
    cpu.exec(&mut mmu);
    assert_eq!(cpu.reg_a, 0x0F);
    assert_eq!(cpu.reg_f, 0x60);
    cpu.exec(&mut mmu);
    assert_eq!(cpu.reg_a, 0x0F);
    assert_eq!(cpu.reg_f, 0x50);
}

#[test]
fn inc_and_dec_keep_carry() {
    let (mut cpu, mut mmu) = machine();
    load(&mut mmu, 0xC000, &[0x3C, 0x05]);
    cpu.reg_pc = 0xC000;
    cpu.reg_a = 0x0F;
    cpu.reg_b = 0x01;
    cpu.reg_f = 0x10;
    cpu.exec(&mut mmu);
    assert_eq!(cpu.reg_a, 0x10);
    assert_eq!(cpu.reg_f, 0x30);
    cpu.exec(&mut mmu);
    assert_eq!(cpu.reg_b, 0x00);
    assert_eq!(cpu.reg_f, 0xD0);
}

#[test]
fn add_hl_uses_bit_eleven_for_half_carry() {
    let (mut cpu, mut mmu) = machine();
    load(&mut mmu, 0xC000, &[0x09]);
    cpu.reg_pc = 0xC000;
    cpu.reg_h = 0x0F;
    cpu.reg_l = 0xFF;
    cpu.reg_b = 0x00;
    cpu.reg_c = 0x01;
    cpu.reg_f = 0x80;
    cpu.exec(&mut mmu);
    assert_eq!((cpu.reg_h, cpu.reg_l), (0x10, 0x00));
    assert_eq!(cpu.reg_f, 0xA0);
}

#[test]
fn sra_keeps_sign_and_srl_does_not() {
    let (mut cpu, mut mmu) = machine();
    load(&mut mmu, 0xC000, &[0xCB, 0x28, 0xCB, 0x39]);
    cpu.reg_pc = 0xC000;
    cpu.reg_b = 0x81;
    cpu.reg_c = 0x81;
    cpu.exec(&mut mmu);
    assert_eq!(cpu.reg_b, 0xC0);
    assert_eq!(cpu.reg_f, 0x10);
    cpu.exec(&mut mmu);
    assert_eq!(cpu.reg_c, 0x40);
    assert_eq!(cpu.reg_f, 0x10);
}

#[test]
fn bit_set_res_on_registers() {
    let (mut cpu, mut mmu) = machine();
    load(&mut mmu, 0xC000, &[0xCB, 0x7F, 0xCB, 0xFF, 0xCB, 0x7F, 0xCB, 0xBF]);
    cpu.reg_pc = 0xC000;
    cpu.reg_a = 0x00;
    cpu.exec(&mut mmu);
    assert_eq!(cpu.reg_f, 0xA0);
    cpu.exec(&mut mmu);
    assert_eq!(cpu.reg_a, 0x80);
    cpu.exec(&mut mmu);
    assert_eq!(cpu.reg_f, 0x20);
    cpu.exec(&mut mmu);
    assert_eq!(cpu.reg_a, 0x00);
}

#[test]
fn push_writes_high_byte_first_above_low() {
    let (mut cpu, mut mmu) = machine();
    load(&mut mmu, 0xC000, &[0xC5, 0xD1]);
    cpu.reg_pc = 0xC000;
    cpu.reg_sp = 0xD000;
    cpu.reg_b = 0xAB;
    cpu.reg_c = 0xCD;
    cpu.exec(&mut mmu);
    assert_eq!(mmu.rb(0xCFFF), 0xAB);
    assert_eq!(mmu.rb(0xCFFE), 0xCD);
    cpu.exec(&mut mmu);
    assert_eq!((cpu.reg_d, cpu.reg_e), (0xAB, 0xCD));
    assert_eq!(cpu.reg_sp, 0xD000);
}

#[test]
fn post_boot_registers() {
    let cpu = new_cpu_post_boot();
    assert_eq!(cpu.reg_a, 0x01);
    assert_eq!(cpu.reg_f, 0xB0);
    assert_eq!((cpu.reg_b, cpu.reg_c), (0x00, 0x13));
    assert_eq!((cpu.reg_d, cpu.reg_e), (0x00, 0xD8));
    assert_eq!((cpu.reg_h, cpu.reg_l), (0x01, 0x4D));
    assert_eq!(cpu.reg_sp, 0xFFFE);
    assert_eq!(cpu.reg_pc, 0x0100);
}

#[test]
fn reset_returns_to_power_on_state() {
    let mut cpu = new_cpu_post_boot();
    cpu.halt = true;
    cpu.reset();
    assert_eq!(cpu.reg_a, 0);
    assert_eq!(cpu.reg_f, 0);
    assert_eq!(cpu.reg_pc, 0);
    assert_eq!(cpu.reg_sp, 0);
    assert!(!cpu.halt && !cpu.stop && !cpu.ime);
}

#[test]
fn fetch_at_0100_unmaps_boot_rom() {
    let mut rom = vec![0u8; 0x8000];
    rom[0] = 0x77;
    let cart = new_cartridge(rom).expect("two banks");
    let mut mmu = new_mmu(&cart);
    assert_eq!(mmu.rb(0x0000), 0x31);
    let mut cpu = new_cpu();
    cpu.reg_pc = 0x0100;
    cpu.exec(&mut mmu);
    assert!(!mmu.in_bios);
    assert_eq!(mmu.rb(0x0000), 0x77);
}

#[test]
fn every_undefined_opcode_stops() {
    for opc in [0xD3u8, 0xDB, 0xDD, 0xE3, 0xE4, 0xEB, 0xEC, 0xED, 0xF4, 0xFC, 0xFD] {
        let (mut cpu, mut mmu) = machine();
        load(&mut mmu, 0xC200, &[opc]);
        cpu.reg_pc = 0xC200;
        let (m, t) = cpu.exec(&mut mmu);
        assert_eq!(t, m * 4);
        assert!(cpu.stop);
        assert_eq!(cpu.illegal, Some((opc, 0xC200)));
    }
}

#[test]
fn daa_after_bcd_subtract() {
    let (mut cpu, mut mmu) = machine();
    // 0x42 - 0x15 = 0x2D with H set; DAA makes it 0x27.
    load(&mut mmu, 0xC000, &[0xD6, 0x15, 0x27]);
    cpu.reg_pc = 0xC000;
    cpu.reg_a = 0x42;
    cpu.exec(&mut mmu);
    assert_eq!(cpu.reg_a, 0x2D);
    assert_eq!(cpu.reg_f, 0x60);
    cpu.exec(&mut mmu);
    assert_eq!(cpu.reg_a, 0x27);
    assert_eq!(cpu.reg_f, 0x40);
}

#[test]
fn daa_sets_carry_past_99() {
    let (mut cpu, mut mmu) = machine();
    load(&mut mmu, 0xC000, &[0x80, 0x27]);
    cpu.reg_pc = 0xC000;
    cpu.reg_a = 0x90;
    cpu.reg_b = 0x20;
    cpu.exec(&mut mmu);
    assert_eq!(cpu.reg_a, 0xB0);
    cpu.exec(&mut mmu);
    assert_eq!(cpu.reg_a, 0x10);
    assert_eq!(cpu.reg_f, 0x10);
}

#[test]
fn adc_half_carry_counts_carry_in() {
    let (mut cpu, mut mmu) = machine();
    load(&mut mmu, 0xC000, &[0xCE, 0x00]);
    cpu.reg_pc = 0xC000;
    cpu.reg_a = 0x0F;
    cpu.reg_f = 0x10;
    cpu.exec(&mut mmu);
    assert_eq!(cpu.reg_a, 0x10);
    assert_eq!(cpu.reg_f, 0x20);
}

#[test]
fn add_sp_e8_uses_unsigned_low_byte_for_flags() {
    let (mut cpu, mut mmu) = machine();
    load(&mut mmu, 0xC000, &[0xE8, 0xFF, 0xF8, 0x01]);
    cpu.reg_pc = 0xC000;
    cpu.reg_sp = 0x00FF;
    cpu.reg_f = 0x80;
    cpu.exec(&mut mmu);
    assert_eq!(cpu.reg_sp, 0x00FE);
    assert_eq!(cpu.reg_f, 0x30);
    cpu.exec(&mut mmu);
    assert_eq!((cpu.reg_h, cpu.reg_l), (0x00, 0xFF));
    assert_eq!(cpu.reg_f, 0x00);
}

#[test]
fn conditional_jumps_cost_by_outcome() {
    let (mut cpu, mut mmu) = machine();
    // JR NZ,+2 (not taken, Z set); JP Z,0xC010 (taken)
    load(&mut mmu, 0xC000, &[0x20, 0x02, 0xCA, 0x10, 0xC0]);
    cpu.reg_pc = 0xC000;
    cpu.reg_f = 0x80;
    assert_eq!(cpu.exec(&mut mmu), (2, 8));
    assert_eq!(cpu.reg_pc, 0xC002);
    assert_eq!(cpu.exec(&mut mmu), (4, 16));
    assert_eq!(cpu.reg_pc, 0xC010);
}

#[test]
fn reti_returns_and_enables_interrupts() {
    let (mut cpu, mut mmu) = machine();
    load(&mut mmu, 0xC000, &[0xD9]);
    mmu.ww(0xD000, 0x1234);
    cpu.reg_pc = 0xC000;
    cpu.reg_sp = 0xD000;
    cpu.ime = false;
    assert_eq!(cpu.exec(&mut mmu), (4, 16));
    assert!(cpu.ime);
    assert_eq!(cpu.reg_pc, 0x1234);
    assert_eq!(cpu.reg_sp, 0xD002);
}

#[test]
fn ldh_reaches_the_io_page() {
    let (mut cpu, mut mmu) = machine();
    load(&mut mmu, 0xC000, &[0xE0, 0x80, 0xF2]);
    mmu.wb(0xFF42, 0x66);
    cpu.reg_pc = 0xC000;
    cpu.reg_a = 0x5A;
    cpu.reg_c = 0x42;
    assert_eq!(cpu.exec(&mut mmu), (3, 12));
    assert_eq!(mmu.rb(0xFF80), 0x5A);
    assert_eq!(cpu.exec(&mut mmu), (2, 8));
    assert_eq!(cpu.reg_a, 0x66);
}

#[test]
fn rst_pushes_and_jumps_to_vector() {
    let (mut cpu, mut mmu) = machine();
    load(&mut mmu, 0xC000, &[0xEF]);
    cpu.reg_pc = 0xC000;
    cpu.reg_sp = 0xD000;
    assert_eq!(cpu.exec(&mut mmu), (4, 16));
    assert_eq!(cpu.reg_pc, 0x0028);
    assert_eq!(mmu.rw(0xCFFE), 0xC001);
}
