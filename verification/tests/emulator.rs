use zae_a2600::cpu::{Cpu, FLAG_C, FLAG_N, FLAG_V, FLAG_Z, FRAME_CYCLES};
use zae_a2600::memory::{Memory, ROM_SIZE};
use zae_a2600::tia::SCANLINE_CYCLES;

/// A 4 KiB cartridge whose reset vector points at 0xF000, with `code`
/// placed there.
fn cartridge(code: &[u8]) -> Vec<u8> {
    let mut rom = vec![0xEAu8; ROM_SIZE];
    rom[..code.len()].copy_from_slice(code);
    rom[0xFFC] = 0x00;
    rom[0xFFD] = 0xF0;
    rom
}

fn machine(code: &[u8]) -> (Cpu, Memory) {
    let mut mem = Memory::new();
    mem.load_rom(&cartridge(code));
    let mut cpu = Cpu::new();
    cpu.reset(&mut mem);
    (cpu, mem)
}

#[test]
fn test_load_rom() {
    let mut mem = Memory::new();
    let rom = cartridge(&[0xA9, 0x42, 0x85, 0x80, 0x4C, 0x00, 0xF0]);
    mem.load_rom(&rom);
    assert_ne!(rom.len(), 0, "ROM empty");
    assert_eq!(mem.read(0x1000), rom[0]);
}

#[test]
fn test_tia_background() {
    let mut mem = Memory::new();
    mem.write(0x09, 0x7F); // COLUBK
    let (r, g, b) = mem.tia.background_rgb();
    let (r, g, b) = (r as f32 / 255.0, g as f32 / 255.0, b as f32 / 255.0);
    assert!(r > 0.9 && g > 0.9 && b > 0.9);
}

#[test]
fn test_cpu_execute() {
    let rom = cartridge(&[0xA9, 0x42, 0x85, 0x80, 0x4C, 0x00, 0xF0]);
    let mut mem = Memory::new();
    mem.load_rom(&rom);

    let mut cpu = Cpu::new();
    cpu.reset(&mut mem);

    let cycles_used = cpu.run_frame(&mut mem);

    assert!(cycles_used > 0, "CPU should execute some cycles");
    assert!(cpu.cycles > 0, "CPU cycles counter should increase");
    assert_ne!(cpu.pc, 0, "PC should not be zero after execution");
}

#[test]
fn reset_state() {
    let (cpu, _) = machine(&[]);
    assert_eq!(cpu.pc, 0xF000);
    assert_eq!(cpu.sp, 0xFD);
    assert_eq!(cpu.status, 0x24);
    let fresh = Cpu::new();
    assert_eq!((fresh.a, fresh.x, fresh.y, fresh.pc, fresh.cycles), (0, 0, 0, 0, 0));
}

#[test]
fn load_rom_short_and_long_images() {
    let mut mem = Memory::new();
    mem.load_rom(&[1, 2, 3]);
    assert_eq!((mem.rom[0], mem.rom[2], mem.rom[3]), (1, 3, 0));
    let long = vec![7u8; ROM_SIZE + 100];
    mem.load_rom(&long);
    assert!(mem.rom.iter().all(|&b| b == 7));
}

#[test]
fn ram_mirrors_and_address_lines() {
    let mut mem = Memory::new();
    mem.write(0x80, 0x11);
    assert_eq!(mem.read(0x180), 0x11);
    mem.write(0x1FF, 0x22);
    assert_eq!(mem.read(0xFF), 0x22);
    assert_eq!(mem.read(0x2080), 0x11);
    mem.write(0x2081, 0x33);
    assert_eq!(mem.read(0x81), 0x33);
    assert_eq!(mem.read(0x80), 0x11);
}

#[test]
fn rom_and_unmapped_writes_ignored() {
    let mut mem = Memory::new();
    mem.load_rom(&cartridge(&[0x42]));
    mem.write(0xF000, 0x99);
    assert_eq!(mem.read(0xF000), 0x42);
    assert_eq!(mem.read(0x1000), 0x42);
    mem.write(0x0500, 0x99);
    assert_eq!(mem.read(0x0500), 0);
}

#[test]
fn riot_timer_counts_down() {
    let mut mem = Memory::new();
    mem.write(0x294, 10); // TIM1T
    mem.tick_riot(3);
    assert_eq!(mem.read(0x284), 7);
    mem.write(0x296, 5); // TIM64T
    mem.tick_riot(64 * 2);
    assert_eq!(mem.read(0x284), 3);
    assert_eq!(mem.read(0x285), 0x00);
    mem.write(0x294, 1);
    mem.tick_riot(1);
    assert_eq!(mem.read(0x284), 0);
    assert_eq!(mem.read(0x285), 0x80); // INSTAT: timer reached zero
    mem.tick_riot(1);
    assert_eq!(mem.read(0x284), 0xFF);
    mem.write(0x282, 0x0B); // SWCHB
    assert_eq!(mem.riot_regs[2], 0x0B);
}

#[test]
fn tia_registers_through_the_bus() {
    let mut mem = Memory::new();
    mem.write(0x09, 0x5A);
    assert_eq!(mem.read(0x09), 0x5A);
    mem.write(0x01, 0x02);
    assert_eq!(mem.read(0x01), 0x80);
    mem.write(0x41, 0x00); // mirror of VBLANK
    assert_eq!(mem.read(0x01), 0x00);
    mem.write(0x02, 0); // WSYNC
    assert!(mem.tia.wsync);
}

#[test]
fn tia_beam_moves() {
    let mut mem = Memory::new();
    mem.tia.tick(100);
    assert_eq!(mem.tia.cycle_in_scanline, 24);
    assert_eq!(mem.tia.scanline, 1);
    mem.tia.tick(SCANLINE_CYCLES * 261);
    assert_eq!(mem.tia.scanline, 0);
    assert_eq!(mem.tia.cycle_in_scanline, 24);
    mem.write(0x00, 0x02); // VSYNC on: the beam returns to the top
    assert_eq!((mem.tia.scanline, mem.tia.cycle_in_scanline), (0, 0));
}

#[test]
fn tia_renders_playfield_row() {
    let mut mem = Memory::new();
    mem.write(0x08, 0x0E); // COLUPF: luminance 7
    mem.write(0x09, 0x00); // COLUBK: black
    mem.write(0x0D, 0xF0); // PF0: the first 16 pixels
    mem.tia.scanline = 40;
    mem.tia.tick(SCANLINE_CYCLES);
    let fb = &mem.tia.framebuffer;
    assert_eq!(&fb[0..4], &[0xEC, 0xEC, 0xEC, 255]);
    assert_eq!(&fb[15 * 4..16 * 4], &[0xEC, 0xEC, 0xEC, 255]);
    assert_eq!(&fb[16 * 4..17 * 4], &[0, 0, 0, 255]);
    // The right half repeats the left.
    assert_eq!(&fb[80 * 4..81 * 4], &[0xEC, 0xEC, 0xEC, 255]);
    assert_eq!(mem.tia.scanline, 41);
}

#[test]
fn gray_ramp() {
    let mut mem = Memory::new();
    let expected = [0x00, 0x40, 0x6C, 0x90, 0xB0, 0xC8, 0xDC, 0xEC];
    for (lum, &g) in expected.iter().enumerate() {
        mem.write(0x09, (lum as u8) << 1);
        assert_eq!(mem.tia.background_rgb(), (g, g, g));
    }
}

#[test]
fn object_positions_and_hmove() {
    let mut mem = Memory::new();
    mem.tia.tick(10);
    mem.write(0x10, 0); // RESP0 at cycle 10
    assert_eq!(mem.tia.hpos_p0, 30);
    mem.write(0x20, 0x70); // HMP0: motion -1
    mem.write(0x2A, 0); // HMOVE
    assert_eq!(mem.tia.hpos_p0, 31);
    mem.write(0x20, 0xF0); // motion +7
    mem.write(0x2A, 0);
    assert_eq!(mem.tia.hpos_p0, 24);
    mem.write(0x2B, 0); // HMCLR
    mem.write(0x2A, 0);
    assert_eq!(mem.tia.hpos_p0, 24);
}

#[test]
fn load_store_and_flags() {
    let (mut cpu, mut mem) = machine(&[0xA9, 0x00, 0x85, 0x80, 0xA2, 0x90, 0x86, 0x81]);
    assert_eq!(cpu.step(&mut mem), 2); // LDA #$00
    assert_eq!(cpu.a, 0);
    assert_ne!(cpu.status & FLAG_Z, 0);
    assert_eq!(cpu.step(&mut mem), 3); // STA $80
    assert_eq!(mem.read(0x80), 0);
    cpu.step(&mut mem); // LDX #$90
    assert_ne!(cpu.status & FLAG_N, 0);
    assert_eq!(cpu.status & FLAG_Z, 0);
    cpu.step(&mut mem); // STX $81
    assert_eq!(mem.read(0x81), 0x90);
    assert_eq!(cpu.pc, 0xF008);
    assert_eq!(cpu.cycles, 2 + 3 + 2 + 3);
}

#[test]
fn adc_and_sbc() {
    // CLC; LDA #$50; ADC #$50; SEC; LDA #$50; SBC #$F0
    let (mut cpu, mut mem) = machine(&[0x18, 0xA9, 0x50, 0x69, 0x50, 0x38, 0xA9, 0x50, 0xE9, 0xF0]);
    cpu.step(&mut mem);
    cpu.step(&mut mem);
    assert_eq!(cpu.step(&mut mem), 2);
    assert_eq!(cpu.a, 0xA0);
    assert_ne!(cpu.status & FLAG_V, 0);
    assert_ne!(cpu.status & FLAG_N, 0);
    assert_eq!(cpu.status & FLAG_C, 0);
    cpu.step(&mut mem);
    cpu.step(&mut mem);
    cpu.step(&mut mem);
    assert_eq!(cpu.a, 0x60);
    assert_eq!(cpu.status & FLAG_C, 0);
    assert_eq!(cpu.status & FLAG_V, 0);
}

#[test]
fn compare_sets_carry_and_zero() {
    // LDA #$40; CMP #$40; CMP #$41
    let (mut cpu, mut mem) = machine(&[0xA9, 0x40, 0xC9, 0x40, 0xC9, 0x41]);
    cpu.step(&mut mem);
    cpu.step(&mut mem);
    assert_ne!(cpu.status & FLAG_C, 0);
    assert_ne!(cpu.status & FLAG_Z, 0);
    cpu.step(&mut mem);
    assert_eq!(cpu.status & FLAG_C, 0);
    assert_eq!(cpu.status & FLAG_Z, 0);
    assert_ne!(cpu.status & FLAG_N, 0);
}

#[test]
fn jsr_then_rts() {
    let mut code = vec![0x20, 0x10, 0xF0]; // JSR $F010
    code.resize(0x10, 0xEA);
    code.push(0x60); // RTS
    let (mut cpu, mut mem) = machine(&code);
    assert_eq!(cpu.step(&mut mem), 6);
    assert_eq!(cpu.pc, 0xF010);
    assert_eq!(cpu.sp, 0xFB);
    assert_eq!(cpu.step(&mut mem), 6);
    assert_eq!(cpu.pc, 0xF003);
    assert_eq!(cpu.sp, 0xFD);
}

#[test]
fn pha_then_pla() {
    // LDA #$37; PHA; LDA #$00; PLA
    let (mut cpu, mut mem) = machine(&[0xA9, 0x37, 0x48, 0xA9, 0x00, 0x68]);
    for _ in 0..4 {
        cpu.step(&mut mem);
    }
    assert_eq!(cpu.a, 0x37);
    assert_eq!(cpu.sp, 0xFD);
    assert_eq!(mem.read(0x1FD), 0x37);
}

#[test]
fn branches() {
    // LDX #$03; DEX; BPL back to DEX
    let (mut cpu, mut mem) = machine(&[0xA2, 0x03, 0xCA, 0x10, 0xFD]);
    cpu.step(&mut mem);
    cpu.step(&mut mem);
    assert_eq!(cpu.step(&mut mem), 4); // taken
    assert_eq!(cpu.pc, 0xF002);
    for _ in 0..5 {
        cpu.step(&mut mem);
    }
    assert_eq!(cpu.x, 0xFF);
    assert_eq!(cpu.step(&mut mem), 3); // not taken
    assert_eq!(cpu.pc, 0xF005);
}

#[test]
fn beq_and_bne_are_relative() {
    // LDA #$01; BNE +$10 (taken); then at $F014: BEQ +$05 (not taken)
    let mut code = vec![0xA9, 0x01, 0xD0, 0x10];
    code.resize(0x14, 0xEA);
    code.extend_from_slice(&[0xF0, 0x05]);
    let (mut cpu, mut mem) = machine(&code);
    cpu.step(&mut mem);
    assert_eq!(cpu.step(&mut mem), 4);
    assert_eq!(cpu.pc, 0xF014);
    assert_eq!(cpu.step(&mut mem), 2);
    assert_eq!(cpu.pc, 0xF016);
}

#[test]
fn bne_goes_where_the_disassembler_shows() {
    // BNE at $F02F with offset $FB: "BNE $F02C".
    let mut code = vec![0xEAu8; 0x31];
    code[0x2F] = 0xD0;
    code[0x30] = 0xFB;
    let (mut cpu, mut mem) = machine(&code);
    cpu.pc = 0xF02F;
    assert_eq!(cpu.step(&mut mem), 4); // Z is clear after reset
    assert_eq!(cpu.pc, 0xF02C);
    let mut direct = Cpu { pc: 0xF030, ..Cpu::new() };
    assert_eq!(direct.execute(0xD0, &mut mem), 4);
    assert_eq!(direct.pc, 0xF02C);
}

#[test]
fn jmp_indirect_page_wrap() {
    let (mut cpu, mut mem) = machine(&[0x6C, 0xFF, 0x00]); // JMP ($00FF)
    mem.write(0xFF, 0x34);
    // The high byte comes from 0x0000 (a TIA register that reads 0), not
    // from 0x0100.
    assert_eq!(cpu.step(&mut mem), 5);
    assert_eq!(cpu.pc, 0x0034);
}

#[test]
fn execute_and_illegal_opcodes() {
    let (mut cpu, mut mem) = machine(&[0x42]);
    assert_eq!(cpu.execute(0xA9, &mut mem), 2); // LDA #$42 from pc
    assert_eq!(cpu.a, 0x42);
    assert_eq!(cpu.pc, 0xF001);
    let before = cpu.clone();
    assert_eq!(cpu.execute(0x02, &mut mem), 1);
    assert_eq!((cpu.a, cpu.pc, cpu.sp, cpu.status), (before.a, before.pc, before.sp, before.status));
}

#[test]
fn wsync_waits_for_line_end() {
    // STA WSYNC; JMP $F000
    let (mut cpu, mut mem) = machine(&[0x85, 0x02, 0x4C, 0x00, 0xF0]);
    let total = cpu.run_for_cycles(&mut mem, 10);
    assert_eq!(total, SCANLINE_CYCLES);
    assert_eq!(mem.tia.cycle_in_scanline, 0);
    assert_eq!(mem.tia.scanline, 1);
    assert!(!mem.tia.wsync);
}

#[test]
fn run_frame_bounds() {
    let (mut cpu, mut mem) = machine(&[0xE8, 0x4C, 0x00, 0xF0]); // INX; JMP $F000
    let total = cpu.run_frame(&mut mem);
    assert!(total >= FRAME_CYCLES && total < FRAME_CYCLES + 7);
    assert_eq!(cpu.cycles, total);
}

#[test]
fn php_then_plp() {
    // SEC; SED; PHP; CLC; CLD; PLP
    let (mut cpu, mut mem) = machine(&[0x38, 0xF8, 0x08, 0x18, 0xD8, 0x28]);
    cpu.step(&mut mem);
    cpu.step(&mut mem);
    let status = cpu.status;
    for _ in 0..4 {
        cpu.step(&mut mem);
    }
    assert_eq!(cpu.status, status | 0x10);
    assert_eq!(cpu.sp, 0xFD);
}

#[test]
fn sbc_matches_adc_of_complement() {
    // SEC; LDA #$50; SBC #$F0   and   SEC; LDA #$50; ADC #$0F
    let (mut a, mut mem_a) = machine(&[0x38, 0xA9, 0x50, 0xE9, 0xF0]);
    let (mut b, mut mem_b) = machine(&[0x38, 0xA9, 0x50, 0x69, 0x0F]);
    for _ in 0..3 {
        a.step(&mut mem_a);
        b.step(&mut mem_b);
    }
    assert_eq!((a.a, a.status), (b.a, b.status));
    assert_eq!(a.a, 0x60);
}

#[test]
fn pc_advances_by_decoded_size() {
    let program: &[u8] = &[
        0xA9, 0x01, // LDA #
        0xA5, 0x80, // LDA zp
        0xB5, 0x80, // LDA zp,X
        0xAD, 0x80, 0x00, // LDA abs
        0xBD, 0x80, 0x00, // LDA abs,X
        0xB9, 0x80, 0x00, // LDA abs,Y
        0xA1, 0x80, // LDA (zp,X)
        0xB1, 0x80, // LDA (zp),Y
        0xB6, 0x80, // LDX zp,Y
        0x0A, // ASL A
        0xE6, 0x80, // INC zp
        0xAA, // TAX
        0x48, // PHA
        0x18, // CLC
        0xEA, // NOP
    ];
    let (mut cpu, mut mem) = machine(program);
    let mut offset = 0usize;
    while offset < program.len() {
        let ins = zae_a2600::disasm::decode(&program[offset..], cpu.pc);
        let pc = cpu.pc;
        cpu.step(&mut mem);
        assert_eq!(cpu.pc, pc + ins.size as u16);
        offset += ins.size as usize;
    }
    assert_eq!(cpu.pc, 0xF000 + program.len() as u16);
}
