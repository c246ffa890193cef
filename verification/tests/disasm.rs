use zae_a2600::disasm::{
    decode, mode_size, op, AddressingMode, ABS, ABX, ABY, ACC, IMM, IMP, IND, IZX, IZY, REL, ZP,
    ZPX, ZPY,
};

fn text(bytes: &[u8], addr: u16) -> String {
    let ins = decode(bytes, addr);
    let mut out = [0u8; 32];
    let n = zae_a2600::disasm::format(&mut out, &ins);
    String::from_utf8(out[..n].to_vec()).unwrap()
}

#[test]
fn test_decode_lda_immediate() {
    let ins = decode(&[0xA9, 0x42], 0xF000);
    assert_eq!(ins.mnemonic, "LDA");
    assert_eq!(ins.mode, IMM);
    assert_eq!(ins.size, 2);
}

#[test]
fn test_decode_jmp_absolute() {
    let ins = decode(&[0x4C, 0x00, 0xF0], 0xF000);
    assert_eq!(ins.mnemonic, "JMP");
    assert_eq!(ins.mode, ABS);
    assert_eq!(ins.size, 3);
}

#[test]
fn test_decode_bne_relative() {
    let ins = decode(&[0xD0, 0xFB], 0xF02F);
    assert_eq!(ins.mnemonic, "BNE");
    assert_eq!(ins.mode, REL);
    let mut out = [0u8; 32];
    let n = zae_a2600::disasm::format(&mut out, &ins);
    assert_eq!(&out[..n], b"BNE $F02C");
}

#[test]
fn test_format_lda_imm() {
    let ins = decode(&[0xA9, 0x42], 0xF000);
    let mut out = [0u8; 32];
    let n = zae_a2600::disasm::format(&mut out, &ins);
    assert_eq!(&out[..n], b"LDA #$42");
}

#[test]
fn test_format_implied() {
    let ins = decode(&[0xEA], 0xF000);
    let mut out = [0u8; 32];
    let n = zae_a2600::disasm::format(&mut out, &ins);
    assert_eq!(&out[..n], b"NOP");
}

#[test]
fn official_opcode_count() {
    let mut official = 0;
    for b in 0..=255u8 {
        let ins = decode(&[b, 0, 0], 0);
        assert_eq!(ins.size, mode_size(ins.mode));
        if ins.mnemonic != "???" {
            official += 1;
        }
    }
    assert_eq!(official, 151);
}

#[test]
fn format_every_mode() {
    assert_eq!(text(&[0x0A], 0), "ASL A");
    assert_eq!(text(&[0xA5, 0x80], 0), "LDA $80");
    assert_eq!(text(&[0xB5, 0x0F], 0), "LDA $0F,X");
    assert_eq!(text(&[0xB6, 0xFF], 0), "LDX $FF,Y");
    assert_eq!(text(&[0x8D, 0x34, 0x12], 0), "STA $1234");
    assert_eq!(text(&[0xBD, 0xCD, 0xAB], 0), "LDA $ABCD,X");
    assert_eq!(text(&[0xB9, 0x00, 0x10], 0), "LDA $1000,Y");
    assert_eq!(text(&[0x6C, 0xFC, 0xFF], 0), "JMP ($FFFC)");
    assert_eq!(text(&[0xA1, 0x20], 0), "LDA ($20,X)");
    assert_eq!(text(&[0xB1, 0x20], 0), "LDA ($20),Y");
    assert_eq!(text(&[0x10, 0x05], 0xF000), "BPL $F007");
    assert_eq!(text(&[0x02], 0), "???");
}

#[test]
fn relative_target_wraps() {
    // Backwards past address zero and forwards past 0xFFFF.
    assert_eq!(text(&[0x30, 0x80], 0x0010), "BMI $FF92");
    assert_eq!(text(&[0x90, 0x7F], 0xFFF0), "BCC $0071");
}

#[test]
fn short_buffer_reads_zeros() {
    let ins = decode(&[0xAD], 0x1234);
    assert_eq!(ins.addr, 0x1234);
    assert_eq!(ins.bytes, [0xAD, 0, 0]);
    assert_eq!(ins.size, 3);
    let empty = decode(&[], 0);
    assert_eq!(empty.bytes, [0, 0, 0]);
    assert_eq!(empty.mnemonic, "BRK");
    assert_eq!(empty.mode, IMP);
}

#[test]
fn format_cuts_at_buffer_end() {
    let ins = decode(&[0xA9, 0x42], 0xF000);
    let mut out = [0xEEu8; 4];
    let n = zae_a2600::disasm::format(&mut out, &ins);
    assert_eq!(n, 4);
    assert_eq!(&out, b"LDA ");
    let mut none: [u8; 0] = [];
    assert_eq!(zae_a2600::disasm::format(&mut none, &ins), 0);
}

#[test]
fn format_leaves_rest_of_buffer() {
    let ins = decode(&[0xEA], 0);
    let mut out = [b'x'; 6];
    let n = zae_a2600::disasm::format(&mut out, &ins);
    assert_eq!(n, 3);
    assert_eq!(&out, b"NOPxxx");
}

#[test]
fn mode_sizes() {
    assert_eq!(mode_size(IMP), 1);
    assert_eq!(mode_size(ACC), 1);
    for m in [IMM, ZP, ZPX, ZPY, IZX, IZY, REL] {
        assert_eq!(mode_size(m), 2);
    }
    for m in [ABS, ABX, ABY, IND] {
        assert_eq!(mode_size(m), 3);
    }
}

#[test]
fn op_builds_entry() {
    let e = op("LDA", AddressingMode::Imm);
    assert_eq!(e.mnemonic, "LDA");
    assert_eq!(e.mode, IMM);
}
