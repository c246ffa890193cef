//! Disassembler for the MOS 6502: the official instruction set as a table
//! from opcode to mnemonic and addressing mode, decoding of an instruction
//! from its bytes, and formatting into a caller's buffer without
//! allocation.
use vstd::prelude::*;
use vstd::string::StringSliceAdditionalSpecFns;

verus! {

#[derive(Debug, Clone, Copy, PartialEq, Eq, Structural)]
pub enum AddressingMode {
    /// Implied: 1 byte.
    Imp,
    /// Accumulator: 1 byte.
    Acc,
    /// Immediate: 2 bytes, `#$XX`.
    Imm,
    /// Zero page: 2 bytes, `$XX`.
    Zp,
    /// Zero page indexed by X: 2 bytes, `$XX,X`.
    ZpX,
    /// Zero page indexed by Y: 2 bytes, `$XX,Y`.
    ZpY,
    /// Absolute: 3 bytes, `$XXXX`.
    Abs,
    /// Absolute indexed by X: 3 bytes, `$XXXX,X`.
    AbsX,
    /// Absolute indexed by Y: 3 bytes, `$XXXX,Y`.
    AbsY,
    /// Indirect (JMP only): 3 bytes, `($XXXX)`.
    Ind,
    /// Indexed indirect: 2 bytes, `($XX,X)`.
    IndX,
    /// Indirect indexed: 2 bytes, `($XX),Y`.
    IndY,
    /// Relative (branches): 2 bytes.
    Rel,
}

pub const IMP: AddressingMode = AddressingMode::Imp;
pub const ACC: AddressingMode = AddressingMode::Acc;
pub const IMM: AddressingMode = AddressingMode::Imm;
pub const ZP: AddressingMode = AddressingMode::Zp;
pub const ZPX: AddressingMode = AddressingMode::ZpX;
pub const ZPY: AddressingMode = AddressingMode::ZpY;
pub const ABS: AddressingMode = AddressingMode::Abs;
pub const ABX: AddressingMode = AddressingMode::AbsX;
pub const ABY: AddressingMode = AddressingMode::AbsY;
pub const IND: AddressingMode = AddressingMode::Ind;
pub const IZX: AddressingMode = AddressingMode::IndX;
pub const IZY: AddressingMode = AddressingMode::IndY;
pub const REL: AddressingMode = AddressingMode::Rel;

/// The 56 official 6502 mnemonics, and `Illegal` for the opcodes outside
/// the official set.
#[derive(Debug, Clone, Copy, PartialEq, Eq, Structural)]
pub enum Mnemonic {
    Adc,
    And,
    Asl,
    Bcc,
    Bcs,
    Beq,
    Bit,
    Bmi,
    Bne,
    Bpl,
    Brk,
    Bvc,
    Bvs,
    Clc,
    Cld,
    Cli,
    Clv,
    Cmp,
    Cpx,
    Cpy,
    Dec,
    Dex,
    Dey,
    Eor,
    Inc,
    Inx,
    Iny,
    Jmp,
    Jsr,
    Lda,
    Ldx,
    Ldy,
    Lsr,
    Nop,
    Ora,
    Pha,
    Php,
    Pla,
    Plp,
    Rol,
    Ror,
    Rti,
    Rts,
    Sbc,
    Sec,
    Sed,
    Sei,
    Sta,
    Stx,
    Sty,
    Tax,
    Tay,
    Tsx,
    Txa,
    Txs,
    Tya,
    Illegal,
}

/// How a mnemonic is written; illegal opcodes are written "???".
pub open spec fn mnemonic_text(m: Mnemonic) -> Seq<char> {
    match m {
        Mnemonic::Adc => "ADC"@,
        Mnemonic::And => "AND"@,
        Mnemonic::Asl => "ASL"@,
        Mnemonic::Bcc => "BCC"@,
        Mnemonic::Bcs => "BCS"@,
        Mnemonic::Beq => "BEQ"@,
        Mnemonic::Bit => "BIT"@,
        Mnemonic::Bmi => "BMI"@,
        Mnemonic::Bne => "BNE"@,
        Mnemonic::Bpl => "BPL"@,
        Mnemonic::Brk => "BRK"@,
        Mnemonic::Bvc => "BVC"@,
        Mnemonic::Bvs => "BVS"@,
        Mnemonic::Clc => "CLC"@,
        Mnemonic::Cld => "CLD"@,
        Mnemonic::Cli => "CLI"@,
        Mnemonic::Clv => "CLV"@,
        Mnemonic::Cmp => "CMP"@,
        Mnemonic::Cpx => "CPX"@,
        Mnemonic::Cpy => "CPY"@,
        Mnemonic::Dec => "DEC"@,
        Mnemonic::Dex => "DEX"@,
        Mnemonic::Dey => "DEY"@,
        Mnemonic::Eor => "EOR"@,
        Mnemonic::Inc => "INC"@,
        Mnemonic::Inx => "INX"@,
        Mnemonic::Iny => "INY"@,
        Mnemonic::Jmp => "JMP"@,
        Mnemonic::Jsr => "JSR"@,
        Mnemonic::Lda => "LDA"@,
        Mnemonic::Ldx => "LDX"@,
        Mnemonic::Ldy => "LDY"@,
        Mnemonic::Lsr => "LSR"@,
        Mnemonic::Nop => "NOP"@,
        Mnemonic::Ora => "ORA"@,
        Mnemonic::Pha => "PHA"@,
        Mnemonic::Php => "PHP"@,
        Mnemonic::Pla => "PLA"@,
        Mnemonic::Plp => "PLP"@,
        Mnemonic::Rol => "ROL"@,
        Mnemonic::Ror => "ROR"@,
        Mnemonic::Rti => "RTI"@,
        Mnemonic::Rts => "RTS"@,
        Mnemonic::Sbc => "SBC"@,
        Mnemonic::Sec => "SEC"@,
        Mnemonic::Sed => "SED"@,
        Mnemonic::Sei => "SEI"@,
        Mnemonic::Sta => "STA"@,
        Mnemonic::Stx => "STX"@,
        Mnemonic::Sty => "STY"@,
        Mnemonic::Tax => "TAX"@,
        Mnemonic::Tay => "TAY"@,
        Mnemonic::Tsx => "TSX"@,
        Mnemonic::Txa => "TXA"@,
        Mnemonic::Txs => "TXS"@,
        Mnemonic::Tya => "TYA"@,
        Mnemonic::Illegal => "???"@,
    }
}

/// Opcodes of the form aaabbb01: eight operations over eight addressing
/// modes (STA has no immediate form).
pub open spec fn group_one_entry(aaa: int, bbb: int) -> (Mnemonic, AddressingMode) {
    let m = if aaa == 0 {
        Mnemonic::Ora
    } else if aaa == 1 {
        Mnemonic::And
    } else if aaa == 2 {
        Mnemonic::Eor
    } else if aaa == 3 {
        Mnemonic::Adc
    } else if aaa == 4 {
        Mnemonic::Sta
    } else if aaa == 5 {
        Mnemonic::Lda
    } else if aaa == 6 {
        Mnemonic::Cmp
    } else {
        Mnemonic::Sbc
    };
    let mode = if bbb == 0 {
        AddressingMode::IndX
    } else if bbb == 1 {
        AddressingMode::Zp
    } else if bbb == 2 {
        AddressingMode::Imm
    } else if bbb == 3 {
        AddressingMode::Abs
    } else if bbb == 4 {
        AddressingMode::IndY
    } else if bbb == 5 {
        AddressingMode::ZpX
    } else if bbb == 6 {
        AddressingMode::AbsY
    } else {
        AddressingMode::AbsX
    };
    if aaa == 4 && bbb == 2 {
        (Mnemonic::Illegal, AddressingMode::Imm)
    } else {
        (m, mode)
    }
}

/// Opcodes of the form aaabbb10: shifts, rotates, increments and the X
/// register's loads and stores, with the register transfers and NOP
/// filling the accumulator column of the upper half.
pub open spec fn group_two_entry(aaa: int, bbb: int) -> (Mnemonic, AddressingMode) {
    let m = if aaa == 0 {
        Mnemonic::Asl
    } else if aaa == 1 {
        Mnemonic::Rol
    } else if aaa == 2 {
        Mnemonic::Lsr
    } else if aaa == 3 {
        Mnemonic::Ror
    } else if aaa == 4 {
        Mnemonic::Stx
    } else if aaa == 5 {
        Mnemonic::Ldx
    } else if aaa == 6 {
        Mnemonic::Dec
    } else {
        Mnemonic::Inc
    };
    let illegal = (Mnemonic::Illegal, AddressingMode::Imp);
    if bbb == 0 {
        if aaa == 5 { (Mnemonic::Ldx, AddressingMode::Imm) } else { illegal }
    } else if bbb == 1 {
        (m, AddressingMode::Zp)
    } else if bbb == 2 {
        if aaa < 4 {
            (m, AddressingMode::Acc)
        } else if aaa == 4 {
            (Mnemonic::Txa, AddressingMode::Imp)
        } else if aaa == 5 {
            (Mnemonic::Tax, AddressingMode::Imp)
        } else if aaa == 6 {
            (Mnemonic::Dex, AddressingMode::Imp)
        } else {
            (Mnemonic::Nop, AddressingMode::Imp)
        }
    } else if bbb == 3 {
        (m, AddressingMode::Abs)
    } else if bbb == 4 {
        illegal
    } else if bbb == 5 {
        (m, if aaa == 4 || aaa == 5 { AddressingMode::ZpY } else { AddressingMode::ZpX })
    } else if bbb == 6 {
        if aaa == 4 {
            (Mnemonic::Txs, AddressingMode::Imp)
        } else if aaa == 5 {
            (Mnemonic::Tsx, AddressingMode::Imp)
        } else {
            illegal
        }
    } else {
        if aaa == 4 {
            illegal
        } else if aaa == 5 {
            (Mnemonic::Ldx, AddressingMode::AbsY)
        } else {
            (m, AddressingMode::AbsX)
        }
    }
}

/// Opcodes of the form aaabbb00: control flow, branches, flag and stack
/// operations, and the Y register's loads, stores and compares.
pub open spec fn group_zero_entry(aaa: int, bbb: int) -> (Mnemonic, AddressingMode) {
    let illegal = (Mnemonic::Illegal, AddressingMode::Imp);
    if bbb == 0 {
        if aaa == 0 {
            (Mnemonic::Brk, AddressingMode::Imp)
        } else if aaa == 1 {
            (Mnemonic::Jsr, AddressingMode::Abs)
        } else if aaa == 2 {
            (Mnemonic::Rti, AddressingMode::Imp)
        } else if aaa == 3 {
            (Mnemonic::Rts, AddressingMode::Imp)
        } else if aaa == 4 {
            illegal
        } else if aaa == 5 {
            (Mnemonic::Ldy, AddressingMode::Imm)
        } else if aaa == 6 {
            (Mnemonic::Cpy, AddressingMode::Imm)
        } else {
            (Mnemonic::Cpx, AddressingMode::Imm)
        }
    } else if bbb == 1 || bbb == 3 {
        let mode = if bbb == 1 { AddressingMode::Zp } else { AddressingMode::Abs };
        if aaa == 1 {
            (Mnemonic::Bit, mode)
        } else if aaa == 2 && bbb == 3 {
            (Mnemonic::Jmp, AddressingMode::Abs)
        } else if aaa == 3 && bbb == 3 {
            (Mnemonic::Jmp, AddressingMode::Ind)
        } else if aaa == 4 {
            (Mnemonic::Sty, mode)
        } else if aaa == 5 {
            (Mnemonic::Ldy, mode)
        } else if aaa == 6 {
            (Mnemonic::Cpy, mode)
        } else if aaa == 7 {
            (Mnemonic::Cpx, mode)
        } else {
            illegal
        }
    } else if bbb == 2 {
        let m = if aaa == 0 {
            Mnemonic::Php
        } else if aaa == 1 {
            Mnemonic::Plp
        } else if aaa == 2 {
            Mnemonic::Pha
        } else if aaa == 3 {
            Mnemonic::Pla
        } else if aaa == 4 {
            Mnemonic::Dey
        } else if aaa == 5 {
            Mnemonic::Tay
        } else if aaa == 6 {
            Mnemonic::Iny
        } else {
            Mnemonic::Inx
        };
        (m, AddressingMode::Imp)
    } else if bbb == 4 {
        let m = if aaa == 0 {
            Mnemonic::Bpl
        } else if aaa == 1 {
            Mnemonic::Bmi
        } else if aaa == 2 {
            Mnemonic::Bvc
        } else if aaa == 3 {
            Mnemonic::Bvs
        } else if aaa == 4 {
            Mnemonic::Bcc
        } else if aaa == 5 {
            Mnemonic::Bcs
        } else if aaa == 6 {
            Mnemonic::Bne
        } else {
            Mnemonic::Beq
        };
        (m, AddressingMode::Rel)
    } else if bbb == 5 {
        if aaa == 4 {
            (Mnemonic::Sty, AddressingMode::ZpX)
        } else if aaa == 5 {
            (Mnemonic::Ldy, AddressingMode::ZpX)
        } else {
            illegal
        }
    } else if bbb == 6 {
        let m = if aaa == 0 {
            Mnemonic::Clc
        } else if aaa == 1 {
            Mnemonic::Sec
        } else if aaa == 2 {
            Mnemonic::Cli
        } else if aaa == 3 {
            Mnemonic::Sei
        } else if aaa == 4 {
            Mnemonic::Tya
        } else if aaa == 5 {
            Mnemonic::Clv
        } else if aaa == 6 {
            Mnemonic::Cld
        } else {
            Mnemonic::Sed
        };
        (m, AddressingMode::Imp)
    } else {
        if aaa == 5 {
            (Mnemonic::Ldy, AddressingMode::AbsX)
        } else {
            illegal
        }
    }
}

/// The official 6502 instruction set: the mnemonic and addressing mode of
/// each opcode, read from its bit fields aaabbbcc.
pub open spec fn table_entry(opcode: u8) -> (Mnemonic, AddressingMode) {
    let cc = opcode as int % 4;
    let bbb = (opcode as int / 4) % 8;
    let aaa = opcode as int / 32;
    if cc == 0 {
        group_zero_entry(aaa, bbb)
    } else if cc == 1 {
        group_one_entry(aaa, bbb)
    } else if cc == 2 {
        group_two_entry(aaa, bbb)
    } else {
        (Mnemonic::Illegal, AddressingMode::Imp)
    }
}

pub open spec fn table_mnemonic(opcode: u8) -> Mnemonic {
    table_entry(opcode).0
}

pub open spec fn table_mode(opcode: u8) -> AddressingMode {
    table_entry(opcode).1
}

/// Bytes that an instruction in `mode` occupies, the opcode included.
pub open spec fn spec_mode_size(mode: AddressingMode) -> u8 {
    match mode {
        AddressingMode::Imp | AddressingMode::Acc => 1,
        AddressingMode::Imm | AddressingMode::Zp | AddressingMode::ZpX | AddressingMode::ZpY
        | AddressingMode::IndX | AddressingMode::IndY | AddressingMode::Rel => 2,
        AddressingMode::Abs | AddressingMode::AbsX | AddressingMode::AbsY | AddressingMode::Ind => 3,
    }
}

/// Number of official opcodes below `n`.
pub open spec fn official_count(n: nat) -> nat
    decreases n,
{
    if n == 0 {
        0
    } else {
        official_count((n - 1) as nat) + (if table_mnemonic((n - 1) as u8) != Mnemonic::Illegal {
            1nat
        } else {
            0nat
        })
    }
}

/// The table covers the full official instruction set: 151 opcodes.
#[verifier::spinoff_prover]
#[verifier::rlimit(60)]
pub proof fn lemma_official_opcodes()
    ensures
        official_count(256) == 151,
{
    reveal_with_fuel(official_count, 17);
    assert(official_count(16) == 9);
    assert(official_count(32) == 17);
    assert(official_count(48) == 28);
    assert(official_count(64) == 36);
    assert(official_count(80) == 46);
    assert(official_count(96) == 54);
    assert(official_count(112) == 64);
    assert(official_count(128) == 72);
    assert(official_count(144) == 81);
    assert(official_count(160) == 90);
    assert(official_count(176) == 102);
    assert(official_count(192) == 113);
    assert(official_count(208) == 124);
    assert(official_count(224) == 132);
    assert(official_count(240) == 143);
}

pub struct OpEntry {
    pub mnemonic: &'static str,
    pub mode: AddressingMode,
}

pub fn op(m: &'static str, mode: AddressingMode) -> (e: OpEntry)
    ensures
        e.mnemonic == m,
        e.mode == mode,
{
    OpEntry { mnemonic: m, mode }
}

/// The opcode table: mnemonic and addressing mode of each of the 256
/// opcodes, "???" for those outside the official set.
pub fn opcode_entry(opcode: u8) -> (e: OpEntry)
    ensures
        e.mnemonic@ == mnemonic_text(table_mnemonic(opcode)),
        e.mode == table_mode(opcode),
{
    match opcode / 16 {
        0 => table_row_0(opcode),
        1 => table_row_1(opcode),
        2 => table_row_2(opcode),
        3 => table_row_3(opcode),
        4 => table_row_4(opcode),
        5 => table_row_5(opcode),
        6 => table_row_6(opcode),
        7 => table_row_7(opcode),
        8 => table_row_8(opcode),
        9 => table_row_9(opcode),
        10 => table_row_a(opcode),
        11 => table_row_b(opcode),
        12 => table_row_c(opcode),
        13 => table_row_d(opcode),
        14 => table_row_e(opcode),
        _ => table_row_f(opcode),
    }
}

/// Opcodes 0x00..=0x0F of the table.
fn table_row_0(opcode: u8) -> (e: OpEntry)
    requires
        opcode / 16 == 0,
    ensures
        e.mnemonic@ == mnemonic_text(table_mnemonic(opcode)),
        e.mode == table_mode(opcode),
{
    match opcode {
        0x00 => op("BRK", IMP),
        0x01 => op("ORA", IZX),
        0x02 => op("???", IMP),
        0x03 => op("???", IMP),
        0x04 => op("???", IMP),
        0x05 => op("ORA", ZP),
        0x06 => op("ASL", ZP),
        0x07 => op("???", IMP),
        0x08 => op("PHP", IMP),
        0x09 => op("ORA", IMM),
        0x0A => op("ASL", ACC),
        0x0B => op("???", IMP),
        0x0C => op("???", IMP),
        0x0D => op("ORA", ABS),
        0x0E => op("ASL", ABS),
        _ => op("???", IMP),
    }
}

/// Opcodes 0x10..=0x1F of the table.
fn table_row_1(opcode: u8) -> (e: OpEntry)
    requires
        opcode / 16 == 1,
    ensures
        e.mnemonic@ == mnemonic_text(table_mnemonic(opcode)),
        e.mode == table_mode(opcode),
{
    match opcode {
        0x10 => op("BPL", REL),
        0x11 => op("ORA", IZY),
        0x12 => op("???", IMP),
        0x13 => op("???", IMP),
        0x14 => op("???", IMP),
        0x15 => op("ORA", ZPX),
        0x16 => op("ASL", ZPX),
        0x17 => op("???", IMP),
        0x18 => op("CLC", IMP),
        0x19 => op("ORA", ABY),
        0x1A => op("???", IMP),
        0x1B => op("???", IMP),
        0x1C => op("???", IMP),
        0x1D => op("ORA", ABX),
        0x1E => op("ASL", ABX),
        _ => op("???", IMP),
    }
}

/// Opcodes 0x20..=0x2F of the table.
fn table_row_2(opcode: u8) -> (e: OpEntry)
    requires
        opcode / 16 == 2,
    ensures
        e.mnemonic@ == mnemonic_text(table_mnemonic(opcode)),
        e.mode == table_mode(opcode),
{
    match opcode {
        0x20 => op("JSR", ABS),
        0x21 => op("AND", IZX),
        0x22 => op("???", IMP),
        0x23 => op("???", IMP),
        0x24 => op("BIT", ZP),
        0x25 => op("AND", ZP),
        0x26 => op("ROL", ZP),
        0x27 => op("???", IMP),
        0x28 => op("PLP", IMP),
        0x29 => op("AND", IMM),
        0x2A => op("ROL", ACC),
        0x2B => op("???", IMP),
        0x2C => op("BIT", ABS),
        0x2D => op("AND", ABS),
        0x2E => op("ROL", ABS),
        _ => op("???", IMP),
    }
}

/// Opcodes 0x30..=0x3F of the table.
fn table_row_3(opcode: u8) -> (e: OpEntry)
    requires
        opcode / 16 == 3,
    ensures
        e.mnemonic@ == mnemonic_text(table_mnemonic(opcode)),
        e.mode == table_mode(opcode),
{
    match opcode {
        0x30 => op("BMI", REL),
        0x31 => op("AND", IZY),
        0x32 => op("???", IMP),
        0x33 => op("???", IMP),
        0x34 => op("???", IMP),
        0x35 => op("AND", ZPX),
        0x36 => op("ROL", ZPX),
        0x37 => op("???", IMP),
        0x38 => op("SEC", IMP),
        0x39 => op("AND", ABY),
        0x3A => op("???", IMP),
        0x3B => op("???", IMP),
        0x3C => op("???", IMP),
        0x3D => op("AND", ABX),
        0x3E => op("ROL", ABX),
        _ => op("???", IMP),
    }
}

/// Opcodes 0x40..=0x4F of the table.
fn table_row_4(opcode: u8) -> (e: OpEntry)
    requires
        opcode / 16 == 4,
    ensures
        e.mnemonic@ == mnemonic_text(table_mnemonic(opcode)),
        e.mode == table_mode(opcode),
{
    match opcode {
        0x40 => op("RTI", IMP),
        0x41 => op("EOR", IZX),
        0x42 => op("???", IMP),
        0x43 => op("???", IMP),
        0x44 => op("???", IMP),
        0x45 => op("EOR", ZP),
        0x46 => op("LSR", ZP),
        0x47 => op("???", IMP),
        0x48 => op("PHA", IMP),
        0x49 => op("EOR", IMM),
        0x4A => op("LSR", ACC),
        0x4B => op("???", IMP),
        0x4C => op("JMP", ABS),
        0x4D => op("EOR", ABS),
        0x4E => op("LSR", ABS),
        _ => op("???", IMP),
    }
}

/// Opcodes 0x50..=0x5F of the table.
fn table_row_5(opcode: u8) -> (e: OpEntry)
    requires
        opcode / 16 == 5,
    ensures
        e.mnemonic@ == mnemonic_text(table_mnemonic(opcode)),
        e.mode == table_mode(opcode),
{
    match opcode {
        0x50 => op("BVC", REL),
        0x51 => op("EOR", IZY),
        0x52 => op("???", IMP),
        0x53 => op("???", IMP),
        0x54 => op("???", IMP),
        0x55 => op("EOR", ZPX),
        0x56 => op("LSR", ZPX),
        0x57 => op("???", IMP),
        0x58 => op("CLI", IMP),
        0x59 => op("EOR", ABY),
        0x5A => op("???", IMP),
        0x5B => op("???", IMP),
        0x5C => op("???", IMP),
        0x5D => op("EOR", ABX),
        0x5E => op("LSR", ABX),
        _ => op("???", IMP),
    }
}

/// Opcodes 0x60..=0x6F of the table.
fn table_row_6(opcode: u8) -> (e: OpEntry)
    requires
        opcode / 16 == 6,
    ensures
        e.mnemonic@ == mnemonic_text(table_mnemonic(opcode)),
        e.mode == table_mode(opcode),
{
    match opcode {
        0x60 => op("RTS", IMP),
        0x61 => op("ADC", IZX),
        0x62 => op("???", IMP),
        0x63 => op("???", IMP),
        0x64 => op("???", IMP),
        0x65 => op("ADC", ZP),
        0x66 => op("ROR", ZP),
        0x67 => op("???", IMP),
        0x68 => op("PLA", IMP),
        0x69 => op("ADC", IMM),
        0x6A => op("ROR", ACC),
        0x6B => op("???", IMP),
        0x6C => op("JMP", IND),
        0x6D => op("ADC", ABS),
        0x6E => op("ROR", ABS),
        _ => op("???", IMP),
    }
}

/// Opcodes 0x70..=0x7F of the table.
fn table_row_7(opcode: u8) -> (e: OpEntry)
    requires
        opcode / 16 == 7,
    ensures
        e.mnemonic@ == mnemonic_text(table_mnemonic(opcode)),
        e.mode == table_mode(opcode),
{
    match opcode {
        0x70 => op("BVS", REL),
        0x71 => op("ADC", IZY),
        0x72 => op("???", IMP),
        0x73 => op("???", IMP),
        0x74 => op("???", IMP),
        0x75 => op("ADC", ZPX),
        0x76 => op("ROR", ZPX),
        0x77 => op("???", IMP),
        0x78 => op("SEI", IMP),
        0x79 => op("ADC", ABY),
        0x7A => op("???", IMP),
        0x7B => op("???", IMP),
        0x7C => op("???", IMP),
        0x7D => op("ADC", ABX),
        0x7E => op("ROR", ABX),
        _ => op("???", IMP),
    }
}

/// Opcodes 0x80..=0x8F of the table.
fn table_row_8(opcode: u8) -> (e: OpEntry)
    requires
        opcode / 16 == 8,
    ensures
        e.mnemonic@ == mnemonic_text(table_mnemonic(opcode)),
        e.mode == table_mode(opcode),
{
    match opcode {
        0x80 => op("???", IMP),
        0x81 => op("STA", IZX),
        0x82 => op("???", IMP),
        0x83 => op("???", IMP),
        0x84 => op("STY", ZP),
        0x85 => op("STA", ZP),
        0x86 => op("STX", ZP),
        0x87 => op("???", IMP),
        0x88 => op("DEY", IMP),
        0x89 => op("???", IMM),
        0x8A => op("TXA", IMP),
        0x8B => op("???", IMP),
        0x8C => op("STY", ABS),
        0x8D => op("STA", ABS),
        0x8E => op("STX", ABS),
        _ => op("???", IMP),
    }
}

/// Opcodes 0x90..=0x9F of the table.
fn table_row_9(opcode: u8) -> (e: OpEntry)
    requires
        opcode / 16 == 9,
    ensures
        e.mnemonic@ == mnemonic_text(table_mnemonic(opcode)),
        e.mode == table_mode(opcode),
{
    match opcode {
        0x90 => op("BCC", REL),
        0x91 => op("STA", IZY),
        0x92 => op("???", IMP),
        0x93 => op("???", IMP),
        0x94 => op("STY", ZPX),
        0x95 => op("STA", ZPX),
        0x96 => op("STX", ZPY),
        0x97 => op("???", IMP),
        0x98 => op("TYA", IMP),
        0x99 => op("STA", ABY),
        0x9A => op("TXS", IMP),
        0x9B => op("???", IMP),
        0x9C => op("???", IMP),
        0x9D => op("STA", ABX),
        0x9E => op("???", IMP),
        _ => op("???", IMP),
    }
}

/// Opcodes 0xA0..=0xAF of the table.
fn table_row_a(opcode: u8) -> (e: OpEntry)
    requires
        opcode / 16 == 10,
    ensures
        e.mnemonic@ == mnemonic_text(table_mnemonic(opcode)),
        e.mode == table_mode(opcode),
{
    match opcode {
        0xA0 => op("LDY", IMM),
        0xA1 => op("LDA", IZX),
        0xA2 => op("LDX", IMM),
        0xA3 => op("???", IMP),
        0xA4 => op("LDY", ZP),
        0xA5 => op("LDA", ZP),
        0xA6 => op("LDX", ZP),
        0xA7 => op("???", IMP),
        0xA8 => op("TAY", IMP),
        0xA9 => op("LDA", IMM),
        0xAA => op("TAX", IMP),
        0xAB => op("???", IMP),
        0xAC => op("LDY", ABS),
        0xAD => op("LDA", ABS),
        0xAE => op("LDX", ABS),
        _ => op("???", IMP),
    }
}

/// Opcodes 0xB0..=0xBF of the table.
fn table_row_b(opcode: u8) -> (e: OpEntry)
    requires
        opcode / 16 == 11,
    ensures
        e.mnemonic@ == mnemonic_text(table_mnemonic(opcode)),
        e.mode == table_mode(opcode),
{
    match opcode {
        0xB0 => op("BCS", REL),
        0xB1 => op("LDA", IZY),
        0xB2 => op("???", IMP),
        0xB3 => op("???", IMP),
        0xB4 => op("LDY", ZPX),
        0xB5 => op("LDA", ZPX),
        0xB6 => op("LDX", ZPY),
        0xB7 => op("???", IMP),
        0xB8 => op("CLV", IMP),
        0xB9 => op("LDA", ABY),
        0xBA => op("TSX", IMP),
        0xBB => op("???", IMP),
        0xBC => op("LDY", ABX),
        0xBD => op("LDA", ABX),
        0xBE => op("LDX", ABY),
        _ => op("???", IMP),
    }
}

/// Opcodes 0xC0..=0xCF of the table.
fn table_row_c(opcode: u8) -> (e: OpEntry)
    requires
        opcode / 16 == 12,
    ensures
        e.mnemonic@ == mnemonic_text(table_mnemonic(opcode)),
        e.mode == table_mode(opcode),
{
    match opcode {
        0xC0 => op("CPY", IMM),
        0xC1 => op("CMP", IZX),
        0xC2 => op("???", IMP),
        0xC3 => op("???", IMP),
        0xC4 => op("CPY", ZP),
        0xC5 => op("CMP", ZP),
        0xC6 => op("DEC", ZP),
        0xC7 => op("???", IMP),
        0xC8 => op("INY", IMP),
        0xC9 => op("CMP", IMM),
        0xCA => op("DEX", IMP),
        0xCB => op("???", IMP),
        0xCC => op("CPY", ABS),
        0xCD => op("CMP", ABS),
        0xCE => op("DEC", ABS),
        _ => op("???", IMP),
    }
}

/// Opcodes 0xD0..=0xDF of the table.
fn table_row_d(opcode: u8) -> (e: OpEntry)
    requires
        opcode / 16 == 13,
    ensures
        e.mnemonic@ == mnemonic_text(table_mnemonic(opcode)),
        e.mode == table_mode(opcode),
{
    match opcode {
        0xD0 => op("BNE", REL),
        0xD1 => op("CMP", IZY),
        0xD2 => op("???", IMP),
        0xD3 => op("???", IMP),
        0xD4 => op("???", IMP),
        0xD5 => op("CMP", ZPX),
        0xD6 => op("DEC", ZPX),
        0xD7 => op("???", IMP),
        0xD8 => op("CLD", IMP),
        0xD9 => op("CMP", ABY),
        0xDA => op("???", IMP),
        0xDB => op("???", IMP),
        0xDC => op("???", IMP),
        0xDD => op("CMP", ABX),
        0xDE => op("DEC", ABX),
        _ => op("???", IMP),
    }
}

/// Opcodes 0xE0..=0xEF of the table.
fn table_row_e(opcode: u8) -> (e: OpEntry)
    requires
        opcode / 16 == 14,
    ensures
        e.mnemonic@ == mnemonic_text(table_mnemonic(opcode)),
        e.mode == table_mode(opcode),
{
    match opcode {
        0xE0 => op("CPX", IMM),
        0xE1 => op("SBC", IZX),
        0xE2 => op("???", IMP),
        0xE3 => op("???", IMP),
        0xE4 => op("CPX", ZP),
        0xE5 => op("SBC", ZP),
        0xE6 => op("INC", ZP),
        0xE7 => op("???", IMP),
        0xE8 => op("INX", IMP),
        0xE9 => op("SBC", IMM),
        0xEA => op("NOP", IMP),
        0xEB => op("???", IMP),
        0xEC => op("CPX", ABS),
        0xED => op("SBC", ABS),
        0xEE => op("INC", ABS),
        _ => op("???", IMP),
    }
}

/// Opcodes 0xF0..=0xFF of the table.
fn table_row_f(opcode: u8) -> (e: OpEntry)
    requires
        opcode / 16 == 15,
    ensures
        e.mnemonic@ == mnemonic_text(table_mnemonic(opcode)),
        e.mode == table_mode(opcode),
{
    match opcode {
        0xF0 => op("BEQ", REL),
        0xF1 => op("SBC", IZY),
        0xF2 => op("???", IMP),
        0xF3 => op("???", IMP),
        0xF4 => op("???", IMP),
        0xF5 => op("SBC", ZPX),
        0xF6 => op("INC", ZPX),
        0xF7 => op("???", IMP),
        0xF8 => op("SED", IMP),
        0xF9 => op("SBC", ABY),
        0xFA => op("???", IMP),
        0xFB => op("???", IMP),
        0xFC => op("???", IMP),
        0xFD => op("SBC", ABX),
        0xFE => op("INC", ABX),
        _ => op("???", IMP),
    }
}

#[derive(Debug, Clone, Copy)]
pub struct Instruction {
    pub addr: u16,
    pub bytes: [u8; 3],
    pub size: u8,
    pub mnemonic: &'static str,
    pub mode: AddressingMode,
}

pub fn mode_size(mode: AddressingMode) -> (n: u8)
    ensures
        n == spec_mode_size(mode),
{
    match mode {
        AddressingMode::Imp | AddressingMode::Acc => 1,
        AddressingMode::Imm | AddressingMode::Zp | AddressingMode::ZpX | AddressingMode::ZpY
        | AddressingMode::IndX | AddressingMode::IndY | AddressingMode::Rel => 2,
        AddressingMode::Abs | AddressingMode::AbsX | AddressingMode::AbsY | AddressingMode::Ind => 3,
    }
}

/// Byte `i` of `buf`, or 0 past its end.
pub open spec fn byte_or_zero(buf: Seq<u8>, i: int) -> u8 {
    if i < buf.len() {
        buf[i]
    } else {
        0
    }
}

/// Decodes the instruction whose bytes start `buf` and which sits at
/// `addr`; bytes missing from a short buffer read as zero.
pub fn decode(buf: &[u8], addr: u16) -> (ins: Instruction)
    ensures
        ins.addr == addr,
        ins.bytes@ == seq![byte_or_zero(buf@, 0), byte_or_zero(buf@, 1), byte_or_zero(buf@, 2)],
        ins.mnemonic@ == mnemonic_text(table_mnemonic(ins.bytes[0])),
        ins.mode == table_mode(ins.bytes[0]),
        ins.size == spec_mode_size(ins.mode),
{
    let b0 = if buf.len() > 0 { buf[0] } else { 0 };
    let b1 = if buf.len() > 1 { buf[1] } else { 0 };
    let b2 = if buf.len() > 2 { buf[2] } else { 0 };
    let entry = opcode_entry(b0);
    let ins = Instruction {
        addr,
        bytes: [b0, b1, b2],
        size: mode_size(entry.mode),
        mnemonic: entry.mnemonic,
        mode: entry.mode,
    };
    assert(ins.bytes@ =~= seq![b0, b1, b2]);
    ins
}

/// `out` with the bytes of `text` placed from position `p` on, as many as
/// fit.
pub open spec fn put(out: Seq<u8>, p: int, text: Seq<u8>) -> Seq<u8> {
    Seq::new(out.len(), |i: int| if p <= i < p + text.len() { text[i - p] } else { out[i] })
}

/// Where writing stops after `n` bytes were offered to a buffer of length
/// `len`.
pub open spec fn clamp(n: int, len: int) -> int {
    if n < len {
        n
    } else {
        len
    }
}

/// Where writing stops after `n` bytes were offered at position `p` of a
/// buffer of length `len`: nothing is written from a position at or past
/// the end.
pub open spec fn advance(p: int, n: int, len: int) -> int {
    if p >= len {
        p
    } else {
        clamp(p + n, len)
    }
}

/// ASCII of a hexadecimal digit (upper case).
pub open spec fn hex_digit(d: int) -> u8 {
    if d < 10 {
        (48 + d) as u8
    } else {
        (55 + d) as u8
    }
}

/// Two hexadecimal digits of a byte.
pub open spec fn hex_byte(v: int) -> Seq<u8> {
    seq![hex_digit(v / 16), hex_digit(v % 16)]
}

/// Four hexadecimal digits of a word.
pub open spec fn hex_word(w: int) -> Seq<u8> {
    hex_byte(w / 256) + hex_byte(w % 256)
}

/// Target of a branch at `addr` whose offset byte is `offset`: the address
/// after the two-byte instruction, moved by the offset read as signed,
/// modulo 2^16.
pub open spec fn branch_target(addr: u16, offset: u8) -> int {
    (addr + 2 + (if offset < 128 { offset as int } else { offset - 256 })) % 0x10000
}

/// The operand as assembly text, with its leading space.
pub open spec fn operand_text(ins: Instruction) -> Seq<u8> {
    let b1 = ins.bytes[1] as int;
    let w = ins.bytes[1] + 256 * ins.bytes[2];
    match ins.mode {
        AddressingMode::Imp => Seq::empty(),
        AddressingMode::Acc => " A".spec_bytes(),
        AddressingMode::Imm => " #$".spec_bytes() + hex_byte(b1),
        AddressingMode::Zp => " $".spec_bytes() + hex_byte(b1),
        AddressingMode::ZpX => " $".spec_bytes() + hex_byte(b1) + ",X".spec_bytes(),
        AddressingMode::ZpY => " $".spec_bytes() + hex_byte(b1) + ",Y".spec_bytes(),
        AddressingMode::Abs => " $".spec_bytes() + hex_word(w),
        AddressingMode::AbsX => " $".spec_bytes() + hex_word(w) + ",X".spec_bytes(),
        AddressingMode::AbsY => " $".spec_bytes() + hex_word(w) + ",Y".spec_bytes(),
        AddressingMode::Ind => " ($".spec_bytes() + hex_word(w) + ")".spec_bytes(),
        AddressingMode::IndX => " ($".spec_bytes() + hex_byte(b1) + ",X)".spec_bytes(),
        AddressingMode::IndY => " ($".spec_bytes() + hex_byte(b1) + "),Y".spec_bytes(),
        AddressingMode::Rel => " $".spec_bytes() + hex_word(branch_target(ins.addr, ins.bytes[1])),
    }
}

/// The instruction as assembly text: mnemonic, then operand.
pub open spec fn format_text(ins: Instruction) -> Seq<u8> {
    ins.mnemonic.spec_bytes() + operand_text(ins)
}

/// Writing `t1` and then `t2` from where the first write stopped places
/// `t1 + t2`.
proof fn lemma_put_concat(out: Seq<u8>, p: int, t1: Seq<u8>, t2: Seq<u8>)
    requires
        0 <= p <= out.len(),
    ensures
        put(put(out, p, t1), clamp(p + t1.len(), out.len() as int), t2) == put(out, p, t1 + t2),
{
    assert(put(put(out, p, t1), clamp(p + t1.len(), out.len() as int), t2) =~= put(out, p, t1 + t2));
}

fn write_str(out: &mut [u8], p: &mut usize, s: &str)
    ensures
        final(out)@ == put(old(out)@, *old(p) as int, s.spec_bytes()),
        *final(p) == advance(*old(p) as int, s.spec_bytes().len() as int, old(out)@.len() as int),
{
    let bytes = s.as_bytes();
    let mut i: usize = 0;
    while i < bytes.len()
        invariant
            bytes@ == s.spec_bytes(),
            i <= bytes@.len(),
            out@.len() == old(out)@.len(),
            out@ == put(old(out)@, *old(p) as int, bytes@.take(i as int)),
            *p == advance(*old(p) as int, i as int, old(out)@.len() as int),
        decreases bytes@.len() - i,
    {
        let c = bytes[i];
        if *p < out.len() {
            out[*p] = c;
            *p += 1;
        }
        i += 1;
        assert(out@ =~= put(old(out)@, *old(p) as int, bytes@.take(i as int)));
    }
    assert(bytes@.take(i as int) =~= bytes@);
}

fn hex_digit_of(d: u8) -> (c: u8)
    requires
        d < 16,
    ensures
        c == hex_digit(d as int),
{
    if d < 10 {
        0x30 + d  // '0'..'9'
    } else {
        0x41 + (d - 10)  // 'A'..'F'
    }
}

fn write_hex_u8(out: &mut [u8], p: &mut usize, v: u8)
    ensures
        final(out)@ == put(old(out)@, *old(p) as int, hex_byte(v as int)),
        *final(p) == advance(*old(p) as int, 2, old(out)@.len() as int),
{
    let hi = v >> 4;
    let lo = v & 0x0F;
    assert(hi == v / 16 && lo == v % 16) by (bit_vector)
        requires
            hi == v >> 4,
            lo == v & 0x0F,
    ;
    if *p < out.len() {
        out[*p] = hex_digit_of(hi);
        *p += 1;
    }
    if *p < out.len() {
        out[*p] = hex_digit_of(lo);
        *p += 1;
    }
    assert(out@ =~= put(old(out)@, *old(p) as int, hex_byte(v as int)));
}

fn write_hex_u16(out: &mut [u8], p: &mut usize, v: u16)
    ensures
        final(out)@ == put(old(out)@, *old(p) as int, hex_word(v as int)),
        *final(p) == advance(*old(p) as int, 4, old(out)@.len() as int),
{
    let hi = (v >> 8) as u8;
    let lo = (v & 0xFF) as u8;
    assert(hi == v / 256 && lo == v % 256) by (bit_vector)
        requires
            hi == (v >> 8) as u8,
            lo == (v & 0xFF) as u8,
    ;
    let ghost out0 = out@;
    let ghost p0 = *p as int;
    write_hex_u8(out, p, hi);
    write_hex_u8(out, p, lo);
    proof {
        if p0 <= out0.len() {
            lemma_put_concat(out0, p0, hex_byte(hi as int), hex_byte(lo as int));
        } else {
            assert(put(out0, p0, hex_byte(hi as int)) =~= out0);
            assert(put(out0, p0, hex_word(v as int)) =~= out0);
        }
    }
}

/// Little-endian word of the two operand bytes.
fn operand_word(b1: u8, b2: u8) -> (w: u16)
    ensures
        w == b1 + 256 * b2,
{
    let w = ((b2 as u16) << 8) | b1 as u16;
    assert(w == b1 + 256 * b2) by (bit_vector)
        requires
            w == ((b2 as u16) << 8) | b1 as u16,
    ;
    w
}

/// Formats the instruction into `out` and returns the number of bytes
/// written: the text of the instruction, cut at the length of `out`.
pub fn format(out: &mut [u8], ins: &Instruction) -> (n: usize)
    ensures
        n == clamp(format_text(*ins).len() as int, old(out)@.len() as int),
        final(out)@ == put(old(out)@, 0, format_text(*ins)),
{
    let ghost out0 = out@;
    let mut p: usize = 0;
    write_str(out, &mut p, ins.mnemonic);
    let ghost head = ins.mnemonic.spec_bytes();
    assert(out@ == put(out0, 0, head));
    let b1 = ins.bytes[1];
    let b2 = ins.bytes[2];
    match ins.mode {
        AddressingMode::Imp => {},
        AddressingMode::Acc => {
            write_str(out, &mut p, " A");
        },
        AddressingMode::Imm => {
            write_str(out, &mut p, " #$");
            write_hex_u8(out, &mut p, b1);
        },
        AddressingMode::Zp => {
            write_str(out, &mut p, " $");
            write_hex_u8(out, &mut p, b1);
        },
        AddressingMode::ZpX => {
            write_str(out, &mut p, " $");
            write_hex_u8(out, &mut p, b1);
            write_str(out, &mut p, ",X");
        },
        AddressingMode::ZpY => {
            write_str(out, &mut p, " $");
            write_hex_u8(out, &mut p, b1);
            write_str(out, &mut p, ",Y");
        },
        AddressingMode::Abs => {
            let w = operand_word(b1, b2);
            write_str(out, &mut p, " $");
            write_hex_u16(out, &mut p, w);
        },
        AddressingMode::AbsX => {
            let w = operand_word(b1, b2);
            write_str(out, &mut p, " $");
            write_hex_u16(out, &mut p, w);
            write_str(out, &mut p, ",X");
        },
        AddressingMode::AbsY => {
            let w = operand_word(b1, b2);
            write_str(out, &mut p, " $");
            write_hex_u16(out, &mut p, w);
            write_str(out, &mut p, ",Y");
        },
        AddressingMode::Ind => {
            let w = operand_word(b1, b2);
            write_str(out, &mut p, " ($");
            write_hex_u16(out, &mut p, w);
            write_str(out, &mut p, ")");
        },
        AddressingMode::IndX => {
            write_str(out, &mut p, " ($");
            write_hex_u8(out, &mut p, b1);
            write_str(out, &mut p, ",X)");
        },
        AddressingMode::IndY => {
            write_str(out, &mut p, " ($");
            write_hex_u8(out, &mut p, b1);
            write_str(out, &mut p, "),Y");
        },
        AddressingMode::Rel => {
            let target = relative_target(ins.addr, b1);
            write_str(out, &mut p, " $");
            write_hex_u16(out, &mut p, target);
        },
    }
    p
}

fn relative_target(addr: u16, b1: u8) -> (t: u16)
    ensures
        t == branch_target(addr, b1),
{
    let off = b1 as i8 as i32;
    let target = ((addr as i32) + 2 + off) as u16;
    assert(target == (addr + 2 + (if b1 < 128 { b1 as int } else { b1 - 256 })) % 0x10000) by (bit_vector)
        requires
            target == ((addr as i32) + 2 + (b1 as i8 as i32)) as u16,
    ;
    target
}

} // verus!
