//! The MOS 6507 CPU of the Atari 2600 (a 6502 with 13 address lines).
//!
//! Every one of the 151 official opcodes behaves as the disassembler's
//! opcode table names it: the mnemonic picks the operation and the
//! addressing mode picks the operand. Opcodes outside the official set do
//! nothing for one cycle.
use vstd::prelude::*;
use crate::disasm::{AddressingMode, Mnemonic, branch_target, spec_mode_size, table_mnemonic, table_mode};
use crate::memory::{
    Memory, MemoryView, is_ram_address, lemma_ram_read_after_write, lemma_ram_write_other, lemma_write_wf,
    ram_cell,
};
use crate::tia::{SCANLINE_CYCLES, TiaView};

verus! {

#[derive(Default, Clone, Copy)]
pub struct Cpu {
    pub a: u8,
    pub x: u8,
    pub y: u8,
    pub sp: u8,
    pub pc: u16,
    /// Processor status NV-BDIZC.
    pub status: u8,
    pub cycles: u32,
}

pub const FLAG_C: u8 = 0x01;
pub const FLAG_Z: u8 = 0x02;
pub const FLAG_I: u8 = 0x04;
pub const FLAG_D: u8 = 0x08;
pub const FLAG_V: u8 = 0x40;
pub const FLAG_N: u8 = 0x80;

/// Cycles in one NTSC frame: 262 scanlines of 76 cycles.
pub const FRAME_CYCLES: u32 = 19912;

/// `x` modulo 2^16.
pub open spec fn wrap16(x: int) -> u16 {
    (x % 0x10000) as u16
}

/// `x` modulo 2^8.
pub open spec fn wrap8(x: int) -> u8 {
    (x % 0x100) as u8
}

/// Whether `flag` is set in `status`.
#[verifier::opaque]
pub open spec fn flag(status: u8, flag: u8) -> bool {
    status & flag != 0
}

/// `status` with `flag` set to `value`.
#[verifier::opaque]
pub open spec fn with_flag(status: u8, flag: u8, value: bool) -> u8 {
    if value {
        status | flag
    } else {
        status & !flag
    }
}

/// `status` with Z and N describing `v`.
#[verifier::opaque]
pub open spec fn with_zn(status: u8, v: u8) -> u8 {
    with_flag(with_flag(status, FLAG_Z, v == 0), FLAG_N, v >= 0x80)
}

/// The carry flag as a number.
pub open spec fn carry_in(status: u8) -> u8 {
    if flag(status, FLAG_C) {
        1
    } else {
        0
    }
}

/// The little-endian word at `addr` and `addr + 1` (modulo 2^16).
#[verifier::opaque]
pub open spec fn word_at(m: MemoryView, addr: u16) -> u16 {
    (m.read(addr) + 256 * m.read(wrap16(addr + 1))) as u16
}

/// The value of an offset byte read as a signed number.
pub open spec fn signed_offset(b: u8) -> int {
    if b < 128 {
        b as int
    } else {
        b - 256
    }
}

/// Address of stack slot `sp` on page one.
pub open spec fn stack_address(sp: u8) -> u16 {
    (0x100 + sp) as u16
}

/// The address that an operand in `mode` refers to; `c.pc` points at the
/// operand bytes.
#[verifier::opaque]
pub open spec fn effective_address(mode: AddressingMode, c: Cpu, m: MemoryView) -> u16 {
    match mode {
        AddressingMode::Zp => m.read(c.pc) as u16,
        AddressingMode::ZpX => wrap8(m.read(c.pc) + c.x) as u16,
        AddressingMode::ZpY => wrap8(m.read(c.pc) + c.y) as u16,
        AddressingMode::Abs => word_at(m, c.pc),
        AddressingMode::AbsX => wrap16(word_at(m, c.pc) + c.x),
        AddressingMode::AbsY => wrap16(word_at(m, c.pc) + c.y),
        AddressingMode::IndX => word_at(m, wrap8(m.read(c.pc) + c.x) as u16),
        AddressingMode::IndY => wrap16(word_at(m, m.read(c.pc) as u16) + c.y),
        _ => 0,
    }
}

/// The operand byte: the byte after the opcode for immediate mode, else the
/// byte at the effective address.
pub open spec fn operand(mode: AddressingMode, c: Cpu, m: MemoryView) -> u8 {
    if mode == AddressingMode::Imm {
        m.read(c.pc)
    } else {
        m.read(effective_address(mode, c, m))
    }
}

/// Where the next instruction starts: after the operand bytes.
pub open spec fn after_operand(mode: AddressingMode, c: Cpu) -> u16 {
    wrap16(c.pc + spec_mode_size(mode) - 1)
}

/// Target of JMP ($XXXX): the pointer's high byte is read from the same
/// page when the pointer's low byte is 0xFF.
#[verifier::opaque]
pub open spec fn indirect_target(c: Cpu, m: MemoryView) -> u16 {
    let ptr = word_at(m, c.pc);
    let hi_addr = if ptr % 256 == 255 { (ptr - 255) as u16 } else { (ptr + 1) as u16 };
    (m.read(ptr) + 256 * m.read(hi_addr)) as u16
}

/// Signed overflow of an addition: both inputs have the same sign and the
/// result has the other.
pub open spec fn add_overflow(a: u8, b: u8, r: u8) -> bool {
    (a < 0x80) == (b < 0x80) && (r < 0x80) != (a < 0x80)
}

/// Signed overflow of a subtraction a - b: the inputs have different signs
/// and the result's sign differs from a's.
pub open spec fn sub_overflow(a: u8, b: u8, r: u8) -> bool {
    (a < 0x80) != (b < 0x80) && (r < 0x80) != (a < 0x80)
}

/// ADC: A + operand + carry.
#[verifier::opaque]
pub open spec fn adc_result(c: Cpu, v: u8) -> Cpu {
    let sum = c.a + v + carry_in(c.status);
    let r = wrap8(sum);
    Cpu {
        a: r,
        status: with_zn(
            with_flag(with_flag(c.status, FLAG_C, sum > 0xFF), FLAG_V, add_overflow(c.a, v, r)),
            r,
        ),
        ..c
    }
}

/// SBC: A - operand - borrow, where the borrow is the carry flag clear.
#[verifier::opaque]
pub open spec fn sbc_result(c: Cpu, v: u8) -> Cpu {
    let diff = c.a - v - (1 - carry_in(c.status));
    let r = wrap8(diff);
    Cpu {
        a: r,
        status: with_zn(
            with_flag(with_flag(c.status, FLAG_C, diff >= 0), FLAG_V, sub_overflow(c.a, v, r)),
            r,
        ),
        ..c
    }
}

/// CMP, CPX, CPY: carry when `reg >= v`, Z and N from `reg - v`.
#[verifier::opaque]
pub open spec fn compare_status(status: u8, reg: u8, v: u8) -> u8 {
    with_zn(with_flag(status, FLAG_C, reg >= v), wrap8(reg - v))
}

/// BIT: Z from A & operand, N and V copied from bits 7 and 6 of the operand.
#[verifier::opaque]
pub open spec fn bit_status(status: u8, a: u8, v: u8) -> u8 {
    with_flag(with_flag(with_flag(status, FLAG_Z, a & v == 0), FLAG_N, v >= 0x80), FLAG_V, v & 0x40 != 0)
}

/// Result and carry out of ASL, LSR, ROL and ROR applied to `v` with carry
/// in `cin`.
pub open spec fn shift_result(m: Mnemonic, v: u8, cin: u8) -> (u8, bool) {
    match m {
        Mnemonic::Asl => (v << 1u8, v & 0x80 != 0),
        Mnemonic::Lsr => (v >> 1u8, v & 1 != 0),
        Mnemonic::Rol => ((v << 1u8) | cin, v & 0x80 != 0),
        _ => ((v >> 1u8) | (cin << 7u8), v & 1 != 0),
    }
}

/// Whether the branch of mnemonic `m` is taken under `status`.
pub open spec fn branch_taken(m: Mnemonic, status: u8) -> bool {
    match m {
        Mnemonic::Bpl => !flag(status, FLAG_N),
        Mnemonic::Bmi => flag(status, FLAG_N),
        Mnemonic::Bvc => !flag(status, FLAG_V),
        Mnemonic::Bvs => flag(status, FLAG_V),
        Mnemonic::Bcc => !flag(status, FLAG_C),
        Mnemonic::Bcs => flag(status, FLAG_C),
        Mnemonic::Beq => flag(status, FLAG_Z),
        _ => !flag(status, FLAG_Z),
    }
}

/// Cycles that an instruction takes (branches: when not taken).
pub open spec fn cycles_of(m: Mnemonic, mode: AddressingMode) -> u32 {
    match m {
        Mnemonic::Sta | Mnemonic::Stx | Mnemonic::Sty => match mode {
            AddressingMode::Zp => 3,
            AddressingMode::ZpX | AddressingMode::ZpY | AddressingMode::Abs => 4,
            AddressingMode::AbsX | AddressingMode::AbsY => 5,
            _ => 6,
        },
        Mnemonic::Inc | Mnemonic::Dec | Mnemonic::Asl | Mnemonic::Lsr | Mnemonic::Rol
        | Mnemonic::Ror => match mode {
            AddressingMode::Acc => 2,
            AddressingMode::Zp => 5,
            AddressingMode::ZpX | AddressingMode::Abs => 6,
            _ => 7,
        },
        Mnemonic::Lda | Mnemonic::Ldx | Mnemonic::Ldy | Mnemonic::Adc | Mnemonic::Sbc
        | Mnemonic::And | Mnemonic::Ora | Mnemonic::Eor | Mnemonic::Cmp | Mnemonic::Cpx
        | Mnemonic::Cpy | Mnemonic::Bit => match mode {
            AddressingMode::Imm => 2,
            AddressingMode::Zp => 3,
            AddressingMode::IndX => 6,
            AddressingMode::IndY => 5,
            _ => 4,
        },
        Mnemonic::Pha | Mnemonic::Php => 3,
        Mnemonic::Pla | Mnemonic::Plp => 4,
        Mnemonic::Jmp => if mode == AddressingMode::Ind { 5 } else { 3 },
        Mnemonic::Jsr | Mnemonic::Rts | Mnemonic::Rti => 6,
        Mnemonic::Brk => 7,
        Mnemonic::Bpl | Mnemonic::Bmi | Mnemonic::Bvc | Mnemonic::Bvs | Mnemonic::Bcc
        | Mnemonic::Bcs => 3,
        Mnemonic::Illegal => 1,
        _ => 2,
    }
}

/// The CPU after an instruction in `mode` that changes nothing but `pc`.
pub open spec fn past_operand(mode: AddressingMode, c: Cpu) -> Cpu {
    Cpu { pc: after_operand(mode, c), ..c }
}

/// LDA, LDX, LDY: the operand goes to the register; Z and N describe it.
#[verifier::opaque]
pub open spec fn load_spec(mn: Mnemonic, mode: AddressingMode, c: Cpu, m: MemoryView) -> (Cpu, MemoryView, u32) {
    let next = past_operand(mode, c);
    let v = operand(mode, c, m);
    let status = with_zn(c.status, v);
    let cpu = match mn {
        Mnemonic::Lda => Cpu { a: v, status, ..next },
        Mnemonic::Ldx => Cpu { x: v, status, ..next },
        _ => Cpu { y: v, status, ..next },
    };
    (cpu, m, cycles_of(mn, mode))
}

/// STA, STX, STY: the register is written to the effective address.
#[verifier::opaque]
pub open spec fn store_spec(mn: Mnemonic, mode: AddressingMode, c: Cpu, m: MemoryView) -> (Cpu, MemoryView, u32) {
    let reg = match mn {
        Mnemonic::Sta => c.a,
        Mnemonic::Stx => c.x,
        _ => c.y,
    };
    (past_operand(mode, c), m.write(effective_address(mode, c, m), reg), cycles_of(mn, mode))
}

/// ADC, SBC, AND, ORA, EOR: the accumulator combined with the operand.
#[verifier::opaque]
pub open spec fn accumulate_spec(mn: Mnemonic, mode: AddressingMode, c: Cpu, m: MemoryView) -> (Cpu, MemoryView, u32) {
    let next = past_operand(mode, c);
    let v = operand(mode, c, m);
    let cpu = match mn {
        Mnemonic::Adc => adc_result(next, v),
        Mnemonic::Sbc => sbc_result(next, v),
        Mnemonic::And => Cpu { a: c.a & v, status: with_zn(c.status, c.a & v), ..next },
        Mnemonic::Ora => Cpu { a: c.a | v, status: with_zn(c.status, c.a | v), ..next },
        _ => Cpu { a: c.a ^ v, status: with_zn(c.status, c.a ^ v), ..next },
    };
    (cpu, m, cycles_of(mn, mode))
}

/// CMP, CPX, CPY, BIT: only the flags change.
#[verifier::opaque]
pub open spec fn test_spec(mn: Mnemonic, mode: AddressingMode, c: Cpu, m: MemoryView) -> (Cpu, MemoryView, u32) {
    let v = operand(mode, c, m);
    let status = match mn {
        Mnemonic::Cmp => compare_status(c.status, c.a, v),
        Mnemonic::Cpx => compare_status(c.status, c.x, v),
        Mnemonic::Cpy => compare_status(c.status, c.y, v),
        _ => bit_status(c.status, c.a, v),
    };
    (Cpu { status, ..past_operand(mode, c) }, m, cycles_of(mn, mode))
}

/// INC, DEC, ASL, LSR, ROL, ROR: read, modify and write back the operand
/// (the accumulator in accumulator mode).
#[verifier::opaque]
pub open spec fn modify_spec(mn: Mnemonic, mode: AddressingMode, c: Cpu, m: MemoryView) -> (Cpu, MemoryView, u32) {
    let next = past_operand(mode, c);
    let ea = effective_address(mode, c, m);
    let input = if mode == AddressingMode::Acc { c.a } else { operand(mode, c, m) };
    let (r, status) = match mn {
        Mnemonic::Inc => (wrap8(input + 1), with_zn(c.status, wrap8(input + 1))),
        Mnemonic::Dec => (wrap8(input - 1), with_zn(c.status, wrap8(input - 1))),
        _ => {
            let (r, carry) = shift_result(mn, input, carry_in(c.status));
            (r, with_zn(with_flag(c.status, FLAG_C, carry), r))
        },
    };
    if mode == AddressingMode::Acc {
        (Cpu { a: r, status, ..next }, m, cycles_of(mn, mode))
    } else {
        (Cpu { status, ..next }, m.write(ea, r), cycles_of(mn, mode))
    }
}

/// JMP, JSR, RTS, RTI. JSR pushes the address after its operand, high
/// byte first, and RTS pulls it back.
#[verifier::opaque]
pub open spec fn jump_spec(mn: Mnemonic, mode: AddressingMode, c: Cpu, m: MemoryView) -> (Cpu, MemoryView, u32) {
    let cy = cycles_of(mn, mode);
    match mn {
        Mnemonic::Jmp => {
            let target = if mode == AddressingMode::Ind {
                indirect_target(c, m)
            } else {
                effective_address(mode, c, m)
            };
            (Cpu { pc: target, ..c }, m, cy)
        },
        Mnemonic::Jsr => {
            let ret = after_operand(mode, c);
            let m1 = m.write(stack_address(c.sp), (ret / 256) as u8);
            let m2 = m1.write(stack_address(wrap8(c.sp - 1)), (ret % 256) as u8);
            (Cpu { pc: effective_address(mode, c, m), sp: wrap8(c.sp - 2), ..c }, m2, cy)
        },
        Mnemonic::Rts => {
            let lo = m.read(stack_address(wrap8(c.sp + 1)));
            let hi = m.read(stack_address(wrap8(c.sp + 2)));
            (Cpu { pc: (lo + 256 * hi) as u16, sp: wrap8(c.sp + 2), ..c }, m, cy)
        },
        _ => {
            let st = m.read(stack_address(wrap8(c.sp + 1)));
            let lo = m.read(stack_address(wrap8(c.sp + 2)));
            let hi = m.read(stack_address(wrap8(c.sp + 3)));
            (Cpu { status: st, pc: (lo + 256 * hi) as u16, sp: wrap8(c.sp + 3), ..c }, m, cy)
        },
    }
}

/// Conditional branches: a taken branch moves `pc` by the signed offset
/// from the end of the two-byte instruction and takes 4 cycles; one not
/// taken goes on past the offset byte.
#[verifier::opaque]
pub open spec fn branch_spec(mn: Mnemonic, mode: AddressingMode, c: Cpu, m: MemoryView) -> (Cpu, MemoryView, u32) {
    let next = past_operand(mode, c);
    if branch_taken(mn, c.status) {
        (Cpu { pc: wrap16(next.pc + signed_offset(m.read(c.pc))), ..c }, m, 4)
    } else {
        (next, m, cycles_of(mn, mode))
    }
}

/// CLC, SEC, CLI, SEI, CLV, CLD, SED.
#[verifier::opaque]
pub open spec fn flag_spec(mn: Mnemonic, mode: AddressingMode, c: Cpu, m: MemoryView) -> (Cpu, MemoryView, u32) {
    let status = match mn {
        Mnemonic::Clc => with_flag(c.status, FLAG_C, false),
        Mnemonic::Sec => with_flag(c.status, FLAG_C, true),
        Mnemonic::Cli => with_flag(c.status, FLAG_I, false),
        Mnemonic::Sei => with_flag(c.status, FLAG_I, true),
        Mnemonic::Clv => with_flag(c.status, FLAG_V, false),
        Mnemonic::Cld => with_flag(c.status, FLAG_D, false),
        _ => with_flag(c.status, FLAG_D, true),
    };
    (Cpu { status, ..c }, m, cycles_of(mn, mode))
}

/// Transfers between registers, and INX, INY, DEX, DEY.
#[verifier::opaque]
pub open spec fn register_spec(mn: Mnemonic, mode: AddressingMode, c: Cpu, m: MemoryView) -> (Cpu, MemoryView, u32) {
    let cpu = match mn {
        Mnemonic::Tax => Cpu { x: c.a, status: with_zn(c.status, c.a), ..c },
        Mnemonic::Tay => Cpu { y: c.a, status: with_zn(c.status, c.a), ..c },
        Mnemonic::Txa => Cpu { a: c.x, status: with_zn(c.status, c.x), ..c },
        Mnemonic::Tya => Cpu { a: c.y, status: with_zn(c.status, c.y), ..c },
        Mnemonic::Tsx => Cpu { x: c.sp, status: with_zn(c.status, c.sp), ..c },
        Mnemonic::Txs => Cpu { sp: c.x, ..c },
        Mnemonic::Inx => Cpu { x: wrap8(c.x + 1), status: with_zn(c.status, wrap8(c.x + 1)), ..c },
        Mnemonic::Iny => Cpu { y: wrap8(c.y + 1), status: with_zn(c.status, wrap8(c.y + 1)), ..c },
        Mnemonic::Dex => Cpu { x: wrap8(c.x - 1), status: with_zn(c.status, wrap8(c.x - 1)), ..c },
        _ => Cpu { y: wrap8(c.y - 1), status: with_zn(c.status, wrap8(c.y - 1)), ..c },
    };
    (cpu, m, cycles_of(mn, mode))
}

/// PHA, PHP push onto page one and move the stack pointer down; PLA, PLP
/// move it up and pull. PHP pushes the status with the B flag (bit 4) set.
#[verifier::opaque]
pub open spec fn stack_spec(mn: Mnemonic, mode: AddressingMode, c: Cpu, m: MemoryView) -> (Cpu, MemoryView, u32) {
    let cy = cycles_of(mn, mode);
    let up = wrap8(c.sp + 1);
    let down = wrap8(c.sp - 1);
    match mn {
        Mnemonic::Pha => (Cpu { sp: down, ..c }, m.write(stack_address(c.sp), c.a), cy),
        Mnemonic::Php => (Cpu { sp: down, ..c }, m.write(stack_address(c.sp), c.status | 0x10), cy),
        Mnemonic::Pla => {
            let v = m.read(stack_address(up));
            (Cpu { a: v, sp: up, status: with_zn(c.status, v), ..c }, m, cy)
        },
        _ => (Cpu { status: m.read(stack_address(up)), sp: up, ..c }, m, cy),
    }
}

/// The effect of executing `opcode` on the CPU state `c` (whose `pc` points
/// just past the opcode) and the memory `m`: the new CPU state, the new
/// memory and the cycles taken. The mnemonic and addressing mode come from
/// the disassembler's opcode table. NOP, BRK (which here only takes its
/// cycles) and the opcodes outside the official set change nothing.
#[verifier::opaque]
pub open spec fn execute_spec(opcode: u8, c: Cpu, m: MemoryView) -> (Cpu, MemoryView, u32) {
    let mn = table_mnemonic(opcode);
    let mode = table_mode(opcode);
    match mn {
        Mnemonic::Lda | Mnemonic::Ldx | Mnemonic::Ldy => load_spec(mn, mode, c, m),
        Mnemonic::Sta | Mnemonic::Stx | Mnemonic::Sty => store_spec(mn, mode, c, m),
        Mnemonic::Adc | Mnemonic::Sbc | Mnemonic::And | Mnemonic::Ora | Mnemonic::Eor => accumulate_spec(mn, mode, c, m),
        Mnemonic::Cmp | Mnemonic::Cpx | Mnemonic::Cpy | Mnemonic::Bit => test_spec(mn, mode, c, m),
        Mnemonic::Inc | Mnemonic::Dec | Mnemonic::Asl | Mnemonic::Lsr | Mnemonic::Rol
        | Mnemonic::Ror => modify_spec(mn, mode, c, m),
        Mnemonic::Jmp | Mnemonic::Jsr | Mnemonic::Rts | Mnemonic::Rti => jump_spec(mn, mode, c, m),
        Mnemonic::Bpl | Mnemonic::Bmi | Mnemonic::Bvc | Mnemonic::Bvs | Mnemonic::Bcc
        | Mnemonic::Bcs | Mnemonic::Beq | Mnemonic::Bne => branch_spec(mn, mode, c, m),
        Mnemonic::Clc | Mnemonic::Sec | Mnemonic::Cli | Mnemonic::Sei | Mnemonic::Clv
        | Mnemonic::Cld | Mnemonic::Sed => flag_spec(mn, mode, c, m),
        Mnemonic::Tax | Mnemonic::Tay | Mnemonic::Txa | Mnemonic::Tya | Mnemonic::Tsx
        | Mnemonic::Txs | Mnemonic::Inx | Mnemonic::Iny | Mnemonic::Dex | Mnemonic::Dey => register_spec(mn, mode, c, m),
        Mnemonic::Pha | Mnemonic::Php | Mnemonic::Pla | Mnemonic::Plp => stack_spec(mn, mode, c, m),
        _ => (c, m, cycles_of(mn, mode)),
    }
}

/// One instruction: fetch the opcode at `pc`, execute it, and let the TIA
/// run for the cycles it took.
pub open spec fn step_spec(c: Cpu, m: MemoryView) -> (Cpu, MemoryView, u32) {
    let opcode = m.read(c.pc);
    let (c2, m2, cy) = execute_spec(opcode, Cpu { pc: wrap16(c.pc + 1), ..c }, m);
    (Cpu { cycles: (c.cycles + cy) as u32, ..c2 }, m2.tick_tia(cy as nat), cy)
}

/// Every instruction takes from one to seven cycles.
pub proof fn lemma_execute_cycles(opcode: u8, c: Cpu, m: MemoryView)
    ensures
        1 <= execute_spec(opcode, c, m).2 <= 7,
        execute_spec(opcode, c, m).0.cycles == c.cycles,
{
    reveal(execute_spec);
    reveal(load_spec);
    reveal(store_spec);
    reveal(accumulate_spec);
    reveal(test_spec);
    reveal(modify_spec);
    reveal(jump_spec);
    reveal(branch_spec);
    reveal(flag_spec);
    reveal(register_spec);
    reveal(stack_spec);
    reveal(adc_result);
    reveal(sbc_result);
}

/// Every step takes from one to seven cycles.
pub proof fn lemma_step_cycles(c: Cpu, m: MemoryView)
    ensures
        1 <= step_spec(c, m).2 <= 7,
{
    lemma_execute_cycles(m.read(c.pc), Cpu { pc: wrap16(c.pc + 1), ..c }, m);
}

/// JSR followed by RTS returns to the instruction after the JSR with the
/// stack pointer restored, wherever the subroutine's RTS stands. Both
/// return-address bytes must land in RAM, so the stack pointer is at least
/// 0x81.
pub proof fn lemma_jsr_then_rts(c: Cpu, m: MemoryView, rts_pc: u16)
    requires
        m.wf(),
        c.sp >= 0x81,
    ensures
        ({
            let (c1, m1, _) = execute_spec(0x20, c, m);
            let (c2, _, _) = execute_spec(0x60, Cpu { pc: rts_pc, ..c1 }, m1);
            c2 == Cpu { pc: wrap16(c.pc + 2), ..c }
        }),
{
    reveal(execute_spec);
    reveal(jump_spec);
    let ret = after_operand(AddressingMode::Abs, c);
    let hi_addr = stack_address(c.sp);
    let lo_addr = stack_address(wrap8(c.sp - 1));
    let m1 = m.write(hi_addr, (ret / 256) as u8);
    let m2 = m1.write(lo_addr, (ret % 256) as u8);
    assert(is_ram_address(hi_addr) && is_ram_address(lo_addr));
    assert(ram_cell(hi_addr) != ram_cell(lo_addr));
    lemma_ram_read_after_write(m, hi_addr, hi_addr, (ret / 256) as u8);
    lemma_write_wf(m, hi_addr, (ret / 256) as u8);
    lemma_ram_write_other(m1, lo_addr, hi_addr, (ret % 256) as u8);
    lemma_ram_read_after_write(m1, lo_addr, lo_addr, (ret % 256) as u8);
    assert(wrap8(wrap8(c.sp - 2) + 1) == wrap8(c.sp - 1));
    assert(wrap8(wrap8(c.sp - 2) + 2) == c.sp);
}

/// PHA followed by PLA gives the accumulator back, with the stack pointer
/// restored and Z and N describing the value (the stack byte lies in RAM
/// when the stack pointer is at least 0x80).
pub proof fn lemma_pha_then_pla(c: Cpu, m: MemoryView, pla_pc: u16)
    requires
        m.wf(),
        c.sp >= 0x80,
    ensures
        ({
            let (c1, m1, _) = execute_spec(0x48, c, m);
            let (c2, _, _) = execute_spec(0x68, Cpu { pc: pla_pc, ..c1 }, m1);
            c2 == Cpu { pc: pla_pc, status: with_zn(c.status, c.a), ..c }
        }),
{
    reveal(execute_spec);
    reveal(stack_spec);
    let addr = stack_address(c.sp);
    assert(is_ram_address(addr));
    lemma_ram_read_after_write(m, addr, addr, c.a);
    assert(wrap8(wrap8(c.sp - 1) + 1) == c.sp);
}

/// PHP followed by PLP gives the status back with the B flag (bit 4) set.
pub proof fn lemma_php_then_plp(c: Cpu, m: MemoryView, plp_pc: u16)
    requires
        m.wf(),
        c.sp >= 0x80,
    ensures
        ({
            let (c1, m1, _) = execute_spec(0x08, c, m);
            let (c2, _, _) = execute_spec(0x28, Cpu { pc: plp_pc, ..c1 }, m1);
            c2 == Cpu { pc: plp_pc, status: c.status | 0x10, ..c }
        }),
{
    reveal(execute_spec);
    reveal(stack_spec);
    let addr = stack_address(c.sp);
    assert(is_ram_address(addr));
    lemma_ram_read_after_write(m, addr, addr, c.status | 0x10);
    assert(wrap8(wrap8(c.sp - 1) + 1) == c.sp);
}

/// SBC of a value is ADC of its complement: the same accumulator and the
/// same C, V, Z and N.
pub proof fn lemma_sbc_is_adc_of_complement(c: Cpu, v: u8)
    ensures
        sbc_result(c, v) == adc_result(c, !v),
{
    reveal(sbc_result);
    reveal(adc_result);
    let nv = !v;
    assert(nv == 255 - v) by (bit_vector)
        requires
            nv == !v,
    ;
    let sum = c.a + nv + carry_in(c.status);
    let diff = c.a - v - (1 - carry_in(c.status));
    assert(sum == diff + 256);
    assert(wrap8(sum) == wrap8(diff));
}

/// Setting a flag makes it read as set or clear, as asked, and leaves
/// every other flag as it was.
pub proof fn lemma_flag_update(status: u8, f: u8, g: u8, value: bool)
    requires
        f == FLAG_C || f == FLAG_Z || f == FLAG_I || f == FLAG_D || f == FLAG_V || f == FLAG_N,
        g == FLAG_C || g == FLAG_Z || g == FLAG_I || g == FLAG_D || g == FLAG_V || g == FLAG_N,
        f != g,
    ensures
        flag(with_flag(status, f, value), f) == value,
        flag(with_flag(status, f, value), g) == flag(status, g),
{
    reveal(flag);
    reveal(with_flag);
    assert((status | f) & f != 0 && (status & !f) & f == 0) by (bit_vector)
        requires
            f == 1 || f == 2 || f == 4 || f == 8 || f == 0x40 || f == 0x80,
    ;
    assert((((status | f) & g != 0) == (status & g != 0)) && (((status & !f) & g != 0) == (status & g != 0)))
        by (bit_vector)
        requires
            f == 1 || f == 2 || f == 4 || f == 8 || f == 0x40 || f == 0x80,
            g == 1 || g == 2 || g == 4 || g == 8 || g == 0x40 || g == 0x80,
            f != g,
    ;
}

/// Whether mnemonic `mn` moves `pc` to an address that it reads or pulls:
/// jumps, subroutine calls and returns.
pub open spec fn is_jump(mn: Mnemonic) -> bool {
    match mn {
        Mnemonic::Jmp | Mnemonic::Jsr | Mnemonic::Rts | Mnemonic::Rti => true,
        _ => false,
    }
}

/// Whether mnemonic `mn` is a conditional branch.
pub open spec fn is_branch(mn: Mnemonic) -> bool {
    match mn {
        Mnemonic::Bpl | Mnemonic::Bmi | Mnemonic::Bvc | Mnemonic::Bvs | Mnemonic::Bcc | Mnemonic::Bcs
        | Mnemonic::Beq | Mnemonic::Bne => true,
        _ => false,
    }
}

/// The table gives every conditional branch the relative mode.
proof fn lemma_branch_mode(opcode: u8)
    requires
        is_branch(table_mnemonic(opcode)),
    ensures
        table_mode(opcode) == AddressingMode::Rel,
{
}

/// The table gives every instruction without an operand the implied mode.
proof fn lemma_implied_mode(opcode: u8)
    requires
        match table_mnemonic(opcode) {
            Mnemonic::Clc | Mnemonic::Sec | Mnemonic::Cli | Mnemonic::Sei | Mnemonic::Clv
            | Mnemonic::Cld | Mnemonic::Sed | Mnemonic::Tax | Mnemonic::Tay | Mnemonic::Txa
            | Mnemonic::Tya | Mnemonic::Tsx | Mnemonic::Txs | Mnemonic::Inx | Mnemonic::Iny
            | Mnemonic::Dex | Mnemonic::Dey | Mnemonic::Pha | Mnemonic::Php | Mnemonic::Pla
            | Mnemonic::Plp | Mnemonic::Nop | Mnemonic::Brk => true,
            _ => false,
        },
    ensures
        table_mode(opcode) == AddressingMode::Imp,
{
}

/// Outside jumps and taken branches, an instruction leaves `pc` just past
/// its bytes: the CPU consumes exactly the bytes that the disassembler
/// decodes for the opcode. (Opcodes outside the official set are left out:
/// they take one byte, while the table gives 0x89 two.)
pub proof fn lemma_step_moves_past_instruction(c: Cpu, m: MemoryView)
    requires
        !is_jump(table_mnemonic(m.read(c.pc))),
        is_branch(table_mnemonic(m.read(c.pc))) ==> !branch_taken(table_mnemonic(m.read(c.pc)), c.status),
        table_mnemonic(m.read(c.pc)) != Mnemonic::Illegal,
    ensures
        step_spec(c, m).0.pc == wrap16(c.pc + spec_mode_size(table_mode(m.read(c.pc)))),
{
    let opcode = m.read(c.pc);
    let c1 = Cpu { pc: wrap16(c.pc + 1), ..c };
    let mn = table_mnemonic(opcode);
    let mode = table_mode(opcode);
    let size = spec_mode_size(mode);
    assert(wrap16(c1.pc + size - 1) == wrap16(c.pc + size));
    reveal(execute_spec);
    match mn {
        Mnemonic::Lda | Mnemonic::Ldx | Mnemonic::Ldy => {
            reveal(load_spec);
        },
        Mnemonic::Sta | Mnemonic::Stx | Mnemonic::Sty => {
            reveal(store_spec);
        },
        Mnemonic::Adc | Mnemonic::Sbc | Mnemonic::And | Mnemonic::Ora | Mnemonic::Eor => {
            reveal(accumulate_spec);
            reveal(adc_result);
            reveal(sbc_result);
        },
        Mnemonic::Cmp | Mnemonic::Cpx | Mnemonic::Cpy | Mnemonic::Bit => {
            reveal(test_spec);
        },
        Mnemonic::Inc | Mnemonic::Dec | Mnemonic::Asl | Mnemonic::Lsr | Mnemonic::Rol
        | Mnemonic::Ror => {
            reveal(modify_spec);
        },
        Mnemonic::Clc | Mnemonic::Sec | Mnemonic::Cli | Mnemonic::Sei | Mnemonic::Clv
        | Mnemonic::Cld | Mnemonic::Sed => {
            reveal(flag_spec);
            lemma_implied_mode(opcode);
        },
        Mnemonic::Tax | Mnemonic::Tay | Mnemonic::Txa | Mnemonic::Tya | Mnemonic::Tsx
        | Mnemonic::Txs | Mnemonic::Inx | Mnemonic::Iny | Mnemonic::Dex | Mnemonic::Dey => {
            reveal(register_spec);
            lemma_implied_mode(opcode);
        },
        Mnemonic::Pha | Mnemonic::Php | Mnemonic::Pla | Mnemonic::Plp => {
            reveal(stack_spec);
            lemma_implied_mode(opcode);
        },
        Mnemonic::Bpl | Mnemonic::Bmi | Mnemonic::Bvc | Mnemonic::Bvs | Mnemonic::Bcc
        | Mnemonic::Bcs | Mnemonic::Beq | Mnemonic::Bne => {
            reveal(branch_spec);
            lemma_branch_mode(opcode);
        },
        _ => {
            lemma_implied_mode(opcode);
        },
    }
}

/// A taken branch goes where the disassembler shows it going: the signed
/// offset byte added to the address after the two-byte instruction.
pub proof fn lemma_taken_branch_target(c: Cpu, m: MemoryView)
    requires
        is_branch(table_mnemonic(m.read(c.pc))),
        branch_taken(table_mnemonic(m.read(c.pc)), c.status),
    ensures
        step_spec(c, m).0.pc == branch_target(c.pc, m.read(wrap16(c.pc + 1))),
        step_spec(c, m).2 == 4,
{
    let opcode = m.read(c.pc);
    reveal(execute_spec);
    reveal(branch_spec);
    lemma_branch_mode(opcode);
    let b = m.read(wrap16(c.pc + 1));
    let after = wrap16(wrap16(c.pc + 1) + 1);
    assert(after == wrap16(c.pc + 2));
    assert(wrap16(after + signed_offset(b)) == (c.pc + 2 + signed_offset(b)) % 0x10000);
}

/// Cycles left until the end of the scanline when WSYNC halts the CPU.
pub open spec fn wsync_wait(t: TiaView) -> u32 {
    (SCANLINE_CYCLES - t.cycle_in_scanline % SCANLINE_CYCLES) as u32
}

/// Running until at least `target` cycles have passed, with `total` passed
/// so far: each step runs one instruction, and a step that left WSYNC
/// strobed also waits for the end of the scanline. Yields the final CPU,
/// memory and cycle total.
pub open spec fn run_spec(c: Cpu, m: MemoryView, target: int, total: int) -> (Cpu, MemoryView, int)
    decreases (if total < target { target - total } else { 0 }),
{
    if total >= target {
        (c, m, total)
    } else {
        let s = step_spec(c, m);
        let m1 = s.1;
        if m1.tia.wsync {
            let wait = wsync_wait(m1.tia);
            let m2 = MemoryView { tia: TiaView { wsync: false, ..m1.tia.tick(wait as nat) }, ..m1 };
            proof {
                lemma_step_cycles(c, m);
            }
            run_spec(s.0, m2, target, total + s.2 + wait)
        } else {
            proof {
                lemma_step_cycles(c, m);
            }
            run_spec(s.0, m1, target, total + s.2)
        }
    }
}

/// Facts about the page of a JMP ($XXXX) pointer.
proof fn lemma_page_wrap(p: u16)
    ensures
        (p & 0x00FF == 0x00FF) == (p % 256 == 255),
        p & 0x00FF == 0x00FF ==> p & 0xFF00 == p - 255,
{
    assert((p & 0x00FF == 0x00FF) == (p % 256 == 255)) by (bit_vector);
    assert(p & 0x00FF == 0x00FF ==> p & 0xFF00 == p - 255) by (bit_vector);
}

impl Cpu {
    pub fn new() -> (c: Cpu)
        ensures
            c == (Cpu { a: 0, x: 0, y: 0, sp: 0xFD, pc: 0, status: 0x24, cycles: 0 }),
    {
        Cpu {
            a: 0,
            x: 0,
            y: 0,
            sp: 0xFD,
            pc: 0,
            status: 0x24,  // I flag set
            cycles: 0,
        }
    }

    fn set_flag(&mut self, flag: u8, value: bool)
        ensures
            *final(self) == (Cpu { status: with_flag(old(self).status, flag, value), ..*old(self) }),
    {
        proof {
            reveal(with_flag);
        }
        if value {
            self.status |= flag;
        } else {
            self.status &= !flag;
        }
    }

    fn get_flag(&self, f: u8) -> (b: bool)
        ensures
            b == flag(self.status, f),
    {
        proof {
            reveal(flag);
        }
        self.status & f != 0
    }

    fn set_z_n(&mut self, value: u8)
        ensures
            *final(self) == (Cpu { status: with_zn(old(self).status, value), ..*old(self) }),
    {
        proof {
            reveal(with_zn);
        }
        assert((value & 0x80 != 0) == (value >= 0x80)) by (bit_vector);
        self.set_flag(FLAG_Z, value == 0);
        self.set_flag(FLAG_N, value & 0x80 != 0);
    }

    fn compare(&mut self, reg: u8, value: u8)
        ensures
            *final(self) == (Cpu { status: compare_status(old(self).status, reg, value), ..*old(self) }),
    {
        proof {
            reveal(compare_status);
        }
        let result = reg.wrapping_sub(value);
        self.set_flag(FLAG_C, reg >= value);
        self.set_z_n(result);
    }

    fn adc(&mut self, value: u8)
        ensures
            *final(self) == adc_result(*old(self), value),
    {
        proof {
            reveal(adc_result);
            reveal(flag);
        }
        let carry: u8 = if self.get_flag(FLAG_C) { 1 } else { 0 };
        let a = self.a;
        let result = a as u16 + value as u16 + carry as u16;
        let r = (result & 0xFF) as u8;
        assert(r == result % 256) by (bit_vector)
            requires
                r == (result & 0xFF) as u8,
        ;
        assert(((!(a ^ value) & (a ^ r) & 0x80) != 0) == add_overflow(a, value, r)) by (bit_vector);
        self.set_flag(FLAG_C, result > 0xFF);
        self.set_flag(FLAG_V, (!(a ^ value) & (a ^ r) & 0x80) != 0);
        self.a = r;
        self.set_z_n(self.a);
    }

    fn sbc(&mut self, value: u8)
        ensures
            *final(self) == sbc_result(*old(self), value),
    {
        proof {
            reveal(sbc_result);
            reveal(flag);
        }
        let carry: u8 = if self.get_flag(FLAG_C) { 1 } else { 0 };
        let a = self.a;
        let result = a as i16 - value as i16 - (1 - carry as i16);
        let r = (result as u8) & 0xFF;
        assert(r as int == (if result >= 0 { result as int } else { result + 256 })) by (bit_vector)
            requires
                r == (result as u8) & 0xFF,
                -256 <= result < 256,
        ;
        assert(((a ^ value) & (a ^ r) & 0x80 != 0) == sub_overflow(a, value, r)) by (bit_vector);
        self.set_flag(FLAG_C, result >= 0);
        self.set_flag(FLAG_V, ((a ^ value) & (a ^ r) & 0x80) != 0);
        self.a = r;
        self.set_z_n(self.a);
    }

    fn bit(&mut self, value: u8)
        ensures
            *final(self) == (Cpu { status: bit_status(old(self).status, old(self).a, value), ..*old(self) }),
    {
        proof {
            reveal(bit_status);
        }
        assert((value & 0x80 != 0) == (value >= 0x80)) by (bit_vector);
        self.set_flag(FLAG_Z, (self.a & value) == 0);
        self.set_flag(FLAG_N, value & 0x80 != 0);
        self.set_flag(FLAG_V, value & 0x40 != 0);
    }

    fn read_byte(&self, mem: &Memory, addr: u16) -> (v: u8)
        ensures
            v == mem@.read(addr),
    {
        mem.read(addr)
    }

    fn write_byte(&self, mem: &mut Memory, addr: u16, value: u8)
        ensures
            final(mem)@ == old(mem)@.write(addr, value),
            old(mem)@.wf() ==> final(mem)@.wf(),
    {
        mem.write(addr, value);
    }

    fn read_word(&self, mem: &Memory, addr: u16) -> (w: u16)
        ensures
            w == word_at(mem@, addr),
    {
        proof {
            reveal(word_at);
        }
        let lo = self.read_byte(mem, addr) as u16;
        let hi = self.read_byte(mem, addr.wrapping_add(1)) as u16;
        assert((hi << 8) | lo == lo + 256 * hi) by (bit_vector)
            requires
                lo < 256,
                hi < 256,
        ;
        (hi << 8) | lo
    }

    // Addressing modes: each reads its operand bytes at `pc` and moves `pc`
    // past them.
    fn immediate(&mut self, mem: &Memory) -> (v: u8)
        ensures
            v == operand(AddressingMode::Imm, *old(self), mem@),
            *final(self) == (Cpu { pc: after_operand(AddressingMode::Imm, *old(self)), ..*old(self) }),
    {
        let val = self.read_byte(mem, self.pc);
        self.pc = self.pc.wrapping_add(1);
        val
    }

    fn zero_page(&mut self, mem: &Memory) -> (addr: u16)
        ensures
            addr == effective_address(AddressingMode::Zp, *old(self), mem@),
            *final(self) == (Cpu { pc: after_operand(AddressingMode::Zp, *old(self)), ..*old(self) }),
    {
        proof {
            reveal(effective_address);
        }
        let addr = self.read_byte(mem, self.pc) as u16;
        self.pc = self.pc.wrapping_add(1);
        addr
    }

    fn absolute(&mut self, mem: &Memory) -> (addr: u16)
        ensures
            addr == effective_address(AddressingMode::Abs, *old(self), mem@),
            *final(self) == (Cpu { pc: after_operand(AddressingMode::Abs, *old(self)), ..*old(self) }),
    {
        proof {
            reveal(effective_address);
        }
        let addr = self.read_word(mem, self.pc);
        self.pc = self.pc.wrapping_add(2);
        addr
    }

    fn zero_page_x(&mut self, mem: &Memory) -> (addr: u16)
        ensures
            addr == effective_address(AddressingMode::ZpX, *old(self), mem@),
            *final(self) == (Cpu { pc: after_operand(AddressingMode::ZpX, *old(self)), ..*old(self) }),
    {
        proof {
            reveal(effective_address);
        }
        let base = self.read_byte(mem, self.pc) as u16;
        self.pc = self.pc.wrapping_add(1);
        let x = self.x as u16;
        let addr = base.wrapping_add(x) & 0xFF;
        assert(addr == (base + x) % 256) by (bit_vector)
            requires
                addr == base.wrapping_add(x) & 0xFF,
                base < 256,
                x < 256,
        ;
        addr
    }

    fn absolute_x(&mut self, mem: &Memory) -> (addr: u16)
        ensures
            addr == effective_address(AddressingMode::AbsX, *old(self), mem@),
            *final(self) == (Cpu { pc: after_operand(AddressingMode::AbsX, *old(self)), ..*old(self) }),
    {
        proof {
            reveal(effective_address);
        }
        let base = self.read_word(mem, self.pc);
        self.pc = self.pc.wrapping_add(2);
        base.wrapping_add(self.x as u16)
    }

    fn indirect_x(&mut self, mem: &Memory) -> (addr: u16)
        ensures
            addr == effective_address(AddressingMode::IndX, *old(self), mem@),
            *final(self) == (Cpu { pc: after_operand(AddressingMode::IndX, *old(self)), ..*old(self) }),
    {
        proof {
            reveal(effective_address);
        }
        let zp = self.read_byte(mem, self.pc) as u16;
        self.pc = self.pc.wrapping_add(1);
        let x = self.x as u16;
        let addr = zp.wrapping_add(x) & 0xFF;
        assert(addr == (zp + x) % 256) by (bit_vector)
            requires
                addr == zp.wrapping_add(x) & 0xFF,
                zp < 256,
                x < 256,
        ;
        self.read_word(mem, addr)
    }

    fn zero_page_y(&mut self, mem: &Memory) -> (addr: u16)
        ensures
            addr == effective_address(AddressingMode::ZpY, *old(self), mem@),
            *final(self) == (Cpu { pc: after_operand(AddressingMode::ZpY, *old(self)), ..*old(self) }),
    {
        proof {
            reveal(effective_address);
        }
        let base = self.read_byte(mem, self.pc) as u16;
        self.pc = self.pc.wrapping_add(1);
        let y = self.y as u16;
        let addr = base.wrapping_add(y) & 0xFF;
        assert(addr == (base + y) % 256) by (bit_vector)
            requires
                addr == base.wrapping_add(y) & 0xFF,
                base < 256,
                y < 256,
        ;
        addr
    }

    fn absolute_y(&mut self, mem: &Memory) -> (addr: u16)
        ensures
            addr == effective_address(AddressingMode::AbsY, *old(self), mem@),
            *final(self) == (Cpu { pc: after_operand(AddressingMode::AbsY, *old(self)), ..*old(self) }),
    {
        proof {
            reveal(effective_address);
        }
        let base = self.read_word(mem, self.pc);
        self.pc = self.pc.wrapping_add(2);
        base.wrapping_add(self.y as u16)
    }

    fn fetch_relative(&mut self, mem: &Memory) -> (offset: i8)
        ensures
            offset as int == signed_offset(mem@.read(old(self).pc)),
            *final(self) == (Cpu { pc: after_operand(AddressingMode::Rel, *old(self)), ..*old(self) }),
    {
        let b = self.read_byte(mem, self.pc);
        let offset = b as i8;
        assert(offset == (if b < 128 { b as int } else { b - 256 })) by (bit_vector)
            requires
                offset == b as i8,
        ;
        self.pc = self.pc.wrapping_add(1);
        offset
    }

    fn indirect_y(&mut self, mem: &Memory) -> (addr: u16)
        ensures
            addr == effective_address(AddressingMode::IndY, *old(self), mem@),
            *final(self) == (Cpu { pc: after_operand(AddressingMode::IndY, *old(self)), ..*old(self) }),
    {
        proof {
            reveal(effective_address);
        }
        let zp = self.read_byte(mem, self.pc) as u16;
        self.pc = self.pc.wrapping_add(1);
        let base = self.read_word(mem, zp);
        base.wrapping_add(self.y as u16)
    }

    /// The program counter after a taken relative branch.
    fn branch_to(&self, offset: i8) -> (pc: u16)
        ensures
            pc == wrap16(self.pc + offset),
    {
        let pc = self.pc;
        let r = pc.wrapping_add(offset as u16);
        assert(r == (pc + offset) % 0x10000) by (bit_vector)
            requires
                r == pc.wrapping_add(offset as u16),
        ;
        r
    }

    /// Loads the reset vector at 0xFFFC into `pc` and puts the stack pointer
    /// and status in their reset state.
    pub fn reset(&mut self, mem: &mut Memory)
        ensures
            *final(self) == (Cpu { pc: word_at(old(mem)@, 0xFFFC), sp: 0xFD, status: 0x24, ..*old(self) }),
            *final(mem) == *old(mem),
    {
        proof {
            reveal(word_at);
        }
        let lo = mem.read(0xFFFC);
        let hi = mem.read(0xFFFD);
        let l = lo as u16;
        let h = hi as u16;
        assert((h << 8) | l == l + 256 * h) by (bit_vector)
            requires
                l < 256,
                h < 256,
        ;
        self.pc = ((hi as u16) << 8) | lo as u16;
        self.sp = 0xFD;
        self.status = 0x24;
    }

    /// Executes the instruction at `pc`, lets the TIA run for the cycles it
    /// took, and returns them.
    pub fn step(&mut self, mem: &mut Memory) -> (cycles: u32)
        requires
            old(mem)@.wf(),
            old(self).cycles + step_spec(*old(self), old(mem)@).2 <= u32::MAX,
        ensures
            (*final(self), final(mem)@, cycles) == step_spec(*old(self), old(mem)@),
            final(mem)@.wf(),
            1 <= cycles <= 7,
            final(self).cycles == old(self).cycles + cycles,
    {
        let opcode = self.read_byte(mem, self.pc);
        self.pc = self.pc.wrapping_add(1);
        assert(*self == (Cpu { pc: wrap16(old(self).pc + 1), ..*old(self) }));
        let ghost c1 = *self;
        let cycles = self.execute(opcode, mem);
        proof {
            lemma_execute_cycles(opcode, c1, old(mem)@);
        }
        mem.tia.tick(cycles);
        self.cycles += cycles;
        cycles
    }

    /// Runs instructions until at least `target_cycles` cycles have passed
    /// and returns the cycles that passed. When an instruction strobes
    /// WSYNC, the CPU waits for the end of the scanline.
    pub fn run_for_cycles(&mut self, mem: &mut Memory, target_cycles: u32) -> (total: u32)
        requires
            old(mem)@.wf(),
            target_cycles + 6 + SCANLINE_CYCLES <= u32::MAX,
            target_cycles == 0 || old(self).cycles + target_cycles + 6 <= u32::MAX,
        ensures
            (*final(self), final(mem)@, total as int) == run_spec(*old(self), old(mem)@, target_cycles as int, 0),
            target_cycles <= total < target_cycles + 7 + SCANLINE_CYCLES,
            target_cycles > 0 ==> !final(mem)@.tia.wsync,
            final(mem)@.wf(),
    {
        let mut total: u32 = 0;
        while total < target_cycles
            invariant
                mem@.wf(),
                total > 0 ==> !mem@.tia.wsync,
                target_cycles + 6 + SCANLINE_CYCLES <= u32::MAX,
                total < target_cycles + 7 + SCANLINE_CYCLES,
                self.cycles <= old(self).cycles + total,
                target_cycles == 0 || old(self).cycles + target_cycles + 6 <= u32::MAX,
                run_spec(*self, mem@, target_cycles as int, total as int) == run_spec(
                    *old(self),
                    old(mem)@,
                    target_cycles as int,
                    0,
                ),
            decreases (if total < target_cycles { target_cycles - total } else { 0 }),
        {
            proof {
                lemma_step_cycles(*self, mem@);
            }
            let cycles = self.step(mem);
            total += cycles;

            // While WSYNC is strobed, the CPU waits for the end of the scanline.
            if mem.tia.wsync {
                let remaining = SCANLINE_CYCLES - (mem.tia.cycle_in_scanline % SCANLINE_CYCLES);
                mem.tia.tick(remaining);
                total += remaining;
                mem.tia.wsync = false;
            }
        }
        total
    }

    /// Runs one full frame: 262 scanlines of 76 cycles.
    pub fn run_frame(&mut self, mem: &mut Memory) -> (total: u32)
        requires
            old(mem)@.wf(),
            old(self).cycles + FRAME_CYCLES + 6 <= u32::MAX,
        ensures
            (*final(self), final(mem)@, total as int) == run_spec(*old(self), old(mem)@, FRAME_CYCLES as int, 0),
            FRAME_CYCLES <= total < FRAME_CYCLES + 7 + SCANLINE_CYCLES,
            final(mem)@.wf(),
    {
        self.run_for_cycles(mem, FRAME_CYCLES)
    }

    fn push_word(&mut self, mem: &mut Memory, value: u16)
        ensures
            final(mem)@ == old(mem)@.write(stack_address(old(self).sp), (value / 256) as u8).write(
                stack_address(wrap8(old(self).sp - 1)),
                (value % 256) as u8,
            ),
            old(mem)@.wf() ==> final(mem)@.wf(),
            *final(self) == (Cpu { sp: wrap8(old(self).sp - 2), ..*old(self) }),
    {
        let hi = (value >> 8) as u8;
        let lo = (value & 0xFF) as u8;
        assert(hi == value / 256 && lo == value % 256) by (bit_vector)
            requires
                hi == (value >> 8) as u8,
                lo == (value & 0xFF) as u8,
        ;
        self.push_byte(mem, hi);
        self.push_byte(mem, lo);
    }

    fn push_byte(&mut self, mem: &mut Memory, value: u8)
        ensures
            final(mem)@ == old(mem)@.write(stack_address(old(self).sp), value),
            old(mem)@.wf() ==> final(mem)@.wf(),
            *final(self) == (Cpu { sp: wrap8(old(self).sp - 1), ..*old(self) }),
    {
        let sp = self.sp as u16;
        let addr = 0x100 | sp;
        assert(addr == 0x100 + sp) by (bit_vector)
            requires
                addr == 0x100 | sp,
                sp < 256,
        ;
        self.write_byte(mem, addr, value);
        self.sp = self.sp.wrapping_sub(1);
    }

    fn pull_word(&mut self, mem: &Memory) -> (w: u16)
        ensures
            w == mem@.read(stack_address(wrap8(old(self).sp + 1))) + 256 * mem@.read(
                stack_address(wrap8(old(self).sp + 2)),
            ),
            *final(self) == (Cpu { sp: wrap8(old(self).sp + 2), ..*old(self) }),
    {
        let lo = self.pull_byte(mem) as u16;
        let hi = self.pull_byte(mem) as u16;
        assert((hi << 8) | lo == lo + 256 * hi) by (bit_vector)
            requires
                lo < 256,
                hi < 256,
        ;
        (hi << 8) | lo
    }

    fn pull_byte(&mut self, mem: &Memory) -> (v: u8)
        ensures
            v == mem@.read(stack_address(wrap8(old(self).sp + 1))),
            *final(self) == (Cpu { sp: wrap8(old(self).sp + 1), ..*old(self) }),
    {
        self.sp = self.sp.wrapping_add(1);
        let sp = self.sp as u16;
        let addr = 0x100 | sp;
        assert(addr == 0x100 + sp) by (bit_vector)
            requires
                addr == 0x100 | sp,
                sp < 256,
        ;
        self.read_byte(mem, addr)
    }

    /// Executes `opcode`, whose operand bytes follow at `pc`, and returns
    /// the cycles it took.
    pub fn execute(&mut self, opcode: u8, mem: &mut Memory) -> (cycles: u32)
        ensures
            (*final(self), final(mem)@, cycles) == execute_spec(opcode, *old(self), old(mem)@),
            old(mem)@.wf() ==> final(mem)@.wf(),
    {
        match opcode / 8 {
            0 => self.execute_00_07(opcode, mem),
            1 => self.execute_08_0f(opcode, mem),
            2 => self.execute_10_17(opcode, mem),
            3 => self.execute_18_1f(opcode, mem),
            4 => self.execute_20_27(opcode, mem),
            5 => self.execute_28_2f(opcode, mem),
            6 => self.execute_30_37(opcode, mem),
            7 => self.execute_38_3f(opcode, mem),
            8 => self.execute_40_47(opcode, mem),
            9 => self.execute_48_4f(opcode, mem),
            10 => self.execute_50_57(opcode, mem),
            11 => self.execute_58_5f(opcode, mem),
            12 => self.execute_60_67(opcode, mem),
            13 => self.execute_68_6f(opcode, mem),
            14 => self.execute_70_77(opcode, mem),
            15 => self.execute_78_7f(opcode, mem),
            16 => self.execute_80_87(opcode, mem),
            17 => self.execute_88_8f(opcode, mem),
            18 => self.execute_90_97(opcode, mem),
            19 => self.execute_98_9f(opcode, mem),
            20 => self.execute_a0_a7(opcode, mem),
            21 => self.execute_a8_af(opcode, mem),
            22 => self.execute_b0_b7(opcode, mem),
            23 => self.execute_b8_bf(opcode, mem),
            24 => self.execute_c0_c7(opcode, mem),
            25 => self.execute_c8_cf(opcode, mem),
            26 => self.execute_d0_d7(opcode, mem),
            27 => self.execute_d8_df(opcode, mem),
            28 => self.execute_e0_e7(opcode, mem),
            29 => self.execute_e8_ef(opcode, mem),
            30 => self.execute_f0_f7(opcode, mem),
            _ => self.execute_f8_ff(opcode, mem),
        }
    }

    /// Opcodes 0x00..=0x07.
    #[verifier::rlimit(100)]
    #[verifier::spinoff_prover]
    fn execute_00_07(&mut self, opcode: u8, mem: &mut Memory) -> (cycles: u32)
        requires
            opcode / 8 == 0,
        ensures
            (*final(self), final(mem)@, cycles) == execute_spec(opcode, *old(self), old(mem)@),
            old(mem)@.wf() ==> final(mem)@.wf(),
    {
        proof {
            reveal(execute_spec);
            reveal(accumulate_spec);
            reveal(modify_spec);
        }
        match opcode {
            // BRK: simplified, it only takes its cycles
            0x00 => 7,
            // ORA (zp,X)
            0x01 => {
                let a = self.indirect_x(mem);
                let v = self.read_byte(mem, a);
                self.a |= v;
                self.set_z_n(self.a);
                6
            }
            // ORA zp
            0x05 => {
                let a = self.zero_page(mem);
                let v = self.read_byte(mem, a);
                self.a |= v;
                self.set_z_n(self.a);
                3
            }
            // ASL zp
            0x06 => {
                let a = self.zero_page(mem);
                let v = self.read_byte(mem, a);
                self.set_flag(FLAG_C, v & 0x80 != 0);
                let r = v << 1;
                self.write_byte(mem, a, r);
                self.set_z_n(r);
                5
            }
            // opcodes outside the official set
            0x02 | 0x03 | 0x04 | 0x07 => 1,
            _ => 1,
        }
    }

    /// Opcodes 0x08..=0x0F.
    #[verifier::rlimit(100)]
    #[verifier::spinoff_prover]
    fn execute_08_0f(&mut self, opcode: u8, mem: &mut Memory) -> (cycles: u32)
        requires
            opcode / 8 == 1,
        ensures
            (*final(self), final(mem)@, cycles) == execute_spec(opcode, *old(self), old(mem)@),
            old(mem)@.wf() ==> final(mem)@.wf(),
    {
        proof {
            reveal(execute_spec);
            reveal(accumulate_spec);
            reveal(modify_spec);
            reveal(stack_spec);
        }
        match opcode {
            // PHP: pushes the status with the B flag (bit 4) set
            0x08 => {
                self.push_byte(mem, self.status | 0x10);
                3
            }
            // ORA #imm
            0x09 => {
                let v = self.immediate(mem);
                self.a |= v;
                self.set_z_n(self.a);
                2
            }
            // ASL A
            0x0A => {
                self.set_flag(FLAG_C, self.a & 0x80 != 0);
                self.a <<= 1;
                self.set_z_n(self.a);
                2
            }
            // ORA abs
            0x0D => {
                let a = self.absolute(mem);
                let v = self.read_byte(mem, a);
                self.a |= v;
                self.set_z_n(self.a);
                4
            }
            // ASL abs
            0x0E => {
                let a = self.absolute(mem);
                let v = self.read_byte(mem, a);
                self.set_flag(FLAG_C, v & 0x80 != 0);
                let r = v << 1;
                self.write_byte(mem, a, r);
                self.set_z_n(r);
                6
            }
            // opcodes outside the official set
            0x0B | 0x0C | 0x0F => 1,
            _ => 1,
        }
    }

    /// Opcodes 0x10..=0x17.
    #[verifier::rlimit(100)]
    #[verifier::spinoff_prover]
    fn execute_10_17(&mut self, opcode: u8, mem: &mut Memory) -> (cycles: u32)
        requires
            opcode / 8 == 2,
        ensures
            (*final(self), final(mem)@, cycles) == execute_spec(opcode, *old(self), old(mem)@),
            old(mem)@.wf() ==> final(mem)@.wf(),
    {
        proof {
            reveal(execute_spec);
            reveal(accumulate_spec);
            reveal(branch_spec);
            reveal(modify_spec);
        }
        match opcode {
            // BPL rel
            0x10 => {
                let off = self.fetch_relative(mem);
                if !self.get_flag(FLAG_N) {
                    self.pc = self.branch_to(off);
                    4
                } else {
                    3
                }
            }
            // ORA (zp),Y
            0x11 => {
                let a = self.indirect_y(mem);
                let v = self.read_byte(mem, a);
                self.a |= v;
                self.set_z_n(self.a);
                5
            }
            // ORA zp,X
            0x15 => {
                let a = self.zero_page_x(mem);
                let v = self.read_byte(mem, a);
                self.a |= v;
                self.set_z_n(self.a);
                4
            }
            // ASL zp,X
            0x16 => {
                let a = self.zero_page_x(mem);
                let v = self.read_byte(mem, a);
                self.set_flag(FLAG_C, v & 0x80 != 0);
                let r = v << 1;
                self.write_byte(mem, a, r);
                self.set_z_n(r);
                6
            }
            // opcodes outside the official set
            0x12 | 0x13 | 0x14 | 0x17 => 1,
            _ => 1,
        }
    }

    /// Opcodes 0x18..=0x1F.
    #[verifier::rlimit(100)]
    #[verifier::spinoff_prover]
    fn execute_18_1f(&mut self, opcode: u8, mem: &mut Memory) -> (cycles: u32)
        requires
            opcode / 8 == 3,
        ensures
            (*final(self), final(mem)@, cycles) == execute_spec(opcode, *old(self), old(mem)@),
            old(mem)@.wf() ==> final(mem)@.wf(),
    {
        proof {
            reveal(execute_spec);
            reveal(accumulate_spec);
            reveal(flag_spec);
            reveal(modify_spec);
        }
        match opcode {
            // CLC
            0x18 => {
                self.set_flag(FLAG_C, false);
                2
            }
            // ORA abs,Y
            0x19 => {
                let a = self.absolute_y(mem);
                let v = self.read_byte(mem, a);
                self.a |= v;
                self.set_z_n(self.a);
                4
            }
            // ORA abs,X
            0x1D => {
                let a = self.absolute_x(mem);
                let v = self.read_byte(mem, a);
                self.a |= v;
                self.set_z_n(self.a);
                4
            }
            // ASL abs,X
            0x1E => {
                let a = self.absolute_x(mem);
                let v = self.read_byte(mem, a);
                self.set_flag(FLAG_C, v & 0x80 != 0);
                let r = v << 1;
                self.write_byte(mem, a, r);
                self.set_z_n(r);
                7
            }
            // opcodes outside the official set
            0x1A | 0x1B | 0x1C | 0x1F => 1,
            _ => 1,
        }
    }

    /// Opcodes 0x20..=0x27.
    #[verifier::rlimit(100)]
    #[verifier::spinoff_prover]
    fn execute_20_27(&mut self, opcode: u8, mem: &mut Memory) -> (cycles: u32)
        requires
            opcode / 8 == 4,
        ensures
            (*final(self), final(mem)@, cycles) == execute_spec(opcode, *old(self), old(mem)@),
            old(mem)@.wf() ==> final(mem)@.wf(),
    {
        proof {
            reveal(execute_spec);
            reveal(accumulate_spec);
            reveal(jump_spec);
            reveal(modify_spec);
            reveal(test_spec);
        }
        match opcode {
            // JSR abs
            0x20 => {
                let target = self.absolute(mem);
                let ret = self.pc;
                self.push_word(mem, ret);
                self.pc = target;
                6
            }
            // AND (zp,X)
            0x21 => {
                let a = self.indirect_x(mem);
                let v = self.read_byte(mem, a);
                self.a &= v;
                self.set_z_n(self.a);
                6
            }
            // BIT zp
            0x24 => {
                let a = self.zero_page(mem);
                let v = self.read_byte(mem, a);
                self.bit(v);
                3
            }
            // AND zp
            0x25 => {
                let a = self.zero_page(mem);
                let v = self.read_byte(mem, a);
                self.a &= v;
                self.set_z_n(self.a);
                3
            }
            // ROL zp
            0x26 => {
                let a = self.zero_page(mem);
                let v = self.read_byte(mem, a);
                let c: u8 = if self.get_flag(FLAG_C) { 1 } else { 0 };
                self.set_flag(FLAG_C, v & 0x80 != 0);
                let r = (v << 1) | c;
                self.write_byte(mem, a, r);
                self.set_z_n(r);
                5
            }
            // opcodes outside the official set
            0x22 | 0x23 | 0x27 => 1,
            _ => 1,
        }
    }

    /// Opcodes 0x28..=0x2F.
    #[verifier::rlimit(100)]
    #[verifier::spinoff_prover]
    fn execute_28_2f(&mut self, opcode: u8, mem: &mut Memory) -> (cycles: u32)
        requires
            opcode / 8 == 5,
        ensures
            (*final(self), final(mem)@, cycles) == execute_spec(opcode, *old(self), old(mem)@),
            old(mem)@.wf() ==> final(mem)@.wf(),
    {
        proof {
            reveal(execute_spec);
            reveal(accumulate_spec);
            reveal(modify_spec);
            reveal(stack_spec);
            reveal(test_spec);
        }
        match opcode {
            // PLP
            0x28 => {
                self.status = self.pull_byte(mem);
                4
            }
            // AND #imm
            0x29 => {
                let v = self.immediate(mem);
                self.a &= v;
                self.set_z_n(self.a);
                2
            }
            // ROL A
            0x2A => {
                let c: u8 = if self.get_flag(FLAG_C) { 1 } else { 0 };
                self.set_flag(FLAG_C, self.a & 0x80 != 0);
                self.a = (self.a << 1) | c;
                self.set_z_n(self.a);
                2
            }
            // BIT abs
            0x2C => {
                let a = self.absolute(mem);
                let v = self.read_byte(mem, a);
                self.bit(v);
                4
            }
            // AND abs
            0x2D => {
                let a = self.absolute(mem);
                let v = self.read_byte(mem, a);
                self.a &= v;
                self.set_z_n(self.a);
                4
            }
            // ROL abs
            0x2E => {
                let a = self.absolute(mem);
                let v = self.read_byte(mem, a);
                let c: u8 = if self.get_flag(FLAG_C) { 1 } else { 0 };
                self.set_flag(FLAG_C, v & 0x80 != 0);
                let r = (v << 1) | c;
                self.write_byte(mem, a, r);
                self.set_z_n(r);
                6
            }
            // opcodes outside the official set
            0x2B | 0x2F => 1,
            _ => 1,
        }
    }

    /// Opcodes 0x30..=0x37.
    #[verifier::rlimit(100)]
    #[verifier::spinoff_prover]
    fn execute_30_37(&mut self, opcode: u8, mem: &mut Memory) -> (cycles: u32)
        requires
            opcode / 8 == 6,
        ensures
            (*final(self), final(mem)@, cycles) == execute_spec(opcode, *old(self), old(mem)@),
            old(mem)@.wf() ==> final(mem)@.wf(),
    {
        proof {
            reveal(execute_spec);
            reveal(accumulate_spec);
            reveal(branch_spec);
            reveal(modify_spec);
        }
        match opcode {
            // BMI rel
            0x30 => {
                let off = self.fetch_relative(mem);
                if self.get_flag(FLAG_N) {
                    self.pc = self.branch_to(off);
                    4
                } else {
                    3
                }
            }
            // AND (zp),Y
            0x31 => {
                let a = self.indirect_y(mem);
                let v = self.read_byte(mem, a);
                self.a &= v;
                self.set_z_n(self.a);
                5
            }
            // AND zp,X
            0x35 => {
                let a = self.zero_page_x(mem);
                let v = self.read_byte(mem, a);
                self.a &= v;
                self.set_z_n(self.a);
                4
            }
            // ROL zp,X
            0x36 => {
                let a = self.zero_page_x(mem);
                let v = self.read_byte(mem, a);
                let c: u8 = if self.get_flag(FLAG_C) { 1 } else { 0 };
                self.set_flag(FLAG_C, v & 0x80 != 0);
                let r = (v << 1) | c;
                self.write_byte(mem, a, r);
                self.set_z_n(r);
                6
            }
            // opcodes outside the official set
            0x32 | 0x33 | 0x34 | 0x37 => 1,
            _ => 1,
        }
    }

    /// Opcodes 0x38..=0x3F.
    #[verifier::rlimit(100)]
    #[verifier::spinoff_prover]
    fn execute_38_3f(&mut self, opcode: u8, mem: &mut Memory) -> (cycles: u32)
        requires
            opcode / 8 == 7,
        ensures
            (*final(self), final(mem)@, cycles) == execute_spec(opcode, *old(self), old(mem)@),
            old(mem)@.wf() ==> final(mem)@.wf(),
    {
        proof {
            reveal(execute_spec);
            reveal(accumulate_spec);
            reveal(flag_spec);
            reveal(modify_spec);
        }
        match opcode {
            // SEC
            0x38 => {
                self.set_flag(FLAG_C, true);
                2
            }
            // AND abs,Y
            0x39 => {
                let a = self.absolute_y(mem);
                let v = self.read_byte(mem, a);
                self.a &= v;
                self.set_z_n(self.a);
                4
            }
            // AND abs,X
            0x3D => {
                let a = self.absolute_x(mem);
                let v = self.read_byte(mem, a);
                self.a &= v;
                self.set_z_n(self.a);
                4
            }
            // ROL abs,X
            0x3E => {
                let a = self.absolute_x(mem);
                let v = self.read_byte(mem, a);
                let c: u8 = if self.get_flag(FLAG_C) { 1 } else { 0 };
                self.set_flag(FLAG_C, v & 0x80 != 0);
                let r = (v << 1) | c;
                self.write_byte(mem, a, r);
                self.set_z_n(r);
                7
            }
            // opcodes outside the official set
            0x3A | 0x3B | 0x3C | 0x3F => 1,
            _ => 1,
        }
    }

    /// Opcodes 0x40..=0x47.
    #[verifier::rlimit(100)]
    #[verifier::spinoff_prover]
    fn execute_40_47(&mut self, opcode: u8, mem: &mut Memory) -> (cycles: u32)
        requires
            opcode / 8 == 8,
        ensures
            (*final(self), final(mem)@, cycles) == execute_spec(opcode, *old(self), old(mem)@),
            old(mem)@.wf() ==> final(mem)@.wf(),
    {
        proof {
            reveal(execute_spec);
            reveal(accumulate_spec);
            reveal(jump_spec);
            reveal(modify_spec);
        }
        match opcode {
            // RTI
            0x40 => {
                self.status = self.pull_byte(mem);
                self.pc = self.pull_word(mem);
                6
            }
            // EOR (zp,X)
            0x41 => {
                let a = self.indirect_x(mem);
                let v = self.read_byte(mem, a);
                self.a ^= v;
                self.set_z_n(self.a);
                6
            }
            // EOR zp
            0x45 => {
                let a = self.zero_page(mem);
                let v = self.read_byte(mem, a);
                self.a ^= v;
                self.set_z_n(self.a);
                3
            }
            // LSR zp
            0x46 => {
                let a = self.zero_page(mem);
                let v = self.read_byte(mem, a);
                self.set_flag(FLAG_C, v & 1 != 0);
                let r = v >> 1;
                self.write_byte(mem, a, r);
                self.set_z_n(r);
                5
            }
            // opcodes outside the official set
            0x42 | 0x43 | 0x44 | 0x47 => 1,
            _ => 1,
        }
    }

    /// Opcodes 0x48..=0x4F.
    #[verifier::rlimit(100)]
    #[verifier::spinoff_prover]
    fn execute_48_4f(&mut self, opcode: u8, mem: &mut Memory) -> (cycles: u32)
        requires
            opcode / 8 == 9,
        ensures
            (*final(self), final(mem)@, cycles) == execute_spec(opcode, *old(self), old(mem)@),
            old(mem)@.wf() ==> final(mem)@.wf(),
    {
        proof {
            reveal(execute_spec);
            reveal(accumulate_spec);
            reveal(jump_spec);
            reveal(modify_spec);
            reveal(stack_spec);
        }
        match opcode {
            // PHA
            0x48 => {
                self.push_byte(mem, self.a);
                3
            }
            // EOR #imm
            0x49 => {
                let v = self.immediate(mem);
                self.a ^= v;
                self.set_z_n(self.a);
                2
            }
            // LSR A
            0x4A => {
                self.set_flag(FLAG_C, self.a & 1 != 0);
                self.a >>= 1;
                self.set_z_n(self.a);
                2
            }
            // JMP abs
            0x4C => {
                let a = self.absolute(mem);
                self.pc = a;
                3
            }
            // EOR abs
            0x4D => {
                let a = self.absolute(mem);
                let v = self.read_byte(mem, a);
                self.a ^= v;
                self.set_z_n(self.a);
                4
            }
            // LSR abs
            0x4E => {
                let a = self.absolute(mem);
                let v = self.read_byte(mem, a);
                self.set_flag(FLAG_C, v & 1 != 0);
                let r = v >> 1;
                self.write_byte(mem, a, r);
                self.set_z_n(r);
                6
            }
            // opcodes outside the official set
            0x4B | 0x4F => 1,
            _ => 1,
        }
    }

    /// Opcodes 0x50..=0x57.
    #[verifier::rlimit(100)]
    #[verifier::spinoff_prover]
    fn execute_50_57(&mut self, opcode: u8, mem: &mut Memory) -> (cycles: u32)
        requires
            opcode / 8 == 10,
        ensures
            (*final(self), final(mem)@, cycles) == execute_spec(opcode, *old(self), old(mem)@),
            old(mem)@.wf() ==> final(mem)@.wf(),
    {
        proof {
            reveal(execute_spec);
            reveal(accumulate_spec);
            reveal(branch_spec);
            reveal(modify_spec);
        }
        match opcode {
            // BVC rel
            0x50 => {
                let off = self.fetch_relative(mem);
                if !self.get_flag(FLAG_V) {
                    self.pc = self.branch_to(off);
                    4
                } else {
                    3
                }
            }
            // EOR (zp),Y
            0x51 => {
                let a = self.indirect_y(mem);
                let v = self.read_byte(mem, a);
                self.a ^= v;
                self.set_z_n(self.a);
                5
            }
            // EOR zp,X
            0x55 => {
                let a = self.zero_page_x(mem);
                let v = self.read_byte(mem, a);
                self.a ^= v;
                self.set_z_n(self.a);
                4
            }
            // LSR zp,X
            0x56 => {
                let a = self.zero_page_x(mem);
                let v = self.read_byte(mem, a);
                self.set_flag(FLAG_C, v & 1 != 0);
                let r = v >> 1;
                self.write_byte(mem, a, r);
                self.set_z_n(r);
                6
            }
            // opcodes outside the official set
            0x52 | 0x53 | 0x54 | 0x57 => 1,
            _ => 1,
        }
    }

    /// Opcodes 0x58..=0x5F.
    #[verifier::rlimit(100)]
    #[verifier::spinoff_prover]
    fn execute_58_5f(&mut self, opcode: u8, mem: &mut Memory) -> (cycles: u32)
        requires
            opcode / 8 == 11,
        ensures
            (*final(self), final(mem)@, cycles) == execute_spec(opcode, *old(self), old(mem)@),
            old(mem)@.wf() ==> final(mem)@.wf(),
    {
        proof {
            reveal(execute_spec);
            reveal(accumulate_spec);
            reveal(flag_spec);
            reveal(modify_spec);
        }
        match opcode {
            // CLI
            0x58 => {
                self.set_flag(FLAG_I, false);
                2
            }
            // EOR abs,Y
            0x59 => {
                let a = self.absolute_y(mem);
                let v = self.read_byte(mem, a);
                self.a ^= v;
                self.set_z_n(self.a);
                4
            }
            // EOR abs,X
            0x5D => {
                let a = self.absolute_x(mem);
                let v = self.read_byte(mem, a);
                self.a ^= v;
                self.set_z_n(self.a);
                4
            }
            // LSR abs,X
            0x5E => {
                let a = self.absolute_x(mem);
                let v = self.read_byte(mem, a);
                self.set_flag(FLAG_C, v & 1 != 0);
                let r = v >> 1;
                self.write_byte(mem, a, r);
                self.set_z_n(r);
                7
            }
            // opcodes outside the official set
            0x5A | 0x5B | 0x5C | 0x5F => 1,
            _ => 1,
        }
    }

    /// Opcodes 0x60..=0x67.
    #[verifier::rlimit(100)]
    #[verifier::spinoff_prover]
    fn execute_60_67(&mut self, opcode: u8, mem: &mut Memory) -> (cycles: u32)
        requires
            opcode / 8 == 12,
        ensures
            (*final(self), final(mem)@, cycles) == execute_spec(opcode, *old(self), old(mem)@),
            old(mem)@.wf() ==> final(mem)@.wf(),
    {
        proof {
            reveal(execute_spec);
            reveal(accumulate_spec);
            reveal(jump_spec);
            reveal(modify_spec);
        }
        match opcode {
            // RTS
            0x60 => {
                self.pc = self.pull_word(mem);
                6
            }
            // ADC (zp,X)
            0x61 => {
                let a = self.indirect_x(mem);
                let v = self.read_byte(mem, a);
                self.adc(v);
                6
            }
            // ADC zp
            0x65 => {
                let a = self.zero_page(mem);
                let v = self.read_byte(mem, a);
                self.adc(v);
                3
            }
            // ROR zp
            0x66 => {
                let a = self.zero_page(mem);
                let v = self.read_byte(mem, a);
                let c: u8 = if self.get_flag(FLAG_C) { 1 } else { 0 };
                self.set_flag(FLAG_C, v & 1 != 0);
                let r = (v >> 1) | (c << 7);
                self.write_byte(mem, a, r);
                self.set_z_n(r);
                5
            }
            // opcodes outside the official set
            0x62 | 0x63 | 0x64 | 0x67 => 1,
            _ => 1,
        }
    }

    /// Opcodes 0x68..=0x6F.
    #[verifier::rlimit(100)]
    #[verifier::spinoff_prover]
    fn execute_68_6f(&mut self, opcode: u8, mem: &mut Memory) -> (cycles: u32)
        requires
            opcode / 8 == 13,
        ensures
            (*final(self), final(mem)@, cycles) == execute_spec(opcode, *old(self), old(mem)@),
            old(mem)@.wf() ==> final(mem)@.wf(),
    {
        proof {
            reveal(execute_spec);
            reveal(accumulate_spec);
            reveal(jump_spec);
            reveal(modify_spec);
            reveal(stack_spec);
        }
        match opcode {
            // PLA
            0x68 => {
                self.a = self.pull_byte(mem);
                self.set_z_n(self.a);
                4
            }
            // ADC #imm
            0x69 => {
                let v = self.immediate(mem);
                self.adc(v);
                2
            }
            // ROR A
            0x6A => {
                let c: u8 = if self.get_flag(FLAG_C) { 1 } else { 0 };
                self.set_flag(FLAG_C, self.a & 1 != 0);
                self.a = (self.a >> 1) | (c << 7);
                self.set_z_n(self.a);
                2
            }
            // JMP (ind)
            0x6C => {
                proof {
                    reveal(indirect_target);
                    reveal(effective_address);
                    reveal(word_at);
                }
                let addr_ptr = self.absolute(mem);
                let lo = self.read_byte(mem, addr_ptr) as u16;
                proof {
                    lemma_page_wrap(addr_ptr);
                }
                let hi_addr = if addr_ptr & 0x00FF == 0x00FF {
                    addr_ptr & 0xFF00
                } else {
                    addr_ptr + 1
                };
                let hi = self.read_byte(mem, hi_addr) as u16;
                assert((hi << 8) | lo == lo + 256 * hi) by (bit_vector)
                    requires
                        lo < 256,
                        hi < 256,
                ;
                self.pc = (hi << 8) | lo;
                5
            }
            // ADC abs
            0x6D => {
                let a = self.absolute(mem);
                let v = self.read_byte(mem, a);
                self.adc(v);
                4
            }
            // ROR abs
            0x6E => {
                let a = self.absolute(mem);
                let v = self.read_byte(mem, a);
                let c: u8 = if self.get_flag(FLAG_C) { 1 } else { 0 };
                self.set_flag(FLAG_C, v & 1 != 0);
                let r = (v >> 1) | (c << 7);
                self.write_byte(mem, a, r);
                self.set_z_n(r);
                6
            }
            // opcodes outside the official set
            0x6B | 0x6F => 1,
            _ => 1,
        }
    }

    /// Opcodes 0x70..=0x77.
    #[verifier::rlimit(100)]
    #[verifier::spinoff_prover]
    fn execute_70_77(&mut self, opcode: u8, mem: &mut Memory) -> (cycles: u32)
        requires
            opcode / 8 == 14,
        ensures
            (*final(self), final(mem)@, cycles) == execute_spec(opcode, *old(self), old(mem)@),
            old(mem)@.wf() ==> final(mem)@.wf(),
    {
        proof {
            reveal(execute_spec);
            reveal(accumulate_spec);
            reveal(branch_spec);
            reveal(modify_spec);
        }
        match opcode {
            // BVS rel
            0x70 => {
                let off = self.fetch_relative(mem);
                if self.get_flag(FLAG_V) {
                    self.pc = self.branch_to(off);
                    4
                } else {
                    3
                }
            }
            // ADC (zp),Y
            0x71 => {
                let a = self.indirect_y(mem);
                let v = self.read_byte(mem, a);
                self.adc(v);
                5
            }
            // ADC zp,X
            0x75 => {
                let a = self.zero_page_x(mem);
                let v = self.read_byte(mem, a);
                self.adc(v);
                4
            }
            // ROR zp,X
            0x76 => {
                let a = self.zero_page_x(mem);
                let v = self.read_byte(mem, a);
                let c: u8 = if self.get_flag(FLAG_C) { 1 } else { 0 };
                self.set_flag(FLAG_C, v & 1 != 0);
                let r = (v >> 1) | (c << 7);
                self.write_byte(mem, a, r);
                self.set_z_n(r);
                6
            }
            // opcodes outside the official set
            0x72 | 0x73 | 0x74 | 0x77 => 1,
            _ => 1,
        }
    }

    /// Opcodes 0x78..=0x7F.
    #[verifier::rlimit(100)]
    #[verifier::spinoff_prover]
    fn execute_78_7f(&mut self, opcode: u8, mem: &mut Memory) -> (cycles: u32)
        requires
            opcode / 8 == 15,
        ensures
            (*final(self), final(mem)@, cycles) == execute_spec(opcode, *old(self), old(mem)@),
            old(mem)@.wf() ==> final(mem)@.wf(),
    {
        proof {
            reveal(execute_spec);
            reveal(accumulate_spec);
            reveal(flag_spec);
            reveal(modify_spec);
        }
        match opcode {
            // SEI
            0x78 => {
                self.set_flag(FLAG_I, true);
                2
            }
            // ADC abs,Y
            0x79 => {
                let a = self.absolute_y(mem);
                let v = self.read_byte(mem, a);
                self.adc(v);
                4
            }
            // ADC abs,X
            0x7D => {
                let a = self.absolute_x(mem);
                let v = self.read_byte(mem, a);
                self.adc(v);
                4
            }
            // ROR abs,X
            0x7E => {
                let a = self.absolute_x(mem);
                let v = self.read_byte(mem, a);
                let c: u8 = if self.get_flag(FLAG_C) { 1 } else { 0 };
                self.set_flag(FLAG_C, v & 1 != 0);
                let r = (v >> 1) | (c << 7);
                self.write_byte(mem, a, r);
                self.set_z_n(r);
                7
            }
            // opcodes outside the official set
            0x7A | 0x7B | 0x7C | 0x7F => 1,
            _ => 1,
        }
    }

    /// Opcodes 0x80..=0x87.
    #[verifier::rlimit(100)]
    #[verifier::spinoff_prover]
    fn execute_80_87(&mut self, opcode: u8, mem: &mut Memory) -> (cycles: u32)
        requires
            opcode / 8 == 16,
        ensures
            (*final(self), final(mem)@, cycles) == execute_spec(opcode, *old(self), old(mem)@),
            old(mem)@.wf() ==> final(mem)@.wf(),
    {
        proof {
            reveal(execute_spec);
            reveal(store_spec);
        }
        match opcode {
            // STA (zp,X)
            0x81 => {
                let a = self.indirect_x(mem);
                self.write_byte(mem, a, self.a);
                6
            }
            // STY zp
            0x84 => {
                let a = self.zero_page(mem);
                self.write_byte(mem, a, self.y);
                3
            }
            // STA zp
            0x85 => {
                let a = self.zero_page(mem);
                self.write_byte(mem, a, self.a);
                3
            }
            // STX zp
            0x86 => {
                let a = self.zero_page(mem);
                self.write_byte(mem, a, self.x);
                3
            }
            // opcodes outside the official set
            0x80 | 0x82 | 0x83 | 0x87 => 1,
            _ => 1,
        }
    }

    /// Opcodes 0x88..=0x8F.
    #[verifier::rlimit(100)]
    #[verifier::spinoff_prover]
    fn execute_88_8f(&mut self, opcode: u8, mem: &mut Memory) -> (cycles: u32)
        requires
            opcode / 8 == 17,
        ensures
            (*final(self), final(mem)@, cycles) == execute_spec(opcode, *old(self), old(mem)@),
            old(mem)@.wf() ==> final(mem)@.wf(),
    {
        proof {
            reveal(execute_spec);
            reveal(register_spec);
            reveal(store_spec);
        }
        match opcode {
            // DEY
            0x88 => {
                self.y = self.y.wrapping_sub(1);
                self.set_z_n(self.y);
                2
            }
            // TXA
            0x8A => {
                self.a = self.x;
                self.set_z_n(self.a);
                2
            }
            // STY abs
            0x8C => {
                let a = self.absolute(mem);
                self.write_byte(mem, a, self.y);
                4
            }
            // STA abs
            0x8D => {
                let a = self.absolute(mem);
                self.write_byte(mem, a, self.a);
                4
            }
            // STX abs
            0x8E => {
                let a = self.absolute(mem);
                self.write_byte(mem, a, self.x);
                4
            }
            // opcodes outside the official set
            0x89 | 0x8B | 0x8F => 1,
            _ => 1,
        }
    }

    /// Opcodes 0x90..=0x97.
    #[verifier::rlimit(100)]
    #[verifier::spinoff_prover]
    fn execute_90_97(&mut self, opcode: u8, mem: &mut Memory) -> (cycles: u32)
        requires
            opcode / 8 == 18,
        ensures
            (*final(self), final(mem)@, cycles) == execute_spec(opcode, *old(self), old(mem)@),
            old(mem)@.wf() ==> final(mem)@.wf(),
    {
        proof {
            reveal(execute_spec);
            reveal(branch_spec);
            reveal(store_spec);
        }
        match opcode {
            // BCC rel
            0x90 => {
                let off = self.fetch_relative(mem);
                if !self.get_flag(FLAG_C) {
                    self.pc = self.branch_to(off);
                    4
                } else {
                    3
                }
            }
            // STA (zp),Y
            0x91 => {
                let a = self.indirect_y(mem);
                self.write_byte(mem, a, self.a);
                6
            }
            // STY zp,X
            0x94 => {
                let a = self.zero_page_x(mem);
                self.write_byte(mem, a, self.y);
                4
            }
            // STA zp,X
            0x95 => {
                let a = self.zero_page_x(mem);
                self.write_byte(mem, a, self.a);
                4
            }
            // STX zp,Y
            0x96 => {
                let a = self.zero_page_y(mem);
                self.write_byte(mem, a, self.x);
                4
            }
            // opcodes outside the official set
            0x92 | 0x93 | 0x97 => 1,
            _ => 1,
        }
    }

    /// Opcodes 0x98..=0x9F.
    #[verifier::rlimit(100)]
    #[verifier::spinoff_prover]
    fn execute_98_9f(&mut self, opcode: u8, mem: &mut Memory) -> (cycles: u32)
        requires
            opcode / 8 == 19,
        ensures
            (*final(self), final(mem)@, cycles) == execute_spec(opcode, *old(self), old(mem)@),
            old(mem)@.wf() ==> final(mem)@.wf(),
    {
        proof {
            reveal(execute_spec);
            reveal(register_spec);
            reveal(store_spec);
        }
        match opcode {
            // TYA
            0x98 => {
                self.a = self.y;
                self.set_z_n(self.a);
                2
            }
            // STA abs,Y
            0x99 => {
                let a = self.absolute_y(mem);
                self.write_byte(mem, a, self.a);
                5
            }
            // TXS
            0x9A => {
                self.sp = self.x;
                2
            }
            // STA abs,X
            0x9D => {
                let a = self.absolute_x(mem);
                self.write_byte(mem, a, self.a);
                5
            }
            // opcodes outside the official set
            0x9B | 0x9C | 0x9E | 0x9F => 1,
            _ => 1,
        }
    }

    /// Opcodes 0xA0..=0xA7.
    #[verifier::rlimit(100)]
    #[verifier::spinoff_prover]
    fn execute_a0_a7(&mut self, opcode: u8, mem: &mut Memory) -> (cycles: u32)
        requires
            opcode / 8 == 20,
        ensures
            (*final(self), final(mem)@, cycles) == execute_spec(opcode, *old(self), old(mem)@),
            old(mem)@.wf() ==> final(mem)@.wf(),
    {
        proof {
            reveal(execute_spec);
            reveal(load_spec);
        }
        match opcode {
            // LDY #imm
            0xA0 => {
                let v = self.immediate(mem);
                self.y = v;
                self.set_z_n(v);
                2
            }
            // LDA (zp,X)
            0xA1 => {
                let a = self.indirect_x(mem);
                let v = self.read_byte(mem, a);
                self.a = v;
                self.set_z_n(v);
                6
            }
            // LDX #imm
            0xA2 => {
                let v = self.immediate(mem);
                self.x = v;
                self.set_z_n(v);
                2
            }
            // LDY zp
            0xA4 => {
                let a = self.zero_page(mem);
                let v = self.read_byte(mem, a);
                self.y = v;
                self.set_z_n(v);
                3
            }
            // LDA zp
            0xA5 => {
                let a = self.zero_page(mem);
                let v = self.read_byte(mem, a);
                self.a = v;
                self.set_z_n(v);
                3
            }
            // LDX zp
            0xA6 => {
                let a = self.zero_page(mem);
                let v = self.read_byte(mem, a);
                self.x = v;
                self.set_z_n(v);
                3
            }
            // opcodes outside the official set
            0xA3 | 0xA7 => 1,
            _ => 1,
        }
    }

    /// Opcodes 0xA8..=0xAF.
    #[verifier::rlimit(100)]
    #[verifier::spinoff_prover]
    fn execute_a8_af(&mut self, opcode: u8, mem: &mut Memory) -> (cycles: u32)
        requires
            opcode / 8 == 21,
        ensures
            (*final(self), final(mem)@, cycles) == execute_spec(opcode, *old(self), old(mem)@),
            old(mem)@.wf() ==> final(mem)@.wf(),
    {
        proof {
            reveal(execute_spec);
            reveal(load_spec);
            reveal(register_spec);
        }
        match opcode {
            // TAY
            0xA8 => {
                self.y = self.a;
                self.set_z_n(self.y);
                2
            }
            // LDA #imm
            0xA9 => {
                let v = self.immediate(mem);
                self.a = v;
                self.set_z_n(v);
                2
            }
            // TAX
            0xAA => {
                self.x = self.a;
                self.set_z_n(self.x);
                2
            }
            // LDY abs
            0xAC => {
                let a = self.absolute(mem);
                let v = self.read_byte(mem, a);
                self.y = v;
                self.set_z_n(v);
                4
            }
            // LDA abs
            0xAD => {
                let a = self.absolute(mem);
                let v = self.read_byte(mem, a);
                self.a = v;
                self.set_z_n(v);
                4
            }
            // LDX abs
            0xAE => {
                let a = self.absolute(mem);
                let v = self.read_byte(mem, a);
                self.x = v;
                self.set_z_n(v);
                4
            }
            // opcodes outside the official set
            0xAB | 0xAF => 1,
            _ => 1,
        }
    }

    /// Opcodes 0xB0..=0xB7.
    #[verifier::rlimit(100)]
    #[verifier::spinoff_prover]
    fn execute_b0_b7(&mut self, opcode: u8, mem: &mut Memory) -> (cycles: u32)
        requires
            opcode / 8 == 22,
        ensures
            (*final(self), final(mem)@, cycles) == execute_spec(opcode, *old(self), old(mem)@),
            old(mem)@.wf() ==> final(mem)@.wf(),
    {
        proof {
            reveal(execute_spec);
            reveal(branch_spec);
            reveal(load_spec);
        }
        match opcode {
            // BCS rel
            0xB0 => {
                let off = self.fetch_relative(mem);
                if self.get_flag(FLAG_C) {
                    self.pc = self.branch_to(off);
                    4
                } else {
                    3
                }
            }
            // LDA (zp),Y
            0xB1 => {
                let a = self.indirect_y(mem);
                let v = self.read_byte(mem, a);
                self.a = v;
                self.set_z_n(v);
                5
            }
            // LDY zp,X
            0xB4 => {
                let a = self.zero_page_x(mem);
                let v = self.read_byte(mem, a);
                self.y = v;
                self.set_z_n(v);
                4
            }
            // LDA zp,X
            0xB5 => {
                let a = self.zero_page_x(mem);
                let v = self.read_byte(mem, a);
                self.a = v;
                self.set_z_n(v);
                4
            }
            // LDX zp,Y
            0xB6 => {
                let a = self.zero_page_y(mem);
                let v = self.read_byte(mem, a);
                self.x = v;
                self.set_z_n(v);
                4
            }
            // opcodes outside the official set
            0xB2 | 0xB3 | 0xB7 => 1,
            _ => 1,
        }
    }

    /// Opcodes 0xB8..=0xBF.
    #[verifier::rlimit(100)]
    #[verifier::spinoff_prover]
    fn execute_b8_bf(&mut self, opcode: u8, mem: &mut Memory) -> (cycles: u32)
        requires
            opcode / 8 == 23,
        ensures
            (*final(self), final(mem)@, cycles) == execute_spec(opcode, *old(self), old(mem)@),
            old(mem)@.wf() ==> final(mem)@.wf(),
    {
        proof {
            reveal(execute_spec);
            reveal(flag_spec);
            reveal(load_spec);
            reveal(register_spec);
        }
        match opcode {
            // CLV
            0xB8 => {
                self.set_flag(FLAG_V, false);
                2
            }
            // LDA abs,Y
            0xB9 => {
                let a = self.absolute_y(mem);
                let v = self.read_byte(mem, a);
                self.a = v;
                self.set_z_n(v);
                4
            }
            // TSX
            0xBA => {
                self.x = self.sp;
                self.set_z_n(self.x);
                2
            }
            // LDY abs,X
            0xBC => {
                let a = self.absolute_x(mem);
                let v = self.read_byte(mem, a);
                self.y = v;
                self.set_z_n(v);
                4
            }
            // LDA abs,X
            0xBD => {
                let a = self.absolute_x(mem);
                let v = self.read_byte(mem, a);
                self.a = v;
                self.set_z_n(v);
                4
            }
            // LDX abs,Y
            0xBE => {
                let a = self.absolute_y(mem);
                let v = self.read_byte(mem, a);
                self.x = v;
                self.set_z_n(v);
                4
            }
            // opcodes outside the official set
            0xBB | 0xBF => 1,
            _ => 1,
        }
    }

    /// Opcodes 0xC0..=0xC7.
    #[verifier::rlimit(100)]
    #[verifier::spinoff_prover]
    fn execute_c0_c7(&mut self, opcode: u8, mem: &mut Memory) -> (cycles: u32)
        requires
            opcode / 8 == 24,
        ensures
            (*final(self), final(mem)@, cycles) == execute_spec(opcode, *old(self), old(mem)@),
            old(mem)@.wf() ==> final(mem)@.wf(),
    {
        proof {
            reveal(execute_spec);
            reveal(modify_spec);
            reveal(test_spec);
        }
        match opcode {
            // CPY #imm
            0xC0 => {
                let v = self.immediate(mem);
                self.compare(self.y, v);
                2
            }
            // CMP (zp,X)
            0xC1 => {
                let a = self.indirect_x(mem);
                let v = self.read_byte(mem, a);
                self.compare(self.a, v);
                6
            }
            // CPY zp
            0xC4 => {
                let a = self.zero_page(mem);
                let v = self.read_byte(mem, a);
                self.compare(self.y, v);
                3
            }
            // CMP zp
            0xC5 => {
                let a = self.zero_page(mem);
                let v = self.read_byte(mem, a);
                self.compare(self.a, v);
                3
            }
            // DEC zp
            0xC6 => {
                let a = self.zero_page(mem);
                let v = self.read_byte(mem, a).wrapping_sub(1);
                self.write_byte(mem, a, v);
                self.set_z_n(v);
                5
            }
            // opcodes outside the official set
            0xC2 | 0xC3 | 0xC7 => 1,
            _ => 1,
        }
    }

    /// Opcodes 0xC8..=0xCF.
    #[verifier::rlimit(100)]
    #[verifier::spinoff_prover]
    fn execute_c8_cf(&mut self, opcode: u8, mem: &mut Memory) -> (cycles: u32)
        requires
            opcode / 8 == 25,
        ensures
            (*final(self), final(mem)@, cycles) == execute_spec(opcode, *old(self), old(mem)@),
            old(mem)@.wf() ==> final(mem)@.wf(),
    {
        proof {
            reveal(execute_spec);
            reveal(modify_spec);
            reveal(register_spec);
            reveal(test_spec);
        }
        match opcode {
            // INY
            0xC8 => {
                self.y = self.y.wrapping_add(1);
                self.set_z_n(self.y);
                2
            }
            // CMP #imm
            0xC9 => {
                let v = self.immediate(mem);
                self.compare(self.a, v);
                2
            }
            // DEX
            0xCA => {
                self.x = self.x.wrapping_sub(1);
                self.set_z_n(self.x);
                2
            }
            // CPY abs
            0xCC => {
                let a = self.absolute(mem);
                let v = self.read_byte(mem, a);
                self.compare(self.y, v);
                4
            }
            // CMP abs
            0xCD => {
                let a = self.absolute(mem);
                let v = self.read_byte(mem, a);
                self.compare(self.a, v);
                4
            }
            // DEC abs
            0xCE => {
                let a = self.absolute(mem);
                let v = self.read_byte(mem, a).wrapping_sub(1);
                self.write_byte(mem, a, v);
                self.set_z_n(v);
                6
            }
            // opcodes outside the official set
            0xCB | 0xCF => 1,
            _ => 1,
        }
    }

    /// Opcodes 0xD0..=0xD7.
    #[verifier::rlimit(100)]
    #[verifier::spinoff_prover]
    fn execute_d0_d7(&mut self, opcode: u8, mem: &mut Memory) -> (cycles: u32)
        requires
            opcode / 8 == 26,
        ensures
            (*final(self), final(mem)@, cycles) == execute_spec(opcode, *old(self), old(mem)@),
            old(mem)@.wf() ==> final(mem)@.wf(),
    {
        proof {
            reveal(execute_spec);
            reveal(branch_spec);
            reveal(modify_spec);
            reveal(test_spec);
        }
        match opcode {
            // BNE rel
            0xD0 => {
                let off = self.fetch_relative(mem);
                if !self.get_flag(FLAG_Z) {
                    self.pc = self.branch_to(off);
                    4
                } else {
                    2
                }
            }
            // CMP (zp),Y
            0xD1 => {
                let a = self.indirect_y(mem);
                let v = self.read_byte(mem, a);
                self.compare(self.a, v);
                5
            }
            // CMP zp,X
            0xD5 => {
                let a = self.zero_page_x(mem);
                let v = self.read_byte(mem, a);
                self.compare(self.a, v);
                4
            }
            // DEC zp,X
            0xD6 => {
                let a = self.zero_page_x(mem);
                let v = self.read_byte(mem, a).wrapping_sub(1);
                self.write_byte(mem, a, v);
                self.set_z_n(v);
                6
            }
            // opcodes outside the official set
            0xD2 | 0xD3 | 0xD4 | 0xD7 => 1,
            _ => 1,
        }
    }

    /// Opcodes 0xD8..=0xDF.
    #[verifier::rlimit(100)]
    #[verifier::spinoff_prover]
    fn execute_d8_df(&mut self, opcode: u8, mem: &mut Memory) -> (cycles: u32)
        requires
            opcode / 8 == 27,
        ensures
            (*final(self), final(mem)@, cycles) == execute_spec(opcode, *old(self), old(mem)@),
            old(mem)@.wf() ==> final(mem)@.wf(),
    {
        proof {
            reveal(execute_spec);
            reveal(flag_spec);
            reveal(modify_spec);
            reveal(test_spec);
        }
        match opcode {
            // CLD
            0xD8 => {
                self.set_flag(FLAG_D, false);
                2
            }
            // CMP abs,Y
            0xD9 => {
                let a = self.absolute_y(mem);
                let v = self.read_byte(mem, a);
                self.compare(self.a, v);
                4
            }
            // CMP abs,X
            0xDD => {
                let a = self.absolute_x(mem);
                let v = self.read_byte(mem, a);
                self.compare(self.a, v);
                4
            }
            // DEC abs,X
            0xDE => {
                let a = self.absolute_x(mem);
                let v = self.read_byte(mem, a).wrapping_sub(1);
                self.write_byte(mem, a, v);
                self.set_z_n(v);
                7
            }
            // opcodes outside the official set
            0xDA | 0xDB | 0xDC | 0xDF => 1,
            _ => 1,
        }
    }

    /// Opcodes 0xE0..=0xE7.
    #[verifier::rlimit(100)]
    #[verifier::spinoff_prover]
    fn execute_e0_e7(&mut self, opcode: u8, mem: &mut Memory) -> (cycles: u32)
        requires
            opcode / 8 == 28,
        ensures
            (*final(self), final(mem)@, cycles) == execute_spec(opcode, *old(self), old(mem)@),
            old(mem)@.wf() ==> final(mem)@.wf(),
    {
        proof {
            reveal(execute_spec);
            reveal(accumulate_spec);
            reveal(modify_spec);
            reveal(test_spec);
        }
        match opcode {
            // CPX #imm
            0xE0 => {
                let v = self.immediate(mem);
                self.compare(self.x, v);
                2
            }
            // SBC (zp,X)
            0xE1 => {
                let a = self.indirect_x(mem);
                let v = self.read_byte(mem, a);
                self.sbc(v);
                6
            }
            // CPX zp
            0xE4 => {
                let a = self.zero_page(mem);
                let v = self.read_byte(mem, a);
                self.compare(self.x, v);
                3
            }
            // SBC zp
            0xE5 => {
                let a = self.zero_page(mem);
                let v = self.read_byte(mem, a);
                self.sbc(v);
                3
            }
            // INC zp
            0xE6 => {
                let a = self.zero_page(mem);
                let v = self.read_byte(mem, a).wrapping_add(1);
                self.write_byte(mem, a, v);
                self.set_z_n(v);
                5
            }
            // opcodes outside the official set
            0xE2 | 0xE3 | 0xE7 => 1,
            _ => 1,
        }
    }

    /// Opcodes 0xE8..=0xEF.
    #[verifier::rlimit(100)]
    #[verifier::spinoff_prover]
    fn execute_e8_ef(&mut self, opcode: u8, mem: &mut Memory) -> (cycles: u32)
        requires
            opcode / 8 == 29,
        ensures
            (*final(self), final(mem)@, cycles) == execute_spec(opcode, *old(self), old(mem)@),
            old(mem)@.wf() ==> final(mem)@.wf(),
    {
        proof {
            reveal(execute_spec);
            reveal(accumulate_spec);
            reveal(modify_spec);
            reveal(register_spec);
            reveal(test_spec);
        }
        match opcode {
            // INX
            0xE8 => {
                self.x = self.x.wrapping_add(1);
                self.set_z_n(self.x);
                2
            }
            // SBC #imm
            0xE9 => {
                let v = self.immediate(mem);
                self.sbc(v);
                2
            }
            // NOP
            0xEA => 2,
            // CPX abs
            0xEC => {
                let a = self.absolute(mem);
                let v = self.read_byte(mem, a);
                self.compare(self.x, v);
                4
            }
            // SBC abs
            0xED => {
                let a = self.absolute(mem);
                let v = self.read_byte(mem, a);
                self.sbc(v);
                4
            }
            // INC abs
            0xEE => {
                let a = self.absolute(mem);
                let v = self.read_byte(mem, a).wrapping_add(1);
                self.write_byte(mem, a, v);
                self.set_z_n(v);
                6
            }
            // opcodes outside the official set
            0xEB | 0xEF => 1,
            _ => 1,
        }
    }

    /// Opcodes 0xF0..=0xF7.
    #[verifier::rlimit(100)]
    #[verifier::spinoff_prover]
    fn execute_f0_f7(&mut self, opcode: u8, mem: &mut Memory) -> (cycles: u32)
        requires
            opcode / 8 == 30,
        ensures
            (*final(self), final(mem)@, cycles) == execute_spec(opcode, *old(self), old(mem)@),
            old(mem)@.wf() ==> final(mem)@.wf(),
    {
        proof {
            reveal(execute_spec);
            reveal(accumulate_spec);
            reveal(branch_spec);
            reveal(modify_spec);
        }
        match opcode {
            // BEQ rel
            0xF0 => {
                let off = self.fetch_relative(mem);
                if self.get_flag(FLAG_Z) {
                    self.pc = self.branch_to(off);
                    4
                } else {
                    2
                }
            }
            // SBC (zp),Y
            0xF1 => {
                let a = self.indirect_y(mem);
                let v = self.read_byte(mem, a);
                self.sbc(v);
                5
            }
            // SBC zp,X
            0xF5 => {
                let a = self.zero_page_x(mem);
                let v = self.read_byte(mem, a);
                self.sbc(v);
                4
            }
            // INC zp,X
            0xF6 => {
                let a = self.zero_page_x(mem);
                let v = self.read_byte(mem, a).wrapping_add(1);
                self.write_byte(mem, a, v);
                self.set_z_n(v);
                6
            }
            // opcodes outside the official set
            0xF2 | 0xF3 | 0xF4 | 0xF7 => 1,
            _ => 1,
        }
    }

    /// Opcodes 0xF8..=0xFF.
    #[verifier::rlimit(100)]
    #[verifier::spinoff_prover]
    fn execute_f8_ff(&mut self, opcode: u8, mem: &mut Memory) -> (cycles: u32)
        requires
            opcode / 8 == 31,
        ensures
            (*final(self), final(mem)@, cycles) == execute_spec(opcode, *old(self), old(mem)@),
            old(mem)@.wf() ==> final(mem)@.wf(),
    {
        proof {
            reveal(execute_spec);
            reveal(accumulate_spec);
            reveal(flag_spec);
            reveal(modify_spec);
        }
        match opcode {
            // SED
            0xF8 => {
                self.set_flag(FLAG_D, true);
                2
            }
            // SBC abs,Y
            0xF9 => {
                let a = self.absolute_y(mem);
                let v = self.read_byte(mem, a);
                self.sbc(v);
                4
            }
            // SBC abs,X
            0xFD => {
                let a = self.absolute_x(mem);
                let v = self.read_byte(mem, a);
                self.sbc(v);
                4
            }
            // INC abs,X
            0xFE => {
                let a = self.absolute_x(mem);
                let v = self.read_byte(mem, a).wrapping_add(1);
                self.write_byte(mem, a, v);
                self.set_z_n(v);
                7
            }
            // opcodes outside the official set
            0xFA | 0xFB | 0xFC | 0xFF => 1,
            _ => 1,
        }
    }
}

} // verus!
