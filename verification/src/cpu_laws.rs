//! What each kind of instruction does, stated in plain arithmetic on the
//! registers, the status bits (C = bit 0, Z = bit 1, I = bit 2, D = bit 3,
//! V = bit 6, N = bit 7) and the bytes of memory.
use vstd::prelude::*;
use crate::cpu::{
    Cpu, adc_result, bit_status, branch_spec, compare_status, execute_spec, flag, flag_spec, load_spec,
    modify_spec, accumulate_spec, register_spec, sbc_result, store_spec, test_spec, with_flag, with_zn,
    wrap16, effective_address, word_at,
};
use crate::memory::MemoryView;

verus! {

/// Status after a result `v`: Z and N describe it, the other bits stay.
proof fn lemma_zn_bits(s: u8, v: u8)
    ensures
        with_zn(s, v) == (s & 0x7D) | (if v == 0 { 2u8 } else { 0u8 }) | (v & 0x80),
{
    reveal(with_zn);
    reveal(with_flag);
    assert((if v >= 0x80 {
        (if v == 0 { s | 2 } else { s & !2u8 }) | 0x80
    } else {
        (if v == 0 { s | 2 } else { s & !2u8 }) & !0x80u8
    }) == (s & 0x7D) | (if v == 0 { 2u8 } else { 0u8 }) | (v & 0x80)) by (bit_vector);
}

/// Status after a result `v` with carry `carry`.
proof fn lemma_czn_bits(s: u8, carry: bool, v: u8)
    ensures
        with_zn(with_flag(s, 1, carry), v) == (s & 0x7C) | (if carry { 1u8 } else { 0u8 }) | (if v == 0 {
            2u8
        } else {
            0u8
        }) | (v & 0x80),
{
    reveal(with_flag);
    let s1 = with_flag(s, 1, carry);
    lemma_zn_bits(s1, v);
    assert(((if carry { s | 1 } else { s & !1u8 }) & 0x7D) == (s & 0x7C) | (if carry { 1u8 } else { 0u8 }))
        by (bit_vector);
}

/// Status after a result `v` with carry `carry` and overflow `overflow`.
proof fn lemma_cvzn_bits(s: u8, carry: bool, overflow: bool, v: u8)
    ensures
        with_zn(with_flag(with_flag(s, 1, carry), 0x40, overflow), v) == (s & 0x3C) | (if carry {
            1u8
        } else {
            0u8
        }) | (if overflow { 0x40u8 } else { 0u8 }) | (if v == 0 { 2u8 } else { 0u8 }) | (v & 0x80),
{
    reveal(with_flag);
    let s2 = with_flag(with_flag(s, 1, carry), 0x40, overflow);
    lemma_zn_bits(s2, v);
    assert(((if overflow {
        (if carry { s | 1 } else { s & !1u8 }) | 0x40
    } else {
        (if carry { s | 1 } else { s & !1u8 }) & !0x40u8
    }) & 0x7D) == (s & 0x3C) | (if carry { 1u8 } else { 0u8 }) | (if overflow { 0x40u8 } else { 0u8 }))
        by (bit_vector);
}

/// The value of a byte read as a two's complement number.
pub open spec fn signed(b: u8) -> int {
    if b >= 128 {
        b - 256
    } else {
        b as int
    }
}

/// ASL, LSR, ROL and ROR on the accumulator: ASL doubles it and LSR halves
/// it, with the bit shifted out going to C; ROL and ROR also shift the old
/// carry in, ROL into bit 0 and ROR into bit 7. Z and N describe the
/// result; nothing else changes, and each takes 2 cycles.
#[verifier::spinoff_prover]
pub proof fn lemma_shift_accumulator(c: Cpu, m: MemoryView)
    ensures
        ({
            let cin: int = if c.status & 1 != 0 { 1 } else { 0 };
            let asl = ((c.a * 2) % 256) as u8;
            let lsr = (c.a / 2) as u8;
            let rol = ((c.a * 2) % 256 + cin) as u8;
            let ror = (c.a / 2 + 128 * cin) as u8;
            &&& execute_spec(0x0A, c, m) == (Cpu {
                a: asl,
                status: (c.status & 0x7C) | (if c.a >= 128 { 1u8 } else { 0u8 }) | (if asl == 0 { 2u8 } else { 0u8 })
                    | (asl & 0x80),
                ..c
            }, m, 2u32)
            &&& execute_spec(0x4A, c, m) == (Cpu {
                a: lsr,
                status: (c.status & 0x7C) | (c.a % 2) | (if lsr == 0 { 2u8 } else { 0u8 }) | (lsr & 0x80),
                ..c
            }, m, 2u32)
            &&& execute_spec(0x2A, c, m) == (Cpu {
                a: rol,
                status: (c.status & 0x7C) | (if c.a >= 128 { 1u8 } else { 0u8 }) | (if rol == 0 { 2u8 } else { 0u8 })
                    | (rol & 0x80),
                ..c
            }, m, 2u32)
            &&& execute_spec(0x6A, c, m) == (Cpu {
                a: ror,
                status: (c.status & 0x7C) | (c.a % 2) | (if ror == 0 { 2u8 } else { 0u8 }) | (ror & 0x80),
                ..c
            }, m, 2u32)
        }),
{
    reveal(execute_spec);
    reveal(modify_spec);
    reveal(flag);
    let a = c.a;
    let s = c.status;
    let cin: u8 = if s & 1 != 0 { 1 } else { 0 };
    assert(cin == (if flag(s, 1) { 1u8 } else { 0u8 }));
    assert(a << 1u8 == ((a * 2) % 256) as u8 && a >> 1u8 == (a / 2) as u8 && (a & 0x80 != 0) == (a >= 128)
        && (a & 1 != 0) == (a % 2 == 1)) by (bit_vector);
    assert(((a << 1u8) | cin) == (((a * 2) % 256 + cin) as u8) && ((a >> 1u8) | (cin << 7u8)) == ((a / 2
        + 128 * cin) as u8)) by (bit_vector)
        requires
            cin <= 1,
    ;
    lemma_czn_bits(s, a >= 128, ((a * 2) % 256) as u8);
    lemma_czn_bits(s, a % 2 == 1, (a / 2) as u8);
    lemma_czn_bits(s, a >= 128, ((a * 2) % 256 + cin) as u8);
    lemma_czn_bits(s, a % 2 == 1, (a / 2 + 128 * cin) as u8);
    assert((if a % 2 == 1 { 1u8 } else { 0u8 }) == a % 2);
}

/// ASL, LSR, ROL, ROR, INC and DEC on a zero-page byte: the byte at the
/// address that follows the opcode is shifted, rotated, incremented or
/// decremented (modulo 256) in place, with the same carry rules as on the
/// accumulator; Z and N describe the new byte; 5 cycles.
#[verifier::spinoff_prover]
pub proof fn lemma_modify_zero_page(c: Cpu, m: MemoryView)
    ensures
        ({
            let ad = m.read(c.pc) as u16;
            let v = m.read(ad);
            let cin: int = if c.status & 1 != 0 { 1 } else { 0 };
            let next = Cpu { pc: wrap16(c.pc + 1), ..c };
            let asl = ((v * 2) % 256) as u8;
            let lsr = (v / 2) as u8;
            let rol = ((v * 2) % 256 + cin) as u8;
            let ror = (v / 2 + 128 * cin) as u8;
            let inc = ((v + 1) % 256) as u8;
            let dec = ((v + 255) % 256) as u8;
            &&& execute_spec(0x06, c, m) == (Cpu {
                status: (c.status & 0x7C) | (if v >= 128 { 1u8 } else { 0u8 }) | (if asl == 0 { 2u8 } else { 0u8 })
                    | (asl & 0x80),
                ..next
            }, m.write(ad, asl), 5u32)
            &&& execute_spec(0x46, c, m) == (Cpu {
                status: (c.status & 0x7C) | (v % 2) | (if lsr == 0 { 2u8 } else { 0u8 }) | (lsr & 0x80),
                ..next
            }, m.write(ad, lsr), 5u32)
            &&& execute_spec(0x26, c, m) == (Cpu {
                status: (c.status & 0x7C) | (if v >= 128 { 1u8 } else { 0u8 }) | (if rol == 0 { 2u8 } else { 0u8 })
                    | (rol & 0x80),
                ..next
            }, m.write(ad, rol), 5u32)
            &&& execute_spec(0x66, c, m) == (Cpu {
                status: (c.status & 0x7C) | (v % 2) | (if ror == 0 { 2u8 } else { 0u8 }) | (ror & 0x80),
                ..next
            }, m.write(ad, ror), 5u32)
            &&& execute_spec(0xE6, c, m) == (Cpu {
                status: (c.status & 0x7D) | (if inc == 0 { 2u8 } else { 0u8 }) | (inc & 0x80),
                ..next
            }, m.write(ad, inc), 5u32)
            &&& execute_spec(0xC6, c, m) == (Cpu {
                status: (c.status & 0x7D) | (if dec == 0 { 2u8 } else { 0u8 }) | (dec & 0x80),
                ..next
            }, m.write(ad, dec), 5u32)
        }),
{
    reveal(execute_spec);
    reveal(modify_spec);
    reveal(effective_address);
    reveal(flag);
    let ad = m.read(c.pc) as u16;
    let v = m.read(ad);
    let s = c.status;
    let cin: u8 = if s & 1 != 0 { 1 } else { 0 };
    assert(cin == (if flag(s, 1) { 1u8 } else { 0u8 }));
    assert(v << 1u8 == ((v * 2) % 256) as u8 && v >> 1u8 == (v / 2) as u8 && (v & 0x80 != 0) == (v >= 128)
        && (v & 1 != 0) == (v % 2 == 1)) by (bit_vector);
    assert(((v << 1u8) | cin) == (((v * 2) % 256 + cin) as u8) && ((v >> 1u8) | (cin << 7u8)) == ((v / 2
        + 128 * cin) as u8)) by (bit_vector)
        requires
            cin <= 1,
    ;
    lemma_czn_bits(s, v >= 128, ((v * 2) % 256) as u8);
    lemma_czn_bits(s, v % 2 == 1, (v / 2) as u8);
    lemma_czn_bits(s, v >= 128, ((v * 2) % 256 + cin) as u8);
    lemma_czn_bits(s, v % 2 == 1, (v / 2 + 128 * cin) as u8);
    lemma_zn_bits(s, ((v + 1) % 256) as u8);
    lemma_zn_bits(s, ((v + 255) % 256) as u8);
    assert(((v - 1) % 256) as u8 == ((v + 255) % 256) as u8);
    assert((if v % 2 == 1 { 1u8 } else { 0u8 }) == v % 2);
}

/// The status after loading `v`: Z and N describe it.
pub open spec fn loaded(s: u8, v: u8) -> u8 {
    (s & 0x7D) | (if v == 0 { 2u8 } else { 0u8 }) | (v & 0x80)
}

/// LDA in each addressing mode loads the byte that the mode names: the
/// immediate byte after the opcode; the zero-page byte it addresses,
/// indexed by X within page zero; the absolute address (low byte first),
/// indexed by X or Y modulo 2^16; the word at zero-page address b + X (or
/// at b, then indexed by Y). `pc` moves past the operand; cycles as listed.
#[verifier::spinoff_prover]
#[verifier::rlimit(80)]
pub proof fn lemma_lda_modes(c: Cpu, m: MemoryView)
    ensures
        ({
            let b1 = m.read(c.pc);
            let b2 = m.read(wrap16(c.pc + 1));
            let w = b1 + 256 * b2;
            let zx = ((b1 + c.x) % 256) as u16;
            let ind_x = m.read(zx) + 256 * m.read(wrap16(zx + 1));
            let ind_y = m.read(b1 as u16) + 256 * m.read(wrap16(b1 + 1));
            let one = wrap16(c.pc + 1);
            let two = wrap16(c.pc + 2);
            let lda = |v: u8, pc: u16, cy: u32| (Cpu { a: v, status: loaded(c.status, v), pc, ..c }, m, cy);
            &&& execute_spec(0xA9, c, m) == lda(b1, one, 2)
            &&& execute_spec(0xA5, c, m) == lda(m.read(b1 as u16), one, 3)
            &&& execute_spec(0xB5, c, m) == lda(m.read(zx), one, 4)
            &&& execute_spec(0xAD, c, m) == lda(m.read(w as u16), two, 4)
            &&& execute_spec(0xBD, c, m) == lda(m.read(((w + c.x) % 0x10000) as u16), two, 4)
            &&& execute_spec(0xB9, c, m) == lda(m.read(((w + c.y) % 0x10000) as u16), two, 4)
            &&& execute_spec(0xA1, c, m) == lda(m.read(ind_x as u16), one, 6)
            &&& execute_spec(0xB1, c, m) == lda(m.read(((ind_y + c.y) % 0x10000) as u16), one, 5)
        }),
{
    reveal(execute_spec);
    reveal(load_spec);
    reveal(effective_address);
    reveal(word_at);
    let b1 = m.read(c.pc);
    lemma_zn_bits(c.status, b1);
    lemma_zn_bits(c.status, m.read(b1 as u16));
    let zx = ((b1 + c.x) % 256) as u16;
    lemma_zn_bits(c.status, m.read(zx));
    let w = word_at(m, c.pc);
    lemma_zn_bits(c.status, m.read(w));
    lemma_zn_bits(c.status, m.read(wrap16(w + c.x)));
    lemma_zn_bits(c.status, m.read(wrap16(w + c.y)));
    lemma_zn_bits(c.status, m.read(word_at(m, zx)));
    lemma_zn_bits(c.status, m.read(wrap16(word_at(m, b1 as u16) + c.y)));
}

/// STA in each addressing mode writes A to the address that the mode
/// names (as for LDA); STX and STY write X and Y; LDX and LDY load X and
/// Y. Nothing else changes but `pc`, and the memory for stores.
#[verifier::spinoff_prover]
#[verifier::rlimit(80)]
pub proof fn lemma_store_and_register_loads(c: Cpu, m: MemoryView)
    ensures
        ({
            let b1 = m.read(c.pc);
            let b2 = m.read(wrap16(c.pc + 1));
            let w = b1 + 256 * b2;
            let zx = ((b1 + c.x) % 256) as u16;
            let zy = ((b1 + c.y) % 256) as u16;
            let ind_x = m.read(zx) + 256 * m.read(wrap16(zx + 1));
            let ind_y = m.read(b1 as u16) + 256 * m.read(wrap16(b1 + 1));
            let one = Cpu { pc: wrap16(c.pc + 1), ..c };
            let two = Cpu { pc: wrap16(c.pc + 2), ..c };
            &&& execute_spec(0x85, c, m) == (one, m.write(b1 as u16, c.a), 3u32)
            &&& execute_spec(0x95, c, m) == (one, m.write(zx, c.a), 4u32)
            &&& execute_spec(0x8D, c, m) == (two, m.write(w as u16, c.a), 4u32)
            &&& execute_spec(0x9D, c, m) == (two, m.write(((w + c.x) % 0x10000) as u16, c.a), 5u32)
            &&& execute_spec(0x99, c, m) == (two, m.write(((w + c.y) % 0x10000) as u16, c.a), 5u32)
            &&& execute_spec(0x81, c, m) == (one, m.write(ind_x as u16, c.a), 6u32)
            &&& execute_spec(0x91, c, m) == (one, m.write(((ind_y + c.y) % 0x10000) as u16, c.a), 6u32)
            &&& execute_spec(0x86, c, m) == (one, m.write(b1 as u16, c.x), 3u32)
            &&& execute_spec(0x96, c, m) == (one, m.write(zy, c.x), 4u32)
            &&& execute_spec(0x84, c, m) == (one, m.write(b1 as u16, c.y), 3u32)
            &&& execute_spec(0x94, c, m) == (one, m.write(zx, c.y), 4u32)
            &&& execute_spec(0xA2, c, m) == (Cpu { x: b1, status: loaded(c.status, b1), ..one }, m, 2u32)
            &&& execute_spec(0xA0, c, m) == (Cpu { y: b1, status: loaded(c.status, b1), ..one }, m, 2u32)
            &&& execute_spec(0xB6, c, m) == (Cpu { x: m.read(zy), status: loaded(c.status, m.read(zy)), ..one }, m, 4u32)
        }),
{
    reveal(execute_spec);
    reveal(store_spec);
    reveal(load_spec);
    reveal(effective_address);
    reveal(word_at);
    let b1 = m.read(c.pc);
    lemma_zn_bits(c.status, b1);
    let zy = ((b1 + c.y) % 256) as u16;
    lemma_zn_bits(c.status, m.read(zy));
}

/// ADC, SBC, AND, ORA and EOR with an immediate operand `v`.
/// ADC: A + v + C modulo 256, C when the sum exceeds 255, V when the sum of
/// the signed values leaves -128..=127. SBC: A - v - (1 - C) modulo 256, C
/// when no borrow occurs (the difference is not negative), V when the
/// signed difference leaves -128..=127. AND, ORA, EOR: the bitwise
/// operation; C and V stay. Z and N describe the new A; 2 cycles each.
#[verifier::spinoff_prover]
#[verifier::rlimit(80)]
pub proof fn lemma_arithmetic_immediate(c: Cpu, m: MemoryView)
    ensures
        ({
            let v = m.read(c.pc);
            let cin: int = if c.status & 1 != 0 { 1 } else { 0 };
            let next = Cpu { pc: wrap16(c.pc + 1), ..c };
            let sum = c.a + v + cin;
            let ssum = signed(c.a) + signed(v) + cin;
            let r_add = (sum % 256) as u8;
            let diff = c.a - v - (1 - cin);
            let sdiff = signed(c.a) - signed(v) - (1 - cin);
            let r_sub = ((diff + 256) % 256) as u8;
            let flags = |r: u8, carry: bool, overflow: bool|
                (c.status & 0x3C) | (if carry { 1u8 } else { 0u8 }) | (if overflow { 0x40u8 } else { 0u8 })
                    | (if r == 0 { 2u8 } else { 0u8 }) | (r & 0x80);
            &&& execute_spec(0x69, c, m) == (Cpu {
                a: r_add,
                status: flags(r_add, sum > 255, !(-128 <= ssum <= 127)),
                ..next
            }, m, 2u32)
            &&& execute_spec(0xE9, c, m) == (Cpu {
                a: r_sub,
                status: flags(r_sub, diff >= 0, !(-128 <= sdiff <= 127)),
                ..next
            }, m, 2u32)
            &&& execute_spec(0x29, c, m) == (Cpu { a: c.a & v, status: loaded(c.status, c.a & v), ..next }, m, 2u32)
            &&& execute_spec(0x09, c, m) == (Cpu { a: c.a | v, status: loaded(c.status, c.a | v), ..next }, m, 2u32)
            &&& execute_spec(0x49, c, m) == (Cpu { a: c.a ^ v, status: loaded(c.status, c.a ^ v), ..next }, m, 2u32)
        }),
{
    reveal(execute_spec);
    reveal(accumulate_spec);
    reveal(adc_result);
    reveal(sbc_result);
    reveal(flag);
    let v = m.read(c.pc);
    let a = c.a;
    let cin: int = if c.status & 1 != 0 { 1 } else { 0 };
    let sum = a + v + cin;
    let r_add = (sum % 256) as u8;
    let diff = a - v - (1 - cin);
    let r_sub = ((diff + 256) % 256) as u8;
    assert(((diff % 256) as u8) == r_sub);
    lemma_cvzn_bits(c.status, sum > 255, (a < 0x80) == (v < 0x80) && (r_add < 0x80) != (a < 0x80), r_add);
    lemma_cvzn_bits(c.status, diff >= 0, (a < 0x80) != (v < 0x80) && (r_sub < 0x80) != (a < 0x80), r_sub);
    lemma_zn_bits(c.status, a & v);
    lemma_zn_bits(c.status, a | v);
    lemma_zn_bits(c.status, a ^ v);
}

/// CMP, CPX and CPY compare A, X and Y with the immediate byte `v`: C when
/// the register is at least `v`, Z when they are equal, N from bit 7 of
/// the register minus `v` modulo 256; no register changes. BIT sets Z when
/// A & v is zero and copies bits 7 and 6 of the zero-page byte `v` to N and V.
#[verifier::spinoff_prover]
#[verifier::rlimit(80)]
pub proof fn lemma_compare_and_bit(c: Cpu, m: MemoryView)
    ensures
        ({
            let b1 = m.read(c.pc);
            let next = Cpu { pc: wrap16(c.pc + 1), ..c };
            let compared = |reg: u8|
                (c.status & 0x7C) | (if reg >= b1 { 1u8 } else { 0u8 }) | (if reg == b1 { 2u8 } else { 0u8 })
                    | (((reg - b1 + 256) % 256) as u8 & 0x80);
            let z = m.read(b1 as u16);
            &&& execute_spec(0xC9, c, m) == (Cpu { status: compared(c.a), ..next }, m, 2u32)
            &&& execute_spec(0xE0, c, m) == (Cpu { status: compared(c.x), ..next }, m, 2u32)
            &&& execute_spec(0xC0, c, m) == (Cpu { status: compared(c.y), ..next }, m, 2u32)
            &&& execute_spec(0x24, c, m) == (Cpu {
                status: (c.status & 0x3D) | (if c.a & z == 0 { 2u8 } else { 0u8 }) | (z & 0xC0),
                ..next
            }, m, 3u32)
        }),
{
    reveal(execute_spec);
    reveal(test_spec);
    reveal(compare_status);
    reveal(bit_status);
    reveal(effective_address);
    reveal(with_flag);
    let b1 = m.read(c.pc);
    lemma_czn_bits(c.status, c.a >= b1, ((c.a - b1) % 256) as u8);
    lemma_czn_bits(c.status, c.x >= b1, ((c.x - b1) % 256) as u8);
    lemma_czn_bits(c.status, c.y >= b1, ((c.y - b1) % 256) as u8);
    assert(((c.a - b1) % 256) as u8 == ((c.a - b1 + 256) % 256) as u8);
    assert(((c.x - b1) % 256) as u8 == ((c.x - b1 + 256) % 256) as u8);
    assert(((c.y - b1) % 256) as u8 == ((c.y - b1 + 256) % 256) as u8);
    let z = m.read(b1 as u16);
    let s = c.status;
    let a = c.a;
    assert((if z & 0x40 != 0 {
        (if z >= 0x80 {
            (if a & z == 0 { s | 2 } else { s & !2u8 }) | 0x80
        } else {
            (if a & z == 0 { s | 2 } else { s & !2u8 }) & !0x80u8
        }) | 0x40
    } else {
        (if z >= 0x80 {
            (if a & z == 0 { s | 2 } else { s & !2u8 }) | 0x80
        } else {
            (if a & z == 0 { s | 2 } else { s & !2u8 }) & !0x80u8
        }) & !0x40u8
    }) == (s & 0x3D) | (if a & z == 0 { 2u8 } else { 0u8 }) | (z & 0xC0)) by (bit_vector);
}

/// Register transfers and increments: TAX, TAY, TXA, TYA, TSX copy one
/// register into another and set Z and N from the value; TXS copies X into
/// the stack pointer and leaves the flags; INX, INY, DEX, DEY add or take
/// one modulo 256. 2 cycles each; nothing else changes.
#[verifier::spinoff_prover]
#[verifier::rlimit(80)]
pub proof fn lemma_register_operations(c: Cpu, m: MemoryView)
    ensures
        ({
            let inx = ((c.x + 1) % 256) as u8;
            let iny = ((c.y + 1) % 256) as u8;
            let dex = ((c.x + 255) % 256) as u8;
            let dey = ((c.y + 255) % 256) as u8;
            &&& execute_spec(0xAA, c, m) == (Cpu { x: c.a, status: loaded(c.status, c.a), ..c }, m, 2u32)
            &&& execute_spec(0xA8, c, m) == (Cpu { y: c.a, status: loaded(c.status, c.a), ..c }, m, 2u32)
            &&& execute_spec(0x8A, c, m) == (Cpu { a: c.x, status: loaded(c.status, c.x), ..c }, m, 2u32)
            &&& execute_spec(0x98, c, m) == (Cpu { a: c.y, status: loaded(c.status, c.y), ..c }, m, 2u32)
            &&& execute_spec(0xBA, c, m) == (Cpu { x: c.sp, status: loaded(c.status, c.sp), ..c }, m, 2u32)
            &&& execute_spec(0x9A, c, m) == (Cpu { sp: c.x, ..c }, m, 2u32)
            &&& execute_spec(0xE8, c, m) == (Cpu { x: inx, status: loaded(c.status, inx), ..c }, m, 2u32)
            &&& execute_spec(0xC8, c, m) == (Cpu { y: iny, status: loaded(c.status, iny), ..c }, m, 2u32)
            &&& execute_spec(0xCA, c, m) == (Cpu { x: dex, status: loaded(c.status, dex), ..c }, m, 2u32)
            &&& execute_spec(0x88, c, m) == (Cpu { y: dey, status: loaded(c.status, dey), ..c }, m, 2u32)
        }),
{
    reveal(execute_spec);
    reveal(register_spec);
    lemma_zn_bits(c.status, c.a);
    lemma_zn_bits(c.status, c.x);
    lemma_zn_bits(c.status, c.y);
    lemma_zn_bits(c.status, c.sp);
    lemma_zn_bits(c.status, ((c.x + 1) % 256) as u8);
    lemma_zn_bits(c.status, ((c.y + 1) % 256) as u8);
    lemma_zn_bits(c.status, ((c.x - 1) % 256) as u8);
    lemma_zn_bits(c.status, ((c.y - 1) % 256) as u8);
    assert(((c.x - 1) % 256) as u8 == ((c.x + 255) % 256) as u8);
    assert(((c.y - 1) % 256) as u8 == ((c.y + 255) % 256) as u8);
}

/// CLC, SEC, CLI, SEI, CLV, CLD, SED clear or set one status bit (C, I, V
/// or D) and nothing else; NOP changes nothing. 2 cycles each.
#[verifier::spinoff_prover]
pub proof fn lemma_flag_operations(c: Cpu, m: MemoryView)
    ensures
        execute_spec(0x18, c, m) == (Cpu { status: c.status & 0xFE, ..c }, m, 2u32),
        execute_spec(0x38, c, m) == (Cpu { status: c.status | 0x01, ..c }, m, 2u32),
        execute_spec(0x58, c, m) == (Cpu { status: c.status & 0xFB, ..c }, m, 2u32),
        execute_spec(0x78, c, m) == (Cpu { status: c.status | 0x04, ..c }, m, 2u32),
        execute_spec(0xB8, c, m) == (Cpu { status: c.status & 0xBF, ..c }, m, 2u32),
        execute_spec(0xD8, c, m) == (Cpu { status: c.status & 0xF7, ..c }, m, 2u32),
        execute_spec(0xF8, c, m) == (Cpu { status: c.status | 0x08, ..c }, m, 2u32),
        execute_spec(0xEA, c, m) == (c, m, 2u32),
{
    reveal(execute_spec);
    reveal(flag_spec);
    reveal(with_flag);
    let s = c.status;
    assert(s & !1u8 == s & 0xFE && s & !4u8 == s & 0xFB && s & !0x40u8 == s & 0xBF && s & !8u8 == s & 0xF7)
        by (bit_vector);
}

/// The eight conditional branches: BPL and BMI test N (bit 7), BVC and BVS
/// test V (bit 6), BCC and BCS test C (bit 0), BNE and BEQ test Z (bit 1);
/// the first of each pair branches when the bit is clear, the second when
/// it is set. A taken branch adds the signed offset byte to the address
/// after it and takes 4 cycles; one not taken steps over the offset byte
/// (3 cycles, 2 for BNE and BEQ). Nothing but `pc` changes.
#[verifier::spinoff_prover]
#[verifier::rlimit(80)]
pub proof fn lemma_branches(c: Cpu, m: MemoryView)
    ensures
        ({
            let after = wrap16(c.pc + 1);
            let target = wrap16(c.pc + 1 + signed(m.read(c.pc)));
            let branch = |taken: bool, not_taken_cycles: u32|
                if taken {
                    (Cpu { pc: target, ..c }, m, 4u32)
                } else {
                    (Cpu { pc: after, ..c }, m, not_taken_cycles)
                };
            let s = c.status;
            &&& execute_spec(0x10, c, m) == branch(s & 0x80 == 0, 3)
            &&& execute_spec(0x30, c, m) == branch(s & 0x80 != 0, 3)
            &&& execute_spec(0x50, c, m) == branch(s & 0x40 == 0, 3)
            &&& execute_spec(0x70, c, m) == branch(s & 0x40 != 0, 3)
            &&& execute_spec(0x90, c, m) == branch(s & 0x01 == 0, 3)
            &&& execute_spec(0xB0, c, m) == branch(s & 0x01 != 0, 3)
            &&& execute_spec(0xD0, c, m) == branch(s & 0x02 == 0, 2)
            &&& execute_spec(0xF0, c, m) == branch(s & 0x02 != 0, 2)
        }),
{
    reveal(execute_spec);
    reveal(branch_spec);
    reveal(flag);
    let b = m.read(c.pc);
    assert(wrap16(wrap16(c.pc + 1) + crate::cpu::signed_offset(b)) == wrap16(c.pc + 1 + signed(b)));
}

/// The stack lives on page one at 0x100 + S. PHA and PHP store A, or the
/// status with bit 4 set, at 0x100 + S and move S down by one (modulo
/// 256); PLA and PLP move S up by one and load A (Z and N describing it) or
/// the status from 0x100 + S. 3 cycles to push, 4 to pull.
#[verifier::spinoff_prover]
#[verifier::rlimit(80)]
pub proof fn lemma_stack_operations(c: Cpu, m: MemoryView)
    ensures
        ({
            let top = (0x100 + c.sp) as u16;
            let down = ((c.sp + 255) % 256) as u8;
            let up = ((c.sp + 1) % 256) as u8;
            let pulled = m.read((0x100 + up) as u16);
            &&& execute_spec(0x48, c, m) == (Cpu { sp: down, ..c }, m.write(top, c.a), 3u32)
            &&& execute_spec(0x08, c, m) == (Cpu { sp: down, ..c }, m.write(top, c.status | 0x10), 3u32)
            &&& execute_spec(0x68, c, m) == (Cpu { a: pulled, sp: up, status: loaded(c.status, pulled), ..c }, m, 4u32)
            &&& execute_spec(0x28, c, m) == (Cpu { status: pulled, sp: up, ..c }, m, 4u32)
        }),
{
    reveal(execute_spec);
    reveal(crate::cpu::stack_spec);
    let up = ((c.sp + 1) % 256) as u8;
    lemma_zn_bits(c.status, m.read((0x100 + up) as u16));
    assert(((c.sp - 1) % 256) as u8 == ((c.sp + 255) % 256) as u8);
}

/// JMP takes the absolute address after the opcode (low byte first); JMP
/// indirect takes the word at that pointer, reading the high byte from the
/// start of the same page when the pointer ends a page. JSR pushes the
/// address after its operand, high byte at 0x100 + S and low byte below,
/// and jumps; RTS pulls that address back (low byte first); RTI pulls the
/// status and then the address. S moves by the bytes pushed or pulled.
#[verifier::spinoff_prover]
#[verifier::rlimit(80)]
pub proof fn lemma_jumps(c: Cpu, m: MemoryView)
    ensures
        ({
            let b1 = m.read(c.pc);
            let b2 = m.read(wrap16(c.pc + 1));
            let w = (b1 + 256 * b2) as u16;
            let hi_ptr = if b1 == 0xFF { (w - 0xFF) as u16 } else { (w + 1) as u16 };
            let ret = wrap16(c.pc + 2);
            let at = |i: int| m.read((0x100 + (c.sp + i) % 256) as u16);
            &&& execute_spec(0x4C, c, m) == (Cpu { pc: w, ..c }, m, 3u32)
            &&& execute_spec(0x6C, c, m) == (Cpu { pc: (m.read(w) + 256 * m.read(hi_ptr)) as u16, ..c }, m, 5u32)
            &&& execute_spec(0x20, c, m) == (Cpu { pc: w, sp: ((c.sp + 254) % 256) as u8, ..c }, m.write(
                (0x100 + c.sp) as u16,
                (ret / 256) as u8,
            ).write((0x100 + (c.sp + 255) % 256) as u16, (ret % 256) as u8), 6u32)
            &&& execute_spec(0x60, c, m) == (Cpu {
                pc: (at(1) + 256 * at(2)) as u16,
                sp: ((c.sp + 2) % 256) as u8,
                ..c
            }, m, 6u32)
            &&& execute_spec(0x40, c, m) == (Cpu {
                status: at(1),
                pc: (at(2) + 256 * at(3)) as u16,
                sp: ((c.sp + 3) % 256) as u8,
                ..c
            }, m, 6u32)
        }),
{
    reveal(execute_spec);
    reveal(crate::cpu::jump_spec);
    reveal(effective_address);
    reveal(word_at);
    reveal(crate::cpu::indirect_target);
    let b1 = m.read(c.pc);
    let w = word_at(m, c.pc);
    assert(w % 256 == b1);
    assert(((c.sp - 1) % 256) as u8 == (c.sp + 255) % 256);
    assert(((c.sp - 2) % 256) as u8 == (c.sp + 254) % 256);
    assert(((((c.sp - 2) % 256) as u8 + 1) % 256) as u8 == (c.sp + 255) % 256);
    assert(((((c.sp - 2) % 256) as u8 + 2) % 256) as u8 == c.sp);
}

/// BRK and the opcodes outside the official set change nothing; BRK takes
/// 7 cycles, the others 1.
#[verifier::spinoff_prover]
pub proof fn lemma_inert_opcodes(c: Cpu, m: MemoryView)
    ensures
        execute_spec(0x00, c, m) == (c, m, 7u32),
        execute_spec(0x02, c, m) == (c, m, 1u32),
        execute_spec(0x89, c, m) == (c, m, 1u32),
        execute_spec(0xFF, c, m) == (c, m, 1u32),
{
    reveal(execute_spec);
}

/// Cycles by addressing mode. Reading instructions (here ADC, and likewise
/// LDA, AND, CMP and the rest) take 2 immediate, 3 zero page, 4 zero page
/// indexed or absolute (indexed too), 6 (zp,X) and 5 (zp),Y. Stores take 3,
/// 4, 4, 5 absolute indexed, and 6 through a pointer. Read-modify-write
/// instructions take 2 on the accumulator, 5 zero page, 6 zero page
/// indexed or absolute, 7 absolute indexed.
#[verifier::spinoff_prover]
#[verifier::rlimit(80)]
pub proof fn lemma_cycles_by_mode(c: Cpu, m: MemoryView)
    ensures
        execute_spec(0x69, c, m).2 == 2,
        execute_spec(0x65, c, m).2 == 3,
        execute_spec(0x75, c, m).2 == 4,
        execute_spec(0x6D, c, m).2 == 4,
        execute_spec(0x7D, c, m).2 == 4,
        execute_spec(0x79, c, m).2 == 4,
        execute_spec(0x61, c, m).2 == 6,
        execute_spec(0x71, c, m).2 == 5,
        execute_spec(0x85, c, m).2 == 3,
        execute_spec(0x95, c, m).2 == 4,
        execute_spec(0x8D, c, m).2 == 4,
        execute_spec(0x9D, c, m).2 == 5,
        execute_spec(0x99, c, m).2 == 5,
        execute_spec(0x81, c, m).2 == 6,
        execute_spec(0x91, c, m).2 == 6,
        execute_spec(0x0A, c, m).2 == 2,
        execute_spec(0x06, c, m).2 == 5,
        execute_spec(0x16, c, m).2 == 6,
        execute_spec(0x0E, c, m).2 == 6,
        execute_spec(0x1E, c, m).2 == 7,
        execute_spec(0xF6, c, m).2 == 6,
        execute_spec(0xFE, c, m).2 == 7,
{
    reveal(execute_spec);
    reveal(accumulate_spec);
    reveal(store_spec);
    reveal(modify_spec);
}

} // verus!
