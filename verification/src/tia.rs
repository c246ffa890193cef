//! Television Interface Adaptor: the video chip of the Atari 2600.
//!
//! The TIA keeps a handful of registers that the CPU writes through the
//! memory bus, counts colour clocks along the current scanline, and renders
//! a scanline into the RGBA framebuffer each time the beam reaches its end.
use vstd::prelude::*;

verus! {

pub const TIA_VSYNC: u16 = 0x00;
pub const TIA_VBLANK: u16 = 0x01;
pub const TIA_WSYNC: u16 = 0x02;
pub const TIA_COLUPF: u16 = 0x08;
pub const TIA_COLUBK: u16 = 0x09;
pub const TIA_CTRLPF: u16 = 0x0A;
pub const TIA_PF0: u16 = 0x0D;
pub const TIA_PF1: u16 = 0x0E;
pub const TIA_PF2: u16 = 0x0F;

/// CPU cycles in one scanline.
pub const SCANLINE_CYCLES: u32 = 76;
/// Scanlines in one NTSC frame.
pub const TOTAL_SCANLINES: u16 = 262;
/// First visible scanline (3 lines of VSYNC and 37 of VBLANK come before).
pub const VISIBLE_START: u16 = 40;
pub const FB_WIDTH: usize = 160;
pub const FB_HEIGHT: usize = 192;
/// Bytes in the RGBA framebuffer.
pub const FB_SIZE: usize = 122880;
/// Bytes in one RGBA framebuffer row.
pub const ROW_BYTES: usize = 640;

pub struct Tia {
    pub scanline: u16,
    pub colubk: u8,
    pub colupf: u8,
    pub ctrlpf: u8,
    pub pf0: u8,
    pub pf1: u8,
    pub pf2: u8,
    pub vblank: bool,
    pub vsync: bool,
    pub cycle_in_scanline: u32,
    pub wsync: bool,
    pub framebuffer: [u8; FB_SIZE],
    pub colup0: u8,
    pub colup1: u8,
    pub grp0: u8,
    pub grp1: u8,
    pub hpos_p0: u8,
    pub hpos_p1: u8,
    pub hpos_m0: u8,
    pub hpos_m1: u8,
    pub hpos_bl: u8,
    pub nusiz0: u8,
    pub nusiz1: u8,
    pub enabl: bool,
    pub enam0: bool,
    pub enam1: bool,
    pub refp0: bool,
    pub refp1: bool,
    /// Motion that the next HMOVE strobe applies to every object.
    pub hmove_pending: i8,
}

/// The mathematical state of the TIA: its registers and the framebuffer
/// contents as a sequence of bytes.
#[verifier::ext_equal]
pub struct TiaView {
    pub scanline: u16,
    pub colubk: u8,
    pub colupf: u8,
    pub ctrlpf: u8,
    pub pf0: u8,
    pub pf1: u8,
    pub pf2: u8,
    pub vblank: bool,
    pub vsync: bool,
    pub cycle_in_scanline: u32,
    pub wsync: bool,
    pub framebuffer: Seq<u8>,
    pub colup0: u8,
    pub colup1: u8,
    pub grp0: u8,
    pub grp1: u8,
    pub hpos_p0: u8,
    pub hpos_p1: u8,
    pub hpos_m0: u8,
    pub hpos_m1: u8,
    pub hpos_bl: u8,
    pub nusiz0: u8,
    pub nusiz1: u8,
    pub enabl: bool,
    pub enam0: bool,
    pub enam1: bool,
    pub refp0: bool,
    pub refp1: bool,
    pub hmove_pending: i8,
}

impl View for Tia {
    type V = TiaView;

    open spec fn view(&self) -> TiaView {
        TiaView {
            scanline: self.scanline,
            colubk: self.colubk,
            colupf: self.colupf,
            ctrlpf: self.ctrlpf,
            pf0: self.pf0,
            pf1: self.pf1,
            pf2: self.pf2,
            vblank: self.vblank,
            vsync: self.vsync,
            cycle_in_scanline: self.cycle_in_scanline,
            wsync: self.wsync,
            framebuffer: self.framebuffer@,
            colup0: self.colup0,
            colup1: self.colup1,
            grp0: self.grp0,
            grp1: self.grp1,
            hpos_p0: self.hpos_p0,
            hpos_p1: self.hpos_p1,
            hpos_m0: self.hpos_m0,
            hpos_m1: self.hpos_m1,
            hpos_bl: self.hpos_bl,
            nusiz0: self.nusiz0,
            nusiz1: self.nusiz1,
            enabl: self.enabl,
            enam0: self.enam0,
            enam1: self.enam1,
            refp0: self.refp0,
            refp1: self.refp1,
            hmove_pending: self.hmove_pending,
        }
    }
}

/// Brightness of luminance level `lum` (0..8) on the grey ramp of the NTSC
/// palette.
pub open spec fn gray_level(lum: int) -> u8 {
    if lum == 0 {
        0x00
    } else if lum == 1 {
        0x40
    } else if lum == 2 {
        0x6C
    } else if lum == 3 {
        0x90
    } else if lum == 4 {
        0xB0
    } else if lum == 5 {
        0xC8
    } else if lum == 6 {
        0xDC
    } else {
        0xEC
    }
}

/// RGB of a colour register value: a grey whose brightness is the
/// luminance held in bits 1..4 of the value.
pub open spec fn color_of(value: u8) -> (u8, u8, u8) {
    let g = gray_level((value as int / 2) % 8);
    (g, g, g)
}

/// Object position that HMOVE yields from position `pos` and motion `d`:
/// never below zero, kept modulo 256.
pub open spec fn hmove_position(pos: u8, d: i8) -> u8 {
    if pos - d < 0 {
        0
    } else {
        ((pos - d) % 256) as u8
    }
}

/// Horizontal position latched by a RESPx/RESMx/RESBL strobe at `cycle`.
pub open spec fn strobe_position(cycle: u32) -> u8 {
    ((cycle as int % 256) * 3 % 256) as u8
}

/// Motion encoded in the high nibble of an HMxx register value.
pub open spec fn motion_of(value: u8) -> i8 {
    (value as int / 16 - 8) as i8
}

/// Whether an 8-pixel player with graphics `grp` at `pos` covers pixel `x`.
pub open spec fn player_covers(x: int, pos: u8, grp: u8, reflect: bool) -> bool {
    let dx = x - pos;
    &&& grp != 0
    &&& 0 <= dx < 8
    &&& (grp >> (if reflect { dx } else { 7 - dx }) as u8) & 1 != 0
}

/// Whether a 2-pixel missile or ball at `pos` covers pixel `x`.
pub open spec fn small_object_covers(x: int, pos: u8, enabled: bool) -> bool {
    enabled && 0 <= x - pos < 2
}

impl TiaView {
    /// The beam is not past the end of its line, and the framebuffer has
    /// its full size.
    pub open spec fn wf(self) -> bool {
        &&& self.cycle_in_scanline <= SCANLINE_CYCLES
        &&& self.framebuffer.len() == FB_SIZE
    }

    /// The beam is on one of the frame's scanlines, short of the line's end:
    /// where `tick` and the register writes always leave it.
    pub open spec fn beam_in_frame(self) -> bool {
        &&& self.cycle_in_scanline < SCANLINE_CYCLES
        &&& self.scanline < TOTAL_SCANLINES
    }

    pub open spec fn read_register(self, addr: u16) -> u8 {
        if addr == TIA_VBLANK {
            if self.vblank {
                0x80
            } else {
                0x00
            }
        } else if addr == TIA_COLUBK {
            self.colubk
        } else {
            0
        }
    }

    pub open spec fn write_register(self, addr: u16, value: u8) -> TiaView {
        if addr == TIA_VSYNC {
            let vsync = value & 0x02 != 0;
            if vsync && !self.vsync {
                TiaView { vsync, scanline: 0, cycle_in_scanline: 0, ..self }
            } else {
                TiaView { vsync, ..self }
            }
        } else if addr == TIA_VBLANK {
            TiaView { vblank: value & 0x02 != 0, ..self }
        } else if addr == TIA_WSYNC {
            TiaView { wsync: true, ..self }
        } else if addr == 0x04 {
            TiaView { nusiz0: value, ..self }
        } else if addr == 0x05 {
            TiaView { nusiz1: value, ..self }
        } else if addr == 0x06 {
            TiaView { colup0: value, ..self }
        } else if addr == 0x07 {
            TiaView { colup1: value, ..self }
        } else if addr == TIA_COLUPF {
            TiaView { colupf: value, ..self }
        } else if addr == TIA_COLUBK {
            TiaView { colubk: value, ..self }
        } else if addr == TIA_CTRLPF {
            TiaView { ctrlpf: value, ..self }
        } else if addr == 0x0B {
            TiaView { refp0: value & 0x08 != 0, ..self }
        } else if addr == 0x0C {
            TiaView { refp1: value & 0x08 != 0, ..self }
        } else if addr == TIA_PF0 {
            TiaView { pf0: value, ..self }
        } else if addr == TIA_PF1 {
            TiaView { pf1: value, ..self }
        } else if addr == TIA_PF2 {
            TiaView { pf2: value, ..self }
        } else if addr == 0x10 {
            TiaView { hpos_p0: strobe_position(self.cycle_in_scanline), ..self }
        } else if addr == 0x11 {
            TiaView { hpos_p1: strobe_position(self.cycle_in_scanline), ..self }
        } else if addr == 0x12 {
            TiaView { hpos_m0: strobe_position(self.cycle_in_scanline), ..self }
        } else if addr == 0x13 {
            TiaView { hpos_m1: strobe_position(self.cycle_in_scanline), ..self }
        } else if addr == 0x14 {
            TiaView { hpos_bl: strobe_position(self.cycle_in_scanline), ..self }
        } else if addr == 0x1B {
            TiaView { grp0: value, ..self }
        } else if addr == 0x1C {
            TiaView { grp1: value, ..self }
        } else if addr == 0x1D {
            TiaView { enam0: value & 0x02 != 0, ..self }
        } else if addr == 0x1E {
            TiaView { enam1: value & 0x02 != 0, ..self }
        } else if addr == 0x1F {
            TiaView { enabl: value & 0x02 != 0, ..self }
        } else if 0x20 <= addr <= 0x24 {
            TiaView { hmove_pending: motion_of(value), ..self }
        } else if addr == 0x2A {
            let d = self.hmove_pending;
            TiaView {
                hpos_p0: hmove_position(self.hpos_p0, d),
                hpos_p1: hmove_position(self.hpos_p1, d),
                hpos_m0: hmove_position(self.hpos_m0, d),
                hpos_m1: hmove_position(self.hpos_m1, d),
                hpos_bl: hmove_position(self.hpos_bl, d),
                ..self
            }
        } else if addr == 0x2B {
            TiaView { hmove_pending: 0, ..self }
        } else {
            self
        }
    }

    /// Whether pixel `x` (0..160) shows the playfield: the left half reads
    /// PF0 (bits 4..8), PF1 (bits 7 down to 0) and PF2 (bits 0..8) four
    /// pixels per bit; the right half repeats the left, or mirrors it when
    /// bit 0 of CTRLPF is set.
    pub open spec fn playfield_bit(self, x: int) -> bool {
        let col = if x < 80 {
            x
        } else if self.ctrlpf & 0x01 != 0 {
            159 - x
        } else {
            x - 80
        };
        let k = col / 4;
        if 0 <= k <= 3 {
            (self.pf0 >> (4 + k) as u8) & 1 != 0
        } else if 4 <= k <= 11 {
            (self.pf1 >> (11 - k) as u8) & 1 != 0
        } else if 12 <= k <= 19 {
            (self.pf2 >> (k - 12) as u8) & 1 != 0
        } else {
            false
        }
    }

    /// Colour of pixel `x` of the current scanline: background, then
    /// playfield, player 0, player 1, ball, missile 0 and missile 1, each
    /// drawn over the ones before it.
    pub open spec fn pixel(self, x: int) -> (u8, u8, u8) {
        let bk = color_of(self.colubk);
        let pf = color_of(self.colupf);
        let p0 = color_of(self.colup0);
        let p1 = color_of(self.colup1);
        if small_object_covers(x, self.hpos_m1, self.enam1) {
            p1
        } else if small_object_covers(x, self.hpos_m0, self.enam0) {
            p0
        } else if small_object_covers(x, self.hpos_bl, self.enabl) {
            pf
        } else if player_covers(x, self.hpos_p1, self.grp1, self.refp1) {
            p1
        } else if player_covers(x, self.hpos_p0, self.grp0, self.refp0) {
            p0
        } else if self.playfield_bit(x) {
            pf
        } else {
            bk
        }
    }

    /// Byte `ch` (0 red, 1 green, 2 blue, 3 alpha) of pixel `x`.
    pub open spec fn pixel_byte(self, x: int, ch: int) -> u8 {
        let (r, g, b) = self.pixel(x);
        if ch == 0 {
            r
        } else if ch == 1 {
            g
        } else if ch == 2 {
            b
        } else {
            255
        }
    }

    /// The framebuffer with row `row` drawn from the current registers.
    pub open spec fn rendered_row(self, row: int) -> Seq<u8> {
        let base = row * ROW_BYTES;
        Seq::new(
            self.framebuffer.len(),
            |i: int|
                if base <= i < base + ROW_BYTES {
                    self.pixel_byte((i - base) / 4, (i - base) % 4)
                } else {
                    self.framebuffer[i]
                },
        )
    }

    /// The beam leaves the current scanline: a visible line is drawn into
    /// its framebuffer row, and the line counter moves on, back to 0 after
    /// the last line of the frame.
    pub open spec fn end_of_scanline(self) -> TiaView {
        let drawn = if VISIBLE_START <= self.scanline < VISIBLE_START + FB_HEIGHT {
            TiaView { framebuffer: self.rendered_row(self.scanline - VISIBLE_START), ..self }
        } else {
            self
        };
        let next = (self.scanline + 1) % 0x10000;
        TiaView { scanline: if next >= TOTAL_SCANLINES { 0 } else { next as u16 }, ..drawn }
    }

    /// The beam moved back to the start of its line.
    pub open spec fn line_start(self) -> TiaView {
        TiaView { cycle_in_scanline: 0, ..self }
    }

    /// Time advances by `cycles` CPU cycles: the beam moves along the line
    /// and every completed line ends as `end_of_scanline` says.
    pub open spec fn tick(self, cycles: nat) -> TiaView
        decreases 2 * cycles + (if self.cycle_in_scanline >= SCANLINE_CYCLES { 1int } else { 0 }),
    {
        if cycles == 0 {
            self
        } else {
            let space = if self.cycle_in_scanline <= SCANLINE_CYCLES {
                SCANLINE_CYCLES - self.cycle_in_scanline
            } else {
                0
            };
            let consume: nat = if cycles <= space { cycles } else { space as nat };
            let moved = TiaView { cycle_in_scanline: (self.cycle_in_scanline + consume) as u32, ..self };
            if moved.cycle_in_scanline >= SCANLINE_CYCLES {
                TiaView { cycle_in_scanline: 0, ..moved }.end_of_scanline().tick((cycles - consume) as nat)
            } else {
                moved.tick((cycles - consume) as nat)
            }
        }
    }
}


/// The end of a scanline moves the beam down one line (back to the top
/// after the last) and changes nothing but the framebuffer.
proof fn lemma_end_of_scanline(t: TiaView)
    requires
        t.wf(),
        t.beam_in_frame(),
    ensures
        t.end_of_scanline().wf(),
        t.end_of_scanline().beam_in_frame(),
        t.end_of_scanline() == (TiaView {
            scanline: ((t.scanline + 1) % 262) as u16,
            framebuffer: t.end_of_scanline().framebuffer,
            ..t
        }),
{
}

/// A tick that reaches the end of the line ends it and goes on from the
/// start of the next one.
proof fn lemma_tick_unfold(t: TiaView, cycles: nat)
    requires
        t.beam_in_frame(),
        cycles >= 76 - t.cycle_in_scanline,
    ensures
        t.tick(cycles) == t.line_start().end_of_scanline().tick((cycles - (76 - t.cycle_in_scanline)) as nat),
{
    let moved = TiaView { cycle_in_scanline: 76, ..t };
    assert((TiaView { cycle_in_scanline: 0, ..moved }) == t.line_start());
}

/// The beam after `cycles` CPU cycles: it moves `cycles` along the line,
/// modulo the line's 76 cycles, and down one scanline for every line end
/// it passes, modulo the frame's 262 lines. Only the beam position and the
/// framebuffer change.
pub proof fn lemma_tick_beam(t: TiaView, cycles: nat)
    requires
        t.wf(),
        t.beam_in_frame(),
    ensures
        t.tick(cycles).wf(),
        t.tick(cycles).beam_in_frame(),
        t.tick(cycles).cycle_in_scanline == (t.cycle_in_scanline + cycles) % 76,
        t.tick(cycles).scanline == (t.scanline + (t.cycle_in_scanline + cycles) / 76) % 262,
        t.tick(cycles) == (TiaView {
            cycle_in_scanline: t.tick(cycles).cycle_in_scanline,
            scanline: t.tick(cycles).scanline,
            framebuffer: t.tick(cycles).framebuffer,
            ..t
        }),
    decreases cycles,
{
    let c = t.cycle_in_scanline as int;
    let space = 76 - c;
    if cycles == 0 {
    } else if cycles < space {
        let moved = TiaView { cycle_in_scanline: (c + cycles) as u32, ..t };
        assert(t.tick(cycles) == moved.tick(0));
    } else {
        let start = t.line_start();
        let next = start.end_of_scanline();
        let rest = (cycles - space) as nat;
        lemma_tick_unfold(t, cycles);
        lemma_end_of_scanline(start);
        lemma_tick_beam(next, rest);
        assert((c + cycles) % 76 == rest % 76) by {
            vstd::arithmetic::div_mod::lemma_mod_add_multiples_vanish(rest as int, 76);
        }
        assert((c + cycles) / 76 == 1 + rest / 76) by {
            vstd::arithmetic::div_mod::lemma_div_plus_one(rest as int, 76);
        }
        assert(((t.scanline + 1) % 262 + rest / 76) % 262 == (t.scanline + 1 + rest / 76) % 262) by {
            vstd::arithmetic::div_mod::lemma_add_mod_noop(t.scanline + 1, (rest / 76) as int, 262);
            vstd::arithmetic::div_mod::lemma_mod_twice((rest / 76) as int, 262);
        }
    }
}

/// WSYNC: waiting the rest of the line brings the beam to the start of the
/// next scanline.
pub proof fn lemma_wait_to_line_end(t: TiaView)
    requires
        t.wf(),
        t.beam_in_frame(),
    ensures
        t.tick((SCANLINE_CYCLES - t.cycle_in_scanline % SCANLINE_CYCLES) as nat).cycle_in_scanline == 0,
        t.tick((SCANLINE_CYCLES - t.cycle_in_scanline % SCANLINE_CYCLES) as nat).scanline == (t.scanline + 1)
            % 262,
{
    lemma_tick_beam(t, (SCANLINE_CYCLES - t.cycle_in_scanline % SCANLINE_CYCLES) as nat);
}

/// A colour register written through the bus reads back as written
/// (COLUBK), and VBLANK reads back bit 1 of what was written in bit 7.
pub proof fn lemma_register_read_after_write(t: TiaView, value: u8)
    ensures
        t.write_register(TIA_COLUBK, value).read_register(TIA_COLUBK) == value,
        t.write_register(TIA_VBLANK, value).read_register(TIA_VBLANK) == (if value & 0x02 != 0 {
            0x80u8
        } else {
            0x00u8
        }),
{
}

/// The start of a VSYNC pulse (bit 1 written while VSYNC was off) brings
/// the beam back to the top of the frame; the registers stay as they were.
pub proof fn lemma_vsync_starts_frame(t: TiaView, value: u8)
    requires
        value & 0x02 != 0,
        !t.vsync,
    ensures
        t.write_register(TIA_VSYNC, value) == (TiaView { vsync: true, scanline: 0, cycle_in_scanline: 0, ..t }),
{
}

/// At the end of a visible scanline its framebuffer row shows the pixels
/// of the current registers, opaque; every other byte of the framebuffer
/// stays as it was.
pub proof fn lemma_scanline_row(t: TiaView, i: int)
    requires
        t.wf(),
        VISIBLE_START <= t.scanline < VISIBLE_START + FB_HEIGHT,
        0 <= i < FB_SIZE,
    ensures
        ({
            let base = (t.scanline - VISIBLE_START) * ROW_BYTES;
            let fb = t.end_of_scanline().framebuffer;
            &&& fb.len() == FB_SIZE
            &&& base <= i < base + ROW_BYTES ==> fb[i] == t.pixel_byte((i - base) / 4, (i - base) % 4)
            &&& base <= i < base + ROW_BYTES && (i - base) % 4 == 3 ==> fb[i] == 255
            &&& !(base <= i < base + ROW_BYTES) ==> fb[i] == t.framebuffer[i]
        }),
{
}

/// Each register write through the bus sets the one register it names to
/// the value written (the enable and reflect registers to one bit of it,
/// the motion registers to the signed high nibble) and changes nothing
/// else; the strobes RESP0, RESP1, RESM0, RESM1, RESBL place their object
/// at three pixels per cycle of the beam's position, modulo 256.
#[verifier::rlimit(40)]
pub proof fn lemma_register_writes(t: TiaView, value: u8)
    ensures
        t.write_register(0x01, value) == (TiaView { vblank: value & 2 != 0, ..t }),
        t.write_register(0x02, value) == (TiaView { wsync: true, ..t }),
        t.write_register(0x04, value) == (TiaView { nusiz0: value, ..t }),
        t.write_register(0x05, value) == (TiaView { nusiz1: value, ..t }),
        t.write_register(0x06, value) == (TiaView { colup0: value, ..t }),
        t.write_register(0x07, value) == (TiaView { colup1: value, ..t }),
        t.write_register(0x08, value) == (TiaView { colupf: value, ..t }),
        t.write_register(0x09, value) == (TiaView { colubk: value, ..t }),
        t.write_register(0x0A, value) == (TiaView { ctrlpf: value, ..t }),
        t.write_register(0x0B, value) == (TiaView { refp0: value & 8 != 0, ..t }),
        t.write_register(0x0C, value) == (TiaView { refp1: value & 8 != 0, ..t }),
        t.write_register(0x0D, value) == (TiaView { pf0: value, ..t }),
        t.write_register(0x0E, value) == (TiaView { pf1: value, ..t }),
        t.write_register(0x0F, value) == (TiaView { pf2: value, ..t }),
        t.write_register(0x10, value) == (TiaView { hpos_p0: ((3 * t.cycle_in_scanline) % 256) as u8, ..t }),
        t.write_register(0x11, value) == (TiaView { hpos_p1: ((3 * t.cycle_in_scanline) % 256) as u8, ..t }),
        t.write_register(0x12, value) == (TiaView { hpos_m0: ((3 * t.cycle_in_scanline) % 256) as u8, ..t }),
        t.write_register(0x13, value) == (TiaView { hpos_m1: ((3 * t.cycle_in_scanline) % 256) as u8, ..t }),
        t.write_register(0x14, value) == (TiaView { hpos_bl: ((3 * t.cycle_in_scanline) % 256) as u8, ..t }),
        t.write_register(0x1B, value) == (TiaView { grp0: value, ..t }),
        t.write_register(0x1C, value) == (TiaView { grp1: value, ..t }),
        t.write_register(0x1D, value) == (TiaView { enam0: value & 2 != 0, ..t }),
        t.write_register(0x1E, value) == (TiaView { enam1: value & 2 != 0, ..t }),
        t.write_register(0x1F, value) == (TiaView { enabl: value & 2 != 0, ..t }),
        t.write_register(0x20, value) == (TiaView { hmove_pending: (value / 16 - 8) as i8, ..t }),
        t.write_register(0x24, value) == (TiaView { hmove_pending: (value / 16 - 8) as i8, ..t }),
        t.write_register(0x2B, value) == (TiaView { hmove_pending: 0, ..t }),
        t.write_register(0x3F, value) == t,
{
    let c = t.cycle_in_scanline as int;
    assert(((c % 256) * 3) % 256 == (3 * c) % 256) by (nonlinear_arith);
}

/// HMOVE moves every object left by the pending motion (right when it is
/// negative), modulo 256, stopping at position 0.
pub proof fn lemma_hmove(t: TiaView, value: u8)
    ensures
        ({
            let d = t.hmove_pending as int;
            let moved = |p: u8| if p - d < 0 { 0u8 } else { ((p - d) % 256) as u8 };
            t.write_register(0x2A, value) == (TiaView {
                hpos_p0: moved(t.hpos_p0),
                hpos_p1: moved(t.hpos_p1),
                hpos_m0: moved(t.hpos_m0),
                hpos_m1: moved(t.hpos_m1),
                hpos_bl: moved(t.hpos_bl),
                ..t
            })
        }),
{
}

/// Whether bit `k` (0 the lowest, 7 the highest) of `v` is set.
pub open spec fn bit_is_set(v: u8, k: int) -> bool {
    if k == 0 {
        v & 0x01 != 0
    } else if k == 1 {
        v & 0x02 != 0
    } else if k == 2 {
        v & 0x04 != 0
    } else if k == 3 {
        v & 0x08 != 0
    } else if k == 4 {
        v & 0x10 != 0
    } else if k == 5 {
        v & 0x20 != 0
    } else if k == 6 {
        v & 0x40 != 0
    } else {
        v & 0x80 != 0
    }
}

proof fn lemma_bit_is_set(v: u8, k: int)
    requires
        0 <= k < 8,
    ensures
        ((v >> (k as u8)) & 1 != 0) == bit_is_set(v, k),
{
    assert(((v >> 0u8) & 1 != 0) == (v & 0x01 != 0) && ((v >> 1u8) & 1 != 0) == (v & 0x02 != 0) && ((v >> 2u8)
        & 1 != 0) == (v & 0x04 != 0) && ((v >> 3u8) & 1 != 0) == (v & 0x08 != 0) && ((v >> 4u8) & 1 != 0) == (v
        & 0x10 != 0) && ((v >> 5u8) & 1 != 0) == (v & 0x20 != 0) && ((v >> 6u8) & 1 != 0) == (v & 0x40 != 0)
        && ((v >> 7u8) & 1 != 0) == (v & 0x80 != 0)) by (bit_vector);
}

/// A player is 8 pixels wide from its position. Unreflected, GRP bit 7 is
/// its leftmost pixel and bit 0 its rightmost; reflected (REFPx bit 3
/// written), the other way round. Where a bit is set the pixel shows the
/// player's colour (player 1 over player 0); elsewhere what lies behind.
/// (Missiles and the ball, which are drawn over players, are off here.)
pub proof fn lemma_player_pixels(t: TiaView, dx: int)
    requires
        0 <= dx < 8,
        !t.enam0,
        !t.enam1,
        !t.enabl,
    ensures
        t.grp1 == 0 ==> t.pixel(t.hpos_p0 + dx) == (if bit_is_set(t.grp0, if t.refp0 { dx } else { 7 - dx }) {
            color_of(t.colup0)
        } else if t.playfield_bit(t.hpos_p0 + dx) {
            color_of(t.colupf)
        } else {
            color_of(t.colubk)
        }),
        t.grp0 == 0 ==> t.pixel(t.hpos_p1 + dx) == (if bit_is_set(t.grp1, if t.refp1 { dx } else { 7 - dx }) {
            color_of(t.colup1)
        } else if t.playfield_bit(t.hpos_p1 + dx) {
            color_of(t.colupf)
        } else {
            color_of(t.colubk)
        }),
{
    lemma_bit_is_set(t.grp0, if t.refp0 { dx } else { 7 - dx });
    lemma_bit_is_set(t.grp1, if t.refp1 { dx } else { 7 - dx });
    assert(0u8 & 0x01 == 0 && 0u8 & 0x02 == 0 && 0u8 & 0x04 == 0 && 0u8 & 0x08 == 0 && 0u8 & 0x10 == 0
        && 0u8 & 0x20 == 0 && 0u8 & 0x40 == 0 && 0u8 & 0x80 == 0) by (bit_vector);
}

/// The playfield is 40 bits of 4 pixels each across the line's 160
/// pixels: on the left half PF0 bits 4..=7 (pixels 0..16), then PF1 bits 7
/// down to 0 (pixels 16..48), then PF2 bits 0..=7 (pixels 48..80). The
/// right half repeats the left, or mirrors it when CTRLPF bit 0 is set.
pub proof fn lemma_playfield_layout(t: TiaView, x: int)
    requires
        0 <= x < 80,
    ensures
        t.playfield_bit(x) == (if x < 16 {
            bit_is_set(t.pf0, 4 + x / 4)
        } else if x < 48 {
            bit_is_set(t.pf1, 7 - (x - 16) / 4)
        } else {
            bit_is_set(t.pf2, (x - 48) / 4)
        }),
        t.playfield_bit(80 + x) == (if t.ctrlpf & 1 != 0 { t.playfield_bit(79 - x) } else { t.playfield_bit(x) }),
{
    let k = x / 4;
    if k <= 3 {
        lemma_bit_is_set(t.pf0, 4 + k);
    } else if k <= 11 {
        lemma_bit_is_set(t.pf1, 11 - k);
    } else {
        lemma_bit_is_set(t.pf2, k - 12);
    }
    let k2 = (79 - x) / 4;
    if k2 <= 3 {
        lemma_bit_is_set(t.pf0, 4 + k2);
    } else if k2 <= 11 {
        lemma_bit_is_set(t.pf1, 11 - k2);
    } else {
        lemma_bit_is_set(t.pf2, k2 - 12);
    }
}

/// Which object a pixel shows, front to back: missile 1 (player 1's
/// colour), missile 0 (player 0's colour), the ball (playfield colour),
/// player 1, player 0, the playfield; where none covers it, the background.
/// A missile or the ball covers 2 pixels from its position when enabled.
pub proof fn lemma_pixel_priority(t: TiaView, x: int)
    ensures
        t.enam1 && 0 <= x - t.hpos_m1 < 2 ==> t.pixel(x) == color_of(t.colup1),
        !(t.enam1 && 0 <= x - t.hpos_m1 < 2) && t.enam0 && 0 <= x - t.hpos_m0 < 2 ==> t.pixel(x) == color_of(
            t.colup0,
        ),
        !(t.enam1 && 0 <= x - t.hpos_m1 < 2) && !(t.enam0 && 0 <= x - t.hpos_m0 < 2) && t.enabl && 0 <= x
            - t.hpos_bl < 2 ==> t.pixel(x) == color_of(t.colupf),
        !t.enam0 && !t.enam1 && !t.enabl && t.grp0 == 0 && t.grp1 == 0 ==> t.pixel(x) == (if t.playfield_bit(x) {
            color_of(t.colupf)
        } else {
            color_of(t.colubk)
        }),
{
}

/// Brightness of a luminance level (0..8).
fn gray_level_of(lum: u8) -> (g: u8)
    requires
        lum < 8,
    ensures
        g == gray_level(lum as int),
{
    match lum {
        0 => 0x00,
        1 => 0x40,
        2 => 0x6C,
        3 => 0x90,
        4 => 0xB0,
        5 => 0xC8,
        6 => 0xDC,
        _ => 0xEC,
    }
}

impl TiaView {
    /// The state of the chip at power-on: every register clear and a black
    /// framebuffer.
    pub open spec fn power_on() -> TiaView {
        TiaView {
            scanline: 0,
            colubk: 0,
            colupf: 0,
            ctrlpf: 0,
            pf0: 0,
            pf1: 0,
            pf2: 0,
            vblank: false,
            vsync: false,
            cycle_in_scanline: 0,
            wsync: false,
            framebuffer: Seq::new(FB_SIZE as nat, |i: int| 0u8),
            colup0: 0,
            colup1: 0,
            grp0: 0,
            grp1: 0,
            hpos_p0: 0,
            hpos_p1: 0,
            hpos_m0: 0,
            hpos_m1: 0,
            hpos_bl: 0,
            nusiz0: 0,
            nusiz1: 0,
            enabl: false,
            enam0: false,
            enam1: false,
            refp0: false,
            refp1: false,
            hmove_pending: 0,
        }
    }
}

impl Tia {
    pub fn new() -> (t: Tia)
        ensures
            t@ == TiaView::power_on(),
            t@.wf(),
    {
        let t = Tia {
            scanline: 0,
            colubk: 0,
            colupf: 0,
            ctrlpf: 0,
            pf0: 0,
            pf1: 0,
            pf2: 0,
            vblank: false,
            vsync: false,
            cycle_in_scanline: 0,
            wsync: false,
            framebuffer: [0u8; FB_SIZE],
            colup0: 0,
            colup1: 0,
            grp0: 0,
            grp1: 0,
            hpos_p0: 0,
            hpos_p1: 0,
            hpos_m0: 0,
            hpos_m1: 0,
            hpos_bl: 0,
            nusiz0: 0,
            nusiz1: 0,
            enabl: false,
            enam0: false,
            enam1: false,
            refp0: false,
            refp1: false,
            hmove_pending: 0,
        };
        assert(t@.framebuffer =~= TiaView::power_on().framebuffer);
        t
    }

    pub fn read_register(&self, addr: u16) -> (v: u8)
        ensures
            v == self@.read_register(addr),
    {
        match addr {
            0x01 => {
                if self.vblank {
                    0x80
                } else {
                    0x00
                }
            },
            0x09 => self.colubk,
            _ => 0,
        }
    }

    #[verifier::rlimit(40)]
    pub fn write_register(&mut self, addr: u16, value: u8)
        ensures
            final(self)@ == old(self)@.write_register(addr, value),
    {
        match addr {
            0x00 => {
                let was = self.vsync;
                self.vsync = value & 0x02 != 0;
                // A new VSYNC pulse starts the frame: the beam returns to the top.
                if self.vsync && !was {
                    self.scanline = 0;
                    self.cycle_in_scanline = 0;
                }
            },
            0x01 => self.vblank = value & 0x02 != 0,
            0x02 => self.wsync = true,
            0x08 => self.colupf = value,
            0x09 => self.colubk = value,
            0x0A => self.ctrlpf = value,
            0x0D => self.pf0 = value,
            0x0E => self.pf1 = value,
            0x0F => self.pf2 = value,
            0x06 => self.colup0 = value,
            0x07 => self.colup1 = value,
            0x0B => self.refp0 = value & 0x08 != 0,
            0x0C => self.refp1 = value & 0x08 != 0,
            0x10 => self.hpos_p0 = self.strobe_position(),
            0x11 => self.hpos_p1 = self.strobe_position(),
            0x12 => self.hpos_m0 = self.strobe_position(),
            0x13 => self.hpos_m1 = self.strobe_position(),
            0x14 => self.hpos_bl = self.strobe_position(),
            0x1B => self.grp0 = value,
            0x1C => self.grp1 = value,
            0x1D => self.enam0 = value & 0x02 != 0,
            0x1E => self.enam1 = value & 0x02 != 0,
            0x1F => self.enabl = value & 0x02 != 0,
            0x20 | 0x21 | 0x22 | 0x23 | 0x24 => {
                let high = value >> 4;
                assert(high < 16 && high == value as int / 16) by (bit_vector)
                    requires
                        high == value >> 4,
                ;
                self.hmove_pending = (high as i8) - 8;
            },
            0x04 => self.nusiz0 = value,
            0x05 => self.nusiz1 = value,
            0x2A => {
                // HMOVE: every object moves by the pending motion.
                let d = self.hmove_pending;
                self.hpos_p0 = moved_position(self.hpos_p0, d);
                self.hpos_p1 = moved_position(self.hpos_p1, d);
                self.hpos_m0 = moved_position(self.hpos_m0, d);
                self.hpos_m1 = moved_position(self.hpos_m1, d);
                self.hpos_bl = moved_position(self.hpos_bl, d);
            },
            0x2B => {
                self.hmove_pending = 0;
            },
            _ => {},
        }
    }

    fn strobe_position(&self) -> (p: u8)
        ensures
            p == strobe_position(self.cycle_in_scanline),
    {
        let cycle = self.cycle_in_scanline;
        let c = cycle as u8;
        assert(c == cycle as int % 256) by (bit_vector)
            requires
                c == cycle as u8,
        ;
        c.wrapping_mul(3)
    }

    #[verifier::spinoff_prover]
    #[verifier::rlimit(40)]
    pub fn tick(&mut self, cycles: u32)
        requires
            old(self)@.wf(),
        ensures
            final(self)@ == old(self)@.tick(cycles as nat),
            final(self)@.wf(),
    {
        let mut remaining = cycles;
        while remaining > 0
            invariant
                self@.wf(),
                self@.tick(remaining as nat) == old(self)@.tick(cycles as nat),
            decreases 2 * remaining + (if self.cycle_in_scanline >= SCANLINE_CYCLES { 1int } else { 0 }),
        {
            let space_left = SCANLINE_CYCLES - self.cycle_in_scanline;
            let consume = if remaining < space_left { remaining } else { space_left };
            self.cycle_in_scanline += consume;
            remaining -= consume;
            if self.cycle_in_scanline >= SCANLINE_CYCLES {
                self.cycle_in_scanline = 0;
                self.end_of_scanline();
            }
        }
    }

    fn end_of_scanline(&mut self)
        requires
            old(self)@.wf(),
        ensures
            final(self)@ == old(self)@.end_of_scanline(),
            final(self)@.wf(),
    {
        if self.scanline >= VISIBLE_START && (self.scanline - VISIBLE_START) < FB_HEIGHT as u16 {
            let row = (self.scanline - VISIBLE_START) as usize;
            self.render_scanline(row);
        }
        self.scanline = self.scanline.wrapping_add(1);
        if self.scanline >= TOTAL_SCANLINES {
            self.scanline = 0;
        }
    }

    fn playfield_bit(&self, x: u32) -> (b: bool)
        requires
            x < 160,
        ensures
            b == self@.playfield_bit(x as int),
    {
        let col = if x < 80 {
            x
        } else if self.ctrlpf & 0x01 != 0 {
            159 - x  // reflected
        } else {
            x - 80  // repeated
        };
        let bit_index = col / 4;
        match bit_index {
            0..=3 => (self.pf0 >> (4 + bit_index) as u8) & 1 != 0,
            4..=11 => (self.pf1 >> (11 - bit_index) as u8) & 1 != 0,
            12..=19 => (self.pf2 >> (bit_index - 12) as u8) & 1 != 0,
            _ => false,
        }
    }

    /// The RGB that a colour register value stands for.
    fn get_color(&self, value: u8) -> (c: (u8, u8, u8))
        ensures
            c == color_of(value),
    {
        let lum = (value >> 1) & 0x07;
        assert(lum == (value as int / 2) % 8) by (bit_vector)
            requires
                lum == (value >> 1) & 0x07,
        ;
        let g = gray_level_of(lum);
        (g, g, g)
    }

    /// Colour of pixel `x` of the scanline, given the colours of the
    /// background, playfield and the two players.
    fn pixel_color(
        &self,
        x: usize,
        bk: (u8, u8, u8),
        pf: (u8, u8, u8),
        p0: (u8, u8, u8),
        p1: (u8, u8, u8),
    ) -> (c: (u8, u8, u8))
        requires
            x < FB_WIDTH,
            bk == color_of(self.colubk),
            pf == color_of(self.colupf),
            p0 == color_of(self.colup0),
            p1 == color_of(self.colup1),
        ensures
            c == self@.pixel(x as int),
    {
        let (br, bg, bb) = bk;
        let (pr, pg, pb) = pf;
        let (p0r, p0g, p0b) = p0;
        let (p1r, p1g, p1b) = p1;
            // Background first, then each layer drawn over it.
            let mut r = br;
            let mut g = bg;
            let mut b = bb;
            if self.playfield_bit(x as u32) {
                r = pr;
                g = pg;
                b = pb;
            }
            if self.grp0 != 0 {
                let dx = x as i32 - self.hpos_p0 as i32;
                if 0 <= dx && dx < 8 {
                    let bit = if self.refp0 { dx } else { 7 - dx };
                    if (self.grp0 >> bit as u8) & 1 != 0 {
                        r = p0r;
                        g = p0g;
                        b = p0b;
                    }
                }
            }
            if self.grp1 != 0 {
                let dx = x as i32 - self.hpos_p1 as i32;
                if 0 <= dx && dx < 8 {
                    let bit = if self.refp1 { dx } else { 7 - dx };
                    if (self.grp1 >> bit as u8) & 1 != 0 {
                        r = p1r;
                        g = p1g;
                        b = p1b;
                    }
                }
            }
            if self.enabl {
                let dx = x as i32 - self.hpos_bl as i32;
                if 0 <= dx && dx < 2 {
                    r = pr;
                    g = pg;
                    b = pb;
                }
            }
            if self.enam0 {
                let dx = x as i32 - self.hpos_m0 as i32;
                if 0 <= dx && dx < 2 {
                    r = p0r;
                    g = p0g;
                    b = p0b;
                }
            }
            if self.enam1 {
                let dx = x as i32 - self.hpos_m1 as i32;
                if 0 <= dx && dx < 2 {
                    r = p1r;
                    g = p1g;
                    b = p1b;
                }
            }
        (r, g, b)
    }

    fn render_scanline(&mut self, row: usize)
        requires
            row < FB_HEIGHT,
            old(self)@.wf(),
        ensures
            final(self)@ == (TiaView { framebuffer: old(self)@.rendered_row(row as int), ..old(self)@ }),
    {
        let (br, bg, bb) = self.get_color(self.colubk);
        let (pr, pg, pb) = self.get_color(self.colupf);
        let (p0r, p0g, p0b) = self.get_color(self.colup0);
        let (p1r, p1g, p1b) = self.get_color(self.colup1);
        let base = row * FB_WIDTH * 4;
        let ghost t0 = self@;
        for x in 0..FB_WIDTH
            invariant
                base == row * ROW_BYTES,
                row < FB_HEIGHT,
                t0.wf(),
                (br, bg, bb) == color_of(t0.colubk),
                (pr, pg, pb) == color_of(t0.colupf),
                (p0r, p0g, p0b) == color_of(t0.colup0),
                (p1r, p1g, p1b) == color_of(t0.colup1),
                self@ == (TiaView { framebuffer: self@.framebuffer, ..t0 }),
                self@.framebuffer =~= Seq::new(
                    t0.framebuffer.len(),
                    |i: int|
                        if base <= i < base + 4 * x {
                            t0.pixel_byte((i - base) / 4, (i - base) % 4)
                        } else {
                            t0.framebuffer[i]
                        },
                ),
        {
            let (r, g, b) = self.pixel_color(x, (br, bg, bb), (pr, pg, pb), (p0r, p0g, p0b), (p1r, p1g, p1b));
            let idx = base + x * 4;
            self.framebuffer[idx] = r;
            self.framebuffer[idx + 1] = g;
            self.framebuffer[idx + 2] = b;
            self.framebuffer[idx + 3] = 255;
        }
        assert(self@.framebuffer =~= t0.rendered_row(row as int));
    }

    /// RGB of the background colour register.
    pub fn background_rgb(&self) -> (c: (u8, u8, u8))
        ensures
            c == color_of(self.colubk),
    {
        self.get_color(self.colubk)
    }
}

/// Position of an object after HMOVE moves it by `d`.
fn moved_position(pos: u8, d: i8) -> (p: u8)
    ensures
        p == hmove_position(pos, d),
{
    let v = pos as i16 - d as i16;
    if v < 0 {
        0
    } else {
        let p = v as u8;
        assert(p == v % 256) by (bit_vector)
            requires
                p == v as u8,
                0 <= v,
        ;
        p
    }
}

} // verus!
