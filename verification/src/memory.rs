//! The Atari 2600 memory map as the CPU sees it: 13 address lines select
//! the TIA registers, the 128 bytes of RAM (and its stack mirror), the RIOT
//! timer, or the 4 KiB cartridge ROM.
use vstd::prelude::*;
use crate::tia::{Tia, TiaView};

verus! {

pub const RAM_SIZE: usize = 128;
pub const ROM_SIZE: usize = 4096;

pub struct Memory {
    pub ram: [u8; RAM_SIZE],
    pub rom: [u8; ROM_SIZE],
    pub tia: Tia,
    pub riot_regs: [u8; 0x40],
    pub riot_timer: u8,
    pub riot_prescaler: u32,
    pub riot_prescaler_value: u32,
}

/// The mathematical state of the memory map.
#[verifier::ext_equal]
pub struct MemoryView {
    pub ram: Seq<u8>,
    pub rom: Seq<u8>,
    pub tia: TiaView,
    pub riot_regs: Seq<u8>,
    pub riot_timer: u8,
    pub riot_prescaler: u32,
    pub riot_prescaler_value: u32,
}

impl View for Memory {
    type V = MemoryView;

    open spec fn view(&self) -> MemoryView {
        MemoryView {
            ram: self.ram@,
            rom: self.rom@,
            tia: self.tia@,
            riot_regs: self.riot_regs@,
            riot_timer: self.riot_timer,
            riot_prescaler: self.riot_prescaler,
            riot_prescaler_value: self.riot_prescaler_value,
        }
    }
}

/// The 13 address lines that the 6507 brings out.
pub open spec fn bus_address(addr: u16) -> int {
    addr as int % 0x2000
}

/// Whether `addr` reaches RAM: 0x80..0x100, and its mirror 0x180..0x200
/// where the stack lives.
pub open spec fn is_ram_address(addr: u16) -> bool {
    let a = bus_address(addr);
    0x80 <= a < 0x100 || 0x180 <= a < 0x200
}

/// Whether `addr` reaches the cartridge ROM.
pub open spec fn is_rom_address(addr: u16) -> bool {
    bus_address(addr) >= 0x1000
}

/// The RAM cell that a RAM address selects.
pub open spec fn ram_cell(addr: u16) -> int {
    bus_address(addr) % 0x80
}

impl MemoryView {
    pub open spec fn wf(self) -> bool {
        &&& self.ram.len() == RAM_SIZE
        &&& self.rom.len() == ROM_SIZE
        &&& self.riot_regs.len() == 0x40
        &&& self.tia.wf()
    }

    /// The memory at power-on: everything clear, the timer dividing by one.
    pub open spec fn power_on() -> MemoryView {
        MemoryView {
            ram: Seq::new(RAM_SIZE as nat, |i: int| 0u8),
            rom: Seq::new(ROM_SIZE as nat, |i: int| 0u8),
            tia: TiaView::power_on(),
            riot_regs: Seq::new(0x40, |i: int| 0u8),
            riot_timer: 0,
            riot_prescaler: 1,
            riot_prescaler_value: 1,
        }
    }

    /// A read of RIOT register `a`: INTIM gives the timer, INSTAT reports
    /// in bit 7 whether the timer has reached zero.
    pub open spec fn riot_read(self, a: int) -> u8 {
        let r = a % 0x20;
        if r == 0x04 || r == 0x06 {
            self.riot_timer
        } else if r == 0x05 || r == 0x07 {
            if self.riot_timer == 0 {
                0x80
            } else {
                0x00
            }
        } else {
            0
        }
    }

    /// The timer restarts at `value`, counting down once every `interval`
    /// cycles.
    pub open spec fn start_timer(self, value: u8, interval: u32) -> MemoryView {
        MemoryView {
            riot_timer: value,
            riot_prescaler_value: interval,
            riot_prescaler: interval,
            ..self
        }
    }

    /// A write to RIOT register `a`: TIM1T, TIM8T, TIM64T and T1024T start
    /// the timer; SWCHB is stored.
    pub open spec fn riot_write(self, a: int, value: u8) -> MemoryView {
        let r = a % 0x20;
        if r == 0x14 {
            self.start_timer(value, 1)
        } else if r == 0x15 {
            self.start_timer(value, 8)
        } else if r == 0x16 {
            self.start_timer(value, 64)
        } else if r == 0x17 {
            self.start_timer(value, 1024)
        } else if r == 0x02 {
            MemoryView { riot_regs: self.riot_regs.update(2, value), ..self }
        } else {
            self
        }
    }

    /// The byte that a CPU read of `addr` returns.
    #[verifier::opaque]
    pub open spec fn read(self, addr: u16) -> u8 {
        let a = bus_address(addr);
        if a < 0x80 {
            self.tia.read_register((a % 0x40) as u16)
        } else if is_ram_address(addr) {
            self.ram[ram_cell(addr)]
        } else if 0x280 <= a < 0x300 {
            self.riot_read(a)
        } else if is_rom_address(addr) {
            self.rom[a % 0x1000]
        } else {
            0
        }
    }

    /// The memory after a CPU write of `value` to `addr`; writes to ROM and
    /// to unmapped addresses change nothing.
    #[verifier::opaque]
    pub open spec fn write(self, addr: u16, value: u8) -> MemoryView {
        let a = bus_address(addr);
        if a < 0x80 {
            MemoryView { tia: self.tia.write_register((a % 0x40) as u16, value), ..self }
        } else if is_ram_address(addr) {
            MemoryView { ram: self.ram.update(ram_cell(addr), value), ..self }
        } else if 0x280 <= a < 0x300 {
            self.riot_write(a, value)
        } else {
            self
        }
    }

    /// One cycle of the RIOT timer: the prescaler counts down and, when it
    /// reaches zero, reloads and the timer steps down (modulo 256).
    pub open spec fn riot_step(self) -> MemoryView {
        let p = if self.riot_prescaler > 0 {
            (self.riot_prescaler - 1) as u32
        } else {
            self.riot_prescaler
        };
        if p == 0 {
            MemoryView {
                riot_prescaler: self.riot_prescaler_value,
                riot_timer: ((self.riot_timer + 255) % 256) as u8,
                ..self
            }
        } else {
            MemoryView { riot_prescaler: p, ..self }
        }
    }

    /// The RIOT timer after `cycles` cycles.
    pub open spec fn riot_tick(self, cycles: nat) -> MemoryView
        decreases cycles,
    {
        if cycles == 0 {
            self
        } else {
            self.riot_step().riot_tick((cycles - 1) as nat)
        }
    }

    /// The TIA after `cycles` cycles, the rest unchanged.
    pub open spec fn tick_tia(self, cycles: nat) -> MemoryView {
        MemoryView { tia: self.tia.tick(cycles), ..self }
    }

    /// The memory with a cartridge image copied to the start of ROM: an
    /// image longer than the ROM is cut at the ROM's size, a shorter one
    /// leaves the rest of the ROM as it was.
    pub open spec fn with_rom(self, data: Seq<u8>) -> MemoryView {
        let n = if data.len() < ROM_SIZE { data.len() as int } else { ROM_SIZE as int };
        MemoryView { rom: data.take(n) + self.rom.skip(n), ..self }
    }
}

/// A write keeps the memory well formed.
pub proof fn lemma_write_wf(m: MemoryView, addr: u16, value: u8)
    requires
        m.wf(),
    ensures
        m.write(addr, value).wf(),
{
    reveal(MemoryView::write);
}

/// A RAM byte reads back as last written, through either of its two
/// addresses.
pub proof fn lemma_ram_read_after_write(m: MemoryView, addr: u16, other: u16, value: u8)
    requires
        m.wf(),
        is_ram_address(addr),
        is_ram_address(other),
        ram_cell(addr) == ram_cell(other),
    ensures
        m.write(addr, value).read(other) == value,
{
    reveal(MemoryView::read);
    reveal(MemoryView::write);
}

/// A write to one RAM byte leaves every other RAM byte as it was.
pub proof fn lemma_ram_write_other(m: MemoryView, addr: u16, other: u16, value: u8)
    requires
        m.wf(),
        is_ram_address(addr),
        is_ram_address(other),
        ram_cell(addr) != ram_cell(other),
    ensures
        m.write(addr, value).read(other) == m.read(other),
{
    reveal(MemoryView::read);
    reveal(MemoryView::write);
}

/// The 128 bytes of RAM appear at 0x80..0x100 and again at 0x180..0x200,
/// where the stack lives.
pub proof fn lemma_ram_mirror(m: MemoryView, i: u16)
    requires
        m.wf(),
        i < 0x80,
    ensures
        m.read((0x80 + i) as u16) == m.ram[i as int],
        m.read((0x180 + i) as u16) == m.ram[i as int],
{
    reveal(MemoryView::read);
}

/// Only 13 address lines reach the bus: addresses 0x2000 apart are the
/// same location, for reads and for writes.
pub proof fn lemma_address_lines(m: MemoryView, addr: u16, value: u8)
    requires
        addr < 0xE000,
    ensures
        m.read(addr) == m.read((addr + 0x2000) as u16),
        m.write(addr, value) == m.write((addr + 0x2000) as u16, value),
{
    reveal(MemoryView::read);
    reveal(MemoryView::write);
    assert(bus_address(addr) == bus_address((addr + 0x2000) as u16));
}

/// Writes to the cartridge ROM and to unmapped addresses change nothing.
pub proof fn lemma_write_ignored(m: MemoryView, addr: u16, value: u8)
    requires
        is_rom_address(addr) || (0x100 <= bus_address(addr) < 0x180) || (0x200 <= bus_address(addr) < 0x280)
            || (0x300 <= bus_address(addr) < 0x1000),
    ensures
        m.write(addr, value) == m,
{
    reveal(MemoryView::write);
}

/// Running the timer for `a` and then `b` cycles is running it for `a + b`.
proof fn lemma_riot_tick_split(m: MemoryView, a: nat, b: nat)
    ensures
        m.riot_tick(a + b) == m.riot_tick(a).riot_tick(b),
    decreases a,
{
    if a > 0 {
        lemma_riot_tick_split(m.riot_step(), (a - 1) as nat, b);
        assert((a + b - 1) as nat == (a - 1) as nat + b);
    }
}

/// Before the prescaler runs out, only the prescaler moves.
proof fn lemma_prescaler_countdown(m: MemoryView, j: nat)
    requires
        j < m.riot_prescaler,
    ensures
        m.riot_tick(j) == (MemoryView { riot_prescaler: (m.riot_prescaler - j) as u32, ..m }),
    decreases j,
{
    if j > 0 {
        let s = m.riot_step();
        assert(s == (MemoryView { riot_prescaler: (m.riot_prescaler - 1) as u32, ..m }));
        lemma_prescaler_countdown(s, (j - 1) as nat);
    }
}

/// One interval of a freshly loaded prescaler moves the timer down by one.
proof fn lemma_timer_interval(m: MemoryView)
    requires
        1 <= m.riot_prescaler,
        m.riot_prescaler == m.riot_prescaler_value,
    ensures
        m.riot_tick(m.riot_prescaler_value as nat) == (MemoryView {
            riot_timer: ((m.riot_timer + 255) % 256) as u8,
            ..m
        }),
{
    let k = m.riot_prescaler_value as nat;
    lemma_riot_tick_split(m, (k - 1) as nat, 1);
    lemma_prescaler_countdown(m, (k - 1) as nat);
    assert((k - 1) as nat + 1 == k);
    let before = m.riot_tick((k - 1) as nat);
    assert(before.riot_tick(1) == before.riot_step().riot_tick(0));
}

/// Started with prescaler interval `k`, the timer counts down by one every
/// `k` cycles, wrapping below zero to 255.
pub proof fn lemma_timer_countdown(m: MemoryView, n: nat)
    requires
        1 <= m.riot_prescaler,
        m.riot_prescaler == m.riot_prescaler_value,
    ensures
        m.riot_tick(m.riot_prescaler_value as nat * n).riot_timer == (m.riot_timer - n) % 256,
        m.riot_tick(m.riot_prescaler_value as nat * n).riot_prescaler == m.riot_prescaler_value,
    decreases n,
{
    let k = m.riot_prescaler_value as nat;
    if n > 0 {
        assert(k * n == k + k * (n - 1) as nat) by (nonlinear_arith)
            requires
                n > 0,
        ;
        lemma_riot_tick_split(m, k, k * (n - 1) as nat);
        lemma_timer_interval(m);
        let m1 = m.riot_tick(k);
        lemma_timer_countdown(m1, (n - 1) as nat);
        assert(((m.riot_timer + 255) % 256 - (n - 1)) % 256 == (m.riot_timer - n) % 256);
    }
}

/// Writing TIM1T, TIM8T, TIM64T or T1024T (0x294..=0x297) starts the timer
/// at the value written; INTIM (0x284) then reads it counted down by one
/// every 1, 8, 64 or 1024 cycles.
pub proof fn lemma_timer_after_write(m: MemoryView, reg: u16, value: u8, n: nat)
    requires
        0x294 <= reg <= 0x297,
    ensures
        ({
            let interval: nat = if reg == 0x294 {
                1
            } else if reg == 0x295 {
                8
            } else if reg == 0x296 {
                64
            } else {
                1024
            };
            m.write(reg, value).riot_tick(interval * n).read(0x284) == (value - n) % 256
        }),
{
    reveal(MemoryView::read);
    reveal(MemoryView::write);
    let m1 = m.write(reg, value);
    lemma_timer_countdown(m1, n);
}

/// The first 128 bytes of the bus reach the TIA, whose 64 registers
/// appear twice there: a write goes to register `addr % 64`, a read comes
/// from it, and nothing else changes.
pub proof fn lemma_tia_on_the_bus(m: MemoryView, addr: u16, value: u8)
    requires
        addr < 0x80,
    ensures
        m.write(addr, value) == (MemoryView { tia: m.tia.write_register(addr % 64, value), ..m }),
        m.read(addr) == m.tia.read_register(addr % 64),
{
    reveal(MemoryView::read);
    reveal(MemoryView::write);
}

/// INTIM (0x284) reads the timer; INSTAT (0x285) reads 0x80 once the
/// timer has reached zero and 0 before; a write to SWCHB (0x282) is kept.
pub proof fn lemma_riot_registers(m: MemoryView, value: u8)
    requires
        m.wf(),
    ensures
        m.read(0x284) == m.riot_timer,
        m.read(0x285) == (if m.riot_timer == 0 { 0x80u8 } else { 0u8 }),
        m.write(0x282, value) == (MemoryView { riot_regs: m.riot_regs.update(2, value), ..m }),
{
    reveal(MemoryView::read);
    reveal(MemoryView::write);
}

/// A cartridge image loaded into ROM reads back at 0x1000 + i (and so at
/// every mirror of the ROM, such as 0xF000 + i).
pub proof fn lemma_rom_read_after_load(m: MemoryView, data: Seq<u8>, i: u16)
    requires
        m.wf(),
        i < ROM_SIZE,
        i < data.len(),
    ensures
        m.with_rom(data).read((0x1000 + i) as u16) == data[i as int],
        m.with_rom(data).read((0xF000 + i) as u16) == data[i as int],
{
    reveal(MemoryView::read);
}

proof fn lemma_address_bits(addr: u16)
    ensures
        addr & 0x1FFF == addr as int % 0x2000,
        (addr & 0x1FFF) & 0x7F == (addr as int % 0x2000) % 0x80,
        (addr & 0x1FFF) & 0x3F == (addr as int % 0x2000) % 0x40,
        (addr & 0x1FFF) & 0x1F == (addr as int % 0x2000) % 0x20,
        (addr & 0x1FFF) & 0x0FFF == (addr as int % 0x2000) % 0x1000,
{
    assert(addr & 0x1FFF == addr as int % 0x2000 && (addr & 0x1FFF) & 0x7F == (addr & 0x1FFF) % 0x80 && (addr
        & 0x1FFF) & 0x3F == (addr & 0x1FFF) % 0x40 && (addr & 0x1FFF) & 0x1F == (addr & 0x1FFF) % 0x20 && (addr
        & 0x1FFF) & 0x0FFF == (addr & 0x1FFF) % 0x1000) by (bit_vector);
}

impl Memory {
    pub fn new() -> (m: Memory)
        ensures
            m@ == MemoryView::power_on(),
            m@.wf(),
    {
        let m = Memory {
            ram: [0u8; RAM_SIZE],
            rom: [0u8; ROM_SIZE],
            tia: Tia::new(),
            riot_regs: [0u8; 0x40],
            riot_timer: 0,
            riot_prescaler: 1,
            riot_prescaler_value: 1,
        };
        assert(m@.ram =~= MemoryView::power_on().ram);
        assert(m@.rom =~= MemoryView::power_on().rom);
        assert(m@.riot_regs =~= MemoryView::power_on().riot_regs);
        m
    }

    /// Copies the cartridge image into ROM; an image longer than the ROM is
    /// cut at the ROM's size, a shorter one leaves the rest of the ROM as it
    /// was.
    pub fn load_rom(&mut self, data: &[u8])
        ensures
            final(self)@ == old(self)@.with_rom(data@),
    {
        let len = if data.len() < ROM_SIZE { data.len() } else { ROM_SIZE };
        let ghost m0 = self@;
        let mut i: usize = 0;
        while i < len
            invariant
                len <= data@.len(),
                len <= ROM_SIZE,
                i <= len,
                self@ == (MemoryView { rom: self@.rom, ..m0 }),
                m0.rom.len() == ROM_SIZE,
                self@.rom =~= data@.take(i as int) + m0.rom.skip(i as int),
            decreases len - i,
        {
            self.rom[i] = data[i];
            i += 1;
            assert(self@.rom =~= data@.take(i as int) + m0.rom.skip(i as int));
        }
    }

    fn riot_read(&self, addr: u16) -> (v: u8)
        requires
            addr == addr as int % 0x2000,
        ensures
            v == self@.riot_read(addr as int),
    {
        let r = addr & 0x1F;
        assert(r == addr as int % 0x20) by (bit_vector)
            requires
                r == addr & 0x1F,
        ;
        match r {
            0x04 | 0x06 => self.riot_timer,  // INTIM
            0x05 | 0x07 => {
                // INSTAT
                if self.riot_timer == 0 {
                    0x80
                } else {
                    0x00
                }
            },
            _ => 0,
        }
    }

    fn riot_write(&mut self, addr: u16, value: u8)
        ensures
            final(self)@ == old(self)@.riot_write(addr as int, value),
    {
        let r = addr & 0x1F;
        assert(r == addr as int % 0x20) by (bit_vector)
            requires
                r == addr & 0x1F,
        ;
        match r {
            0x14 => {
                // TIM1T
                self.riot_timer = value;
                self.riot_prescaler_value = 1;
                self.riot_prescaler = 1;
            },
            0x15 => {
                // TIM8T
                self.riot_timer = value;
                self.riot_prescaler_value = 8;
                self.riot_prescaler = 8;
            },
            0x16 => {
                // TIM64T
                self.riot_timer = value;
                self.riot_prescaler_value = 64;
                self.riot_prescaler = 64;
            },
            0x17 => {
                // T1024T
                self.riot_timer = value;
                self.riot_prescaler_value = 1024;
                self.riot_prescaler = 1024;
            },
            0x02 => {
                // SWCHB
                self.riot_regs[2] = value;
            },
            _ => {},
        }
    }

    /// Runs the RIOT timer for `cycles` cycles.
    pub fn tick_riot(&mut self, cycles: u32)
        ensures
            final(self)@ == old(self)@.riot_tick(cycles as nat),
    {
        let mut i: u32 = 0;
        while i < cycles
            invariant
                i <= cycles,
                self@.riot_tick((cycles - i) as nat) == old(self)@.riot_tick(cycles as nat),
            decreases cycles - i,
        {
            if self.riot_prescaler > 0 {
                self.riot_prescaler -= 1;
            }
            if self.riot_prescaler == 0 {
                self.riot_prescaler = self.riot_prescaler_value;
                self.riot_timer = self.riot_timer.wrapping_sub(1);
            }
            i += 1;
        }
    }

    pub fn read(&self, addr: u16) -> (v: u8)
        ensures
            v == self@.read(addr),
    {
        proof {
            lemma_address_bits(addr);
            reveal(MemoryView::read);
        }
        let a = addr & 0x1FFF;
        if a <= 0x007F {
            self.tia.read_register(a & 0x3F)
        } else if a <= 0x00FF {
            self.ram[(a & 0x7F) as usize]
        } else if 0x0180 <= a && a <= 0x01FF {
            self.ram[(a & 0x7F) as usize]
        } else if 0x0280 <= a && a <= 0x02FF {
            self.riot_read(a)
        } else if 0x1000 <= a {
            self.rom[(a & 0x0FFF) as usize]
        } else {
            0
        }
    }

    pub fn write(&mut self, addr: u16, value: u8)
        ensures
            final(self)@ == old(self)@.write(addr, value),
            old(self)@.wf() ==> final(self)@.wf(),
    {
        proof {
            lemma_address_bits(addr);
            reveal(MemoryView::write);
        }
        let a = addr & 0x1FFF;
        if a <= 0x007F {
            self.tia.write_register(a & 0x3F, value);
        } else if a <= 0x00FF {
            self.ram[(a & 0x7F) as usize] = value;
        } else if 0x0180 <= a && a <= 0x01FF {
            self.ram[(a & 0x7F) as usize] = value;
        } else if 0x0280 <= a && a <= 0x02FF {
            self.riot_write(a, value);
        }
    }
}

} // verus!
