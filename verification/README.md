# zae_a2600

An Atari 2600 emulator core with a 6502 disassembler, written in Verus:
every function of the library carries a contract that Verus proves.

- `src/disasm.rs` — the official 6502 instruction set as a table from opcode
  to mnemonic and addressing mode, decoding, and formatting into a caller's
  buffer without allocation.
- `src/memory.rs` — the 6507's 13-bit memory map: TIA registers, 128 bytes of
  RAM and its stack mirror, the RIOT timer, the 4 KiB cartridge ROM.
- `src/tia.rs` — the video chip: registers, the beam's position, and the
  rendering of each visible scanline into an RGBA framebuffer.
- `src/cpu.rs` — the CPU: the effect of each opcode as a specification over
  the disassembler's table, and `step`, `run_for_cycles` and `run_frame`
  proved against it.
- `src/lifecycle.rs` — the decisions of the Android front end: when frames
  render and which graphics resources to create or release.
- `app/` — the JNI entry points, which perform the graphics work and ask
  `lifecycle` what to do, and a tracing tool.

The laws that the library keeps (RAM reads back what was written, the RIOT
timer counts down by its interval, JSR and RTS return to the caller, the CPU
consumes exactly the bytes that the disassembler decodes and branches where
it shows them going, and others) are
public proof functions next to the code they speak of.
