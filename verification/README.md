# tauri_nes

A Nintendo Entertainment System emulator core, verified with Verus, and the
desktop front end around it.

- `src/` is the verified library: the 6502 CPU (`cpu.rs`), the PPU and its
  registers (`ppu.rs`, `registers.rs`), the system bus with RAM mirroring,
  OAM DMA and clocking (`bus.rs`, `ram.rs`), cartridges and iNES parsing
  (`cartridge.rs`, `lib.rs`), joypads (`controller.rs`), breakpoints
  (`debugger.rs`), the frame loop and key bindings (`emulator.rs`), and
  number formatting (`text.rs`). Each module describes its behaviour with
  spec functions over abstract states (`BusState`, `PpuState`, ...), and the
  executable code is proved to follow them. Laws that relate several
  operations (read-after-write of RAM, VRAM, palette and CHR RAM, stack
  push/pull, ADC/SBC arithmetic, PPU timing, OAM DMA, register round trips)
  are stated as `lemma_*` proof functions next to the code they describe.
  `bits.rs` collects the bit-level facts the proofs share.
- `tests/` exercises the library on concrete programs and images.
- `app/` is the Tauri front end: commands, file loading, debug printing,
  floating-point drawing and audio, and serde copies of the exchanged types.
