# rgb_core

A Game Boy (DMG) emulation core written in Verus: the code is executable
Rust, and its behaviour is stated in `requires` / `ensures` contracts over
mathematical models and proved by the verifier.

## Layout

- `src/` — the verified library.
  - `cpu.rs` — SM83 registers, the instructions the core executes
    (`step_spec`), interrupt dispatch (`interrupt_spec`).
  - `bus.rs` — the memory map (`BusState::read` / `write`): cartridge, VRAM,
    WRAM and its echo, OAM, IO registers, HRAM, boot ROM overlay, OAM DMA,
    serial stub, joypad register.
  - `ppu.rs` — PPU timing (`tick_timing`, `run_timing`), the pixel
    pipeline model (`Pipeline`, `tick_pipeline`, `run_ppu`): fetcher, FIFOs,
    OAM scan, window, sprites, framebuffer; and the VRAM tile-viewer image.
  - `timer.rs` — the 16-bit internal counter, DIV, TIMA/TMA/TAC and the
    delayed reload.
  - `apu/` — the frame sequencer and the pulse, wave and noise channels.
  - `mbc/` — ROM-only and MBC1 controllers, header validation and parsing.
  - `game_boy.rs` — one emulation step (one machine cycle) over the whole machine
    (`machine_step`), debug snapshot, battery saves.
  - `controls.rs` — keyboard controls of the desktop front end.
  - `test_rom.rs` — pass/fail verdicts of test ROMs that report on the
    serial port.
- `tests/` — tests on concrete values.
- `app/` — the desktop front end (winit + pixels), the headless test-ROM
  runner, and the floating-point audio sample mapping.

Most modules end with proof functions (`lemma_*`) that state properties of
the library as a whole, such as the frame timing of the PPU, the edge
triggering of the STAT interrupt, MBC1 bank mapping and battery-save round
trips.
