//! A Game Boy (DMG) emulation core: CPU, PPU, timer, APU, memory bus and
//! cartridge controllers, with no I/O or rendering dependencies.
pub mod apu;
mod bits;
pub mod bus;
pub mod controls;
pub mod cpu;
pub mod game_boy;
pub mod mbc;
pub mod ppu;
pub mod test_rom;
pub mod timer;

pub use bus::{Bus, JoypadState};
pub use cpu::CPU;
pub use game_boy::{DebugInfo, EmulationError, GameBoy, StepResult};
pub use mbc::Mbc;
pub use ppu::{PPU, SCREEN_HEIGHT, SCREEN_WIDTH};
pub use timer::Timer;
