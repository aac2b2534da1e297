use vstd::prelude::*;

use super::Mbc;

verus! {

/// ROM-only cartridge (MBC type `0x00`). No banking, no external RAM.
/// Writes to ROM space are silently ignored per hardware behaviour.
pub struct ROMOnly {
    rom: Vec<u8>,
}

impl View for ROMOnly {
    type V = Seq<u8>;

    closed spec fn view(&self) -> Seq<u8> {
        self.rom@
    }
}

impl ROMOnly {
    pub fn new(rom: Vec<u8>) -> (r: Self)
        ensures
            r@ == rom@,
    {
        ROMOnly { rom }
    }
}

impl Mbc for ROMOnly {
    /// Both ROM windows map the image directly; bytes past its end read `0xFF`.
    fn read(&self, addr: u16) -> (r: u8)
        ensures
            r == super::mbc1::byte_or_open_bus(self@, addr as int),
    {
        if (addr as usize) < self.rom.len() {
            self.rom[addr as usize]
        } else {
            0xFF
        }
    }

    fn write(&mut self, addr: u16, value: u8)
        ensures
            final(self)@ == old(self)@,
    {
    }
}

} // verus!
