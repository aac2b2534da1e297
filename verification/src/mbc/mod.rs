use vstd::prelude::*;

pub mod header;
pub mod mbc1;
pub mod rom_only;

pub use header::CartridgeHeader;
pub use mbc1::{MBC1, MBC1State};
pub use rom_only::ROMOnly;


verus! {

/// Cartridge memory bank controller interface.
///
/// Implementations handle all reads and writes to the cartridge address space:
/// - ROM Bank 0: `0x0000–0x3FFF`
/// - ROM Bank N: `0x4000–0x7FFF`
/// - External RAM: `0xA000–0xBFFF`
pub trait Mbc {
    fn read(&self, addr: u16) -> u8;

    fn write(&mut self, addr: u16, value: u8);

    /// Battery-backed external RAM, if the cartridge has a battery. A
    /// controller that does not provide it has no battery.
    fn battery_ram(&self) -> (r: Option<&[u8]>)
        default_ensures
            r is None,
    {
        None
    }

    /// Restore battery-backed external RAM from saved data.
    fn load_battery_ram(&mut self, data: &[u8]) {
    }
}

/// Abstract state of a cartridge.
#[verifier::ext_equal]
pub enum CartridgeState {
    RomOnly(Seq<u8>),
    Mbc1(MBC1State),
}

impl CartridgeState {
    pub open spec fn wf(self) -> bool {
        match self {
            CartridgeState::RomOnly(_) => true,
            CartridgeState::Mbc1(m) => m.wf(),
        }
    }

    pub open spec fn read(self, addr: u16) -> u8 {
        match self {
            CartridgeState::RomOnly(rom) => mbc1::byte_or_open_bus(rom, addr as int),
            CartridgeState::Mbc1(m) => m.read(addr),
        }
    }

    pub open spec fn write(self, addr: u16, value: u8) -> CartridgeState {
        match self {
            CartridgeState::RomOnly(rom) => CartridgeState::RomOnly(rom),
            CartridgeState::Mbc1(m) => CartridgeState::Mbc1(m.write(addr, value)),
        }
    }

    /// The battery-backed RAM, present only for MBC1 cartridges with a battery.
    pub open spec fn battery_ram(self) -> Option<Seq<u8>> {
        match self {
            CartridgeState::Mbc1(m) => if m.has_battery {
                Some(m.ram)
            } else {
                None
            },
            _ => None,
        }
    }

    pub open spec fn load_battery_ram(self, data: Seq<u8>) -> CartridgeState {
        match self {
            CartridgeState::Mbc1(m) => CartridgeState::Mbc1(
                MBC1State {
                    ram: if data.len() < m.ram.len() {
                        data + m.ram.skip(data.len() as int)
                    } else {
                        data.take(m.ram.len() as int)
                    },
                    ..m
                },
            ),
            _ => self,
        }
    }
}

/// A cartridge controller of one of the supported kinds.
pub enum Cartridge {
    RomOnly(ROMOnly),
    Mbc1(MBC1),
}

impl View for Cartridge {
    type V = CartridgeState;

    open spec fn view(&self) -> CartridgeState {
        match self {
            Cartridge::RomOnly(c) => CartridgeState::RomOnly(c@),
            Cartridge::Mbc1(c) => CartridgeState::Mbc1(c@),
        }
    }
}

impl Mbc for Cartridge {
    fn read(&self, addr: u16) -> (r: u8)
        ensures
            r == self@.read(addr),
    {
        match self {
            Cartridge::RomOnly(c) => c.read(addr),
            Cartridge::Mbc1(c) => c.read(addr),
        }
    }

    fn write(&mut self, addr: u16, value: u8)
        ensures
            final(self)@ == old(self)@.write(addr, value),
            old(self)@.wf() ==> final(self)@.wf(),
    {
        match self {
            Cartridge::RomOnly(c) => c.write(addr, value),
            Cartridge::Mbc1(c) => c.write(addr, value),
        }
    }

    fn battery_ram(&self) -> (r: Option<&[u8]>)
        ensures
            r is Some <==> self@.battery_ram() is Some,
            r matches Some(s) ==> s@ == self@.battery_ram()->Some_0,
    {
        match self {
            Cartridge::RomOnly(_) => None,
            Cartridge::Mbc1(c) => c.battery_ram(),
        }
    }

    fn load_battery_ram(&mut self, data: &[u8])
        ensures
            final(self)@ == old(self)@.load_battery_ram(data@),
            old(self)@.wf() ==> final(self)@.wf(),
    {
        match self {
            Cartridge::RomOnly(_) => {},
            Cartridge::Mbc1(c) => c.load_battery_ram(data),
        }
    }
}

/// The MBC type byte at `0x0147`, or `0x00` when the image is too short to
/// hold it.
pub open spec fn mbc_type_of(rom: Seq<u8>) -> u8 {
    if rom.len() > 0x0147 {
        rom[0x0147]
    } else {
        0x00
    }
}

/// MBC types this emulator supports: ROM-only and the three MBC1 variants.
pub open spec fn supported_mbc_type(t: u8) -> bool {
    t == 0x00 || t == 0x01 || t == 0x02 || t == 0x03
}

/// The cartridge that `from_rom` builds for a ROM image of a supported type.
pub open spec fn cartridge_for(rom: Seq<u8>) -> CartridgeState {
    let t = mbc_type_of(rom);
    if t == 0x00 {
        CartridgeState::RomOnly(rom)
    } else {
        CartridgeState::Mbc1(
            MBC1State {
                rom,
                ram: Seq::new(mbc1::MBC1_RAM_SIZE as nat, |i: int| 0u8),
                rom_bank_lo: 1,
                bank2: 0,
                ram_banking_mode: false,
                ram_enabled: false,
                has_battery: t == 0x03,
            },
        )
    }
}

/// The MBC type byte at `0x0147`, or `0x00` when the image is too short to
/// hold it.
pub fn mbc_type(rom: &[u8]) -> (t: u8)
    ensures
        t == mbc_type_of(rom@),
{
    if rom.len() > 0x0147 {
        rom[0x0147]
    } else {
        0x00
    }
}

/// Whether this emulator supports MBC type `t`.
pub fn is_supported_mbc_type(t: u8) -> (b: bool)
    ensures
        b == supported_mbc_type(t),
{
    t <= 0x03
}

/// Detect the correct MBC from the cartridge header byte at `0x0147` and
/// build the matching controller.
///
/// Type `0x00` is ROM-only; `0x01`–`0x03` are MBC1 (`0x03` has a battery).
pub fn from_rom(rom: Vec<u8>) -> (c: Cartridge)
    requires
        supported_mbc_type(mbc_type_of(rom@)),
    ensures
        c@ == cartridge_for(rom@),
        c@.wf(),
{
    let mbc_type = mbc_type(rom.as_slice());
    if mbc_type == 0x00 {
        Cartridge::RomOnly(ROMOnly::new(rom))
    } else {
        Cartridge::Mbc1(MBC1::new(rom, mbc_type == 0x03))
    }
}

/// Battery saves round-trip: restoring a save of the RAM's size makes the
/// battery RAM read back as that save, and restoring the battery RAM's own
/// contents changes nothing.
pub proof fn lemma_battery_round_trip(c: CartridgeState, data: Seq<u8>)
    requires
        c.battery_ram() is Some,
    ensures
        data.len() == c.battery_ram()->Some_0.len() ==> c.load_battery_ram(data).battery_ram()
            == Some(data),
        c.load_battery_ram(c.battery_ram()->Some_0) == c,
{
    if let CartridgeState::Mbc1(m) = c {
        assert(data.take(data.len() as int) =~= data);
        assert(m.ram.take(m.ram.len() as int) =~= m.ram);
    }
}

} // verus!
