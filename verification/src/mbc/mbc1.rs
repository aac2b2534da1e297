use vstd::prelude::*;

use super::Mbc;

verus! {

/// Returns the byte at index `i` of `s`, or `0xFF` (open bus) when `i` is
/// outside `s`.
pub open spec fn byte_or_open_bus(s: Seq<u8>, i: int) -> u8 {
    if 0 <= i < s.len() {
        s[i]
    } else {
        0xFF
    }
}

/// Size of the external RAM that an MBC1 cartridge carries (32 KiB, 4 banks).
pub const MBC1_RAM_SIZE: usize = 0x8000;

/// Abstract state of an MBC1 controller.
#[verifier::ext_equal]
pub struct MBC1State {
    pub rom: Seq<u8>,
    pub ram: Seq<u8>,
    /// Lower 5 bits of the ROM bank number.
    pub rom_bank_lo: u8,
    /// Upper 2 bits: ROM bank bits 5–6, or the RAM bank in RAM banking mode.
    pub bank2: u8,
    /// `false` = ROM banking mode, `true` = RAM banking mode.
    pub ram_banking_mode: bool,
    pub ram_enabled: bool,
    pub has_battery: bool,
}

impl MBC1State {
    /// Register values stay within the widths that the hardware latches keep.
    pub open spec fn wf(self) -> bool {
        &&& self.rom_bank_lo <= 0x1F
        &&& self.bank2 <= 0x03
        &&& self.ram.len() == MBC1_RAM_SIZE
    }

    /// Physical ROM offset that the `0x0000–0x3FFF` window starts at.
    pub open spec fn rom_bank_0_offset(self) -> int {
        if self.ram_banking_mode {
            self.bank2 * 0x80000
        } else {
            0
        }
    }

    /// Bank number visible in the `0x4000–0x7FFF` window: a low part of 0 is
    /// treated as 1, so banks 0x00/0x20/0x40/0x60 select the next bank.
    pub open spec fn rom_bank_n(self) -> int {
        let lo: int = if self.rom_bank_lo == 0 { 1 } else { self.rom_bank_lo as int };
        self.bank2 * 32 + lo
    }

    /// Physical RAM offset of the selected RAM bank.
    pub open spec fn ram_bank_offset(self) -> int {
        if self.ram_banking_mode {
            self.bank2 * 0x2000
        } else {
            0
        }
    }

    pub open spec fn read(self, addr: u16) -> u8 {
        if addr <= 0x3FFF {
            byte_or_open_bus(self.rom, self.rom_bank_0_offset() + addr)
        } else if addr <= 0x7FFF {
            byte_or_open_bus(self.rom, self.rom_bank_n() * 0x4000 + (addr - 0x4000))
        } else if 0xA000 <= addr <= 0xBFFF {
            if self.ram_enabled {
                byte_or_open_bus(self.ram, self.ram_bank_offset() + (addr - 0xA000))
            } else {
                0xFF
            }
        } else {
            0xFF
        }
    }

    pub open spec fn write(self, addr: u16, value: u8) -> MBC1State {
        if addr <= 0x1FFF {
            MBC1State { ram_enabled: value & 0x0F == 0x0A, ..self }
        } else if addr <= 0x3FFF {
            MBC1State { rom_bank_lo: value & 0x1F, ..self }
        } else if addr <= 0x5FFF {
            MBC1State { bank2: value & 0x03, ..self }
        } else if addr <= 0x7FFF {
            MBC1State { ram_banking_mode: value & 0x01 != 0, ..self }
        } else if 0xA000 <= addr <= 0xBFFF && self.ram_enabled {
            let offset = self.ram_bank_offset() + (addr - 0xA000);
            if 0 <= offset < self.ram.len() {
                MBC1State { ram: self.ram.update(offset, value), ..self }
            } else {
                self
            }
        } else {
            self
        }
    }
}

/// MBC1 cartridge controller.
///
/// Supports up to 2 MiB ROM (128 banks × 16 KiB) and 32 KiB external RAM
/// (4 banks × 8 KiB). Implements both ROM banking mode and RAM banking mode.
pub struct MBC1 {
    rom: Vec<u8>,
    ram: Vec<u8>,
    rom_bank_lo: u8,
    bank2: u8,
    ram_banking_mode: bool,
    ram_enabled: bool,
    has_battery: bool,
}

impl View for MBC1 {
    type V = MBC1State;

    closed spec fn view(&self) -> MBC1State {
        MBC1State {
            rom: self.rom@,
            ram: self.ram@,
            rom_bank_lo: self.rom_bank_lo,
            bank2: self.bank2,
            ram_banking_mode: self.ram_banking_mode,
            ram_enabled: self.ram_enabled,
            has_battery: self.has_battery,
        }
    }
}

impl MBC1 {
    /// Power-on state: ROM bank 1 selected, ROM banking mode, RAM disabled
    /// and zero-filled.
    pub fn new(rom: Vec<u8>, has_battery: bool) -> (m: Self)
        ensures
            m@ == (MBC1State {
                rom: rom@,
                ram: Seq::new(MBC1_RAM_SIZE as nat, |i: int| 0u8),
                rom_bank_lo: 1,
                bank2: 0,
                ram_banking_mode: false,
                ram_enabled: false,
                has_battery,
            }),
            m@.wf(),
    {
        let ram = vec![0u8; MBC1_RAM_SIZE];
        let m = MBC1 {
            rom,
            ram,
            rom_bank_lo: 1,
            bank2: 0,
            ram_banking_mode: false,
            ram_enabled: false,
            has_battery,
        };
        assert(m@.ram =~= Seq::new(MBC1_RAM_SIZE as nat, |i: int| 0u8));
        m
    }

    fn rom_bank_0_offset(&self) -> (r: usize)
        ensures
            r == self@.rom_bank_0_offset(),
    {
        if self.ram_banking_mode {
            (self.bank2 as usize) * 0x80000
        } else {
            0
        }
    }

    fn rom_bank_n_offset(&self) -> (r: usize)
        ensures
            r == self@.rom_bank_n() * 0x4000,
    {
        let lo: u8 = if self.rom_bank_lo == 0 { 1 } else { self.rom_bank_lo };
        let bank: usize = (self.bank2 as usize) * 32 + (lo as usize);
        bank * 0x4000
    }

    fn ram_bank_offset(&self) -> (r: usize)
        ensures
            r == self@.ram_bank_offset(),
    {
        if self.ram_banking_mode {
            (self.bank2 as usize) * 0x2000
        } else {
            0
        }
    }
}

impl Mbc for MBC1 {
    fn read(&self, addr: u16) -> (r: u8)
        ensures
            r == self@.read(addr),
    {
        if addr <= 0x3FFF {
            let offset = self.rom_bank_0_offset() + addr as usize;
            if offset < self.rom.len() {
                self.rom[offset]
            } else {
                0xFF
            }
        } else if addr <= 0x7FFF {
            let offset = self.rom_bank_n_offset() + (addr as usize - 0x4000);
            if offset < self.rom.len() {
                self.rom[offset]
            } else {
                0xFF
            }
        } else if 0xA000 <= addr && addr <= 0xBFFF {
            if self.ram_enabled {
                let offset = self.ram_bank_offset() + (addr as usize - 0xA000);
                if offset < self.ram.len() {
                    self.ram[offset]
                } else {
                    0xFF
                }
            } else {
                0xFF
            }
        } else {
            0xFF
        }
    }

    fn write(&mut self, addr: u16, value: u8)
        ensures
            final(self)@ == old(self)@.write(addr, value),
            old(self)@.wf() ==> final(self)@.wf(),
    {
        if addr <= 0x1FFF {
            // RAM enable: 0x0A in the lower nibble enables RAM.
            self.ram_enabled = (value & 0x0F) == 0x0A;
        } else if addr <= 0x3FFF {
            proof {
                crate::bits::lemma_u8_fields(value);
            }
            self.rom_bank_lo = value & 0x1F;
        } else if addr <= 0x5FFF {
            proof {
                crate::bits::lemma_u8_fields(value);
            }
            self.bank2 = value & 0x03;
        } else if addr <= 0x7FFF {
            self.ram_banking_mode = (value & 0x01) != 0;
        } else if 0xA000 <= addr && addr <= 0xBFFF {
            if self.ram_enabled {
                let offset = self.ram_bank_offset() + (addr as usize - 0xA000);
                if offset < self.ram.len() {
                    self.ram.set(offset, value);
                }
            }
        }
    }

    fn battery_ram(&self) -> (r: Option<&[u8]>)
        ensures
            r is Some <==> self@.has_battery,
            r matches Some(s) ==> s@ == self@.ram,
    {
        if self.has_battery {
            Some(self.ram.as_slice())
        } else {
            None
        }
    }

    fn load_battery_ram(&mut self, data: &[u8])
        ensures
            final(self)@ == (MBC1State {
                ram: if data@.len() < old(self)@.ram.len() {
                    data@ + old(self)@.ram.skip(data@.len() as int)
                } else {
                    data@.take(old(self)@.ram.len() as int)
                },
                ..old(self)@
            }),
    {
        let len = if data.len() < self.ram.len() { data.len() } else { self.ram.len() };
        let mut i: usize = 0;
        while i < len
            invariant
                len <= data@.len(),
                len <= old(self)@.ram.len(),
                0 <= i <= len,
                self@ == (MBC1State { ram: self@.ram, ..old(self)@ }),
                self@.ram.len() == old(self)@.ram.len(),
                forall|j: int| 0 <= j < i ==> self@.ram[j] == data@[j],
                forall|j: int| i <= j < self@.ram.len() ==> self@.ram[j] == old(self)@.ram[j],
            decreases len - i,
        {
            self.ram.set(i, data[i]);
            i += 1;
        }
        assert(self@.ram =~= if data@.len() < old(self)@.ram.len() {
            data@ + old(self)@.ram.skip(data@.len() as int)
        } else {
            data@.take(old(self)@.ram.len() as int)
        });
    }
}

/// The `0x0000–0x3FFF` window keeps showing physical bank 0 in ROM banking
/// mode whatever is written to the ROM bank register.
pub proof fn lemma_bank0_window_fixed(s: MBC1State, reg: u16, value: u8, addr: u16)
    requires
        !s.ram_banking_mode,
        0x2000 <= reg <= 0x3FFF,
        addr <= 0x3FFF,
    ensures
        s.write(reg, value).read(addr) == byte_or_open_bus(s.rom, addr as int),
        s.read(addr) == byte_or_open_bus(s.rom, addr as int),
{
}

/// In ROM banking mode, writing bank number `n` (1–31) selects physical bank
/// `bank2 * 32 + n` for the `0x4000–0x7FFF` window.
pub proof fn lemma_bank_n_window(s: MBC1State, n: u8, offset: int)
    requires
        1 <= n <= 0x1F,
        0 <= offset < 0x4000,
    ensures
        s.write(0x2000, n).read((0x4000 + offset) as u16) == byte_or_open_bus(
            s.rom,
            (s.bank2 * 32 + n) * 0x4000 + offset,
        ),
{
    crate::bits::lemma_u8_fields(n);
}

/// Writing 0 to the ROM bank register selects the same bank as writing 1, so
/// banks 0x00, 0x20, 0x40 and 0x60 are never visible at `0x4000–0x7FFF`; they
/// map to 0x01, 0x21, 0x41 and 0x61.
pub proof fn lemma_bank_zero_remaps(s: MBC1State, addr: u16)
    ensures
        s.write(0x2000, 0).read(addr) == s.write(0x2000, 1).read(addr),
{
    crate::bits::lemma_shift_constants();
}

/// With RAM enabled, a byte written to external RAM reads back.
pub proof fn lemma_ram_read_after_write(s: MBC1State, addr: u16, value: u8)
    requires
        s.wf(),
        s.ram_enabled,
        0xA000 <= addr <= 0xBFFF,
    ensures
        s.write(addr, value).read(addr) == value,
{
}

/// With RAM disabled, external RAM reads `0xFF` and writes to it change
/// nothing.
pub proof fn lemma_ram_disabled(s: MBC1State, addr: u16, value: u8)
    requires
        !s.ram_enabled,
        0xA000 <= addr <= 0xBFFF,
    ensures
        s.read(addr) == 0xFF,
        s.write(addr, value) == s,
{
}

/// In RAM banking mode the four RAM banks are distinct: a write through one
/// bank leaves the same address in every other bank unchanged.
pub proof fn lemma_ram_banks_distinct(s: MBC1State, b1: u8, b2: u8, addr: u16, value: u8)
    requires
        s.wf(),
        s.ram_enabled,
        s.ram_banking_mode,
        b1 <= 3,
        b2 <= 3,
        b1 != b2,
        0xA000 <= addr <= 0xBFFF,
    ensures
        ({
            let in_b1 = s.write(0x4000, b1).write(addr, value);
            in_b1.write(0x4000, b2).read(addr) == s.write(0x4000, b2).read(addr)
        }),
{
    crate::bits::lemma_u8_fields(b1);
    crate::bits::lemma_u8_fields(b2);
}

/// Where an external-RAM access lands: with RAM enabled, `0xA000 + k`
/// (k below `0x2000`) reaches RAM byte `b × 0x2000 + k` of the selected
/// bank `b` in RAM banking mode, and byte `k` (bank 0) in ROM banking mode;
/// a read gives that byte and a write changes that byte only.
pub proof fn lemma_ram_bank_address(s: MBC1State, k: u16, value: u8)
    requires
        s.wf(),
        s.ram_enabled,
        k < 0x2000,
    ensures
        ({
            let at: int = if s.ram_banking_mode { s.bank2 * 0x2000 + k } else { k as int };
            &&& 0 <= at < 0x8000
            &&& s.read((0xA000 + k) as u16) == s.ram[at]
            &&& s.write((0xA000 + k) as u16, value) == (MBC1State { ram: s.ram.update(at, value), ..s })
        }),
{
}

/// In RAM banking mode the four RAM banks do not overlap: a write through one
/// bank, at any address, leaves every address of another bank unchanged.
pub proof fn lemma_ram_banks_disjoint(
    s: MBC1State,
    b1: u8,
    b2: u8,
    addr1: u16,
    addr2: u16,
    value: u8,
)
    requires
        s.wf(),
        s.ram_enabled,
        s.ram_banking_mode,
        b1 <= 3,
        b2 <= 3,
        b1 != b2,
        0xA000 <= addr1 <= 0xBFFF,
        0xA000 <= addr2 <= 0xBFFF,
    ensures
        s.write(0x4000, b1).write(addr1, value).write(0x4000, b2).read(addr2) == s.write(
            0x4000,
            b2,
        ).read(addr2),
{
    crate::bits::lemma_u8_fields(b1);
    crate::bits::lemma_u8_fields(b2);
}

/// The MBC1 registers: a write to `0x0000–0x1FFF` enables RAM exactly when
/// the value's low nibble is `0xA`; `0x2000–0x3FFF` takes the low five bits
/// as the ROM bank, `0x4000–0x5FFF` the low two bits as the upper bank bits,
/// and `0x6000–0x7FFF` bit 0 as the banking mode (1 = RAM banking).
pub proof fn lemma_register_writes(s: MBC1State, addr: u16, value: u8)
    ensures
        addr <= 0x1FFF ==> s.write(addr, value).ram_enabled == (value % 16 == 10),
        0x2000 <= addr <= 0x3FFF ==> s.write(addr, value).rom_bank_lo == value % 32,
        0x4000 <= addr <= 0x5FFF ==> s.write(addr, value).bank2 == value % 4,
        0x6000 <= addr <= 0x7FFF ==> s.write(addr, value).ram_banking_mode == (value % 2 == 1),
{
    assert((value & 0x0F == 0x0A) == (value % 16 == 10) && value & 0x1F == value % 32 && value & 0x03
        == value % 4 && (value & 0x01 != 0) == (value % 2 == 1)) by (bit_vector);
}

} // verus!
