use vstd::prelude::*;

verus! {

/// Nintendo logo bitmap stored at `0x0104–0x0133` in the cartridge header.
///
/// The DMG boot ROM validates this logo before transferring control to the
/// game — the same validation is done here.
pub const NINTENDO_LOGO: [u8; 48] = [
    0xCE, 0xED, 0x66, 0x66, 0xCC, 0x0D, 0x00, 0x0B,
    0x03, 0x73, 0x00, 0x83, 0x00, 0x0C, 0x00, 0x0D,
    0x00, 0x08, 0x11, 0x1F, 0x88, 0x89, 0x00, 0x0E,
    0xDC, 0xCC, 0x6E, 0xE6, 0xDD, 0xDD, 0xD9, 0x99,
    0xBB, 0xBB, 0x67, 0x63, 0x6E, 0x0E, 0xEC, 0xCC,
    0xDD, 0xDC, 0x99, 0x9F, 0xBB, 0xB9, 0x33, 0x3E,
];

/// The logo as a sequence of bytes.
pub open spec fn logo_bytes() -> Seq<u8> {
    seq![
        0xCEu8, 0xED, 0x66, 0x66, 0xCC, 0x0D, 0x00, 0x0B,
        0x03, 0x73, 0x00, 0x83, 0x00, 0x0C, 0x00, 0x0D,
        0x00, 0x08, 0x11, 0x1F, 0x88, 0x89, 0x00, 0x0E,
        0xDC, 0xCC, 0x6E, 0xE6, 0xDD, 0xDD, 0xD9, 0x99,
        0xBB, 0xBB, 0x67, 0x63, 0x6E, 0x0E, 0xEC, 0xCC,
        0xDD, 0xDC, 0x99, 0x9F, 0xBB, 0xB9, 0x33, 0x3E,
    ]
}

/// Sum of the bytes of `s`.
pub open spec fn byte_sum(s: Seq<u8>) -> int
    decreases s.len(),
{
    if s.len() == 0 {
        0
    } else {
        byte_sum(s.drop_last()) + s.last()
    }
}

/// Header checksum over `0x0134–0x014C`: starting from 0, each byte is
/// subtracted together with 1, modulo 256.
pub open spec fn header_checksum(rom: Seq<u8>) -> u8 {
    ((0 - byte_sum(rom.subrange(0x0134, 0x014D)) - 25) % 256) as u8
}

/// The image is long enough to hold a header, carries the Nintendo logo
/// and a correct header checksum.
pub open spec fn header_valid(rom: Seq<u8>) -> bool {
    &&& rom.len() > 0x014D
    &&& rom.subrange(0x0104, 0x0134) == logo_bytes()
    &&& rom[0x014D] == header_checksum(rom)
}

/// Index of the first NUL byte of `s` at or after `i`, or `s.len()`.
pub open spec fn first_nul(s: Seq<u8>, i: nat) -> nat
    decreases s.len() - i,
{
    if i >= s.len() || s[i as int] == 0 {
        i
    } else {
        first_nul(s, i + 1)
    }
}

/// Length of the first `n` bytes of `s` once their trailing NUL bytes are
/// dropped.
pub open spec fn trimmed_len(s: Seq<u8>, n: nat) -> nat
    decreases n,
{
    if n == 0 || s[n - 1] != 0 {
        n
    } else {
        trimmed_len(s, (n - 1) as nat)
    }
}

/// Title field `0x0134–0x0143` with its trailing NUL bytes stripped, one
/// `char` per byte.
pub open spec fn header_title(rom: Seq<u8>) -> Seq<char> {
    let raw = rom.subrange(0x0134, 0x0144);
    raw.take(trimmed_len(raw, 16) as int).map_values(|b: u8| b as char)
}

/// Whether `rom` is long enough to hold a header, carries the Nintendo logo
/// at `0x0104–0x0133` and a correct header checksum at `0x014D`: what
/// [`CartridgeHeader::parse`] requires.
pub fn header_is_valid(rom: &[u8]) -> (b: bool)
    ensures
        b == header_valid(rom@),
{
    if rom.len() <= 0x014D {
        return false;
    }
    // Nintendo logo, 0x0104–0x0133.
    assert(NINTENDO_LOGO@ =~= logo_bytes());
    let mut k: usize = 0;
    while k < 48
        invariant
            k <= 48,
            rom@.len() > 0x014D,
            NINTENDO_LOGO@ == logo_bytes(),
            forall|j: int| 0 <= j < k ==> rom@[0x0104 + j] == logo_bytes()[j],
        decreases 48 - k,
    {
        if rom[0x0104 + k] != NINTENDO_LOGO[k] {
            assert(rom@.subrange(0x0104, 0x0134)[k as int] != logo_bytes()[k as int]);
            return false;
        }
        k += 1;
    }
    assert(rom@.subrange(0x0104, 0x0134) =~= logo_bytes());
    // Header checksum over 0x0134–0x014C.
    let mut checksum: u8 = 0;
    let mut i: usize = 0x0134;
    while i <= 0x014C
        invariant
            0x0134 <= i <= 0x014D,
            rom@.len() > 0x014D,
            checksum as int == (0 - byte_sum(rom@.subrange(0x0134, i as int)) - (i - 0x0134)) % 256,
        decreases 0x014D - i,
    {
        let byte = rom[i];
        assert(rom@.subrange(0x0134, i + 1).drop_last() =~= rom@.subrange(0x0134, i as int));
        checksum = checksum.wrapping_sub(byte).wrapping_sub(1);
        i += 1;
    }
    checksum == rom[0x014D]
}

/// `String::push`: appends `c`. Claimed: the string's characters afterwards
/// are the ones before followed by `c`.
#[verifier::external_body]
pub(crate) fn string_push(s: &mut String, c: char)
    ensures
        final(s)@ == old(s)@.push(c),
{
    s.push(c);
}

/// Parsed and validated cartridge header fields.
pub struct CartridgeHeader {
    /// Game title extracted from `0x0134–0x0143`, trailing NUL bytes stripped.
    pub title: String,
    /// MBC type byte from `0x0147`.
    pub mbc_type: u8,
}

impl CartridgeHeader {
    /// Parse and validate the cartridge header from a ROM image.
    ///
    /// The image must be long enough to contain a header, hold the Nintendo
    /// logo at `0x0104–0x0133`, and carry a correct checksum at `0x014D`.
    pub fn parse(rom: &[u8]) -> (h: Self)
        requires
            header_valid(rom@),
        ensures
            h.title@ == header_title(rom@),
            h.mbc_type == rom@[0x0147],
    {
        // Title — 0x0134–0x0143, NUL-padded: drop the trailing NUL bytes.
        let ghost raw = rom@.subrange(0x0134, 0x0144);
        let mut end: usize = 16;
        while end > 0 && rom[0x0134 + end - 1] == 0x00
            invariant
                end <= 16,
                rom@.len() > 0x014D,
                raw == rom@.subrange(0x0134, 0x0144),
                trimmed_len(raw, end as nat) == trimmed_len(raw, 16),
            decreases end,
        {
            end -= 1;
        }
        assert(trimmed_len(raw, end as nat) == end);
        let mut title = String::new();
        let mut j: usize = 0;
        while j < end
            invariant
                0 <= j <= end <= 16,
                rom@.len() > 0x014D,
                raw == rom@.subrange(0x0134, 0x0144),
                title@ == raw.take(j as int).map_values(|b: u8| b as char),
            decreases end - j,
        {
            let b = rom[0x0134 + j];
            string_push(&mut title, b as char);
            assert(raw.take(j + 1) =~= raw.take(j as int).push(b));
            assert(raw.take(j + 1).map_values(|b: u8| b as char) =~= raw.take(j as int).map_values(|b: u8| b as char).push(b as char));
            j += 1;
        }
        CartridgeHeader { title, mbc_type: rom[0x0147] }
    }
}

} // verus!
