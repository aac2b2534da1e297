use rgb_core::mbc::header::header_is_valid;
use rgb_core::mbc::CartridgeHeader;

const LOGO: [u8; 48] = [
    0xCE, 0xED, 0x66, 0x66, 0xCC, 0x0D, 0x00, 0x0B,
    0x03, 0x73, 0x00, 0x83, 0x00, 0x0C, 0x00, 0x0D,
    0x00, 0x08, 0x11, 0x1F, 0x88, 0x89, 0x00, 0x0E,
    0xDC, 0xCC, 0x6E, 0xE6, 0xDD, 0xDD, 0xD9, 0x99,
    0xBB, 0xBB, 0x67, 0x63, 0x6E, 0x0E, 0xEC, 0xCC,
    0xDD, 0xDC, 0x99, 0x9F, 0xBB, 0xB9, 0x33, 0x3E,
];

fn valid_rom(title: &[u8], mbc_type: u8) -> Vec<u8> {
    let mut rom = vec![0u8; 0x8000];
    rom[0x0104..=0x0133].copy_from_slice(&LOGO);
    rom[0x0134..0x0134 + title.len()].copy_from_slice(title);
    rom[0x0147] = mbc_type;
    let mut checksum: u8 = 0;
    for &b in &rom[0x0134..=0x014C] {
        checksum = checksum.wrapping_sub(b).wrapping_sub(1);
    }
    rom[0x014D] = checksum;
    rom
}

#[test]
fn parse_reads_title_and_type() {
    let rom = valid_rom(b"TETRIS", 0x01);
    let h = CartridgeHeader::parse(&rom);
    assert_eq!(h.title, "TETRIS");
    assert_eq!(h.mbc_type, 0x01);
}

#[test]
fn parse_full_length_title() {
    let rom = valid_rom(b"ABCDEFGHIJKLMNOP", 0x00);
    let h = CartridgeHeader::parse(&rom);
    assert_eq!(h.title, "ABCDEFGHIJKLMNOP");
}

#[test]
fn checksum_of_blank_header() {
    // 25 bytes of zero: 0 - 25 × (0 + 1) = -25 ≡ 0xE7.
    let rom = valid_rom(b"", 0x00);
    assert_eq!(rom[0x014D], 0xE7);
    assert_eq!(CartridgeHeader::parse(&rom).title, "");
}

#[test]
fn header_validity_checks_length_logo_and_checksum() {
    let rom = valid_rom(b"ZELDA", 0x03);
    assert!(header_is_valid(&rom));
    assert!(!header_is_valid(&rom[..0x014D]));
    let mut bad_logo = rom.clone();
    bad_logo[0x0110] ^= 0x01;
    assert!(!header_is_valid(&bad_logo));
    let mut bad_checksum = rom.clone();
    bad_checksum[0x014D] = bad_checksum[0x014D].wrapping_add(1);
    assert!(!header_is_valid(&bad_checksum));
    let mut changed_title = rom.clone();
    changed_title[0x0134] = b'X';
    assert!(!header_is_valid(&changed_title));
}

#[test]
fn parse_strips_only_trailing_nuls() {
    let rom = valid_rom(b"AB\0CD", 0x00);
    assert_eq!(CartridgeHeader::parse(&rom).title, "AB\u{0}CD");
}
