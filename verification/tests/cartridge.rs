use rgb_core::mbc::{is_supported_mbc_type, mbc_type};

#[test]
fn mbc_type_reads_header_byte() {
    let mut rom = vec![0u8; 0x8000];
    rom[0x0147] = 0x03;
    assert_eq!(mbc_type(&rom), 0x03);
    // Too short to hold the header byte: treated as ROM-only.
    assert_eq!(mbc_type(&[0x01; 0x0147]), 0x00);
}

#[test]
fn supported_mbc_types_are_rom_only_and_mbc1() {
    for t in 0..=3u8 {
        assert!(is_supported_mbc_type(t));
    }
    assert!(!is_supported_mbc_type(0x04));
    assert!(!is_supported_mbc_type(0x13));
    assert!(!is_supported_mbc_type(0xFF));
}
