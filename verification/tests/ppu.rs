use rgb_core::bus::Bus;
use rgb_core::ppu::PPU;

fn bus_with_lcd(lcdc: u8) -> Bus {
    let mut bus = Bus::new(vec![0u8; 0x8000], None);
    bus.write(0xFF40, lcdc);
    bus
}

#[test]
fn new_ppu_is_black_and_in_oam_scan() {
    let ppu = PPU::new();
    assert_eq!(ppu.ly(), 0);
    assert_eq!(ppu.mode(), 2);
    let fb = ppu.framebuffer();
    assert_eq!(fb.len(), 160 * 144 * 4);
    assert!(fb.chunks(4).all(|px| px == [0, 0, 0, 0xFF]));
    assert_eq!(PPU::default().mode(), 2);
}

#[test]
fn lcd_off_holds_line_zero() {
    let mut bus = bus_with_lcd(0x00);
    let mut ppu = PPU::new();
    assert!(!ppu.step(&mut bus, 100_000));
    assert_eq!(ppu.ly(), 0);
    assert_eq!(ppu.mode(), 0);
    assert_eq!(bus.read(0xFF44), 0);
    assert_eq!(bus.read(0xFF41) & 0x07, 0);
}

#[test]
fn mode_follows_dot_position() {
    let mut bus = bus_with_lcd(0x91);
    let mut ppu = PPU::new();
    ppu.step(&mut bus, 79);
    assert_eq!(ppu.mode(), 2);
    ppu.step(&mut bus, 1);
    assert_eq!(ppu.mode(), 3);
    ppu.step(&mut bus, 172);
    assert_eq!(ppu.mode(), 0);
    ppu.step(&mut bus, 204);
    assert_eq!(ppu.ly(), 1);
    assert_eq!(bus.read(0xFF44), 1);
    assert_eq!(ppu.mode(), 2);
    assert_eq!(bus.read(0xFF41) & 0x03, 2);
}

#[test]
fn one_vblank_per_frame() {
    let mut bus = bus_with_lcd(0x91);
    let mut ppu = PPU::new();
    // VBlank starts on the first dot of line 144.
    assert!(!ppu.step(&mut bus, 144 * 456 - 1));
    assert!(ppu.step(&mut bus, 1));
    assert_eq!(ppu.ly(), 144);
    assert_eq!(ppu.mode(), 1);
    // The next one comes a full frame (70224 T-cycles) later.
    assert!(!ppu.step(&mut bus, 70224 - 1));
    assert!(ppu.step(&mut bus, 1));
    // A whole frame from any point contains exactly one VBlank entry.
    assert!(ppu.step(&mut bus, 70224));
}

#[test]
fn stat_interrupt_on_lyc_match_is_edge_triggered() {
    let mut bus = bus_with_lcd(0x91);
    bus.write(0xFF45, 2); // LYC = 2
    bus.write(0xFF41, 0x40); // LYC=LY interrupt enable
    let mut ppu = PPU::new();
    ppu.step(&mut bus, 2 * 456 - 1);
    assert_eq!(bus.read(0xFF0F) & 0x02, 0);
    ppu.step(&mut bus, 1);
    assert_eq!(ppu.ly(), 2);
    assert_eq!(bus.read(0xFF0F) & 0x02, 0x02);
    assert_eq!(bus.read(0xFF41) & 0x04, 0x04);
    // Clear IF; the line stays high for the rest of line 2: no new request.
    bus.write(0xFF0F, 0x00);
    ppu.step(&mut bus, 455);
    assert_eq!(bus.read(0xFF0F) & 0x02, 0);
}

#[test]
fn background_tile_is_drawn_through_bgp() {
    let mut bus = bus_with_lcd(0x91); // LCD on, BG on, $8000 tile data
    bus.write(0xFF47, 0xE4); // identity palette: 0→white .. 3→black
    // Tile 0, row 0: colours 3,2,1,0,3,2,1,0.
    bus.write(0x8000, 0b1010_1010);
    bus.write(0x8001, 0b1100_1100);
    let mut ppu = PPU::new();
    ppu.step(&mut bus, 456);
    let fb = ppu.framebuffer();
    let greys: Vec<u8> = (0..8).map(|x| fb[x * 4]).collect();
    // Pixel k: lo bit (7-k), hi bit (7-k).
    assert_eq!(greys, vec![0x00, 0x55, 0xAA, 0xFF, 0x00, 0x55, 0xAA, 0xFF]);
    assert!(fb[..160 * 4].chunks(4).all(|px| px[0] == px[1] && px[1] == px[2] && px[3] == 0xFF));
}

#[test]
fn sprite_is_drawn_over_background() {
    let mut bus = bus_with_lcd(0x93); // sprites on
    bus.write(0xFF47, 0xE4);
    bus.write(0xFF48, 0xE4); // OBP0
    // Tile 1: row 0 all colour 3.
    bus.write(0x8010, 0xFF);
    bus.write(0x8011, 0xFF);
    // Sprite 0 at screen (8, 0): y = 16, x = 16, tile 1, no flags.
    bus.write(0xFE00, 16);
    bus.write(0xFE01, 16);
    bus.write(0xFE02, 1);
    bus.write(0xFE03, 0);
    let mut ppu = PPU::new();
    ppu.step(&mut bus, 456);
    let fb = ppu.framebuffer();
    for x in 0..8 {
        assert_eq!(fb[x * 4], 0xFF, "background pixel {}", x);
    }
    for x in 8..16 {
        assert_eq!(fb[x * 4], 0x00, "sprite pixel {}", x);
    }
    assert_eq!(fb[16 * 4], 0xFF);
}

#[test]
fn framebuffer_untouched_outside_mode_3() {
    // A full frame with the LCD off, then the OAM scan of line 0 with it
    // on: no pixel is drawn.
    let mut ppu = PPU::new();
    let mut bus = bus_with_lcd(0x00);
    ppu.step(&mut bus, 70224);
    let mut bus = bus_with_lcd(0x91);
    ppu.step(&mut bus, 79);
    assert_eq!(ppu.mode(), 2);
    assert!(ppu.framebuffer().chunks(4).all(|px| px == [0, 0, 0, 0xFF]));
}

#[test]
fn tile_viewer_ppm_decodes_tiles_through_bgp() {
    let mut vram = vec![0u8; 0x2000];
    // Tile 0, row 0: low plane all ones, high plane 0b1000_0000, so the
    // leftmost pixel has color 3 and the others color 1.
    vram[0] = 0xFF;
    vram[1] = 0x80;
    // Tile 17 (second tile row, second column), row 2: color 2 everywhere.
    vram[17 * 16 + 4] = 0x00;
    vram[17 * 16 + 5] = 0xFF;
    let ppm = rgb_core::ppu::tile_viewer_ppm(&vram, 0xE4);
    assert_eq!(&ppm[..15], b"P6\n128 192\n255\n");
    assert_eq!(ppm.len(), 15 + 128 * 192 * 3);
    let px = |x: usize, y: usize| &ppm[15 + 3 * (128 * y + x)..15 + 3 * (128 * y + x) + 3];
    assert_eq!(px(0, 0), &[0x00, 0x00, 0x00]);
    assert_eq!(px(1, 0), &[0xAA, 0xAA, 0xAA]);
    assert_eq!(px(0, 1), &[0xFF, 0xFF, 0xFF]);
    assert_eq!(px(8 + 3, 8 + 2), &[0x55, 0x55, 0x55]);
    // Palette 0x1B reverses the shades: color 3 shows white.
    let ppm = rgb_core::ppu::tile_viewer_ppm(&vram, 0x1B);
    assert_eq!(&ppm[15..18], &[0xFF, 0xFF, 0xFF]);
}
