use vstd::prelude::*;

use std::collections::VecDeque;

use crate::bus::{Bus, BusState};

verus! {

/// Screen width in pixels.
pub const SCREEN_WIDTH: u32 = 160;

/// Screen height in pixels.
pub const SCREEN_HEIGHT: u32 = 144;

const FB_WIDTH: usize = 160;

const FB_HEIGHT: usize = 144;

/// Size of the RGBA framebuffer in bytes (160 × 144 × 4).
pub const FB_BYTES: usize = 92160;

/// T-cycles per scanline.
pub const DOTS_PER_LINE: u32 = 456;

/// T-cycles per frame: 154 scanlines × 456 T-cycles.
pub const FRAME_T_CYCLES: u32 = 70224;

/// DMG PPU rendering mode.
#[derive(Debug, Clone, Copy, PartialEq, Eq, Structural)]
enum PPUMode {
    /// Mode 0 — HBlank. CPU/PPU access to VRAM and OAM is restored.
    HBlank,
    /// Mode 1 — VBlank (scanlines 144–153).
    VBlank,
    /// Mode 2 — OAM scan (dots 0–79 of each visible scanline).
    OAMScan,
    /// Mode 3 — Drawing pixel pipeline.
    Drawing,
}

/// The number that STAT bits 1–0 report for a mode.
spec fn mode_number(m: PPUMode) -> u8 {
    match m {
        PPUMode::HBlank => 0,
        PPUMode::VBlank => 1,
        PPUMode::OAMScan => 2,
        PPUMode::Drawing => 3,
    }
}

/// The number of a fetcher state in [`Pipeline::fetcher`].
spec fn fetcher_number(s: FetcherState) -> u8 {
    match s {
        FetcherState::ReadTileId => 0,
        FetcherState::ReadDataLo => 1,
        FetcherState::ReadDataHi => 2,
        FetcherState::Push => 3,
    }
}

/// Background / window pixel fetcher state machine.
///
/// Each state takes 2 T-cycles to complete. The `Push` state repeats until
/// the background FIFO has room (≤ 8 pixels) to accept 8 new pixels.
#[derive(Debug, Clone, Copy, PartialEq, Eq, Structural)]
enum FetcherState {
    /// Read the tile number from the tile map.
    ReadTileId,
    /// Read the low byte of the current tile row's data.
    ReadDataLo,
    /// Read the high byte of the current tile row's data.
    ReadDataHi,
    /// Push 8 pixels into the background FIFO (retried until FIFO has room).
    Push,
}

/// OAM sprite entry collected during the Mode 2 scan.
#[derive(Debug, Clone, Copy)]
pub struct Sprite {
    /// OAM byte 0: sprite top screen row = `y − 16`.
    pub y: u8,
    /// OAM byte 1: sprite left screen column = `x − 8`.
    pub x: u8,
    /// OAM byte 2: tile index (bit 0 is ignored in 8×16 mode).
    pub tile: u8,
    /// OAM byte 3 attribute flags:
    ///   bit 7 — BG/Win priority (sprite is drawn behind BG colors 1–3 when set)
    ///   bit 6 — Y flip
    ///   bit 5 — X flip
    ///   bit 4 — palette select (0 = OBP0, 1 = OBP1)
    pub flags: u8,
}

/// A single pixel slot in the sprite FIFO.
#[derive(Debug, Clone, Copy)]
pub struct SpriteFifoPixel {
    /// Raw 2-bit color index (0 = transparent).
    pub color_index: u8,
    /// Palette selector: 0 = OBP0 (`0xFF48`), 1 = OBP1 (`0xFF49`).
    pub palette: u8,
    /// `true` when the sprite should appear behind BG/Win color indices 1–3.
    pub bg_priority: bool,
}

/// Greyscale value of a 2-bit DMG shade: white, light grey, dark grey, black.
pub open spec fn grey_of(shade: u8) -> u8 {
    if shade == 0 {
        0xFF
    } else if shade == 1 {
        0xAA
    } else if shade == 2 {
        0x55
    } else {
        0x00
    }
}

/// One of the four DMG greys.
pub open spec fn is_grey(v: u8) -> bool {
    v == 0xFF || v == 0xAA || v == 0x55 || v == 0x00
}

/// Pixel `p` of an RGBA framebuffer is an opaque DMG grey (R = G = B).
pub open spec fn pixel_ok(fb: Seq<u8>, p: int) -> bool {
    &&& is_grey(fb[4 * p])
    &&& fb[4 * p + 1] == fb[4 * p]
    &&& fb[4 * p + 2] == fb[4 * p]
    &&& fb[4 * p + 3] == 0xFF
}

/// A 160 × 144 RGBA framebuffer whose every pixel is an opaque DMG grey.
pub open spec fn frame_ok(fb: Seq<u8>) -> bool {
    &&& fb.len() == FB_BYTES
    &&& forall|p: int| 0 <= p < 23040 ==> #[trigger] pixel_ok(fb, p)
}

/// Palette lookup: the 2-bit shade that `palette` assigns to `color`.
pub open spec fn palette_shade(palette: u8, color: u8) -> u8 {
    (palette >> ((color * 2) as u8)) & 0x03
}

/// The mode the PPU is in at scanline `ly`, dot `dot`: VBlank on lines
/// 144–153, otherwise OAM scan for dots 0–79, drawing for dots 80–251 and
/// HBlank for the rest of the line.
pub open spec fn mode_at(ly: u8, dot: u32) -> u8 {
    if ly >= 144 {
        1
    } else if dot < 80 {
        2
    } else if dot < 252 {
        3
    } else {
        0
    }
}

/// Timing-visible state of the PPU: scanline, dot within the line, mode
/// (STAT numbering) and the level of the combined STAT interrupt line.
pub struct PPUTiming {
    pub ly: u8,
    pub dot: u32,
    pub mode: u8,
    pub stat_line: bool,
}

impl PPUTiming {
    /// Within a frame, with the mode that the position dictates (or the
    /// reset state that a disabled LCD leaves).
    pub open spec fn consistent(self) -> bool {
        &&& self.ly <= 153
        &&& self.dot <= 455
        &&& (self.mode == mode_at(self.ly, self.dot) || (self.ly == 0 && self.dot == 0 && self.mode
            == 0))
    }

    /// T-cycle position within the frame.
    pub open spec fn position(self) -> int {
        self.ly * 456 + self.dot
    }
}

/// The LCD is enabled (LCDC bit 7).
pub open spec fn lcd_enabled(bus: BusState) -> bool {
    bus.read(0xFF40) & 0x80 != 0
}

/// Combined STAT interrupt line: the OR of the enabled sources (mode 0, 1, 2
/// and LYC=LY).
pub open spec fn stat_line_of(stat: u8, mode: u8, lyc_eq: bool) -> bool {
    ||| (stat & 0x08 != 0 && mode == 0)
    ||| (stat & 0x10 != 0 && mode == 1)
    ||| (stat & 0x20 != 0 && mode == 2)
    ||| (stat & 0x40 != 0 && lyc_eq)
}

/// STAT update at the end of a dot: bits 1–0 take the mode, bit 2 the
/// LYC=LY flag, bits 3–6 are kept; LCD STAT (IF bit 1) is requested on a
/// rising edge of the combined line only.
pub open spec fn update_stat_spec(t: PPUTiming, bus: BusState) -> (PPUTiming, BusState) {
    let lyc_eq = t.ly == bus.read(0xFF45);
    let new_stat = (bus.read(0xFF41) & 0x78) | t.mode | (if lyc_eq { 0x04u8 } else { 0 });
    let b1 = bus.set_io(0xFF41, new_stat);
    let line = stat_line_of(new_stat, t.mode, lyc_eq);
    let b2 = if line && !t.stat_line {
        b1.write(0xFF0F, b1.read(0xFF0F) | 0x02)
    } else {
        b1
    };
    (PPUTiming { stat_line: line, ..t }, b2)
}

/// One T-cycle of PPU timing, its effect on the bus (LY, STAT and IF) and
/// whether VBlank was entered.
///
/// With the LCD off the PPU is held at LY = 0, dot 0, mode 0, with STAT
/// bits 0–2 and the interrupt line cleared.
pub open spec fn tick_timing(t: PPUTiming, bus: BusState) -> (PPUTiming, BusState, bool) {
    if !lcd_enabled(bus) {
        let b1 = bus.write(0xFF44, 0);
        let stat = b1.read(0xFF41);
        (
            PPUTiming { ly: 0, dot: 0, mode: 0, stat_line: false },
            b1.set_io(0xFF41, stat & !0x07u8),
            false,
        )
    } else {
        let wrap = t.dot + 1 >= 456;
        let dot: u32 = if wrap { 0 } else { (t.dot + 1) as u32 };
        let ly: u8 = if !wrap {
            t.ly
        } else if t.ly >= 153 {
            0
        } else {
            (t.ly + 1) as u8
        };
        let b1 = if wrap { bus.write(0xFF44, ly) } else { bus };
        let mode = mode_at(ly, dot);
        let (t2, b2) = update_stat_spec(PPUTiming { ly, dot, mode, stat_line: t.stat_line }, b1);
        (t2, b2, t.mode != 1 && mode == 1)
    }
}

/// `n` T-cycles of PPU timing; the flag tells whether VBlank was entered
/// during any of them.
#[verifier::opaque]
pub open spec fn run_timing(t: PPUTiming, bus: BusState, n: nat) -> (PPUTiming, BusState, bool)
    decreases n,
{
    if n == 0 {
        (t, bus, false)
    } else {
        let (t1, b1, v1) = run_timing(t, bus, (n - 1) as nat);
        let (t2, b2, v2) = tick_timing(t1, b1);
        (t2, b2, v1 || v2)
    }
}


// ── Pixel pipeline specifications ───────────────────────────────────────────

/// Base address of a 32 × 32 tile map: `0x9C00` when `select` is set,
/// `0x9800` otherwise.
pub open spec fn tile_map_base(select: bool) -> int {
    if select {
        0x9C00
    } else {
        0x9800
    }
}

/// Address of the tile-map entry the fetcher reads: for the window, row
/// `window_line / 8`, column `fetch_x` of the map chosen by LCDC bit 6; for
/// the background, row `(LY + SCY) / 8`, column `(SCX / 8 + fetch_x) % 32` of
/// the map chosen by LCDC bit 3.
pub open spec fn tile_map_addr(
    window: bool,
    lcdc: u8,
    window_line: u8,
    ly: u8,
    scy: u8,
    scx: u8,
    fetch_x: u8,
) -> u16 {
    if window {
        (tile_map_base(lcdc & 0x40 != 0) + (window_line / 8) * 32 + fetch_x) as u16
    } else {
        let y = (ly + scy) % 256;
        (tile_map_base(lcdc & 0x08 != 0) + (y / 8) * 32 + (scx / 8 + fetch_x) % 32) as u16
    }
}

/// Address of the first byte of a tile: `0x8000 + 16 * id` in `$8000` mode
/// (LCDC bit 4 set); in `$8800` mode ids 0–127 start at `0x9000` and ids
/// 128–255 at `0x8800`.
pub open spec fn tile_data_base(lcdc: u8, tile_id: u8) -> int {
    if lcdc & 0x10 != 0 || tile_id >= 128 {
        0x8000 + 16 * tile_id
    } else {
        0x9000 + 16 * tile_id
    }
}

/// Row within the tile that the fetcher reads: `window_line % 8` for the
/// window, `(LY + SCY) % 8` for the background.
pub open spec fn fetch_fine_y(window: bool, window_line: u8, ly: u8, scy: u8) -> int {
    if window {
        (window_line % 8) as int
    } else {
        ((ly + scy) % 256) % 8
    }
}

/// Color index of pixel `k` (0 = leftmost) of a tile row with bit planes
/// `lo` and `hi`.
pub open spec fn row_color(lo: u8, hi: u8, k: int) -> u8 {
    let bit = (7 - k) as u8;
    (((hi >> bit) & 1) << 1) | ((lo >> bit) & 1)
}

/// The eight color indices of a tile row, leftmost first.
pub open spec fn tile_row(lo: u8, hi: u8) -> Seq<u8> {
    Seq::new(8, |k: int| row_color(lo, hi, k))
}

/// OAM entry `i` (0–39) as read from the bus.
pub open spec fn oam_sprite(bus: BusState, i: int) -> Sprite {
    Sprite {
        y: bus.read((0xFE00 + 4 * i) as u16),
        x: bus.read((0xFE00 + 4 * i + 1) as u16),
        tile: bus.read((0xFE00 + 4 * i + 2) as u16),
        flags: bus.read((0xFE00 + 4 * i + 3) as u16),
    }
}

/// Sprite height: 16 in 8×16 mode (LCDC bit 2), 8 otherwise.
pub open spec fn sprite_height(lcdc: u8) -> int {
    if lcdc & 0x04 != 0 {
        16
    } else {
        8
    }
}

/// The sprite has X ≠ 0 and its rows `y − 16 .. y − 16 + height` cover `ly`.
pub open spec fn sprite_on_line(s: Sprite, ly: u8, height: int) -> bool {
    &&& s.x != 0
    &&& s.y <= ly + 16 < s.y + height
}

/// The sprites among the first `n` OAM entries that appear on line `ly`,
/// in OAM order, at most 10.
pub open spec fn line_sprites(bus: BusState, ly: u8, height: int, n: int) -> Seq<Sprite>
    decreases n,
{
    if n <= 0 {
        Seq::empty()
    } else {
        let prev = line_sprites(bus, ly, height, n - 1);
        let s = oam_sprite(bus, n - 1);
        if prev.len() < 10 && sprite_on_line(s, ly, height) {
            prev.push(s)
        } else {
            prev
        }
    }
}

/// Index of the first sprite of `s` with X greater than `x`, or `s.len()`.
pub open spec fn insert_pos(s: Seq<Sprite>, x: u8) -> int
    decreases s.len(),
{
    if s.len() == 0 {
        0
    } else if s.last().x > x {
        let p = insert_pos(s.drop_last(), x);
        p
    } else {
        s.len() as int
    }
}

/// Stable sort by X: each sprite is inserted after every earlier one with
/// the same or a smaller X, so lower OAM indices win ties.
pub open spec fn sort_by_x(s: Seq<Sprite>) -> Seq<Sprite>
    decreases s.len(),
{
    if s.len() == 0 {
        s
    } else {
        let sorted = sort_by_x(s.drop_last());
        sorted.insert(insert_pos(sorted, s.last().x), s.last())
    }
}

/// X coordinates never decrease along `s`.
pub open spec fn sorted_by_x(s: Seq<Sprite>) -> bool {
    forall|i: int, j: int| 0 <= i < j < s.len() ==> s[i].x <= s[j].x
}

/// A transparent sprite-FIFO slot.
pub open spec fn transparent() -> SpriteFifoPixel {
    SpriteFifoPixel { color_index: 0, palette: 0, bg_priority: false }
}

/// Address of the tile row of `sprite` on line `ly`: sprites use `$8000`
/// addressing; Y flip mirrors the row; in 8×16 mode the top half uses the
/// even tile and the bottom half the odd one.
pub open spec fn sprite_row_addr(lcdc: u8, ly: u8, sprite: Sprite) -> u16 {
    let height: u8 = if lcdc & 0x04 != 0 { 16 } else { 8 };
    // Row within the sprite, modulo 256: LY − (y − 16).
    let row0: u8 = (ly + 16 - sprite.y) as u8;
    let row: u8 = if sprite.flags & 0x40 != 0 {
        (height - 1 - row0) as u8
    } else {
        row0
    };
    let tile: u8 = if height == 16 {
        if row < 8 {
            sprite.tile & 0xFE
        } else {
            (sprite.tile & 0xFE) | 0x01
        }
    } else {
        sprite.tile
    };
    (0x8000 + 16 * tile + 2 * (row % 8)) as u16
}

/// Mix one sprite row (bit planes `lo`, `hi`) into the sprite FIFO: the FIFO
/// is padded with transparent slots to the sprite's visible width, and each
/// visible pixel lands in its slot only if that slot is still transparent.
pub open spec fn mix_sprite_row(fifo: Seq<SpriteFifoPixel>, sprite: Sprite, lo: u8, hi: u8) -> Seq<
    SpriteFifoPixel,
> {
    let clip: int = if sprite.x < 8 { 8 - sprite.x } else { 0 };
    let visible: int = 8 - clip;
    let padded = if fifo.len() < visible {
        fifo + Seq::new((visible - fifo.len()) as nat, |k: int| transparent())
    } else {
        fifo
    };
    let x_flip = sprite.flags & 0x20 != 0;
    Seq::new(
        padded.len(),
        |p: int|
            if p < visible && padded[p].color_index == 0 {
                SpriteFifoPixel {
                    color_index: if x_flip {
                        row_color(lo, hi, 7 - (p + clip))
                    } else {
                        row_color(lo, hi, p + clip)
                    },
                    palette: (sprite.flags >> 4) & 1,
                    bg_priority: sprite.flags & 0x80 != 0,
                }
            } else {
                padded[p]
            },
    )
}

/// The sprite FIFO after fetching `sprite` on line `ly`.
pub open spec fn fetch_sprite_spec(
    fifo: Seq<SpriteFifoPixel>,
    bus: BusState,
    lcdc: u8,
    ly: u8,
    sprite: Sprite,
) -> Seq<SpriteFifoPixel> {
    let addr = sprite_row_addr(lcdc, ly, sprite);
    mix_sprite_row(fifo, sprite, bus.read(addr), bus.read((addr + 1) as u16))
}

/// Left screen column at which a sprite starts (`x − 8`, at least 0).
pub open spec fn trigger_lx(sprite: Sprite) -> int {
    if sprite.x >= 8 {
        sprite.x - 8
    } else {
        0
    }
}

/// Fetch every buffered sprite from `cursor` on whose left edge has been
/// reached at column `lx`; returns the new FIFO and cursor.
pub open spec fn load_sprites_spec(
    fifo: Seq<SpriteFifoPixel>,
    bus: BusState,
    lcdc: u8,
    ly: u8,
    buffer: Seq<Sprite>,
    cursor: int,
    lx: u8,
) -> (Seq<SpriteFifoPixel>, int)
    decreases buffer.len() - cursor,
{
    if cursor < 0 || cursor >= buffer.len() || trigger_lx(buffer[cursor]) > lx {
        (fifo, cursor)
    } else {
        load_sprites_spec(
            fetch_sprite_spec(fifo, bus, lcdc, ly, buffer[cursor]),
            bus,
            lcdc,
            ly,
            buffer,
            cursor + 1,
            lx,
        )
    }
}

/// Shade of the pixel shown for background color `bg_raw` and the sprite
/// slot `sprite`: a transparent sprite pixel, or one behind a non-zero
/// background color, shows the background through BGP; otherwise the sprite
/// pixel shows through OBP0 or OBP1.
pub open spec fn pixel_shade(
    bg_raw: u8,
    sprite: Option<SpriteFifoPixel>,
    bgp: u8,
    obp0: u8,
    obp1: u8,
) -> u8 {
    match sprite {
        Some(sp) => if sp.color_index == 0 || (sp.bg_priority && bg_raw != 0) {
            palette_shade(bgp, bg_raw)
        } else {
            palette_shade(if sp.palette == 0 { obp0 } else { obp1 }, sp.color_index)
        },
        None => palette_shade(bgp, bg_raw),
    }
}

/// The framebuffer with pixel `p` set to the opaque grey `g`.
pub open spec fn set_pixel(fb: Seq<u8>, p: int, g: u8) -> Seq<u8> {
    fb.update(4 * p, g).update(4 * p + 1, g).update(4 * p + 2, g).update(4 * p + 3, 0xFF)
}

// ── Pixel pipeline model ────────────────────────────────────────────────────

/// State of the pixel pipeline: the background fetcher (step 0–3: read tile
/// id, read low byte, read high byte, push; `fetcher_dot` counts the T-cycles
/// of a step), the tile being fetched, the background and sprite FIFOs, the
/// scanline's sprite buffer and the cursor into it, the output column `lx`,
/// the fine-scroll pixels still to drop, the window state and the RGBA
/// framebuffer.
pub struct Pipeline {
    pub fetcher: u8,
    pub fetcher_dot: u8,
    pub fetch_x: u8,
    pub tile_id: u8,
    pub tile_lo: u8,
    pub tile_hi: u8,
    pub fetching_window: bool,
    pub bg_fifo: Seq<u8>,
    pub sprite_buffer: Seq<Sprite>,
    pub sprite_fifo: Seq<SpriteFifoPixel>,
    pub cursor: nat,
    pub lx: u8,
    pub scx_discard: u8,
    pub window_line: u8,
    pub window_active: bool,
    pub frame: Seq<u8>,
}

/// The power-on pipeline: everything zero or empty, framebuffer black.
pub open spec fn initial_pipeline() -> Pipeline {
    Pipeline {
        fetcher: 0,
        fetcher_dot: 0,
        fetch_x: 0,
        tile_id: 0,
        tile_lo: 0,
        tile_hi: 0,
        fetching_window: false,
        bg_fifo: Seq::empty(),
        sprite_buffer: Seq::empty(),
        sprite_fifo: Seq::empty(),
        cursor: 0,
        lx: 0,
        scx_discard: 0,
        window_line: 0,
        window_active: false,
        frame: black_frame(),
    }
}

/// One 2-T-cycle step of the background fetcher on line `ly`: read the tile
/// id, then the low and the high byte of its row, then push the row's eight
/// pixels once the FIFO holds at most eight (otherwise wait).
pub open spec fn fetcher_step(p: Pipeline, ly: u8, bus: BusState) -> Pipeline {
    let lcdc = bus.read(0xFF40);
    let row = tile_data_base(lcdc, p.tile_id) + 2 * fetch_fine_y(
        p.fetching_window,
        p.window_line,
        ly,
        bus.read(0xFF42),
    );
    if p.fetcher == 0 {
        Pipeline {
            tile_id: bus.read(
                tile_map_addr(
                    p.fetching_window,
                    lcdc,
                    p.window_line,
                    ly,
                    bus.read(0xFF42),
                    bus.read(0xFF43),
                    p.fetch_x,
                ),
            ),
            fetcher: 1,
            ..p
        }
    } else if p.fetcher == 1 {
        Pipeline { tile_lo: bus.read(row as u16), fetcher: 2, ..p }
    } else if p.fetcher == 2 {
        Pipeline { tile_hi: bus.read((row + 1) as u16), fetcher: 3, ..p }
    } else if p.bg_fifo.len() <= 8 {
        Pipeline {
            bg_fifo: p.bg_fifo + tile_row(p.tile_lo, p.tile_hi),
            fetch_x: ((p.fetch_x + 1) % 256) as u8,
            fetcher: 0,
            ..p
        }
    } else {
        p
    }
}

/// The window starts at the current column: it is enabled (LCDC bit 5), not
/// yet active on this line, `LY ≥ WY`, and `lx` is `WX − 7` (0 when WX < 7).
pub open spec fn window_starts(p: Pipeline, ly: u8, bus: BusState) -> bool {
    let wx = bus.read(0xFF4B);
    let win_x: int = if wx >= 7 {
        wx - 7
    } else {
        0
    };
    &&& !p.window_active
    &&& bus.read(0xFF40) & 0x20 != 0
    &&& ly >= bus.read(0xFF4A)
    &&& p.lx == win_x
}

/// Window activation: the background FIFO is cleared and the fetcher
/// restarts at the window's first tile, with no fine-scroll discard.
pub open spec fn check_window(p: Pipeline, ly: u8, bus: BusState) -> Pipeline {
    if window_starts(p, ly, bus) {
        Pipeline {
            window_active: true,
            fetching_window: true,
            bg_fifo: Seq::empty(),
            fetcher: 0,
            fetcher_dot: 0,
            fetch_x: 0,
            scx_discard: 0,
            ..p
        }
    } else {
        p
    }
}

/// With sprites enabled (LCDC bit 1), fetch the buffered sprites whose left
/// edge has been reached at `lx`.
pub open spec fn load_sprites(p: Pipeline, ly: u8, bus: BusState) -> Pipeline {
    let lcdc = bus.read(0xFF40);
    if lcdc & 0x02 != 0 {
        let (fifo, cursor) = load_sprites_spec(
            p.sprite_fifo,
            bus,
            lcdc,
            ly,
            p.sprite_buffer,
            p.cursor as int,
            p.lx,
        );
        Pipeline { sprite_fifo: fifo, cursor: cursor as nat, ..p }
    } else {
        p
    }
}

/// Pixel output: pop the background FIFO; a fine-scroll pixel is dropped,
/// any other is mixed with the front of the sprite FIFO and drawn at
/// (`lx`, `ly`). Nothing happens while the background FIFO is empty.
pub open spec fn output_step(p: Pipeline, ly: u8, bus: BusState) -> Pipeline {
    if p.bg_fifo.len() == 0 {
        p
    } else if p.scx_discard > 0 {
        Pipeline { bg_fifo: p.bg_fifo.drop_first(), scx_discard: (p.scx_discard - 1) as u8, ..p }
    } else {
        let sp = if p.sprite_fifo.len() > 0 {
            Some(p.sprite_fifo[0])
        } else {
            None
        };
        let shade = pixel_shade(p.bg_fifo[0], sp, bus.read(0xFF47), bus.read(0xFF48), bus.read(0xFF49));
        Pipeline {
            bg_fifo: p.bg_fifo.drop_first(),
            sprite_fifo: if p.sprite_fifo.len() > 0 {
                p.sprite_fifo.drop_first()
            } else {
                p.sprite_fifo
            },
            frame: set_pixel(p.frame, ly * 160 + p.lx, grey_of(shade)),
            lx: (p.lx + 1) as u8,
            ..p
        }
    }
}

/// One T-cycle of pixel output on line `ly`, until column 160: window
/// check, sprite loading, then pixel output.
pub open spec fn fifo_step(p: Pipeline, ly: u8, bus: BusState) -> Pipeline {
    if p.lx >= 160 {
        p
    } else {
        output_step(load_sprites(check_window(p, ly, bus), ly, bus), ly, bus)
    }
}

/// Start of Mode 3 on line `ly`: empty FIFOs, fetcher and output column
/// reset, window inactive, `SCX % 8` pixels to drop, and the sprite buffer
/// filled by the OAM scan.
pub open spec fn begin_line(p: Pipeline, ly: u8, bus: BusState) -> Pipeline {
    Pipeline {
        fetcher: 0,
        fetcher_dot: 0,
        fetch_x: 0,
        fetching_window: false,
        bg_fifo: Seq::empty(),
        sprite_buffer: sort_by_x(line_sprites(bus, ly, sprite_height(bus.read(0xFF40)), 40)),
        sprite_fifo: Seq::empty(),
        cursor: 0,
        lx: 0,
        scx_discard: bus.read(0xFF43) % 8,
        window_active: false,
        ..p
    }
}

/// One T-cycle of Mode 3: the fetcher steps every second T-cycle, and the
/// FIFO outputs one pixel each T-cycle.
pub open spec fn drawing_dot(p: Pipeline, ly: u8, bus: BusState) -> Pipeline {
    let p1 = if p.fetcher_dot + 1 >= 2 {
        fetcher_step(Pipeline { fetcher_dot: 0, ..p }, ly, bus)
    } else {
        Pipeline { fetcher_dot: (p.fetcher_dot + 1) as u8, ..p }
    };
    fifo_step(p1, ly, bus)
}

/// The pipeline after one T-cycle from timing `t` and bus `bus`: nothing
/// changes while the LCD is off; otherwise the window line counter restarts
/// with the frame, Mode 3 begins with [`begin_line`], the end of Mode 3
/// advances the window line counter if the window was drawn, and each dot
/// of Mode 3 runs [`drawing_dot`]. The bus seen is the one after the LY
/// update.
pub open spec fn tick_pipeline(t: PPUTiming, p: Pipeline, bus: BusState) -> Pipeline {
    if !lcd_enabled(bus) {
        p
    } else {
        let wrap = t.dot + 1 >= 456;
        let dot: u32 = if wrap {
            0
        } else {
            (t.dot + 1) as u32
        };
        let ly: u8 = if !wrap {
            t.ly
        } else if t.ly >= 153 {
            0
        } else {
            (t.ly + 1) as u8
        };
        let b1 = if wrap {
            bus.write(0xFF44, ly)
        } else {
            bus
        };
        let p1 = if wrap && t.ly >= 153 {
            Pipeline { window_line: 0, ..p }
        } else {
            p
        };
        let mode = mode_at(ly, dot);
        let p2 = if t.mode == 2 && mode == 3 {
            begin_line(p1, ly, b1)
        } else if t.mode == 3 && mode == 0 && p1.window_active {
            Pipeline { window_line: ((p1.window_line + 1) % 256) as u8, ..p1 }
        } else {
            p1
        };
        if mode == 3 {
            drawing_dot(p2, ly, b1)
        } else {
            p2
        }
    }
}

/// One T-cycle of the whole PPU: timing, pipeline, bus and the VBlank flag.
pub open spec fn tick_ppu(t: PPUTiming, p: Pipeline, bus: BusState) -> (
    PPUTiming,
    Pipeline,
    BusState,
    bool,
) {
    let (t2, b2, v) = tick_timing(t, bus);
    (t2, tick_pipeline(t, p, bus), b2, v)
}

/// `n` T-cycles of the whole PPU; the flag tells whether VBlank was entered
/// during any of them.
#[verifier::opaque]
pub open spec fn run_ppu(t: PPUTiming, p: Pipeline, bus: BusState, n: nat) -> (
    PPUTiming,
    Pipeline,
    BusState,
    bool,
)
    decreases n,
{
    if n == 0 {
        (t, p, bus, false)
    } else {
        let (t1, p1, b1, v1) = run_ppu(t, p, bus, (n - 1) as nat);
        let (t2, p2, b2, v2) = tick_ppu(t1, p1, b1);
        (t2, p2, b2, v1 || v2)
    }
}

/// Running the whole PPU agrees with running its timing alone.
pub proof fn lemma_run_ppu_timing(t: PPUTiming, p: Pipeline, bus: BusState, n: nat)
    ensures
        ({
            let (t2, p2, b2, v) = run_ppu(t, p, bus, n);
            (t2, b2, v) == run_timing(t, bus, n)
        }),
    decreases n,
{
    reveal(run_ppu);
    reveal(run_timing);
    if n > 0 {
        lemma_run_ppu_timing(t, p, bus, (n - 1) as nat);
    }
}

/// Convert a 2-bit DMG shade index to an 8-bit greyscale value.
fn shade_to_grey(shade: u8) -> (g: u8)
    requires
        shade <= 3,
    ensures
        g == grey_of(shade),
        is_grey(g),
{
    if shade == 0 {
        0xFF  // white

    } else if shade == 1 {
        0xAA  // light grey

    } else if shade == 2 {
        0x55  // dark grey

    } else {
        0x00  // black

    }
}

/// DMG Pixel Processing Unit.
///
/// Implements the FIFO-based background, window, and sprite pixel pipeline:
///
/// - **Fetcher state machine** (one step per 2 T-cycles): ReadTileId →
///   ReadDataLo → ReadDataHi → Push.
/// - **Background FIFO**: pops one pixel per T-cycle during Mode 3. Applies
///   SCX fine-scroll by discarding the first `SCX % 8` pixels at the start
///   of each line.
/// - **Window**: activates when the pixel X position reaches `WX − 7` on any
///   line where `LY ≥ WY` and the window is enabled (LCDC bit 5). On
///   activation the fetcher is reset and switches to the window tile map.
///   Maintains its own internal line counter (independent of LY).
/// - **OAM scan (Mode 2)**: up to 10 sprites whose Y range covers `LY` are
///   collected into a per-scanline sprite buffer sorted by X position (lower
///   OAM index wins ties).
/// - **Sprite FIFO**: sprite tile data is fetched and loaded into the sprite
///   FIFO when the background output X reaches a sprite's left screen edge.
///   Sprite pixels are mixed over background pixels according to the
///   transparency and priority rules.
/// - **Palettes**: BGP (`0xFF47`) for background/window; OBP0/OBP1
///   (`0xFF48`/`0xFF49`) for sprites.
/// - **STAT interrupt**: edge-triggered on the combined STAT interrupt line
///   (OR of all enabled conditions). Only fires on a 0→1 rising edge (STAT
///   blocking). Sources: Mode 0/1/2 transitions and LYC=LY coincidence.
pub struct PPU {
    ly: u8,
    dot: u32,
    mode: PPUMode,
    stat_irq_line: bool,
    fetcher_state: FetcherState,
    fetcher_dot: u8,
    fetch_x: u8,
    tile_id: u8,
    tile_data_lo: u8,
    tile_data_hi: u8,
    fetching_window: bool,
    bg_fifo: VecDeque<u8>,
    sprite_buffer: Vec<Sprite>,
    sprite_fifo: VecDeque<SpriteFifoPixel>,
    sprite_fetch_cursor: usize,
    lx: u8,
    scx_discard: u8,
    window_line: u8,
    window_active: bool,
    framebuffer: Vec<u8>,
}

impl PPU {
    /// Timing-visible state: scanline, dot, mode and STAT interrupt line.
    pub closed spec fn timing(&self) -> PPUTiming {
        PPUTiming {
            ly: self.ly,
            dot: self.dot,
            mode: mode_number(self.mode),
            stat_line: self.stat_irq_line,
        }
    }

    /// Pixel-pipeline state.
    pub closed spec fn pipeline(&self) -> Pipeline {
        Pipeline {
            fetcher: fetcher_number(self.fetcher_state),
            fetcher_dot: self.fetcher_dot,
            fetch_x: self.fetch_x,
            tile_id: self.tile_id,
            tile_lo: self.tile_data_lo,
            tile_hi: self.tile_data_hi,
            fetching_window: self.fetching_window,
            bg_fifo: self.bg_fifo@,
            sprite_buffer: self.sprite_buffer@,
            sprite_fifo: self.sprite_fifo@,
            cursor: self.sprite_fetch_cursor as nat,
            lx: self.lx,
            scx_discard: self.scx_discard,
            window_line: self.window_line,
            window_active: self.window_active,
            frame: self.framebuffer@,
        }
    }

    /// The RGBA framebuffer contents.
    pub open spec fn frame(&self) -> Seq<u8> {
        self.pipeline().frame
    }

    /// A well-formed PPU is on one of the 154 scanlines and in one of the
    /// four modes.
    pub proof fn lemma_timing_bounds(&self)
        requires
            self.wf(),
        ensures
            self.timing().ly <= 153,
            self.timing().mode <= 3,
    {
    }

    /// A well-formed PPU's framebuffer holds only opaque DMG greys.
    pub proof fn lemma_frame_ok(&self)
        requires
            self.wf(),
        ensures
            frame_ok(self.frame()),
    {
    }

    /// Internal consistency of the pixel pipeline and the framebuffer.
    pub closed spec fn wf(&self) -> bool {
        &&& self.timing().consistent()
        &&& self.pipeline_ok()
    }

    /// Invariants of the pixel pipeline and the framebuffer.
    closed spec fn pipeline_ok(&self) -> bool {
        &&& frame_ok(self.framebuffer@)
        &&& self.lx <= 160
        &&& self.scx_discard <= 7
        &&& self.fetcher_dot <= 1
        &&& self.bg_fifo@.len() <= 16
        &&& forall|i: int| 0 <= i < self.bg_fifo@.len() ==> #[trigger] self.bg_fifo@[i] <= 3
        &&& self.sprite_fifo@.len() <= 8
        &&& forall|i: int|
            0 <= i < self.sprite_fifo@.len() ==> (#[trigger] self.sprite_fifo@[i]).color_index <= 3
        &&& self.sprite_buffer@.len() <= 10
        &&& self.sprite_fetch_cursor <= self.sprite_buffer@.len()
    }
}

/// The power-on framebuffer: every pixel opaque black.
pub open spec fn black_frame() -> Seq<u8> {
    Seq::new(FB_BYTES as nat, |i: int| if i % 4 == 3 { 0xFFu8 } else { 0u8 })
}

impl PPU {
    /// Create a PPU in the DMG post-boot state: LY = 0, dot = 0, Mode 2
    /// (OAM scan), framebuffer opaque black.
    pub fn new() -> (p: Self)
        ensures
            p.wf(),
            p.timing() == (PPUTiming { ly: 0, dot: 0, mode: 2, stat_line: false }),
            p.pipeline() == initial_pipeline(),
            p.frame() == black_frame(),
    {
        let mut fb: Vec<u8> = vec![0u8; FB_BYTES];
        let mut i: usize = 0;
        while i < 23040
            invariant
                0 <= i <= 23040,
                fb@.len() == FB_BYTES,
                forall|j: int| 0 <= j < 4 * i ==> fb@[j] == black_frame()[j],
                forall|j: int| 4 * i <= j < FB_BYTES ==> fb@[j] == 0,
            decreases 23040 - i,
        {
            fb.set(4 * i + 3, 0xFF);
            i += 1;
        }
        assert(fb@ =~= black_frame());
        assert forall|p: int| 0 <= p < 23040 implies #[trigger] pixel_ok(fb@, p) by {
            assert(fb@[4 * p] == black_frame()[4 * p]);
            assert(fb@[4 * p + 1] == black_frame()[4 * p + 1]);
            assert(fb@[4 * p + 2] == black_frame()[4 * p + 2]);
            assert(fb@[4 * p + 3] == black_frame()[4 * p + 3]);
        }
        PPU {
            ly: 0,
            dot: 0,
            mode: PPUMode::OAMScan,
            stat_irq_line: false,
            fetcher_state: FetcherState::ReadTileId,
            fetcher_dot: 0,
            fetch_x: 0,
            tile_id: 0,
            tile_data_lo: 0,
            tile_data_hi: 0,
            fetching_window: false,
            bg_fifo: VecDeque::with_capacity(16),
            sprite_buffer: Vec::with_capacity(10),
            sprite_fifo: VecDeque::with_capacity(8),
            sprite_fetch_cursor: 0,
            lx: 0,
            scx_discard: 0,
            window_line: 0,
            window_active: false,
            framebuffer: fb,
        }
    }

    /// Return a reference to the 160 × 144 RGBA framebuffer.
    ///
    /// Each pixel occupies four consecutive bytes: red, green, blue, alpha.
    pub fn framebuffer(&self) -> (fb: &[u8])
        ensures
            fb@ == self.frame(),
    {
        self.framebuffer.as_slice()
    }

    /// Current scanline (LY), 0–153.
    pub fn ly(&self) -> (r: u8)
        ensures
            r == self.timing().ly,
    {
        self.ly
    }

    /// Current PPU mode as a `u8` (0=HBlank, 1=VBlank, 2=OAMScan, 3=Drawing).
    pub fn mode(&self) -> (r: u8)
        ensures
            r == self.timing().mode,
    {
        match self.mode {
            PPUMode::HBlank => 0,
            PPUMode::VBlank => 1,
            PPUMode::OAMScan => 2,
            PPUMode::Drawing => 3,
        }
    }
}

impl Default for PPU {
    fn default() -> (p: Self)
        ensures
            p.wf(),
            p.timing() == (PPUTiming { ly: 0, dot: 0, mode: 2, stat_line: false }),
            p.frame() == black_frame(),
    {
        Self::new()
    }
}

impl PPU {
    // ── STAT register and interrupt line ─────────────────────────────────

    /// Recompute STAT (`0xFF41`), update the LYC=LY coincidence flag, and fire
    /// the LCD STAT interrupt (`IF` bit 1) on a rising edge of the combined
    /// STAT interrupt line.
    ///
    /// | Bits | Field                    | Access |
    /// |------|--------------------------|--------|
    /// | 1–0  | PPU mode (0–3)           | R      |
    /// | 2    | LYC=LY coincidence flag  | R      |
    /// | 3    | Mode 0 interrupt enable  | R/W    |
    /// | 4    | Mode 1 interrupt enable  | R/W    |
    /// | 5    | Mode 2 interrupt enable  | R/W    |
    /// | 6    | LYC=LY interrupt enable  | R/W    |
    ///
    /// The interrupt fires only on a 0→1 transition of the combined line,
    /// so a second condition becoming true while the line is high does not
    /// request another one ("STAT blocking").
    fn update_stat(&mut self, bus: &mut Bus)
        requires
            old(bus).wf(),
        ensures
            (final(self).timing(), final(bus)@) == update_stat_spec(old(self).timing(), old(bus)@),
            *final(self) == (PPU { stat_irq_line: final(self).stat_irq_line, ..*old(self) }),
            final(bus).wf(),
    {
        let lyc = bus.read(0xFF45);
        let lyc_eq = self.ly == lyc;
        let stat_rw = bus.read(0xFF41) & 0x78;
        let mode_bits = self.mode();
        let new_stat = stat_rw | mode_bits | (if lyc_eq { 0x04u8 } else { 0x00 });
        bus.write_stat_ppu(new_stat);
        let stat_line = (new_stat & 0x08 != 0 && mode_bits == 0) || (new_stat & 0x10 != 0 && mode_bits
            == 1) || (new_stat & 0x20 != 0 && mode_bits == 2) || (new_stat & 0x40 != 0 && lyc_eq);
        if stat_line && !self.stat_irq_line {
            let if_val = bus.read(0xFF0F);
            bus.write(0xFF0F, if_val | 0x02);
        }
        self.stat_irq_line = stat_line;
    }

    // ── Window activation ────────────────────────────────────────────────

    /// Check whether the window should become active at the current pixel
    /// position and, if so, reset the fetcher in window mode.
    ///
    /// Conditions (all must hold): the window is not active yet, LCDC bit 5
    /// is set, `LY ≥ WY`, and `lx == WX − 7` (0 when WX < 7).
    fn check_window_activation(&mut self, bus: &Bus)
        requires
            bus.wf(),
            old(self).pipeline_ok(),
        ensures
            final(self).pipeline_ok(),
            final(self).timing() == old(self).timing(),
            final(self).pipeline() == check_window(old(self).pipeline(), old(self).ly, bus@),
    {
        if self.window_active {
            return;  // already active
        }
        let lcdc = bus.read(0xFF40);
        if lcdc & 0x20 == 0 {
            return;  // window disabled in LCDC
        }
        let wy = bus.read(0xFF4A);
        if self.ly < wy {
            return;  // above the window's top edge
        }
        let wx = bus.read(0xFF4B);
        // `WX − 7` is the first on-screen pixel column of the window.
        let win_x = wx.saturating_sub(7);
        if self.lx != win_x {
            return;
        }
        // Activate window: clear FIFO and restart fetcher in window mode.
        self.window_active = true;
        self.fetching_window = true;
        self.bg_fifo.clear();
        self.fetcher_state = FetcherState::ReadTileId;
        self.fetcher_dot = 0;
        self.fetch_x = 0;
        // No additional fine-scroll discard applies to the window.
        self.scx_discard = 0;
    }

    // ── Fetcher ──────────────────────────────────────────────────────────

    /// Read the tile ID from the appropriate tile map for the current fetch
    /// position.
    fn fetch_tile_id(&self, bus: &Bus, lcdc: u8) -> (r: u8)
        requires
            bus.wf(),
        ensures
            r == bus@.read(
                tile_map_addr(
                    self.fetching_window,
                    lcdc,
                    self.window_line,
                    self.ly,
                    bus@.read(0xFF42),
                    bus@.read(0xFF43),
                    self.fetch_x,
                ),
            ),
    {
        if self.fetching_window {
            let tile_row = (self.window_line / 8) as u16;
            let tile_col = self.fetch_x as u16;
            // Window tile map: LCDC bit 6 selects 0x9C00 vs 0x9800.
            let map_base: u16 = if lcdc & 0x40 != 0 { 0x9C00 } else { 0x9800 };
            bus.read(map_base + tile_row * 32 + tile_col)
        } else {
            let scy = bus.read(0xFF42);
            let scx = bus.read(0xFF43);
            let y = self.ly.wrapping_add(scy);
            let tile_row = (y / 8) as u16;
            // Coarse X scroll: advance fetch_x past the first SCX/8 tiles.
            let tile_col = ((scx / 8).wrapping_add(self.fetch_x) % 32) as u16;
            proof {
                let (a, b) = (scx / 8, self.fetch_x);
                assert(a.wrapping_add(b) % 32 == (a + b) % 32) by (bit_vector);
            }
            // BG tile map: LCDC bit 3 selects 0x9C00 vs 0x9800.
            let map_base: u16 = if lcdc & 0x08 != 0 { 0x9C00 } else { 0x9800 };
            bus.read(map_base + tile_row * 32 + tile_col)
        }
    }

    /// Read one byte (low or high) of the tile row data for the fetched tile.
    ///
    /// LCDC bit 4 selects the addressing mode:
    /// - Set → `$8000` unsigned (tile 0 at `0x8000`).
    /// - Clear → `$8800` signed (tile 0 at `0x9000`, range −128 .. 127).
    fn fetch_tile_data_byte(&self, bus: &Bus, lcdc: u8, high: bool) -> (r: u8)
        requires
            bus.wf(),
        ensures
            r == bus@.read(
                (tile_data_base(lcdc, self.tile_id) + 2 * fetch_fine_y(
                    self.fetching_window,
                    self.window_line,
                    self.ly,
                    bus@.read(0xFF42),
                ) + (if high { 1int } else { 0 })) as u16,
            ),
    {
        let fine_y: u16 = if self.fetching_window {
            (self.window_line % 8) as u16
        } else {
            let scy = bus.read(0xFF42);
            (self.ly.wrapping_add(scy) % 8) as u16
        };
        let tile_base: u16 = if lcdc & 0x10 != 0 {
            // $8000 unsigned addressing.
            0x8000u16 + (self.tile_id as u16) * 16
        } else if self.tile_id < 128 {
            // $8800 signed addressing: tiles 0..127 start at 0x9000 ...
            0x9000u16 + (self.tile_id as u16) * 16
        } else {
            // ... and tiles -128..-1 at 0x8800.
            0x8000u16 + (self.tile_id as u16) * 16
        };
        // Each tile row is 2 bytes: low byte at offset 0, high byte at offset 1.
        let row_addr = tile_base + fine_y * 2;
        if high {
            bus.read(row_addr + 1)
        } else {
            bus.read(row_addr)
        }
    }

    /// Advance the fetcher by one 2-T-cycle step.
    fn tick_fetcher(&mut self, bus: &Bus)
        requires
            bus.wf(),
            old(self).pipeline_ok(),
        ensures
            final(self).pipeline_ok(),
            final(self).timing() == old(self).timing(),
            final(self).pipeline() == fetcher_step(old(self).pipeline(), old(self).ly, bus@),
    {
        let lcdc = bus.read(0xFF40);
        match self.fetcher_state {
            FetcherState::ReadTileId => {
                self.tile_id = self.fetch_tile_id(bus, lcdc);
                self.fetcher_state = FetcherState::ReadDataLo;
            },
            FetcherState::ReadDataLo => {
                self.tile_data_lo = self.fetch_tile_data_byte(bus, lcdc, false);
                self.fetcher_state = FetcherState::ReadDataHi;
            },
            FetcherState::ReadDataHi => {
                self.tile_data_hi = self.fetch_tile_data_byte(bus, lcdc, true);
                self.fetcher_state = FetcherState::Push;
            },
            FetcherState::Push => {
                // Push only when the FIFO has 8 or fewer pixels (room for another 8).
                if self.bg_fifo.len() <= 8 {
                    let lo_byte = self.tile_data_lo;
                    let hi_byte = self.tile_data_hi;
                    let ghost start = self.bg_fifo@;
                    let mut bit: u8 = 8;
                    while bit > 0
                        invariant
                            bit <= 8,
                            start.len() <= 8,
                            forall|i: int| 0 <= i < start.len() ==> #[trigger] start[i] <= 3,
                            self.bg_fifo@ == start + tile_row(lo_byte, hi_byte).take(8 - bit),
                            *self == (PPU { bg_fifo: self.bg_fifo, ..*old(self) }),
                            start == old(self).bg_fifo@,
                            lo_byte == old(self).tile_data_lo,
                            hi_byte == old(self).tile_data_hi,
                        decreases bit,
                    {
                        bit -= 1;
                        let lo = (lo_byte >> bit) & 1;
                        let hi = (hi_byte >> bit) & 1;
                        proof {
                            assert(((hi << 1) | lo) == row_color(lo_byte, hi_byte, 7 - bit) && ((hi
                                << 1) | lo) <= 3) by (bit_vector)
                                requires
                                    bit < 8,
                                    lo == (lo_byte >> bit) & 1,
                                    hi == (hi_byte >> bit) & 1;
                            assert(tile_row(lo_byte, hi_byte).take(8 - bit) =~= tile_row(
                                lo_byte,
                                hi_byte,
                            ).take(8 - bit - 1).push(row_color(lo_byte, hi_byte, 7 - bit)));
                        }
                        self.bg_fifo.push_back((hi << 1) | lo);
                    }
                    assert(tile_row(lo_byte, hi_byte).take(8) =~= tile_row(lo_byte, hi_byte));
                    self.fetch_x = self.fetch_x.wrapping_add(1);
                    self.fetcher_state = FetcherState::ReadTileId;
                    proof {
                        assert forall|i: int| 0 <= i < self.bg_fifo@.len() implies #[trigger] self.bg_fifo@[i]
                            <= 3 by {
                            if i >= start.len() {
                                let k = i - start.len();
                                let (l, h) = (lo_byte, hi_byte);
                                let b = (7 - k) as u8;
                                crate::bits::lemma_pixel_bits(l, h, b, 0, 0);
                            }
                        }
                    }
                }
                // If FIFO is too full the fetcher stalls here until the next tick.
            },
        }
    }
}

/// For a sequence sorted by X, `insert_pos` splits it into the sprites with
/// X at most `x` and those with X greater than `x`.
pub proof fn lemma_insert_pos(s: Seq<Sprite>, x: u8)
    requires
        sorted_by_x(s),
    ensures
        0 <= insert_pos(s, x) <= s.len(),
        forall|j: int| 0 <= j < insert_pos(s, x) ==> s[j].x <= x,
        forall|j: int| insert_pos(s, x) <= j < s.len() ==> s[j].x > x,
    decreases s.len(),
{
    if s.len() > 0 {
        if s.last().x > x {
            let t = s.drop_last();
            assert(sorted_by_x(t));
            lemma_insert_pos(t, x);
            let p = insert_pos(s, x);
            assert(p == insert_pos(t, x));
            assert forall|j: int| 0 <= j < p implies s[j].x <= x by {
                assert(s[j] == t[j]);
            }
            assert forall|j: int| p <= j < s.len() implies s[j].x > x by {
                if j < t.len() {
                    assert(s[j] == t[j]);
                }
            }
        } else {
            assert forall|j: int| 0 <= j < s.len() implies s[j].x <= x by {
                assert(s[j].x <= s.last().x);
            }
        }
    }
}

/// Stable sorting by X yields a sequence sorted by X with the same length.
pub proof fn lemma_sort_by_x_sorted(s: Seq<Sprite>)
    ensures
        sorted_by_x(sort_by_x(s)),
        sort_by_x(s).len() == s.len(),
    decreases s.len(),
{
    if s.len() > 0 {
        let t = sort_by_x(s.drop_last());
        lemma_sort_by_x_sorted(s.drop_last());
        lemma_insert_pos(t, s.last().x);
        let p = insert_pos(t, s.last().x);
        let r = t.insert(p, s.last());
        assert forall|i: int, j: int| 0 <= i < j < r.len() implies r[i].x <= r[j].x by {
            if j < p {
            } else if j == p {
            } else if i < p {
                assert(t[i].x <= s.last().x);
            } else if i == p {
                assert(r[j] == t[j - 1]);
            } else {
                assert(r[i] == t[i - 1] && r[j] == t[j - 1]);
            }
        }
    }
}

/// Once ten sprites are collected, scanning further OAM entries adds none.
proof fn lemma_line_sprites_capped(bus: BusState, ly: u8, height: int, n: int, m: int)
    requires
        0 <= n <= m,
        line_sprites(bus, ly, height, n).len() >= 10,
    ensures
        line_sprites(bus, ly, height, m) == line_sprites(bus, ly, height, n),
    decreases m - n,
{
    if m > n {
        lemma_line_sprites_capped(bus, ly, height, n, m - 1);
    }
}

/// At most ten sprites are ever collected for a line.
proof fn lemma_line_sprites_len(bus: BusState, ly: u8, height: int, n: int)
    ensures
        line_sprites(bus, ly, height, n).len() <= 10,
    decreases n,
{
    if n > 0 {
        lemma_line_sprites_len(bus, ly, height, n - 1);
    }
}

impl PPU {
    // ── OAM scan ─────────────────────────────────────────────────────────

    /// Scan the 40 OAM entries and collect up to 10 sprites whose Y range
    /// covers the current `LY`, sorted by X position (OAM order breaks ties).
    ///
    /// Sprites with X = 0 are excluded (they are fully off-screen left and
    /// would never produce visible pixels).
    fn scan_oam(&mut self, bus: &Bus, lcdc: u8)
        requires
            bus.wf(),
        ensures
            final(self).sprite_buffer@ == sort_by_x(
                line_sprites(bus@, old(self).ly, sprite_height(lcdc), 40),
            ),
            final(self).sprite_buffer@.len() <= 10,
            *final(self) == (PPU { sprite_buffer: final(self).sprite_buffer, ..*old(self) }),
    {
        self.sprite_buffer.clear();
        let height: u8 = if lcdc & 0x04 != 0 { 16 } else { 8 };
        let ghost h = sprite_height(lcdc);
        let ghost ly = self.ly;
        let mut i: usize = 0;
        while i < 40 && self.sprite_buffer.len() < 10
            invariant
                0 <= i <= 40,
                h == height as int,
                ly == self.ly,
                self.sprite_buffer@ == sort_by_x(line_sprites(bus@, ly, h, i as int)),
                self.sprite_buffer@.len() == line_sprites(bus@, ly, h, i as int).len(),
                self.sprite_buffer@.len() <= 10,
                *self == (PPU { sprite_buffer: self.sprite_buffer, ..*old(self) }),
                bus.wf(),
            decreases 40 - i,
        {
            let ghost prev = line_sprites(bus@, ly, h, i as int);
            let base = 0xFE00u16 + (i as u16) * 4;
            let y = bus.read(base);
            let x = bus.read(base + 1);
            let tile = bus.read(base + 2);
            let flags = bus.read(base + 3);
            let sprite = Sprite { y, x, tile, flags };
            assert(sprite == oam_sprite(bus@, i as int));
            // Sprites with X = 0 are invisible. A sprite covers the line when
            // its top row `y − 16` is at most LY and LY is above its bottom.
            let ly16 = self.ly as u16 + 16;
            let y16 = y as u16;
            if x != 0 && !(ly16 < y16 || ly16 >= y16 + height as u16) {
                proof {
                    lemma_sort_by_x_sorted(prev);
                    assert(prev.push(sprite).drop_last() =~= prev);
                }
                // Insert after every buffered sprite with the same or a
                // smaller X, which keeps the buffer stably sorted by X.
                let mut pos = self.sprite_buffer.len();
                assert(self.sprite_buffer@.take(pos as int) =~= self.sprite_buffer@);
                while pos > 0 && self.sprite_buffer[pos - 1].x > x
                    invariant
                        0 <= pos <= self.sprite_buffer@.len(),
                        insert_pos(self.sprite_buffer@.take(pos as int), x) == insert_pos(
                            self.sprite_buffer@,
                            x,
                        ),
                    decreases pos,
                {
                    assert(self.sprite_buffer@.take(pos as int).drop_last() =~= self.sprite_buffer@.take(
                        pos - 1,
                    ));
                    pos -= 1;
                }
                proof {
                    if pos > 0 {
                        assert(self.sprite_buffer@.take(pos as int).last() == self.sprite_buffer@[pos - 1]);
                    }
                }
                self.sprite_buffer.insert(pos, sprite);
            }
            i += 1;
        }
        proof {
            if i < 40 {
                lemma_line_sprites_capped(bus@, ly, h, i as int, 40);
            }
            lemma_line_sprites_len(bus@, ly, h, 40);
        }
    }

    /// Initialise the pixel pipeline at the start of Mode 3.
    ///
    /// Performs the OAM scan (collecting sprites that cover `LY`), resets the
    /// background fetcher, and initialises fine-scroll discard.
    fn begin_scanline(&mut self, bus: &Bus)
        requires
            bus.wf(),
            old(self).pipeline_ok(),
        ensures
            final(self).pipeline_ok(),
            final(self).timing() == old(self).timing(),
            final(self).pipeline() == begin_line(old(self).pipeline(), old(self).ly, bus@),
    {
        self.bg_fifo.clear();
        self.sprite_fifo.clear();
        self.fetcher_state = FetcherState::ReadTileId;
        self.fetcher_dot = 0;
        self.fetch_x = 0;
        self.lx = 0;
        self.window_active = false;
        self.fetching_window = false;
        self.sprite_fetch_cursor = 0;
        // SCX fine-scroll: discard the first (SCX % 8) pixels.
        let scx = bus.read(0xFF43);
        self.scx_discard = scx % 8;
        // OAM scan: collect up to 10 sprites visible on this scanline.
        let lcdc = bus.read(0xFF40);
        self.scan_oam(bus, lcdc);
    }
}

/// A sprite-FIFO slot after mixing, for slots `p` below `upto`.
spec fn mixed_slot(
    padded: Seq<SpriteFifoPixel>,
    sprite: Sprite,
    lo: u8,
    hi: u8,
    clip: int,
    p: int,
) -> SpriteFifoPixel {
    if padded[p].color_index == 0 {
        SpriteFifoPixel {
            color_index: if sprite.flags & 0x20 != 0 {
                row_color(lo, hi, 7 - (p + clip))
            } else {
                row_color(lo, hi, p + clip)
            },
            palette: (sprite.flags >> 4) & 1,
            bg_priority: sprite.flags & 0x80 != 0,
        }
    } else {
        padded[p]
    }
}

impl PPU {
    // ── Sprite fetcher ───────────────────────────────────────────────────

    /// Address of the tile row of `sprite` on the current line.
    fn sprite_row_address(&self, lcdc: u8, sprite: Sprite) -> (a: u16)
        ensures
            a == sprite_row_addr(lcdc, self.ly, sprite),
    {
        let height: u8 = if lcdc & 0x04 != 0 { 16 } else { 8 };
        let y_flip = sprite.flags & 0x40 != 0;
        // Row within the sprite: LY − (y − 16), modulo 256.
        let row0 = self.ly.wrapping_add(16).wrapping_sub(sprite.y);
        let last_row = height - 1;
        let fine_y = if y_flip { last_row.wrapping_sub(row0) } else { row0 };
        proof {
            let (l, y, h) = (self.ly, sprite.y, height);
            assert(row0 == (l + 16 - y) as u8) by (bit_vector)
                requires
                    row0 == l.wrapping_add(16).wrapping_sub(y);
            assert(last_row.wrapping_sub(row0) == (h - 1 - row0) as u8) by (bit_vector)
                requires
                    last_row == h - 1,
                    h >= 8;
        }
        // In 8×16 mode, bit 0 of the tile index is forced:
        //   upper 8 rows → tile & 0xFE
        //   lower 8 rows → (tile & 0xFE) | 0x01
        let tile_index = if height == 16 {
            let base = sprite.tile & 0xFE;
            if fine_y < 8 {
                base
            } else {
                base | 0x01
            }
        } else {
            sprite.tile
        };
        let fine_y_in_tile = fine_y % 8;
        // Sprites always use $8000 unsigned tile data addressing.
        let tile_base = 0x8000u16 + tile_index as u16 * 16;
        tile_base + fine_y_in_tile as u16 * 2
    }

    /// Pad the sprite FIFO with transparent slots up to `visible` slots.
    fn pad_sprite_fifo(&mut self, visible: usize)
        requires
            visible <= 8,
            old(self).sprite_fifo@.len() <= 8,
        ensures
            final(self).sprite_fifo@ == (if old(self).sprite_fifo@.len() < visible {
                old(self).sprite_fifo@ + Seq::new(
                    (visible - old(self).sprite_fifo@.len()) as nat,
                    |k: int| transparent(),
                )
            } else {
                old(self).sprite_fifo@
            }),
            *final(self) == (PPU { sprite_fifo: final(self).sprite_fifo, ..*old(self) }),
    {
        let ghost start = self.sprite_fifo@;
        while self.sprite_fifo.len() < visible
            invariant
                visible <= 8,
                start == old(self).sprite_fifo@,
                start.len() <= 8,
                start.len() <= self.sprite_fifo@.len() <= 8,
                self.sprite_fifo@.len() <= visible || self.sprite_fifo@.len() == start.len(),
                self.sprite_fifo@ == start + Seq::new(
                    (self.sprite_fifo@.len() - start.len()) as nat,
                    |k: int| transparent(),
                ),
                *self == (PPU { sprite_fifo: self.sprite_fifo, ..*old(self) }),
            decreases visible - self.sprite_fifo@.len(),
        {
            self.sprite_fifo.push_back(SpriteFifoPixel { color_index: 0, palette: 0, bg_priority: false });
            assert(self.sprite_fifo@ =~= start + Seq::new(
                (self.sprite_fifo@.len() - start.len()) as nat,
                |k: int| transparent(),
            ));
        }
        proof {
            if start.len() >= visible {
                assert(self.sprite_fifo@ =~= start);
            }
        }
    }

    /// Mix the visible pixels of a sprite row into the (padded) sprite FIFO:
    /// only transparent slots are overwritten, so the highest-priority sprite
    /// already loaded wins.
    fn mix_sprite_pixels(&mut self, sprite: Sprite, lo: u8, hi: u8, clip_count: usize)
        requires
            clip_count <= 8,
            old(self).sprite_fifo@.len() >= 8 - clip_count,
            old(self).sprite_fifo@.len() <= 8,
        ensures
            final(self).sprite_fifo@ == Seq::new(
                old(self).sprite_fifo@.len(),
                |p: int|
                    if p < 8 - clip_count {
                        mixed_slot(old(self).sprite_fifo@, sprite, lo, hi, clip_count as int, p)
                    } else {
                        old(self).sprite_fifo@[p]
                    },
            ),
            *final(self) == (PPU { sprite_fifo: final(self).sprite_fifo, ..*old(self) }),
    {
        let x_flip = sprite.flags & 0x20 != 0;
        let palette = (sprite.flags >> 4) & 1;
        let bg_priority = sprite.flags & 0x80 != 0;
        let ghost padded = self.sprite_fifo@;
        let ghost clip = clip_count as int;
        let mut i = clip_count;
        while i < 8
            invariant
                clip_count <= i <= 8,
                clip == clip_count as int,
                padded == old(self).sprite_fifo@,
                padded.len() >= 8 - clip_count,
                padded.len() <= 8,
                self.sprite_fifo@.len() == padded.len(),
                forall|p: int|
                    0 <= p < i - clip ==> self.sprite_fifo@[p] == mixed_slot(
                        padded,
                        sprite,
                        lo,
                        hi,
                        clip,
                        p,
                    ),
                forall|p: int| i - clip <= p < padded.len() ==> self.sprite_fifo@[p] == padded[p],
                x_flip == (sprite.flags & 0x20 != 0),
                palette == (sprite.flags >> 4) & 1,
                bg_priority == (sprite.flags & 0x80 != 0),
                *self == (PPU { sprite_fifo: self.sprite_fifo, ..*old(self) }),
            decreases 8 - i,
        {
            // `i` counts from the left of the tile (0 = leftmost pixel); bit 7
            // of the tile data is the leftmost pixel.
            let bit: u8 = if x_flip { i as u8 } else { 7 - i as u8 };
            let color_lo = (lo >> bit) & 1;
            let color_hi = (hi >> bit) & 1;
            let color_index = (color_hi << 1) | color_lo;
            proof {
                let k: int = if x_flip { 7 - i } else { i as int };
                assert(bit == (7 - k) as u8);
                assert(color_index == row_color(lo, hi, k));
            }
            let fifo_pos = i - clip_count;
            if self.sprite_fifo[fifo_pos].color_index == 0 {
                let ghost before = self.sprite_fifo@;
                let _ = self.sprite_fifo.remove(fifo_pos);
                self.sprite_fifo.insert(fifo_pos, SpriteFifoPixel { color_index, palette, bg_priority });
                assert(self.sprite_fifo@ =~= before.update(
                    fifo_pos as int,
                    SpriteFifoPixel { color_index, palette, bg_priority },
                ));
            }
            i += 1;
        }
        assert(self.sprite_fifo@ =~= Seq::new(
            padded.len(),
            |p: int|
                if p < 8 - clip_count {
                    mixed_slot(padded, sprite, lo, hi, clip, p)
                } else {
                    padded[p]
                },
        ));
    }

    /// Fetch one sprite's tile row and mix it into the sprite FIFO.
    ///
    /// Handles Y flip / X flip, 8×16 sprites (tile bit 0 is ignored: the
    /// upper half uses `tile & 0xFE`, the lower half `(tile & 0xFE) | 0x01`),
    /// left-clipping of sprites whose left edge is off-screen (x < 8), and
    /// priority mixing: a slot is only overwritten while it is transparent,
    /// so the first sprite to write a slot wins.
    fn fetch_sprite_into_fifo(&mut self, bus: &Bus, lcdc: u8, sprite: Sprite)
        requires
            bus.wf(),
            old(self).sprite_fifo@.len() <= 8,
            forall|i: int|
                0 <= i < old(self).sprite_fifo@.len() ==> (#[trigger] old(self).sprite_fifo@[i]).color_index <= 3,
        ensures
            final(self).sprite_fifo@ == fetch_sprite_spec(
                old(self).sprite_fifo@,
                bus@,
                lcdc,
                old(self).ly,
                sprite,
            ),
            final(self).sprite_fifo@.len() <= 8,
            forall|i: int|
                0 <= i < final(self).sprite_fifo@.len() ==> (#[trigger] final(self).sprite_fifo@[i]).color_index <= 3,
            *final(self) == (PPU { sprite_fifo: final(self).sprite_fifo, ..*old(self) }),
    {
        let row_addr = self.sprite_row_address(lcdc, sprite);
        let lo = bus.read(row_addr);
        let hi = bus.read(row_addr + 1);
        // Number of left-side pixels clipped (sprite partially off-screen left).
        let clip_count: usize = if sprite.x < 8 { 8 - sprite.x as usize } else { 0 };
        let visible = 8 - clip_count;
        let ghost start = self.sprite_fifo@;
        self.pad_sprite_fifo(visible);
        let ghost padded = self.sprite_fifo@;
        self.mix_sprite_pixels(sprite, lo, hi, clip_count);
        assert(self.sprite_fifo@ =~= mix_sprite_row(start, sprite, lo, hi));
        proof {
            assert forall|q: int| 0 <= q < self.sprite_fifo@.len() implies (
            #[trigger] self.sprite_fifo@[q]).color_index <= 3 by {
                if q < visible && padded[q].color_index == 0 {
                    let k: int = if sprite.flags & 0x20 != 0 { 7 - (q + clip_count) } else { q + clip_count };
                    let b = (7 - k) as u8;
                    crate::bits::lemma_pixel_bits(lo, hi, b, 0, 0);
                } else if q >= start.len() {
                } else {
                    assert(padded[q] == start[q]);
                }
            }
        }
    }

    /// Fetch every buffered sprite whose left edge has been reached at the
    /// current `lx` into the sprite FIFO.
    ///
    /// Sprites are processed in sorted order (lowest X first, OAM index
    /// breaks ties); the cursor stops at the first sprite that starts further
    /// right.
    fn load_sprites_at_lx(&mut self, bus: &Bus, lcdc: u8)
        requires
            bus.wf(),
            old(self).pipeline_ok(),
        ensures
            final(self).pipeline_ok(),
            (final(self).sprite_fifo@, final(self).sprite_fetch_cursor as int) == load_sprites_spec(
                old(self).sprite_fifo@,
                bus@,
                lcdc,
                old(self).ly,
                old(self).sprite_buffer@,
                old(self).sprite_fetch_cursor as int,
                old(self).lx,
            ),
            *final(self) == (PPU {
                sprite_fifo: final(self).sprite_fifo,
                sprite_fetch_cursor: final(self).sprite_fetch_cursor,
                ..*old(self)
            }),
    {
        while self.sprite_fetch_cursor < self.sprite_buffer.len()
            && self.sprite_buffer[self.sprite_fetch_cursor].x.saturating_sub(8) <= self.lx
            invariant
                self.pipeline_ok(),
                bus.wf(),
                load_sprites_spec(
                    self.sprite_fifo@,
                    bus@,
                    lcdc,
                    self.ly,
                    self.sprite_buffer@,
                    self.sprite_fetch_cursor as int,
                    self.lx,
                ) == load_sprites_spec(
                    old(self).sprite_fifo@,
                    bus@,
                    lcdc,
                    old(self).ly,
                    old(self).sprite_buffer@,
                    old(self).sprite_fetch_cursor as int,
                    old(self).lx,
                ),
                *self == (PPU {
                    sprite_fifo: self.sprite_fifo,
                    sprite_fetch_cursor: self.sprite_fetch_cursor,
                    ..*old(self)
                }),
            decreases self.sprite_buffer@.len() - self.sprite_fetch_cursor,
        {
            let sprite = self.sprite_buffer[self.sprite_fetch_cursor];
            self.fetch_sprite_into_fifo(bus, lcdc, sprite);
            self.sprite_fetch_cursor += 1;
        }
    }

    // ── FIFO output ──────────────────────────────────────────────────────

    /// Pop one pixel from the background FIFO, mix it with the sprite FIFO
    /// and write the result to the framebuffer at (`lx`, `LY`).
    ///
    /// While fine-scroll pixels remain to be discarded the popped pixel is
    /// dropped and the sprite FIFO is not consumed (sprite X positions are in
    /// screen coordinates).
    fn output_pixel(&mut self, bus: &Bus)
        requires
            bus.wf(),
            old(self).pipeline_ok(),
            old(self).ly < 144,
            old(self).lx < 160,
        ensures
            final(self).pipeline_ok(),
            final(self).timing() == old(self).timing(),
            final(self).pipeline() == output_step(old(self).pipeline(), old(self).ly, bus@),
    {
        let bg_raw = match self.bg_fifo.pop_front() {
            Some(v) => v,
            None => {
                return;  // FIFO is empty; fetcher hasn't caught up yet.

            },
        };
        // Discard fine-scroll pixels at the start of the scanline.
        if self.scx_discard > 0 {
            self.scx_discard -= 1;
            return;
        }
        // Retrieve the sprite pixel (if any) for this screen position.
        let sprite_pixel = self.sprite_fifo.pop_front();

        // Apply BGP palette to the background pixel.
        let bgp = bus.read(0xFF47);
        let bg_shade = (bgp >> (bg_raw * 2)) & 0x03;
        proof {
            assert(bg_raw <= 3);
            crate::bits::lemma_pixel_bits(0, 0, 0, bgp, bg_raw);
        }

        // Determine the final greyscale value via the mixing rules.
        let grey = match sprite_pixel {
            Some(sp) => {
                assert(sp.color_index <= 3);
                if sp.color_index == 0 {
                    // Sprite pixel is transparent: show background.
                    shade_to_grey(bg_shade)
                } else if sp.bg_priority && bg_raw != 0 {
                    // Sprite behind BG/Win with a non-zero background color.
                    shade_to_grey(bg_shade)
                } else {
                    // Sprite pixel wins. Apply OBP0 or OBP1.
                    let obp = if sp.palette == 0 {
                        bus.read(0xFF48)
                    } else {
                        bus.read(0xFF49)
                    };
                    let c = sp.color_index;
                    let shade = (obp >> (c * 2)) & 0x03;
                    proof {
                        crate::bits::lemma_pixel_bits(0, 0, 0, obp, c);
                    }
                    shade_to_grey(shade)
                }
            },
            None => shade_to_grey(bg_shade),
        };

        let pixel: usize = self.ly as usize * FB_WIDTH + self.lx as usize;
        let offset = pixel * 4;
        let ghost fb0 = self.framebuffer@;
        self.framebuffer.set(offset, grey);  // R
        self.framebuffer.set(offset + 1, grey);  // G
        self.framebuffer.set(offset + 2, grey);  // B
        self.framebuffer.set(offset + 3, 0xFF);  // A
        assert(self.framebuffer@ =~= set_pixel(fb0, pixel as int, grey));
        proof {
            assert forall|p: int| 0 <= p < 23040 implies #[trigger] pixel_ok(self.framebuffer@, p) by {
                if p != pixel {
                    assert(pixel_ok(fb0, p));
                    assert(self.framebuffer@[4 * p] == fb0[4 * p]);
                    assert(self.framebuffer@[4 * p + 1] == fb0[4 * p + 1]);
                    assert(self.framebuffer@[4 * p + 2] == fb0[4 * p + 2]);
                    assert(self.framebuffer@[4 * p + 3] == fb0[4 * p + 3]);
                }
            }
        }
        self.lx += 1;
    }

    /// Advance the pixel output by one T-cycle during Mode 3: check window
    /// activation, load the sprites that start at this column (when sprites
    /// are enabled, LCDC bit 1), then output one pixel.
    fn tick_fifo(&mut self, bus: &Bus)
        requires
            bus.wf(),
            old(self).pipeline_ok(),
            old(self).ly < 144,
        ensures
            final(self).pipeline_ok(),
            final(self).timing() == old(self).timing(),
            final(self).pipeline() == fifo_step(old(self).pipeline(), old(self).ly, bus@),
    {
        if self.lx >= 160 {
            return;
        }
        // Check whether the window should activate at this pixel position.
        self.check_window_activation(bus);
        // Load any sprites whose left edge has been reached.
        let lcdc = bus.read(0xFF40);
        if lcdc & 0x02 != 0 {
            self.load_sprites_at_lx(bus, lcdc);
        }
        self.output_pixel(bus);
    }
}

impl PPU {
    /// Advance the PPU by `cycles` T-cycles.
    ///
    /// Returns `true` if the PPU entered Mode 1 (VBlank) during these cycles;
    /// the caller should then set `IF` bit 0 to request a VBlank interrupt.
    pub fn step(&mut self, bus: &mut Bus, cycles: u32) -> (vblank: bool)
        requires
            old(self).wf(),
            old(bus).wf(),
        ensures
            final(self).wf(),
            final(bus).wf(),
            (final(self).timing(), final(self).pipeline(), final(bus)@, vblank) == run_ppu(
                old(self).timing(),
                old(self).pipeline(),
                old(bus)@,
                cycles as nat,
            ),
            (final(self).timing(), final(bus)@, vblank) == run_timing(
                old(self).timing(),
                old(bus)@,
                cycles as nat,
            ),
            frame_ok(final(self).frame()),
    {
        reveal(run_timing);
        reveal(run_ppu);
        let mut vblank = false;
        let mut i: u32 = 0;
        while i < cycles
            invariant
                0 <= i <= cycles,
                self.wf(),
                bus.wf(),
                (self.timing(), bus@, vblank) == run_timing(
                    old(self).timing(),
                    old(bus)@,
                    i as nat,
                ),
                (self.timing(), self.pipeline(), bus@, vblank) == run_ppu(
                    old(self).timing(),
                    old(self).pipeline(),
                    old(bus)@,
                    i as nat,
                ),
            decreases cycles - i,
        {
            proof {
                reveal(run_timing);
                reveal(run_ppu);
            }
            let v = self.tick(bus);
            vblank = vblank || v;
            i += 1;
        }
        vblank
    }

    // ── Internal per-T-cycle tick ────────────────────────────────────────

    fn tick(&mut self, bus: &mut Bus) -> (vblank: bool)
        requires
            old(self).wf(),
            old(bus).wf(),
        ensures
            final(self).wf(),
            final(bus).wf(),
            (final(self).timing(), final(bus)@, vblank) == tick_timing(old(self).timing(), old(bus)@),
            final(self).pipeline() == tick_pipeline(old(self).timing(), old(self).pipeline(), old(bus)@),
    {
        let lcdc = bus.read(0xFF40);

        // LCD disabled: freeze at LY=0, Mode 0. No interrupts raised.
        if lcdc & 0x80 == 0 {
            self.ly = 0;
            self.dot = 0;
            self.mode = PPUMode::HBlank;
            bus.write(0xFF44, 0);
            // Clear mode bits and LYC=LY flag; drive interrupt line low.
            let stat = bus.read(0xFF41);
            bus.write_stat_ppu(stat & !0x07);
            self.stat_irq_line = false;
            return false;
        }
        let prev_mode = self.mode;

        // Advance the dot counter; roll over to the next scanline.
        self.dot += 1;
        if self.dot >= 456 {
            self.dot = 0;
            self.ly = self.ly.wrapping_add(1);
            if self.ly > 153 {
                self.ly = 0;
                // Reset window line counter at the start of each new frame.
                self.window_line = 0;
            }
            bus.write(0xFF44, self.ly);
        }

        // Derive the PPU mode from the updated scanline / dot position.
        let new_mode = if self.ly >= 144 {
            PPUMode::VBlank
        } else if self.dot < 80 {
            PPUMode::OAMScan
        } else if self.dot < 252 {
            // Mode 3: simplified fixed 172-dot duration.
            PPUMode::Drawing
        } else {
            PPUMode::HBlank
        };

        // Handle mode transitions.
        if prev_mode == PPUMode::OAMScan && new_mode == PPUMode::Drawing {
            self.begin_scanline(bus);
        } else if prev_mode == PPUMode::Drawing && new_mode == PPUMode::HBlank {
            // Scanline ended: increment window line counter if window fired.
            if self.window_active {
                self.window_line = self.window_line.wrapping_add(1);
            }
        }
        self.mode = new_mode;

        // Run the pixel pipeline during Mode 3.
        if self.mode == PPUMode::Drawing {
            // Fetcher advances every 2 T-cycles.
            self.fetcher_dot += 1;
            if self.fetcher_dot >= 2 {
                self.fetcher_dot = 0;
                self.tick_fetcher(bus);
            }
            // FIFO outputs one pixel per T-cycle.
            self.tick_fifo(bus);
        }

        // Update STAT (mode bits + LYC=LY flag) and fire the STAT interrupt
        // on a rising edge of the combined interrupt line.
        self.update_stat(bus);

        // VBlank interrupt: assert exactly once on the Mode 1 transition.
        prev_mode != PPUMode::VBlank && new_mode == PPUMode::VBlank
    }
}

/// Position within the frame `k` T-cycles after position `pos`.
pub open spec fn frame_pos(pos: int, k: int) -> int {
    (pos + k) % 70224
}

/// Frame position of the first dot of line 144, where VBlank begins.
pub open spec fn vblank_start() -> int {
    65664int
}

/// One PPU T-cycle leaves LCDC untouched and the bus well formed.
pub proof fn lemma_tick_keeps_lcdc(t: PPUTiming, bus: BusState)
    requires
        bus.wf(),
    ensures
        tick_timing(t, bus).1.read(0xFF40) == bus.read(0xFF40),
        tick_timing(t, bus).1.wf(),
{
    reveal(BusState::read);
    reveal(BusState::write);
}

/// With the LCD on, one T-cycle advances the frame position by one (modulo a
/// 70224-cycle frame), keeps the mode the one the position dictates, and
/// reports VBlank exactly when the new position is the first dot of line 144.
pub proof fn lemma_tick_position(t: PPUTiming, bus: BusState)
    requires
        t.consistent(),
        lcd_enabled(bus),
    ensures
        tick_timing(t, bus).0.consistent(),
        tick_timing(t, bus).0.mode == mode_at(tick_timing(t, bus).0.ly, tick_timing(t, bus).0.dot),
        tick_timing(t, bus).0.position() == frame_pos(t.position(), 1),
        tick_timing(t, bus).2 == (tick_timing(t, bus).0.position() == vblank_start()),
{
}

/// A frame is 70224 T-cycles: with the LCD on, after `n` T-cycles the frame
/// position has advanced by `n` modulo 70224, and VBlank was entered during
/// those cycles exactly when one of them brought the position to the first
/// dot of line 144 — once per frame.
pub proof fn lemma_frame_timing(t: PPUTiming, bus: BusState, n: nat)
    requires
        t.consistent(),
        bus.wf(),
        lcd_enabled(bus),
    ensures
        run_timing(t, bus, n).0.consistent(),
        run_timing(t, bus, n).1.wf(),
        run_timing(t, bus, n).1.read(0xFF40) == bus.read(0xFF40),
        run_timing(t, bus, n).0.position() == frame_pos(t.position(), n as int),
        run_timing(t, bus, n).2 <==> exists|k: int|
            1 <= k <= n && #[trigger] frame_pos(t.position(), k) == vblank_start(),
    decreases n,
{
    reveal(run_timing);
    if n > 0 {
        lemma_frame_timing(t, bus, (n - 1) as nat);
        let (t1, b1, v1) = run_timing(t, bus, (n - 1) as nat);
        lemma_tick_keeps_lcdc(t1, b1);
        lemma_tick_position(t1, b1);
        let (t2, b2, v2) = tick_timing(t1, b1);
        assert(frame_pos(t1.position(), 1) == frame_pos(t.position(), n as int));
        if v1 {
            let k = choose|k: int| 1 <= k <= n - 1 && #[trigger] frame_pos(t.position(), k)
                == vblank_start();
            assert(1 <= k <= n && frame_pos(t.position(), k) == vblank_start());
        }
        if v2 {
            assert(frame_pos(t.position(), n as int) == vblank_start());
        }
        if exists|k: int| 1 <= k <= n && #[trigger] frame_pos(t.position(), k) == vblank_start() {
            let k = choose|k: int| 1 <= k <= n && #[trigger] frame_pos(t.position(), k)
                == vblank_start();
            if k < n {
                assert(v1);
            } else {
                assert(v2);
            }
        }
    }
}

/// With the LCD on, LY (`0xFF44`) keeps showing the current scanline.
pub proof fn lemma_ly_register(t: PPUTiming, bus: BusState)
    requires
        bus.wf(),
        lcd_enabled(bus),
        t.ly <= 153,
        t.dot <= 455,
        bus.read(0xFF44) == t.ly,
    ensures
        tick_timing(t, bus).1.read(0xFF44) == tick_timing(t, bus).0.ly,
{
    reveal(BusState::read);
    reveal(BusState::write);
}

/// The LCD STAT interrupt is edge-triggered: while the combined STAT line
/// stays high no further request is made, and a request (IF bit 1) is made
/// exactly when the line rises.
pub proof fn lemma_stat_edge_triggered(t: PPUTiming, bus: BusState)
    requires
        bus.wf(),
        lcd_enabled(bus),
    ensures
        t.stat_line ==> tick_timing(t, bus).1.read(0xFF0F) == bus.read(0xFF0F),
        !t.stat_line && !tick_timing(t, bus).0.stat_line ==> tick_timing(t, bus).1.read(0xFF0F)
            == bus.read(0xFF0F),
        !t.stat_line && tick_timing(t, bus).0.stat_line ==> tick_timing(t, bus).1.read(0xFF0F)
            == bus.read(0xFF0F) | 0x02,
{
    reveal(BusState::read);
    reveal(BusState::write);
}

/// With the LCD off the PPU sits at LY = 0, dot 0, mode 0 (HBlank) with LY
/// reading 0 and never reports VBlank.
pub proof fn lemma_lcd_off(t: PPUTiming, bus: BusState)
    requires
        bus.wf(),
        !lcd_enabled(bus),
    ensures
        tick_timing(t, bus).0 == (PPUTiming { ly: 0, dot: 0, mode: 0, stat_line: false }),
        tick_timing(t, bus).1.read(0xFF44) == 0,
        tick_timing(t, bus).1.read(0xFF41) & 0x07 == 0,
        !tick_timing(t, bus).2,
{
    reveal(BusState::read);
    reveal(BusState::write);
    let stat = bus.write(0xFF44, 0).read(0xFF41);
    assert((stat & !0x07u8) & 0x07 == 0) by (bit_vector);
}

/// The OAM scan keeps at most ten sprites, ordered by X.
pub proof fn lemma_scan_sorted(bus: BusState, ly: u8, lcdc: u8)
    ensures
        sort_by_x(line_sprites(bus, ly, sprite_height(lcdc), 40)).len() <= 10,
        sorted_by_x(sort_by_x(line_sprites(bus, ly, sprite_height(lcdc), 40))),
{
    lemma_line_sprites_len(bus, ly, sprite_height(lcdc), 40);
    lemma_sort_by_x_sorted(line_sprites(bus, ly, sprite_height(lcdc), 40));
}

/// Pixels are drawn only in Mode 3: a T-cycle that ends in any other mode,
/// or runs with the LCD off, leaves the framebuffer unchanged.
pub proof fn lemma_frame_changes_only_in_mode3(t: PPUTiming, p: Pipeline, bus: BusState)
    requires
        tick_timing(t, bus).0.mode != 3,
    ensures
        tick_pipeline(t, p, bus).frame == p.frame,
{
}

/// Width in pixels of the tile-viewer image: 16 tiles of 8 pixels.
pub const TILE_VIEW_WIDTH: usize = 128;

/// Height in pixels of the tile-viewer image: 24 tiles of 8 pixels.
pub const TILE_VIEW_HEIGHT: usize = 192;

/// Grey of pixel (`x`, `y`) of the tile-viewer image: the 384 tiles at the
/// start of VRAM, 16 per row, each decoded from its two bit planes and shown
/// through palette `bgp`.
pub open spec fn tile_view_grey(vram: Seq<u8>, bgp: u8, x: int, y: int) -> u8 {
    let tile = (y / 8) * 16 + x / 8;
    let base = tile * 16 + (y % 8) * 2;
    grey_of(palette_shade(bgp, row_color(vram[base], vram[base + 1], x % 8)))
}

/// Header of a binary PPM (`P6`) image of 128 × 192 pixels with 8-bit
/// channels: the text `P6\n128 192\n255\n`.
pub open spec fn tile_view_ppm_header() -> Seq<u8> {
    seq![
        0x50u8, 0x36, 0x0A, 0x31, 0x32, 0x38, 0x20, 0x31, 0x39, 0x32, 0x0A, 0x32, 0x35, 0x35, 0x0A,
    ]
}

/// The tile-viewer image as a binary PPM file: the header, then RGB bytes
/// row by row, showing VRAM tile data 0–383 laid out 16 tiles wide and 24
/// tall, in greys through the BGP palette `bgp`.
pub fn tile_viewer_ppm(vram: &[u8], bgp: u8) -> (rgb: Vec<u8>)
    requires
        vram@.len() >= 384 * 16,
    ensures
        rgb@.len() == 15 + 3 * TILE_VIEW_WIDTH * TILE_VIEW_HEIGHT,
        rgb@.take(15) == tile_view_ppm_header(),
        forall|y: int, x: int, c: int|
            0 <= y < 192 && 0 <= x < 128 && 0 <= c < 3 ==> #[trigger] rgb@[15 + 384 * y + 3 * x + c]
                == tile_view_grey(vram@, bgp, x, y),
{
    let mut rgb: Vec<u8> = vec![
        0x50u8, 0x36, 0x0A, 0x31, 0x32, 0x38, 0x20, 0x31, 0x39, 0x32, 0x0A, 0x32, 0x35, 0x35, 0x0A,
    ];
    assert(rgb@.take(15) =~= tile_view_ppm_header());
    let mut y: usize = 0;
    while y < TILE_VIEW_HEIGHT
        invariant
            y <= 192,
            vram@.len() >= 384 * 16,
            rgb@.len() == 15 + 384 * y,
            rgb@.take(15) == tile_view_ppm_header(),
            forall|yy: int, xx: int, c: int|
                0 <= yy < y && 0 <= xx < 128 && 0 <= c < 3 ==> #[trigger] rgb@[15 + 384 * yy + 3 * xx + c]
                    == tile_view_grey(vram@, bgp, xx, yy),
        decreases 192 - y,
    {
        let mut x: usize = 0;
        while x < TILE_VIEW_WIDTH
            invariant
                y < 192,
                x <= 128,
                vram@.len() >= 384 * 16,
                rgb@.len() == 15 + 384 * y + 3 * x,
                rgb@.take(15) == tile_view_ppm_header(),
                forall|yy: int, xx: int, c: int|
                    0 <= c < 3 && ((0 <= yy < y && 0 <= xx < 128) || (yy == y && 0 <= xx < x))
                        ==> #[trigger] rgb@[15 + 384 * yy + 3 * xx + c] == tile_view_grey(vram@, bgp, xx, yy),
            decreases 128 - x,
        {
            let tile = (y / 8) * 16 + x / 8;
            let base = tile * 16 + (y % 8) * 2;
            let lo = vram[base];
            let hi = vram[base + 1];
            let bit: u8 = 7 - (x % 8) as u8;
            let color = (((hi >> bit) & 1) << 1) | ((lo >> bit) & 1);
            proof {
                crate::bits::lemma_pixel_bits(lo, hi, bit, 0, 0);
            }
            let shade = (bgp >> (color * 2)) & 0x03;
            proof {
                crate::bits::lemma_pixel_bits(0, 0, 0, bgp, color);
            }
            let grey = shade_to_grey(shade);
            assert(grey == tile_view_grey(vram@, bgp, x as int, y as int));
            let ghost before = rgb@;
            rgb.push(grey);
            rgb.push(grey);
            rgb.push(grey);
            assert(rgb@.take(15) =~= before.take(15));
            assert forall|yy: int, xx: int, c: int|
                0 <= c < 3 && ((0 <= yy < y && 0 <= xx < 128) || (yy == y && 0 <= xx < x + 1))
                    implies #[trigger] rgb@[15 + 384 * yy + 3 * xx + c] == tile_view_grey(vram@, bgp, xx, yy) by {
                if yy == y && xx == x {
                    assert(rgb@[15 + 384 * yy + 3 * xx + c] == grey);
                } else {
                    assert(15 + 384 * yy + 3 * xx + c < before.len());
                    assert(rgb@[15 + 384 * yy + 3 * xx + c] == before[15 + 384 * yy + 3 * xx + c]);
                }
            }
            x += 1;
        }
        y += 1;
    }
    rgb
}

/// Which tile row a sprite shows on line `ly`: a sprite whose rows cover
/// `ly` shows its row `r = ly + 16 − y`, counted from its top, or row
/// `height − 1 − r` when flipped vertically (flag bit 6). In 8×16 mode
/// (LCDC bit 2) rows 0–7 come from the even tile `tile & 0xFE` and rows
/// 8–15 from the next one; a tile's rows are 2 bytes each from
/// `0x8000 + 16 × tile`.
pub proof fn lemma_sprite_row_address(lcdc: u8, ly: u8, s: Sprite)
    requires
        s.y <= ly + 16 < s.y + (if lcdc & 0x04 != 0 { 16int } else { 8 }),
    ensures
        ({
            let h: int = if lcdc & 0x04 != 0 { 16 } else { 8 };
            let r: int = ly + 16 - s.y;
            let row: int = if s.flags & 0x40 != 0 { h - 1 - r } else { r };
            let tile: int = if h == 16 {
                if row < 8 { (s.tile & 0xFE) as int } else { ((s.tile & 0xFE) | 0x01) as int }
            } else {
                s.tile as int
            };
            sprite_row_addr(lcdc, ly, s) == 0x8000 + 16 * tile + 2 * (row % 8)
        }),
{
}

/// Background and window tile data addressing: with LCDC bit 4 set, tile
/// `t` starts at `0x8000 + 16 × t`; with it clear, `t` is a signed number
/// (−128 to 127) and the tile starts at `0x9000 + 16 × t`.
pub proof fn lemma_tile_data_addressing(lcdc: u8, t: u8)
    ensures
        lcdc & 0x10 != 0 ==> tile_data_base(lcdc, t) == 0x8000 + 16 * t,
        lcdc & 0x10 == 0 ==> tile_data_base(lcdc, t) == 0x9000 + 16 * (if t < 128 {
            t as int
        } else {
            t - 256
        }),
{
}

/// A palette register holds four 2-bit shades, color 0 in bits 1–0 up to
/// color 3 in bits 7–6: color `c` shows shade `(palette / 4^c) % 4`.
pub proof fn lemma_palette_lookup(palette: u8)
    ensures
        palette_shade(palette, 0) == palette % 4,
        palette_shade(palette, 1) == (palette / 4) % 4,
        palette_shade(palette, 2) == (palette / 16) % 4,
        palette_shade(palette, 3) == (palette / 64) % 4,
{
    assert((palette >> 0u8) & 0x03 == palette % 4 && (palette >> 2u8) & 0x03 == (palette / 4) % 4
        && (palette >> 4u8) & 0x03 == (palette / 16) % 4 && (palette >> 6u8) & 0x03 == (palette / 64) % 4)
        by (bit_vector);
}

} // verus!
