//! The pixel processing unit: the scanline mode machine driven off the STAT
//! register, the OAM sprite scan, the background and sprite fetchers with
//! their eight-pixel FIFOs, pixel mixing, and the 160x144 grayscale
//! framebuffer.

use std::collections::VecDeque;

use vstd::prelude::*;

use crate::memory::{mem_read, mem_wf, mem_write, Address, MemModel, Memory};
use crate::util;
use crate::util::{wrap_add16, wrap_sub16};

verus! {

pub const DOTS_PER_OAM_SCAN: usize = 80;

pub const DOTS_PER_SCANLINE: usize = 456;

pub const SCANLINES_PER_FRAME: usize = 153;

pub const SCANLINES_PER_VERTICAL_BLANK: usize = 10;

pub const PIXELS_PER_SCANLINE: u8 = 160;

pub const ADDRESS_INTERRUPT_FLAG_REGISTER: u16 = 0xFF0F;

pub const ADDRESS_LCDC_REGISTER: u16 = 0xFF40;

pub const ADDRESS_LCD_STATUS_REGISTER: u16 = 0xFF41;

pub const ADDRESS_SCY: u16 = 0xFF42;

pub const ADDRESS_SCX: u16 = 0xFF43;

pub const ADDRESS_LY: u16 = 0xFF44;

pub const ADDRESS_LYC: u16 = 0xFF45;

pub const ADDRESS_WY: u16 = 0xFF4A;

pub const ADDRESS_WX: u16 = 0xFF4B;

/// Where background and window tile data is addressed from: the unsigned
/// base at 0x8000, or the signed indexing around 0x9000 selected by the
/// 0x8800 area.
#[derive(Clone, Copy, PartialEq, Eq, Structural, Debug)]
pub enum BgWindowTileArea {
    Area8000,
    Area8800,
}

/// Which 32x32 tile map a fetcher walks.
#[derive(Clone, Copy, PartialEq, Eq, Structural, Debug)]
pub enum TileMapArea {
    Area9800,
    Area9C00,
}

pub open spec fn spec_tile_map_base(a: TileMapArea) -> u16 {
    match a {
        TileMapArea::Area9800 => 0x9800,
        TileMapArea::Area9C00 => 0x9C00,
    }
}

/// The four scanline modes stored in bits 0-1 of STAT.
#[derive(Clone, Copy, PartialEq, Eq, Structural, Debug)]
pub enum PpuMode {
    HorizontalBlank,
    VerticalBlank,
    OamScan,
    Drawing,
}

pub open spec fn spec_mode_bits(mode: PpuMode) -> u8 {
    match mode {
        PpuMode::HorizontalBlank => 0,
        PpuMode::VerticalBlank => 1,
        PpuMode::OamScan => 2,
        PpuMode::Drawing => 3,
    }
}

/// The palette a pixel is looked up through.
#[derive(Clone, Copy, PartialEq, Eq, Structural, Debug)]
pub enum Palette {
    Bgp,
    Obp0,
    Obp1,
}

/// Whether a sprite pixel stands above the background or yields to its
/// non-zero colours.
#[derive(Clone, Copy, PartialEq, Eq, Structural, Debug)]
pub enum ObjectBackgroundPriority {
    Object,
    Background,
}

/// Sprite heights: 8 or 16 rows.
#[derive(Clone, Copy, PartialEq, Eq, Structural, Debug)]
pub enum SpriteHeight {
    Normal,
    Tall,
}

pub open spec fn spec_sprite_height(h: SpriteHeight) -> u8 {
    match h {
        SpriteHeight::Normal => 8,
        SpriteHeight::Tall => 16,
    }
}

/// The attribute byte of an OAM entry, unpacked.
#[derive(Clone, Copy, PartialEq, Eq, Structural, Debug)]
pub struct SpriteFlags {
    pub priority: ObjectBackgroundPriority,
    pub y_flip: bool,
    pub x_flip: bool,
    pub palette: bool,
}

impl SpriteFlags {
    /// Unpacks an OAM attribute byte: bit 7 priority, bit 6 y-flip, bit 5
    /// x-flip, bit 4 palette select.
    pub fn from_byte(item: u8) -> (r: SpriteFlags)
        ensures
            r == spec_sprite_flags(item),
    {
        SpriteFlags {
            priority: if item & 0x80 == 0 {
                ObjectBackgroundPriority::Object
            } else {
                ObjectBackgroundPriority::Background
            },
            y_flip: item & 0x40 != 0,
            x_flip: item & 0x20 != 0,
            palette: item & 0x10 != 0,
        }
    }
}

pub open spec fn spec_sprite_flags(item: u8) -> SpriteFlags {
    SpriteFlags {
        priority: if item & 0x80 == 0 {
            ObjectBackgroundPriority::Object
        } else {
            ObjectBackgroundPriority::Background
        },
        y_flip: item & 0x40 != 0,
        x_flip: item & 0x20 != 0,
        palette: item & 0x10 != 0,
    }
}

/// One OAM record: screen position (offset by 16 and 8), tile index and
/// attributes.
#[derive(Clone, Copy, PartialEq, Eq, Structural, Debug)]
pub struct Sprite {
    pub y_position: u8,
    pub x_position: u8,
    pub tile_number: u8,
    pub flags: SpriteFlags,
}

impl Sprite {
    /// Builds a sprite from its four OAM bytes.
    pub fn from_bytes(y: u8, x: u8, tile: u8, flags: u8) -> (r: Sprite)
        ensures
            r == (Sprite {
                y_position: y,
                x_position: x,
                tile_number: tile,
                flags: spec_sprite_flags(flags),
            }),
    {
        Sprite { y_position: y, x_position: x, tile_number: tile, flags: SpriteFlags::from_byte(flags) }
    }

    /// Whether this sprite covers scanline `ly`: its x is on screen and
    /// `ly + 16` falls inside its vertical extent.
    pub fn visible(&self, ly: u8, height: SpriteHeight) -> (r: bool)
        ensures
            r == (self.x_position > 0 && self.y_position <= ly + 16 && self.y_position
                + spec_sprite_height(height) > ly + 16),
    {
        let h: u16 = match height {
            SpriteHeight::Normal => 8,
            SpriteHeight::Tall => 16,
        };
        self.x_position > 0 && self.y_position as u16 <= ly as u16 + 16 && self.y_position as u16
            + h > ly as u16 + 16
    }
}

/// One of the four shades a 2-bit colour index maps to.
#[derive(Clone, Copy, PartialEq, Eq, Structural, Debug)]
pub enum PixelColour {
    White,
    LightGray,
    DarkGray,
    Black,
}

/// The shade of a colour index 0 to 3.
pub open spec fn spec_colour(index: u8) -> PixelColour {
    if index == 0 {
        PixelColour::White
    } else if index == 1 {
        PixelColour::LightGray
    } else if index == 2 {
        PixelColour::DarkGray
    } else {
        PixelColour::Black
    }
}

/// The grayscale byte a shade renders to.
pub open spec fn spec_grayscale(c: PixelColour) -> u8 {
    match c {
        PixelColour::White => 255,
        PixelColour::LightGray => 211,
        PixelColour::DarkGray => 169,
        PixelColour::Black => 0,
    }
}

impl PixelColour {
    /// The shade of a 2-bit colour index; indices past 3 are rejected.
    pub fn try_from(item: u8) -> (r: Result<PixelColour, ()>)
        ensures
            item <= 3 ==> r == Ok::<PixelColour, ()>(spec_colour(item)),
            item > 3 ==> r is Err,
    {
        match item {
            0 => Ok(PixelColour::White),
            1 => Ok(PixelColour::LightGray),
            2 => Ok(PixelColour::DarkGray),
            3 => Ok(PixelColour::Black),
            _ => Err(()),
        }
    }

    pub fn to_grayscale(&self) -> (r: u8)
        ensures
            r == spec_grayscale(*self),
    {
        match self {
            PixelColour::White => 255,
            PixelColour::LightGray => 211,
            PixelColour::DarkGray => 169,
            PixelColour::Black => 0,
        }
    }
}

/// The 2-bit colour index of pixel `k` (left to right) of a tile row held in
/// a high-bit byte and a low-bit byte: bit `7 - k` of the high byte is the
/// index's bit 1 and bit `7 - k` of the low byte its bit 0.
pub open spec fn spec_colour_index(high: u8, low: u8, k: int) -> u8 {
    (2 * ((high >> ((7 - k) as u8)) & 1) + ((low >> ((7 - k) as u8)) & 1)) as u8
}

/// Decodes one tile row into its eight shades. The first byte carries each
/// pixel's low colour bit, the second its high bit, bit 7 leftmost.
pub fn line_bytes_to_pixel_colours(first_byte: u8, second_byte: u8) -> (r: Vec<PixelColour>)
    ensures
        r@.len() == 8,
        forall|k: int|
            0 <= k < 8 ==> r@[k] == spec_colour(spec_colour_index(second_byte, first_byte, k)),
{
    let mut pixels: Vec<PixelColour> = Vec::new();
    let mut i: usize = 0;
    while i < 8
        invariant
            i <= 8,
            pixels@.len() == i,
            forall|k: int|
                0 <= k < i ==> pixels@[k] == spec_colour(
                    spec_colour_index(second_byte, first_byte, k),
                ),
        decreases 8 - i,
    {
        let b: u8 = (7 - i) as u8;
        let lsb = (first_byte >> b) & 1;
        let msb = (second_byte >> b) & 1;
        proof {
            util::lemma_bit_below_two(first_byte, b);
            util::lemma_bit_below_two(second_byte, b);
        }
        let index: u8 = 2 * msb + lsb;
        let colour = match PixelColour::try_from(index) {
            Ok(c) => c,
            Err(_) => PixelColour::White,
        };
        pixels.push(colour);
        i += 1;
    }
    pixels
}

/// A pixel queued in a FIFO: its colour index shade, the palette it will be
/// looked up through, and its priority.
#[derive(Clone, Copy, PartialEq, Eq, Structural, Debug)]
pub struct Pixel {
    pub colour: PixelColour,
    pub palette: Palette,
    pub priority: ObjectBackgroundPriority,
}

/// How a sprite pixel and a background pixel merge: a transparent (colour 0)
/// sprite pixel yields; a background-priority sprite pixel yields to any
/// non-zero background colour; otherwise the sprite pixel wins.
pub open spec fn spec_mix(background_pixel: Pixel, sprite_pixel: Pixel) -> Pixel {
    if sprite_pixel.colour == PixelColour::White {
        background_pixel
    } else if sprite_pixel.priority == ObjectBackgroundPriority::Background {
        if background_pixel.colour == PixelColour::White {
            sprite_pixel
        } else {
            background_pixel
        }
    } else {
        sprite_pixel
    }
}

impl Pixel {
    /// Resolves one background pixel against one sprite pixel.
    pub fn mix(background_pixel: Pixel, sprite_pixel: Pixel) -> (r: Pixel)
        ensures
            r == spec_mix(background_pixel, sprite_pixel),
    {
        if let PixelColour::White = sprite_pixel.colour {
            return background_pixel;
        }
        if let ObjectBackgroundPriority::Background = sprite_pixel.priority {
            return match background_pixel.colour {
                PixelColour::White => sprite_pixel,
                _ => background_pixel,
            };
        }
        sprite_pixel
    }
}

/// Reads the LCDC tile-map selector for the window (bit 6).
pub fn read_window_tile_map_area(memory: &Memory) -> (r: TileMapArea)
    requires
        mem_wf(memory@),
    ensures
        r == spec_window_tile_map_area(memory@),
{
    if memory.read(Address(ADDRESS_LCDC_REGISTER)) & 0x40 == 0 {
        TileMapArea::Area9800
    } else {
        TileMapArea::Area9C00
    }
}

pub open spec fn spec_window_tile_map_area(m: MemModel) -> TileMapArea {
    if mem_read(m, ADDRESS_LCDC_REGISTER) & 0x40 == 0 {
        TileMapArea::Area9800
    } else {
        TileMapArea::Area9C00
    }
}

/// Reads the LCDC window-enable bit (bit 5).
pub fn read_window_enabled(memory: &Memory) -> (r: bool)
    requires
        mem_wf(memory@),
    ensures
        r == spec_window_enabled(memory@),
{
    memory.read(Address(ADDRESS_LCDC_REGISTER)) & 0x20 != 0
}

pub open spec fn spec_window_enabled(m: MemModel) -> bool {
    mem_read(m, ADDRESS_LCDC_REGISTER) & 0x20 != 0
}

/// Reads the LCDC tile-data selector for background and window (bit 4).
pub fn read_bg_window_tile_area(memory: &Memory) -> (r: BgWindowTileArea)
    requires
        mem_wf(memory@),
    ensures
        r == spec_bg_window_tile_area(memory@),
{
    if memory.read(Address(ADDRESS_LCDC_REGISTER)) & 0x10 == 0 {
        BgWindowTileArea::Area8800
    } else {
        BgWindowTileArea::Area8000
    }
}

pub open spec fn spec_bg_window_tile_area(m: MemModel) -> BgWindowTileArea {
    if mem_read(m, ADDRESS_LCDC_REGISTER) & 0x10 == 0 {
        BgWindowTileArea::Area8800
    } else {
        BgWindowTileArea::Area8000
    }
}

/// Reads the LCDC tile-map selector for the background (bit 3).
pub fn read_bg_tile_map_area(memory: &Memory) -> (r: TileMapArea)
    requires
        mem_wf(memory@),
    ensures
        r == spec_bg_tile_map_area(memory@),
{
    if memory.read(Address(ADDRESS_LCDC_REGISTER)) & 0x08 == 0 {
        TileMapArea::Area9800
    } else {
        TileMapArea::Area9C00
    }
}

pub open spec fn spec_bg_tile_map_area(m: MemModel) -> TileMapArea {
    if mem_read(m, ADDRESS_LCDC_REGISTER) & 0x08 == 0 {
        TileMapArea::Area9800
    } else {
        TileMapArea::Area9C00
    }
}

/// Reads the LCDC background/window enable bit (bit 0).
pub fn read_bg_window_enable(memory: &Memory) -> (r: bool)
    requires
        mem_wf(memory@),
    ensures
        r == (mem_read(memory@, ADDRESS_LCDC_REGISTER) & 0x01 != 0),
{
    memory.read(Address(ADDRESS_LCDC_REGISTER)) & 0x01 != 0
}

/// Reads the scanline mode from bits 0-1 of STAT.
pub fn read_ppu_mode(memory: &Memory) -> (r: PpuMode)
    requires
        mem_wf(memory@),
    ensures
        r == spec_ppu_mode(memory@),
{
    let lcd_status_register = memory.read(Address(ADDRESS_LCD_STATUS_REGISTER));
    let msb = lcd_status_register & 0x02;
    let lsb = lcd_status_register & 0x01;
    match (msb == 0, lsb == 0) {
        (true, true) => PpuMode::HorizontalBlank,
        (true, false) => PpuMode::VerticalBlank,
        (false, true) => PpuMode::OamScan,
        (false, false) => PpuMode::Drawing,
    }
}

pub open spec fn spec_ppu_mode(m: MemModel) -> PpuMode {
    let s = mem_read(m, ADDRESS_LCD_STATUS_REGISTER);
    if s & 0x02 == 0 && s & 0x01 == 0 {
        PpuMode::HorizontalBlank
    } else if s & 0x02 == 0 {
        PpuMode::VerticalBlank
    } else if s & 0x01 == 0 {
        PpuMode::OamScan
    } else {
        PpuMode::Drawing
    }
}

/// The bus after latching the VBlank request: bit 0 of IF set.
pub open spec fn spec_request_vblank(m: MemModel) -> MemModel {
    mem_write(
        m,
        ADDRESS_INTERRUPT_FLAG_REGISTER,
        (mem_read(m, ADDRESS_INTERRUPT_FLAG_REGISTER) & !0x01u8) | 0x01,
    )
}

/// Latches the VBlank interrupt request into bit 0 of IF.
pub fn request_vblank_interrupt(memory: &mut Memory)
    requires
        mem_wf(old(memory)@),
    ensures
        mem_wf(final(memory)@),
        final(memory)@ == spec_request_vblank(old(memory)@),
{
    let status_register = memory.read(Address(ADDRESS_INTERRUPT_FLAG_REGISTER));
    memory.write(
        Address(ADDRESS_INTERRUPT_FLAG_REGISTER),
        (status_register & !0x01u8) | 0x01,
    );
}

/// While the bus is not mid-DMA, a VBlank request leaves bit 0 of IF set.
pub proof fn lemma_vblank_request_sets_if(m: MemModel)
    requires
        mem_wf(m),
        !crate::memory::mem_dma_active(m),
    ensures
        mem_read(spec_request_vblank(m), ADDRESS_INTERRUPT_FLAG_REGISTER) & 0x01 != 0,
{
    let v = (mem_read(m, ADDRESS_INTERRUPT_FLAG_REGISTER) & !0x01u8) | 0x01;
    assert(v & 0x01 != 0) by {
        let x = mem_read(m, ADDRESS_INTERRUPT_FLAG_REGISTER);
        assert(((x & !0x01u8) | 0x01) & 0x01 != 0) by (bit_vector);
    };
}

/// The bus after updating the LY = LYC coincidence flag in bit 2 of STAT.
pub open spec fn spec_write_coincidence(m: MemModel, enabled: bool) -> MemModel {
    mem_write(
        m,
        ADDRESS_LCD_STATUS_REGISTER,
        (mem_read(m, ADDRESS_LCD_STATUS_REGISTER) & !0x04u8) | (if enabled {
            0x04u8
        } else {
            0u8
        }),
    )
}

/// Stores the LY = LYC coincidence flag into bit 2 of STAT.
pub fn write_coincidence_flag(memory: &mut Memory, enabled: bool)
    requires
        mem_wf(old(memory)@),
    ensures
        mem_wf(final(memory)@),
        final(memory)@ == spec_write_coincidence(old(memory)@, enabled),
{
    let status_register = memory.read(Address(ADDRESS_LCD_STATUS_REGISTER));
    let flag: u8 = if enabled {
        0x04
    } else {
        0
    };
    memory.write(Address(ADDRESS_LCD_STATUS_REGISTER), (status_register & !0x04u8) | flag);
}

/// The bus after storing a scanline mode into bits 0-1 of STAT.
pub open spec fn spec_write_ppu_mode(m: MemModel, mode: PpuMode) -> MemModel {
    mem_write(
        m,
        ADDRESS_LCD_STATUS_REGISTER,
        (mem_read(m, ADDRESS_LCD_STATUS_REGISTER) & !0x03u8) | spec_mode_bits(mode),
    )
}

/// Stores a scanline mode into bits 0-1 of STAT.
pub fn write_ppu_mode(memory: &mut Memory, ppu_mode: PpuMode)
    requires
        mem_wf(old(memory)@),
    ensures
        mem_wf(final(memory)@),
        final(memory)@ == spec_write_ppu_mode(old(memory)@, ppu_mode),
{
    let status_register = memory.read(Address(ADDRESS_LCD_STATUS_REGISTER));
    let bits: u8 = match ppu_mode {
        PpuMode::HorizontalBlank => 0,
        PpuMode::VerticalBlank => 1,
        PpuMode::OamScan => 2,
        PpuMode::Drawing => 3,
    };
    memory.write(Address(ADDRESS_LCD_STATUS_REGISTER), (status_register & !0x03u8) | bits);
}

/// The address of one row of tile data: the 0x8000 area indexes tiles
/// unsigned; the 0x8800 area indexes them as signed offsets around 0x9000.
/// `row_offset` is the byte offset of the row inside the tile (twice the
/// fine y).
pub open spec fn spec_tile_data_address(
    tile_data_area: BgWindowTileArea,
    tile_number: u8,
    row_offset: u16,
) -> u16 {
    match tile_data_area {
        BgWindowTileArea::Area8000 => (0x8000 + tile_number * 16 + row_offset) as u16,
        BgWindowTileArea::Area8800 => if tile_number < 128 {
            (0x9000 + tile_number * 16 + row_offset) as u16
        } else {
            (0x8000 + tile_number * 16 + row_offset) as u16
        },
    }
}

/// The row of tile data a background fetch reads for scanline `ly` under
/// vertical scroll `scy`: fine y is `(ly + scy) mod 8`, two bytes per row.
pub fn fetch_non_window_tile_data_address(
    tile_data_area: BgWindowTileArea,
    tile_number: u8,
    ly: u16,
    scy: u16,
) -> (r: u16)
    requires
        ly <= 0xFF,
        scy <= 0xFF,
    ensures
        r == spec_tile_data_address(tile_data_area, tile_number, (((ly + scy) % 8) * 2) as u16),
{
    let tile_byte_offset: u16 = ((ly + scy) % 8) * 2;
    tile_data_address(tile_data_area, tile_number, tile_byte_offset)
}

/// The row of tile data a window fetch reads on window line `window_line`.
pub fn fetch_window_tile_data_address(
    tile_data_area: BgWindowTileArea,
    tile_number: u8,
    window_line: u8,
) -> (r: u16)
    ensures
        r == spec_tile_data_address(
            tile_data_area,
            tile_number,
            ((window_line % 8) * 2) as u16,
        ),
{
    tile_data_address(tile_data_area, tile_number, (window_line % 8) as u16 * 2)
}

/// Resolves a tile index against a data area, signed for the 0x8800 area.
fn tile_data_address(tile_data_area: BgWindowTileArea, tile_number: u8, row_offset: u16) -> (r:
    u16)
    requires
        row_offset < 16,
    ensures
        r == spec_tile_data_address(tile_data_area, tile_number, row_offset),
{
    let tile_offset: u16 = tile_number as u16 * 16;
    match tile_data_area {
        BgWindowTileArea::Area8000 => 0x8000 + tile_offset + row_offset,
        BgWindowTileArea::Area8800 => if tile_number < 128 {
            0x9000 + tile_offset + row_offset
        } else {
            0x8000 + tile_offset + row_offset
        },
    }
}

// ---------------------------------------------------------------------------
// Fetchers
// ---------------------------------------------------------------------------

/// The five-step fetch pipeline both fetchers run: parked, reading the tile
/// number, reading the low then the high tile-data byte (carrying what has
/// been read so far), and holding a fetched tile row (low byte, high byte)
/// ready to decode and push.
#[derive(Clone, Copy, PartialEq, Eq, Structural, Debug)]
pub enum FetchStep {
    Paused,
    FetchTileNumber,
    FetchTileLow(u8),
    FetchTileHigh(u16, u8),
    Push(u8, u8),
}

/// The tile-map cell a background fetch reads its tile number from: the
/// window map when the window is enabled and reached, else the background
/// map, at the row selected by LY + SCY and the column by the fetcher's x
/// plus the coarse scroll.
pub open spec fn spec_bg_tile_number_address(m: MemModel, fetcher_x: u8, scanline_x: u8) -> u16 {
    let ly = mem_read(m, ADDRESS_LY) as u16;
    let scy = mem_read(m, ADDRESS_SCY) as u16;
    let scx = mem_read(m, ADDRESS_SCX) as u16;
    let wy = mem_read(m, ADDRESS_WY) as u16;
    let wx = mem_read(m, ADDRESS_WX) as u16;
    let is_window = spec_window_enabled(m) && scanline_x as u16 >= wrap_sub16(wx, 7) && ly >= wy;
    let map = if is_window {
        spec_window_tile_map_area(m)
    } else {
        spec_bg_tile_map_area(m)
    };
    let y_offset = 32 * (((ly + scy) % 256) / 8);
    let x_offset = (fetcher_x + scx / 8) % 32;
    (spec_tile_map_base(map) + y_offset + x_offset) as u16
}

/// The byte offset inside a tile of the two-byte row that scanline `ly`
/// reads under vertical scroll `scy`.
pub open spec fn spec_row_offset(m: MemModel) -> u16 {
    (((mem_read(m, ADDRESS_LY) + mem_read(m, ADDRESS_SCY)) % 8) * 2) as u16
}

/// The background fetcher's state as mathematical values.
#[verifier::ext_equal]
pub ghost struct BgFetcherModel {
    pub x_position: u8,
    pub fetch_step: FetchStep,
    pub fifo: Seq<Pixel>,
}

/// The sprite fetcher's state as mathematical values.
#[verifier::ext_equal]
pub ghost struct SpriteFetcherModel {
    pub fetch_step: FetchStep,
    pub fifo: Seq<Pixel>,
    pub sprite: Option<Sprite>,
}

/// One dot of the background pipeline over the model: advance one pipeline
/// step; the push step waits for an empty FIFO, then queues one decoded tile
/// row as background pixels and moves one tile to the right.
pub open spec fn spec_bg_fetcher_step(m: MemModel, f: BgFetcherModel, scanline_x: u8) -> BgFetcherModel {
    match f.fetch_step {
        FetchStep::Paused => f,
        FetchStep::FetchTileNumber => BgFetcherModel {
            fetch_step: FetchStep::FetchTileLow(
                mem_read(m, spec_bg_tile_number_address(m, f.x_position, scanline_x)),
            ),
            ..f
        },
        FetchStep::FetchTileLow(tile_number) => {
            let addr = spec_tile_data_address(
                spec_bg_window_tile_area(m),
                tile_number,
                spec_row_offset(m),
            );
            BgFetcherModel { fetch_step: FetchStep::FetchTileHigh(addr, mem_read(m, addr)), ..f }
        },
        FetchStep::FetchTileHigh(addr, low) => BgFetcherModel {
            fetch_step: FetchStep::Push(low, mem_read(m, wrap_add16(addr, 1))),
            ..f
        },
        FetchStep::Push(low, high) => if f.fifo.len() == 0 {
            BgFetcherModel {
                x_position: ((f.x_position + 1) % 32) as u8,
                fetch_step: FetchStep::FetchTileNumber,
                fifo: Seq::new(
                    8,
                    |k: int|
                        Pixel {
                            colour: spec_colour(spec_colour_index(high, low, k)),
                            palette: Palette::Bgp,
                            priority: ObjectBackgroundPriority::Background,
                        },
                ),
            }
        } else {
            f
        },
    }
}

/// The object palette a sprite's pixels are looked up through, named by its
/// palette-select flag.
pub open spec fn spec_sprite_palette(s: Sprite) -> Palette {
    if s.flags.palette {
        Palette::Obp1
    } else {
        Palette::Obp0
    }
}

/// One dot of the sprite pipeline over the model. Sprite tiles come from
/// the 0x8000 area; the push step appends at most `sprite.x - current x`
/// pixels (computed wrapping), truncated to the FIFO's room, and parks.
pub open spec fn spec_sprite_fetcher_step(m: MemModel, f: SpriteFetcherModel, ppu_x: u8) -> SpriteFetcherModel {
    match f.fetch_step {
        FetchStep::Paused => f,
        FetchStep::FetchTileNumber => SpriteFetcherModel {
            fetch_step: FetchStep::FetchTileLow(f.sprite->0.tile_number),
            ..f
        },
        FetchStep::FetchTileLow(tile_number) => {
            let addr = spec_tile_data_address(
                BgWindowTileArea::Area8000,
                tile_number,
                spec_row_offset(m),
            );
            SpriteFetcherModel {
                fetch_step: FetchStep::FetchTileHigh(addr, mem_read(m, addr)),
                ..f
            }
        },
        FetchStep::FetchTileHigh(addr, low) => SpriteFetcherModel {
            fetch_step: FetchStep::Push(low, mem_read(m, wrap_add16(addr, 1))),
            ..f
        },
        FetchStep::Push(low, high) => {
            let sprite = f.sprite->0;
            let visible = util::wrap_sub8(sprite.x_position, ppu_x) as int;
            let room = 8 - f.fifo.len();
            let count = if visible <= room {
                visible
            } else {
                room as int
            };
            SpriteFetcherModel {
                fetch_step: FetchStep::Paused,
                fifo: f.fifo + Seq::new(
                    count as nat,
                    |k: int|
                        Pixel {
                            colour: spec_colour(spec_colour_index(high, low, k)),
                            palette: spec_sprite_palette(sprite),
                            priority: sprite.flags.priority,
                        },
                ),
                ..f
            }
        },
    }
}

/// The background fetcher: its coarse x inside the tile map, its pipeline
/// state, and the background FIFO it pushes into.
pub struct BackgroundFetcher {
    pub x_position: u8,
    pub fetch_step: FetchStep,
    pub fifo: VecDeque<Pixel>,
}

impl BackgroundFetcher {
    /// The FIFO never exceeds eight pixels.
    pub open spec fn wf(&self) -> bool {
        self.fifo@.len() <= 8
    }

    /// This fetcher's state as mathematical values.
    pub open spec fn model(&self) -> BgFetcherModel {
        BgFetcherModel {
            x_position: self.x_position,
            fetch_step: self.fetch_step,
            fifo: self.fifo@,
        }
    }

    pub fn paused(&self) -> (r: bool)
        ensures
            r == (self.fetch_step is Paused),
    {
        match self.fetch_step {
            FetchStep::Paused => true,
            _ => false,
        }
    }

    /// Rewinds the pipeline to the start of a scanline; the FIFO is cleared
    /// separately.
    pub fn reset(&mut self)
        ensures
            final(self).x_position == 0,
            final(self).fetch_step == FetchStep::FetchTileNumber,
            final(self).fifo == old(self).fifo,
    {
        self.x_position = 0;
        self.fetch_step = FetchStep::FetchTileNumber;
    }

    /// One dot of the background pipeline: each call advances one pipeline
    /// step; the push step waits until the FIFO is empty, then queues one
    /// decoded tile row as background-palette pixels and moves the fetcher
    /// one tile to the right.
    pub fn step(&mut self, memory: &Memory, scanline_x_position: u8)
        requires
            old(self).wf(),
            mem_wf(memory@),
        ensures
            final(self).wf(),
            final(self).model() == spec_bg_fetcher_step(
                memory@,
                old(self).model(),
                scanline_x_position,
            ),
    {
        let ly = memory.read(Address(ADDRESS_LY));
        let scy = memory.read(Address(ADDRESS_SCY));
        let scx = memory.read(Address(ADDRESS_SCX));
        let wy = memory.read(Address(ADDRESS_WY));
        let wx = memory.read(Address(ADDRESS_WX));
        let tile_data_area = read_bg_window_tile_area(memory);
        match self.fetch_step {
            FetchStep::Paused => {},
            FetchStep::FetchTileNumber => {
                let is_window_tile = read_window_enabled(memory) && scanline_x_position as u16
                    >= util::sub16(wx as u16, 7) && ly >= wy;
                let tile_map_area = if is_window_tile {
                    read_window_tile_map_area(memory)
                } else {
                    read_bg_tile_map_area(memory)
                };
                let map_base: u16 = match tile_map_area {
                    TileMapArea::Area9800 => 0x9800,
                    TileMapArea::Area9C00 => 0x9C00,
                };
                let y_offset: u16 = 32 * (((ly as u16 + scy as u16) % 256) / 8);
                let x_offset: u16 = (self.x_position as u16 + scx as u16 / 8) % 32;
                let tile_number_address = map_base + y_offset + x_offset;
                let tile_number = memory.read(Address(tile_number_address));
                self.fetch_step = FetchStep::FetchTileLow(tile_number);
            },
            FetchStep::FetchTileLow(tile_number) => {
                let address = fetch_non_window_tile_data_address(
                    tile_data_area,
                    tile_number,
                    ly as u16,
                    scy as u16,
                );
                let tile_data_low = memory.read(Address(address));
                self.fetch_step = FetchStep::FetchTileHigh(address, tile_data_low);
            },
            FetchStep::FetchTileHigh(tile_data_low_address, tile_data_low) => {
                let tile_data_high = memory.read(Address(util::add16(tile_data_low_address, 1)));
                self.fetch_step = FetchStep::Push(tile_data_low, tile_data_high);
            },
            FetchStep::Push(tile_data_low, tile_data_high) => {
                if self.fifo.len() == 0 {
                    let pixel_colours = line_bytes_to_pixel_colours(tile_data_low, tile_data_high);
                    let mut j: usize = 0;
                    while j < 8
                        invariant
                            j <= 8,
                            pixel_colours@.len() == 8,
                            forall|k: int|
                                0 <= k < 8 ==> pixel_colours@[k] == spec_colour(
                                    spec_colour_index(tile_data_high, tile_data_low, k),
                                ),
                            self.fifo@.len() == j,
                            self.x_position == old(self).x_position,
                            self.fetch_step == old(self).fetch_step,
                            forall|k: int|
                                0 <= k < j ==> self.fifo@[k] == (Pixel {
                                    colour: spec_colour(
                                        spec_colour_index(tile_data_high, tile_data_low, k),
                                    ),
                                    palette: Palette::Bgp,
                                    priority: ObjectBackgroundPriority::Background,
                                }),
                        decreases 8 - j,
                    {
                        let p = Pixel {
                            colour: pixel_colours[j],
                            palette: Palette::Bgp,
                            priority: ObjectBackgroundPriority::Background,
                        };
                        self.fifo.push_back(p);
                        j += 1;
                    }
                    self.x_position = ((self.x_position as u16 + 1) % 32) as u8;
                    self.fetch_step = FetchStep::FetchTileNumber;
                    proof {
                        assert(self.model() =~= spec_bg_fetcher_step(
                            memory@,
                            old(self).model(),
                            scanline_x_position,
                        ));
                    }
                }
            },
        };
    }
}

/// The sprite fetcher: its pipeline state, the sprite FIFO, and the sprite
/// it is currently loading. Whenever the pipeline is not parked the sprite
/// slot is filled.
pub struct SpriteFetcher {
    pub fetch_step: FetchStep,
    pub fifo: VecDeque<Pixel>,
    pub sprite: Option<Sprite>,
}

impl SpriteFetcher {
    pub open spec fn wf(&self) -> bool {
        &&& self.fifo@.len() <= 8
        &&& (!(self.fetch_step is Paused) ==> self.sprite is Some)
    }

    /// This fetcher's state as mathematical values.
    pub open spec fn model(&self) -> SpriteFetcherModel {
        SpriteFetcherModel {
            fetch_step: self.fetch_step,
            fifo: self.fifo@,
            sprite: self.sprite,
        }
    }

    pub fn paused(&self) -> (r: bool)
        ensures
            r == (self.fetch_step is Paused),
    {
        match self.fetch_step {
            FetchStep::Paused => true,
            _ => false,
        }
    }

    /// Clears the sprite FIFO at a scanline boundary.
    pub fn reset(&mut self)
        ensures
            final(self).fifo@ == Seq::<Pixel>::empty(),
            final(self).fetch_step == old(self).fetch_step,
            final(self).sprite == old(self).sprite,
    {
        self.fifo.clear();
    }

    /// One dot of the sprite pipeline. Sprite tiles always come from the
    /// 0x8000 area. The push step queues at most `sprite.x - current x`
    /// pixels (computed wrapping), truncated to the FIFO's remaining room,
    /// each carrying the sprite's priority and the object palette its
    /// palette-select flag names; afterwards the pipeline parks.
    pub fn step(&mut self, memory: &Memory, ppu_x_position: u8)
        requires
            old(self).wf(),
            mem_wf(memory@),
        ensures
            final(self).wf(),
            final(self).model() == spec_sprite_fetcher_step(
                memory@,
                old(self).model(),
                ppu_x_position,
            ),
    {
        let ly = memory.read(Address(ADDRESS_LY));
        let scy = memory.read(Address(ADDRESS_SCY));
        match self.fetch_step {
            FetchStep::Paused => {},
            FetchStep::FetchTileNumber => {
                let sprite = match self.sprite {
                    Some(s) => s,
                    None => {
                        return ;
                    },
                };
                self.fetch_step = FetchStep::FetchTileLow(sprite.tile_number);
            },
            FetchStep::FetchTileLow(tile_number) => {
                let address = fetch_non_window_tile_data_address(
                    BgWindowTileArea::Area8000,
                    tile_number,
                    ly as u16,
                    scy as u16,
                );
                let tile_data_low = memory.read(Address(address));
                self.fetch_step = FetchStep::FetchTileHigh(address, tile_data_low);
            },
            FetchStep::FetchTileHigh(tile_data_low_address, tile_data_low) => {
                let tile_data_high = memory.read(Address(util::add16(tile_data_low_address, 1)));
                self.fetch_step = FetchStep::Push(tile_data_low, tile_data_high);
            },
            FetchStep::Push(tile_data_low, tile_data_high) => {
                let sprite = match self.sprite {
                    Some(s) => s,
                    None => {
                        return ;
                    },
                };
                let pixel_colours = line_bytes_to_pixel_colours(tile_data_low, tile_data_high);
                let sprite_palette = if sprite.flags.palette {
                    Palette::Obp1
                } else {
                    Palette::Obp0
                };
                let visible_pixel_count = util::sub8(sprite.x_position, ppu_x_position) as usize;
                let room = 8 - self.fifo.len();
                let count = if visible_pixel_count <= room {
                    visible_pixel_count
                } else {
                    room
                };
                let mut j: usize = 0;
                while j < count
                    invariant
                        j <= count,
                        count <= 8 - old(self).fifo@.len(),
                        count <= 8,
                        pixel_colours@.len() == 8,
                        forall|k: int|
                            0 <= k < 8 ==> pixel_colours@[k] == spec_colour(
                                spec_colour_index(tile_data_high, tile_data_low, k),
                            ),
                        self.fifo@.len() == old(self).fifo@.len() + j,
                        self.sprite == old(self).sprite,
                        self.fetch_step == old(self).fetch_step,
                        forall|k: int|
                            0 <= k < old(self).fifo@.len() ==> self.fifo@[k] == old(self).fifo@[k],
                        sprite_palette == spec_sprite_palette(sprite),
                        forall|k: int|
                            0 <= k < j ==> self.fifo@[old(self).fifo@.len() + k] == (Pixel {
                                colour: spec_colour(
                                    spec_colour_index(tile_data_high, tile_data_low, k),
                                ),
                                palette: spec_sprite_palette(sprite),
                                priority: sprite.flags.priority,
                            }),
                    decreases count - j,
                {
                    let p = Pixel {
                        colour: pixel_colours[j],
                        palette: sprite_palette,
                        priority: sprite.flags.priority,
                    };
                    self.fifo.push_back(p);
                    j += 1;
                }
                self.fetch_step = FetchStep::Paused;
                proof {
                    assert(self.model() =~= spec_sprite_fetcher_step(
                        memory@,
                        old(self).model(),
                        ppu_x_position,
                    ));
                }
            },
        }
    }
}

// ---------------------------------------------------------------------------
// The PPU aggregate
// ---------------------------------------------------------------------------

/// A dot counter advance, saturating at the scanline length so that a mode
/// forced from outside cannot run the counter away.
pub open spec fn spec_next_dot(d: usize) -> usize {
    if d < DOTS_PER_SCANLINE {
        (d + 1) as usize
    } else {
        d
    }
}

/// Sorts a sprite buffer by descending x position, so that popping from the
/// back hands out the leftmost sprite first.
fn sort_by_x_descending(sprites: &mut Vec<Sprite>)
    ensures
        final(sprites)@.len() == old(sprites)@.len(),
        final(sprites)@.to_multiset() == old(sprites)@.to_multiset(),
        forall|a: int, b: int|
            0 <= a < b < final(sprites)@.len() ==> final(sprites)@[a].x_position
                >= final(sprites)@[b].x_position,
{
    let n = sprites.len();
    let mut i: usize = 0;
    while i < n
        invariant
            sprites@.len() == n,
            i <= n,
            sprites@.to_multiset() == old(sprites)@.to_multiset(),
            forall|a: int, b: int|
                0 <= a < b < i ==> sprites@[a].x_position >= sprites@[b].x_position,
            forall|a: int, b: int|
                0 <= a < i && i <= b < n ==> sprites@[a].x_position >= sprites@[b].x_position,
        decreases n - i,
    {
        let ghost snap = sprites@;
        let mut k: usize = i;
        let mut j: usize = i + 1;
        while j < n
            invariant
                sprites@ == snap,
                sprites@.len() == n,
                i <= k < n,
                i < j <= n,
                forall|t: int| i <= t < j ==> sprites@[k as int].x_position >= sprites@[t].x_position,
            decreases n - j,
        {
            if sprites[j].x_position > sprites[k].x_position {
                k = j;
            }
            j += 1;
        }
        let si = sprites[i];
        let sk = sprites[k];
        sprites.set(i, sk);
        sprites.set(k, si);
        proof {
            broadcast use vstd::seq_lib::group_to_multiset_ensures;
            assert(sprites@.to_multiset() =~= snap.to_multiset());
        }
        i += 1;
    }
}

/// The OAM record in slot `idx` (four bytes each, forty slots), read raw
/// from the OAM region.
pub open spec fn spec_oam_sprite(m: MemModel, idx: int) -> Sprite {
    Sprite {
        y_position: m.ram[0xFE00 + 4 * idx],
        x_position: m.ram[0xFE00 + 4 * idx + 1],
        tile_number: m.ram[0xFE00 + 4 * idx + 2],
        flags: spec_sprite_flags(m.ram[0xFE00 + 4 * idx + 3]),
    }
}

/// Whether a sprite covers scanline `ly` at the normal eight-row height.
pub open spec fn spec_sprite_covers(s: Sprite, ly: u8) -> bool {
    s.x_position > 0 && s.y_position <= ly + 16 && s.y_position + 8 > ly + 16
}

/// The grayscale of the tile-sheet pixel at output row `oy` and column `ox`
/// of the 96x256 debug view: twelve tiles per row, sixteen bytes per tile,
/// two bytes per tile row.
pub open spec fn spec_tile_pixel(m: MemModel, oy: int, ox: int) -> u8 {
    let t = (oy / 8) * 12 + ox / 8;
    let base = 0x8000 + t * 16 + (oy % 8) * 2;
    spec_grayscale(spec_colour(spec_colour_index(m.ram[base + 1], m.ram[base], ox % 8)))
}

/// The drawing branch of one PPU dot, related over the PPU before (`pre`)
/// and after (`post`) and the bus before (`m`, already holding the
/// coincidence write) and after (`m2`); `ly` is the scanline register as
/// read at the start of the step. A waiting sprite pauses the background
/// fetcher and loads the sprite fetcher; both pipelines advance one step;
/// then, with the sprite pipeline parked, a background pixel (if one is
/// queued) is either discarded against the scroll counter or mixed with the
/// head of the sprite FIFO and written to the framebuffer, and the 160th
/// pixel of a line hands over to horizontal blank.
pub open spec fn drawing_step_rel(pre: Ppu, m: MemModel, ly: u8, post: Ppu, m2: MemModel) -> bool {
    let start_sprite = pre.sprite_fetcher.model().fetch_step is Paused && (exists|k: int|
        0 <= k < pre.sprite_buffer@.len() && #[trigger] pre.sprite_buffer@[k].x_position
            <= pre.x_position + 8);
    let buf1 = if start_sprite {
        pre.sprite_buffer@.drop_last()
    } else {
        pre.sprite_buffer@
    };
    let bg0 = if start_sprite {
        BgFetcherModel { fetch_step: FetchStep::Paused, ..pre.background_fetcher.model() }
    } else {
        pre.background_fetcher.model()
    };
    let sf0 = if start_sprite {
        SpriteFetcherModel {
            fetch_step: FetchStep::FetchTileNumber,
            sprite: Some(pre.sprite_buffer@.last()),
            ..pre.sprite_fetcher.model()
        }
    } else {
        pre.sprite_fetcher.model()
    };
    let bg1 = spec_bg_fetcher_step(m, bg0, pre.x_position);
    let sf1 = spec_sprite_fetcher_step(m, sf0, pre.x_position);
    &&& post.dot == spec_next_dot(pre.dot)
    &&& (if !(sf1.fetch_step is Paused) {
        &&& post.background_fetcher.model() == bg1
        &&& post.sprite_fetcher.model() == sf1
        &&& post.sprite_buffer@ == buf1
        &&& post.x_position == pre.x_position
        &&& post.image_buffer == pre.image_buffer
        &&& post.discard_count == pre.discard_count
        &&& m2 == m
    } else {
        let bg2 = if bg1.fetch_step is Paused {
            BgFetcherModel { fetch_step: FetchStep::FetchTileNumber, ..bg1 }
        } else {
            bg1
        };
        if bg2.fifo.len() == 0 {
            &&& post.background_fetcher.model() == bg2
            &&& post.sprite_fetcher.model() == sf1
            &&& post.sprite_buffer@ == buf1
            &&& post.x_position == pre.x_position
            &&& post.image_buffer == pre.image_buffer
            &&& post.discard_count == pre.discard_count
            &&& m2 == m
        } else {
            let background_pixel = bg2.fifo[0];
            let bg3 = BgFetcherModel { fifo: bg2.fifo.subrange(1, bg2.fifo.len() as int), ..bg2 };
            if pre.discard_count > 0 {
                &&& post.background_fetcher.model() == bg3
                &&& post.sprite_fetcher.model() == sf1
                &&& post.sprite_buffer@ == buf1
                &&& post.x_position == pre.x_position
                &&& post.image_buffer == pre.image_buffer
                &&& post.discard_count == pre.discard_count - 1
                &&& m2 == m
            } else {
                let sprite_present = sf1.fifo.len() > 0;
                let mixed = if sprite_present {
                    spec_mix(background_pixel, sf1.fifo[0])
                } else {
                    background_pixel
                };
                let sf2 = if sprite_present {
                    SpriteFetcherModel { fifo: sf1.fifo.subrange(1, sf1.fifo.len() as int), ..sf1 }
                } else {
                    sf1
                };
                let fb1 = if ly < 144 {
                    pre.image_buffer@.update(
                        ly * 160 + pre.x_position,
                        spec_grayscale(mixed.colour),
                    )
                } else {
                    pre.image_buffer@
                };
                &&& post.image_buffer@ == fb1
                &&& post.discard_count == pre.discard_count
                &&& (if pre.x_position + 1 == 160 {
                    &&& post.x_position == 0
                    &&& post.sprite_buffer@.len() == 0
                    &&& post.background_fetcher.model() == (BgFetcherModel {
                        x_position: 0,
                        fetch_step: FetchStep::FetchTileNumber,
                        fifo: Seq::empty(),
                    })
                    &&& post.sprite_fetcher.model() == (SpriteFetcherModel {
                        fifo: Seq::empty(),
                        ..sf2
                    })
                    &&& m2 == spec_write_ppu_mode(m, PpuMode::HorizontalBlank)
                } else {
                    &&& post.x_position == pre.x_position + 1
                    &&& post.background_fetcher.model() == bg3
                    &&& post.sprite_fetcher.model() == sf2
                    &&& post.sprite_buffer@ == buf1
                    &&& m2 == m
                })
            }
        }
    })
}

/// One PPU dot as a relation between the machine before (`pre`, on the bus
/// `m`) and after (`post`, on the bus `m2`): the coincidence write, then the
/// mode branch that the STAT bits of `m` select.
pub open spec fn ppu_step_rel(pre: Ppu, m: MemModel, post: Ppu, m2: MemModel) -> bool {
    let ly = mem_read(m, ADDRESS_LY);
    let m1 = spec_write_coincidence(m, ly == mem_read(m, ADDRESS_LYC));
        match spec_ppu_mode(m) {
            PpuMode::OamScan => {
                let scanned = spec_oam_sprite(m, pre.dot as int / 2);
                let admits = pre.dot % 2 == 0 && pre.dot < DOTS_PER_OAM_SCAN
                    && pre.sprite_buffer@.len() < 10 && spec_sprite_covers(
                    scanned,
                    ly,
                );
                &&& m2 == (if pre.dot + 1 == DOTS_PER_OAM_SCAN {
                    spec_write_ppu_mode(m1, PpuMode::Drawing)
                } else {
                    m1
                })
                &&& post.dot == spec_next_dot(pre.dot)
                &&& post.x_position == pre.x_position
                &&& post.image_buffer == pre.image_buffer
                &&& post.background_fetcher.model() == pre.background_fetcher.model()
                &&& post.sprite_fetcher.model() == pre.sprite_fetcher.model()
                &&& ({
                    let buf0 = pre.sprite_buffer@;
                    let buf1 = post.sprite_buffer@;
                    if pre.dot + 1 == DOTS_PER_OAM_SCAN {
                        // Handover to drawing: the buffer becomes a
                        // permutation of itself sorted by descending
                        // x, and the scroll discard is latched.
                        &&& buf1.to_multiset() == buf0.to_multiset()
                        &&& (forall|a: int, b: int|
                            0 <= a < b < buf1.len() ==> buf1[a].x_position
                                >= buf1[b].x_position)
                        &&& post.discard_count == mem_read(
                            m2,
                            ADDRESS_SCX,
                        ) % 8
                    } else if admits {
                        &&& buf1 == buf0.push(scanned)
                        &&& post.discard_count == pre.discard_count
                    } else {
                        &&& buf1 == buf0
                        &&& post.discard_count == pre.discard_count
                    }
                })
            },
            PpuMode::Drawing => drawing_step_rel(
                pre,
                m1,
                ly,
                post,
                m2,
            ),
            PpuMode::HorizontalBlank => {
                &&& post == (Ppu { dot: post.dot, ..pre })
                &&& (if pre.dot + 1 >= DOTS_PER_SCANLINE {
                    &&& post.dot == 0
                    &&& m2 == spec_write_ppu_mode(
                        mem_write(m1, ADDRESS_LY, util::wrap_add8(ly, 1)),
                        if ly >= 143 {
                            PpuMode::VerticalBlank
                        } else {
                            PpuMode::OamScan
                        },
                    )
                } else {
                    &&& post.dot == spec_next_dot(pre.dot)
                    &&& m2 == m1
                })
            },
            PpuMode::VerticalBlank => {
                let m_requested = if pre.dot == 0 && ly == 144 {
                    spec_request_vblank(m1)
                } else {
                    m1
                };
                &&& post == (Ppu { dot: post.dot, ..pre })
                &&& (if pre.dot + 1 >= DOTS_PER_SCANLINE {
                    &&& post.dot == 0
                    &&& m2 == (if util::wrap_add8(ly, 1) > 153 {
                        mem_write(
                            spec_write_ppu_mode(m_requested, PpuMode::OamScan),
                            ADDRESS_LY,
                            0,
                        )
                    } else {
                        mem_write(m_requested, ADDRESS_LY, util::wrap_add8(ly, 1))
                    })
                } else {
                    &&& post.dot == spec_next_dot(pre.dot)
                    &&& m2 == m_requested
                })
            },
        }
}

/// Four PPU dots chained through two unnamed intermediate machine states:
/// what one CPU machine cycle gives the PPU.
pub open spec fn ppu_four_steps_rel(p0: Ppu, m0: MemModel, p4: Ppu, m4: MemModel) -> bool {
    exists|p1: Ppu, m1: MemModel, p2: Ppu, m2: MemModel, p3: Ppu, m3: MemModel|
        #![trigger ppu_step_rel(p0, m0, p1, m1), ppu_step_rel(p1, m1, p2, m2), ppu_step_rel(p2, m2, p3, m3)]
        ppu_step_rel(p0, m0, p1, m1) && ppu_step_rel(p1, m1, p2, m2) && ppu_step_rel(p2, m2, p3, m3)
            && ppu_step_rel(p3, m3, p4, m4)
}

/// The pixel processing unit: the dot counter inside the current scanline,
/// the sprite buffer filled by OAM scan, the two fetchers, the scroll
/// discard counter, and the 160x144 grayscale framebuffer.
pub struct Ppu {
    pub dot: usize,
    pub sprite_buffer: Vec<Sprite>,
    pub x_position: u8,
    pub background_fetcher: BackgroundFetcher,
    pub sprite_fetcher: SpriteFetcher,
    pub discard_count: usize,
    pub image_buffer: Vec<u8>,
}

impl Ppu {
    /// The standing shape of the PPU: the dot counter inside one scanline,
    /// at most ten buffered sprites, the drawing x on screen, both fetchers
    /// within their FIFO bounds, at most seven pixels to discard, and a full
    /// framebuffer.
    pub open spec fn wf(&self) -> bool {
        &&& self.dot <= DOTS_PER_SCANLINE
        &&& self.sprite_buffer@.len() <= 10
        &&& self.x_position < PIXELS_PER_SCANLINE
        &&& self.background_fetcher.wf()
        &&& self.sprite_fetcher.wf()
        &&& self.discard_count <= 7
        &&& self.image_buffer@.len() == 160 * 144
    }

    /// A powered-on PPU: counters cleared, background fetcher ready, sprite
    /// fetcher parked, and an all-zero framebuffer.
    pub fn init() -> (r: Ppu)
        ensures
            r.wf(),
            r.dot == 0,
            r.x_position == 0,
            r.sprite_buffer@.len() == 0,
            r.image_buffer@.len() == 160 * 144,
            forall|i: int| 0 <= i < 160 * 144 ==> r.image_buffer@[i] == 0u8,
    {
        let mut image_buffer: Vec<u8> = Vec::new();
        let mut i: usize = 0;
        while i < 160 * 144
            invariant
                i <= 160 * 144,
                image_buffer@.len() == i,
                forall|j: int| 0 <= j < i ==> image_buffer@[j] == 0u8,
            decreases 160 * 144 - i,
        {
            image_buffer.push(0);
            i += 1;
        }
        Ppu {
            dot: 0,
            sprite_buffer: Vec::new(),
            x_position: 0,
            background_fetcher: BackgroundFetcher {
                x_position: 0,
                fetch_step: FetchStep::FetchTileNumber,
                fifo: VecDeque::new(),
            },
            sprite_fetcher: SpriteFetcher {
                fetch_step: FetchStep::Paused,
                fifo: VecDeque::new(),
                sprite: None,
            },
            discard_count: 0,
            image_buffer,
        }
    }

    /// Renders the 384 tiles of the tile-data area into a 96x256 grayscale
    /// sheet, twelve tiles per row, for the debug view. The raw RAM bytes
    /// are read directly, bypassing the DMA mask.
    pub fn get_tile_buffer(&self, memory: &Memory) -> (r: Vec<u8>)
        requires
            mem_wf(memory@),
        ensures
            r@.len() == 96 * 256,
            forall|oy: int, ox: int|
                0 <= oy < 256 && 0 <= ox < 96 ==> r@[oy * 96 + ox] == spec_tile_pixel(
                    memory@,
                    oy,
                    ox,
                ),
    {
        let tile_data = memory.read_range(Address(0x8000), 6144);
        let mut out: Vec<u8> = Vec::new();
        let mut oy: usize = 0;
        while oy < 256
            invariant
                mem_wf(memory@),
                tile_data@ == memory@.ram.subrange(0x8000int, 0x8000 + 6144int),
                oy <= 256,
                out@.len() == oy * 96,
                forall|y: int, x: int|
                    0 <= y < oy && 0 <= x < 96 ==> out@[y * 96 + x] == spec_tile_pixel(
                        memory@,
                        y,
                        x,
                    ),
            decreases 256 - oy,
        {
            let mut ox: usize = 0;
            while ox < 96
                invariant
                    mem_wf(memory@),
                    tile_data@ == memory@.ram.subrange(0x8000int, 0x8000 + 6144int),
                    oy < 256,
                    ox <= 96,
                    out@.len() == oy * 96 + ox,
                    forall|y: int, x: int|
                        0 <= y < oy && 0 <= x < 96 ==> out@[y * 96 + x] == spec_tile_pixel(
                            memory@,
                            y,
                            x,
                        ),
                    forall|x: int|
                        0 <= x < ox ==> out@[oy * 96 + x] == spec_tile_pixel(memory@, oy as int, x),
                decreases 96 - ox,
            {
                let t: usize = (oy / 8) * 12 + ox / 8;
                let base: usize = t * 16 + (oy % 8) * 2;
                let lo = tile_data[base];
                let hi = tile_data[base + 1];
                let col = ox % 8;
                let b: u8 = (7 - col) as u8;
                let lsb = (lo >> b) & 1;
                let msb = (hi >> b) & 1;
                proof {
                    util::lemma_bit_below_two(lo, b);
                    util::lemma_bit_below_two(hi, b);
                }
                let index: u8 = 2 * msb + lsb;
                let colour = match PixelColour::try_from(index) {
                    Ok(c) => c,
                    Err(_) => PixelColour::White,
                };
                out.push(colour.to_grayscale());
                ox += 1;
            }
            oy += 1;
        }
        out
    }

    /// Saturating dot advance; nothing else moves.
    fn bump_dot(&mut self)
        ensures
            *final(self) == (Ppu { dot: spec_next_dot(old(self).dot), ..*old(self) }),
    {
        if self.dot < DOTS_PER_SCANLINE {
            self.dot = self.dot + 1;
        }
    }

    /// The drawing branch of one dot, as `drawing_step_rel` states: run the
    /// fetchers against the bus and emit at most one pixel.
    #[verifier::rlimit(100)]
    fn step_drawing(&mut self, memory: &mut Memory, ly: u8)
        requires
            old(self).wf(),
            mem_wf(old(memory)@),
        ensures
            final(self).wf(),
            mem_wf(final(memory)@),
            drawing_step_rel(*old(self), old(memory)@, ly, *final(self), final(memory)@),
    {
        // Start a sprite fetch when a buffered sprite reaches the window of
        // the current x; the background fetcher pauses.
        if self.sprite_fetcher.paused() && self.any_sprite_ready() {
            self.background_fetcher.fetch_step = FetchStep::Paused;
            self.sprite_fetcher.sprite = self.sprite_buffer.pop();
            self.sprite_fetcher.fetch_step = FetchStep::FetchTileNumber;
        }
        let x_now = self.x_position;
        self.background_fetcher.step(memory, x_now);
        self.sprite_fetcher.step(memory, x_now);
        if self.sprite_fetcher.paused() {
            if self.background_fetcher.paused() {
                self.background_fetcher.fetch_step = FetchStep::FetchTileNumber;
            }
            if let Some(background_pixel) = self.background_fetcher.fifo.pop_front() {
                // Rendering waits while SCX mod 8 pixels drop.
                if self.discard_count > 0 {
                    self.discard_count = self.discard_count - 1;
                    self.bump_dot();
                    return ;
                }
                let mixed_pixel = match self.sprite_fetcher.fifo.pop_front() {
                    Some(sprite_pixel) => Pixel::mix(background_pixel, sprite_pixel),
                    None => background_pixel,
                };
                if (ly as usize) < 144 {
                    let idx: usize = ly as usize * 160 + self.x_position as usize;
                    self.image_buffer.set(idx, mixed_pixel.colour.to_grayscale());
                }
                self.x_position = self.x_position + 1;
                if self.x_position == PIXELS_PER_SCANLINE {
                    write_ppu_mode(memory, PpuMode::HorizontalBlank);
                    self.x_position = 0;
                    self.sprite_buffer.clear();
                    self.background_fetcher.reset();
                    self.background_fetcher.fifo.clear();
                    self.sprite_fetcher.reset();
                }
            }
        }
        self.bump_dot();
    }

    /// Whether any buffered sprite starts at or before the pixel eight to
    /// the right of the current x, the cue to start a sprite fetch.
    fn any_sprite_ready(&self) -> (r: bool)
        ensures
            r == (exists|k: int|
                0 <= k < self.sprite_buffer@.len() && #[trigger] self.sprite_buffer@[k].x_position
                    <= self.x_position + 8),
    {
        let threshold: u16 = self.x_position as u16 + 8;
        let mut found = false;
        let mut i: usize = 0;
        while i < self.sprite_buffer.len()
            invariant
                i <= self.sprite_buffer@.len(),
                threshold == self.x_position + 8,
                found == (exists|k: int|
                    0 <= k < i && #[trigger] self.sprite_buffer@[k].x_position <= self.x_position
                        + 8),
            decreases self.sprite_buffer@.len() - i,
        {
            if self.sprite_buffer[i].x_position as u16 <= threshold {
                found = true;
            }
            i += 1;
        }
        found
    }

    /// One dot of the PPU. Every step refreshes the LY = LYC coincidence
    /// flag, then acts by the mode in STAT: OAM scan admits up to ten
    /// visible sprites and hands over to drawing after eighty dots; drawing
    /// runs the fetchers and pushes at most one pixel, moving to horizontal
    /// blank when the scanline has 160 pixels; the blanking modes idle out
    /// the scanline, stepping LY and its mode transitions, and the first
    /// vertical-blank line raises the VBlank interrupt at its first dot.
    #[verifier::rlimit(100)]
    pub fn step(&mut self, memory: &mut Memory)
        requires
            old(self).wf(),
            mem_wf(old(memory)@),
        ensures
            final(self).wf(),
            mem_wf(final(memory)@),
            final(self).image_buffer@.len() == old(self).image_buffer@.len(),
            ppu_step_rel(*old(self), old(memory)@, *final(self), final(memory)@),
    {
        let ppu_mode = read_ppu_mode(memory);
        let ly = memory.read(Address(ADDRESS_LY));
        let lyc = memory.read(Address(ADDRESS_LYC));
        write_coincidence_flag(memory, ly == lyc);
        match ppu_mode {
            PpuMode::OamScan => {
                // Each sprite takes two dots to inspect; odd dots idle.
                if self.dot % 2 == 0 && self.dot < DOTS_PER_OAM_SCAN {
                    let byte_offset: usize = (self.dot / 2) * 4;
                    let sprite_address = Address(0xFE00 + byte_offset as u16);
                    let sprite_memory = memory.read_range(sprite_address, 4);
                    let sprite = Sprite::from_bytes(
                        sprite_memory[0],
                        sprite_memory[1],
                        sprite_memory[2],
                        sprite_memory[3],
                    );
                    let sprite_height = SpriteHeight::Normal;
                    if self.sprite_buffer.len() < 10 && sprite.visible(ly, sprite_height) {
                        self.sprite_buffer.push(sprite);
                    }
                }
                self.bump_dot();
                if self.dot == DOTS_PER_OAM_SCAN {
                    write_ppu_mode(memory, PpuMode::Drawing);
                    sort_by_x_descending(&mut self.sprite_buffer);
                    // SCX mod 8 pixels are discarded at the start of the line.
                    let scx = memory.read(Address(ADDRESS_SCX));
                    self.discard_count = (scx % 8) as usize;
                }
            },
            PpuMode::Drawing => self.step_drawing(memory, ly),
            PpuMode::HorizontalBlank => {
                self.bump_dot();
                if self.dot >= DOTS_PER_SCANLINE {
                    self.dot = 0;
                    memory.write(Address(ADDRESS_LY), util::add8(ly, 1));
                    let next_mode = if ly >= 143 {
                        PpuMode::VerticalBlank
                    } else {
                        PpuMode::OamScan
                    };
                    write_ppu_mode(memory, next_mode);
                }
            },
            PpuMode::VerticalBlank => {
                // The VBlank request is raised at the first dot of line 144.
                if self.dot == 0 && ly == 144 {
                    request_vblank_interrupt(memory);
                }
                self.bump_dot();
                if self.dot >= DOTS_PER_SCANLINE {
                    self.dot = 0;
                    let mut new_ly = util::add8(ly, 1);
                    if new_ly > 153 {
                        new_ly = 0;
                        write_ppu_mode(memory, PpuMode::OamScan);
                    }
                    memory.write(Address(ADDRESS_LY), new_ly);
                }
            },
        };
    }
}

} // verus!
