use jameboy::joypad::compute_joyp_register;
use jameboy::memory::{Address, Memory};
use std::collections::VecDeque;

use jameboy::ppu::{
    fetch_non_window_tile_data_address, fetch_window_tile_data_address, line_bytes_to_pixel_colours,
    read_ppu_mode, request_vblank_interrupt, write_coincidence_flag, write_ppu_mode,
    BgWindowTileArea, FetchStep, ObjectBackgroundPriority, Palette, Pixel, PixelColour, Ppu,
    PpuMode, Sprite, SpriteFetcher, SpriteHeight,
};

#[test]
fn test_line_bytes_to_pixels() {
    assert_eq!(
        vec![
            PixelColour::White,
            PixelColour::DarkGray,
            PixelColour::Black,
            PixelColour::Black,
            PixelColour::Black,
            PixelColour::Black,
            PixelColour::DarkGray,
            PixelColour::White
        ],
        line_bytes_to_pixel_colours(0b00111100, 0b01111110)
    );
    assert_eq!(
        vec![
            PixelColour::White,
            PixelColour::Black,
            PixelColour::White,
            PixelColour::White,
            PixelColour::White,
            PixelColour::White,
            PixelColour::Black,
            PixelColour::White
        ],
        line_bytes_to_pixel_colours(0b01000010, 0b01000010)
    );

    assert_eq!(
        vec![
            PixelColour::White,
            PixelColour::LightGray,
            PixelColour::LightGray,
            PixelColour::LightGray,
            PixelColour::Black,
            PixelColour::LightGray,
            PixelColour::Black,
            PixelColour::White
        ],
        line_bytes_to_pixel_colours(0b01111110, 0b00001010)
    );
}

#[test]
fn test_pixel_encoding_bits() {
    // For each pixel k (left to right), bit 1 of its index comes from the
    // high byte and bit 0 from the low byte, at bit 7 - k.
    let lo = 0b1010_0110u8;
    let hi = 0b0111_0101u8;
    let pixels = line_bytes_to_pixel_colours(lo, hi);
    for k in 0..8 {
        let b = 7 - k;
        let index = 2 * ((hi >> b) & 1) + ((lo >> b) & 1);
        let expected = match index {
            0 => PixelColour::White,
            1 => PixelColour::LightGray,
            2 => PixelColour::DarkGray,
            _ => PixelColour::Black,
        };
        assert_eq!(expected, pixels[k as usize]);
    }
}

#[test]
fn test_pixel_mix_rules() {
    let bg = |colour| Pixel { colour, palette: Palette::Bgp, priority: ObjectBackgroundPriority::Background };
    let sp = |colour, priority| Pixel { colour, palette: Palette::Bgp, priority };
    // A transparent sprite pixel yields to the background.
    let mixed = Pixel::mix(bg(PixelColour::DarkGray), sp(PixelColour::White, ObjectBackgroundPriority::Object));
    assert_eq!(PixelColour::DarkGray, mixed.colour);
    // A background-priority sprite pixel yields to non-zero background.
    let mixed = Pixel::mix(bg(PixelColour::Black), sp(PixelColour::LightGray, ObjectBackgroundPriority::Background));
    assert_eq!(PixelColour::Black, mixed.colour);
    // ... but wins over background colour zero.
    let mixed = Pixel::mix(bg(PixelColour::White), sp(PixelColour::LightGray, ObjectBackgroundPriority::Background));
    assert_eq!(PixelColour::LightGray, mixed.colour);
    // An object-priority sprite pixel always wins.
    let mixed = Pixel::mix(bg(PixelColour::Black), sp(PixelColour::DarkGray, ObjectBackgroundPriority::Object));
    assert_eq!(PixelColour::DarkGray, mixed.colour);
}

#[test]
fn test_sprite_visible() {
    let sprite = Sprite::from_bytes(16, 8, 0, 0);
    assert!(sprite.visible(0, SpriteHeight::Normal));
    assert!(!sprite.visible(8, SpriteHeight::Normal));
    assert!(sprite.visible(8, SpriteHeight::Tall));
    // A sprite at x = 0 is off screen.
    let hidden = Sprite::from_bytes(16, 0, 0, 0);
    assert!(!hidden.visible(0, SpriteHeight::Normal));
}

#[test]
fn test_frame_ly_cycle() {
    // Over one frame of 154 x 456 dots, LY runs 0 to 153 and wraps back to
    // 0, and the VBlank request lands in IF at the entry to line 144.
    let mut ppu = Ppu::init();
    let mut memory = Memory::init();
    // Start at the beginning of a scanline in OAM scan.
    memory.write(Address(0xFF41), 0x02);
    let mut max_ly = 0u8;
    let mut if_set_during_vblank = false;
    for _ in 0..(154 * 456) {
        ppu.step(&mut memory);
        let ly = memory.read(Address(0xFF44));
        if ly > max_ly {
            max_ly = ly;
        }
        if ly == 144 && memory.read(Address(0xFF0F)) & 1 != 0 {
            if_set_during_vblank = true;
        }
    }
    assert_eq!(153, max_ly);
    assert_eq!(0, memory.read(Address(0xFF44)));
    assert!(if_set_during_vblank);
    assert!(memory.read(Address(0xFF0F)) & 1 != 0);
}

#[test]
fn test_tile_buffer_pixels() {
    let ppu = Ppu::init();
    let mut memory = Memory::init();
    // Tile 0, row 0: low byte all ones, high byte zero: eight pixels of
    // colour 1, light gray (211).
    memory.write(Address(0x8000), 0xFF);
    memory.write(Address(0x8001), 0x00);
    // Tile 1, row 2: high byte all ones: colour 2, dark gray (169).
    memory.write(Address(0x8000 + 16 + 4), 0x00);
    memory.write(Address(0x8000 + 16 + 5), 0xFF);
    let sheet = ppu.get_tile_buffer(&memory);
    assert_eq!(96 * 256, sheet.len());
    for col in 0..8 {
        assert_eq!(211, sheet[col]);
        // Tile 1 sits one tile to the right; its row 2 is output row 2.
        assert_eq!(169, sheet[2 * 96 + 8 + col]);
    }
    // An untouched tile renders white (255).
    assert_eq!(255, sheet[40 * 96 + 40]);
}

#[test]
fn test_joyp_register_encoding() {
    // Nothing pressed: all bits idle high.
    assert_eq!(0xFF, compute_joyp_register(false, false, false, false, false, false, false, false));
    // Right clears bit 0 and selects the D-pad bank (bit 4).
    assert_eq!(0b1110_1110, compute_joyp_register(true, false, false, false, false, false, false, false));
    // B clears bit 1 and selects the action bank (bit 5).
    assert_eq!(0b1101_1101, compute_joyp_register(false, false, false, false, false, true, false, false));
    // Start clears bit 3 in the action bank.
    assert_eq!(0b1101_0111, compute_joyp_register(false, false, false, false, false, false, false, true));
    // A clears bit 0 and selects the action bank (bit 5).
    assert_eq!(0b1101_1110, compute_joyp_register(false, false, false, false, true, false, false, false));
    // Up clears bit 2 in the D-pad bank.
    assert_eq!(0b1110_1011, compute_joyp_register(false, false, true, false, false, false, false, false));
}

#[test]
fn test_sprite_pixels_carry_object_palette() {
    // The pixels a sprite fetch pushes carry the OBP palette its
    // palette-select flag names.
    let memory = Memory::init();
    for (flag_byte, expected) in [(0x00u8, Palette::Obp0), (0x10u8, Palette::Obp1)] {
        let sprite = Sprite::from_bytes(16, 8, 0, flag_byte);
        let mut fetcher = SpriteFetcher {
            fetch_step: FetchStep::Push(0xFF, 0x00),
            fifo: VecDeque::new(),
            sprite: Some(sprite),
        };
        fetcher.step(&memory, 4);
        let pixel = fetcher.fifo.pop_front().unwrap();
        assert_eq!(expected, pixel.palette);
        assert_eq!(PixelColour::LightGray, pixel.colour);
    }
}

#[test]
fn test_tile_data_addressing() {
    // Unsigned indexing from 0x8000: tile 2, fine y (5 + 6) mod 8 = 3.
    assert_eq!(0x8026, fetch_non_window_tile_data_address(BgWindowTileArea::Area8000, 2, 5, 6));
    // Signed indexing around 0x9000 for the 0x8800 area.
    assert_eq!(0x9050, fetch_non_window_tile_data_address(BgWindowTileArea::Area8800, 5, 0, 0));
    assert_eq!(0x8800, fetch_non_window_tile_data_address(BgWindowTileArea::Area8800, 128, 0, 0));
    // Window rows wrap inside the tile.
    assert_eq!(0x8014, fetch_window_tile_data_address(BgWindowTileArea::Area8000, 1, 10));
}

#[test]
fn test_ppu_mode_and_status_registers() {
    let mut memory = Memory::init();
    assert_eq!(PpuMode::HorizontalBlank, read_ppu_mode(&memory));
    write_ppu_mode(&mut memory, PpuMode::Drawing);
    assert_eq!(PpuMode::Drawing, read_ppu_mode(&memory));
    write_ppu_mode(&mut memory, PpuMode::OamScan);
    assert_eq!(PpuMode::OamScan, read_ppu_mode(&memory));
    // The coincidence flag lives in bit 2 of STAT and leaves the mode alone.
    write_coincidence_flag(&mut memory, true);
    assert_eq!(0b0000_0110, memory.read(Address(0xFF41)));
    write_coincidence_flag(&mut memory, false);
    assert_eq!(0b0000_0010, memory.read(Address(0xFF41)));
    // The VBlank request sets bit 0 of IF.
    request_vblank_interrupt(&mut memory);
    assert_eq!(0x01, memory.read(Address(0xFF0F)) & 0x01);
}
