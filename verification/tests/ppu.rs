use dirtydmg_core::bus::BusRW;
use dirtydmg_core::interrupt::InterruptStatus;
use dirtydmg_core::model::{
    Mode, LCDC_ADDRESS, LCDS_ADDRESS, LYC_ADDRESS, OAM_DMA_REGISTER_ADDRESS, OAM_END_ADDRESS,
    OAM_RAM_SIZE, OAM_START_ADDRESS, TILESET_COUNT, TILESET_END_ADDRESS, TILESET_START_ADDRESS,
};
use dirtydmg_core::oam::{OamSprite, OAM_SPRITE_COUNT, OAM_SPRITE_SIZE};
use dirtydmg_core::ppu::PPU;
use dirtydmg_core::ram::Ram;
use dirtydmg_core::tile::{Tile, TILE_DIMENSION, TILE_SIZE};

fn test_pack() -> (PPU, Ram, InterruptStatus) {
    let ppu = PPU::new();
    let is = InterruptStatus::new();
    let ram = Ram::new(0x10000, 0);
    (ppu, ram, is)
}

fn run(ppu: &mut PPU, ticks: u16, bus: &mut Ram, is: &mut InterruptStatus) {
    assert_eq!(ticks % 4, 0, "");
    for _ in 0..ticks / 4 {
        ppu.execute_ticks(4, bus, is);
    }
}

/// Switches the display on, as a program does: by LCD control bit 7.
fn enable_lcd(ppu: &mut PPU) {
    ppu.bus_write8(LCDC_ADDRESS, 0x80);
    assert_eq!(ppu.control().lcd_enabled, true);
}

#[test]
fn test_tile_write() {
    // Test data
    let tile_data = [
        0x7C, 0x7C, 0x00, 0xC6, 0xC6, 0x00, 0x00, 0xFE, 0xC6, 0xC6, 0x00, 0xC6, 0xC6, 0x00, 0x00,
        0x00,
    ];
    let expected_pixels: [[u8; 8]; 8] = [
        [0, 3, 3, 3, 3, 3, 0, 0],
        [2, 2, 0, 0, 0, 2, 2, 0],
        [1, 1, 0, 0, 0, 1, 1, 0],
        [2, 2, 2, 2, 2, 2, 2, 0],
        [3, 3, 0, 0, 0, 3, 3, 0],
        [2, 2, 0, 0, 0, 2, 2, 0],
        [1, 1, 0, 0, 0, 1, 1, 0],
        [0, 0, 0, 0, 0, 0, 0, 0],
    ];
    let mut expected_tile = Tile::new();
    for y in 0..TILE_DIMENSION {
        for x in 0..TILE_DIMENSION {
            expected_tile.write_pixel(x as u8, y as u8, expected_pixels[y][x]);
        }
    }

    let mut ppu = PPU::new();

    // Write the tile data to first tile in the PPU
    let mut address = TILESET_START_ADDRESS;
    for x in tile_data {
        ppu.bus_write8(address, x);
        address += 1;
    }
    // Write the tile data to the last tile in the PPU
    address = TILESET_END_ADDRESS - TILE_SIZE + 1;
    for x in tile_data {
        ppu.bus_write8(address, x);
        address += 1;
    }

    // Make sure the tile was written in the first and last locations.
    for y in 0..TILE_DIMENSION {
        for x in 0..TILE_DIMENSION {
            assert_eq!(
                expected_tile.read_pixel(x as u8, y as u8),
                ppu.tile(0).read_pixel(x as u8, y as u8)
            );
            assert_eq!(
                expected_tile.read_pixel(x as u8, y as u8),
                ppu.tile(TILESET_COUNT - 1).read_pixel(x as u8, y as u8)
            );
        }
    }

    // Make sure the raw tile data can be accessed correctly.
    address = TILESET_START_ADDRESS;
    for x in tile_data {
        println!("address: {}", address);
        assert_eq!(x, ppu.bus_read8(address));
        address += 1;
    }
    address = TILESET_END_ADDRESS - TILE_SIZE + 1;
    for x in tile_data {
        assert_eq!(x, ppu.bus_read8(address));
        address += 1;
    }
}

#[test]
fn test_sprite_write() {
    let ref_sprite = OamSprite {
        ypos: 1,
        xpos: 2,
        tile: 127,
        behind_background: true,
        yflip: false,
        xflip: true,
        palette: false,
    };
    let ref_sprite_data = [1 as u8, 2, 127, 0xA0];

    // construct a ppu to test against
    let mut ppu = PPU::new();

    // Write the sprite data to the first and last sprite
    for (i, value) in ref_sprite_data.iter().enumerate() {
        ppu.bus_write8(OAM_START_ADDRESS + i, *value);
        ppu.bus_write8(OAM_END_ADDRESS - OAM_SPRITE_SIZE + i, *value);
    }

    assert_eq!(ref_sprite, ppu.sprite(0));
    assert_eq!(ref_sprite, ppu.sprite(OAM_SPRITE_COUNT - 1));
    assert_eq!(ppu.sprite_data()[0..OAM_SPRITE_SIZE], ref_sprite_data[..]);
    assert_eq!(
        ppu.sprite_data()[(OAM_SPRITE_COUNT - 1) * OAM_SPRITE_SIZE..],
        ref_sprite_data[..]
    );
}

#[test]
fn test_lcdc_write() {
    let mut ppu = PPU::new();
    ppu.bus_write8(0xFF40, 0xAA);

    assert_eq!(ppu.bus_read8(LCDC_ADDRESS), 0xAA);
    assert_eq!(ppu.control().lcd_enabled, true);
    assert_eq!(ppu.control().window_tiles_high, false);
    assert_eq!(ppu.control().window_enabled, true);
    assert_eq!(ppu.control().bg_window_signed_addressing, false);
    assert_eq!(ppu.control().bg_tiles_high, true);
    assert_eq!(ppu.control().obj_double_sprites, false);
    assert_eq!(ppu.control().obj_enabled, true);
    assert_eq!(ppu.control().bg_window_enable, false)
}

#[test]
fn test_scy_rw() {
    let mut ppu = PPU::new();
    let value = 39;
    let address = 0xFF42;
    ppu.bus_write8(address, value);
    assert_eq!(ppu.scroll_y(), value);
    assert_eq!(ppu.bus_read8(address), value);
}

#[test]
fn test_scx_rw() {
    let mut ppu = PPU::new();
    let value = 84;
    let address = 0xFF43;
    ppu.bus_write8(address, value);
    assert_eq!(ppu.scroll_x(), value);
    assert_eq!(ppu.bus_read8(address), value);
}

#[test]
fn test_ly_write_dead() {
    // The line y register is read only, and should not change due to a write.
    let mut ppu = PPU::new();
    let value = 84;
    let address = 0xFF44;
    ppu.bus_write8(address, value);
    assert_eq!(ppu.line_y(), 0);
    assert_eq!(ppu.bus_read8(address), 0);
}

#[test]
fn test_lyc_rw() {
    let mut ppu = PPU::new();
    let value = 255;
    let address = 0xFF45;
    ppu.bus_write8(address, value);
    assert_eq!(ppu.line_compare_value(), value);
    assert_eq!(ppu.bus_read8(address), value);
}

#[test]
fn test_wy_rw() {
    let mut ppu = PPU::new();
    let value = 43;
    let address = 0xFF4A;
    ppu.bus_write8(address, value);
    assert_eq!(ppu.window_y(), value);
    assert_eq!(ppu.bus_read8(address), value);
}

#[test]
fn test_wx_rw() {
    let mut ppu = PPU::new();
    let value = 43;
    let address = 0xFF4B;
    ppu.bus_write8(address, value);
    assert_eq!(ppu.window_x(), value);
    assert_eq!(ppu.bus_read8(address), value);
}

#[test]
fn test_lcds_write() {
    let mut ppu = PPU::new();
    let value = 0xFF;
    let address = 0xFF41;
    ppu.bus_write8(address, value);
    assert_eq!(ppu.bus_read8(address), 0x78);
    assert_eq!(ppu.line_compare_is(), true);
    assert_eq!(ppu.mode2_is(), true);
    assert_eq!(ppu.mode1_is(), true);
    assert_eq!(ppu.mode0_is(), true);

    ppu.bus_write8(address, 0b0010_1000);
    assert_eq!(ppu.mode0_is(), true);
    assert_eq!(ppu.mode1_is(), false);
    assert_eq!(ppu.mode2_is(), true);
    assert_eq!(ppu.line_compare_is(), false);
}

#[test]
fn test_bg_palette_rw() {
    let address = 0xFF47;
    let mut ppu = PPU::new();
    let raw_value = 0b_11_10_01_00;
    let expected_table = [0, 1, 2, 3];

    // Code under test
    ppu.bus_write8(address, raw_value);

    assert_eq!(ppu.bus_read8(address), raw_value);
    assert_eq!(ppu.bg_palette().raw, raw_value);
    assert_eq!(ppu.bg_palette().table, expected_table);
}

#[test]
fn test_obj_palette1_rw() {
    let address = 0xFF48;
    let mut ppu = PPU::new();
    let raw_value = 0b_11_10_01_00;
    let expected_table = [0, 1, 2, 3];

    // Code under test
    ppu.bus_write8(address, raw_value);

    // Postconditions
    assert_eq!(ppu.bus_read8(address), raw_value);
    assert_eq!(ppu.obj_palette1().raw, raw_value);
    assert_eq!(ppu.obj_palette1().table, expected_table);
}

#[test]
fn test_obj_palette2_rw() {
    let address = 0xFF49;
    let mut ppu = PPU::new();
    let raw_value = 0b_11_10_01_00;
    let expected_table = [0, 1, 2, 3];

    // Code under test
    ppu.bus_write8(address, raw_value);

    // Postconditions
    assert_eq!(ppu.bus_read8(address), raw_value);
    assert_eq!(ppu.obj_palette2().raw, raw_value);
    assert_eq!(ppu.obj_palette2().table, expected_table);
}

#[test]
#[allow(non_snake_case)]
fn test_dma_transfer_start_ticksAndAddr() {
    let mut ppu = PPU::new();
    let address = 0xFF46;
    let value = 45;
    let transfer_address = 45 * 0x100;

    ppu.bus_write8(address, 45);

    assert_eq!(ppu.bus_read8(address), value);
    assert_eq!(ppu.oam_dma_src(), transfer_address);
    assert_eq!(ppu.oam_dma_ticks(), 160);
}

#[test]
fn test_dma_transfer_ticks_down() {
    // Given a PPU with a staged DMA transfer
    let (mut ppu, mut ram, mut is) = test_pack();

    ppu.bus_write8(OAM_DMA_REGISTER_ADDRESS, 0);

    // When 7 ticks are executed
    ppu.execute_ticks(7, &mut ram, &mut is);

    // Then the ticks count down by the number of executed ticks
    assert_eq!(ppu.oam_dma_ticks(), 153);

    // When more ticks are executed than remain on the dma transfer
    ppu.execute_ticks(154, &mut ram, &mut is);

    // Then the ticks will not underflow.
    assert_eq!(ppu.oam_dma_ticks(), 0);
}

#[test]
fn test_dma_transfer_moves_data() {
    // Given a PPU with a staged DMA transfer, and some initialized ram
    let mut ppu = PPU::new();
    let mut ram = Ram::new(1024, 0);
    let mut is = InterruptStatus::new();
    for x in 256..(256 + OAM_RAM_SIZE) {
        ram.bus_write8(x, x as u8);
    }
    ppu.bus_write8(OAM_DMA_REGISTER_ADDRESS, 1);

    // When the ppu executes ticks
    ppu.execute_ticks(1, &mut ram, &mut is);

    // Then the OAM memory must contain the new data from the transfer source.
    for x in 0..OAM_RAM_SIZE {
        assert_eq!(ppu.sprite_data()[x], x as u8);
    }
}

#[test]
fn test_tilemap_read_write() {
    let mut ppu = PPU::new();
    let tile_start = 0x9800;
    let tile_end = 0x9FFF;
    let start_value = 0xFC;
    let end_value = 0xFD;

    ppu.bus_write8(tile_start, start_value);
    ppu.bus_write8(tile_end, end_value);
    assert_eq!(ppu.bus_read8(tile_start), start_value);
    assert_eq!(ppu.bus_read8(tile_end), end_value);
    assert_eq!(ppu.tilemaps()[0], start_value);
    assert_eq!(ppu.tilemaps()[2047], end_value);
}

#[test]
fn test_cycles_through_drawing_modes() {
    let (mut ppu, mut ram, mut is) = test_pack();
    enable_lcd(&mut ppu);

    run(&mut ppu, 4, &mut ram, &mut is);
    assert_eq!(ppu.mode(), Mode::SPRITE_SEARCH);
    run(&mut ppu, 72, &mut ram, &mut is);
    assert_eq!(ppu.mode(), Mode::SPRITE_SEARCH);

    run(&mut ppu, 4, &mut ram, &mut is);
    assert_eq!(ppu.mode(), Mode::LCD_TRANSFER);
    run(&mut ppu, 168, &mut ram, &mut is);
    assert_eq!(ppu.mode(), Mode::LCD_TRANSFER);

    run(&mut ppu, 4, &mut ram, &mut is);
    assert_eq!(ppu.mode(), Mode::HBLANK);
    run(&mut ppu, 200, &mut ram, &mut is);
    assert_eq!(ppu.mode(), Mode::HBLANK);

    run(&mut ppu, 4, &mut ram, &mut is);
    assert_eq!(ppu.mode(), Mode::SPRITE_SEARCH);
}

#[test]
fn test_ycomp_stat_interrupt() {
    let (mut ppu, mut ram, mut is) = test_pack();
    is.isrmask = 0xFF;
    enable_lcd(&mut ppu);
    ppu.bus_write8(LCDS_ADDRESS, 0x40);
    assert_eq!(ppu.line_compare_is(), true);
    ppu.bus_write8(LYC_ADDRESS, 1);
    assert_eq!(ppu.line_compare_value(), 1);

    // Line zero, no interrupt.
    run(&mut ppu, 452, &mut ram, &mut is);
    assert_eq!(ppu.line_y(), 0);
    assert_eq!(is.is_lcdstat_active(), false);

    // Line 1, interrupt on first tick.
    run(&mut ppu, 4, &mut ram, &mut is);
    assert_eq!(ppu.line_y(), 1);
    assert_eq!(is.is_lcdstat_active(), true);

    // Line 1, No interrupt on subsequent tick.
    is.clear_lcdstat();
    run(&mut ppu, 4, &mut ram, &mut is);
    assert_eq!(is.is_lcdstat_active(), false);
    assert_eq!(ppu.line_y(), 1);
}

#[test]
fn test_hblank_stat_interrupt() {
    let (mut ppu, mut ram, mut is) = test_pack();
    is.isrmask = 0xFF;
    enable_lcd(&mut ppu);
    ppu.bus_write8(LCDS_ADDRESS, 0x08);
    assert_eq!(ppu.mode0_is(), true);

    // No interrupt yet.
    run(&mut ppu, 80 + 172 - 4, &mut ram, &mut is);
    assert_eq!(is.is_lcdstat_active(), false);

    // Transition in to HBLANK, interrupt asserts
    run(&mut ppu, 4, &mut ram, &mut is);
    assert_eq!(is.is_lcdstat_active(), true);
    assert_eq!(ppu.mode(), Mode::HBLANK);

    // Continue in HBLANK, interrupt is not asserted anymore.
    is.clear_lcdstat();
    run(&mut ppu, 4, &mut ram, &mut is);
    assert_eq!(is.is_lcdstat_active(), false);
}

#[test]
fn test_vblank_interrupts() {
    let (mut ppu, mut ram, mut is) = test_pack();

    is.isrmask = 0xFF;
    enable_lcd(&mut ppu);
    ppu.bus_write8(LCDS_ADDRESS, 0x10);
    assert_eq!(ppu.mode1_is(), true);

    // Get right to the edge of vblank
    for _ in 0..143 {
        run(&mut ppu, 456, &mut ram, &mut is);
    }
    assert_eq!(ppu.line_y(), 143);
    assert_eq!(is.is_vblank_active(), false);
    assert_eq!(is.is_lcdstat_active(), false);

    // Draw the line to trigger vblank.
    run(&mut ppu, 456, &mut ram, &mut is);
    assert_eq!(is.is_vblank_active(), true);
    assert_eq!(is.is_lcdstat_active(), true);

    // Draw another line. No more interrupts should activate.
    is.clear_vblank();
    is.clear_lcdstat();
    run(&mut ppu, 456, &mut ram, &mut is);
    assert_eq!(is.is_vblank_active(), false);
    assert_eq!(is.is_lcdstat_active(), false);
}
