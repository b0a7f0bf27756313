//! The mathematical model of the pixel processing unit: its memory map, the
//! state that a program can observe, and what every bus access and every run
//! of clock ticks does to that state.

use vstd::prelude::*;
use crate::oam::OamSprite;

verus! {

/// The number of bytes of tile memory.
pub const TILESET_RAM: usize = 0x1800;

/// The number of tiles that tile memory holds.
pub const TILESET_COUNT: usize = 0x180;

/// The first address of tile memory.
pub const TILESET_START_ADDRESS: usize = 0x8000;

/// The last address of tile memory.
pub const TILESET_END_ADDRESS: usize = 0x97FF;

/// The number of bytes of the two tile maps together.
pub const TILEMAPS_SIZE: usize = 0x800;

/// The first address of the tile maps.
pub const TILEMAP_START_ADDRESS: usize = 0x9800;

/// The last address of the tile maps.
pub const TILEMAP_END_ADDRESS: usize = 0x9FFF;

/// The first address of the first tile map.
pub const TILEMAP_A_START_ADDRESS: usize = 0x9800;

/// The last address of the first tile map.
pub const TILEMAP_A_END_ADDRESS: usize = 0x9BFF;

/// The first address of the second tile map.
pub const TILEMAP_B_START_ADDRESS: usize = 0x9C00;

/// The last address of the second tile map.
pub const TILEMAP_B_END_ADDRESS: usize = 0x9FFF;

/// The number of bytes of object attribute memory.
pub const OAM_RAM_SIZE: usize = 160;

/// The first address of object attribute memory.
pub const OAM_START_ADDRESS: usize = 0xFE00;

/// The first address after object attribute memory. It belongs to no part of
/// the unit.
pub const OAM_END_ADDRESS: usize = 0xFEA0;

/// The LCD control register.
pub const LCDC_ADDRESS: usize = 0xFF40;

/// The LCD status register.
pub const LCDS_ADDRESS: usize = 0xFF41;

/// The vertical scroll register.
pub const SCY_ADDRESS: usize = 0xFF42;

/// The horizontal scroll register.
pub const SCX_ADDRESS: usize = 0xFF43;

/// The register that shows the current line. Writes to it are ignored.
pub const LY_ADDRESS: usize = 0xFF44;

/// The register that holds the line to compare the current line with.
pub const LYC_ADDRESS: usize = 0xFF45;

/// The register that starts a transfer into object attribute memory.
pub const OAM_DMA_REGISTER_ADDRESS: usize = 0xFF46;

/// The background palette register.
pub const BG_PALETTE_ADDRESS: usize = 0xFF47;

/// The register of the first object palette.
pub const OBJ_PALETTE1_ADDRESS: usize = 0xFF48;

/// The register of the second object palette.
pub const OBJ_PALETTE2_ADDRESS: usize = 0xFF49;

/// The register of the window's vertical position.
pub const WY_ADDRESS: usize = 0xFF4A;

/// The register of the window's horizontal position.
pub const WX_ADDRESS: usize = 0xFF4B;

/// LCD control bit 7: the display is on.
pub const LCDC_ENABLE_MASK: u8 = 0x80;

/// LCD control bit 6: the window uses the second tile map.
pub const LCDC_WINDOW_TILE_MAP_MASK: u8 = 0x40;

/// LCD control bit 5: the window is shown.
pub const LCDC_WINDOW_DISPLAY_ENABLE_MASK: u8 = 0x20;

/// LCD control bit 4: background and window tiles are addressed by signed
/// index.
pub const LCDC_BG_WINDOW_TILE_MAP_SELECT_MASK: u8 = 0x10;

/// LCD control bit 3: the background tiles are in the upper bank.
pub const LCDC_BG_TILE_MAP_SELECT_MASK: u8 = 0x08;

/// LCD control bit 2: sprites are 8 by 16 pixels instead of 8 by 8.
pub const LCDC_OBJ_SIZE_MASK: u8 = 0x04;

/// LCD control bit 1: sprites are shown.
pub const LCDC_OBJ_DISPLAY_ENABLE_MASK: u8 = 0x02;

/// LCD control bit 0: background and window are shown.
pub const LCDC_BG_WINDOW_PRIORITY_MASK: u8 = 0x01;

/// LCD status bit 6: a line that equals the compare value raises the LCD
/// status interrupt.
pub const LCDS_LINE_COMPARE_IS_MASK: u8 = 0x40;

/// LCD status bit 5: entering the sprite search raises the LCD status
/// interrupt.
pub const LCDS_MODE2_IS_MASK: u8 = 0x20;

/// LCD status bit 4: entering the vertical blank raises the LCD status
/// interrupt.
pub const LCDS_MODE1_IS_MASK: u8 = 0x10;

/// LCD status bit 3: entering the horizontal blank raises the LCD status
/// interrupt.
pub const LCDS_MODE0_IS_MASK: u8 = 0x08;

/// LCD status bit 2: the current line equalled the compare value when the
/// line began.
pub const LCDS_LINE_COMPARE_MASK: u8 = 0x04;

/// The ticks that a transfer into object attribute memory takes.
pub const OAM_DMA_TRANSFER_TICKS: u8 = 160;

/// The ticks that one line takes.
pub const LCD_TICKS_PER_LINE: u16 = 456;

/// The first line of the vertical blank.
pub const LCD_LINE_VBLANK_START: u8 = 144;

/// The last line of the vertical blank, and of the frame.
pub const LCD_LINE_VBLANK_END: u8 = 153;

/// The first tick of a line at which pixels are transferred.
pub const LCD_TRANSFER_START_TICK: u16 = 80;

/// The first tick of a line's horizontal blank.
pub const HBLANK_START_TICK: u16 = 252;

/// The four phases of the display.
#[allow(non_camel_case_types)]
#[derive(Clone, Copy, PartialEq, Eq, Debug, Structural)]
pub enum Mode {
    HBLANK,
    VBLANK,
    SPRITE_SEARCH,
    LCD_TRANSFER,
}

impl Mode {
    /// The number under which the status register shows the mode.
    pub open spec fn number(self) -> u8 {
        match self {
            Mode::HBLANK => 0,
            Mode::VBLANK => 1,
            Mode::SPRITE_SEARCH => 2,
            Mode::LCD_TRANSFER => 3,
        }
    }
}

/// The mode of a visible line at tick `tick` of the line.
pub open spec fn mode_at(tick: u16) -> Mode {
    if tick < LCD_TRANSFER_START_TICK {
        Mode::SPRITE_SEARCH
    } else if tick < HBLANK_START_TICK {
        Mode::LCD_TRANSFER
    } else {
        Mode::HBLANK
    }
}

/// The pixel in column `x` of row `y` of tile `tile`, as the two plane bytes
/// of that row in the tile memory `ram` give it: the low plane's byte comes
/// first.
pub open spec fn tile_pixel_in(ram: Seq<u8>, tile: int, x: int, y: int) -> u8 {
    crate::tile::plane_pixel(ram[16 * tile + 2 * y], ram[16 * tile + 2 * y + 1], x as u8)
}

/// Sprite `index`, as its four bytes in the object attribute memory `oam`
/// give it.
pub open spec fn sprite_in(oam: Seq<u8>, index: int) -> OamSprite {
    crate::oam::sprite_of(
        oam[4 * index],
        oam[4 * index + 1],
        oam[4 * index + 2],
        oam[4 * index + 3],
    )
}

/// The eight flags of the LCD control register, decoded.
#[derive(Clone, Copy, PartialEq, Debug)]
pub struct LcdControl {
    /// Bit 7: the display is on.
    pub lcd_enabled: bool,
    /// Bit 6: the window uses the second tile map.
    pub window_tiles_high: bool,
    /// Bit 5: the window is shown.
    pub window_enabled: bool,
    /// Bit 4: background and window tiles are addressed by signed index.
    pub bg_window_signed_addressing: bool,
    /// Bit 3: the background tiles are in the upper bank.
    pub bg_tiles_high: bool,
    /// Bit 2: sprites are 8 by 16 pixels instead of 8 by 8.
    pub obj_double_sprites: bool,
    /// Bit 1: sprites are shown.
    pub obj_enabled: bool,
    /// Bit 0: background and window are shown.
    pub bg_window_enable: bool,
}

/// The flags that the LCD control register `lcdc` encodes.
pub open spec fn control_of(lcdc: u8) -> LcdControl {
    LcdControl {
        lcd_enabled: lcdc & LCDC_ENABLE_MASK != 0,
        window_tiles_high: lcdc & LCDC_WINDOW_TILE_MAP_MASK != 0,
        window_enabled: lcdc & LCDC_WINDOW_DISPLAY_ENABLE_MASK != 0,
        bg_window_signed_addressing: lcdc & LCDC_BG_WINDOW_TILE_MAP_SELECT_MASK != 0,
        bg_tiles_high: lcdc & LCDC_BG_TILE_MAP_SELECT_MASK != 0,
        obj_double_sprites: lcdc & LCDC_OBJ_SIZE_MASK != 0,
        obj_enabled: lcdc & LCDC_OBJ_DISPLAY_ENABLE_MASK != 0,
        bg_window_enable: lcdc & LCDC_BG_WINDOW_PRIORITY_MASK != 0,
    }
}

/// The state of the unit: its three memories as they were written, its
/// registers, and the position of the display in the frame. Everything that
/// the unit keeps decoded is a function of this state.
pub struct PpuState {
    pub tile_ram: Seq<u8>,
    pub tile_maps: Seq<u8>,
    pub oam: Seq<u8>,
    pub lcdc: u8,
    pub line_compare_is: bool,
    pub mode2_is: bool,
    pub mode1_is: bool,
    pub mode0_is: bool,
    pub line_compare: bool,
    pub mode: Mode,
    pub scroll_y: u8,
    pub scroll_x: u8,
    pub line_y: u8,
    pub line_compare_value: u8,
    pub window_y: u8,
    pub window_x: u8,
    pub bg_palette: u8,
    pub obj_palette1: u8,
    pub obj_palette2: u8,
    pub oam_dma_ticks: u8,
    pub oam_dma_src: u16,
    pub tick_counter: u16,
}

impl PpuState {
    /// The memories have their sizes and the line is one of the frame's 154.
    pub open spec fn wf(self) -> bool {
        &&& self.tile_ram.len() == TILESET_RAM
        &&& self.tile_maps.len() == TILEMAPS_SIZE
        &&& self.oam.len() == OAM_RAM_SIZE
        &&& self.line_y <= LCD_LINE_VBLANK_END
    }

    /// The state after a reset: every byte 0, every flag off, the display in
    /// the horizontal blank of line 0.
    pub open spec fn initial() -> PpuState {
        PpuState {
            tile_ram: Seq::new(TILESET_RAM as nat, |i: int| 0u8),
            tile_maps: Seq::new(TILEMAPS_SIZE as nat, |i: int| 0u8),
            oam: Seq::new(OAM_RAM_SIZE as nat, |i: int| 0u8),
            lcdc: 0,
            line_compare_is: false,
            mode2_is: false,
            mode1_is: false,
            mode0_is: false,
            line_compare: false,
            mode: Mode::HBLANK,
            scroll_y: 0,
            scroll_x: 0,
            line_y: 0,
            line_compare_value: 0,
            window_y: 0,
            window_x: 0,
            bg_palette: 0,
            obj_palette1: 0,
            obj_palette2: 0,
            oam_dma_ticks: 0,
            oam_dma_src: 0,
            tick_counter: 0,
        }
    }

    /// Whether `addr` is an address of tile memory.
    pub open spec fn in_tile_ram(addr: usize) -> bool {
        TILESET_START_ADDRESS <= addr <= TILESET_END_ADDRESS
    }

    /// Whether `addr` is an address of the tile maps.
    pub open spec fn in_tile_maps(addr: usize) -> bool {
        TILEMAP_START_ADDRESS <= addr <= TILEMAP_END_ADDRESS
    }

    /// Whether `addr` is an address of object attribute memory.
    pub open spec fn in_oam(addr: usize) -> bool {
        OAM_START_ADDRESS <= addr < OAM_END_ADDRESS
    }

    /// Whether `addr` is the address of a register.
    pub open spec fn in_registers(addr: usize) -> bool {
        LCDC_ADDRESS <= addr <= WX_ADDRESS
    }

    /// The addresses that the unit answers to.
    pub open spec fn covers(addr: usize) -> bool {
        Self::in_tile_ram(addr) || Self::in_tile_maps(addr) || Self::in_oam(addr)
            || Self::in_registers(addr)
    }

    /// Whether the display is on: LCD control bit 7.
    pub open spec fn lcd_enabled(self) -> bool {
        self.lcdc & LCDC_ENABLE_MASK != 0
    }

    /// The eight flags of the LCD control register.
    pub open spec fn control(self) -> LcdControl {
        control_of(self.lcdc)
    }

    /// The pixel in column `x` of row `y` of tile `tile`.
    pub open spec fn tile_pixel(self, tile: int, x: int, y: int) -> u8 {
        tile_pixel_in(self.tile_ram, tile, x, y)
    }

    /// Sprite `index`.
    pub open spec fn sprite(self, index: int) -> OamSprite {
        sprite_in(self.oam, index)
    }

    /// What the status register reads as: the four interrupt selections in
    /// bits 6 to 3, the line compare flag in bit 2, the mode in bits 1 and 0.
    pub open spec fn lcds(self) -> u8 {
        (if self.line_compare_is {
            LCDS_LINE_COMPARE_IS_MASK
        } else {
            0
        }) | (if self.mode2_is {
            LCDS_MODE2_IS_MASK
        } else {
            0
        }) | (if self.mode1_is {
            LCDS_MODE1_IS_MASK
        } else {
            0
        }) | (if self.mode0_is {
            LCDS_MODE0_IS_MASK
        } else {
            0
        }) | (if self.line_compare {
            LCDS_LINE_COMPARE_MASK
        } else {
            0
        }) | self.mode.number()
    }

    /// What a read of `addr` returns.
    pub open spec fn read8(self, addr: usize) -> u8
        recommends
            Self::covers(addr),
    {
        if Self::in_tile_ram(addr) {
            self.tile_ram[addr - TILESET_START_ADDRESS]
        } else if Self::in_tile_maps(addr) {
            self.tile_maps[addr - TILEMAP_START_ADDRESS]
        } else if Self::in_oam(addr) {
            self.oam[addr - OAM_START_ADDRESS]
        } else if addr == LCDC_ADDRESS {
            self.lcdc
        } else if addr == LCDS_ADDRESS {
            self.lcds()
        } else if addr == SCY_ADDRESS {
            self.scroll_y
        } else if addr == SCX_ADDRESS {
            self.scroll_x
        } else if addr == LY_ADDRESS {
            self.line_y
        } else if addr == LYC_ADDRESS {
            self.line_compare_value
        } else if addr == OAM_DMA_REGISTER_ADDRESS {
            (self.oam_dma_src / 256) as u8
        } else if addr == BG_PALETTE_ADDRESS {
            self.bg_palette
        } else if addr == OBJ_PALETTE1_ADDRESS {
            self.obj_palette1
        } else if addr == OBJ_PALETTE2_ADDRESS {
            self.obj_palette2
        } else if addr == WY_ADDRESS {
            self.window_y
        } else if addr == WX_ADDRESS {
            self.window_x
        } else {
            crate::bus::OPEN_BUS
        }
    }

    /// The state after a write of `value` to `addr`.
    pub open spec fn write8(self, addr: usize, value: u8) -> PpuState
        recommends
            Self::covers(addr),
    {
        if Self::in_tile_ram(addr) {
            PpuState { tile_ram: self.tile_ram.update(addr - TILESET_START_ADDRESS, value), ..self }
        } else if Self::in_tile_maps(addr) {
            PpuState {
                tile_maps: self.tile_maps.update(addr - TILEMAP_START_ADDRESS, value),
                ..self
            }
        } else if Self::in_oam(addr) {
            PpuState { oam: self.oam.update(addr - OAM_START_ADDRESS, value), ..self }
        } else if addr == LCDC_ADDRESS {
            PpuState { lcdc: value, ..self }
        } else if addr == LCDS_ADDRESS {
            PpuState {
                line_compare_is: value & LCDS_LINE_COMPARE_IS_MASK != 0,
                mode2_is: value & LCDS_MODE2_IS_MASK != 0,
                mode1_is: value & LCDS_MODE1_IS_MASK != 0,
                mode0_is: value & LCDS_MODE0_IS_MASK != 0,
                ..self
            }
        } else if addr == SCY_ADDRESS {
            PpuState { scroll_y: value, ..self }
        } else if addr == SCX_ADDRESS {
            PpuState { scroll_x: value, ..self }
        } else if addr == LYC_ADDRESS {
            PpuState { line_compare_value: value, ..self }
        } else if addr == OAM_DMA_REGISTER_ADDRESS {
            PpuState {
                oam_dma_src: (256 * value) as u16,
                oam_dma_ticks: OAM_DMA_TRANSFER_TICKS,
                ..self
            }
        } else if addr == BG_PALETTE_ADDRESS {
            PpuState { bg_palette: value, ..self }
        } else if addr == OBJ_PALETTE1_ADDRESS {
            PpuState { obj_palette1: value, ..self }
        } else if addr == OBJ_PALETTE2_ADDRESS {
            PpuState { obj_palette2: value, ..self }
        } else if addr == WY_ADDRESS {
            PpuState { window_y: value, ..self }
        } else if addr == WX_ADDRESS {
            PpuState { window_x: value, ..self }
        } else {
            self
        }
    }

    /// Whether a transfer into object attribute memory was started and its
    /// bytes have not been copied yet.
    pub open spec fn dma_due(self) -> bool {
        self.oam_dma_ticks == OAM_DMA_TRANSFER_TICKS
    }

    /// The transfer's part of a run of `ticks` ticks: a transfer that is due
    /// loads `bytes` into object attribute memory, and the ticks that the
    /// transfer still takes go down by `ticks`, but not below 0.
    pub open spec fn dma_step(self, ticks: u16, bytes: Seq<u8>) -> PpuState {
        PpuState {
            oam: if self.dma_due() {
                bytes
            } else {
                self.oam
            },
            oam_dma_ticks: if self.oam_dma_ticks > ticks {
                (self.oam_dma_ticks - ticks) as u8
            } else {
                0
            },
            ..self
        }
    }

    /// Whether a run of `ticks` ticks ends the current line.
    pub open spec fn line_ends(self, ticks: u16) -> bool {
        self.lcd_enabled() && self.tick_counter + ticks >= LCD_TICKS_PER_LINE
    }

    /// The state when the next line begins with `tick_counter` ticks of it
    /// gone. The line is compared with the compare value before the frame
    /// wraps from its last line to line 0.
    pub open spec fn begin_line(self, tick_counter: u16) -> PpuState {
        let line = self.line_y + 1;
        PpuState {
            tick_counter,
            line_y: if line > LCD_LINE_VBLANK_END {
                0
            } else {
                line as u8
            },
            line_compare: self.line_compare_value == line,
            mode: if line > LCD_LINE_VBLANK_END {
                Mode::SPRITE_SEARCH
            } else if line == LCD_LINE_VBLANK_START {
                Mode::VBLANK
            } else {
                self.mode
            },
            ..self
        }
    }

    /// The state after the ticks were counted and, where they end the line,
    /// the next line has begun; the mode within a visible line is not yet
    /// brought up to date.
    pub open spec fn count_ticks(self, ticks: u16) -> PpuState {
        if !self.lcd_enabled() {
            self
        } else if self.line_ends(ticks) {
            self.begin_line((self.tick_counter + ticks - LCD_TICKS_PER_LINE) as u16)
        } else {
            PpuState { tick_counter: (self.tick_counter + ticks) as u16, ..self }
        }
    }

    /// Whether the mode is brought up to date from the tick counter: the
    /// display is on and in a visible line.
    pub open spec fn in_visible_line(self) -> bool {
        self.lcd_enabled() && self.line_y < LCD_LINE_VBLANK_START
    }

    /// The display's part of a run of `ticks` ticks.
    pub open spec fn lcd_step(self, ticks: u16) -> PpuState {
        let counted = self.count_ticks(ticks);
        if counted.in_visible_line() {
            PpuState { mode: mode_at(counted.tick_counter), ..counted }
        } else {
            counted
        }
    }

    /// The state after a run of `ticks` ticks in which a transfer that was
    /// due loaded `bytes`.
    pub open spec fn tick(self, ticks: u16, bytes: Seq<u8>) -> PpuState {
        self.dma_step(ticks, bytes).lcd_step(ticks)
    }

    /// Whether a run of `ticks` ticks requests the V-blank interrupt: it
    /// begins line 144.
    pub open spec fn raises_vblank(self, ticks: u16) -> bool {
        self.line_ends(ticks) && self.line_y + 1 == LCD_LINE_VBLANK_START
    }

    /// Whether the line that begins after the current one requests the LCD
    /// status interrupt: it equals the compare value, or it is line 144, and
    /// the event is selected in the status register.
    pub open spec fn next_line_raises_lcdstat(self) -> bool {
        ||| self.line_compare_value == self.line_y + 1 && self.line_compare_is
        ||| self.line_y + 1 == LCD_LINE_VBLANK_START && self.mode1_is
    }

    /// Whether bringing the mode up to date from the tick counter requests
    /// the LCD status interrupt: the sprite search or the horizontal blank is
    /// entered from another mode, and the event is selected in the status
    /// register.
    pub open spec fn mode_entry_raises_lcdstat(self) -> bool {
        let entered = mode_at(self.tick_counter);
        ||| entered != self.mode && entered == Mode::SPRITE_SEARCH && self.mode2_is
        ||| entered != self.mode && entered == Mode::HBLANK && self.mode0_is
    }

    /// Whether a run of `ticks` ticks requests the LCD status interrupt: it
    /// begins a line that requests it, or it enters a mode of a visible line
    /// that requests it.
    pub open spec fn raises_lcdstat(self, ticks: u16) -> bool {
        ||| self.line_ends(ticks) && self.next_line_raises_lcdstat()
        ||| self.count_ticks(ticks).in_visible_line() && self.count_ticks(
            ticks,
        ).mode_entry_raises_lcdstat()
    }
}

} // verus!
