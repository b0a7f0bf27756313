//! The pixel processing unit: tile memory and tile maps, object attribute
//! memory, the register plane, the transfer into object attribute memory, and
//! the line and mode timing that raises the V-blank and LCD status
//! interrupts.

use vstd::prelude::*;
use crate::bus::{join_bytes, high_byte, low_byte, BusRW, OPEN_BUS};
use crate::interrupt::InterruptStatus;
use crate::model::{
    LcdControl, Mode, PpuState, BG_PALETTE_ADDRESS, HBLANK_START_TICK, LCDC_ADDRESS,
    LCDC_BG_TILE_MAP_SELECT_MASK, LCDC_BG_WINDOW_PRIORITY_MASK,
    LCDC_BG_WINDOW_TILE_MAP_SELECT_MASK, LCDC_ENABLE_MASK, LCDC_OBJ_DISPLAY_ENABLE_MASK,
    LCDC_OBJ_SIZE_MASK, LCDC_WINDOW_DISPLAY_ENABLE_MASK, LCDC_WINDOW_TILE_MAP_MASK,
    LCDS_ADDRESS, LCDS_LINE_COMPARE_IS_MASK, LCDS_LINE_COMPARE_MASK, LCDS_MODE0_IS_MASK,
    LCDS_MODE1_IS_MASK, LCDS_MODE2_IS_MASK, LCD_LINE_VBLANK_END, LCD_LINE_VBLANK_START,
    LCD_TICKS_PER_LINE, LCD_TRANSFER_START_TICK, LYC_ADDRESS, LY_ADDRESS, OAM_DMA_REGISTER_ADDRESS,
    OAM_DMA_TRANSFER_TICKS, OAM_END_ADDRESS, OAM_RAM_SIZE, OAM_START_ADDRESS,
    OBJ_PALETTE1_ADDRESS, OBJ_PALETTE2_ADDRESS, SCX_ADDRESS, SCY_ADDRESS, TILEMAP_END_ADDRESS,
    TILEMAPS_SIZE, TILEMAP_START_ADDRESS, TILESET_COUNT, TILESET_END_ADDRESS, TILESET_RAM,
    TILESET_START_ADDRESS, WX_ADDRESS, WY_ADDRESS,
};
use crate::oam::{OamSprite, OAM_SPRITE_COUNT, OAM_SPRITE_SIZE};
use crate::palette::Palette;
use crate::tile::{Tile, TILE_SIZE};

verus! {

/// The unit. Beside the memories and registers as they were written it keeps
/// the tiles, the sprites, the LCD control flags and the palettes decoded.
pub struct PPU {
    tile_data: [u8; TILESET_RAM],
    tiles: [Tile; TILESET_COUNT],
    tilemaps: [u8; TILEMAPS_SIZE],
    sprites: [OamSprite; OAM_SPRITE_COUNT],
    sprite_data: [u8; OAM_RAM_SIZE],
    lcdc: u8,
    control: LcdControl,
    line_compare_is: bool,
    mode2_is: bool,
    mode1_is: bool,
    mode0_is: bool,
    line_compare: bool,
    mode: Mode,
    scroll_y: u8,
    scroll_x: u8,
    line_y: u8,
    line_compare_value: u8,
    window_y: u8,
    window_x: u8,
    bg_palette: Palette,
    obj_palette1: Palette,
    obj_palette2: Palette,
    oam_dma_ticks: u8,
    oam_dma_src: u16,
    tick_counter: u16,
}

impl View for PPU {
    type V = PpuState;

    /// The state that the unit is in.
    closed spec fn view(&self) -> PpuState {
        PpuState {
            tile_ram: self.tile_data@,
            tile_maps: self.tilemaps@,
            oam: self.sprite_data@,
            lcdc: self.lcdc,
            line_compare_is: self.line_compare_is,
            mode2_is: self.mode2_is,
            mode1_is: self.mode1_is,
            mode0_is: self.mode0_is,
            line_compare: self.line_compare,
            mode: self.mode,
            scroll_y: self.scroll_y,
            scroll_x: self.scroll_x,
            line_y: self.line_y,
            line_compare_value: self.line_compare_value,
            window_y: self.window_y,
            window_x: self.window_x,
            bg_palette: self.bg_palette.raw,
            obj_palette1: self.obj_palette1.raw,
            obj_palette2: self.obj_palette2.raw,
            oam_dma_ticks: self.oam_dma_ticks,
            oam_dma_src: self.oam_dma_src,
            tick_counter: self.tick_counter,
        }
    }
}

/// Whether every decoded tile holds the pixels that the tile memory `ram`
/// gives it.
#[verifier::opaque]
spec fn tiles_match(tiles: [Tile; TILESET_COUNT], ram: Seq<u8>) -> bool {
    forall|t: int, x: int, y: int|
        0 <= t < TILESET_COUNT && 0 <= x < 8 && 0 <= y < 8 ==> #[trigger] tiles[t].at(x, y)
            == crate::model::tile_pixel_in(ram, t, x, y)
}

/// Whether every decoded sprite is the one that the object attribute memory
/// `oam` gives.
#[verifier::opaque]
spec fn sprites_match(sprites: [OamSprite; OAM_SPRITE_COUNT], oam: Seq<u8>) -> bool {
    forall|i: int|
        0 <= i < OAM_SPRITE_COUNT ==> #[trigger] sprites[i] == crate::model::sprite_in(oam, i)
}

/// Whether `control` holds the flags that the LCD control register `lcdc`
/// encodes.
#[verifier::opaque]
spec fn control_matches(lcdc: u8, control: LcdControl) -> bool {
    control == crate::model::control_of(lcdc)
}

/// Whether the entries of each palette are those that its register byte
/// encodes.
#[verifier::opaque]
spec fn palettes_match(bg: Palette, obj1: Palette, obj2: Palette) -> bool {
    bg.wf() && obj1.wf() && obj2.wf()
}

impl PPU {
    /// The line is one of the frame's, and everything that the unit keeps
    /// decoded agrees with the memory or register that it was decoded from.
    pub closed spec fn coherent(&self) -> bool {
        &&& self.line_y <= LCD_LINE_VBLANK_END
        &&& tiles_match(self.tiles, self.tile_data@)
        &&& sprites_match(self.sprites, self.sprite_data@)
        &&& control_matches(self.lcdc, self.control)
        &&& palettes_match(self.bg_palette, self.obj_palette1, self.obj_palette2)
    }

    /// A coherent unit is in a well-formed state.
    pub proof fn lemma_coherent_wf(&self)
        requires
            self.coherent(),
        ensures
            self@.wf(),
    {
    }

    /// In a coherent unit the decoded flags are those of the state.
    proof fn lemma_control(&self)
        requires
            self.coherent(),
        ensures
            self.control == self@.control(),
            self.control.lcd_enabled == self@.lcd_enabled(),
    {
        reveal(control_matches);
    }

    /// A unit after a reset.
    pub fn new() -> (ppu: PPU)
        ensures
            ppu.coherent(),
            ppu@ == PpuState::initial(),
    {
        let blank_tile = Tile::new();
        let default_sprite = OamSprite::new();
        let ppu = PPU {
            tile_data: [0u8; TILESET_RAM],
            tiles: [blank_tile; TILESET_COUNT],
            tilemaps: [0u8; TILEMAPS_SIZE],
            sprites: [default_sprite; OAM_SPRITE_COUNT],
            sprite_data: [0u8; OAM_RAM_SIZE],
            lcdc: 0,
            control: LcdControl {
                lcd_enabled: false,
                window_tiles_high: false,
                window_enabled: false,
                bg_window_signed_addressing: false,
                bg_tiles_high: false,
                obj_double_sprites: false,
                obj_enabled: false,
                bg_window_enable: false,
            },
            line_compare_is: false,
            mode2_is: false,
            mode1_is: false,
            mode0_is: false,
            line_compare: false,
            mode: Mode::HBLANK,
            scroll_y: 0,
            scroll_x: 0,
            line_y: 0,
            line_compare_value: 0,
            window_y: 0,
            window_x: 0,
            bg_palette: Palette::new(),
            obj_palette1: Palette::new(),
            obj_palette2: Palette::new(),
            oam_dma_ticks: 0,
            oam_dma_src: 0,
            tick_counter: 0,
        };
        proof {
            assert(ppu@.tile_ram =~= PpuState::initial().tile_ram);
            assert(ppu@.tile_maps =~= PpuState::initial().tile_maps);
            assert(ppu@.oam =~= PpuState::initial().oam);
            assert(0u8 & 0x80 == 0 && 0u8 & 0x40 == 0 && 0u8 & 0x20 == 0 && 0u8 & 0x10 == 0 && 0u8
                & 0x08 == 0 && 0u8 & 0x04 == 0 && 0u8 & 0x02 == 0 && 0u8 & 0x01 == 0)
                by (bit_vector);
            reveal(tiles_match);
            reveal(sprites_match);
            reveal(control_matches);
            reveal(palettes_match);
            assert forall|t: int, x: int, y: int|
                0 <= t < TILESET_COUNT && 0 <= x < 8 && 0 <= y < 8 implies #[trigger] ppu.tiles[t].at(
                x,
                y,
            ) == ppu@.tile_pixel(t, x, y) by {
                let col = x as u8;
                assert((((0u8 >> ((7 - col) as u8)) & 1) << 1) | ((0u8 >> ((7 - col) as u8)) & 1)
                    == 0) by (bit_vector)
                    requires
                        col < 8,
                ;
            }
        }
        ppu
    }

    /// Stores a byte of tile memory and decodes it into the row of the tile
    /// that it belongs to.
    fn tile_write(&mut self, data: u8, addr: usize)
        requires
            old(self).coherent(),
            PpuState::in_tile_ram(addr),
        ensures
            final(self).coherent(),
            final(self)@ == old(self)@.write8(addr, data),
    {
        let offset: usize = addr - TILESET_START_ADDRESS;
        let index: usize = offset / TILE_SIZE;
        let y: usize = (addr >> 1) & 0x7;
        let msb: bool = (addr & 0x01) != 0;
        assert((addr >> 1) & 0x7 == ((addr - 0x8000) as usize / 2) % 8 && ((addr & 0x01) != 0) == ((
        addr - 0x8000) as usize % 2 == 1)) by (bit_vector)
            requires
                0x8000 <= addr <= 0x97FF,
        ;
        self.tile_data[offset] = data;
        self.tiles[index].update_row(data, y, msb);
        proof {
            reveal(tiles_match);
            let before = old(self)@.tile_ram;
            let after = self@.tile_ram;
            assert(after =~= before.update(offset as int, data));
            assert forall|t: int, x: int, row: int|
                0 <= t < TILESET_COUNT && 0 <= x < 8 && 0 <= row < 8 implies #[trigger] self.tiles[t]
                    .at(x, row) == self@.tile_pixel(t, x, row) by {
                assert(old(self).tiles[t].at(x, row) == old(self)@.tile_pixel(t, x, row));
                if t == index && row == y {
                    crate::tile::lemma_plane_write(
                        before[16 * t + 2 * row],
                        before[16 * t + 2 * row + 1],
                        data,
                        x as u8,
                    );
                }
            }
        }
    }

    /// Stores a byte of object attribute memory and decodes it into the field
    /// of the sprite that it belongs to.
    fn sprite_write(&mut self, data: u8, addr: usize)
        requires
            old(self).coherent(),
            PpuState::in_oam(addr),
        ensures
            final(self).coherent(),
            final(self)@ == old(self)@.write8(addr, data),
    {
        let offset: usize = addr - OAM_START_ADDRESS;
        let index: usize = offset / OAM_SPRITE_SIZE;
        let field: usize = addr & 0b11;
        assert(addr & 0b11 == (addr - 0xFE00) as usize % 4) by (bit_vector)
            requires
                0xFE00 <= addr < 0xFEA0,
        ;
        let mut sprite: OamSprite = self.sprites[index];
        if field == 0 {
            sprite.ypos = data;
        } else if field == 1 {
            sprite.xpos = data;
        } else if field == 2 {
            sprite.tile = data;
        } else {
            sprite.set_attrib_byte(data);
        }
        proof {
            reveal(sprites_match);
            crate::laws::lemma_oam_write(old(self)@, addr, data);
            assert(old(self).sprites[index as int] == old(self)@.sprite(index as int));
            assert(sprite == old(self)@.write8(addr, data).sprite(index as int));
        }
        self.sprites[index] = sprite;
        self.sprite_data[offset] = data;
        proof {
            assert(self@.oam =~= old(self)@.oam.update(offset as int, data));
            assert forall|i: int| 0 <= i < OAM_SPRITE_COUNT implies #[trigger] self.sprites[i]
                == self@.sprite(i) by {
                assert(old(self).sprites[i] == old(self)@.sprite(i));
                assert(self@.sprite(i) == old(self)@.write8(addr, data).sprite(i));
            }
        }
    }

    /// Stores the LCD control register and decodes its eight flags.
    fn lcdc_write(&mut self, data: u8)
        requires
            old(self).coherent(),
        ensures
            final(self).coherent(),
            final(self)@ == old(self)@.write8(LCDC_ADDRESS, data),
    {
        self.lcdc = data;
        self.control = LcdControl {
            lcd_enabled: data & LCDC_ENABLE_MASK != 0,
            window_tiles_high: data & LCDC_WINDOW_TILE_MAP_MASK != 0,
            window_enabled: data & LCDC_WINDOW_DISPLAY_ENABLE_MASK != 0,
            bg_window_signed_addressing: data & LCDC_BG_WINDOW_TILE_MAP_SELECT_MASK != 0,
            bg_tiles_high: data & LCDC_BG_TILE_MAP_SELECT_MASK != 0,
            obj_double_sprites: data & LCDC_OBJ_SIZE_MASK != 0,
            obj_enabled: data & LCDC_OBJ_DISPLAY_ENABLE_MASK != 0,
            bg_window_enable: data & LCDC_BG_WINDOW_PRIORITY_MASK != 0,
        };
        proof {
            reveal(control_matches);
        }
    }

    /// Stores the four interrupt selections of the LCD status register. The
    /// other bits of the register cannot be written.
    fn lcds_write(&mut self, data: u8)
        requires
            old(self).coherent(),
        ensures
            final(self).coherent(),
            final(self)@ == old(self)@.write8(LCDS_ADDRESS, data),
    {
        self.line_compare_is = data & LCDS_LINE_COMPARE_IS_MASK != 0;
        self.mode2_is = data & LCDS_MODE2_IS_MASK != 0;
        self.mode1_is = data & LCDS_MODE1_IS_MASK != 0;
        self.mode0_is = data & LCDS_MODE0_IS_MASK != 0;
    }

    /// Puts the LCD status register together from the interrupt selections,
    /// the line compare flag and the mode.
    fn lcds_read(&self) -> (value: u8)
        ensures
            value == self@.lcds(),
    {
        let mut value: u8 = 0;
        if self.line_compare_is {
            value = value | LCDS_LINE_COMPARE_IS_MASK;
        }
        if self.mode2_is {
            value = value | LCDS_MODE2_IS_MASK;
        }
        if self.mode1_is {
            value = value | LCDS_MODE1_IS_MASK;
        }
        if self.mode0_is {
            value = value | LCDS_MODE0_IS_MASK;
        }
        if self.line_compare {
            value = value | LCDS_LINE_COMPARE_MASK;
        }
        let number: u8 = match self.mode {
            Mode::HBLANK => 0,
            Mode::VBLANK => 1,
            Mode::SPRITE_SEARCH => 2,
            Mode::LCD_TRANSFER => 3,
        };
        assert(forall|a: u8| 0u8 | a == a && a | 0u8 == a) by (bit_vector);
        value | number
    }

    /// Stages a transfer into object attribute memory from the page whose
    /// high address byte is `target`. The bytes are copied by the next run of
    /// ticks.
    fn dma_start(&mut self, target: u8)
        requires
            old(self).coherent(),
        ensures
            final(self).coherent(),
            final(self)@ == old(self)@.write8(OAM_DMA_REGISTER_ADDRESS, target),
    {
        self.oam_dma_src = join_bytes(0, target);
        self.oam_dma_ticks = OAM_DMA_TRANSFER_TICKS;
    }

    /// Whether a transfer into object attribute memory is under way.
    pub fn dma_active(&self) -> (active: bool)
        ensures
            active == (self@.oam_dma_ticks != 0),
    {
        self.oam_dma_ticks != 0
    }

    /// Copies the 160 bytes from the staged source address on into object
    /// attribute memory, each byte read from `bus` and stored as a write to
    /// object attribute memory stores it.
    fn dma_transfer<B: BusRW>(&mut self, bus: &mut B)
        requires
            old(self).coherent(),
            old(bus).wf(),
            forall|a: usize|
                old(self)@.oam_dma_src <= a < old(self)@.oam_dma_src + 160 ==> #[trigger] old(
                    bus,
                ).accepts(a),
        ensures
            final(self).coherent(),
            final(bus).wf(),
            forall|a: usize| #[trigger] final(bus).accepts(a) == old(bus).accepts(a),
            final(self)@ == (PpuState { oam: final(self)@.oam, ..old(self)@ }),
            crate::bus::reads_run(
                old(bus),
                old(self)@.oam_dma_src as usize,
                final(self)@.oam,
                final(bus),
            ),
    {
        let address: usize = self.oam_dma_src as usize;
        let mut x: usize = 0;
        assert(self@.oam.take(0) =~= Seq::<u8>::empty());
        while x < OAM_RAM_SIZE
            invariant
                x <= 160,
                address == old(self)@.oam_dma_src,
                self.coherent(),
                bus.wf(),
                forall|a: usize| #[trigger] bus.accepts(a) == old(bus).accepts(a),
                forall|a: usize|
                    old(self)@.oam_dma_src <= a < old(self)@.oam_dma_src + 160 ==> #[trigger] old(
                        bus,
                    ).accepts(a),
                self@ == (PpuState { oam: self@.oam, ..old(self)@ }),
                crate::bus::reads_run(old(bus), address, self@.oam.take(x as int), bus),
            decreases 160 - x,
        {
            let ghost middle = *bus;
            let ghost loaded = self@.oam.take(x as int);
            let value: u8 = bus.bus_read8(address + x);
            self.sprite_write(value, OAM_START_ADDRESS + x);
            x += 1;
            proof {
                assert(self@.oam.take(x as int) =~= loaded.push(value));
                crate::bus::lemma_reads_run_extend(
                    old(bus),
                    address,
                    loaded,
                    &middle,
                    value,
                    bus,
                );
            }
        }
        assert(self@.oam.take(160) =~= self@.oam);
    }

    /// The transfer's part of a run of ticks: copies the bytes when a
    /// transfer was just staged, and counts the transfer's ticks down.
    fn update_dma<B: BusRW>(&mut self, ticks: u16, bus: &mut B)
        requires
            old(self).coherent(),
            old(bus).wf(),
            old(self)@.dma_due() ==> forall|a: usize|
                old(self)@.oam_dma_src <= a < old(self)@.oam_dma_src + 160 ==> #[trigger] old(
                    bus,
                ).accepts(a),
        ensures
            final(self).coherent(),
            final(bus).wf(),
            forall|a: usize| #[trigger] final(bus).accepts(a) == old(bus).accepts(a),
            final(self)@ == old(self)@.dma_step(ticks, final(self)@.oam),
            old(self)@.dma_due() ==> crate::bus::reads_run(
                old(bus),
                old(self)@.oam_dma_src as usize,
                final(self)@.oam,
                final(bus),
            ),
            !old(self)@.dma_due() ==> *final(bus) == *old(bus),
    {
        if self.oam_dma_ticks > 0 {
            if self.oam_dma_ticks == OAM_DMA_TRANSFER_TICKS {
                self.dma_transfer(bus);
            }
            if self.oam_dma_ticks as u16 > ticks {
                self.oam_dma_ticks -= ticks as u8;
            } else {
                self.oam_dma_ticks = 0;
            }
        }
    }

    /// Where a line would be drawn. The unit keeps no picture, so a line
    /// leaves the unit as it is.
    fn draw_line(&mut self)
        ensures
            *final(self) == *old(self),
    {
    }

    /// Begins the next line: compares it with the compare value, enters the
    /// vertical blank at line 144, and wraps to line 0 after line 153.
    fn begin_line(&mut self, interrupts: &mut InterruptStatus)
        requires
            old(self).coherent(),
        ensures
            final(self).coherent(),
            final(self)@ == old(self)@.begin_line(old(self)@.tick_counter),
            old(interrupts).latches(
                old(self)@.line_y + 1 == LCD_LINE_VBLANK_START,
                old(self)@.next_line_raises_lcdstat(),
                final(interrupts),
            ),
    {
        self.line_y += 1;
        self.line_compare = self.line_compare_value == self.line_y;
        if self.line_compare {
            if self.line_compare_is {
                interrupts.request_lcdstat();
            }
        }
        if self.line_y == LCD_LINE_VBLANK_START {
            self.mode = Mode::VBLANK;
            interrupts.request_vblank();
            if self.mode1_is {
                interrupts.request_lcdstat();
            }
        }
        if self.line_y > LCD_LINE_VBLANK_END {
            self.line_y = 0;
            self.mode = Mode::SPRITE_SEARCH;
        }
        self.draw_line();
    }

    /// Brings the mode of a visible line up to date from the tick counter.
    fn update_mode(&mut self, interrupts: &mut InterruptStatus)
        requires
            old(self).coherent(),
        ensures
            final(self).coherent(),
            final(self)@ == (PpuState {
                mode: crate::model::mode_at(old(self)@.tick_counter),
                ..old(self)@
            }),
            old(interrupts).latches(
                false,
                old(self)@.mode_entry_raises_lcdstat(),
                final(interrupts),
            ),
    {
        let new_mode = if self.tick_counter < LCD_TRANSFER_START_TICK {
            Mode::SPRITE_SEARCH
        } else if self.tick_counter < HBLANK_START_TICK {
            Mode::LCD_TRANSFER
        } else {
            Mode::HBLANK
        };
        if new_mode != self.mode {
            self.mode = new_mode;
            match new_mode {
                Mode::SPRITE_SEARCH => {
                    if self.mode2_is {
                        interrupts.request_lcdstat();
                    }
                },
                Mode::HBLANK => {
                    if self.mode0_is {
                        interrupts.request_lcdstat();
                    }
                },
                _ => {},
            }
        }
    }

    /// Runs the unit for `ticks` clock ticks.
    ///
    /// A transfer into object attribute memory that was staged since the last
    /// run copies its 160 bytes from `bus`, and the ticks that the transfer
    /// takes go down. While the display is on, the ticks are counted into
    /// the line; a line that ends begins the next one, which may raise the
    /// V-blank and the LCD status interrupt, and within a visible line the
    /// mode follows the tick counter, which may raise the LCD status
    /// interrupt.
    ///
    /// The tick counter is 16 bits wide and must have room for the ticks
    /// while the display is on, and `bus` must accept the 160 addresses that
    /// a due transfer reads.
    pub fn execute_ticks<B: BusRW>(
        &mut self,
        ticks: u16,
        bus: &mut B,
        interrupts: &mut InterruptStatus,
    )
        requires
            old(self).coherent(),
            old(bus).wf(),
            old(self)@.lcd_enabled() ==> old(self)@.tick_counter + ticks <= u16::MAX,
            old(self)@.dma_due() ==> forall|a: usize|
                old(self)@.oam_dma_src <= a < old(self)@.oam_dma_src + 160 ==> #[trigger] old(
                    bus,
                ).accepts(a),
        ensures
            final(self).coherent(),
            final(self)@ == old(self)@.tick(ticks, final(self)@.oam),
            final(bus).wf(),
            forall|a: usize| #[trigger] final(bus).accepts(a) == old(bus).accepts(a),
            old(self)@.dma_due() ==> crate::bus::reads_run(
                old(bus),
                old(self)@.oam_dma_src as usize,
                final(self)@.oam,
                final(bus),
            ),
            !old(self)@.dma_due() ==> *final(bus) == *old(bus),
            old(interrupts).latches(
                old(self)@.raises_vblank(ticks),
                old(self)@.raises_lcdstat(ticks),
                final(interrupts),
            ),
    {
        self.update_dma(ticks, bus);
        proof {
            self.lemma_control();
        }
        if self.control.lcd_enabled {
            self.tick_counter += ticks;
            if self.tick_counter >= LCD_TICKS_PER_LINE {
                self.tick_counter -= LCD_TICKS_PER_LINE;
                self.begin_line(interrupts);
            }
            if self.line_y < LCD_LINE_VBLANK_START {
                self.update_mode(interrupts);
            }
        }
    }
}

impl PPU {
    /// Whether the unit answers to `addr`. Reads and writes are for these
    /// addresses only.
    pub fn covers(addr: usize) -> (covered: bool)
        ensures
            covered == PpuState::covers(addr),
    {
        (addr >= TILESET_START_ADDRESS && addr <= TILESET_END_ADDRESS) || (addr
            >= TILEMAP_START_ADDRESS && addr <= TILEMAP_END_ADDRESS) || (addr >= OAM_START_ADDRESS
            && addr < OAM_END_ADDRESS) || (addr >= LCDC_ADDRESS && addr <= WX_ADDRESS)
    }

    /// Decoded tile `index`.
    pub fn tile(&self, index: usize) -> (tile: &Tile)
        requires
            self.coherent(),
            index < TILESET_COUNT,
        ensures
            forall|x: int, y: int|
                0 <= x < 8 && 0 <= y < 8 ==> #[trigger] tile.at(x, y) == self@.tile_pixel(
                    index as int,
                    x,
                    y,
                ),
    {
        proof {
            reveal(tiles_match);
        }
        &self.tiles[index]
    }

    /// Decoded sprite `index`.
    pub fn sprite(&self, index: usize) -> (sprite: OamSprite)
        requires
            self.coherent(),
            index < OAM_SPRITE_COUNT,
        ensures
            sprite == self@.sprite(index as int),
    {
        proof {
            reveal(sprites_match);
        }
        self.sprites[index]
    }

    /// Tile memory as it was written.
    pub fn tile_data(&self) -> (bytes: &[u8; TILESET_RAM])
        ensures
            bytes@ == self@.tile_ram,
    {
        &self.tile_data
    }

    /// The two tile maps as they were written.
    pub fn tilemaps(&self) -> (bytes: &[u8; TILEMAPS_SIZE])
        ensures
            bytes@ == self@.tile_maps,
    {
        &self.tilemaps
    }

    /// Object attribute memory as it was written.
    pub fn sprite_data(&self) -> (bytes: &[u8; OAM_RAM_SIZE])
        ensures
            bytes@ == self@.oam,
    {
        &self.sprite_data
    }

    /// The LCD control register.
    pub fn lcdc(&self) -> (value: u8)
        ensures
            value == self@.lcdc,
    {
        self.lcdc
    }

    /// The decoded flags of the LCD control register.
    pub fn control(&self) -> (control: LcdControl)
        requires
            self.coherent(),
        ensures
            control == self@.control(),
    {
        proof {
            reveal(control_matches);
        }
        self.control
    }

    /// Whether a line that equals the compare value raises the LCD status
    /// interrupt.
    pub fn line_compare_is(&self) -> (selected: bool)
        ensures
            selected == self@.line_compare_is,
    {
        self.line_compare_is
    }

    /// Whether entering the sprite search raises the LCD status interrupt.
    pub fn mode2_is(&self) -> (selected: bool)
        ensures
            selected == self@.mode2_is,
    {
        self.mode2_is
    }

    /// Whether entering the vertical blank raises the LCD status interrupt.
    pub fn mode1_is(&self) -> (selected: bool)
        ensures
            selected == self@.mode1_is,
    {
        self.mode1_is
    }

    /// Whether entering the horizontal blank raises the LCD status interrupt.
    pub fn mode0_is(&self) -> (selected: bool)
        ensures
            selected == self@.mode0_is,
    {
        self.mode0_is
    }

    /// Whether the current line equalled the compare value when it began.
    pub fn line_compare(&self) -> (equal: bool)
        ensures
            equal == self@.line_compare,
    {
        self.line_compare
    }

    /// The mode that the display is in.
    pub fn mode(&self) -> (mode: Mode)
        ensures
            mode == self@.mode,
    {
        self.mode
    }

    /// The vertical scroll register.
    pub fn scroll_y(&self) -> (value: u8)
        ensures
            value == self@.scroll_y,
    {
        self.scroll_y
    }

    /// The horizontal scroll register.
    pub fn scroll_x(&self) -> (value: u8)
        ensures
            value == self@.scroll_x,
    {
        self.scroll_x
    }

    /// The current line.
    pub fn line_y(&self) -> (value: u8)
        ensures
            value == self@.line_y,
    {
        self.line_y
    }

    /// The line that the current line is compared with.
    pub fn line_compare_value(&self) -> (value: u8)
        ensures
            value == self@.line_compare_value,
    {
        self.line_compare_value
    }

    /// The window's vertical position.
    pub fn window_y(&self) -> (value: u8)
        ensures
            value == self@.window_y,
    {
        self.window_y
    }

    /// The window's horizontal position.
    pub fn window_x(&self) -> (value: u8)
        ensures
            value == self@.window_x,
    {
        self.window_x
    }

    /// The background palette.
    pub fn bg_palette(&self) -> (palette: &Palette)
        requires
            self.coherent(),
        ensures
            palette.raw == self@.bg_palette,
            palette.wf(),
    {
        proof {
            reveal(palettes_match);
        }
        &self.bg_palette
    }

    /// The first object palette.
    pub fn obj_palette1(&self) -> (palette: &Palette)
        requires
            self.coherent(),
        ensures
            palette.raw == self@.obj_palette1,
            palette.wf(),
    {
        proof {
            reveal(palettes_match);
        }
        &self.obj_palette1
    }

    /// The second object palette.
    pub fn obj_palette2(&self) -> (palette: &Palette)
        requires
            self.coherent(),
        ensures
            palette.raw == self@.obj_palette2,
            palette.wf(),
    {
        proof {
            reveal(palettes_match);
        }
        &self.obj_palette2
    }

    /// The ticks that the transfer into object attribute memory still takes.
    pub fn oam_dma_ticks(&self) -> (ticks: u8)
        ensures
            ticks == self@.oam_dma_ticks,
    {
        self.oam_dma_ticks
    }

    /// The address that the transfer into object attribute memory reads
    /// from.
    pub fn oam_dma_src(&self) -> (addr: u16)
        ensures
            addr == self@.oam_dma_src,
    {
        self.oam_dma_src
    }

    /// The ticks of the current line that have gone by.
    pub fn tick_counter(&self) -> (ticks: u16)
        ensures
            ticks == self@.tick_counter,
    {
        self.tick_counter
    }
}

impl BusRW for PPU {
    /// The unit is coherent.
    open spec fn wf(&self) -> bool {
        self.coherent()
    }

    /// The unit answers to tile memory, the tile maps, object attribute
    /// memory and its registers, and to nothing else.
    open spec fn accepts(&self, addr: usize) -> bool {
        PpuState::covers(addr)
    }

    /// A read returns what the state holds at the address and changes
    /// nothing.
    open spec fn reads(&self, addr: usize, value: u8, next: &Self) -> bool {
        value == self@.read8(addr) && *next == *self
    }

    /// A write leads to the state that the model gives for it.
    open spec fn writes(&self, addr: usize, value: u8, next: &Self) -> bool {
        next@ == self@.write8(addr, value)
    }

    fn bus_read8(&mut self, addr: usize) -> (value: u8) {
        if addr >= TILESET_START_ADDRESS && addr <= TILESET_END_ADDRESS {
            self.tile_data[addr - TILESET_START_ADDRESS]
        } else if addr >= TILEMAP_START_ADDRESS && addr <= TILEMAP_END_ADDRESS {
            self.tilemaps[addr - TILEMAP_START_ADDRESS]
        } else if addr >= OAM_START_ADDRESS && addr < OAM_END_ADDRESS {
            self.sprite_data[addr - OAM_START_ADDRESS]
        } else if addr == LCDC_ADDRESS {
            self.lcdc
        } else if addr == LCDS_ADDRESS {
            self.lcds_read()
        } else if addr == SCY_ADDRESS {
            self.scroll_y
        } else if addr == SCX_ADDRESS {
            self.scroll_x
        } else if addr == LY_ADDRESS {
            self.line_y
        } else if addr == LYC_ADDRESS {
            self.line_compare_value
        } else if addr == WY_ADDRESS {
            self.window_y
        } else if addr == WX_ADDRESS {
            self.window_x
        } else if addr == BG_PALETTE_ADDRESS {
            self.bg_palette.raw
        } else if addr == OBJ_PALETTE1_ADDRESS {
            self.obj_palette1.raw
        } else if addr == OBJ_PALETTE2_ADDRESS {
            self.obj_palette2.raw
        } else if addr == OAM_DMA_REGISTER_ADDRESS {
            high_byte(self.oam_dma_src)
        } else {
            OPEN_BUS
        }
    }

    fn bus_write8(&mut self, addr: usize, value: u8) {
        if addr >= TILESET_START_ADDRESS && addr <= TILESET_END_ADDRESS {
            self.tile_write(value, addr);
        } else if addr >= TILEMAP_START_ADDRESS && addr <= TILEMAP_END_ADDRESS {
            self.tilemaps[addr - TILEMAP_START_ADDRESS] = value;
            assert(self@.tile_maps =~= old(self)@.tile_maps.update(
                addr - TILEMAP_START_ADDRESS,
                value,
            ));
        } else if addr >= OAM_START_ADDRESS && addr < OAM_END_ADDRESS {
            self.sprite_write(value, addr);
        } else if addr == LCDC_ADDRESS {
            self.lcdc_write(value);
        } else if addr == LCDS_ADDRESS {
            self.lcds_write(value);
        } else if addr == SCY_ADDRESS {
            self.scroll_y = value;
        } else if addr == SCX_ADDRESS {
            self.scroll_x = value;
        } else if addr == LY_ADDRESS {
        } else if addr == LYC_ADDRESS {
            self.line_compare_value = value;
        } else if addr == WY_ADDRESS {
            self.window_y = value;
        } else if addr == WX_ADDRESS {
            self.window_x = value;
        } else if addr == BG_PALETTE_ADDRESS {
            proof {
                reveal(palettes_match);
            }
            self.bg_palette.update(value);
        } else if addr == OBJ_PALETTE1_ADDRESS {
            proof {
                reveal(palettes_match);
            }
            self.obj_palette1.update(value);
        } else if addr == OBJ_PALETTE2_ADDRESS {
            proof {
                reveal(palettes_match);
            }
            self.obj_palette2.update(value);
        } else if addr == OAM_DMA_REGISTER_ADDRESS {
            self.dma_start(value);
        }
    }

    fn bus_read16(&mut self, addr: usize) -> (value: u16)
        ensures
            value == crate::bus::word_of(
                old(self)@.read8(addr),
                old(self)@.read8((addr + 1) as usize),
            ),
            *final(self) == *old(self),
    {
        let high: u8 = self.bus_read8(addr + 1);
        let low: u8 = self.bus_read8(addr);
        let value: u16 = join_bytes(low, high);
        proof {
            assert(old(self).reads((addr + 1) as usize, (value / 256) as u8, self));
        }
        value
    }

    fn bus_write16(&mut self, addr: usize, value: u16)
        ensures
            final(self)@ == old(self)@.write8(addr, (value % 256) as u8).write8(
                (addr + 1) as usize,
                (value / 256) as u8,
            ),
    {
        let ghost before = *self;
        self.bus_write8(addr, low_byte(value));
        let ghost middle = *self;
        self.bus_write8(addr + 1, high_byte(value));
        proof {
            assert(before.writes(addr, (value % 256) as u8, &middle));
        }
    }
}

} // verus!
