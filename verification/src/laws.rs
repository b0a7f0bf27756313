//! What holds of the unit's state for every address, every byte and every
//! run of ticks.

use vstd::prelude::*;
use crate::model::{
    PpuState, BG_PALETTE_ADDRESS, LCDS_ADDRESS, LY_ADDRESS, OAM_START_ADDRESS,
    OBJ_PALETTE1_ADDRESS, OBJ_PALETTE2_ADDRESS, TILESET_START_ADDRESS,
};
use crate::oam::OamSprite;
use crate::palette::palette_entry;
use crate::tile::{row_bit, with_plane_bit};

verus! {

/// A flag as a number: 1 when it is set, 0 when it is not.
pub open spec fn bit_of(flag: bool) -> u8 {
    if flag {
        1
    } else {
        0
    }
}

/// A byte written to object attribute memory is read back, and of the decoded
/// sprites only the one that the byte belongs to changes, in the field that
/// the byte stands for: the vertical position, the horizontal position, the
/// tile index, or the four attribute flags.
pub proof fn lemma_oam_write(state: PpuState, addr: usize, value: u8)
    requires
        state.wf(),
        PpuState::in_oam(addr),
    ensures
        state.write8(addr, value).wf(),
        state.write8(addr, value).read8(addr) == value,
        forall|i: int|
            0 <= i < 40 ==> #[trigger] state.write8(addr, value).sprite(i) == if i != (addr
                - OAM_START_ADDRESS) / 4 {
                state.sprite(i)
            } else if (addr - OAM_START_ADDRESS) % 4 == 0 {
                OamSprite { ypos: value, ..state.sprite(i) }
            } else if (addr - OAM_START_ADDRESS) % 4 == 1 {
                OamSprite { xpos: value, ..state.sprite(i) }
            } else if (addr - OAM_START_ADDRESS) % 4 == 2 {
                OamSprite { tile: value, ..state.sprite(i) }
            } else {
                crate::oam::sprite_of(
                    state.sprite(i).ypos,
                    state.sprite(i).xpos,
                    state.sprite(i).tile,
                    value,
                )
            },
{
}

/// A byte written to tile memory is read back, and of the decoded pixels
/// only those of one row of one tile change: in tile `(addr - 0x8000) / 16`,
/// row `(addr >> 1) & 7`, every pixel gets the byte's bit for its column in
/// the plane that the address stands for, the low plane at an even address
/// and the high plane at an odd one, and keeps its bit of the other plane.
pub proof fn lemma_tile_write(state: PpuState, addr: usize, value: u8)
    requires
        state.wf(),
        PpuState::in_tile_ram(addr),
    ensures
        state.write8(addr, value).wf(),
        state.write8(addr, value).read8(addr) == value,
        forall|t: int, x: int, y: int|
            0 <= t < 0x180 && 0 <= x < 8 && 0 <= y < 8 ==> #[trigger] state.write8(
                addr,
                value,
            ).tile_pixel(t, x, y) == if t == (addr - TILESET_START_ADDRESS) / 16 && y == ((addr
                >> 1) & 7) {
                with_plane_bit(state.tile_pixel(t, x, y), addr & 1 != 0, row_bit(value, x as u8))
            } else {
                state.tile_pixel(t, x, y)
            },
{
    let offset = (addr - TILESET_START_ADDRESS) as usize;
    assert((addr >> 1) & 0x7 == ((addr - 0x8000) as usize / 2) % 8 && ((addr & 0x01) != 0) == ((
    addr - 0x8000) as usize % 2 == 1)) by (bit_vector)
        requires
            0x8000 <= addr <= 0x97FF,
    ;
    let after = state.write8(addr, value);
    assert forall|t: int, x: int, y: int|
        0 <= t < 0x180 && 0 <= x < 8 && 0 <= y < 8 implies #[trigger] after.tile_pixel(t, x, y)
        == if t == (addr - TILESET_START_ADDRESS) / 16 && y == ((addr >> 1) & 7) {
        with_plane_bit(state.tile_pixel(t, x, y), addr & 1 != 0, row_bit(value, x as u8))
    } else {
        state.tile_pixel(t, x, y)
    } by {
        if t == offset / 16 && y == (offset / 2) % 8 {
            crate::tile::lemma_plane_write(
                state.tile_ram[16 * t + 2 * y],
                state.tile_ram[16 * t + 2 * y + 1],
                value,
                x as u8,
            );
        }
    }
}

/// Every decoded pixel is one of the four legal values.
pub proof fn lemma_tile_pixel_legal(state: PpuState, tile: int, x: int, y: int)
    requires
        0 <= x < 8,
    ensures
        state.tile_pixel(tile, x, y) <= 3,
{
    crate::tile::lemma_plane_pixel_legal(
        state.tile_ram[16 * tile + 2 * y],
        state.tile_ram[16 * tile + 2 * y + 1],
        x as u8,
    );
}

/// After a write to the status register the register reads as the four
/// written interrupt selections, bits 6 to 3 of the written byte, beside the
/// line compare flag in bit 2 and the mode in bits 1 and 0, which the write
/// leaves as they were.
pub proof fn lemma_lcds_write(state: PpuState, value: u8)
    ensures
        state.write8(LCDS_ADDRESS, value).read8(LCDS_ADDRESS) == (value & 0x78) | (bit_of(
            state.line_compare,
        ) << 2) | state.mode.number(),
        state.write8(LCDS_ADDRESS, value).line_compare == state.line_compare,
        state.write8(LCDS_ADDRESS, value).mode == state.mode,
{
    let flag: u8 = bit_of(state.line_compare);
    let number: u8 = state.mode.number();
    assert(((if value & 0x40 != 0 {
        0x40u8
    } else {
        0u8
    }) | (if value & 0x20 != 0 {
        0x20u8
    } else {
        0u8
    }) | (if value & 0x10 != 0 {
        0x10u8
    } else {
        0u8
    }) | (if value & 0x08 != 0 {
        0x08u8
    } else {
        0u8
    }) | (if flag == 1 {
        0x04u8
    } else {
        0u8
    }) | number) == ((value & 0x78) | (flag << 2) | number)) by (bit_vector)
        requires
            flag <= 1,
    ;
}

/// A byte written to a palette register is read back, and the four decoded
/// entries of that palette are the byte's four pairs of bits, entry `i` the
/// pair from bit `2 * i` up.
pub proof fn lemma_palette_write(state: PpuState, addr: usize, value: u8)
    requires
        addr == BG_PALETTE_ADDRESS || addr == OBJ_PALETTE1_ADDRESS || addr
            == OBJ_PALETTE2_ADDRESS,
    ensures
        state.write8(addr, value).read8(addr) == value,
        forall|i: u8|
            i < 4 ==> #[trigger] palette_entry(state.write8(addr, value).read8(addr), i) == (value
                >> ((2 * i) as u8)) & 3,
        addr == BG_PALETTE_ADDRESS ==> state.write8(addr, value).bg_palette == value,
        addr == OBJ_PALETTE1_ADDRESS ==> state.write8(addr, value).obj_palette1 == value,
        addr == OBJ_PALETTE2_ADDRESS ==> state.write8(addr, value).obj_palette2 == value,
{
}

/// A write to the register of the current line changes nothing.
pub proof fn lemma_line_write_ignored(state: PpuState, value: u8)
    ensures
        state.write8(LY_ADDRESS, value) == state,
        state.write8(LY_ADDRESS, value).line_y == state.line_y,
{
}

/// While the display is off, a run of ticks changes neither the line, nor
/// the tick counter, nor the mode, and requests no interrupt. The transfer
/// into object attribute memory goes on all the same: a transfer that is due
/// loads its bytes, and its ticks go down by the ticks of the run, but not
/// below 0.
pub proof fn lemma_display_off(state: PpuState, ticks: u16, bytes: Seq<u8>)
    requires
        !state.lcd_enabled(),
    ensures
        state.tick(ticks, bytes).line_y == state.line_y,
        state.tick(ticks, bytes).tick_counter == state.tick_counter,
        state.tick(ticks, bytes).mode == state.mode,
        state.tick(ticks, bytes).line_compare == state.line_compare,
        !state.raises_vblank(ticks),
        !state.raises_lcdstat(ticks),
        state.tick(ticks, bytes).oam_dma_ticks == if state.oam_dma_ticks > ticks {
            state.oam_dma_ticks - ticks
        } else {
            0
        },
        state.dma_due() ==> state.tick(ticks, bytes).oam == bytes,
        !state.dma_due() ==> state.tick(ticks, bytes).oam == state.oam,
{
}

/// A write keeps a well-formed state well formed.
pub proof fn lemma_write_keeps_wf(state: PpuState, addr: usize, value: u8)
    requires
        state.wf(),
        PpuState::covers(addr),
    ensures
        state.write8(addr, value).wf(),
{
}

/// A run of ticks keeps a well-formed state well formed: the line stays
/// one of the frame's 154, and while the ticks of a run do not exceed a
/// line's, the tick counter stays below the ticks of a line.
pub proof fn lemma_tick_keeps_wf(state: PpuState, ticks: u16, bytes: Seq<u8>)
    requires
        state.wf(),
        bytes.len() == 160,
    ensures
        state.tick(ticks, bytes).wf(),
        state.tick_counter < 456 && ticks <= 456 ==> state.tick(ticks, bytes).tick_counter < 456,
{
}

/// A write changes what is read at its own address only.
pub proof fn lemma_write_elsewhere(state: PpuState, addr: usize, other: usize, value: u8)
    requires
        state.wf(),
        PpuState::covers(addr),
        PpuState::covers(other),
        addr != other,
    ensures
        state.write8(addr, value).read8(other) == state.read8(other),
{
}

/// No write moves the display: the line, the tick counter, the mode and the
/// line compare flag change with the ticks only.
pub proof fn lemma_write_keeps_display(state: PpuState, addr: usize, value: u8)
    ensures
        state.write8(addr, value).line_y == state.line_y,
        state.write8(addr, value).tick_counter == state.tick_counter,
        state.write8(addr, value).mode == state.mode,
        state.write8(addr, value).line_compare == state.line_compare,
{
}

/// A run of ticks changes neither tile memory, nor the tile maps, nor any
/// register that a program writes, but for the ticks that a transfer still
/// takes.
pub proof fn lemma_tick_keeps_registers(state: PpuState, ticks: u16, bytes: Seq<u8>)
    ensures
        state.tick(ticks, bytes).tile_ram == state.tile_ram,
        state.tick(ticks, bytes).tile_maps == state.tile_maps,
        state.tick(ticks, bytes).lcdc == state.lcdc,
        state.tick(ticks, bytes).line_compare_is == state.line_compare_is,
        state.tick(ticks, bytes).mode2_is == state.mode2_is,
        state.tick(ticks, bytes).mode1_is == state.mode1_is,
        state.tick(ticks, bytes).mode0_is == state.mode0_is,
        state.tick(ticks, bytes).scroll_y == state.scroll_y,
        state.tick(ticks, bytes).scroll_x == state.scroll_x,
        state.tick(ticks, bytes).line_compare_value == state.line_compare_value,
        state.tick(ticks, bytes).window_y == state.window_y,
        state.tick(ticks, bytes).window_x == state.window_x,
        state.tick(ticks, bytes).bg_palette == state.bg_palette,
        state.tick(ticks, bytes).obj_palette1 == state.obj_palette1,
        state.tick(ticks, bytes).obj_palette2 == state.obj_palette2,
        state.tick(ticks, bytes).oam_dma_src == state.oam_dma_src,
{
}

/// The V-blank interrupt is requested by the run that begins line 144, and
/// by no other.
pub proof fn lemma_vblank_at_line_144(state: PpuState, ticks: u16, bytes: Seq<u8>)
    requires
        state.wf(),
    ensures
        state.raises_vblank(ticks) <==> state.lcd_enabled() && state.line_y == 143
            && state.tick(ticks, bytes).line_y == 144,
{
}

} // verus!
