use dirtydmg_core::bus::{Bus, BusItem, BusRW};
use dirtydmg_core::interrupt::InterruptStatus;
use dirtydmg_core::model::OAM_DMA_REGISTER_ADDRESS;
use dirtydmg_core::oam::OamSprite;
use dirtydmg_core::ppu::PPU;
use dirtydmg_core::ram::Ram;

#[test]
fn transfer_copies_160_bytes_and_takes_160_ticks() {
    let mut ppu = PPU::new();
    let mut ram = Ram::new(0x100, 0x100);
    let mut is = InterruptStatus::new();
    for x in 0x100..0x200usize {
        ram.bus_write8(x, (x & 0xFF) as u8);
    }
    ppu.bus_write8(0xFF46, 0x01);
    // Nothing is copied before the next run of ticks.
    assert_eq!(ppu.sprite_data()[1], 0);

    ppu.execute_ticks(1, &mut ram, &mut is);
    for x in 0..160usize {
        assert_eq!(ppu.sprite_data()[x], x as u8);
        assert_eq!(ppu.bus_read8(0xFE00 + x), x as u8);
    }
    assert_eq!(ppu.oam_dma_ticks(), 159);

    ppu.execute_ticks(159, &mut ram, &mut is);
    assert_eq!(ppu.oam_dma_ticks(), 0);
    assert_eq!(ppu.dma_active(), false);
    // The source is left as it was.
    for x in 0x100..0x200usize {
        assert_eq!(ram.bus_read8(x), (x & 0xFF) as u8);
    }
}

#[test]
fn transfer_decodes_the_sprites_it_loads() {
    let mut ppu = PPU::new();
    let mut ram = Ram::new(0x10000, 0);
    let mut is = InterruptStatus::new();
    for i in 0..40usize {
        ram.bus_write8(0xC000 + 4 * i, i as u8);
        ram.bus_write8(0xC000 + 4 * i + 1, (2 * i) as u8);
        ram.bus_write8(0xC000 + 4 * i + 2, (3 * i) as u8);
        ram.bus_write8(0xC000 + 4 * i + 3, ((i & 0x0F) << 4) as u8);
    }
    ppu.bus_write8(OAM_DMA_REGISTER_ADDRESS, 0xC0);
    ppu.execute_ticks(4, &mut ram, &mut is);
    for i in 0..40usize {
        assert_eq!(
            ppu.sprite(i),
            OamSprite {
                ypos: i as u8,
                xpos: (2 * i) as u8,
                tile: (3 * i) as u8,
                behind_background: i & 0x08 != 0,
                yflip: i & 0x04 != 0,
                xflip: i & 0x02 != 0,
                palette: i & 0x01 != 0,
            }
        );
    }
}

#[test]
fn transfer_from_unmapped_source_fills_with_open_bus() {
    let mut ppu = PPU::new();
    let mut bus: Bus<Ram> = Bus::new();
    bus.add_item(BusItem::new(0xC000, 0xDFFF, Ram::new(0x2000, 0xC000)));
    let mut is = InterruptStatus::new();
    ppu.bus_write8(OAM_DMA_REGISTER_ADDRESS, 0x40);
    ppu.execute_ticks(4, &mut bus, &mut is);
    for x in 0..160usize {
        assert_eq!(ppu.sprite_data()[x], 0xFF);
    }
    assert_eq!(
        ppu.sprite(39),
        OamSprite {
            ypos: 0xFF,
            xpos: 0xFF,
            tile: 0xFF,
            behind_background: true,
            yflip: true,
            xflip: true,
            palette: true,
        }
    );
}

#[test]
fn transfer_through_the_bus_reads_the_routed_device() {
    let mut ppu = PPU::new();
    let mut bus: Bus<Ram> = Bus::new();
    bus.add_item(BusItem::new(0xC000, 0xC07F, Ram::new(0x80, 0xC000)));
    for x in 0..0x80usize {
        bus.bus_write8(0xC000 + x, 0x80 + x as u8);
    }
    let mut is = InterruptStatus::new();
    ppu.bus_write8(OAM_DMA_REGISTER_ADDRESS, 0xC0);
    ppu.execute_ticks(4, &mut bus, &mut is);
    // The first 128 bytes come from memory, the last 32 from nowhere.
    for x in 0..0x80usize {
        assert_eq!(ppu.sprite_data()[x], 0x80 + x as u8);
    }
    for x in 0x80..160usize {
        assert_eq!(ppu.sprite_data()[x], 0xFF);
    }
}

#[test]
fn transfer_is_copied_once() {
    let mut ppu = PPU::new();
    let mut ram = Ram::new(0x10000, 0);
    let mut is = InterruptStatus::new();
    ram.bus_write8(0x300, 0x11);
    ppu.bus_write8(OAM_DMA_REGISTER_ADDRESS, 3);
    ppu.execute_ticks(10, &mut ram, &mut is);
    assert_eq!(ppu.sprite_data()[0], 0x11);
    // A later change of the source is not seen.
    ram.bus_write8(0x300, 0x22);
    ppu.execute_ticks(10, &mut ram, &mut is);
    assert_eq!(ppu.sprite_data()[0], 0x11);
    assert_eq!(ppu.oam_dma_ticks(), 140);
}

#[test]
fn run_of_no_ticks_copies_and_leaves_the_transfer_due() {
    let mut ppu = PPU::new();
    let mut ram = Ram::new(0x10000, 0);
    let mut is = InterruptStatus::new();
    ram.bus_write8(0x300, 0x11);
    ppu.bus_write8(OAM_DMA_REGISTER_ADDRESS, 3);
    ppu.execute_ticks(0, &mut ram, &mut is);
    assert_eq!(ppu.sprite_data()[0], 0x11);
    assert_eq!(ppu.oam_dma_ticks(), 160);
    ram.bus_write8(0x300, 0x22);
    ppu.execute_ticks(1, &mut ram, &mut is);
    assert_eq!(ppu.sprite_data()[0], 0x22);
    assert_eq!(ppu.oam_dma_ticks(), 159);
}

#[test]
fn transfer_ticks_stop_at_zero() {
    let mut ppu = PPU::new();
    let mut ram = Ram::new(0x10000, 0);
    let mut is = InterruptStatus::new();
    ppu.bus_write8(OAM_DMA_REGISTER_ADDRESS, 0);
    ppu.execute_ticks(160, &mut ram, &mut is);
    assert_eq!(ppu.oam_dma_ticks(), 0);
    ppu.bus_write8(OAM_DMA_REGISTER_ADDRESS, 0);
    ppu.execute_ticks(65535, &mut ram, &mut is);
    assert_eq!(ppu.oam_dma_ticks(), 0);
    ppu.execute_ticks(5, &mut ram, &mut is);
    assert_eq!(ppu.oam_dma_ticks(), 0);
}

#[test]
fn restaged_transfer_starts_over() {
    let mut ppu = PPU::new();
    let mut ram = Ram::new(0x10000, 0);
    let mut is = InterruptStatus::new();
    ram.bus_write8(0x100, 0xAA);
    ram.bus_write8(0x200, 0xBB);
    ppu.bus_write8(OAM_DMA_REGISTER_ADDRESS, 1);
    ppu.execute_ticks(50, &mut ram, &mut is);
    assert_eq!(ppu.sprite_data()[0], 0xAA);
    assert_eq!(ppu.oam_dma_ticks(), 110);
    ppu.bus_write8(OAM_DMA_REGISTER_ADDRESS, 2);
    assert_eq!(ppu.oam_dma_ticks(), 160);
    ppu.execute_ticks(50, &mut ram, &mut is);
    assert_eq!(ppu.sprite_data()[0], 0xBB);
    assert_eq!(ppu.oam_dma_ticks(), 110);
}
