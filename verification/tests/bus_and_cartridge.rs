//! The bus address decoding, cartridge parsing, controller port, nametable
//! mirroring, and the render-side helpers.

use emurs::bus::Bus;
use emurs::cpu_memory::CpuMemory;
use emurs::errors::EmuError;
use emurs::memory_map::MemoryMap;
use emurs::nes_rom::{NametableMirroring, NesRom, TvSystem};
use emurs::ram::RAM;
use emurs::render::{bg_palette_index, chr_data_to_pixels};
use emurs::sprite::Sprite;

/// A minimal NROM cartridge: 32 KiB PRG (filled with `fill`), 8 KiB CHR,
/// vertical mirroring.
fn test_rom(fill: u8) -> NesRom {
    NesRom {
        prg_rom: vec![fill; 0x8000],
        chr_rom: vec![0; 0x2000],
        trainer: None,
        mapper: 0,
        alt_nametable: false,
        nametable_mirroring: NametableMirroring::Vertical,
        battery_backed_prg_ram: false,
        prg_ram_size: 0,
        tv_system: TvSystem::Ntsc,
    }
}

/// A well-formed iNES image: one 16 KiB PRG chunk, one 8 KiB CHR chunk.
fn ines_image() -> Vec<u8> {
    let mut bytes = vec![
        b'N', b'E', b'S', 0x1A, 1, 1, 0b0000_0001, 0x40, 2, 0, 0, 0, 0, 0, 0, 0,
    ];
    for i in 0..16384 {
        bytes.push((i % 251) as u8);
    }
    for i in 0..8192 {
        bytes.push((i % 13) as u8);
    }
    bytes
}

#[test]
fn parse_ines_image() {
    let bytes = ines_image();
    let rom = NesRom::from_bytes(&bytes).unwrap();
    assert_eq!(rom.prg_rom.len(), 16384);
    assert_eq!(rom.chr_rom.len(), 8192);
    assert_eq!(rom.prg_rom[5], 5);
    assert_eq!(rom.chr_rom[14], 1);
    assert_eq!(rom.mapper, 0x40);
    assert!(matches!(rom.nametable_mirroring, NametableMirroring::Horizontal));
    assert!(matches!(rom.tv_system, TvSystem::Ntsc));
    assert_eq!(rom.prg_ram_size, 2);
    assert!(rom.trainer.is_none());
    assert!(!rom.alt_nametable);
    assert!(!rom.battery_backed_prg_ram);
}

#[test]
fn parse_rejects_bad_magic() {
    let mut bytes = ines_image();
    bytes[0] = b'X';
    assert!(matches!(NesRom::from_bytes(&bytes), Err(EmuError::CartridgeInvalid)));
}

#[test]
fn parse_rejects_truncated_image() {
    let mut bytes = ines_image();
    bytes.truncate(1000);
    assert!(matches!(NesRom::from_bytes(&bytes), Err(EmuError::CartridgeInvalid)));
    assert!(matches!(NesRom::from_bytes(&vec![b'N', b'E', b'S']), Err(EmuError::CartridgeInvalid)));
}

#[test]
fn parse_reads_trainer() {
    let mut bytes = ines_image();
    bytes[6] |= 0b0000_0100;
    let mut with_trainer: Vec<u8> = bytes[..16].to_vec();
    with_trainer.extend(std::iter::repeat(0x77).take(512));
    with_trainer.extend_from_slice(&bytes[16..]);
    let rom = NesRom::from_bytes(&with_trainer).unwrap();
    let trainer = rom.trainer.unwrap();
    assert_eq!(trainer.len(), 512);
    assert_eq!(trainer[0], 0x77);
    assert_eq!(rom.prg_rom[5], 5);
}

#[test]
fn bus_ram_mirroring() {
    let mut bus = Bus::new(test_rom(0));
    bus.write(0x0005, 0xAB).unwrap();
    assert_eq!(bus.read(0x0005), 0xAB);
    // Mirrors every 2 KiB.
    assert_eq!(bus.read(0x0805), 0xAB);
    assert_eq!(bus.read(0x1805), 0xAB);
    bus.write(0x1006, 0xCD).unwrap();
    assert_eq!(bus.read(0x0006), 0xCD);
}

#[test]
fn bus_rom_reads_and_reset_vector() {
    let mut rom = test_rom(0x11);
    rom.prg_rom[0] = 0x22;
    rom.prg_rom[0x7FFC] = 0x00;
    rom.prg_rom[0x7FFD] = 0xC0;
    let mut bus = Bus::new(rom);
    assert_eq!(bus.read(0x8000), 0x22);
    assert_eq!(bus.read(0x9000), 0x11);
    assert_eq!(bus.reset_vector(), 0xC000);
}

#[test]
fn bus_rom_mirrors_16k_image() {
    let mut rom = test_rom(0);
    rom.prg_rom = vec![0x33; 0x4000];
    rom.prg_rom[0x1234] = 0x44;
    let mut bus = Bus::new(rom);
    assert_eq!(bus.read(0x9234), 0x44);
    // The 16 KiB image repeats in the upper half of the window.
    assert_eq!(bus.read(0xD234), 0x44);
}

#[test]
fn bus_prg_ram() {
    let mut bus = Bus::new(test_rom(0));
    bus.write(0x6000, 0x99).unwrap();
    bus.write(0x7FFF, 0x88).unwrap();
    assert_eq!(bus.read(0x6000), 0x99);
    assert_eq!(bus.read(0x7FFF), 0x88);
}

#[test]
fn bus_write_errors() {
    let mut bus = Bus::new(test_rom(0));
    // Unmapped range between the APU registers and PRG-RAM.
    assert_eq!(bus.write(0x5000, 1), Err(EmuError::UnmappedWrite));
    // PRG-ROM is read-only.
    assert_eq!(bus.write(0x9000, 1), Err(EmuError::InvalidRomWrite));
    // PPUSTATUS is read-only.
    assert_eq!(bus.write(0x2002, 1), Err(EmuError::UnmappedWrite));
    // The APU range and the OAM DMA trigger are dropped silently.
    assert_eq!(bus.write(0x4000, 1), Ok(()));
    assert_eq!(bus.write(0x4014, 1), Ok(()));
}

#[test]
fn bus_chr_write_is_fatal() {
    let mut bus = Bus::new(test_rom(0));
    // Point the PPU address into the pattern tables and write PPUDATA.
    bus.write(0x2006, 0x10).unwrap();
    bus.write(0x2006, 0x00).unwrap();
    assert_eq!(bus.write(0x2007, 0x55), Err(EmuError::InvalidRomWrite));
}

#[test]
fn bus_unmapped_read_returns_zero() {
    let mut bus = Bus::new(test_rom(0x11));
    assert_eq!(bus.read(0x5000), 0);
    assert_eq!(bus.read(0x4017), 0);
    // Write-only PPU register.
    assert_eq!(bus.read(0x2000), 0);
}

#[test]
fn bus_vram_write_read_vertical_mirroring() {
    let mut bus = Bus::new(test_rom(0));
    // Write $66 at $2305 through the registers.
    bus.write(0x2006, 0x23).unwrap();
    bus.write(0x2006, 0x05).unwrap();
    bus.write(0x2007, 0x66).unwrap();
    // Read it back through the mirrored page at $2B05 (vertical mirroring
    // folds page 2 onto page 0): first read primes the buffer.
    bus.write(0x2006, 0x2B).unwrap();
    bus.write(0x2006, 0x05).unwrap();
    bus.read(0x2007);
    assert_eq!(bus.read(0x2007), 0x66);
}

#[test]
fn horizontal_mirroring_folds_page_one() {
    let mut rom = test_rom(0);
    rom.nametable_mirroring = NametableMirroring::Horizontal;
    let mut bus = Bus::new(rom);
    bus.write(0x2006, 0x24).unwrap();
    bus.write(0x2006, 0x11).unwrap();
    bus.write(0x2007, 0x5C).unwrap();
    // Horizontal mirroring folds page 1 onto page 0.
    bus.write(0x2006, 0x20).unwrap();
    bus.write(0x2006, 0x11).unwrap();
    bus.read(0x2007);
    assert_eq!(bus.read(0x2007), 0x5C);
}

#[test]
fn ppu_data_read_buffers_vram() {
    let mut bus = Bus::new(test_rom(0));
    bus.write(0x2006, 0x20).unwrap();
    bus.write(0x2006, 0x00).unwrap();
    bus.write(0x2007, 0x0A).unwrap();
    bus.write(0x2007, 0x0B).unwrap();
    bus.write(0x2006, 0x20).unwrap();
    bus.write(0x2006, 0x00).unwrap();
    // The first read returns the stale buffer; then values arrive delayed.
    bus.read(0x2007);
    assert_eq!(bus.read(0x2007), 0x0A);
    assert_eq!(bus.read(0x2007), 0x0B);
}

#[test]
fn bus_tick_pumps_three_dots_per_cycle() {
    let mut bus = Bus::new(test_rom(0));
    assert_eq!(bus.ppu.scanline, 1);
    assert_eq!(bus.ppu.dot, 0);
    bus.tick(100);
    assert_eq!(bus.cycle, 100);
    assert_eq!(bus.ppu.dot, 300);
    bus.tick(120);
    assert_eq!(bus.ppu.dot, 19);
    assert_eq!(bus.ppu.scanline, 2);
}

#[test]
fn bus_nmi_flows_from_ppu() {
    let mut bus = Bus::new(test_rom(0));
    bus.write(0x2000, 0x80).unwrap();
    // Enough CPU cycles to reach (241,1): from (1,0) that is 81841 dots.
    bus.tick(27281);
    assert!(bus.poll_nmi());
    assert!(!bus.poll_nmi());
    assert!(!bus.poll_new_frame());
}

#[test]
fn controller_strobe_and_serial_reads() {
    let mut bus = Bus::new(test_rom(0));
    bus.controller.button_states = [true, false, true, false, false, false, false, true];

    // Strobe high: every read reports button A.
    bus.write(0x4016, 1).unwrap();
    assert_eq!(bus.read(0x4016), 1);
    assert_eq!(bus.read(0x4016), 1);

    // Strobe low: one button per read, A first, then 1 forever.
    bus.write(0x4016, 0).unwrap();
    let expected = [1, 0, 1, 0, 0, 0, 0, 1];
    for e in expected {
        assert_eq!(bus.read(0x4016), e);
    }
    assert_eq!(bus.read(0x4016), 1);
    assert_eq!(bus.read(0x4016), 1);
}

#[test]
fn controller_latches_snapshot_on_strobe_low() {
    let mut bus = Bus::new(test_rom(0));
    bus.controller.button_states = [true; 8];
    // The strobe-low write takes the snapshot the serial reads consume.
    bus.write(0x4016, 1).unwrap();
    bus.write(0x4016, 0).unwrap();
    // Host input changing mid-sequence does not disturb the latched reads.
    bus.controller.button_states = [false; 8];
    for _ in 0..8 {
        assert_eq!(bus.read(0x4016), 1);
    }
    // The next strobe-low write latches the new states.
    bus.write(0x4016, 1).unwrap();
    bus.write(0x4016, 0).unwrap();
    assert_eq!(bus.read(0x4016), 0);
}

#[test]
fn cpu_memory_decodes_like_the_bus() {
    let mut rom = test_rom(0x11);
    rom.prg_rom[0x7FFC] = 0x34;
    rom.prg_rom[0x7FFD] = 0x12;
    let mut mem = CpuMemory::new(rom);
    mem.write(0x0005, 0xAB).unwrap();
    assert_eq!(mem.read(0x0805), 0xAB);
    assert_eq!(mem.read(0x8000), 0x11);
    assert_eq!(mem.reset_vector(), 0x1234);
    // Unmapped and write-only ranges are recovered as 0 on reads; the APU
    // range and the OAM DMA trigger drop writes; fatal writes report.
    assert_eq!(mem.read(0x5000), 0);
    assert_eq!(mem.read(0x2000), 0);
    assert_eq!(mem.read(0x4016), 0);
    assert_eq!(mem.write(0x4014, 1), Ok(()));
    assert_eq!(mem.write(0x4000, 1), Ok(()));
    assert_eq!(mem.write(0x5000, 1), Err(EmuError::UnmappedWrite));
    assert_eq!(mem.write(0x2002, 1), Err(EmuError::UnmappedWrite));
    assert_eq!(mem.write(0x9000, 1), Err(EmuError::InvalidRomWrite));
}

#[test]
fn memory_map_reads_and_write_errors() {
    let mut rom = test_rom(0x77);
    rom.prg_rom[0] = 0x55;
    let mut map = MemoryMap::new(rom);
    map.write(0x0010, 0x42).unwrap();
    assert_eq!(map.read(0x0010), 0x42);
    assert_eq!(map.read(0x0810), 0x42);
    map.write(0x6000, 0x43).unwrap();
    assert_eq!(map.read(0x6000), 0x43);
    assert_eq!(map.read(0x8000), 0x55);
    // Unmapped reads are zero; the APU range drops writes; a ROM or
    // unbacked write is fatal and changes nothing.
    assert_eq!(map.read(0x4000), 0);
    assert_eq!(map.write(0x4000, 0x99), Ok(()));
    assert_eq!(map.write(0x9000, 0x99), Err(EmuError::InvalidRomWrite));
    assert_eq!(map.write(0x5000, 0x99), Err(EmuError::UnmappedWrite));
    assert_eq!(map.read(0x9000), 0x77);
}

#[test]
fn memory_map_reset_vector() {
    let mut rom = test_rom(0);
    rom.prg_rom[0x7FFC] = 0x00;
    rom.prg_rom[0x7FFD] = 0xC0;
    let map = MemoryMap::new(rom);
    assert_eq!(map.reset_vector(), 0xC000);
}

#[test]
fn ram_round_trip() {
    let mut ram = RAM::new(0x100);
    assert_eq!(ram.read(0x42), 0);
    ram.write(0x42, 0x99);
    assert_eq!(ram.read(0x42), 0x99);
    ram.fill(0x10, &vec![1, 2, 3]);
    assert_eq!(ram.read(0x10), 1);
    assert_eq!(ram.read(0x12), 3);
    assert_eq!(ram.read(0x13), 0);
}

#[test]
fn sprite_decoding() {
    // y=10, tile=5, attributes: flip both, behind background, palette 1,
    // x=20; tall sprites take the bank from tile bit 0.
    let data = [10u8, 5, 0xE1, 20];
    let sprite = Sprite::from_data(&data, true);
    assert_eq!(sprite.y, 10);
    assert_eq!(sprite.x, 20);
    assert_eq!(sprite.bank, 0x1000);
    assert_eq!(sprite.tile_index, 4);
    assert_eq!(sprite.palette, 1);
    assert!(!sprite.visible);
    assert!(sprite.flip_horizontally);
    assert!(sprite.flip_vertically);

    let short = Sprite::from_data(&[0, 7, 0x02, 0], false);
    assert_eq!(short.bank, 0);
    assert_eq!(short.tile_index, 7);
    assert_eq!(short.palette, 2);
    assert!(short.visible);
    assert!(!short.flip_horizontally);
    assert!(!short.flip_vertically);
}

#[test]
fn chr_tile_decoding() {
    // Bitplane 0 has the top-left pixel; bitplane 1 the top-right.
    let mut chr = vec![0u8; 16];
    chr[0] = 0x80;
    chr[8] = 0xC0;
    let pixels = chr_data_to_pixels(chr);
    assert_eq!(pixels.len(), 64);
    assert_eq!(pixels[0], 3);
    assert_eq!(pixels[1], 2);
    assert_eq!(pixels[2], 0);
    assert_eq!(pixels[8], 0);
}

#[test]
fn attribute_quadrants() {
    // 0b11_10_01_00: each quadrant selects its own two bits.
    let meta = 0b1110_0100;
    assert_eq!(bg_palette_index(meta, 0, 0), 0);
    assert_eq!(bg_palette_index(meta, 1, 0), 1);
    assert_eq!(bg_palette_index(meta, 0, 1), 2);
    assert_eq!(bg_palette_index(meta, 1, 1), 3);
}
