//! PPU register behavior: the address latch, data reads, status reads, and
//! the VBlank/NMI timing.

use emurs::memory::DummyMemory;
use emurs::nes_rom::NametableMirroring;
use emurs::ppu::{Ppu, PPU_CTRL_VBLANK_NMI, PPU_CTRL_VRAM_ADD_INCREMENT, PPU_STATUS_VBLANK};

#[test]
pub fn test_ppu_addr() {
    let mut ppu = Ppu::new_with_memory(DummyMemory::new());

    ppu.set_ctrl_bit(PPU_CTRL_VRAM_ADD_INCREMENT, false);

    ppu.write_ppu_addr(0x34);
    ppu.write_ppu_addr(0x56);
    assert_eq!(ppu.addr.get_addr(), 0x3456);

    ppu.read_ppu_data();
    assert_eq!(ppu.memory.last_read_addr(), 0x3456);
    assert_eq!(ppu.addr.get_addr(), 0x3457);

    // A read on the probe memory returns the low byte of the address.
    assert_eq!(ppu.read_ppu_data(), 0x56);
    assert_eq!(ppu.memory.last_read_addr(), 0x3457);
    assert_eq!(ppu.addr.get_addr(), 0x3458);

    ppu.write_ppu_data(0xCA).unwrap();
    assert_eq!(ppu.memory.last_read_addr(), 0x3457);
    assert_eq!(ppu.memory.last_write_addr(), 0x3458);
    assert_eq!(ppu.memory.last_write_value(), 0xCA);
    assert_eq!(ppu.addr.get_addr(), 0x3459);

    ppu.set_ctrl_bit(PPU_CTRL_VRAM_ADD_INCREMENT, true);
    ppu.read_ppu_data();
    // Now it increments by 0x20 because of the changed ctrl bit.
    assert_eq!(ppu.addr.get_addr(), 0x3479);
    ppu.set_ctrl_bit(PPU_CTRL_VRAM_ADD_INCREMENT, false);

    ppu.addr.set(0x3f, true);
    ppu.addr.set(0xBD, false);
    assert_eq!(ppu.addr.get_addr(), 0x3fBD);
    // A read in the palette range returns the value immediately.
    assert_eq!(ppu.read_ppu_data(), 0xBD);
    assert_eq!(ppu.addr.get_addr(), 0x3fBE);

    ppu.addr.set(0x3f, true);
    ppu.addr.set(0xff, false);
    ppu.read_ppu_data();
    // Wraparound after 0x3fff.
    assert_eq!(ppu.addr.get_addr(), 0x0000);
}

#[test]
fn ppu_addr_increment_by_32() {
    let mut ppu = Ppu::new_with_memory(DummyMemory::new());
    ppu.set_ctrl_bit(PPU_CTRL_VRAM_ADD_INCREMENT, true);
    ppu.write_ppu_addr(0x21);
    ppu.write_ppu_addr(0x08);
    assert_eq!(ppu.addr.get_addr(), 0x2108);
    ppu.read_ppu_data();
    assert_eq!(ppu.addr.get_addr(), 0x2128);
    ppu.read_ppu_data();
    assert_eq!(ppu.addr.get_addr(), 0x2148);
}

#[test]
fn ppu_status_read_clears_vblank_once() {
    let mut ppu = Ppu::new_with_memory(DummyMemory::new());
    ppu.set_status_bit(PPU_STATUS_VBLANK, true);
    assert!(ppu.is_vblank());

    let first = ppu.read_ppu_status();
    assert_eq!(first & 0x80, 0x80);

    let second = ppu.read_ppu_status();
    assert_eq!(second & 0x80, 0x00);
    assert!(!ppu.is_vblank());
}

#[test]
fn ppu_status_read_resets_shared_latch() {
    let mut ppu = Ppu::new_with_memory(DummyMemory::new());
    // One scroll write leaves the shared toggle on the second position.
    ppu.write_ppu_scroll(0x12);
    assert!(!ppu.latch_high);
    ppu.read_ppu_status();
    assert!(ppu.latch_high);
    // The next PPUADDR pair lands as high, low again.
    ppu.write_ppu_addr(0x23);
    ppu.write_ppu_addr(0x45);
    assert_eq!(ppu.addr.get_addr(), 0x2345);
}

#[test]
fn ppu_scroll_two_writes() {
    let mut ppu = Ppu::new_with_memory(DummyMemory::new());
    ppu.write_ppu_scroll(0x10);
    ppu.write_ppu_scroll(0x20);
    assert_eq!(ppu.scroll.get_x(), 0x10);
    assert_eq!(ppu.scroll.get_y(), 0x20);
}

#[test]
fn nmi_on_vblank_polled_once() {
    let mut ppu = Ppu::new(Vec::new(), NametableMirroring::Vertical);
    ppu.write_ppu_ctrl(PPU_CTRL_VBLANK_NMI);

    // From the power-on position (scanline 1, dot 0) to entering
    // (scanline 241, dot 1).
    ppu.tick(240 * 341 + 1);
    assert_eq!(ppu.scanline, 241);
    assert_eq!(ppu.dot, 1);
    assert!(ppu.is_vblank());

    assert!(ppu.poll_nmi());
    assert!(!ppu.poll_nmi());

    // On to (scanline 261, dot 1): VBlank ends and the frame is marked.
    ppu.tick(20 * 341);
    assert_eq!(ppu.scanline, 261);
    assert_eq!(ppu.dot, 1);
    assert!(!ppu.is_vblank());
    assert!(ppu.poll_new_frame());
    assert!(!ppu.poll_new_frame());
}

#[test]
fn nmi_raised_when_enabled_during_vblank() {
    let mut ppu = Ppu::new(Vec::new(), NametableMirroring::Vertical);
    // Reach VBlank with NMI disabled: no NMI pending.
    ppu.tick(240 * 341 + 1);
    assert!(ppu.is_vblank());
    assert!(!ppu.poll_nmi());
    // Enabling the bit mid-VBlank raises it immediately.
    ppu.write_ppu_ctrl(PPU_CTRL_VBLANK_NMI);
    assert!(ppu.poll_nmi());
}

#[test]
fn oam_data_write_increments_address() {
    let mut ppu = Ppu::new_with_memory(DummyMemory::new());
    ppu.write_oam_addr(0x10);
    ppu.write_oam_data(0xAB);
    ppu.write_oam_data(0xCD);
    ppu.write_oam_addr(0x10);
    assert_eq!(ppu.read_oam_data(), 0xAB);
    ppu.write_oam_addr(0x11);
    assert_eq!(ppu.read_oam_data(), 0xCD);
}
