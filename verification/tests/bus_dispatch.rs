use arm7_core::bus::{BoxedMemory, MemoryAccessWidth, WaitState};
use arm7_core::sysbus::{Cartridge, RegionKind, SysBus, region_of};

fn fresh_bus(bios: Vec<u8>, cart_data: Vec<u8>) -> SysBus {
    let cart = Cartridge::new(cart_data, WaitState::new(5, 5, 8));
    SysBus::new(bios, cart)
}

#[test]
fn region_boundaries() {
    assert_eq!(region_of(0x0000_0000), RegionKind::BootRom);
    assert_eq!(region_of(0x0000_3fff), RegionKind::BootRom);
    assert_eq!(region_of(0x0000_4000), RegionKind::OpenBus);
    assert_eq!(region_of(0x0200_0000), RegionKind::OnboardWorkRam);
    assert_eq!(region_of(0x0203_ffff), RegionKind::OnboardWorkRam);
    assert_eq!(region_of(0x0204_0000), RegionKind::OpenBus);
    assert_eq!(region_of(0x0300_0000), RegionKind::InternalWorkRam);
    assert_eq!(region_of(0x0300_7fff), RegionKind::InternalWorkRam);
    assert_eq!(region_of(0x0400_0000), RegionKind::IoRegisters);
    assert_eq!(region_of(0x0400_03fe), RegionKind::IoRegisters);
    assert_eq!(region_of(0x0400_03ff), RegionKind::OpenBus);
    assert_eq!(region_of(0x0500_0000), RegionKind::PaletteRam);
    assert_eq!(region_of(0x0500_03ff), RegionKind::PaletteRam);
    assert_eq!(region_of(0x0600_0000), RegionKind::VideoRam);
    assert_eq!(region_of(0x0601_7fff), RegionKind::VideoRam);
    assert_eq!(region_of(0x0700_0000), RegionKind::Oam);
    assert_eq!(region_of(0x0700_03ff), RegionKind::Oam);
    assert_eq!(region_of(0x0800_0000), RegionKind::GamePak);
    assert_eq!(region_of(0x09ff_ffff), RegionKind::GamePak);
    assert_eq!(region_of(0x0a00_0000), RegionKind::OpenBus);
}

#[test]
fn open_bus_reads_zero_with_cost_one() {
    let bus = fresh_bus(vec![0xaa; 16], vec![0xbb; 16]);
    for addr in [0x0000_4000u32, 0x0100_0000, 0x0a20_1000, 0xffff_fffc] {
        assert_eq!(bus.read_8(addr), 0);
        assert_eq!(bus.read_16(addr), 0);
        assert_eq!(bus.read_32(addr), 0);
        assert_eq!(bus.get_cycles(addr, MemoryAccessWidth::MemoryAccess8), 1);
        assert_eq!(bus.get_cycles(addr, MemoryAccessWidth::MemoryAccess16), 1);
        assert_eq!(bus.get_cycles(addr, MemoryAccessWidth::MemoryAccess32), 1);
    }
}

#[test]
fn open_bus_ignores_writes() {
    let mut bus = fresh_bus(vec![], vec![]);
    bus.write_8(0x0000_4000, 0xff);
    bus.write_16(0x0000_4000, 0xffff);
    bus.write_32(0x0000_4000, 0xffff_ffff);
    assert_eq!(bus.read_8(0x0000_4000), 0);
    assert_eq!(bus.read_32(0x0000_4000), 0);
}

#[test]
fn wait_state_lookup_per_region() {
    let bus = fresh_bus(vec![], vec![]);
    // Onboard work RAM: (3, 3, 6).
    assert_eq!(bus.get_cycles(0x0200_0000, MemoryAccessWidth::MemoryAccess8), 3);
    assert_eq!(bus.get_cycles(0x0200_0000, MemoryAccessWidth::MemoryAccess16), 3);
    assert_eq!(bus.get_cycles(0x0200_0000, MemoryAccessWidth::MemoryAccess32), 6);
    // Internal work RAM: (1, 1, 1).
    assert_eq!(bus.get_cycles(0x0300_0000, MemoryAccessWidth::MemoryAccess8), 1);
    assert_eq!(bus.get_cycles(0x0300_0000, MemoryAccessWidth::MemoryAccess16), 1);
    assert_eq!(bus.get_cycles(0x0300_0000, MemoryAccessWidth::MemoryAccess32), 1);
    // Palette RAM and video RAM: (1, 1, 2).
    assert_eq!(bus.get_cycles(0x0500_0000, MemoryAccessWidth::MemoryAccess8), 1);
    assert_eq!(bus.get_cycles(0x0500_0000, MemoryAccessWidth::MemoryAccess16), 1);
    assert_eq!(bus.get_cycles(0x0500_0000, MemoryAccessWidth::MemoryAccess32), 2);
    assert_eq!(bus.get_cycles(0x0600_0000, MemoryAccessWidth::MemoryAccess8), 1);
    assert_eq!(bus.get_cycles(0x0600_0000, MemoryAccessWidth::MemoryAccess16), 1);
    assert_eq!(bus.get_cycles(0x0600_0000, MemoryAccessWidth::MemoryAccess32), 2);
    // Boot ROM and OAM: (1, 1, 1); cartridge: as constructed.
    assert_eq!(bus.get_cycles(0x0000_0000, MemoryAccessWidth::MemoryAccess32), 1);
    assert_eq!(bus.get_cycles(0x0700_0000, MemoryAccessWidth::MemoryAccess32), 1);
    assert_eq!(bus.get_cycles(0x0800_0000, MemoryAccessWidth::MemoryAccess8), 5);
    assert_eq!(bus.get_cycles(0x0800_0000, MemoryAccessWidth::MemoryAccess32), 8);
}

#[test]
fn little_endian_write_read_roundtrip() {
    let mut bus = fresh_bus(vec![], vec![]);
    bus.write_32(0x0200_0100, 0x1234_5678);
    assert_eq!(bus.read_32(0x0200_0100), 0x1234_5678);
    assert_eq!(bus.read_8(0x0200_0100), 0x78);
    assert_eq!(bus.read_8(0x0200_0101), 0x56);
    assert_eq!(bus.read_8(0x0200_0102), 0x34);
    assert_eq!(bus.read_8(0x0200_0103), 0x12);
    assert_eq!(bus.read_16(0x0200_0100), 0x5678);
    assert_eq!(bus.read_16(0x0200_0102), 0x1234);
    bus.write_16(0x0300_0000, 0xbeef);
    assert_eq!(bus.read_16(0x0300_0000), 0xbeef);
    assert_eq!(bus.read_8(0x0300_0000), 0xef);
    bus.write_8(0x0700_0001, 0x42);
    assert_eq!(bus.read_8(0x0700_0001), 0x42);
}

#[test]
fn bios_image_read_little_endian() {
    let bus = fresh_bus(vec![1, 2, 3, 4], vec![]);
    assert_eq!(bus.read_8(0), 1);
    assert_eq!(bus.read_16(0), 0x0201);
    assert_eq!(bus.read_16(2), 0x0403);
    assert_eq!(bus.read_32(0), 0x0403_0201);
}

#[test]
fn mapped_region_out_of_buffer_reads_fallback_zero() {
    // The boot ROM range runs to 0x3fff, but a four-byte image backs only
    // the first word: reads past it return the fixed fallback.
    let mut bus = fresh_bus(vec![1, 2, 3, 4], vec![]);
    assert_eq!(bus.read_8(0x100), 0);
    assert_eq!(bus.read_32(0x2), 0);
    bus.write_8(0x100, 0x55);
    assert_eq!(bus.read_8(0x100), 0);
}

#[test]
fn address_mirroring_same_region_same_offset() {
    // Two cartridge addresses that agree on their low 24 bits resolve to
    // the same region and the same byte offset.
    let mut data = vec![0u8; 32];
    data[4] = 0x7b;
    let bus = fresh_bus(vec![], data);
    assert_eq!(region_of(0x0800_0004), region_of(0x0900_0004));
    assert_eq!(0x0800_0004u32 & 0xff_ffff, 0x0900_0004u32 & 0xff_ffff);
    assert_eq!(bus.read_8(0x0800_0004), 0x7b);
    assert_eq!(bus.read_8(0x0900_0004), 0x7b);
    assert_eq!(bus.read_8(0x0800_0004), bus.read_8(0x0900_0004));
}

#[test]
fn io_register_keyed_read() {
    let mut bus = fresh_bus(vec![], vec![]);
    bus.write_16(0x0400_0008, 0x1234);
    assert_eq!(bus.ioregs.read_reg(8), 0x1234);
}

#[test]
fn get_bytes_views() {
    let bus = fresh_bus(vec![9, 8, 7], vec![]);
    assert_eq!(bus.get_bytes(0x0000_0001), &[8, 7][..]);
    assert_eq!(bus.get_bytes(0x0500_0000).len(), 1024);
    // The open bus hands out its fixed four-byte zero window.
    assert_eq!(bus.get_bytes(0x0000_4000), &[0, 0, 0, 0][..]);
}

#[test]
fn wait_state_construction() {
    let ws = WaitState::new(3, 3, 6);
    assert_eq!(ws.access8, 3);
    assert_eq!(ws.access16, 3);
    assert_eq!(ws.access32, 6);
    let d = WaitState::default();
    assert_eq!((d.access8, d.access16, d.access32), (1, 1, 1));
}

#[test]
fn boxed_memory_with_waitstate() {
    let m = BoxedMemory::new_with_waitstate(vec![0x11, 0x22], WaitState::new(2, 4, 8));
    assert_eq!(m.read_8(0), 0x11);
    assert_eq!(m.read_16(0), 0x2211);
    assert_eq!(m.read_16(1), 0);
    assert_eq!(m.get_cycles(0, MemoryAccessWidth::MemoryAccess16), 4);
    let m = BoxedMemory::new(vec![]);
    assert_eq!(m.get_cycles(0, MemoryAccessWidth::MemoryAccess32), 1);
    assert_eq!(m.read_32(0), 0);
}
