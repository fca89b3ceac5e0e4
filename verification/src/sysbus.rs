//! The system bus: a partition of the 32-bit address space into named
//! regions, each access dispatched to the owning region with its
//! wait-state cost attributed.
//!
//! Region selection matches the fixed, non-overlapping address table; the
//! offset forwarded to the selected region is the address's low 24 bits,
//! modelling the hardware's mirrored address lines. Addresses outside
//! every named range resolve to the stateless open-bus fallback, which
//! reads 0, ignores writes, and costs one cycle.

use vstd::prelude::*;

use crate::bus::{BoxedMemory, MemoryAccessWidth, WaitState, spec_byte_at, spec_bytes_from,
    spec_read_16, spec_read_32, spec_write_16, spec_write_32, spec_write_8, spec_ws_cost};

verus! {

/// Size in bytes of the video RAM window.
pub const VIDEO_RAM_SIZE: usize = 128 * 1024;

/// Size in bytes of the onboard work RAM.
pub const WORK_RAM_SIZE: usize = 256 * 1024;

/// Size in bytes of the internal work RAM.
pub const INTERNAL_RAM: usize = 32 * 1024;

/// Size in bytes of the palette RAM.
pub const PALETTE_RAM_SIZE: usize = 1024;

/// Size in bytes of the object-attribute memory.
pub const OAM_SIZE: usize = 1024;

/// Size in bytes of the IO register block's backing buffer.
pub const IOREGS_SIZE: usize = 1024;

/// The region kinds of the address space, plus the open-bus fallback.
#[derive(Clone, Copy, PartialEq, Eq, Structural, Debug)]
pub enum RegionKind {
    BootRom,
    OnboardWorkRam,
    InternalWorkRam,
    IoRegisters,
    PaletteRam,
    VideoRam,
    Oam,
    GamePak,
    OpenBus,
}

/// The cartridge backing store, a collaborator region owning its bytes and
/// its own (cartridge-defined) wait states.
#[derive(Debug)]
pub struct Cartridge {
    pub mem: BoxedMemory,
}

impl Cartridge {
    /// A cartridge over the given backing bytes and wait states.
    pub fn new(data: Vec<u8>, ws: WaitState) -> (r: Cartridge)
        ensures
            r.mem.data@ == data@,
            r.mem.ws == ws,
    {
        Cartridge { mem: BoxedMemory::new_with_waitstate(data, ws) }
    }

    /// Load one byte; 0 past the end.
    pub fn read_8(&self, addr: u32) -> (r: u8)
        ensures
            r == spec_byte_at(self.mem.data@, addr as int),
    {
        self.mem.read_8(addr)
    }

    /// Little-endian 16-bit load; 0 when the two bytes do not fit.
    pub fn read_16(&self, addr: u32) -> (r: u16)
        ensures
            r == spec_read_16(self.mem.data@, addr as int),
    {
        self.mem.read_16(addr)
    }

    /// Little-endian 32-bit load; 0 when the four bytes do not fit.
    pub fn read_32(&self, addr: u32) -> (r: u32)
        ensures
            r == spec_read_32(self.mem.data@, addr as int),
    {
        self.mem.read_32(addr)
    }

    /// Store one byte; ignored past the end.
    pub fn write_8(&mut self, addr: u32, value: u8)
        ensures
            final(self).mem.data@ == spec_write_8(old(self).mem.data@, addr as int, value),
            final(self).mem.ws == old(self).mem.ws,
    {
        self.mem.write_8(addr, value);
    }

    /// Little-endian 16-bit store; ignored when the two bytes do not fit.
    pub fn write_16(&mut self, addr: u32, value: u16)
        ensures
            final(self).mem.data@ == spec_write_16(old(self).mem.data@, addr as int, value),
            final(self).mem.ws == old(self).mem.ws,
    {
        self.mem.write_16(addr, value);
    }

    /// Little-endian 32-bit store; ignored when the four bytes do not fit.
    pub fn write_32(&mut self, addr: u32, value: u32)
        ensures
            final(self).mem.data@ == spec_write_32(old(self).mem.data@, addr as int, value),
            final(self).mem.ws == old(self).mem.ws,
    {
        self.mem.write_32(addr, value);
    }

    /// The bytes from an offset to the cartridge's end.
    pub fn get_bytes(&self, addr: u32) -> (r: &[u8])
        ensures
            r@ == spec_bytes_from(self.mem.data@, addr as int),
    {
        self.mem.get_bytes(addr)
    }

    /// The cartridge's cycle cost for an access of the given width.
    pub fn get_cycles(&self, addr: u32, width: MemoryAccessWidth) -> (r: usize)
        ensures
            r == spec_ws_cost(self.mem.ws, width),
    {
        self.mem.get_cycles(addr, width)
    }
}

/// The IO register block, modelled as a plain backing buffer with a keyed
/// register-read accessor.
#[derive(Debug)]
pub struct IoRegs {
    pub mem: BoxedMemory,
}

impl Default for IoRegs {
    /// A zeroed register block with one-cycle latency.
    fn default() -> (r: IoRegs)
        ensures
            r.mem.data@ == Seq::new(IOREGS_SIZE as nat, |j: int| 0u8),
            r.mem.ws == (WaitState { access8: 1, access16: 1, access32: 1 }),
    {
        IoRegs { mem: BoxedMemory::new(zeroed(IOREGS_SIZE)) }
    }
}

impl IoRegs {
    /// Load one byte; 0 past the end.
    pub fn read_8(&self, addr: u32) -> (r: u8)
        ensures
            r == spec_byte_at(self.mem.data@, addr as int),
    {
        self.mem.read_8(addr)
    }

    /// Little-endian 16-bit load; 0 when the two bytes do not fit.
    pub fn read_16(&self, addr: u32) -> (r: u16)
        ensures
            r == spec_read_16(self.mem.data@, addr as int),
    {
        self.mem.read_16(addr)
    }

    /// Little-endian 32-bit load; 0 when the four bytes do not fit.
    pub fn read_32(&self, addr: u32) -> (r: u32)
        ensures
            r == spec_read_32(self.mem.data@, addr as int),
    {
        self.mem.read_32(addr)
    }

    /// Store one byte; ignored past the end.
    pub fn write_8(&mut self, addr: u32, value: u8)
        ensures
            final(self).mem.data@ == spec_write_8(old(self).mem.data@, addr as int, value),
            final(self).mem.ws == old(self).mem.ws,
    {
        self.mem.write_8(addr, value);
    }

    /// Little-endian 16-bit store; ignored when the two bytes do not fit.
    pub fn write_16(&mut self, addr: u32, value: u16)
        ensures
            final(self).mem.data@ == spec_write_16(old(self).mem.data@, addr as int, value),
            final(self).mem.ws == old(self).mem.ws,
    {
        self.mem.write_16(addr, value);
    }

    /// Little-endian 32-bit store; ignored when the four bytes do not fit.
    pub fn write_32(&mut self, addr: u32, value: u32)
        ensures
            final(self).mem.data@ == spec_write_32(old(self).mem.data@, addr as int, value),
            final(self).mem.ws == old(self).mem.ws,
    {
        self.mem.write_32(addr, value);
    }

    /// The bytes from an offset to the block's end.
    pub fn get_bytes(&self, addr: u32) -> (r: &[u8])
        ensures
            r@ == spec_bytes_from(self.mem.data@, addr as int),
    {
        self.mem.get_bytes(addr)
    }

    /// The block's cycle cost for an access of the given width.
    pub fn get_cycles(&self, addr: u32, width: MemoryAccessWidth) -> (r: usize)
        ensures
            r == spec_ws_cost(self.mem.ws, width),
    {
        self.mem.get_cycles(addr, width)
    }

    /// Keyed register read: the 16-bit register at the given block offset.
    pub fn read_reg(&self, offset: u32) -> (r: u16)
        ensures
            r == spec_read_16(self.mem.data@, offset as int),
    {
        self.mem.read_16(offset)
    }
}

/// A zeroed byte buffer of the given length.
fn zeroed(n: usize) -> (r: Vec<u8>)
    ensures
        r@ == Seq::new(n as nat, |j: int| 0u8),
{
    let mut v: Vec<u8> = Vec::new();
    let mut i: usize = 0;
    while i < n
        invariant
            0 <= i <= n,
            v@.len() == i,
            forall|j: int| 0 <= j < i ==> v@[j] == 0u8,
        decreases n - i,
    {
        v.push(0);
        i = i + 1;
    }
    proof {
        assert(v@ =~= Seq::new(n as nat, |j: int| 0u8));
    }
    v
}

/// The region that owns an address: the fixed, non-overlapping table of
/// half-open ranges, with everything else on the open bus.
pub open spec fn spec_region_of(addr: u32) -> RegionKind {
    if addr <= 0x3fff {
        RegionKind::BootRom
    } else if 0x0200_0000 <= addr && addr <= 0x0203_ffff {
        RegionKind::OnboardWorkRam
    } else if 0x0300_0000 <= addr && addr <= 0x0300_7fff {
        RegionKind::InternalWorkRam
    } else if 0x0400_0000 <= addr && addr <= 0x0400_03fe {
        RegionKind::IoRegisters
    } else if 0x0500_0000 <= addr && addr <= 0x0500_03ff {
        RegionKind::PaletteRam
    } else if 0x0600_0000 <= addr && addr <= 0x0601_7fff {
        RegionKind::VideoRam
    } else if 0x0700_0000 <= addr && addr <= 0x0700_03ff {
        RegionKind::Oam
    } else if 0x0800_0000 <= addr && addr <= 0x09ff_ffff {
        RegionKind::GamePak
    } else {
        RegionKind::OpenBus
    }
}

/// The byte offset forwarded to the selected region: the address's low 24
/// bits.
pub open spec fn spec_masked(addr: u32) -> u32 {
    addr & 0xffffff
}

/// Select the region that owns an address.
pub fn region_of(addr: u32) -> (r: RegionKind)
    ensures
        r == spec_region_of(addr),
{
    if addr <= 0x3fff {
        RegionKind::BootRom
    } else if 0x0200_0000 <= addr && addr <= 0x0203_ffff {
        RegionKind::OnboardWorkRam
    } else if 0x0300_0000 <= addr && addr <= 0x0300_7fff {
        RegionKind::InternalWorkRam
    } else if 0x0400_0000 <= addr && addr <= 0x0400_03fe {
        RegionKind::IoRegisters
    } else if 0x0500_0000 <= addr && addr <= 0x0500_03ff {
        RegionKind::PaletteRam
    } else if 0x0600_0000 <= addr && addr <= 0x0601_7fff {
        RegionKind::VideoRam
    } else if 0x0700_0000 <= addr && addr <= 0x0700_03ff {
        RegionKind::Oam
    } else if 0x0800_0000 <= addr && addr <= 0x09ff_ffff {
        RegionKind::GamePak
    } else {
        RegionKind::OpenBus
    }
}

/// The full address space: one instance of each region kind, the cartridge
/// backing store, and the stateless open-bus fallback.
#[derive(Debug)]
pub struct SysBus {
    pub bios: BoxedMemory,
    pub onboard_work_ram: BoxedMemory,
    pub internal_work_ram: BoxedMemory,
    pub ioregs: IoRegs,
    pub palette_ram: BoxedMemory,
    pub vram: BoxedMemory,
    pub oam: BoxedMemory,
    pub gamepak: Cartridge,
    pub dummy: BoxedMemory,
}

impl SysBus {
    /// The bytes owned by a region kind; the open bus owns none.
    pub open spec fn region_data(self, k: RegionKind) -> Seq<u8> {
        match k {
            RegionKind::BootRom => self.bios.data@,
            RegionKind::OnboardWorkRam => self.onboard_work_ram.data@,
            RegionKind::InternalWorkRam => self.internal_work_ram.data@,
            RegionKind::IoRegisters => self.ioregs.mem.data@,
            RegionKind::PaletteRam => self.palette_ram.data@,
            RegionKind::VideoRam => self.vram.data@,
            RegionKind::Oam => self.oam.data@,
            RegionKind::GamePak => self.gamepak.mem.data@,
            RegionKind::OpenBus => Seq::empty(),
        }
    }

    /// The wait states of a region kind; the open bus costs one cycle at
    /// every width.
    pub open spec fn region_ws(self, k: RegionKind) -> WaitState {
        match k {
            RegionKind::BootRom => self.bios.ws,
            RegionKind::OnboardWorkRam => self.onboard_work_ram.ws,
            RegionKind::InternalWorkRam => self.internal_work_ram.ws,
            RegionKind::IoRegisters => self.ioregs.mem.ws,
            RegionKind::PaletteRam => self.palette_ram.ws,
            RegionKind::VideoRam => self.vram.ws,
            RegionKind::Oam => self.oam.ws,
            RegionKind::GamePak => self.gamepak.mem.ws,
            RegionKind::OpenBus => WaitState { access8: 1, access16: 1, access32: 1 },
        }
    }

    /// The byte an 8-bit bus read returns.
    pub open spec fn spec_read_8(self, addr: u32) -> u8 {
        spec_byte_at(self.region_data(spec_region_of(addr)), spec_masked(addr) as int)
    }

    /// The value a 16-bit bus read returns.
    pub open spec fn spec_read_16(self, addr: u32) -> u16 {
        spec_read_16(self.region_data(spec_region_of(addr)), spec_masked(addr) as int)
    }

    /// The value a 32-bit bus read returns.
    pub open spec fn spec_read_32(self, addr: u32) -> u32 {
        spec_read_32(self.region_data(spec_region_of(addr)), spec_masked(addr) as int)
    }

    /// The cycle cost the bus attributes to an access.
    pub open spec fn spec_get_cycles(self, addr: u32, width: MemoryAccessWidth) -> usize {
        spec_ws_cost(self.region_ws(spec_region_of(addr)), width)
    }

    /// The bytes a byte-slice retrieval returns: the owning region's bytes
    /// from the masked offset to the region's end; the open bus hands out
    /// its fixed four-byte zero window.
    pub open spec fn spec_get_bytes(self, addr: u32) -> Seq<u8> {
        if spec_region_of(addr) == RegionKind::OpenBus {
            self.dummy.data@
        } else {
            spec_bytes_from(self.region_data(spec_region_of(addr)), spec_masked(addr) as int)
        }
    }

    /// A fresh bus: the boot ROM over the given image, zeroed RAM tiers
    /// with their fixed wait states, a default IO register block, and the
    /// given cartridge.
    pub fn new(bios_rom: Vec<u8>, gamepak: Cartridge) -> (r: SysBus)
        ensures
            r.bios.data@ == bios_rom@,
            r.bios.ws == (WaitState { access8: 1, access16: 1, access32: 1 }),
            r.onboard_work_ram.data@ == Seq::new(WORK_RAM_SIZE as nat, |j: int| 0u8),
            r.onboard_work_ram.ws == (WaitState { access8: 3, access16: 3, access32: 6 }),
            r.internal_work_ram.data@ == Seq::new(INTERNAL_RAM as nat, |j: int| 0u8),
            r.internal_work_ram.ws == (WaitState { access8: 1, access16: 1, access32: 1 }),
            r.ioregs.mem.data@ == Seq::new(IOREGS_SIZE as nat, |j: int| 0u8),
            r.ioregs.mem.ws == (WaitState { access8: 1, access16: 1, access32: 1 }),
            r.palette_ram.data@ == Seq::new(PALETTE_RAM_SIZE as nat, |j: int| 0u8),
            r.palette_ram.ws == (WaitState { access8: 1, access16: 1, access32: 2 }),
            r.vram.data@ == Seq::new(VIDEO_RAM_SIZE as nat, |j: int| 0u8),
            r.vram.ws == (WaitState { access8: 1, access16: 1, access32: 2 }),
            r.oam.data@ == Seq::new(OAM_SIZE as nat, |j: int| 0u8),
            r.oam.ws == (WaitState { access8: 1, access16: 1, access32: 1 }),
            r.gamepak == gamepak,
            r.dummy.data@ == Seq::new(4, |j: int| 0u8),
            r.dummy.ws == (WaitState { access8: 1, access16: 1, access32: 1 }),
    {
        SysBus {
            bios: BoxedMemory::new(bios_rom),
            onboard_work_ram: BoxedMemory::new_with_waitstate(
                zeroed(WORK_RAM_SIZE),
                WaitState::new(3, 3, 6),
            ),
            internal_work_ram: BoxedMemory::new(zeroed(INTERNAL_RAM)),
            ioregs: IoRegs::default(),
            palette_ram: BoxedMemory::new_with_waitstate(
                zeroed(PALETTE_RAM_SIZE),
                WaitState::new(1, 1, 2),
            ),
            vram: BoxedMemory::new_with_waitstate(zeroed(VIDEO_RAM_SIZE), WaitState::new(1, 1, 2)),
            oam: BoxedMemory::new(zeroed(OAM_SIZE)),
            gamepak,
            dummy: BoxedMemory::new(zeroed(4)),
        }
    }

    /// Bus 8-bit read: dispatched to the owning region at the masked
    /// offset; the open bus reads 0.
    pub fn read_8(&self, addr: u32) -> (r: u8)
        ensures
            r == self.spec_read_8(addr),
    {
        let masked = addr & 0xffffff;
        match region_of(addr) {
            RegionKind::BootRom => self.bios.read_8(masked),
            RegionKind::OnboardWorkRam => self.onboard_work_ram.read_8(masked),
            RegionKind::InternalWorkRam => self.internal_work_ram.read_8(masked),
            RegionKind::IoRegisters => self.ioregs.read_8(masked),
            RegionKind::PaletteRam => self.palette_ram.read_8(masked),
            RegionKind::VideoRam => self.vram.read_8(masked),
            RegionKind::Oam => self.oam.read_8(masked),
            RegionKind::GamePak => self.gamepak.read_8(masked),
            RegionKind::OpenBus => 0,
        }
    }

    /// Bus 16-bit read.
    pub fn read_16(&self, addr: u32) -> (r: u16)
        ensures
            r == self.spec_read_16(addr),
    {
        let masked = addr & 0xffffff;
        match region_of(addr) {
            RegionKind::BootRom => self.bios.read_16(masked),
            RegionKind::OnboardWorkRam => self.onboard_work_ram.read_16(masked),
            RegionKind::InternalWorkRam => self.internal_work_ram.read_16(masked),
            RegionKind::IoRegisters => self.ioregs.read_16(masked),
            RegionKind::PaletteRam => self.palette_ram.read_16(masked),
            RegionKind::VideoRam => self.vram.read_16(masked),
            RegionKind::Oam => self.oam.read_16(masked),
            RegionKind::GamePak => self.gamepak.read_16(masked),
            RegionKind::OpenBus => 0,
        }
    }

    /// Bus 32-bit read.
    pub fn read_32(&self, addr: u32) -> (r: u32)
        ensures
            r == self.spec_read_32(addr),
    {
        let masked = addr & 0xffffff;
        match region_of(addr) {
            RegionKind::BootRom => self.bios.read_32(masked),
            RegionKind::OnboardWorkRam => self.onboard_work_ram.read_32(masked),
            RegionKind::InternalWorkRam => self.internal_work_ram.read_32(masked),
            RegionKind::IoRegisters => self.ioregs.read_32(masked),
            RegionKind::PaletteRam => self.palette_ram.read_32(masked),
            RegionKind::VideoRam => self.vram.read_32(masked),
            RegionKind::Oam => self.oam.read_32(masked),
            RegionKind::GamePak => self.gamepak.read_32(masked),
            RegionKind::OpenBus => 0,
        }
    }

    /// Bus 8-bit write: only the owning region's bytes change, at the
    /// masked offset; writes to the open bus are ignored, and no wait
    /// state changes.
    pub fn write_8(&mut self, addr: u32, value: u8)
        ensures
            forall|k: RegionKind| #[trigger]
                final(self).region_data(k) == (if k == spec_region_of(addr) {
                    spec_write_8(old(self).region_data(k), spec_masked(addr) as int, value)
                } else {
                    old(self).region_data(k)
                }),
            forall|k: RegionKind| #[trigger]
                final(self).region_ws(k) == old(self).region_ws(k),
            final(self).dummy == old(self).dummy,
    {
        let masked = addr & 0xffffff;
        match region_of(addr) {
            RegionKind::BootRom => self.bios.write_8(masked, value),
            RegionKind::OnboardWorkRam => self.onboard_work_ram.write_8(masked, value),
            RegionKind::InternalWorkRam => self.internal_work_ram.write_8(masked, value),
            RegionKind::IoRegisters => self.ioregs.write_8(masked, value),
            RegionKind::PaletteRam => self.palette_ram.write_8(masked, value),
            RegionKind::VideoRam => self.vram.write_8(masked, value),
            RegionKind::Oam => self.oam.write_8(masked, value),
            RegionKind::GamePak => self.gamepak.write_8(masked, value),
            RegionKind::OpenBus => {},
        }
    }

    /// Bus 16-bit write.
    pub fn write_16(&mut self, addr: u32, value: u16)
        ensures
            forall|k: RegionKind| #[trigger]
                final(self).region_data(k) == (if k == spec_region_of(addr) {
                    spec_write_16(old(self).region_data(k), spec_masked(addr) as int, value)
                } else {
                    old(self).region_data(k)
                }),
            forall|k: RegionKind| #[trigger]
                final(self).region_ws(k) == old(self).region_ws(k),
            final(self).dummy == old(self).dummy,
    {
        let masked = addr & 0xffffff;
        match region_of(addr) {
            RegionKind::BootRom => self.bios.write_16(masked, value),
            RegionKind::OnboardWorkRam => self.onboard_work_ram.write_16(masked, value),
            RegionKind::InternalWorkRam => self.internal_work_ram.write_16(masked, value),
            RegionKind::IoRegisters => self.ioregs.write_16(masked, value),
            RegionKind::PaletteRam => self.palette_ram.write_16(masked, value),
            RegionKind::VideoRam => self.vram.write_16(masked, value),
            RegionKind::Oam => self.oam.write_16(masked, value),
            RegionKind::GamePak => self.gamepak.write_16(masked, value),
            RegionKind::OpenBus => {},
        }
    }

    /// Bus 32-bit write.
    pub fn write_32(&mut self, addr: u32, value: u32)
        ensures
            forall|k: RegionKind| #[trigger]
                final(self).region_data(k) == (if k == spec_region_of(addr) {
                    spec_write_32(old(self).region_data(k), spec_masked(addr) as int, value)
                } else {
                    old(self).region_data(k)
                }),
            forall|k: RegionKind| #[trigger]
                final(self).region_ws(k) == old(self).region_ws(k),
            final(self).dummy == old(self).dummy,
    {
        let masked = addr & 0xffffff;
        match region_of(addr) {
            RegionKind::BootRom => self.bios.write_32(masked, value),
            RegionKind::OnboardWorkRam => self.onboard_work_ram.write_32(masked, value),
            RegionKind::InternalWorkRam => self.internal_work_ram.write_32(masked, value),
            RegionKind::IoRegisters => self.ioregs.write_32(masked, value),
            RegionKind::PaletteRam => self.palette_ram.write_32(masked, value),
            RegionKind::VideoRam => self.vram.write_32(masked, value),
            RegionKind::Oam => self.oam.write_32(masked, value),
            RegionKind::GamePak => self.gamepak.write_32(masked, value),
            RegionKind::OpenBus => {},
        }
    }

    /// Byte-slice retrieval: the owning region's bytes from the masked
    /// offset to the region's end; the open bus hands out its fixed
    /// four-byte zero window.
    pub fn get_bytes(&self, addr: u32) -> (r: &[u8])
        ensures
            r@ == self.spec_get_bytes(addr),
    {
        let masked = addr & 0xffffff;
        match region_of(addr) {
            RegionKind::BootRom => self.bios.get_bytes(masked),
            RegionKind::OnboardWorkRam => self.onboard_work_ram.get_bytes(masked),
            RegionKind::InternalWorkRam => self.internal_work_ram.get_bytes(masked),
            RegionKind::IoRegisters => self.ioregs.get_bytes(masked),
            RegionKind::PaletteRam => self.palette_ram.get_bytes(masked),
            RegionKind::VideoRam => self.vram.get_bytes(masked),
            RegionKind::Oam => self.oam.get_bytes(masked),
            RegionKind::GamePak => self.gamepak.get_bytes(masked),
            RegionKind::OpenBus => self.dummy.data.as_slice(),
        }
    }

    /// Cycle-cost lookup: the owning region's wait state for the given
    /// width; one cycle on the open bus.
    pub fn get_cycles(&self, addr: u32, width: MemoryAccessWidth) -> (r: usize)
        ensures
            r == self.spec_get_cycles(addr, width),
    {
        let masked = addr & 0xffffff;
        match region_of(addr) {
            RegionKind::BootRom => self.bios.get_cycles(masked, width),
            RegionKind::OnboardWorkRam => self.onboard_work_ram.get_cycles(masked, width),
            RegionKind::InternalWorkRam => self.internal_work_ram.get_cycles(masked, width),
            RegionKind::IoRegisters => self.ioregs.get_cycles(masked, width),
            RegionKind::PaletteRam => self.palette_ram.get_cycles(masked, width),
            RegionKind::VideoRam => self.vram.get_cycles(masked, width),
            RegionKind::Oam => self.oam.get_cycles(masked, width),
            RegionKind::GamePak => self.gamepak.get_cycles(masked, width),
            RegionKind::OpenBus => 1,
        }
    }
}

/// Mirrored addresses: two addresses that the table assigns to the same
/// region and that agree on their low 24 bits are served identically —
/// same bytes read, same cycle cost at every width.
pub proof fn lemma_mirrored_access(bus: SysBus, a1: u32, a2: u32)
    requires
        spec_region_of(a1) == spec_region_of(a2),
        a1 & 0xffffff == a2 & 0xffffff,
    ensures
        bus.spec_read_8(a1) == bus.spec_read_8(a2),
        bus.spec_read_16(a1) == bus.spec_read_16(a2),
        bus.spec_read_32(a1) == bus.spec_read_32(a2),
        forall|w: MemoryAccessWidth| #[trigger]
            bus.spec_get_cycles(a1, w) == bus.spec_get_cycles(a2, w),
{
}

/// The open-bus fallback: an address outside every named range reads 0 at
/// every width, and every access costs one cycle.
pub proof fn lemma_open_bus(bus: SysBus, addr: u32)
    requires
        spec_region_of(addr) == RegionKind::OpenBus,
    ensures
        bus.spec_read_8(addr) == 0,
        bus.spec_read_16(addr) == 0,
        bus.spec_read_32(addr) == 0,
        forall|w: MemoryAccessWidth| #[trigger] bus.spec_get_cycles(addr, w) == 1,
{
}

} // verus!
