//! Decisions of the Linux KVM engine that do not issue KVM ioctls: its BIOS
//! image, the guest memory slots and the handling of each vCPU exit.
use vstd::prelude::*;
use crate::hypervisor::backend::whp::{bios_reset_jump, BIOS_ROM_BASE, BIOS_ROM_SIZE, RAM_HIGH_BASE, RAM_LOW_SIZE, VGA_FB_SIZE};
use crate::hypervisor::device::DeviceBus;

verus! {

/// Entry code of the KVM engine's BIOS image: segment and stack set-up, PIC
/// programming, the banner on COM1, then a halt loop.
pub open spec fn kvm_bios_entry_code() -> Seq<u8> {
    seq![0xFA, 0x31, 0xC0, 0x8E, 0xD8, 0x8E, 0xC0, 0x8E, 0xD0, 0xBC, 0x00, 0x7C, 0xFB, 0xB0, 0x11, 0xE6, 0x20, 0xB0, 0x08, 0xE6, 0x21, 0xB0, 0x04, 0xE6, 0x21, 0xB0, 0x01, 0xE6, 0x21, 0xB0, 0x11, 0xE6, 0xA0, 0xB0, 0x70, 0xE6, 0xA1, 0xB0, 0x02, 0xE6, 0xA1, 0xB0, 0x01, 0xE6, 0xA1, 0xB0, 0xFF, 0xE6, 0x21, 0xB0, 0xFF, 0xE6, 0xA1, 0xB0, 0x4E, 0xE6, 0xF8, 0xB0, 0x6F, 0xE6, 0xF8, 0xB0, 0x76, 0xE6, 0xF8, 0xB0, 0x61, 0xE6, 0xF8, 0xB0, 0x56, 0xE6, 0xF8, 0xB0, 0x4D, 0xE6, 0xF8, 0xB0, 0x20, 0xE6, 0xF8, 0xB0, 0x42, 0xE6, 0xF8, 0xB0, 0x49, 0xE6, 0xF8, 0xB0, 0x4F, 0xE6, 0xF8, 0xB0, 0x53, 0xE6, 0xF8, 0xB0, 0x0D, 0xE6, 0xF8, 0xB0, 0x0A, 0xE6, 0xF8, 0xF4, 0xEB, 0xFE]
}

/// Byte `i` of the KVM engine's BIOS image.
pub open spec fn kvm_bios_byte(i: int) -> u8 {
    if 0 <= i < kvm_bios_entry_code().len() {
        kvm_bios_entry_code()[i]
    } else if 0xFFF0 <= i < 0xFFF5 {
        bios_reset_jump()[i - 0xFFF0]
    } else {
        0
    }
}

/// The 64 KiB BIOS image of the KVM engine.
pub fn build_minimal_bios_bytes() -> (rom: Vec<u8>)
    ensures
        rom@.len() == BIOS_ROM_SIZE,
        forall|i: int| 0 <= i < rom@.len() ==> #[trigger] rom@[i] == kvm_bios_byte(i),
{
    let mut rom: Vec<u8> = vec![0u8; 65536];
    let entry: [u8; 108] = [0xFA, 0x31, 0xC0, 0x8E, 0xD8, 0x8E, 0xC0, 0x8E, 0xD0, 0xBC, 0x00, 0x7C, 0xFB, 0xB0, 0x11, 0xE6, 0x20, 0xB0, 0x08, 0xE6, 0x21, 0xB0, 0x04, 0xE6, 0x21, 0xB0, 0x01, 0xE6, 0x21, 0xB0, 0x11, 0xE6, 0xA0, 0xB0, 0x70, 0xE6, 0xA1, 0xB0, 0x02, 0xE6, 0xA1, 0xB0, 0x01, 0xE6, 0xA1, 0xB0, 0xFF, 0xE6, 0x21, 0xB0, 0xFF, 0xE6, 0xA1, 0xB0, 0x4E, 0xE6, 0xF8, 0xB0, 0x6F, 0xE6, 0xF8, 0xB0, 0x76, 0xE6, 0xF8, 0xB0, 0x61, 0xE6, 0xF8, 0xB0, 0x56, 0xE6, 0xF8, 0xB0, 0x4D, 0xE6, 0xF8, 0xB0, 0x20, 0xE6, 0xF8, 0xB0, 0x42, 0xE6, 0xF8, 0xB0, 0x49, 0xE6, 0xF8, 0xB0, 0x4F, 0xE6, 0xF8, 0xB0, 0x53, 0xE6, 0xF8, 0xB0, 0x0D, 0xE6, 0xF8, 0xB0, 0x0A, 0xE6, 0xF8, 0xF4, 0xEB, 0xFE];
    assert(entry@ =~= kvm_bios_entry_code());
    let mut i: usize = 0;
    while i < 108
        invariant
            i <= 108,
            rom@.len() == 65536,
            forall|k: int| 0 <= k < 65536 ==> #[trigger] rom@[k] == if k < i { entry@[k] } else { 0u8 },
        decreases 108 - i,
    {
        rom.set(i, entry[i]);
        i = i + 1;
    }
    rom.set(0xFFF0, 0xEA);
    rom.set(0xFFF1, 0x00);
    rom.set(0xFFF2, 0x00);
    rom.set(0xFFF3, 0x00);
    rom.set(0xFFF4, 0xF0);
    rom
}

/// One KVM user memory slot.
pub struct MemRegion {
    pub slot: u32,
    pub guest_phys_addr: u64,
    pub userspace_addr: u64,
    pub memory_size: u64,
}

/// Extended RAM of a KVM guest: `memory_mib`, at least 128 MiB.
pub open spec fn kvm_high_ram(memory_mib: u64) -> int {
    (if memory_mib < 128 { 128 } else { memory_mib as int }) * 0x10_0000
}

/// Bytes of host memory a KVM guest of `memory_mib` MiB needs.
pub fn kvm_guest_ram_size(memory_mib: u64) -> (r: u64)
    requires
        memory_mib <= 0xFFF_FFFF_FFFF,
    ensures
        r == RAM_LOW_SIZE + VGA_FB_SIZE + BIOS_ROM_SIZE + kvm_high_ram(memory_mib),
{
    let ram_mib = if memory_mib < 128 { 128 } else { memory_mib };
    RAM_LOW_SIZE + VGA_FB_SIZE + BIOS_ROM_SIZE + ram_mib * 0x10_0000
}

/// The four memory slots of a guest whose host memory starts at `base`:
/// low RAM, the VGA window, the BIOS ROM and extended RAM, laid out one
/// after the other in host memory.
pub fn kvm_memory_regions(base: u64, high_ram: u64) -> (r: Vec<MemRegion>)
    requires
        base + RAM_LOW_SIZE + VGA_FB_SIZE + BIOS_ROM_SIZE + high_ram <= u64::MAX,
    ensures
        r@.len() == 4,
        r@[0] == (MemRegion { slot: 0, guest_phys_addr: 0, userspace_addr: base, memory_size: RAM_LOW_SIZE }),
        r@[1] == (MemRegion { slot: 1, guest_phys_addr: 0xA0000, userspace_addr: (base + RAM_LOW_SIZE) as u64, memory_size: VGA_FB_SIZE }),
        r@[2] == (MemRegion { slot: 2, guest_phys_addr: BIOS_ROM_BASE, userspace_addr: (base + RAM_LOW_SIZE + VGA_FB_SIZE) as u64, memory_size: BIOS_ROM_SIZE }),
        r@[3] == (MemRegion { slot: 3, guest_phys_addr: RAM_HIGH_BASE, userspace_addr: (base + RAM_LOW_SIZE + VGA_FB_SIZE + BIOS_ROM_SIZE) as u64, memory_size: high_ram }),
{
    let mut r: Vec<MemRegion> = Vec::new();
    r.push(MemRegion { slot: 0, guest_phys_addr: 0, userspace_addr: base, memory_size: RAM_LOW_SIZE });
    r.push(MemRegion { slot: 1, guest_phys_addr: 0xA0000, userspace_addr: base + RAM_LOW_SIZE, memory_size: VGA_FB_SIZE });
    r.push(MemRegion { slot: 2, guest_phys_addr: BIOS_ROM_BASE, userspace_addr: base + RAM_LOW_SIZE + VGA_FB_SIZE, memory_size: BIOS_ROM_SIZE });
    r.push(MemRegion { slot: 3, guest_phys_addr: RAM_HIGH_BASE, userspace_addr: base + RAM_LOW_SIZE + VGA_FB_SIZE + BIOS_ROM_SIZE, memory_size: high_ram });
    r
}

/// One KVM vCPU exit, as far as the engine reads it.
pub enum KvmExit {
    /// Port read with a data buffer of `len` bytes.
    IoIn { port: u16, len: usize },
    /// Port write; `data` is the first byte written, if any.
    IoOut { port: u16, data: Option<u8> },
    /// MMIO read of `len` bytes.
    MmioRead { len: usize },
    /// MMIO write.
    MmioWrite,
    Hlt,
    Shutdown,
    /// Any other exit.
    Other,
    /// `run` failed.
    RunError,
}

/// What the KVM vCPU loop does after an exit.
pub enum KvmAction {
    /// Store this byte as the first byte of the port-read buffer (if the
    /// buffer is empty, nothing is stored) and run again.
    PortRead(Option<u8>),
    /// Zero the MMIO read buffer and run again.
    ZeroFill,
    /// Sleep briefly and run again.
    Sleep,
    /// Leave the vCPU loop.
    Stop,
    /// Run again.
    Continue,
}

/// Handle one KVM exit against the device bus.
pub fn kvm_exit_action(bus: &mut DeviceBus, exit: &KvmExit) -> (a: KvmAction)
    requires
        old(bus).wf(),
    ensures
        final(bus).wf(),
        match *exit {
            KvmExit::IoIn { port, len } => exists|v: u64|
                old(bus).read_effect(port, *final(bus), v) && a == KvmAction::PortRead(
                    if len > 0 { Some((v % 256) as u8) } else { None },
                ),
            KvmExit::IoOut { port, data } => a == KvmAction::Continue && (match data {
                Some(b) => old(bus).write_effect(port, b as u64, *final(bus)),
                None => *final(bus) == *old(bus),
            }),
            KvmExit::MmioRead { .. } => a == KvmAction::ZeroFill && *final(bus) == *old(bus),
            KvmExit::Hlt => a == KvmAction::Sleep && *final(bus) == *old(bus),
            KvmExit::Shutdown | KvmExit::RunError => a == KvmAction::Stop && *final(bus) == *old(bus),
            _ => a == KvmAction::Continue && *final(bus) == *old(bus),
        },
{
    match exit {
        KvmExit::IoIn { port, len } => {
            let v = bus.io_read(*port);
            let b = v as u8;
            assert(b == v % 256) by (bit_vector)
                requires b == v as u8;
            KvmAction::PortRead(if *len > 0 { Some(b) } else { None })
        },
        KvmExit::IoOut { port, data } => {
            if let Some(b) = data {
                bus.io_write(*port, *b as u64);
            }
            KvmAction::Continue
        },
        KvmExit::MmioRead { .. } => KvmAction::ZeroFill,
        KvmExit::Hlt => KvmAction::Sleep,
        KvmExit::Shutdown | KvmExit::RunError => KvmAction::Stop,
        _ => KvmAction::Continue,
    }
}

} // verus!
