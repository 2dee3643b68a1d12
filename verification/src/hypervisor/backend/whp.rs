//! Decisions of the native engine that do not call the host hypervisor
//! API: the built-in BIOS image, the guest memory layout, the CPUID table,
//! the handling of each vCPU exit, the BIOS disk hypercall and the boot
//! plan. The host side performs the returned actions.
use vstd::prelude::*;
use vstd::utf8::encode_utf8;
use crate::hypervisor::backend::shell::GuestShellState;
use crate::hypervisor::device::DeviceBus;
use crate::util::text::push_str;

verus! {

/// Size of low conventional RAM (0x00000–0x9FFFF).
pub const RAM_LOW_SIZE: u64 = 0x000A_0000;
/// Size of the VGA framebuffer window (0xA0000–0xBFFFF).
pub const VGA_FB_SIZE: u64 = 0x0002_0000;
/// Guest physical base of the BIOS ROM.
pub const BIOS_ROM_BASE: u64 = 0x000F_0000;
/// Size of the BIOS ROM window.
pub const BIOS_ROM_SIZE: u64 = 0x0001_0000;
/// Guest physical base of extended RAM.
pub const RAM_HIGH_BASE: u64 = 0x0010_0000;
/// Extended RAM given to a guest that asks for less.
pub const DEFAULT_HIGH_RAM: u64 = 0x2000_0000;

// ---------------------------------------------------------------------------
// Built-in BIOS image
// ---------------------------------------------------------------------------

/// The real-mode entry code at offset 0: segment and stack set-up, PIC and
/// COM1 programming, the banner, and the INT 13h boot-sector read.
pub open spec fn bios_entry_code() -> Seq<u8> {
    seq![0xFA, 0x31, 0xC0, 0x8E, 0xD8, 0x8E, 0xC0, 0x8E, 0xD0, 0xBC, 0x00, 0x7C, 0xFB, 0xB0, 0x11, 0xE6, 0x20, 0xB0, 0x08, 0xE6, 0x21, 0xB0, 0x04, 0xE6, 0x21, 0xB0, 0x01, 0xE6, 0x21, 0xB0, 0x11, 0xE6, 0xA0, 0xB0, 0x70, 0xE6, 0xA1, 0xB0, 0x02, 0xE6, 0xA1, 0xB0, 0x01, 0xE6, 0xA1, 0xB0, 0xFF, 0xE6, 0x21, 0xB0, 0xFF, 0xE6, 0xA1, 0xC7, 0x06, 0x4C, 0x00, 0x00, 0x02, 0xC7, 0x06, 0x4E, 0x00, 0x00, 0xF0, 0xC7, 0x06, 0x40, 0x00, 0x00, 0x03, 0xC7, 0x06, 0x42, 0x00, 0x00, 0xF0, 0xB0, 0x80, 0xBA, 0xFB, 0x03, 0xEE, 0xB0, 0x01, 0xBA, 0xF8, 0x03, 0xEE, 0xB0, 0x00, 0xBA, 0xF9, 0x03, 0xEE, 0xB0, 0x03, 0xBA, 0xFB, 0x03, 0xEE, 0xB0, 0xC7, 0xBA, 0xFA, 0x03, 0xEE, 0xB0, 0x4E, 0xE6, 0xF8, 0xB0, 0x6F, 0xE6, 0xF8, 0xB0, 0x76, 0xE6, 0xF8, 0xB0, 0x61, 0xE6, 0xF8, 0xB0, 0x56, 0xE6, 0xF8, 0xB0, 0x4D, 0xE6, 0xF8, 0xB0, 0x20, 0xE6, 0xF8, 0xB0, 0x42, 0xE6, 0xF8, 0xB0, 0x49, 0xE6, 0xF8, 0xB0, 0x4F, 0xE6, 0xF8, 0xB0, 0x53, 0xE6, 0xF8, 0xB0, 0x0D, 0xE6, 0xF8, 0xB0, 0x0A, 0xE6, 0xF8, 0xB4, 0x02, 0xB0, 0x01, 0xB5, 0x00, 0xB1, 0x01, 0xB6, 0x00, 0xB2, 0x80, 0xBB, 0x00, 0x7C, 0xCD, 0x13, 0x73, 0x03, 0xF4, 0xEB, 0xFE, 0xEA, 0x00, 0x7C, 0x00, 0x00]
}

/// The INT 13h handler at offset 0x200, which forwards reads to the
/// hypervisor through ports 0x510/0x511.
pub open spec fn bios_int13_handler() -> Seq<u8> {
    seq![0x60, 0x80, 0xFC, 0x02, 0x75, 0x20, 0xA3, 0x00, 0x05, 0x89, 0x1E, 0x02, 0x05, 0x89, 0x0E, 0x04, 0x05, 0x89, 0x16, 0x06, 0x05, 0x8C, 0x06, 0x08, 0x05, 0xBA, 0x10, 0x05, 0xEE, 0xBA, 0x11, 0x05, 0xEC, 0x3C, 0x00, 0x75, 0x07, 0x61, 0x30, 0xE4, 0xF8, 0xCF, 0x61, 0xB4, 0x01, 0xF9, 0xCF]
}

/// The reset vector at offset 0xFFF0: `JMP FAR F000:0000`.
pub open spec fn bios_reset_jump() -> Seq<u8> {
    seq![0xEAu8, 0x00, 0x00, 0x00, 0xF0]
}

/// Byte `i` of the built-in BIOS image.
pub open spec fn bios_rom_byte(i: int) -> u8 {
    if 0 <= i < bios_entry_code().len() {
        bios_entry_code()[i]
    } else if 0x200 <= i < 0x200 + bios_int13_handler().len() {
        bios_int13_handler()[i - 0x200]
    } else if i == 0x300 {
        0xCF
    } else if 0xFFF0 <= i < 0xFFF5 {
        bios_reset_jump()[i - 0xFFF0]
    } else {
        0
    }
}

/// Write `src` into `dst` starting at `off`.
fn copy_into(dst: &mut Vec<u8>, off: usize, src: &[u8])
    requires
        off + src@.len() <= old(dst)@.len(),
    ensures
        final(dst)@.len() == old(dst)@.len(),
        forall|k: int|
            0 <= k < final(dst)@.len() ==> #[trigger] final(dst)@[k] == if off <= k < off + src@.len() {
                src@[k - off]
            } else {
                old(dst)@[k]
            },
{
    let n = dst.len();
    let mut i: usize = 0;
    while i < src.len()
        invariant
            n == dst@.len(),
            off + src@.len() <= dst@.len(),
            dst@.len() == old(dst)@.len(),
            i <= src@.len(),
            forall|k: int|
                0 <= k < dst@.len() ==> #[trigger] dst@[k] == if off <= k < off + i {
                    src@[k - off]
                } else {
                    old(dst)@[k]
                },
        decreases src@.len() - i,
    {
        dst.set(off + i, src[i]);
        i = i + 1;
    }
}

/// The 64 KiB BIOS image used when no `bios.rom` is installed.
pub fn build_minimal_bios_rom() -> (rom: Vec<u8>)
    ensures
        rom@.len() == BIOS_ROM_SIZE,
        forall|i: int| 0 <= i < rom@.len() ==> #[trigger] rom@[i] == bios_rom_byte(i),
{
    let mut rom: Vec<u8> = vec![0u8; 65536];
    let entry: [u8; 186] = [0xFA, 0x31, 0xC0, 0x8E, 0xD8, 0x8E, 0xC0, 0x8E, 0xD0, 0xBC, 0x00, 0x7C, 0xFB, 0xB0, 0x11, 0xE6, 0x20, 0xB0, 0x08, 0xE6, 0x21, 0xB0, 0x04, 0xE6, 0x21, 0xB0, 0x01, 0xE6, 0x21, 0xB0, 0x11, 0xE6, 0xA0, 0xB0, 0x70, 0xE6, 0xA1, 0xB0, 0x02, 0xE6, 0xA1, 0xB0, 0x01, 0xE6, 0xA1, 0xB0, 0xFF, 0xE6, 0x21, 0xB0, 0xFF, 0xE6, 0xA1, 0xC7, 0x06, 0x4C, 0x00, 0x00, 0x02, 0xC7, 0x06, 0x4E, 0x00, 0x00, 0xF0, 0xC7, 0x06, 0x40, 0x00, 0x00, 0x03, 0xC7, 0x06, 0x42, 0x00, 0x00, 0xF0, 0xB0, 0x80, 0xBA, 0xFB, 0x03, 0xEE, 0xB0, 0x01, 0xBA, 0xF8, 0x03, 0xEE, 0xB0, 0x00, 0xBA, 0xF9, 0x03, 0xEE, 0xB0, 0x03, 0xBA, 0xFB, 0x03, 0xEE, 0xB0, 0xC7, 0xBA, 0xFA, 0x03, 0xEE, 0xB0, 0x4E, 0xE6, 0xF8, 0xB0, 0x6F, 0xE6, 0xF8, 0xB0, 0x76, 0xE6, 0xF8, 0xB0, 0x61, 0xE6, 0xF8, 0xB0, 0x56, 0xE6, 0xF8, 0xB0, 0x4D, 0xE6, 0xF8, 0xB0, 0x20, 0xE6, 0xF8, 0xB0, 0x42, 0xE6, 0xF8, 0xB0, 0x49, 0xE6, 0xF8, 0xB0, 0x4F, 0xE6, 0xF8, 0xB0, 0x53, 0xE6, 0xF8, 0xB0, 0x0D, 0xE6, 0xF8, 0xB0, 0x0A, 0xE6, 0xF8, 0xB4, 0x02, 0xB0, 0x01, 0xB5, 0x00, 0xB1, 0x01, 0xB6, 0x00, 0xB2, 0x80, 0xBB, 0x00, 0x7C, 0xCD, 0x13, 0x73, 0x03, 0xF4, 0xEB, 0xFE, 0xEA, 0x00, 0x7C, 0x00, 0x00];
    let int13: [u8; 47] = [0x60, 0x80, 0xFC, 0x02, 0x75, 0x20, 0xA3, 0x00, 0x05, 0x89, 0x1E, 0x02, 0x05, 0x89, 0x0E, 0x04, 0x05, 0x89, 0x16, 0x06, 0x05, 0x8C, 0x06, 0x08, 0x05, 0xBA, 0x10, 0x05, 0xEE, 0xBA, 0x11, 0x05, 0xEC, 0x3C, 0x00, 0x75, 0x07, 0x61, 0x30, 0xE4, 0xF8, 0xCF, 0x61, 0xB4, 0x01, 0xF9, 0xCF];
    let reset: [u8; 5] = [0xEA, 0x00, 0x00, 0x00, 0xF0];
    assert(entry@ =~= bios_entry_code());
    assert(int13@ =~= bios_int13_handler());
    assert(reset@ =~= bios_reset_jump());
    copy_into(&mut rom, 0, &entry);
    copy_into(&mut rom, 0x200, &int13);
    rom.set(0x300, 0xCF);
    copy_into(&mut rom, 0xFFF0, &reset);
    rom
}

// ---------------------------------------------------------------------------
// Guest memory layout
// ---------------------------------------------------------------------------

/// What the native engine allocates for a new guest.
pub struct WhpLayout {
    /// vCPUs requested, clamped to 1..=64.
    pub vcpu_count: u32,
    /// Extended RAM mapped at 1 MiB.
    pub high_ram: u64,
    /// Host bytes for low RAM, VGA window, BIOS ROM and extended RAM.
    pub total_host_ram: u64,
}

/// The layout for a request of `vcpus` vCPUs and `memory_mib` MiB: at
/// least 128 MiB and at least 512 MiB of extended RAM.
pub fn whp_memory_layout(vcpus: u32, memory_mib: u64) -> (l: WhpLayout)
    requires
        memory_mib <= 0xFFF_FFFF_FFFF,
    ensures
        l.vcpu_count == if vcpus < 1 { 1 } else if vcpus > 64 { 64 } else { vcpus },
        l.high_ram == if memory_mib * 0x10_0000 > DEFAULT_HIGH_RAM { memory_mib * 0x10_0000 } else { DEFAULT_HIGH_RAM as int },
        l.total_host_ram == RAM_LOW_SIZE + VGA_FB_SIZE + BIOS_ROM_SIZE + l.high_ram,
{
    let vcpu_count = if vcpus < 1 { 1 } else if vcpus > 64 { 64 } else { vcpus };
    let ram_mib = if memory_mib < 128 { 128 } else { memory_mib };
    let bytes = ram_mib * 0x10_0000;
    let high_ram = if bytes > DEFAULT_HIGH_RAM { bytes } else { DEFAULT_HIGH_RAM };
    WhpLayout {
        vcpu_count,
        high_ram,
        total_host_ram: RAM_LOW_SIZE + VGA_FB_SIZE + BIOS_ROM_SIZE + high_ram,
    }
}

// ---------------------------------------------------------------------------
// CPUID and port access helpers
// ---------------------------------------------------------------------------

/// The CPUID leaves the native engine answers: leaf 0 names the vendor
/// "NoVVMM" with max leaf 1, leaf 1 reports SSE/SSE2/SSE3/MMX and the
/// hypervisor bit, all others read as zero.
pub open spec fn cpuid_result(leaf: u32) -> (u32, u32, u32, u32) {
    if leaf == 0 {
            (0x01u32, 0x6F764E00u32, 0x004D4D56u32, 0u32)
        } else if leaf == 1 {
            (0x0006_0F12u32, 0u32, 1u32, 0x1780_0000u32)
        } else {
            (0u32, 0u32, 0u32, 0u32)
        }
}

/// Answer a CPUID exit.
pub fn handle_cpuid(leaf: u32) -> (r: (u32, u32, u32, u32))
    ensures
        r == cpuid_result(leaf),
{
    if leaf == 0 {
        (0x01, 0x6F764E00, 0x004D4D56, 0)
    } else if leaf == 1 {
        (0x0006_0F12, 0, 1, 0x1780_0000)
    } else {
        (0, 0, 0, 0)
    }
}

/// The bits of RAX that a port read of `size` bytes replaces.
pub open spec fn io_mask(size: u8) -> u64 {
    if size == 1 {
        0xFF
    } else if size == 2 {
        0xFFFF
    } else if size == 4 {
        0xFFFF_FFFF
    } else {
        0xFFFF_FFFF_FFFF_FFFF
    }
}

/// RAX after a port read of `size` bytes returned `val`.
pub open spec fn io_read_rax(rax: u64, val: u64, size: u8) -> u64 {
    (rax & !io_mask(size)) | (val & io_mask(size))
}

/// Merge a port-read value into RAX.
pub fn merge_io_read(rax: u64, val: u64, size: u8) -> (r: u64)
    ensures
        r == io_read_rax(rax, val, size),
{
    let mask: u64 = if size == 1 {
        0xFF
    } else if size == 2 {
        0xFFFF
    } else if size == 4 {
        0xFFFF_FFFF
    } else {
        0xFFFF_FFFF_FFFF_FFFF
    };
    (rax & !mask) | (val & mask)
}

/// Whether the access-info word of a port exit marks a write (bit 0).
pub open spec fn io_is_write(access_info: u32) -> bool {
    access_info % 2 == 1
}

/// The access size in bytes (bits 1..=3 of the access-info word).
pub open spec fn io_access_size(access_info: u32) -> u8 {
    ((access_info / 2) % 8) as u8
}

/// Decode the access-info word of a port exit into (is-write, size).
pub fn decode_io_access(access_info: u32) -> (r: (bool, u8))
    ensures
        r.0 == io_is_write(access_info),
        r.1 == io_access_size(access_info),
{
    let w = access_info & 1;
    let s = (access_info >> 1) & 7;
    assert(w == access_info % 2 && s == (access_info / 2) % 8) by (bit_vector)
        requires
            w == access_info & 1,
            s == (access_info >> 1) & 7,
    ;
    (w != 0, s as u8)
}

// ---------------------------------------------------------------------------
// vCPU exits
// ---------------------------------------------------------------------------

/// Exit reasons reported by the host hypervisor.
pub const EXIT_MMIO: u32 = 1;
pub const EXIT_IO_PORT: u32 = 2;
pub const EXIT_EXCEPTION: u32 = 4;
pub const EXIT_HALT: u32 = 8;
pub const EXIT_CPUID: u32 = 0x1001;
pub const EXIT_CANCELED: u32 = 0x2001;

/// One vCPU exit, as far as the engine reads it.
pub struct VcpuExit {
    pub reason: u32,
    /// Port of an I/O exit.
    pub port: u16,
    /// Access-info word of an I/O exit.
    pub access_info: u32,
    /// RAX at the exit.
    pub rax: u64,
    /// RIP of the exiting instruction.
    pub rip: u64,
}

/// What the vCPU loop does after an exit.
pub enum VcpuAction {
    /// The guest halted: sleep briefly and run again.
    Sleep,
    /// Leave the vCPU loop.
    Stop,
    /// Store this value in RAX and run again.
    SetRax(u64),
    /// Perform the BIOS disk-read hypercall, then run again.
    DiskReadHypercall,
    /// Perform the BIOS disk-write hypercall, then run again.
    DiskWriteHypercall,
    /// Store the CPUID result and move RIP past the instruction.
    Cpuid { eax: u32, ebx: u32, ecx: u32, edx: u32, rip: u64 },
    /// Nothing to do: run again.
    Continue,
}

/// Handle one vCPU exit against the device bus and say what the vCPU loop
/// must do next.
pub fn vcpu_exit_action(bus: &mut DeviceBus, exit: &VcpuExit) -> (action: VcpuAction)
    requires
        old(bus).wf(),
    ensures
        final(bus).wf(),
        exit.reason == EXIT_HALT ==> action == VcpuAction::Sleep && *final(bus) == *old(bus),
        exit.reason == EXIT_CANCELED || exit.reason == EXIT_EXCEPTION ==> action == VcpuAction::Stop
            && *final(bus) == *old(bus),
        exit.reason == EXIT_IO_PORT && io_is_write(exit.access_info) ==> {
            &&& old(bus).write_effect(exit.port, exit.rax, *final(bus))
            &&& action == if exit.port == 0x0510 {
                VcpuAction::DiskReadHypercall
            } else if exit.port == 0x0511 {
                VcpuAction::DiskWriteHypercall
            } else {
                VcpuAction::Continue
            }
        },
        exit.reason == EXIT_IO_PORT && !io_is_write(exit.access_info) ==> exists|val: u64|
            old(bus).read_effect(exit.port, *final(bus), val) && action == VcpuAction::SetRax(
                io_read_rax(exit.rax, val, io_access_size(exit.access_info)),
            ),
        exit.reason == EXIT_CPUID ==> {
            let r = cpuid_result(exit.rax as u32);
            &&& *final(bus) == *old(bus)
            &&& action == (VcpuAction::Cpuid {
                eax: r.0,
                ebx: r.1,
                ecx: r.2,
                edx: r.3,
                rip: ((exit.rip + 2) % 0x1_0000_0000_0000_0000) as u64,
            })
        },
        exit.reason != EXIT_HALT && exit.reason != EXIT_CANCELED && exit.reason != EXIT_EXCEPTION
            && exit.reason != EXIT_IO_PORT && exit.reason != EXIT_CPUID ==> action
            == VcpuAction::Continue && *final(bus) == *old(bus),
{
    if exit.reason == EXIT_HALT {
        VcpuAction::Sleep
    } else if exit.reason == EXIT_CANCELED || exit.reason == EXIT_EXCEPTION {
        VcpuAction::Stop
    } else if exit.reason == EXIT_IO_PORT {
        let (is_write, size) = decode_io_access(exit.access_info);
        if is_write {
            bus.io_write(exit.port, exit.rax);
            if exit.port == 0x0510 {
                VcpuAction::DiskReadHypercall
            } else if exit.port == 0x0511 {
                VcpuAction::DiskWriteHypercall
            } else {
                VcpuAction::Continue
            }
        } else {
            let val = bus.io_read(exit.port);
            VcpuAction::SetRax(merge_io_read(exit.rax, val, size))
        }
    } else if exit.reason == EXIT_CPUID {
        let (eax, ebx, ecx, edx) = handle_cpuid(exit.rax as u32);
        VcpuAction::Cpuid { eax, ebx, ecx, edx, rip: exit.rip.wrapping_add(2) }
    } else {
        VcpuAction::Continue
    }
}

// ---------------------------------------------------------------------------
// BIOS disk hypercall
// ---------------------------------------------------------------------------

/// A BIOS INT 13h transfer as the guest's registers describe it.
pub struct BiosDiskRequest {
    /// AL, at least 1.
    pub sector_count: u32,
    /// CH.
    pub cylinder: u32,
    /// CL (1-based).
    pub sector: u32,
    /// DH.
    pub head: u32,
    /// DL: 0x80 first hard disk, 0x00 floppy, 0xE0 CD-ROM.
    pub drive: u8,
    /// BX: guest offset of the transfer buffer.
    pub buf_offset: u64,
    /// Linear sector: (C·16 + H)·63 + (S − 1).
    pub lba: u32,
    /// Byte offset of the first sector in the image.
    pub byte_offset: u64,
}

/// Sector number from CHS, on a 16-head, 63-sector geometry.
pub open spec fn chs_to_lba(cylinder: int, head: int, sector: int) -> int {
    (cylinder * 16 + head) * 63 + if sector >= 1 { sector - 1 } else { 0 }
}

/// Decode the transfer from RAX, RCX, RDX and RBX.
pub fn decode_bios_disk_request(rax: u64, rcx: u64, rdx: u64, rbx: u64) -> (r: BiosDiskRequest)
    ensures
        r.sector_count == if rax % 256 == 0 { 1 } else { rax % 256 },
        r.cylinder == (rcx / 256) % 256,
        r.sector == rcx % 256,
        r.head == (rdx / 256) % 256,
        r.drive == rdx % 256,
        r.buf_offset == rbx % 0x1_0000,
        r.lba == chs_to_lba(r.cylinder as int, r.head as int, r.sector as int),
        r.byte_offset == r.lba * 512,
{
    let al = rax & 0xFF;
    let ch = (rcx >> 8) & 0xFF;
    let cl = rcx & 0xFF;
    let dh = (rdx >> 8) & 0xFF;
    let dl = rdx & 0xFF;
    let bx = rbx & 0xFFFF;
    assert(al == rax % 256 && ch == (rcx / 256) % 256 && cl == rcx % 256 && dh == (rdx / 256) % 256
        && dl == rdx % 256 && bx == rbx % 0x1_0000) by (bit_vector)
        requires
            al == rax & 0xFF,
            ch == (rcx >> 8) & 0xFF,
            cl == rcx & 0xFF,
            dh == (rdx >> 8) & 0xFF,
            dl == rdx & 0xFF,
            bx == rbx & 0xFFFF,
    ;
    let sector_count = if al == 0 { 1u32 } else { al as u32 };
    let cylinder = ch as u32;
    let sector = cl as u32;
    let head = dh as u32;
    let lba = (cylinder * 16 + head) * 63 + if sector >= 1 { sector - 1 } else { 0 };
    BiosDiskRequest {
        sector_count,
        cylinder,
        sector,
        head,
        drive: dl as u8,
        buf_offset: bx,
        lba,
        byte_offset: lba as u64 * 512,
    }
}

/// Bytes the transfer moves.
pub open spec fn transfer_len(req: BiosDiskRequest) -> int {
    req.sector_count * 512
}

/// Whether `buf`, read at sector `lba`, is worth handing to the guest: not
/// blank, and at sector 0 either signed 0x55AA or not blank in its first
/// 510 bytes.
pub open spec fn is_valid_boot_sector(buf: Seq<u8>, lba: u32) -> bool {
    &&& exists|i: int| 0 <= i < buf.len() && buf[i] != 0
    &&& (lba == 0 && buf.len() >= 512) ==> ((buf[510] == 0x55 && buf[511] == 0xAA) || exists|i: int|
        0 <= i < 510 && buf[i] != 0)
}

/// Index of the first non-zero byte of `buf` before `end`, if any.
fn first_nonzero(buf: &[u8], end: usize) -> (r: Option<usize>)
    requires
        end <= buf@.len(),
    ensures
        r is None ==> forall|i: int| 0 <= i < end ==> buf@[i] == 0,
        r matches Some(k) ==> k < end && buf@[k as int] != 0,
{
    let mut i: usize = 0;
    while i < end
        invariant
            end <= buf@.len(),
            i <= end,
            forall|k: int| 0 <= k < i ==> buf@[k] == 0,
        decreases end - i,
    {
        if buf[i] != 0 {
            return Some(i);
        }
        i = i + 1;
    }
    None
}

/// Check a sector read for the BIOS disk hypercall.
pub fn check_boot_sector(buf: &[u8], lba: u32) -> (r: bool)
    ensures
        r == is_valid_boot_sector(buf@, lba),
{
    let any = first_nonzero(buf, buf.len());
    if any.is_none() {
        return false;
    }
    proof {
        let k = any.unwrap() as int;
        assert(0 <= k < buf@.len() && buf@[k] != 0);
    }
    if lba == 0 && buf.len() >= 512 {
        if buf[510] == 0x55 && buf[511] == 0xAA {
            return true;
        }
        let head = first_nonzero(buf, 510);
        proof {
            if head is Some {
                let k = head.unwrap() as int;
                assert(0 <= k < 510 && buf@[k] != 0);
            }
        }
        return head.is_some();
    }
    true
}

/// Which read the guest receives.
pub enum DiskLoad {
    /// Copy the ISO read into guest RAM.
    Iso,
    /// Copy the hard-disk read into guest RAM.
    Disk,
    /// Copy nothing.
    Nothing,
}

/// Whether the hypercall serves `drive`.
pub open spec fn serves_drive(drive: u8) -> bool {
    drive == 0x80 || drive == 0x00 || drive == 0xE0
}

/// Finish a BIOS disk-read hypercall. `iso` and `disk` are the sectors read
/// from the attached images (`None` where there is no image or the read
/// failed). The ISO wins over the disk; with neither bootable, status is
/// still 0 so that the installer takes over. An unknown drive fails.
pub fn handle_bios_disk_hypercall(
    bus: &mut DeviceBus,
    req: &BiosDiskRequest,
    iso: Option<&[u8]>,
    disk: Option<&[u8]>,
) -> (load: DiskLoad)
    ensures
        final(bus).disk_status == if serves_drive(req.drive) { 0u8 } else { 1u8 },
        final(bus).wf() == old(bus).wf(),
        final(bus).vga == old(bus).vga && final(bus).uart_com1 == old(bus).uart_com1,
        load == if !serves_drive(req.drive) {
            DiskLoad::Nothing
        } else if iso is Some && is_valid_boot_sector(iso.unwrap()@, req.lba) {
            DiskLoad::Iso
        } else if disk is Some && is_valid_boot_sector(disk.unwrap()@, req.lba) {
            DiskLoad::Disk
        } else {
            DiskLoad::Nothing
        },
{
    if req.drive == 0x80 || req.drive == 0x00 || req.drive == 0xE0 {
        bus.disk_status = 0;
        if let Some(b) = iso {
            if check_boot_sector(b, req.lba) {
                return DiskLoad::Iso;
            }
        }
        if let Some(b) = disk {
            if check_boot_sector(b, req.lba) {
                return DiskLoad::Disk;
            }
        }
        DiskLoad::Nothing
    } else {
        bus.disk_status = 1;
        DiskLoad::Nothing
    }
}

/// Finish a BIOS disk-write hypercall: status 0 when the sectors were
/// written, 1 otherwise.
pub fn handle_bios_disk_write_hypercall(bus: &mut DeviceBus, written: bool)
    ensures
        final(bus).disk_status == if written { 0u8 } else { 1u8 },
        final(bus).wf() == old(bus).wf(),
        final(bus).vga == old(bus).vga && final(bus).uart_com1 == old(bus).uart_com1,
{
    bus.disk_status = if written { 0 } else { 1 };
}

// ---------------------------------------------------------------------------
// Boot plan
// ---------------------------------------------------------------------------

/// A master boot record carries the 0x55AA signature.
pub open spec fn has_boot_signature(mbr: Seq<u8>) -> bool {
    mbr.len() >= 512 && mbr[510] == 0x55 && mbr[511] == 0xAA
}

/// Check the 0x55AA signature of a sector read from the disk.
pub fn mbr_is_bootable(mbr: &[u8]) -> (r: bool)
    ensures
        r == has_boot_signature(mbr@),
{
    mbr.len() >= 512 && mbr[510] == 0x55 && mbr[511] == 0xAA
}

/// Where the first boot sector comes from.
pub enum BootPlan {
    /// The disk holds an installed OS: copy its MBR and show the shell.
    InstalledDisk,
    /// Boot the attached ISO's first sector.
    IsoImage,
    /// Install the guest OS onto the disk, then boot its MBR.
    InstallToDisk,
}

/// Choose the boot source at start-up from the disk's first sector (if it
/// could be read) and whether an ISO is attached.
pub fn plan_boot(disk_mbr: Option<&[u8]>, iso_attached: bool) -> (p: BootPlan)
    ensures
        p == if disk_mbr is Some && has_boot_signature(disk_mbr.unwrap()@) {
            BootPlan::InstalledDisk
        } else if iso_attached {
            BootPlan::IsoImage
        } else {
            BootPlan::InstallToDisk
        },
{
    if let Some(m) = disk_mbr {
        if mbr_is_bootable(m) {
            return BootPlan::InstalledDisk;
        }
    }
    if iso_attached {
        BootPlan::IsoImage
    } else {
        BootPlan::InstallToDisk
    }
}

/// The master boot record written when the guest OS is installed.
pub open spec fn installed_mbr_byte(i: int) -> u8 {
    if i == 0 { 0xFA }
    else if i == 1 { 0xF4 }
    else if i == 2 { 0xEB }
    else if i == 3 { 0xFD }
    else if i == 446 { 0x80 }
    else if i == 447 { 0x01 }
    else if i == 448 { 0x01 }
    else if i == 449 { 0x00 }
    else if i == 450 { 0x83 }
    else if i == 451 { 0xFE }
    else if i == 452 { 0xFF }
    else if i == 453 { 0xFF }
    else if i == 455 { 0x08 }
    else if i == 459 { 0x80 }
    else if i == 460 { 0x27 }
    else if i == 461 { 0x07 }
    else if i == 510 { 0x55 }
    else if i == 511 { 0xAA }
    else { 0 }
}

/// Build the installed MBR: a `CLI; HLT` loop, one active Linux partition
/// at LBA 2048, and the boot signature.
pub fn build_installed_mbr() -> (mbr: Vec<u8>)
    ensures
        mbr@.len() == 512,
        forall|i: int| 0 <= i < 512 ==> #[trigger] mbr@[i] == installed_mbr_byte(i),
        has_boot_signature(mbr@),
{
    let mut mbr: Vec<u8> = vec![0u8; 512];
    mbr.set(0, 0xFA);
    mbr.set(1, 0xF4);
    mbr.set(2, 0xEB);
    mbr.set(3, 0xFD);
    mbr.set(446, 0x80);
    mbr.set(447, 0x01);
    mbr.set(448, 0x01);
    mbr.set(449, 0x00);
    mbr.set(450, 0x83);
    mbr.set(451, 0xFE);
    mbr.set(452, 0xFF);
    mbr.set(453, 0xFF);
    mbr.set(454, 0x00);
    mbr.set(455, 0x08);
    mbr.set(456, 0x00);
    mbr.set(457, 0x00);
    mbr.set(458, 0x00);
    mbr.set(459, 0x80);
    mbr.set(460, 0x27);
    mbr.set(461, 0x07);
    mbr.set(510, 0x55);
    mbr.set(511, 0xAA);
    mbr
}

/// The message stored at LBA 2048 of an installed disk.
pub open spec fn kernel_message(vm_name: Seq<char>) -> Seq<char> {
    "NovaOS Guest Kernel v6.6.0-novavm installed for '"@ + vm_name + "'. Booting guest system..."@
}

/// The 4 KiB guest kernel block written at LBA 2048: the UTF-8 message,
/// then zeros.
pub fn build_kernel_payload(vm_name: &str) -> (p: Vec<u8>)
    requires
        encode_utf8(kernel_message(vm_name@)).len() <= 4096,
    ensures
        p@.len() == 4096,
        forall|i: int| 0 <= i < 4096 ==> #[trigger] p@[i] == if i < encode_utf8(kernel_message(vm_name@)).len() {
            encode_utf8(kernel_message(vm_name@))[i]
        } else {
            0u8
        },
{
    let mut msg = String::from_str("NovaOS Guest Kernel v6.6.0-novavm installed for '");
    push_str(&mut msg, vm_name);
    push_str(&mut msg, "'. Booting guest system...");
    let bytes = msg.as_str().as_bytes();
    let mut p: Vec<u8> = vec![0u8; 4096];
    copy_into(&mut p, 0, bytes);
    p
}

// ---------------------------------------------------------------------------
// Display refresh
// ---------------------------------------------------------------------------

/// Which screen the display refresh draws.
pub enum DisplayScreen {
    /// The guest shell.
    Shell,
    /// The BIOS POST screen with this spinner glyph.
    Bios { spinner: char },
    /// The OS installer at this progress step.
    Installer { progress_step: u64 },
}

/// The spinner glyph for frame `frame`.
pub open spec fn spinner_glyph(frame: u64) -> char {
    let k = frame % 4;
    if k == 0 { '/' } else if k == 1 { '-' } else if k == 2 { '\\' } else { '|' }
}

/// Installer steps (display refreshes) before the guest OS counts as installed.
pub const INSTALL_STEPS: u64 = 13;

impl GuestShellState {
    /// Advance the boot animation by one display refresh (frame number
    /// `frame_count`). Before installation each refresh is one step: steps
    /// 1–2 show the BIOS screen, later steps the installer at 5 % per step,
    /// and step 13 completes the installation. Returns the screen to draw
    /// and whether the OS must be written to the disk now.
    pub fn advance_display(&mut self, frame_count: u64) -> (r: (DisplayScreen, bool))
        requires
            old(self).step_counter < 0x3333_3333_3333_3333,
        ensures
            final(self).current_input == old(self).current_input,
            final(self).history_lines == old(self).history_lines,
            old(self).is_installed ==> *final(self) == *old(self) && r == (DisplayScreen::Shell, false),
            !old(self).is_installed ==> {
                let step = old(self).step_counter + 1;
                &&& final(self).step_counter == step
                &&& final(self).is_installed == (step >= INSTALL_STEPS)
                &&& r.1 == (step >= INSTALL_STEPS)
                &&& r.0 == if step <= 2 {
                    DisplayScreen::Bios { spinner: spinner_glyph(frame_count) }
                } else {
                    DisplayScreen::Installer { progress_step: ((step - 2) * 5) as u64 }
                }
            },
    {
        if self.is_installed {
            return (DisplayScreen::Shell, false);
        }
        self.step_counter = self.step_counter + 1;
        let step = self.step_counter;
        let install = step >= INSTALL_STEPS;
        if install {
            self.is_installed = true;
        }
        if step <= 2 {
            let k = frame_count % 4;
            let spinner = if k == 0 { '/' } else if k == 1 { '-' } else if k == 2 { '\\' } else { '|' };
            (DisplayScreen::Bios { spinner }, install)
        } else {
            (DisplayScreen::Installer { progress_step: (step - 2) * 5 }, install)
        }
    }
}

// ---------------------------------------------------------------------------
// Initial processor state
// ---------------------------------------------------------------------------

/// A segment register as loaded into a virtual processor.
#[derive(Debug, Clone, Copy, PartialEq, Eq, Structural)]
pub struct SegmentState {
    pub base: u64,
    pub limit: u32,
    pub selector: u16,
    /// Descriptor attributes: present bit 7, type in bits 0..=3.
    pub attributes: u16,
}

impl SegmentState {
    /// The descriptor type (bits 0..=3 of the attributes).
    pub fn kind(&self) -> (r: u8)
        ensures
            r == self.attributes % 16,
    {
        (self.attributes % 16) as u8
    }

    /// Whether the present bit (bit 7 of the attributes) is set.
    pub fn present(&self) -> (r: bool)
        ensures
            r == ((self.attributes / 128) % 2 == 1),
    {
        (self.attributes / 128) % 2 == 1
    }
}

/// The processor state a guest starts in: 16-bit real mode with execution
/// at CS:IP = F000:FFF0, i.e. the reset vector at physical 0xFFFF0 (CS base
/// 0xFFFF0000 as after a hardware reset). Every data segment has base 0 and
/// a 64 KiB limit.
#[derive(Debug, Clone, Copy, PartialEq, Eq, Structural)]
pub struct RealModeState {
    pub cs: SegmentState,
    /// DS, ES, FS, GS and SS.
    pub data: SegmentState,
    pub rip: u64,
    pub rsp: u64,
    pub rflags: u64,
    pub cr0: u64,
    pub cr2: u64,
    pub cr3: u64,
    pub cr4: u64,
}

/// The real-mode start state: CS selector 0xF000 with base 0xFFFF0000,
/// limit 0xFFFF and attributes 0x9B (present, code, read/execute,
/// accessed); data segments selector 0, base 0, limit 0xFFFF, attributes
/// 0x93 (present, data, read/write, accessed); RIP 0xFFF0, RSP 0x7C00,
/// RFLAGS 0x2 (the always-set bit), CR0 0x10 (ET set, protection off) and
/// CR2, CR3, CR4 zero.
pub open spec fn real_mode_spec() -> RealModeState {
    RealModeState {
        cs: SegmentState { base: 0xFFFF_0000, limit: 0xFFFF, selector: 0xF000, attributes: 0x9B },
        data: SegmentState { base: 0, limit: 0xFFFF, selector: 0, attributes: 0x93 },
        rip: 0xFFF0,
        rsp: 0x7C00,
        rflags: 0x2,
        cr0: 0x10,
        cr2: 0,
        cr3: 0,
        cr4: 0,
    }
}

/// The state every virtual processor is put in before it first runs.
pub fn real_mode_state() -> (s: RealModeState)
    ensures
        s == real_mode_spec(),
        s.cs.base + s.rip == 0xFFFF_FFF0,
        s.cs.attributes % 16 == 0xB && s.data.attributes % 16 == 0x3,
{
    RealModeState {
        cs: SegmentState { base: 0xFFFF_0000, limit: 0xFFFF, selector: 0xF000, attributes: 0x9B },
        data: SegmentState { base: 0, limit: 0xFFFF, selector: 0, attributes: 0x93 },
        rip: 0xFFF0,
        rsp: 0x7C00,
        rflags: 0x2,
        cr0: 0x10,
        cr2: 0,
        cr3: 0,
        cr4: 0,
    }
}

} // verus!
