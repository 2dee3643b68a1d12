//! VM configuration types.
use vstd::prelude::*;

verus! {

/// Firmware type for a virtual machine (UEFI by default).
#[derive(Debug, Clone, Copy, PartialEq, Eq, Structural)]
pub enum FirmwareType {
    /// Legacy BIOS firmware.
    Bios,
    /// UEFI firmware (required for Secure Boot).
    Uefi,
}

impl Default for FirmwareType {
    fn default() -> (f: Self)
        ensures
            f == FirmwareType::Uefi,
    {
        FirmwareType::Uefi
    }
}

/// CPU configuration.
#[derive(Debug, Clone, Copy, PartialEq, Eq, Structural)]
pub struct CpuConfig {
    /// Total number of virtual CPUs presented to the guest.
    pub vcpus: u32,
    /// Number of virtual sockets.
    pub sockets: u32,
    /// Cores per socket.
    pub cores_per_socket: u32,
    /// Threads (hyperthreads) per core.
    pub threads_per_core: u32,
    /// IEEE-754 single-precision bits of the CPU overcommit ratio
    /// (1.0 = no overcommit).
    pub overcommit_ratio_bits: u32,
}

/// The bits of the single-precision value 1.0.
pub const RATIO_ONE_BITS: u32 = 0x3F80_0000;

impl Default for CpuConfig {
    fn default() -> (c: Self)
        ensures
            c == (CpuConfig {
                vcpus: 2,
                sockets: 1,
                cores_per_socket: 2,
                threads_per_core: 1,
                overcommit_ratio_bits: RATIO_ONE_BITS,
            }),
    {
        CpuConfig { vcpus: 2, sockets: 1, cores_per_socket: 2, threads_per_core: 1, overcommit_ratio_bits: RATIO_ONE_BITS }
    }
}

/// Memory configuration.
#[derive(Debug, Clone, Copy, PartialEq, Eq, Structural)]
pub struct MemoryConfig {
    /// Static memory allocation in MiB.
    pub size_mib: u64,
    /// Minimum dynamic allocation in MiB (when dynamic RAM is enabled).
    pub dynamic_min_mib: u64,
    /// Maximum dynamic allocation in MiB.
    pub dynamic_max_mib: u64,
    /// Enable guest memory ballooning.
    pub ballooning: bool,
    /// Use huge pages for guest memory backing.
    pub huge_pages: bool,
}

impl Default for MemoryConfig {
    fn default() -> (m: Self)
        ensures
            m == (MemoryConfig { size_mib: 2048, dynamic_min_mib: 512, dynamic_max_mib: 4096, ballooning: true, huge_pages: false }),
    {
        MemoryConfig { size_mib: 2048, dynamic_min_mib: 512, dynamic_max_mib: 4096, ballooning: true, huge_pages: false }
    }
}

/// Disk bus type.
#[derive(Debug, Clone, Copy, PartialEq, Eq, Structural)]
pub enum DiskBus {
    Virtio,
    Scsi,
    Ide,
    Nvme,
}

/// Disk attachment configuration.
#[derive(Debug, Clone)]
pub struct DiskConfig {
    /// Path to the disk image on the host.
    pub image_path: String,
    /// Bus type.
    pub bus: DiskBus,
    /// Mark as read-only (e.g. for ISO images).
    pub read_only: bool,
    /// Whether this is a boot disk.
    pub boot: bool,
}

/// Network interface type.
#[derive(Debug, Clone, Copy, PartialEq, Eq, Structural)]
pub enum NicType {
    Virtio,
    E1000,
    Rtl8139,
}

/// Network interface configuration.
#[derive(Debug, Clone)]
pub struct NicConfig {
    /// Unique name of the virtual switch to attach to.
    pub switch_name: String,
    /// NIC model.
    pub nic_type: NicType,
    /// Optional static MAC address. If `None`, one is generated.
    pub mac_address: Option<String>,
}

/// Shared folder configuration.
#[derive(Debug, Clone)]
pub struct SharedFolderConfig {
    /// Display name inside the guest.
    pub name: String,
    /// Host-side path.
    pub host_path: String,
    /// Whether the guest can write to the folder.
    pub read_only: bool,
    /// Auto-mount in the guest at startup.
    pub auto_mount: bool,
}

/// Top-level VM configuration.
#[derive(Debug, Clone)]
pub struct VmConfig {
    /// Human-readable name of the VM.
    pub name: String,
    /// Optional description.
    pub description: Option<String>,
    /// CPU configuration.
    pub cpu: CpuConfig,
    /// Memory configuration.
    pub memory: MemoryConfig,
    /// Firmware type.
    pub firmware: FirmwareType,
    /// Enable UEFI Secure Boot (requires UEFI firmware).
    pub secure_boot: bool,
    /// Enable virtual TPM.
    pub vtpm: bool,
    /// Attached disk images.
    pub disks: Vec<DiskConfig>,
    /// Network interfaces.
    pub nics: Vec<NicConfig>,
    /// Shared folders.
    pub shared_folders: Vec<SharedFolderConfig>,
    /// User-defined tags for search and filtering.
    pub tags: Vec<String>,
    /// Optional group name for organising VMs.
    pub group: Option<String>,
}

impl VmConfig {
    /// A minimal configuration named `name`: 2 vCPUs, 2048 MiB, UEFI, no
    /// Secure Boot or vTPM, nothing attached.
    pub fn minimal(name: &str) -> (c: Self)
        ensures
            c.name@ == name@,
            c.description is None,
            c.cpu == (CpuConfig {
                vcpus: 2,
                sockets: 1,
                cores_per_socket: 2,
                threads_per_core: 1,
                overcommit_ratio_bits: RATIO_ONE_BITS,
            }),
            c.memory == (MemoryConfig { size_mib: 2048, dynamic_min_mib: 512, dynamic_max_mib: 4096, ballooning: true, huge_pages: false }),
            c.firmware == FirmwareType::Uefi,
            !c.secure_boot && !c.vtpm,
            c.disks@.len() == 0 && c.nics@.len() == 0 && c.shared_folders@.len() == 0 && c.tags@.len() == 0,
            c.group is None,
    {
        VmConfig {
            name: String::from_str(name),
            description: None,
            cpu: CpuConfig::default(),
            memory: MemoryConfig::default(),
            firmware: FirmwareType::Uefi,
            secure_boot: false,
            vtpm: false,
            disks: Vec::new(),
            nics: Vec::new(),
            shared_folders: Vec::new(),
            tags: Vec::new(),
            group: None,
        }
    }
}

/// VM template — a named configuration used as a starting point.
#[derive(Debug, Clone)]
pub struct VmTemplate {
    /// Unique template identifier.
    pub id: u128,
    /// Template display name.
    pub name: String,
    /// Description.
    pub description: Option<String>,
    /// The config this template embodies.
    pub config: VmConfig,
}

} // verus!
