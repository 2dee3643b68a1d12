//! Types shared by every hypervisor backend.
use vstd::prelude::*;

verus! {

/// Firmware selection for a hypervisor request.
#[derive(Debug, Clone, Copy, PartialEq, Eq, Structural)]
pub enum FirmwareType {
    Bios,
    Uefi,
}

/// Parameters for creating a VM at the hypervisor level.
#[derive(Debug)]
pub struct CreateVmRequest {
    /// Requested VM id; a backend generates one when absent.
    pub id: Option<u128>,
    /// Human-readable VM name.
    pub name: String,
    /// Number of virtual CPUs.
    pub vcpus: u32,
    /// Guest RAM in MiB.
    pub memory_mib: u64,
    pub firmware: FirmwareType,
    pub secure_boot: bool,
    pub vtpm: bool,
    /// Primary virtual hard disk on the host.
    pub disk_path: Option<String>,
    /// Installer ISO attached as CD-ROM with the highest boot priority.
    pub iso_path: Option<String>,
}

/// An opaque handle to a hypervisor-level VM object.
#[derive(Debug)]
pub struct VmHandle {
    /// Identifier assigned by the backend at creation time.
    pub id: u128,
    /// The name supplied in the create request.
    pub name: String,
    /// Backend-specific token.
    pub backend_token: String,
}

impl VmHandle {
    /// A field-for-field copy.
    pub fn duplicate(&self) -> (r: VmHandle)
        ensures
            r == *self,
    {
        VmHandle { id: self.id, name: self.name.clone(), backend_token: self.backend_token.clone() }
    }
}

/// Guest memory statistics.
#[derive(Debug, Clone, Copy, PartialEq, Eq, Structural)]
pub struct MemoryStats {
    /// Total guest RAM visible to the OS, in MiB.
    pub total_mib: u64,
    /// RAM in use by the guest OS, in MiB.
    pub used_mib: u64,
    /// RAM available (free + reclaimable), in MiB.
    pub available_mib: u64,
    /// Memory reclaimed by the balloon driver, in MiB.
    pub balloon_size_mib: u64,
}

impl Default for MemoryStats {
    fn default() -> (m: Self)
        ensures
            m == (MemoryStats { total_mib: 0, used_mib: 0, available_mib: 0, balloon_size_mib: 0 }),
    {
        MemoryStats { total_mib: 0, used_mib: 0, available_mib: 0, balloon_size_mib: 0 }
    }
}

/// Capability flags reported by a hypervisor backend.
#[derive(Debug)]
pub struct HypervisorCapabilities {
    pub secure_boot: bool,
    pub vtpm: bool,
    pub nested_virt: bool,
    pub huge_pages: bool,
    pub memory_ballooning: bool,
    pub memory_dedup: bool,
    pub usb_redirection: bool,
    /// Name of the detected backend.
    pub backend_name: String,
    /// Backend version string.
    pub backend_version: String,
}

/// All errors a hypervisor backend reports.
#[derive(Debug)]
pub enum HypervisorError {
    NotAvailable(String),
    CreateFailed(String),
    StartFailed(String),
    PauseFailed(String),
    ResumeFailed(String),
    StopFailed(String),
    DestroyFailed(String),
    MemoryError(String),
    Io(String),
    Internal(String),
}

} // verus!
