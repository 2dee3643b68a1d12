//! What each hypervisor backend reports it can do, and under which name.
use vstd::prelude::*;
use crate::hypervisor::backend::null::{AvfBackend, BackendKind, NullBackend};
use crate::hypervisor::types::HypervisorCapabilities;

verus! {

/// `c` has exactly these flags, name and version.
pub open spec fn caps_are(
    c: HypervisorCapabilities,
    flags: (bool, bool, bool, bool, bool, bool, bool),
    name: Seq<char>,
    version: Seq<char>,
) -> bool {
    &&& c.secure_boot == flags.0
    &&& c.vtpm == flags.1
    &&& c.nested_virt == flags.2
    &&& c.huge_pages == flags.3
    &&& c.memory_ballooning == flags.4
    &&& c.memory_dedup == flags.5
    &&& c.usb_redirection == flags.6
    &&& c.backend_name@ == name
    &&& c.backend_version@ == version
}

/// The Windows Hypervisor Platform backend: every capability; named
/// "NovaVM-WHP".
pub fn whp_capabilities() -> (c: HypervisorCapabilities)
    ensures
        caps_are(c, (true, true, true, true, true, true, true), "NovaVM-WHP"@, "Windows Hypervisor Platform"@),
{
    HypervisorCapabilities {
        secure_boot: true,
        vtpm: true,
        nested_virt: true,
        huge_pages: true,
        memory_ballooning: true,
        memory_dedup: true,
        usb_redirection: true,
        backend_name: String::from_str("NovaVM-WHP"),
        backend_version: String::from_str("Windows Hypervisor Platform"),
    }
}

/// The KVM backend: all but Secure Boot; named "NovaVM-KVM".
pub fn kvm_capabilities() -> (c: HypervisorCapabilities)
    ensures
        caps_are(c, (false, true, true, true, true, true, true), "NovaVM-KVM"@, "Linux KVM"@),
{
    HypervisorCapabilities {
        secure_boot: false,
        vtpm: true,
        nested_virt: true,
        huge_pages: true,
        memory_ballooning: true,
        memory_dedup: true,
        usb_redirection: true,
        backend_name: String::from_str("NovaVM-KVM"),
        backend_version: String::from_str("Linux KVM"),
    }
}

/// The QEMU process backend: ballooning and USB redirection only; named
/// "QEMU".
pub fn qemu_capabilities() -> (c: HypervisorCapabilities)
    ensures
        caps_are(c, (false, false, false, false, true, false, true), "QEMU"@, "9.x"@),
{
    HypervisorCapabilities {
        secure_boot: false,
        vtpm: false,
        nested_virt: false,
        huge_pages: false,
        memory_ballooning: true,
        memory_dedup: false,
        usb_redirection: true,
        backend_name: String::from_str("QEMU"),
        backend_version: String::from_str("9.x"),
    }
}

/// The VirtualBox backend: Secure Boot, vTPM, nested virtualization and USB
/// redirection; named "VirtualBox".
pub fn vbox_capabilities() -> (c: HypervisorCapabilities)
    ensures
        caps_are(c, (true, true, true, false, false, false, true), "VirtualBox"@, "7.x"@),
{
    HypervisorCapabilities {
        secure_boot: true,
        vtpm: true,
        nested_virt: true,
        huge_pages: false,
        memory_ballooning: false,
        memory_dedup: false,
        usb_redirection: true,
        backend_name: String::from_str("VirtualBox"),
        backend_version: String::from_str("7.x"),
    }
}

/// What the backend of kind `k` reports (the Apple backend on Apple silicon
/// when `apple_silicon`).
pub fn capabilities_of(k: BackendKind, apple_silicon: bool) -> (c: HypervisorCapabilities)
    ensures
        k == BackendKind::Whp ==> caps_are(c, (true, true, true, true, true, true, true), "NovaVM-WHP"@,
            "Windows Hypervisor Platform"@),
        k == BackendKind::Kvm ==> caps_are(c, (false, true, true, true, true, true, true), "NovaVM-KVM"@, "Linux KVM"@),
        k == BackendKind::Avf ==> caps_are(c, (apple_silicon, false, false, false, true, false, false), "AVF"@,
            "Virtualization.framework/macOS-14"@),
        k == BackendKind::VirtualBox ==> caps_are(c, (true, true, true, false, false, false, true), "VirtualBox"@, "7.x"@),
        k == BackendKind::Qemu ==> caps_are(c, (false, false, false, false, true, false, true), "QEMU"@, "9.x"@),
        k == BackendKind::Null ==> caps_are(c, (false, false, false, false, false, false, false), "null"@, "0.0.0"@),
{
    match k {
        BackendKind::Whp => whp_capabilities(),
        BackendKind::Kvm => kvm_capabilities(),
        BackendKind::Avf => AvfBackend::new(apple_silicon).capabilities(),
        BackendKind::VirtualBox => vbox_capabilities(),
        BackendKind::Qemu => qemu_capabilities(),
        BackendKind::Null => NullBackend.capabilities(),
    }
}

} // verus!
