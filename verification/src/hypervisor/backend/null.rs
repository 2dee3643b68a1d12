//! Backends that create no real VM: the null backend (tests, platforms
//! without a hypervisor) and the Apple Virtualization Framework stand-in;
//! and the choice of backend from what the host offers.
use vstd::prelude::*;
use crate::hypervisor::types::{CreateVmRequest, HypervisorCapabilities, HypervisorError, VmHandle};
use crate::util::ids::{is_v4, new_uuid};

verus! {

/// A backend that touches no OS API and always succeeds.
#[derive(Debug, Clone, Copy)]
pub struct NullBackend;

impl NullBackend {
    /// Named "null", version "0.0.0", no capability.
    pub fn capabilities(&self) -> (c: HypervisorCapabilities)
        ensures
            !c.secure_boot && !c.vtpm && !c.nested_virt && !c.huge_pages && !c.memory_ballooning
                && !c.memory_dedup && !c.usb_redirection,
            c.backend_name@ == "null"@ && c.backend_version@ == "0.0.0"@,
    {
        HypervisorCapabilities {
            secure_boot: false,
            vtpm: false,
            nested_virt: false,
            huge_pages: false,
            memory_ballooning: false,
            memory_dedup: false,
            usb_redirection: false,
            backend_name: String::from_str("null"),
            backend_version: String::from_str("0.0.0"),
        }
    }

    /// A handle with the requested id (or a fresh one) and the token "null".
    pub fn create_vm(&self, req: CreateVmRequest) -> (r: Result<VmHandle, HypervisorError>)
        ensures
            r matches Ok(h) && h.name@ == req.name@ && h.backend_token@ == "null"@
                && match req.id { Some(id) => h.id == id, None => is_v4(h.id) },
    {
        let id = match req.id {
            Some(id) => id,
            None => new_uuid(),
        };
        Ok(VmHandle { id, name: req.name, backend_token: String::from_str("null") })
    }
}

/// The Apple Virtualization Framework backend (no VM is created yet).
#[derive(Debug)]
pub struct AvfBackend {
    apple_silicon: bool,
}

impl AvfBackend {
    /// The backend, on Apple silicon or not.
    pub fn new(apple_silicon: bool) -> (b: Self)
        ensures
            b.is_apple_silicon() == apple_silicon,
    {
        AvfBackend { apple_silicon }
    }

    pub closed spec fn is_apple_silicon(&self) -> bool {
        self.apple_silicon
    }

    /// Secure Boot on Apple silicon, ballooning; named "AVF".
    pub fn capabilities(&self) -> (c: HypervisorCapabilities)
        ensures
            c.secure_boot == self.is_apple_silicon(),
            !c.vtpm && !c.nested_virt && !c.huge_pages && c.memory_ballooning && !c.memory_dedup && !c.usb_redirection,
            c.backend_name@ == "AVF"@ && c.backend_version@ == "Virtualization.framework/macOS-14"@,
    {
        HypervisorCapabilities {
            secure_boot: self.apple_silicon,
            vtpm: false,
            nested_virt: false,
            huge_pages: false,
            memory_ballooning: true,
            memory_dedup: false,
            usb_redirection: false,
            backend_name: String::from_str("AVF"),
            backend_version: String::from_str("Virtualization.framework/macOS-14"),
        }
    }

    /// A handle with the requested id (or a fresh one) and the token "avf-stub".
    pub fn create_vm(&self, req: CreateVmRequest) -> (r: Result<VmHandle, HypervisorError>)
        ensures
            r matches Ok(h) && h.name@ == req.name@ && h.backend_token@ == "avf-stub"@
                && match req.id { Some(id) => h.id == id, None => is_v4(h.id) },
    {
        let id = match req.id {
            Some(id) => id,
            None => new_uuid(),
        };
        Ok(VmHandle { id, name: req.name, backend_token: String::from_str("avf-stub") })
    }
}

/// The backend kinds, in order of preference.
#[derive(Debug, Clone, Copy, PartialEq, Eq, Structural)]
pub enum BackendKind {
    Whp,
    Kvm,
    Avf,
    VirtualBox,
    Qemu,
    Null,
}

/// What the host offers.
pub struct HostHypervisors {
    /// Windows host with WHP usable.
    pub whp: bool,
    /// Linux host with `/dev/kvm` usable.
    pub kvm: bool,
    /// macOS host.
    pub macos: bool,
    /// VBoxManage found.
    pub virtualbox: bool,
    /// qemu-system-x86_64 found.
    pub qemu: bool,
}

/// Pick the backend: native OS hypervisors first (WHP, KVM, AVF), then
/// VirtualBox, then QEMU, and the null backend when nothing is there.
pub fn detect_backend(host: &HostHypervisors) -> (k: BackendKind)
    ensures
        k == if host.whp {
            BackendKind::Whp
        } else if host.kvm {
            BackendKind::Kvm
        } else if host.macos {
            BackendKind::Avf
        } else if host.virtualbox {
            BackendKind::VirtualBox
        } else if host.qemu {
            BackendKind::Qemu
        } else {
            BackendKind::Null
        },
{
    if host.whp {
        BackendKind::Whp
    } else if host.kvm {
        BackendKind::Kvm
    } else if host.macos {
        BackendKind::Avf
    } else if host.virtualbox {
        BackendKind::VirtualBox
    } else if host.qemu {
        BackendKind::Qemu
    } else {
        BackendKind::Null
    }
}

} // verus!
