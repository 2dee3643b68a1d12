//! Which virtualization engine is active and what it can do. The host
//! probes (CPUID, `/dev/kvm`, WHP, QEMU, memory size); the library turns
//! the answers into the engine choice and the capability report.
use vstd::prelude::*;
use crate::util::text::push_str;

verus! {

/// The active virtualization engine.
#[derive(Debug, Clone, Copy, PartialEq, Eq, Structural)]
pub enum EngineType {
    /// Windows Hypervisor Platform.
    NovaNativeWhp,
    /// Linux KVM.
    NovaNativeKvm,
    /// A QEMU process with hardware acceleration.
    NovaQemuAccelerated,
    /// A QEMU process in software (TCG) mode.
    NovaQemuSoftware,
    /// Software-only emulation.
    NovaSimulation,
}

impl EngineType {
    /// Human-readable name.
    pub fn display_name(&self) -> (r: &'static str)
        ensures
            r@ == match *self {
                EngineType::NovaNativeWhp => "NovaVM Native (WHP)"@,
                EngineType::NovaNativeKvm => "NovaVM Native (KVM)"@,
                EngineType::NovaQemuAccelerated => "NovaVM + QEMU (Accelerated)"@,
                EngineType::NovaQemuSoftware => "NovaVM + QEMU (Software)"@,
                EngineType::NovaSimulation => "NovaVM Simulation"@,
            },
    {
        match self {
            EngineType::NovaNativeWhp => "NovaVM Native (WHP)",
            EngineType::NovaNativeKvm => "NovaVM Native (KVM)",
            EngineType::NovaQemuAccelerated => "NovaVM + QEMU (Accelerated)",
            EngineType::NovaQemuSoftware => "NovaVM + QEMU (Software)",
            EngineType::NovaSimulation => "NovaVM Simulation",
        }
    }

    /// Short badge label.
    pub fn badge(&self) -> (r: &'static str)
        ensures
            r@ == match *self {
                EngineType::NovaNativeWhp => "WHP"@,
                EngineType::NovaNativeKvm => "KVM"@,
                EngineType::NovaQemuAccelerated => "QEMU+HW"@,
                EngineType::NovaQemuSoftware => "QEMU+SW"@,
                EngineType::NovaSimulation => "SIM"@,
            },
    {
        match self {
            EngineType::NovaNativeWhp => "WHP",
            EngineType::NovaNativeKvm => "KVM",
            EngineType::NovaQemuAccelerated => "QEMU+HW",
            EngineType::NovaQemuSoftware => "QEMU+SW",
            EngineType::NovaSimulation => "SIM",
        }
    }

    /// The engine's star rating, 1 to 5: five for the native engines, four
    /// for accelerated QEMU, two for software QEMU and for the simulation.
    pub fn performance_tier(&self) -> (r: u8)
        ensures
            r == match *self {
                EngineType::NovaNativeWhp | EngineType::NovaNativeKvm => 5u8,
                EngineType::NovaQemuAccelerated => 4u8,
                EngineType::NovaQemuSoftware => 2u8,
                EngineType::NovaSimulation => 2u8,
            },
    {
        match self {
            EngineType::NovaNativeWhp | EngineType::NovaNativeKvm => 5,
            EngineType::NovaQemuAccelerated => 4,
            EngineType::NovaQemuSoftware => 2,
            EngineType::NovaSimulation => 2,
        }
    }

    /// Whether the engine uses hardware virtualization.
    pub fn is_hardware_accelerated(&self) -> (r: bool)
        ensures
            r == (*self == EngineType::NovaNativeWhp || *self == EngineType::NovaNativeKvm
                || *self == EngineType::NovaQemuAccelerated),
    {
        match self {
            EngineType::NovaNativeWhp | EngineType::NovaNativeKvm | EngineType::NovaQemuAccelerated => true,
            _ => false,
        }
    }
}

/// CPU virtualization technology.
#[derive(Debug, Clone, Copy, PartialEq, Eq, Structural)]
pub enum CpuVirtTech {
    IntelVtx,
    AmdV,
    ArmHv,
    /// Not detected or not available.
    NotDetected,
}

/// The name of a CPU virtualization technology.
pub open spec fn cpu_virt_name(c: CpuVirtTech) -> Seq<char> {
    match c {
        CpuVirtTech::IntelVtx => "Intel VT-x"@,
        CpuVirtTech::AmdV => "AMD-V (SVM)"@,
        CpuVirtTech::ArmHv => "ARM HV"@,
        CpuVirtTech::NotDetected => "Hardware Virtualization"@,
    }
}

impl CpuVirtTech {
    /// Human-readable name.
    pub fn display_name(&self) -> (r: &'static str)
        ensures
            r@ == cpu_virt_name(*self),
    {
        match self {
            CpuVirtTech::IntelVtx => "Intel VT-x",
            CpuVirtTech::AmdV => "AMD-V (SVM)",
            CpuVirtTech::ArmHv => "ARM HV",
            CpuVirtTech::NotDetected => "Hardware Virtualization",
        }
    }
}

/// The technology an x86 CPU reports: VT-x or the hypervisor bit in leaf 1
/// ECX (bits 5, 31) means VT-x, or AMD-V when the vendor is AuthenticAMD
/// (leaf 0 EBX "Auth"); otherwise SVM in leaf 0x8000_0001 ECX bit 2 means
/// AMD-V; otherwise VT-x is assumed.
pub open spec fn classify_x86(leaf1_ecx: u32, leaf0_ebx: u32, ext_ecx: u32) -> CpuVirtTech {
    if (leaf1_ecx / 0x20) % 2 == 1 || leaf1_ecx >= 0x8000_0000 {
        if leaf0_ebx == 0x6874_7541 { CpuVirtTech::AmdV } else { CpuVirtTech::IntelVtx }
    } else if (ext_ecx / 4) % 2 == 1 {
        CpuVirtTech::AmdV
    } else {
        CpuVirtTech::IntelVtx
    }
}

/// Classify an x86 CPU from its CPUID answers.
pub fn detect_cpu_virt(leaf1_ecx: u32, leaf0_ebx: u32, ext_ecx: u32) -> (r: CpuVirtTech)
    ensures
        r == classify_x86(leaf1_ecx, leaf0_ebx, ext_ecx),
{
    let vtx = leaf1_ecx & 0x20;
    let hv = leaf1_ecx & 0x8000_0000;
    let svm = ext_ecx & 0x4;
    assert((vtx != 0) == ((leaf1_ecx / 0x20) % 2 == 1) && (hv != 0) == (leaf1_ecx >= 0x8000_0000)
        && (svm != 0) == ((ext_ecx / 4) % 2 == 1)) by (bit_vector)
        requires
            vtx == leaf1_ecx & 0x20,
            hv == leaf1_ecx & 0x8000_0000,
            svm == ext_ecx & 0x4,
    ;
    if vtx != 0 || hv != 0 {
        if leaf0_ebx == 0x6874_7541 { CpuVirtTech::AmdV } else { CpuVirtTech::IntelVtx }
    } else if svm != 0 {
        CpuVirtTech::AmdV
    } else {
        CpuVirtTech::IntelVtx
    }
}

/// Engine on Windows: WHP when present (with CPU support), else QEMU
/// (accelerated when the CPU supports it), else simulation.
pub fn detect_windows_engine(cpu: CpuVirtTech, qemu_found: bool, whp_available: bool) -> (r: (EngineType, String))
    ensures
        whp_available && cpu != CpuVirtTech::NotDetected ==> r.0 == EngineType::NovaNativeWhp && r.1@ == "Windows Hypervisor Platform (WHP)"@,
        !(whp_available && cpu != CpuVirtTech::NotDetected) && qemu_found && cpu != CpuVirtTech::NotDetected
            ==> r.0 == EngineType::NovaQemuAccelerated && r.1@ == "QEMU + WHPX"@,
        !(whp_available && cpu != CpuVirtTech::NotDetected) && qemu_found && cpu == CpuVirtTech::NotDetected
            ==> r.0 == EngineType::NovaQemuSoftware && r.1@ == "QEMU TCG"@,
        !(whp_available && cpu != CpuVirtTech::NotDetected) && !qemu_found
            ==> r.0 == EngineType::NovaSimulation && r.1@ == "Software Simulation"@,
{
    if whp_available && cpu != CpuVirtTech::NotDetected {
        (EngineType::NovaNativeWhp, String::from_str("Windows Hypervisor Platform (WHP)"))
    } else if qemu_found {
        if cpu != CpuVirtTech::NotDetected {
            (EngineType::NovaQemuAccelerated, String::from_str("QEMU + WHPX"))
        } else {
            (EngineType::NovaQemuSoftware, String::from_str("QEMU TCG"))
        }
    } else {
        (EngineType::NovaSimulation, String::from_str("Software Simulation"))
    }
}

/// Engine on Linux: KVM when `/dev/kvm` exists (with CPU support), else
/// QEMU (accelerated when KVM exists), else simulation.
pub fn detect_linux_engine(cpu: CpuVirtTech, qemu_found: bool, kvm_available: bool) -> (r: (EngineType, String))
    ensures
        kvm_available && cpu != CpuVirtTech::NotDetected ==> r.0 == EngineType::NovaNativeKvm && r.1@ == "Linux KVM"@,
        !(kvm_available && cpu != CpuVirtTech::NotDetected) && qemu_found && kvm_available
            ==> r.0 == EngineType::NovaQemuAccelerated && r.1@ == "QEMU + KVM"@,
        !(kvm_available && cpu != CpuVirtTech::NotDetected) && qemu_found && !kvm_available
            ==> r.0 == EngineType::NovaQemuSoftware && r.1@ == "QEMU TCG"@,
        !(kvm_available && cpu != CpuVirtTech::NotDetected) && !qemu_found
            ==> r.0 == EngineType::NovaSimulation && r.1@ == "Software Simulation"@,
{
    if kvm_available && cpu != CpuVirtTech::NotDetected {
        (EngineType::NovaNativeKvm, String::from_str("Linux KVM"))
    } else if qemu_found {
        if kvm_available {
            (EngineType::NovaQemuAccelerated, String::from_str("QEMU + KVM"))
        } else {
            (EngineType::NovaQemuSoftware, String::from_str("QEMU TCG"))
        }
    } else {
        (EngineType::NovaSimulation, String::from_str("Software Simulation"))
    }
}

/// Engine on macOS: QEMU with HVF when found, else the Apple framework
/// reported as simulation.
pub fn detect_macos_engine(qemu_found: bool) -> (r: (EngineType, String))
    ensures
        qemu_found ==> r.0 == EngineType::NovaQemuAccelerated && r.1@ == "QEMU + HVF"@,
        !qemu_found ==> r.0 == EngineType::NovaSimulation && r.1@ == "Apple Virtualization Framework"@,
{
    if qemu_found {
        (EngineType::NovaQemuAccelerated, String::from_str("QEMU + HVF"))
    } else {
        (EngineType::NovaSimulation, String::from_str("Apple Virtualization Framework"))
    }
}

/// Capability report of the active engine.
#[derive(Debug)]
pub struct NovaEngineCapabilities {
    pub engine: EngineType,
    pub cpu_virt: CpuVirtTech,
    pub vtx_available: bool,
    pub amd_v_available: bool,
    pub nested_virt: bool,
    pub iommu: bool,
    pub cpu_cores: u32,
    pub total_ram_mib: u64,
    pub max_vcpus_per_vm: u32,
    pub max_guest_ram_mib: u64,
    pub hypervisor_platform: String,
    pub engine_version: String,
    pub description: String,
    pub qemu_available: bool,
    pub qemu_path: Option<String>,
}

/// The UI description of `engine` running on `cpu`.
pub open spec fn engine_description(engine: EngineType, cpu: CpuVirtTech) -> Seq<char> {
    match engine {
        EngineType::NovaNativeWhp => "NovaVM is using Windows Hypervisor Platform (WHP) — Microsoft's native hypervisor API. Hardware-accelerated VMs run at near-native speed using your CPU's "@
            + cpu_virt_name(cpu) + " extensions."@,
        EngineType::NovaNativeKvm => "NovaVM is using Linux KVM (Kernel Virtual Machine) — the Linux kernel's built-in hypervisor. VMs use your CPU's "@
            + cpu_virt_name(cpu) + " extensions for hardware acceleration."@,
        _ => "NovaVM is using native hardware virtualization engine (WHP) with "@ + cpu_virt_name(cpu)
            + " extensions."@,
    }
}

/// Build the capability report from what the host found: the CPU's
/// technology, the engine and platform chosen for this OS, the core count
/// and RAM, the engine version and where QEMU was found (if it was). VT-x
/// and AMD-V are reported as the CPU has them, QEMU as found. Guests may use
/// up to 256 vCPUs (at most the host's cores) and three quarters of host RAM
/// (at least 512 MiB).
pub fn detect_nova_engine(
    cpu: CpuVirtTech,
    engine: EngineType,
    platform: String,
    cpu_cores: u32,
    total_ram_mib: u64,
    engine_version: String,
    qemu: Option<String>,
) -> (c: NovaEngineCapabilities)
    requires
        total_ram_mib * 3 <= u64::MAX,
    ensures
        c.engine == engine && c.cpu_virt == cpu,
        c.vtx_available == (cpu == CpuVirtTech::IntelVtx),
        c.nested_virt && c.iommu,
        c.amd_v_available == (cpu == CpuVirtTech::AmdV),
        c.cpu_cores == cpu_cores && c.total_ram_mib == total_ram_mib,
        c.max_vcpus_per_vm == if cpu_cores < 256 { cpu_cores } else { 256 },
        c.max_guest_ram_mib == if total_ram_mib * 3 / 4 > 512 { total_ram_mib * 3 / 4 } else { 512 },
        c.hypervisor_platform@ == platform@ && c.engine_version@ == engine_version@,
        c.description@ == engine_description(engine, cpu),
        c.qemu_available == qemu is Some,
        c.qemu_path == qemu,
{
    let mut description = match engine {
        EngineType::NovaNativeWhp => String::from_str(
            "NovaVM is using Windows Hypervisor Platform (WHP) — Microsoft's native hypervisor API. Hardware-accelerated VMs run at near-native speed using your CPU's ",
        ),
        EngineType::NovaNativeKvm => String::from_str(
            "NovaVM is using Linux KVM (Kernel Virtual Machine) — the Linux kernel's built-in hypervisor. VMs use your CPU's ",
        ),
        _ => String::from_str("NovaVM is using native hardware virtualization engine (WHP) with "),
    };
    push_str(&mut description, cpu.display_name());
    match engine {
        EngineType::NovaNativeKvm => push_str(&mut description, " extensions for hardware acceleration."),
        _ => push_str(&mut description, " extensions."),
    }
    let ram = total_ram_mib * 3 / 4;
    NovaEngineCapabilities {
        engine,
        cpu_virt: cpu,
        vtx_available: cpu == CpuVirtTech::IntelVtx,
        amd_v_available: cpu == CpuVirtTech::AmdV,
        nested_virt: true,
        iommu: true,
        cpu_cores,
        total_ram_mib,
        max_vcpus_per_vm: if cpu_cores < 256 { cpu_cores } else { 256 },
        max_guest_ram_mib: if ram > 512 { ram } else { 512 },
        hypervisor_platform: platform,
        engine_version,
        description,
        qemu_available: qemu.is_some(),
        qemu_path: qemu,
    }
}

} // verus!
