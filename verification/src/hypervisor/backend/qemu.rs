//! The QEMU process backend: what a VM's launch parameters are and the
//! `qemu-system-x86_64` command line built from them. The host starts and
//! stops the process.
use vstd::prelude::*;
use crate::hypervisor::backend::shell::lines_view;
use crate::hypervisor::types::{CreateVmRequest, FirmwareType};
use crate::util::ids::{uuid_text, uuid_to_string};
use crate::util::text::{decimal, push_str, u64_decimal};

verus! {

/// What a QEMU VM is launched with.
#[derive(Debug)]
pub struct QemuLaunchParams {
    pub vcpus: u32,
    pub memory_mib: u64,
    pub uefi: bool,
    pub disk_path: Option<String>,
    pub iso_path: Option<String>,
    /// VNC display number (port 5900 + slot).
    pub vnc_slot: u16,
}

impl QemuLaunchParams {
    /// The launch parameters of a create request on VNC slot `vnc_slot`.
    pub fn from_request(req: CreateVmRequest, vnc_slot: u16) -> (p: Self)
        ensures
            p.vcpus == req.vcpus && p.memory_mib == req.memory_mib,
            p.uefi == (req.firmware == FirmwareType::Uefi),
            p.disk_path == req.disk_path && p.iso_path == req.iso_path,
            p.vnc_slot == vnc_slot,
    {
        QemuLaunchParams {
            vcpus: req.vcpus,
            memory_mib: req.memory_mib,
            uefi: req.firmware == FirmwareType::Uefi,
            disk_path: req.disk_path,
            iso_path: req.iso_path,
            vnc_slot,
        }
    }
}

/// Hands out VNC slots 0, 1, 2, … (wrapping after 65535).
pub struct VncSlots {
    next: u16,
}

impl VncSlots {
    pub closed spec fn peek(&self) -> u16 {
        self.next
    }

    /// A counter starting at slot 0.
    pub fn new() -> (s: Self)
        ensures
            s.peek() == 0,
    {
        VncSlots { next: 0 }
    }

    /// The next slot.
    pub fn next_vnc_slot(&mut self) -> (slot: u16)
        ensures
            slot == old(self).peek(),
            final(self).peek() == (if slot == 0xFFFF { 0u16 } else { (slot + 1) as u16 }),
    {
        let slot = self.next;
        self.next = if slot == 0xFFFF { 0 } else { slot + 1 };
        slot
    }
}

/// The QEMU arguments for VM `id` named `name` launched with `p`; `ovmf`
/// is the first UEFI firmware file found on the host, if any.
pub open spec fn qemu_args(id: u128, name: Seq<char>, p: QemuLaunchParams, ovmf: Option<Seq<char>>) -> Seq<Seq<char>> {
    let base = seq![
        "-machine"@, "q35,accel=whpx:tcg"@,
        "-cpu"@, "host,hv_relaxed,hv_spinlocks=0x1fff,hv_vapic,hv_time"@,
        "-smp"@, decimal(p.vcpus as nat) + ",sockets=1,cores="@ + decimal(p.vcpus as nat) + ",threads=1"@,
        "-m"@, decimal(p.memory_mib as nat) + "M"@,
    ];
    let fw = if p.uefi && ovmf is Some {
        seq!["-drive"@, "if=pflash,format=raw,unit=0,file="@ + ovmf.unwrap() + ",readonly=on"@]
    } else {
        seq![]
    };
    let disk = match p.disk_path {
        Some(d) => seq!["-drive"@, "file="@ + d@ + ",format=qcow2,if=virtio,index=0,media=disk"@],
        None => seq![],
    };
    let iso = match p.iso_path {
        Some(i) => seq![
            "-drive"@, "file="@ + i@ + ",format=raw,if=none,id=cdrom0,readonly=on"@,
            "-device"@, "ide-cd,drive=cdrom0,bootindex=1"@,
        ],
        None => seq![],
    };
    let boot = seq!["-boot"@, if p.iso_path is Some { "order=dc,menu=on"@ } else { "order=c,menu=on"@ }];
    let rest = seq![
        "-netdev"@, "user,id=net0,hostfwd=tcp::2222-:22"@,
        "-device"@, "virtio-net-pci,netdev=net0"@,
        "-display"@, "sdl,grab-mod=lshift-lctrl"@,
        "-vnc"@, "127.0.0.1:"@ + decimal(p.vnc_slot as nat),
        "-device"@, "intel-hda"@,
        "-device"@, "hda-duplex"@,
        "-device"@, "qemu-xhci,id=xhci"@,
        "-device"@, "usb-tablet"@,
        "-device"@, "virtio-balloon-pci"@,
        "-device"@, "virtio-serial-pci"@,
        "-chardev"@, "socket,path=\\\\.\\pipe\\novavm-"@ + uuid_text(id) + ",server=on,wait=off,id=qga0"@,
        "-device"@, "virtserialport,chardev=qga0,name=org.qemu.guest_agent.0"@,
        "-name"@, "NovaVM: "@ + name + " [ID: "@ + uuid_text(id) + "]"@,
        "-monitor"@, "stdio"@,
    ];
    base + fw + disk + iso + boot + rest
}

pub(crate) fn push_line(v: &mut Vec<String>, s: String)
    ensures
        lines_view(final(v)@) == lines_view(old(v)@).push(s@),
{
    v.push(s);
    assert(lines_view(v@) =~= lines_view(old(v)@).push(s@));
}

pub(crate) fn push_lit(v: &mut Vec<String>, s: &str)
    ensures
        lines_view(final(v)@) == lines_view(old(v)@).push(s@),
{
    push_line(v, String::from_str(s));
}

fn concat3(a: &str, b: &str, c: &str) -> (r: String)
    ensures
        r@ == a@ + b@ + c@,
{
    let mut r = String::from_str(a);
    push_str(&mut r, b);
    push_str(&mut r, c);
    r
}

/// Build the QEMU command line for VM `id` named `name`.
pub fn build_args(id: u128, name: &str, p: &QemuLaunchParams, ovmf: Option<&str>) -> (r: Vec<String>)
    ensures
        lines_view(r@) == qemu_args(id, name@, *p, match ovmf { Some(o) => Some(o@), None => None }),
{
    let ghost ov = match ovmf { Some(o) => Some(o@), None => None::<Seq<char>> };
    let mut args: Vec<String> = Vec::new();
    push_lit(&mut args, "-machine");
    push_lit(&mut args, "q35,accel=whpx:tcg");
    push_lit(&mut args, "-cpu");
    push_lit(&mut args, "host,hv_relaxed,hv_spinlocks=0x1fff,hv_vapic,hv_time");
    push_lit(&mut args, "-smp");
    let v = u64_decimal(p.vcpus as u64);
    let mut smp = concat3(v.as_str(), ",sockets=1,cores=", v.as_str());
    push_str(&mut smp, ",threads=1");
    push_line(&mut args, smp);
    push_lit(&mut args, "-m");
    let mut mem = u64_decimal(p.memory_mib);
    push_str(&mut mem, "M");
    push_line(&mut args, mem);
    let ghost s_base = lines_view(args@);

    if p.uefi {
        if let Some(o) = ovmf {
            push_lit(&mut args, "-drive");
            push_line(&mut args, concat3("if=pflash,format=raw,unit=0,file=", o, ",readonly=on"));
        }
    }
    let ghost s_fw = lines_view(args@);
    if let Some(d) = &p.disk_path {
        push_lit(&mut args, "-drive");
        push_line(&mut args, concat3("file=", d.as_str(), ",format=qcow2,if=virtio,index=0,media=disk"));
    }
    let ghost s_disk = lines_view(args@);
    if let Some(i) = &p.iso_path {
        push_lit(&mut args, "-drive");
        push_line(&mut args, concat3("file=", i.as_str(), ",format=raw,if=none,id=cdrom0,readonly=on"));
        push_lit(&mut args, "-device");
        push_lit(&mut args, "ide-cd,drive=cdrom0,bootindex=1");
    }
    let ghost s_iso = lines_view(args@);
    push_lit(&mut args, "-boot");
    if p.iso_path.is_some() {
        push_lit(&mut args, "order=dc,menu=on");
    } else {
        push_lit(&mut args, "order=c,menu=on");
    }
    let ghost s_boot = lines_view(args@);
    push_lit(&mut args, "-netdev");
    push_lit(&mut args, "user,id=net0,hostfwd=tcp::2222-:22");
    push_lit(&mut args, "-device");
    push_lit(&mut args, "virtio-net-pci,netdev=net0");
    push_lit(&mut args, "-display");
    push_lit(&mut args, "sdl,grab-mod=lshift-lctrl");
    push_lit(&mut args, "-vnc");
    let mut vnc = String::from_str("127.0.0.1:");
    let slot = u64_decimal(p.vnc_slot as u64);
    push_str(&mut vnc, slot.as_str());
    push_line(&mut args, vnc);
    push_lit(&mut args, "-device");
    push_lit(&mut args, "intel-hda");
    push_lit(&mut args, "-device");
    push_lit(&mut args, "hda-duplex");
    push_lit(&mut args, "-device");
    push_lit(&mut args, "qemu-xhci,id=xhci");
    push_lit(&mut args, "-device");
    push_lit(&mut args, "usb-tablet");
    push_lit(&mut args, "-device");
    push_lit(&mut args, "virtio-balloon-pci");
    push_lit(&mut args, "-device");
    push_lit(&mut args, "virtio-serial-pci");
    push_lit(&mut args, "-chardev");
    let idt = uuid_to_string(id);
    push_line(&mut args, concat3("socket,path=\\\\.\\pipe\\novavm-", idt.as_str(), ",server=on,wait=off,id=qga0"));
    push_lit(&mut args, "-device");
    push_lit(&mut args, "virtserialport,chardev=qga0,name=org.qemu.guest_agent.0");
    push_lit(&mut args, "-name");
    let mut title = concat3("NovaVM: ", name, " [ID: ");
    push_str(&mut title, idt.as_str());
    push_str(&mut title, "]");
    push_line(&mut args, title);
    push_lit(&mut args, "-monitor");
    push_lit(&mut args, "stdio");
    proof {
        let spec = qemu_args(id, name@, *p, ov);
        assert(s_base.len() == 8);
        assert(lines_view(args@) =~= spec);
    }
    args
}

} // verus!
