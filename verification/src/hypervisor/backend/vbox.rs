//! The VirtualBox backend: the guest OS type guessed from a VM's name and
//! the `VBoxManage` invocations that create a VM. The host runs them.
use vstd::prelude::*;
use crate::hypervisor::backend::qemu::push_lit;
use crate::hypervisor::backend::shell::lines_view;
use crate::engine::error::{joined3, prefixed};
use crate::hypervisor::types::{CreateVmRequest, FirmwareType, HypervisorError, MemoryStats};
use crate::util::parse::{lines_of, parse_u64, parse_u64_text, split_words, text_lines, views, words};
use crate::storage::disk::path_extension;
use crate::util::text::{decimal, has_plain_tail, lowercase, name_extension, path_tail, str_eq, to_lowercase, u64_decimal};

verus! {

/// `needle` occurs in `hay`.
pub open spec fn contains_text(hay: Seq<char>, needle: Seq<char>) -> bool {
    exists|i: int| 0 <= i && i + needle.len() <= hay.len() && #[trigger] hay.subrange(i, i + needle.len()) == needle
}

/// Whether `needle` occurs in `hay`.
pub fn text_contains(hay: &str, needle: &str) -> (r: bool)
    ensures
        r == contains_text(hay@, needle@),
{
    let n = hay.unicode_len();
    let m = needle.unicode_len();
    if m > n {
        return false;
    }
    let mut i: usize = 0;
    while i <= n - m
        invariant
            n == hay@.len(),
            m == needle@.len(),
            m <= n,
            i <= n - m + 1,
            forall|k: int| 0 <= k < i ==> #[trigger] hay@.subrange(k, k + m) != needle@,
        decreases n - m + 1 - i,
    {
        let mut j: usize = 0;
        let mut same = true;
        while j < m
            invariant
                n == hay@.len(),
                m == needle@.len(),
                i + m <= n,
                j <= m,
                same == (forall|k: int| 0 <= k < j ==> hay@[i + k] == needle@[k]),
            decreases m - j,
        {
            if hay.get_char(i + j) != needle.get_char(j) {
                same = false;
            }
            j = j + 1;
        }
        if same {
            assert(hay@.subrange(i as int, i + m) =~= needle@);
            return true;
        }
        assert(hay@.subrange(i as int, i + m)[0] == hay@[i as int]);
        proof {
            if hay@.subrange(i as int, i + m) == needle@ {
                assert forall|k: int| 0 <= k < m implies hay@[i + k] == needle@[k] by {
                    assert(hay@.subrange(i as int, i + m)[k] == hay@[i + k]);
                }
            }
        }
        i = i + 1;
    }
    false
}

/// The VirtualBox OS type for a VM whose lowercased name is `lower`.
pub open spec fn os_type_for(lower: Seq<char>) -> Seq<char> {
    if contains_text(lower, "win11"@) {
        "Windows11_64"@
    } else if contains_text(lower, "win10"@) || contains_text(lower, "windows"@) {
        "Windows10_64"@
    } else if contains_text(lower, "ubuntu"@) {
        "Ubuntu_64"@
    } else if contains_text(lower, "debian"@) {
        "Debian_64"@
    } else if contains_text(lower, "fedora"@) {
        "Fedora_64"@
    } else if contains_text(lower, "arch"@) {
        "ArchLinux_64"@
    } else {
        "Linux_64"@
    }
}

/// Guess the VirtualBox OS type from a VM name.
pub fn guess_os_type(name: &str) -> (r: &'static str)
    ensures
        r@ == os_type_for(lowercase(name@)),
{
    let lower = to_lowercase(name);
    let l = lower.as_str();
    if text_contains(l, "win11") {
        "Windows11_64"
    } else if text_contains(l, "win10") || text_contains(l, "windows") {
        "Windows10_64"
    } else if text_contains(l, "ubuntu") {
        "Ubuntu_64"
    } else if text_contains(l, "debian") {
        "Debian_64"
    } else if text_contains(l, "fedora") {
        "Fedora_64"
    } else if text_contains(l, "arch") {
        "ArchLinux_64"
    } else {
        "Linux_64"
    }
}

/// One `VBoxManage` invocation.
pub struct VBoxCommand {
    pub args: Vec<String>,
    /// When a failure aborts VM creation: the step's name, which prefixes
    /// the error; none when a failure is ignored.
    pub failure: Option<String>,
}

/// The `VBoxManage` invocations that create VM `req` with OS type `os`;
/// `disk_is_qcow2` says whether the disk file's extension is `qcow2`, which
/// VirtualBox cannot attach.
pub open spec fn vbox_create_plan(req: CreateVmRequest, os: Seq<char>, disk_is_qcow2: bool) -> Seq<(Seq<Seq<char>>, Option<Seq<char>>)> {
    let n = req.name@;
    let create = seq!["createvm"@, "--name"@, n, "--ostype"@, os, "--register"@];
    let modify = seq![
        "modifyvm"@, n,
        "--cpus"@, decimal(req.vcpus as nat), "--memory"@, decimal(req.memory_mib as nat),
        "--firmware"@, if req.firmware == FirmwareType::Uefi { "efi64"@ } else { "bios"@ },
        "--graphicscontroller"@, "vmsvga"@, "--vram"@, "128"@,
        "--audio-driver"@, "default"@, "--audio-enabled"@, "on"@,
        "--nic1"@, "nat"@, "--nictype1"@, "virtio"@,
        "--usb"@, "on"@, "--usbehci"@, "on"@,
        "--clipboard-mode"@, "bidirectional"@,
    ];
    let sata = seq![
        "storagectl"@, n, "--name"@, "SATA Controller"@,
        "--add"@, "sata"@, "--controller"@, "IntelAhci"@, "--portcount"@, "4"@, "--bootable"@, "on"@,
    ];
    let ide = seq!["storagectl"@, n, "--name"@, "IDE Controller"@, "--add"@, "ide"@];
    let base = seq![
        (create, Some("createvm"@)),
        (modify, Some("modifyvm"@)),
        (sata, Some("storagectl SATA"@)),
        (ide, Some("storagectl IDE"@)),
    ];
    let disk = match req.disk_path {
        Some(d) => if disk_is_qcow2 {
            seq![]
        } else {
            seq![(seq![
                "storageattach"@, n, "--storagectl"@, "SATA Controller"@,
                "--port"@, "0"@, "--device"@, "0"@, "--type"@, "hdd"@, "--medium"@, d@,
            ], Some("attach disk"@))]
        },
        None => seq![],
    };
    let iso = match req.iso_path {
        Some(i) => seq![
            (seq![
                "storageattach"@, n, "--storagectl"@, "IDE Controller"@,
                "--port"@, "0"@, "--device"@, "0"@, "--type"@, "dvddrive"@, "--medium"@, i@,
            ], Some("attach ISO"@)),
            (seq!["modifyvm"@, n, "--boot1"@, "dvd"@, "--boot2"@, "disk"@, "--boot3"@, "none"@, "--boot4"@, "none"@], None),
        ],
        None => seq![
            (seq!["modifyvm"@, n, "--boot1"@, "disk"@, "--boot2"@, "none"@, "--boot3"@, "none"@, "--boot4"@, "none"@], None),
        ],
    };
    base + disk + iso
}

/// The failure label as plain text.
pub open spec fn label_view(l: Option<String>) -> Option<Seq<char>> {
    match l {
        Some(t) => Some(t@),
        None => None,
    }
}

/// The plan as plain values.
pub open spec fn plan_view(p: Seq<VBoxCommand>) -> Seq<(Seq<Seq<char>>, Option<Seq<char>>)> {
    p.map_values(|c: VBoxCommand| (lines_view(c.args@), label_view(c.failure)))
}

/// Arguments from a list of parts.
fn args(parts: Vec<&str>) -> (r: Vec<String>)
    ensures
        lines_view(r@) == Seq::new(parts@.len(), |k: int| parts@[k]@),
{
    let mut r: Vec<String> = Vec::new();
    let mut i: usize = 0;
    while i < parts.len()
        invariant
            i <= parts@.len(),
            lines_view(r@) == Seq::new(i as nat, |k: int| parts@[k]@),
        decreases parts@.len() - i,
    {
        push_lit(&mut r, parts[i]);
        i = i + 1;
        assert(lines_view(r@) =~= Seq::new(i as nat, |k: int| parts@[k]@));
    }
    r
}

/// The `VBoxManage` invocations that create VM `req`.
pub fn create_vm_commands(req: &CreateVmRequest, disk_is_qcow2: bool) -> (r: Vec<VBoxCommand>)
    ensures
        plan_view(r@) == vbox_create_plan(*req, os_type_for(lowercase(req.name@)), disk_is_qcow2),
{
    let n = req.name.as_str();
    let os = guess_os_type(n);
    let mem = u64_decimal(req.memory_mib);
    let cpus = u64_decimal(req.vcpus as u64);
    let fw = match req.firmware {
        FirmwareType::Uefi => "efi64",
        FirmwareType::Bios => "bios",
    };
    let ghost spec = vbox_create_plan(*req, os_type_for(lowercase(req.name@)), disk_is_qcow2);
    let mut plan: Vec<VBoxCommand> = Vec::new();
    let a1 = args(vec!["createvm", "--name", n, "--ostype", os, "--register"]);
    assert(lines_view(a1@) =~= spec[0].0);
    plan.push(VBoxCommand { args: a1, failure: Some(String::from_str("createvm")) });
    let a2 = args(vec![
        "modifyvm", n, "--cpus", cpus.as_str(), "--memory", mem.as_str(), "--firmware", fw,
        "--graphicscontroller", "vmsvga", "--vram", "128", "--audio-driver", "default", "--audio-enabled", "on",
        "--nic1", "nat", "--nictype1", "virtio", "--usb", "on", "--usbehci", "on", "--clipboard-mode", "bidirectional",
    ]);
    assert(lines_view(a2@) =~= spec[1].0);
    plan.push(VBoxCommand { args: a2, failure: Some(String::from_str("modifyvm")) });
    let a3 = args(vec![
        "storagectl", n, "--name", "SATA Controller", "--add", "sata", "--controller", "IntelAhci",
        "--portcount", "4", "--bootable", "on",
    ]);
    assert(lines_view(a3@) =~= spec[2].0);
    plan.push(VBoxCommand { args: a3, failure: Some(String::from_str("storagectl SATA")) });
    let a4 = args(vec!["storagectl", n, "--name", "IDE Controller", "--add", "ide"]);
    assert(lines_view(a4@) =~= spec[3].0);
    plan.push(VBoxCommand { args: a4, failure: Some(String::from_str("storagectl IDE")) });
    let mut k: usize = 4;
    if let Some(d) = &req.disk_path {
        if !disk_is_qcow2 {
            let a5 = args(vec![
                "storageattach", n, "--storagectl", "SATA Controller", "--port", "0", "--device", "0",
                "--type", "hdd", "--medium", d.as_str(),
            ]);
            assert(lines_view(a5@) =~= spec[4].0);
            plan.push(VBoxCommand { args: a5, failure: Some(String::from_str("attach disk")) });
            k = 5;
        }
    }
    if let Some(i) = &req.iso_path {
        let a6 = args(vec![
            "storageattach", n, "--storagectl", "IDE Controller", "--port", "0", "--device", "0",
            "--type", "dvddrive", "--medium", i.as_str(),
        ]);
        assert(lines_view(a6@) =~= spec[k as int].0);
        plan.push(VBoxCommand { args: a6, failure: Some(String::from_str("attach ISO")) });
        let a7 = args(vec!["modifyvm", n, "--boot1", "dvd", "--boot2", "disk", "--boot3", "none", "--boot4", "none"]);
        assert(lines_view(a7@) =~= spec[k + 1].0);
        plan.push(VBoxCommand { args: a7, failure: None });
    } else {
        let a8 = args(vec!["modifyvm", n, "--boot1", "disk", "--boot2", "none", "--boot3", "none", "--boot4", "none"]);
        assert(lines_view(a8@) =~= spec[k as int].0);
        plan.push(VBoxCommand { args: a8, failure: None });
    }
    assert(plan_view(plan@) =~= spec);
    plan
}

/// The error VM creation ends with when its step `label` failed with
/// `detail`: `CreateFailed("<label>: <detail>")`.
pub fn vbox_step_error(label: &str, detail: &str) -> (e: HypervisorError)
    ensures
        e matches HypervisorError::CreateFailed(m) && m@ == label@ + ": "@ + detail@,
{
    HypervisorError::CreateFailed(joined3(label, ": ", detail))
}

/// What a `VBoxManage` run that could not be started reports: `Failed to
/// run VBoxManage: <reason>`.
pub fn vbox_launch_error(reason: &str) -> (r: String)
    ensures
        r@ == "Failed to run VBoxManage: "@ + reason@,
{
    prefixed("Failed to run VBoxManage: ", reason)
}

/// Whether `ext`, lowercased, is `qcow2`.
pub fn is_qcow2_extension(ext: &str) -> (r: bool)
    ensures
        r == (lowercase(ext@) == "qcow2"@),
{
    let lower = to_lowercase(ext);
    str_eq(lower.as_str(), "qcow2")
}

/// The `VBoxManage` invocations that create VM `req`; whether its disk is
/// QCOW2 (which VirtualBox cannot attach) is read from the disk path's
/// extension as the platform splits paths.
pub fn create_vm_plan(req: &CreateVmRequest) -> (r: Vec<VBoxCommand>)
    ensures
        exists|q: bool| plan_view(r@) == vbox_create_plan(*req, os_type_for(lowercase(req.name@)), q),
        req.disk_path is None ==> plan_view(r@) == vbox_create_plan(*req, os_type_for(lowercase(req.name@)), false),
        req.disk_path matches Some(d) ==> (has_plain_tail(d@) ==> plan_view(r@) == vbox_create_plan(
            *req,
            os_type_for(lowercase(req.name@)),
            match name_extension(path_tail(d@)) {
                Some(e) => lowercase(e) == "qcow2"@,
                None => false,
            },
        )),
{
    let q = match &req.disk_path {
        Some(d) => match path_extension(d.as_str()) {
            Some(e) => is_qcow2_extension(e.as_str()),
            None => false,
        },
        None => false,
    };
    create_vm_commands(req, q)
}

/// The value a `VBoxManage metrics query` reports in `lines`: the
/// second-to-last word of the first line where that word is an unsigned
/// number; 0 when no line has one.
pub open spec fn metric_kb(lines: Seq<Seq<char>>) -> u64
    decreases lines.len(),
{
    if lines.len() == 0 {
        0
    } else {
        let ws = words(lines[0]);
        if ws.len() >= 2 && parse_u64(ws[ws.len() - 2]) is Some {
            parse_u64(ws[ws.len() - 2]).unwrap()
        } else {
            metric_kb(lines.drop_first())
        }
    }
}

/// Read the kilobyte value of a `VBoxManage metrics query` output.
pub fn parse_metric_kb(text: &str) -> (r: u64)
    ensures
        r == metric_kb(lines_of(text@)),
{
    let lines = text_lines(text);
    let ghost ls = lines_of(text@);
    let mut i: usize = 0;
    proof {
        assert(ls.subrange(0, ls.len() as int) =~= ls);
    }
    while i < lines.len()
        invariant
            i <= lines.len(),
            views(lines@) == ls,
            ls == lines_of(text@),
            metric_kb(ls) == metric_kb(ls.subrange(i as int, ls.len() as int)),
        decreases lines.len() - i,
    {
        let ghost rest = ls.subrange(i as int, ls.len() as int);
        proof {
            assert(rest[0] == lines@[i as int]@);
            assert(rest.drop_first() =~= ls.subrange(i + 1, ls.len() as int));
        }
        let ws = split_words(lines[i].as_str());
        if ws.len() >= 2 {
            proof {
                assert(views(ws@)[ws.len() - 2] == ws@[ws.len() - 2]@);
            }
            match parse_u64_text(ws[ws.len() - 2].as_str()) {
                Some(v) => {
                    proof {
                        assert(rest.len() > 0);
                        assert(words(rest[0]) == views(ws@));
                        assert(views(ws@).len() == ws.len());
                        assert(parse_u64(words(rest[0])[ws.len() - 2]) == Some(v));
                        assert(metric_kb(rest) == v);
                    }
                    return v;
                },
                None => {},
            }
        }
        i = i + 1;
    }
    0
}

/// The memory statistics of a VirtualBox VM from the output of its
/// `Guest/RAM/Usage/Total` metrics query (when the query ran): the total in
/// MiB, all of it counted as used.
pub fn vbox_memory_stats(query_output: Option<&str>) -> (m: MemoryStats)
    ensures
        m.total_mib == (match query_output {
            Some(t) => metric_kb(lines_of(t@)),
            None => 0,
        }) / 1024,
        m.used_mib == m.total_mib,
        m.available_mib == 0 && m.balloon_size_mib == 0,
{
    let kb = match query_output {
        Some(t) => parse_metric_kb(t),
        None => 0,
    };
    let total = kb / 1024;
    MemoryStats { total_mib: total, used_mib: total, available_mib: 0, balloon_size_mib: 0 }
}

} // verus!
