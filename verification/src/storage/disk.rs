//! Virtual disk metadata. The image file itself is written by the host
//! (with `qemu-img` when present); the library decides what the metadata
//! and the `qemu-img` command line are.
use vstd::prelude::*;
use crate::clock::utc_now_millis;
use crate::util::ids::{is_v4, new_uuid};
use crate::util::text::{decimal, has_char, has_dotted_name, has_plain_tail, last_index_of, lowercase, name_extension, name_stem, path_dir_part, path_tail};
use crate::util::text::{path_with_extension, plain_file_name, push_str, str_has_char, to_lowercase, u64_decimal};
use crate::util::text::str_eq;

verus! {

/// Magic bytes that identify a NovaDisk file.
pub const NOVADISK_MAGIC: [u8; 8] = [0x4E, 0x4F, 0x56, 0x41, 0x44, 0x49, 0x53, 0x4B];

/// Current format version.
pub const NOVADISK_VERSION: u32 = 1;

/// Default cluster size: 1 MiB.
pub const DEFAULT_CLUSTER_SIZE: u32 = 0x10_0000;

/// Virtual disk format.
#[derive(Debug, Clone, Copy, PartialEq, Eq, Structural)]
pub enum DiskFormat {
    /// Native NovaDisk format with CoW, compression and encryption.
    NovaDisk,
    /// Raw flat image.
    Raw,
    /// QCOW2 (import/export).
    Qcow2,
    /// VMware VMDK image.
    Vmdk,
    /// Virtual Hard Disk (VHD/VHDX).
    Vhd,
}

/// Disk metadata kept in the sidecar file and the registry.
#[derive(Debug)]
pub struct DiskMetadata {
    pub id: u128,
    pub name: String,
    /// Image path on the host.
    pub path: Option<String>,
    /// Size the guest sees, in bytes.
    pub virtual_size_bytes: u64,
    pub cluster_size_bytes: u32,
    /// Clusters allocated on the host so far.
    pub allocated_clusters: u64,
    /// Clusters in the virtual space.
    pub total_clusters: u64,
    pub format: DiskFormat,
    pub encrypted: bool,
    pub compressed: bool,
    pub thin_provisioned: bool,
    /// Creation time, milliseconds since the Unix epoch.
    pub created_at: i64,
    /// Time of the last write, milliseconds since the Unix epoch.
    pub updated_at: i64,
    /// Parent snapshot (for copy-on-write child images).
    pub parent_snapshot_id: Option<u128>,
}

impl DiskMetadata {
    /// Host bytes in use: allocated clusters times the cluster size.
    pub fn host_usage_bytes(&self) -> (r: u64)
        requires
            self.allocated_clusters * self.cluster_size_bytes <= u64::MAX,
        ensures
            r == self.allocated_clusters * self.cluster_size_bytes,
    {
        self.allocated_clusters * self.cluster_size_bytes as u64
    }
}

/// A virtual disk image: its metadata and the image path.
#[derive(Debug)]
pub struct DiskImage {
    pub metadata: DiskMetadata,
    pub path: String,
}

/// Clusters needed for `size` bytes: the size divided by the cluster size,
/// rounded up.
pub open spec fn cluster_count(size: u64) -> int {
    (size + DEFAULT_CLUSTER_SIZE - 1) / (DEFAULT_CLUSTER_SIZE as int)
}

/// The format of an image whose lowercased file extension is `ext`: ISO
/// images and unknown files are raw.
pub open spec fn format_for_extension(ext: Seq<char>) -> DiskFormat {
    if ext == "vmdk"@ {
        DiskFormat::Vmdk
    } else if ext == "vhd"@ || ext == "vhdx"@ {
        DiskFormat::Vhd
    } else if ext == "qcow2"@ {
        DiskFormat::Qcow2
    } else {
        DiskFormat::Raw
    }
}

/// The format of an image whose lowercased file extension is `ext`.
pub fn format_of_extension(ext: &str) -> (f: DiskFormat)
    ensures
        f == format_for_extension(ext@),
{
    if str_eq(ext, "vmdk") {
        DiskFormat::Vmdk
    } else if str_eq(ext, "vhd") || str_eq(ext, "vhdx") {
        DiskFormat::Vhd
    } else if str_eq(ext, "qcow2") {
        DiskFormat::Qcow2
    } else {
        DiskFormat::Raw
    }
}

/// Calls `std::path::Path::file_stem`: the file name without its
/// extension. Where every platform reads the last component of `path` as
/// the same plain file name, that is the documented stem of the name; other
/// paths (Windows verbatim or network paths, names with separators of one
/// platform only) get no claim.
#[verifier::external_body]
fn path_stem(path: &str) -> (r: Option<String>)
    ensures
        has_plain_tail(path@) ==> r is Some && r.unwrap()@ == name_stem(path_tail(path@)),
{
    match std::path::Path::new(path).file_stem() {
        Some(s) => Some(s.to_string_lossy().to_string()),
        None => None,
    }
}

/// Calls `std::path::Path::extension`: the file name's extension. Where
/// every platform reads the last component of `path` as the same plain file
/// name, that is the documented extension of the name; other paths get no
/// claim.
#[verifier::external_body]
pub(crate) fn path_extension(path: &str) -> (r: Option<String>)
    ensures
        has_plain_tail(path@) ==> match r {
            Some(e) => name_extension(path_tail(path@)) == Some(e@),
            None => name_extension(path_tail(path@)) is None,
        },
{
    match std::path::Path::new(path).extension() {
        Some(s) => Some(s.to_string_lossy().to_string()),
        None => None,
    }
}

/// The places `qemu-img` is looked for, in order: the usual Windows install
/// directories, then the bare names that the system path resolves.
pub open spec fn qemu_img_search_list() -> Seq<Seq<char>> {
    seq![
        "C:\\Program Files\\qemu\\qemu-img.exe"@,
        "C:\\Program Files (x86)\\qemu\\qemu-img.exe"@,
        "C:\\tools\\qemu\\qemu-img.exe"@,
        "C:\\ProgramData\\chocolatey\\bin\\qemu-img.exe"@,
        "qemu-img.exe"@,
        "qemu-img"@,
    ]
}

/// The places `qemu-img` is looked for, in order; the first that exists is
/// used.
pub fn qemu_img_candidates() -> (r: Vec<String>)
    ensures
        crate::hypervisor::backend::shell::lines_view(r@) == qemu_img_search_list(),
{
    let r = vec![
        String::from_str("C:\\Program Files\\qemu\\qemu-img.exe"),
        String::from_str("C:\\Program Files (x86)\\qemu\\qemu-img.exe"),
        String::from_str("C:\\tools\\qemu\\qemu-img.exe"),
        String::from_str("C:\\ProgramData\\chocolatey\\bin\\qemu-img.exe"),
        String::from_str("qemu-img.exe"),
        String::from_str("qemu-img"),
    ];
    assert(crate::hypervisor::backend::shell::lines_view(r@) =~= qemu_img_search_list());
    r
}

/// Whether the candidate `bin` names a file by its path (it holds a slash
/// or a backslash), to be tested for existence, rather than a command name
/// that the system path resolves.
pub fn names_a_path(bin: &str) -> (r: bool)
    ensures
        r == (has_char(bin@, '\\') || has_char(bin@, '/')),
{
    str_has_char(bin, '\\') || str_has_char(bin, '/')
}

/// The `qemu-img` size argument: whole GiB, at least 1, then `G`.
pub open spec fn qemu_img_size_arg(size: u64) -> Seq<char> {
    let gib = size / 0x4000_0000;
    decimal(if gib < 1 { 1 } else { gib as nat }) + "G"@
}

impl DiskImage {
    /// The metadata of a new thin-provisioned disk: fresh id, nothing
    /// allocated, `ceil(size / 1 MiB)` clusters, NovaDisk format.
    pub fn new_metadata(path: String, name: String, virtual_size_bytes: u64, encrypted: bool, compressed: bool)
        -> (m: DiskMetadata)
        ensures
            is_v4(m.id),
            m.name@ == name@,
            m.path matches Some(p) && p@ == path@,
            m.virtual_size_bytes == virtual_size_bytes,
            m.cluster_size_bytes == DEFAULT_CLUSTER_SIZE,
            m.allocated_clusters == 0,
            m.total_clusters == cluster_count(virtual_size_bytes),
            m.format == DiskFormat::NovaDisk,
            m.encrypted == encrypted && m.compressed == compressed,
            m.thin_provisioned,
            m.parent_snapshot_id is None,
            m.created_at == m.updated_at,
    {
        let cs = DEFAULT_CLUSTER_SIZE as u64;
        let total_clusters = virtual_size_bytes / cs + if virtual_size_bytes % cs == 0 { 0 } else { 1 };
        assert(total_clusters == cluster_count(virtual_size_bytes)) by (nonlinear_arith)
            requires
                cs == 0x10_0000,
                total_clusters == virtual_size_bytes / cs + if virtual_size_bytes % cs == 0 { 0int } else { 1int },
        ;
        let now = utc_now_millis();
        DiskMetadata {
            id: new_uuid(),
            name,
            path: Some(path),
            virtual_size_bytes,
            cluster_size_bytes: DEFAULT_CLUSTER_SIZE,
            allocated_clusters: 0,
            total_clusters,
            format: DiskFormat::NovaDisk,
            encrypted,
            compressed,
            thin_provisioned: true,
            created_at: now,
            updated_at: now,
            parent_snapshot_id: None,
        }
    }

    /// The metadata sidecar of the image at `path`: the path with its
    /// extension replaced by (or, without one, extended with)
    /// `novadisk.meta`.
    pub fn sidecar_path(path: &str) -> (r: String)
        ensures
            has_plain_tail(path@) ==> r@ == path_dir_part(path@) + name_stem(path_tail(path@)) + ".novadisk.meta"@,
            has_dotted_name(path@) ==> r@ == path@.subrange(0, last_index_of(path@, '.')) + ".novadisk.meta"@,
    {
        proof {
            reveal_strlit("novadisk.meta");
            reveal_strlit(".novadisk.meta");
            assert(plain_file_name("novadisk.meta"@));
            assert(seq!['.'] + "novadisk.meta"@ =~= ".novadisk.meta"@);
        }
        let r = path_with_extension(path, "novadisk.meta");
        proof {
            if has_plain_tail(path@) {
                let a = path_dir_part(path@) + name_stem(path_tail(path@));
                assert(a + seq!['.'] + "novadisk.meta"@ =~= a + (seq!['.'] + "novadisk.meta"@));
            }
            if has_dotted_name(path@) {
                let a = path@.subrange(0, last_index_of(path@, '.'));
                assert(a + seq!['.'] + "novadisk.meta"@ =~= a + (seq!['.'] + "novadisk.meta"@));
            }
        }
        r
    }

    /// The `qemu-img` arguments that create the image at `path`:
    /// `create -f qcow2 -o lazy_refcounts=on <path> <size>G`.
    pub fn qemu_img_args(path: &str, virtual_size_bytes: u64) -> (r: Vec<String>)
        ensures
            crate::hypervisor::backend::shell::lines_view(r@) == seq!["create"@, "-f"@, "qcow2"@, "-o"@,
                "lazy_refcounts=on"@, path@, qemu_img_size_arg(virtual_size_bytes)],
    {
        let mut r: Vec<String> = Vec::new();
        r.push(String::from_str("create"));
        r.push(String::from_str("-f"));
        r.push(String::from_str("qcow2"));
        r.push(String::from_str("-o"));
        r.push(String::from_str("lazy_refcounts=on"));
        r.push(String::from_str(path));
        let gib = virtual_size_bytes / 0x4000_0000;
        let mut size = u64_decimal(if gib < 1 { 1 } else { gib });
        push_str(&mut size, "G");
        r.push(size);
        assert(crate::hypervisor::backend::shell::lines_view(r@) =~= seq!["create"@, "-f"@, "qcow2"@, "-o"@,
            "lazy_refcounts=on"@, path@, qemu_img_size_arg(virtual_size_bytes)]);
        r
    }

    /// The record of an existing image imported from `path`: named `name`,
    /// else after the file's stem (`stem`), else "imported-disk"; its format
    /// from the lowercased file extension `ext`; its size `size_bytes`, or
    /// 10 GiB when the size could not be read; counted in fully allocated
    /// 1 MiB clusters.
    pub fn imported_metadata(
        path: String,
        name: Option<String>,
        stem: Option<String>,
        ext: Option<&str>,
        size_bytes: Option<u64>,
    ) -> (m: DiskMetadata)
        ensures
            is_v4(m.id),
            m.name@ == match name {
                Some(n) => n@,
                None => match stem {
                    Some(s) => s@,
                    None => "imported-disk"@,
                },
            },
            m.path matches Some(p) && p@ == path@,
            m.format == match ext {
                Some(e) => format_for_extension(lowercase(e@)),
                None => DiskFormat::Raw,
            },
            m.virtual_size_bytes == match size_bytes {
                Some(n) => n,
                None => 0x2_8000_0000,
            },
            m.cluster_size_bytes == DEFAULT_CLUSTER_SIZE,
            m.total_clusters == cluster_count(m.virtual_size_bytes),
            m.allocated_clusters == m.total_clusters,
            !m.encrypted && !m.compressed && m.thin_provisioned,
            m.parent_snapshot_id is None,
            m.created_at == m.updated_at,
    {
        let name = match name {
            Some(n) => n,
            None => match stem {
                Some(s) => s,
                None => String::from_str("imported-disk"),
            },
        };
        let format = match ext {
            Some(e) => {
                let lower = to_lowercase(e);
                format_of_extension(lower.as_str())
            },
            None => DiskFormat::Raw,
        };
        let size: u64 = match size_bytes {
            Some(n) => n,
            None => 10 * 1024 * 1024 * 1024,
        };
        let cs = DEFAULT_CLUSTER_SIZE as u64;
        let clusters = size / cs + if size % cs == 0 { 0 } else { 1 };
        assert(clusters == cluster_count(size)) by (nonlinear_arith)
            requires
                cs == 0x10_0000,
                clusters == size / cs + if size % cs == 0 { 0int } else { 1int },
        ;
        let now = utc_now_millis();
        DiskMetadata {
            id: new_uuid(),
            name,
            path: Some(path),
            virtual_size_bytes: size,
            cluster_size_bytes: DEFAULT_CLUSTER_SIZE,
            allocated_clusters: clusters,
            total_clusters: clusters,
            format,
            encrypted: false,
            compressed: false,
            thin_provisioned: true,
            created_at: now,
            updated_at: now,
            parent_snapshot_id: None,
        }
    }

    /// Import the existing image at `path` whose size on disk is
    /// `size_bytes` (if it could be read): the file's stem and extension are
    /// taken from the path as the platform reads it.
    pub fn import(path: String, name: Option<String>, size_bytes: Option<u64>) -> (m: DiskMetadata)
        ensures
            is_v4(m.id),
            m.path matches Some(p) && p@ == path@,
            name matches Some(n) ==> m.name@ == n@,
            has_plain_tail(path@) ==> m.name@ == match name {
                Some(n) => n@,
                None => name_stem(path_tail(path@)),
            },
            has_plain_tail(path@) ==> m.format == match name_extension(path_tail(path@)) {
                Some(e) => format_for_extension(lowercase(e)),
                None => DiskFormat::Raw,
            },
            m.virtual_size_bytes == match size_bytes {
                Some(n) => n,
                None => 0x2_8000_0000,
            },
            m.cluster_size_bytes == DEFAULT_CLUSTER_SIZE,
            m.total_clusters == cluster_count(m.virtual_size_bytes),
            m.allocated_clusters == m.total_clusters,
            !m.encrypted && !m.compressed && m.thin_provisioned,
            m.parent_snapshot_id is None,
    {
        let stem = path_stem(path.as_str());
        let ext = path_extension(path.as_str());
        match ext {
            Some(e) => DiskImage::imported_metadata(path, name, stem, Some(e.as_str()), size_bytes),
            None => DiskImage::imported_metadata(path, name, stem, None, size_bytes),
        }
    }
}

/// Remove the record of disk `id` (the first one, if several) from `disks`
/// and return it; `None`, with `disks` unchanged, when there is none.
pub fn remove_disk(disks: &mut Vec<DiskMetadata>, id: u128) -> (r: Option<DiskMetadata>)
    ensures
        (forall|j: int| 0 <= j < old(disks)@.len() ==> old(disks)@[j].id != id) ==> r is None && final(disks)@ == old(disks)@,
        (exists|j: int| 0 <= j < old(disks)@.len() && old(disks)@[j].id == id) ==> r is Some,
        r matches Some(d) ==> exists|i: int| {
            &&& 0 <= i < old(disks)@.len()
            &&& old(disks)@[i].id == id
            &&& forall|j: int| 0 <= j < i ==> old(disks)@[j].id != id
            &&& d == old(disks)@[i]
            &&& final(disks)@ == old(disks)@.remove(i)
        },
{
    let mut i: usize = 0;
    while i < disks.len()
        invariant
            i <= disks@.len(),
            disks@ == old(disks)@,
            forall|j: int| 0 <= j < i ==> disks@[j].id != id,
        decreases disks@.len() - i,
    {
        if disks[i].id == id {
            let d = disks.remove(i);
            return Some(d);
        }
        i = i + 1;
    }
    None
}

/// Each image family is recognised by its own extensions only: VHD by
/// `vhd` and `vhdx`, VMDK by `vmdk`, QCOW2 by `qcow2`; every other
/// extension (ISO images among them) is raw, and none gives NovaDisk.
pub proof fn law_extension_families(ext: Seq<char>)
    ensures
        format_for_extension(ext) == DiskFormat::Vhd <==> (ext == "vhd"@ || ext == "vhdx"@),
        format_for_extension(ext) == DiskFormat::Vmdk <==> ext == "vmdk"@,
        format_for_extension(ext) == DiskFormat::Qcow2 <==> ext == "qcow2"@,
        format_for_extension(ext) != DiskFormat::NovaDisk,
{
    reveal_strlit("vhd");
    reveal_strlit("vhdx");
    reveal_strlit("vmdk");
    reveal_strlit("qcow2");
    assert("vmdk"@ != "vhd"@ && "vmdk"@ != "vhdx"@) by {
        assert("vmdk"@.len() != "vhd"@.len() && "vmdk"@[1] != "vhdx"@[1]);
    }
    assert("qcow2"@ != "vhd"@ && "qcow2"@ != "vhdx"@ && "qcow2"@ != "vmdk"@) by {
        assert("qcow2"@.len() == 5 && "vhd"@.len() == 3 && "vhdx"@.len() == 4 && "vmdk"@.len() == 4);
    }
}

} // verus!
