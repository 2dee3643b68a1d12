//! Where things are on the host: the places the installers of
//! `qemu-system-x86_64` and `VBoxManage` use, how the answer of
//! `where`/`which` is read, and the default disk image of a native VM. The
//! host tests the places and runs the lookup.
use vstd::prelude::*;
use crate::hypervisor::backend::shell::lines_view;
use crate::util::parse::{lines_of, text_lines, views};
use crate::util::text::{joined_under, path_join, plain_file_name, push_str, trim, trim_string};

verus! {

/// Where the Windows installers put `qemu-system-x86_64`, in the order the
/// places are tried once the system path has no answer.
pub open spec fn qemu_install_list() -> Seq<Seq<char>> {
    seq![
        "C:\\Program Files\\qemu\\qemu-system-x86_64.exe"@,
        "C:\\Program Files (x86)\\qemu\\qemu-system-x86_64.exe"@,
        "C:\\ProgramData\\chocolatey\\bin\\qemu-system-x86_64.exe"@,
        "C:\\tools\\qemu\\qemu-system-x86_64.exe"@,
    ]
}

/// Where the Windows installers put `qemu-system-x86_64`, in order.
pub fn qemu_install_candidates() -> (r: Vec<String>)
    ensures
        lines_view(r@) == qemu_install_list(),
{
    let r = vec![
        String::from_str("C:\\Program Files\\qemu\\qemu-system-x86_64.exe"),
        String::from_str("C:\\Program Files (x86)\\qemu\\qemu-system-x86_64.exe"),
        String::from_str("C:\\ProgramData\\chocolatey\\bin\\qemu-system-x86_64.exe"),
        String::from_str("C:\\tools\\qemu\\qemu-system-x86_64.exe"),
    ];
    assert(lines_view(r@) =~= qemu_install_list());
    r
}

/// Where the engine detection looks for `qemu-system-x86_64` once the
/// system path has no answer: the Windows install places, then the usual
/// Linux and macOS ones, in this order.
pub open spec fn qemu_probe_list() -> Seq<Seq<char>> {
    seq![
        "C:\\Program Files\\qemu\\qemu-system-x86_64.exe"@,
        "C:\\Program Files (x86)\\qemu\\qemu-system-x86_64.exe"@,
        "C:\\tools\\qemu\\qemu-system-x86_64.exe"@,
        "C:\\ProgramData\\chocolatey\\bin\\qemu-system-x86_64.exe"@,
        "/usr/bin/qemu-system-x86_64"@,
        "/usr/local/bin/qemu-system-x86_64"@,
        "/opt/homebrew/bin/qemu-system-x86_64"@,
    ]
}

/// Where the engine detection looks for `qemu-system-x86_64`, in order.
pub fn qemu_probe_candidates() -> (r: Vec<String>)
    ensures
        lines_view(r@) == qemu_probe_list(),
{
    let r = vec![
        String::from_str("C:\\Program Files\\qemu\\qemu-system-x86_64.exe"),
        String::from_str("C:\\Program Files (x86)\\qemu\\qemu-system-x86_64.exe"),
        String::from_str("C:\\tools\\qemu\\qemu-system-x86_64.exe"),
        String::from_str("C:\\ProgramData\\chocolatey\\bin\\qemu-system-x86_64.exe"),
        String::from_str("/usr/bin/qemu-system-x86_64"),
        String::from_str("/usr/local/bin/qemu-system-x86_64"),
        String::from_str("/opt/homebrew/bin/qemu-system-x86_64"),
    ];
    assert(lines_view(r@) =~= qemu_probe_list());
    r
}

/// Where the VirtualBox installers put `VBoxManage`, in the order the places
/// are tried once the system path has no answer.
pub open spec fn vboxmanage_install_list() -> Seq<Seq<char>> {
    seq![
        "C:\\Program Files\\Oracle\\VirtualBox\\VBoxManage.exe"@,
        "C:\\Program Files (x86)\\Oracle\\VirtualBox\\VBoxManage.exe"@,
        "C:\\tools\\VirtualBox\\VBoxManage.exe"@,
    ]
}

/// Where the VirtualBox installers put `VBoxManage`, in order.
pub fn vboxmanage_install_candidates() -> (r: Vec<String>)
    ensures
        lines_view(r@) == vboxmanage_install_list(),
{
    let r = vec![
        String::from_str("C:\\Program Files\\Oracle\\VirtualBox\\VBoxManage.exe"),
        String::from_str("C:\\Program Files (x86)\\Oracle\\VirtualBox\\VBoxManage.exe"),
        String::from_str("C:\\tools\\VirtualBox\\VBoxManage.exe"),
    ];
    assert(lines_view(r@) =~= vboxmanage_install_list());
    r
}

/// The path a successful `where`/`which` printed: its first line without
/// surrounding white space; none when that is empty.
pub open spec fn listed_path(output: Seq<char>) -> Option<Seq<char>> {
    let ls = lines_of(output);
    let first = if ls.len() == 0 {
        Seq::empty()
    } else {
        ls[0]
    };
    if trim(first).len() == 0 {
        None
    } else {
        Some(trim(first))
    }
}

/// The path a successful `where`/`which` printed in `output`.
pub fn first_listed_path(output: &str) -> (r: Option<String>)
    ensures
        match r {
            Some(p) => listed_path(output@) == Some(p@),
            None => listed_path(output@) is None,
        },
{
    let ls = text_lines(output);
    let first = if ls.len() == 0 {
        String::new()
    } else {
        proof {
            assert(views(ls@)[0] == ls@[0]@);
        }
        trim_string(ls[0].as_str())
    };
    proof {
        reveal_strlit("");
    }
    if first.unicode_len() == 0 {
        None
    } else {
        Some(first)
    }
}

/// Whether `r` names `NovaVM/disks/<file>` under the directory `base`.
pub open spec fn in_disk_dir(base: Seq<char>, file: Seq<char>, r: Seq<char>) -> bool {
    exists|nova: Seq<char>, disks: Seq<char>|
        #[trigger] joined_under(base, "NovaVM"@, nova) && joined_under(nova, "disks"@, disks) && #[trigger] joined_under(disks, file, r)
}

/// The disk image a native VM named `name` gets when it has none:
/// `<name>.vmdk` in `NovaVM/disks` under the application data directory
/// `app_data` (the current directory "." when there is none). The path is
/// stated where `name` is a plain file name and the base directory does not
/// start with a backslash.
pub fn default_disk_path(app_data: Option<&str>, name: &str) -> (r: String)
    ensures
        ({
            let base = match app_data {
                Some(a) => a@,
                None => "."@,
            };
            base.len() > 0 && base[0] != '\\' && plain_file_name(name@) ==> in_disk_dir(base, name@ + ".vmdk"@, r@)
        }),
{
    let base: &str = match app_data {
        Some(a) => a,
        None => ".",
    };
    proof {
        reveal_strlit(".");
        reveal_strlit("NovaVM");
        reveal_strlit("disks");
        reveal_strlit(".vmdk");
        assert(plain_file_name("NovaVM"@));
        assert(plain_file_name("disks"@));
    }
    let nova = path_join(base, "NovaVM");
    let disks = path_join(nova.as_str(), "disks");
    let mut file = String::from_str(name);
    push_str(&mut file, ".vmdk");
    let r = path_join(disks.as_str(), file.as_str());
    proof {
        if base@.len() > 0 && base@[0] != '\\' && plain_file_name(name@) {
            assert(nova@[0] == base@[0]);
            assert(disks@[0] == base@[0]);
            assert(plain_file_name(file@)) by {
                assert forall|i: int| 0 <= i < file@.len() implies file@[i] != '/' && file@[i] != '\\' && file@[i] != ':' by {
                    if i >= name@.len() {
                        assert(file@[i] == ".vmdk"@[i - name@.len()]);
                    }
                }
            }
            assert(joined_under(disks@, name@ + ".vmdk"@, r@));
        }
    }
    r
}

} // verus!
