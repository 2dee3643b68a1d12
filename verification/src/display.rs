//! Opening a VM's display: which backend shows the VM how, and what the
//! user is told. For VirtualBox the host runs `VBoxManage startvm` and hands
//! back how it ended.
use vstd::prelude::*;
use crate::agent::guest_exec::CommandOutcome;
use crate::api::ApiError;
use crate::engine::error::{joined3, prefixed};
use crate::hypervisor::backend::shell::lines_view;
use crate::hypervisor::backend::vbox::{contains_text, text_contains};
use crate::util::text::{push_str, str_eq};

verus! {

/// Where a VM's display is, as reported to the user.
#[derive(Debug)]
pub struct DisplayInfo {
    /// The backend showing the VM.
    pub backend: String,
    /// `opened`, `already_running`, `sdl_window_active` or `native_running`.
    pub status: String,
    /// A sentence for the user.
    pub info: String,
}

/// The next step of opening a display.
#[derive(Debug)]
pub enum DisplayStep {
    /// Run `VBoxManage` with these arguments and hand its outcome to
    /// `vbox_display_outcome`.
    RunVBoxManage(Vec<String>),
    /// The answer.
    Done(Result<DisplayInfo, ApiError>),
}

/// Whether `backend` is one of NovaVM's native hypervisor backends.
pub open spec fn is_native_backend(backend: Seq<char>) -> bool {
    backend == "NovaVM-WHP"@ || backend == "NovaVM-KVM"@ || backend == "NovaVM-AVF"@
}

/// `d` holds exactly these texts.
pub open spec fn shows_display(d: DisplayInfo, backend: Seq<char>, status: Seq<char>, info: Seq<char>) -> bool {
    d.backend@ == backend && d.status@ == status && d.info@ == info
}

/// The message when no backend can show a display.
pub open spec fn no_hypervisor_message() -> Seq<char> {
    "Windows Hypervisor Platform is not enabled. Run in PowerShell (Admin): Enable-WindowsOptionalFeature -Online -FeatureName VirtualMachinePlatform"@
}

/// The QEMU display sentence for VM `vm`.
pub open spec fn qemu_display_text(vm: Seq<char>) -> Seq<char> {
    "QEMU is running '"@ + vm
        + "'. The SDL display window was opened when the VM started. VNC is available at 127.0.0.1:5900 (use a VNC viewer to connect)."@
}

/// Open the display of VM `vm_name` on the backend named `backend_name`:
/// VirtualBox opens (or raises) its window through `VBoxManage startvm
/// <vm> --type gui`; QEMU opened its window when the VM started; the
/// native backends render the framebuffer themselves; any other backend
/// answers `NO_HYPERVISOR`.
pub fn open_vm_display(backend_name: &str, vm_name: &str) -> (r: DisplayStep)
    ensures
        backend_name@ == "VirtualBox"@ ==> (r matches DisplayStep::RunVBoxManage(args)
            && lines_view(args@) == seq!["startvm"@, vm_name@, "--type"@, "gui"@]),
        backend_name@ == "QEMU"@ ==> (r matches DisplayStep::Done(Ok(d))
            && shows_display(d, "QEMU"@, "sdl_window_active"@, qemu_display_text(vm_name@))),
        is_native_backend(backend_name@) ==> (r matches DisplayStep::Done(Ok(d))
            && shows_display(d, backend_name@, "native_running"@,
                "'"@ + vm_name@ + "' is running on NovaVM's native hardware hypervisor ("@ + backend_name@ + ")."@)),
        backend_name@ != "VirtualBox"@ && backend_name@ != "QEMU"@ && !is_native_backend(backend_name@) ==> (
            r matches DisplayStep::Done(Err(e)) && e.code@ == "NO_HYPERVISOR"@ && e.message@ == no_hypervisor_message()),
{
    proof {
        reveal_strlit("VirtualBox");
        reveal_strlit("QEMU");
        reveal_strlit("NovaVM-WHP");
        reveal_strlit("NovaVM-KVM");
        reveal_strlit("NovaVM-AVF");
        assert("VirtualBox"@[0] == 'V' && "QEMU"@[0] == 'Q' && "NovaVM-WHP"@[0] == 'N' && "NovaVM-KVM"@[0] == 'N'
            && "NovaVM-AVF"@[0] == 'N');
    }
    if str_eq(backend_name, "VirtualBox") {
        let mut args: Vec<String> = Vec::new();
        args.push(String::from_str("startvm"));
        args.push(String::from_str(vm_name));
        args.push(String::from_str("--type"));
        args.push(String::from_str("gui"));
        assert(lines_view(args@) =~= seq!["startvm"@, vm_name@, "--type"@, "gui"@]);
        DisplayStep::RunVBoxManage(args)
    } else if str_eq(backend_name, "QEMU") {
        let info = joined3(
            "QEMU is running '",
            vm_name,
            "'. The SDL display window was opened when the VM started. VNC is available at 127.0.0.1:5900 (use a VNC viewer to connect).",
        );
        let d = DisplayInfo {
            backend: String::from_str("QEMU"),
            status: String::from_str("sdl_window_active"),
            info,
        };
        assert(shows_display(d, "QEMU"@, "sdl_window_active"@, qemu_display_text(vm_name@)));
        DisplayStep::Done(Ok(d))
    } else if str_eq(backend_name, "NovaVM-WHP") || str_eq(backend_name, "NovaVM-KVM") || str_eq(backend_name, "NovaVM-AVF") {
        let mut info = joined3("'", vm_name, "' is running on NovaVM's native hardware hypervisor (");
        push_str(&mut info, backend_name);
        push_str(&mut info, ").");
        let d = DisplayInfo {
            backend: String::from_str(backend_name),
            status: String::from_str("native_running"),
            info,
        };
        assert(shows_display(d, backend_name@, "native_running"@,
            "'"@ + vm_name@ + "' is running on NovaVM's native hardware hypervisor ("@ + backend_name@ + ")."@));
        DisplayStep::Done(Ok(d))
    } else {
        DisplayStep::Done(Err(ApiError::new(
            "NO_HYPERVISOR",
            "Windows Hypervisor Platform is not enabled. Run in PowerShell (Admin): Enable-WindowsOptionalFeature -Online -FeatureName VirtualMachinePlatform",
        )))
    }
}

/// What the user is told after `VBoxManage startvm` for VM `vm_name` ended
/// with `outcome`: the window was opened; or, when it failed saying the VM
/// is locked or running, that it already runs; else a `DISPLAY_ERROR`
/// with the tool's error output, or with why it could not be started.
pub fn vbox_display_outcome(vm_name: &str, outcome: CommandOutcome) -> (r: Result<DisplayInfo, ApiError>)
    ensures
        match outcome {
            CommandOutcome::Finished { success: true, .. } => r matches Ok(d) && shows_display(d, "VirtualBox"@,
                "opened"@, "VirtualBox display window opened for '"@ + vm_name@ + "'"@),
            CommandOutcome::Finished { success: false, stderr } => if contains_text(stderr@, "already locked"@)
                || contains_text(stderr@, "running"@) {
                r matches Ok(d) && shows_display(d, "VirtualBox"@, "already_running"@,
                    "VM '"@ + vm_name@ + "' is already running in VirtualBox"@)
            } else {
                r matches Err(e) && e.code@ == "DISPLAY_ERROR"@ && e.message@ == "VBoxManage startvm failed: "@ + stderr@
            },
            CommandOutcome::LaunchFailed(why) => r matches Err(e) && e.code@ == "DISPLAY_ERROR"@
                && e.message@ == "Could not launch VBoxManage: "@ + why@,
        },
{
    match outcome {
        CommandOutcome::Finished { success, stderr } => {
            if success {
                Ok(DisplayInfo {
                    backend: String::from_str("VirtualBox"),
                    status: String::from_str("opened"),
                    info: joined3("VirtualBox display window opened for '", vm_name, "'"),
                })
            } else if text_contains(stderr.as_str(), "already locked") || text_contains(stderr.as_str(), "running") {
                Ok(DisplayInfo {
                    backend: String::from_str("VirtualBox"),
                    status: String::from_str("already_running"),
                    info: joined3("VM '", vm_name, "' is already running in VirtualBox"),
                })
            } else {
                let m = prefixed("VBoxManage startvm failed: ", stderr.as_str());
                Err(ApiError::new("DISPLAY_ERROR", m.as_str()))
            }
        },
        CommandOutcome::LaunchFailed(why) => {
            let m = prefixed("Could not launch VBoxManage: ", why.as_str());
            Err(ApiError::new("DISPLAY_ERROR", m.as_str()))
        },
    }
}

} // verus!
