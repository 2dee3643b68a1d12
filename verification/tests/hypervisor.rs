use novavm::hypervisor::backend::kvm::kvm_guest_ram_size;
use novavm::hypervisor::backend::locate::{
    default_disk_path, first_listed_path, qemu_install_candidates, qemu_probe_candidates, vboxmanage_install_candidates,
};
use novavm::hypervisor::device::uart::Uart8250;
use novavm::hypervisor::device::DeviceBus;
use novavm::hypervisor::backend::null::NullBackend;
use novavm::hypervisor::backend::qemu::VncSlots;
use novavm::hypervisor::backend::screen::{center_pad, generate_novavm_boot_frame, installer_progress, percent_cells};
use novavm::hypervisor::backend::shell::{shell_response_lines, GuestShellState};
use novavm::hypervisor::backend::vbox::{
    create_vm_plan, guess_os_type, is_qcow2_extension, parse_metric_kb, vbox_launch_error, vbox_memory_stats, vbox_step_error,
};
use novavm::hypervisor::backend::whp::{
    decode_io_access, handle_cpuid, mbr_is_bootable, merge_io_read, plan_boot, real_mode_state, BootPlan,
};
use novavm::hypervisor::nova_engine::{detect_cpu_virt, detect_nova_engine, CpuVirtTech, EngineType};
use novavm::hypervisor::types::{CreateVmRequest, FirmwareType, HypervisorError};

#[test]
fn test_null_backend_capabilities() {
    let backend = NullBackend;
    let caps = backend.capabilities();
    assert_eq!(caps.backend_name, "null");
}

#[test]
fn test_null_backend_lifecycle() {
    let backend = NullBackend;
    let req = CreateVmRequest {
        id: None,
        name: "test".to_owned(),
        vcpus: 2,
        memory_mib: 512,
        firmware: FirmwareType::Uefi,
        secure_boot: false,
        vtpm: false,
        disk_path: None,
        iso_path: None,
    };
    let handle = backend.create_vm(req).unwrap();
    assert_eq!(handle.name, "test");
    assert_eq!(handle.backend_token, "null");
}

#[test]
fn cpu_vendor_detection() {
    assert_eq!(detect_cpu_virt(0x20, 0x756E_6547, 0), CpuVirtTech::IntelVtx);
    assert_eq!(detect_cpu_virt(0x20, 0x6874_7541, 0), CpuVirtTech::AmdV);
    assert_eq!(detect_cpu_virt(0, 0x6874_7541, 0x4), CpuVirtTech::AmdV);
    assert_eq!(detect_cpu_virt(0, 0x756E_6547, 0), CpuVirtTech::IntelVtx);
}

#[test]
fn cpuid_answers() {
    assert_eq!(handle_cpuid(0), (0x01, 0x6F76_4E00, 0x004D_4D56, 0));
    assert_eq!(handle_cpuid(1), (0x0006_0F12, 0, 1, 0x1780_0000));
    assert_eq!(handle_cpuid(7), (0, 0, 0, 0));
}

#[test]
fn port_reads_merge_into_rax() {
    assert_eq!(merge_io_read(0x1122_3344_5566_7788, 0xAB, 1), 0x1122_3344_5566_77AB);
    assert_eq!(merge_io_read(0x1122_3344_5566_7788, 0xABCD, 2), 0x1122_3344_5566_ABCD);
    assert_eq!(merge_io_read(0x1122_3344_5566_7788, 0xDEAD_BEEF, 4), 0x1122_3344_DEAD_BEEF);
    assert_eq!(decode_io_access(0b0101), (true, 2));
    assert_eq!(decode_io_access(0b1000), (false, 4));
}

#[test]
fn boot_signature_and_plan() {
    let mut mbr = vec![0u8; 512];
    assert!(!mbr_is_bootable(&mbr));
    mbr[510] = 0x55;
    mbr[511] = 0xAA;
    assert!(mbr_is_bootable(&mbr));
    assert!(matches!(plan_boot(Some(&mbr), true), BootPlan::InstalledDisk));
    assert!(matches!(plan_boot(None, true), BootPlan::IsoImage));
    assert!(matches!(plan_boot(Some(&[0u8; 4]), false), BootPlan::InstallToDisk));
}

#[test]
fn kvm_ram_has_a_floor() {
    let fixed = 0xA_0000 + 0x2_0000 + 0x1_0000;
    assert_eq!(kvm_guest_ram_size(64), fixed + 128 * 0x10_0000);
    assert_eq!(kvm_guest_ram_size(2048), fixed + 2048 * 0x10_0000);
}

#[test]
fn vnc_slots_count_up() {
    let mut slots = VncSlots::new();
    assert_eq!(slots.next_vnc_slot(), 0);
    assert_eq!(slots.next_vnc_slot(), 1);
    assert_eq!(slots.next_vnc_slot(), 2);
}

#[test]
fn vbox_os_type_from_name() {
    assert_eq!(guess_os_type("My Win11 Box"), "Windows11_64");
    assert_eq!(guess_os_type("UBUNTU server"), "Ubuntu_64");
    assert_eq!(guess_os_type("arch"), "ArchLinux_64");
    assert_eq!(guess_os_type("something"), "Linux_64");
}

#[test]
fn centering_and_progress() {
    assert_eq!(center_pad("ab", 6, '*'), "**ab**");
    assert_eq!(center_pad("abc", 6, ' '), " abc  ");
    assert_eq!(center_pad("abcdef", 3, ' '), "abc");
    assert_eq!(installer_progress(27), (50, 28));
    assert_eq!(installer_progress(60), (100, 56));
    assert_eq!(percent_cells(7), [b' ', b' ', b'7']);
    assert_eq!(percent_cells(100), [b'1', b'0', b'0']);
}

#[test]
fn shell_answers_commands() {
    assert_eq!(shell_response_lines("whoami"), vec!["root  uid=0(root) gid=0(root)"]);
    assert_eq!(shell_response_lines("echo hello"), vec!["hello"]);
    assert_eq!(shell_response_lines("frob"), vec!["bash: frob: command not found"]);
    assert_eq!(shell_response_lines("cat x"), vec!["cat: x: No such file or directory"]);
}

#[test]
fn shell_keyboard_editing() {
    let mut sh = GuestShellState::default();
    sh.send_keyboard_input("p");
    sh.send_keyboard_input("w");
    sh.send_keyboard_input("x");
    sh.send_keyboard_input("Backspace");
    sh.send_keyboard_input("d");
    assert_eq!(sh.current_input, "pwd");
    sh.send_keyboard_input("F5");
    assert_eq!(sh.current_input, "pwd");
    sh.send_keyboard_input("Enter");
    assert_eq!(sh.current_input, "");
    assert_eq!(sh.history_lines, vec!["root@novavm:~# pwd", "/root"]);
    sh.send_keyboard_input("c");
    sh.send_keyboard_input("l");
    sh.send_keyboard_input("s");
    sh.send_keyboard_input("\r");
    assert!(sh.history_lines.is_empty());
}

#[test]
fn shell_history_keeps_last_lines() {
    let mut sh = GuestShellState::default();
    for _ in 0..10 {
        for c in ["p", "w", "d"] {
            sh.send_keyboard_input(c);
        }
        sh.send_keyboard_input("Enter");
    }
    assert_eq!(sh.history_lines.len(), 14);
    assert_eq!(sh.history_lines.last().unwrap(), "/root");
}

#[test]
fn processors_start_at_the_reset_vector() {
    let s = real_mode_state();
    assert_eq!(s.cs.selector, 0xF000);
    assert_eq!(s.cs.base + s.rip, 0xFFFF_FFF0);
    assert_eq!(s.cs.kind(), 0xB);
    assert!(s.cs.present() && s.data.present());
    assert_eq!(s.data.kind(), 0x3);
    assert_eq!((s.rsp, s.rflags, s.cr0), (0x7C00, 0x2, 0x10));
}

#[test]
fn vbox_metric_values() {
    let out = "Object     Metric                  Value\n---------- ----------------------- ----------\nwin11      Guest/RAM/Usage/Total   4194304 kB\n";
    assert_eq!(parse_metric_kb(out), 4194304);
    assert_eq!(parse_metric_kb("no numbers here\n"), 0);
    assert_eq!(parse_metric_kb(""), 0);
    let m = vbox_memory_stats(Some(out));
    assert_eq!((m.total_mib, m.used_mib, m.available_mib), (4096, 4096, 0));
    assert_eq!(vbox_memory_stats(None).total_mib, 0);
}

#[test]
fn bus_reads_back_what_was_written() {
    let mut bus = DeviceBus::new();
    bus.io_write(0x3FF, 0x1AB);
    assert_eq!(bus.io_read(0x3FF), 0xAB);
    bus.io_write(0xCF8, 0x1_8000_0010);
    assert_eq!(bus.io_read(0xCF8), 0x8000_0010);
    bus.io_write(0x300, 0x55);
    assert_eq!(bus.io_read(0x300), 0xFF);
}

#[test]
fn serial_console_output_is_collected() {
    let mut bus = DeviceBus::new();
    for b in b"OK" {
        bus.io_write(0x3F8, *b as u64);
    }
    assert_eq!(bus.drain_serial_output(), b"OK".to_vec());
}

fn row_text(buf: &[u8; 4000], row: usize) -> String {
    (0..80).map(|c| buf[(row * 80 + c) * 2] as char).collect::<String>().trim_end().to_owned()
}

#[test]
fn boot_frame_shows_vm_name() {
    let buf = generate_novavm_boot_frame("demo");
    assert_eq!(row_text(&buf, 5), "Virtual Machine : demo");
    assert!(row_text(&buf, 0).starts_with(" +---"));
    assert_eq!(buf[1], 0x1E);
    assert_eq!(buf[(5 * 80) * 2 + 1], 0x1F);
    assert_eq!(row_text(&buf, 18), "[>] Booting Operating System / Automated Installer...");
    assert_eq!(row_text(&buf, 19), "");
    assert_eq!(buf[(2 * 80 + 79) * 2], b' ');
}

fn vbox_request(disk: Option<&str>) -> CreateVmRequest {
    CreateVmRequest {
        id: Some(1),
        name: "Ubuntu Dev".to_owned(),
        vcpus: 2,
        memory_mib: 2048,
        firmware: FirmwareType::Uefi,
        secure_boot: false,
        vtpm: false,
        disk_path: disk.map(str::to_owned),
        iso_path: None,
    }
}

#[test]
fn vbox_plan_skips_qcow2_disks() {
    assert!(is_qcow2_extension("QCOW2"));
    assert!(!is_qcow2_extension("vdi"));
    let with_vdi = create_vm_plan(&vbox_request(Some("/vms/dev.vdi")));
    let with_qcow = create_vm_plan(&vbox_request(Some("/vms/dev.QCow2")));
    let without = create_vm_plan(&vbox_request(None));
    assert_eq!(with_qcow.len(), without.len());
    assert_eq!(with_vdi.len(), without.len() + 1);
    assert_eq!(without[0].args, vec!["createvm", "--name", "Ubuntu Dev", "--ostype", "Ubuntu_64", "--register"]);
    assert_eq!(without[0].failure.as_deref(), Some("createvm"));
    assert_eq!(with_vdi[4].failure.as_deref(), Some("attach disk"));
    assert_eq!(without.last().unwrap().failure, None);
    assert_eq!(without.last().unwrap().args[2..4], ["--boot1".to_owned(), "disk".to_owned()]);
}

#[test]
fn vbox_step_errors_name_the_step() {
    match vbox_step_error("attach ISO", "medium not found") {
        HypervisorError::CreateFailed(m) => assert_eq!(m, "attach ISO: medium not found"),
        other => panic!("unexpected {other:?}"),
    }
    assert_eq!(vbox_launch_error("No such file"), "Failed to run VBoxManage: No such file");
    let c = vboxmanage_install_candidates();
    assert_eq!(c.len(), 3);
    assert_eq!(c[0], r"C:\Program Files\Oracle\VirtualBox\VBoxManage.exe");
}

#[test]
fn where_output_gives_first_path() {
    let out = "C:\\qemu\\qemu-system-x86_64.exe \r\nD:\\other\\qemu-system-x86_64.exe\r\n";
    assert_eq!(first_listed_path(out).as_deref(), Some("C:\\qemu\\qemu-system-x86_64.exe"));
    assert_eq!(first_listed_path("  /usr/bin/qemu-system-x86_64\n").as_deref(), Some("/usr/bin/qemu-system-x86_64"));
    assert_eq!(first_listed_path(""), None);
    assert_eq!(first_listed_path("   \nlater"), None);
}

#[test]
fn qemu_install_places_in_order() {
    let c = qemu_install_candidates();
    assert_eq!(c.len(), 4);
    assert_eq!(c[0], r"C:\Program Files\qemu\qemu-system-x86_64.exe");
    assert_eq!(c[2], r"C:\ProgramData\chocolatey\bin\qemu-system-x86_64.exe");
}

#[test]
fn qemu_probe_places_in_order() {
    let c = qemu_probe_candidates();
    assert_eq!(c.len(), 7);
    assert_eq!(c[2], r"C:\tools\qemu\qemu-system-x86_64.exe");
    assert_eq!(c[4], "/usr/bin/qemu-system-x86_64");
    assert_eq!(c[6], "/opt/homebrew/bin/qemu-system-x86_64");
}

#[test]
fn engine_report_follows_cpu_and_qemu() {
    let c = detect_nova_engine(CpuVirtTech::AmdV, EngineType::NovaNativeKvm, "Linux".to_owned(), 8, 16384, "1.0".to_owned(),
        Some("/usr/bin/qemu-system-x86_64".to_owned()));
    assert!(!c.vtx_available && c.amd_v_available);
    assert!(c.qemu_available);
    assert_eq!(c.qemu_path.as_deref(), Some("/usr/bin/qemu-system-x86_64"));
    assert_eq!(c.max_guest_ram_mib, 12288);
    let d = detect_nova_engine(CpuVirtTech::IntelVtx, EngineType::NovaSimulation, "x".to_owned(), 512, 100, "1.0".to_owned(), None);
    assert!(d.vtx_available && !d.qemu_available && d.qemu_path.is_none());
    assert_eq!(d.max_vcpus_per_vm, 256);
    assert_eq!(d.max_guest_ram_mib, 512);
    assert_eq!(EngineType::NovaSimulation.performance_tier(), 2);
    assert_eq!(EngineType::NovaQemuAccelerated.performance_tier(), 4);
}

#[test]
fn data_ready_follows_the_receive_queue() {
    let mut u = Uart8250::new();
    assert_eq!(u.read(5) & 1, 0);
    u.inject_input(b"ab");
    assert_eq!(u.read(5) & 1, 1);
    assert_eq!(u.read(0), b'a');
    assert_eq!(u.read(5) & 1, 1);
    assert_eq!(u.read(0), b'b');
    assert_eq!(u.read(5) & 1, 0);
    u.inject_input(b"");
    assert_eq!(u.read(5) & 1, 0);
}

#[test]
fn fresh_bus_devices_answer_power_on_values() {
    let mut bus = DeviceBus::new();
    assert_eq!(bus.io_read(0x3FD), 0x60);
    assert_eq!(bus.io_read(0x21), 0xFF);
    assert_eq!(bus.io_read(0xA1), 0xFF);
    bus.io_write(0x70, 0x20);
    bus.io_write(0x71, 0x15A);
    assert_eq!(bus.io_read(0x71), 0x5A);
}

#[test]
fn default_disk_sits_in_the_data_dir() {
    let sep = std::path::MAIN_SEPARATOR;
    assert_eq!(default_disk_path(Some("/data"), "vm1"), format!("/data{sep}NovaVM{sep}disks{sep}vm1.vmdk"));
    assert_eq!(default_disk_path(None, "vm1"), format!(".{sep}NovaVM{sep}disks{sep}vm1.vmdk"));
}
