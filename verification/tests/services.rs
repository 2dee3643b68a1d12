use novavm::agent::guest_exec::{
    admin_usermod_args, chpasswd_line, create_os_user, list_os_users, script_command, script_finished,
    script_launch_failed, update_os_user_password, useradd_args, windows_add_user_script,
    windows_admin_group_script, windows_listing, windows_set_password_script, CommandOutcome, GuestOs, LocalAccount,
    UserListing,
};
use novavm::agent::{
    frame_message, unframe_message, AgentError, AgentMessage, AgentPayload, CreateUserData, ScriptPayload,
    UpdatePasswordData, AGENT_PROTOCOL_VERSION,
};
use novavm::api::{get_vm, list_vms, sort_by_name, update_vm_config, ApiError, VmSummary};
use novavm::engine::config::VmConfig;
use novavm::engine::error::EngineError;
use novavm::engine::registry::Engine;
use novavm::display::{open_vm_display, vbox_display_outcome, DisplayStep};
use novavm::engine::vm::{VirtualMachine, VmState};
use novavm::hypervisor::backend::caps::capabilities_of;
use novavm::hypervisor::backend::null::{BackendKind, NullBackend};
use novavm::network::NetworkError;
use novavm::sdk::{NovaPlugin, PluginContext, PluginError, PluginMetadata, PluginRegistry};
use novavm::snapshot::{SnapshotError, SnapshotOrchestrator};
use novavm::state::{AppLog, AppSettings, Persistence, SerialBuffers, Theme, MAX_LOG_ENTRIES, SERIAL_BUFFER_CAP};
use novavm::storage::StorageError;

struct TestPlugin;

impl NovaPlugin for TestPlugin {
    fn metadata(&self) -> PluginMetadata {
        PluginMetadata {
            id: "com.test.plugin".to_owned(),
            name: "Test".to_owned(),
            version: "0.1.0".to_owned(),
            description: "Test plugin".to_owned(),
            author: "Tester".to_owned(),
            min_novavm_version: "0.1.0".to_owned(),
        }
    }

    fn on_load(&mut self, _ctx: &PluginContext) -> Result<(), PluginError> {
        Ok(())
    }

    fn on_unload(&mut self) {}
}

#[test]
fn test_plugin_registry() {
    let mut registry = PluginRegistry::new();
    registry.register(Box::new(TestPlugin));
    assert_eq!(registry.list().len(), 1);
    assert_eq!(registry.list()[0].id, "com.test.plugin");
}

#[test]
fn broadcasting_keeps_every_plugin() {
    let mut registry = PluginRegistry::new();
    registry.register(Box::new(TestPlugin));
    registry.register(Box::new(TestPlugin));
    registry.broadcast_vm_started(1);
    registry.broadcast_vm_stopped(1);
    assert_eq!(registry.list().len(), 2);
}

#[test]
fn api_error_new_keeps_code_and_message() {
    let err = ApiError::new("TEST_ERROR", "Something went wrong");
    assert_eq!(err.code, "TEST_ERROR");
    assert_eq!(err.message, "Something went wrong");
}

#[test]
fn api_errors_from_subsystems() {
    let e = ApiError::from_engine(EngineError::Config("bad name".to_owned()));
    assert_eq!(e.code, "ENGINE_ERROR");
    assert_eq!(e.message, "Configuration error: bad name");
    let e = ApiError::from_network(NetworkError::SwitchNotFound("sw".to_owned()));
    assert_eq!(e.code, "NETWORK_ERROR");
    assert_eq!(e.message, "Virtual switch 'sw' not found");
    let e = ApiError::from_storage(StorageError::Compression("oops".to_owned()));
    assert_eq!(e.code, "STORAGE_ERROR");
    assert_eq!(e.message, "Compression error: oops");
    let e = ApiError::from_snapshot(SnapshotError::Internal("x".to_owned()));
    assert_eq!(e.code, "SNAPSHOT_ERROR");
    assert_eq!(e.message, "Internal snapshot error: x");
}

#[test]
fn vm_summary_copies_config() {
    let mut cfg = VmConfig::minimal("sum-vm");
    cfg.tags = vec!["a".to_owned(), "b".to_owned()];
    cfg.group = Some("lab".to_owned());
    let vm = VirtualMachine::new(cfg).unwrap();
    let s = VmSummary::of(&vm);
    assert_eq!(s.id, vm.id());
    assert_eq!(s.name, "sum-vm");
    assert_eq!(s.state, VmState::Stopped);
    assert_eq!(s.cpu_vcpus, 2);
    assert_eq!(s.memory_mib, 2048);
    assert_eq!(s.tags, vec!["a".to_owned(), "b".to_owned()]);
    assert_eq!(s.group, Some("lab".to_owned()));
}

fn engine_with_vm(name: &str) -> (Engine, u128) {
    let mut engine = Engine::new();
    let (vm, req) = Engine::prepare_create_vm(VmConfig::minimal(name)).unwrap();
    let handle = NullBackend.create_vm(req).unwrap();
    let id = engine.register_vm(vm, handle);
    (engine, id)
}

#[test]
fn snapshot_of_running_vm_leaves_it_running() {
    let (mut engine, id) = engine_with_vm("snap-vm");
    engine.start_vm(id).unwrap();
    let mut orch = SnapshotOrchestrator::new(engine);
    let r = orch.snapshot_vm(id, "test-snap".to_owned(), None).unwrap();
    assert_eq!(r.vm_id, id);
    assert_eq!(r.name, "test-snap");
    assert_eq!((r.snapshot_id >> 76) & 0xF, 4);
    assert_eq!(*orch.engine().registry().get(id).unwrap().state(), VmState::Running);
}

#[test]
fn snapshot_of_stopped_vm_is_refused() {
    let (engine, id) = engine_with_vm("snap-vm2");
    let mut orch = SnapshotOrchestrator::new(engine);
    match orch.snapshot_vm(id, "s".to_owned(), None) {
        Err(e) => {
            assert!(matches!(e, SnapshotError::Engine(EngineError::InvalidStateTransition { .. })));
            assert_eq!(
                e.to_string(),
                "Engine error during snapshot: Invalid state transition: cannot pause a VM in state stopped"
            );
        }
        Ok(_) => panic!("stopped VM snapshotted"),
    }
    assert_eq!(*orch.engine().registry().get(id).unwrap().state(), VmState::Stopped);
}

#[test]
fn snapshot_of_unknown_vm_is_not_found() {
    let mut orch = SnapshotOrchestrator::new(Engine::new());
    assert!(matches!(orch.snapshot_vm(5, "s".to_owned(), None), Err(SnapshotError::Engine(EngineError::VmNotFound(5)))));
}

#[test]
fn agent_message_has_protocol_version() {
    let m = AgentMessage::new(AgentPayload::ListUsers);
    assert_eq!(m.version, AGENT_PROTOCOL_VERSION);
    assert_eq!(m.version, 2);
    assert!(matches!(m.payload, AgentPayload::ListUsers));
}

#[test]
fn frame_round_trip() {
    let body = br#"{"id":"x"}"#;
    let frame = frame_message(body);
    assert_eq!(&frame[..4], &[10, 0, 0, 0]);
    assert_eq!(unframe_message(&frame).unwrap(), body.to_vec());
}

#[test]
fn short_and_truncated_frames_are_refused() {
    match unframe_message(&[1, 0]) {
        Err(AgentError::InvalidFrame(m)) => assert_eq!(m, "Frame too short"),
        _ => panic!("short frame accepted"),
    }
    match unframe_message(&[5, 0, 0, 0, 1, 2]) {
        Err(e) => assert_eq!(e.to_string(), "Invalid message frame: Frame truncated"),
        Ok(_) => panic!("truncated frame accepted"),
    }
    assert_eq!(unframe_message(&[2, 0, 0, 0, 7, 8, 9]).unwrap(), vec![7, 8]);
}

#[test]
fn passwd_lists_root_and_regular_users() {
    let passwd = "root:x:0:0:root:/root:/bin/bash\r\n\
                  daemon:x:1:1:daemon:/usr/sbin:/usr/sbin/nologin\n\
                  alice:x:1000:1000:Alice Smith,,,:/home/alice:/bin/bash\n\
                  broken:x\n\
                  bob:x:+1001:1001::/home/bob:/bin/sh\n";
    let users = list_os_users(&UserListing::Posix(Some(passwd.to_owned())));
    let names: Vec<&str> = users.iter().map(|u| u.username.as_str()).collect();
    assert_eq!(names, vec!["root", "alice", "bob"]);
    assert!(users[0].is_admin);
    assert_eq!(users[1].full_name, "Alice Smith");
    assert!(!users[1].is_admin);
    assert_eq!(users[2].full_name, "");
    assert!(users.iter().all(|u| !u.is_disabled && u.last_login.is_none()));
}

#[test]
fn unreadable_uid_counts_as_root() {
    let users = list_os_users(&UserListing::Posix(Some("svc:x:abc:0:Service:/:/bin/false\n".to_owned())));
    assert_eq!(users.len(), 1);
    assert_eq!(users[0].username, "svc");
    assert!(users[0].is_admin);
}

#[test]
fn no_passwd_falls_back_to_root() {
    let users = list_os_users(&UserListing::Posix(None));
    assert_eq!(users.len(), 1);
    assert_eq!(users[0].username, "root");
    assert_eq!(users[0].full_name, "Superuser");
    assert!(users[0].is_admin);
}

#[test]
fn windows_accounts_are_read() {
    let accounts = vec![
        LocalAccount { name: Some("ADMINISTRATOR".to_owned()), full_name: None, enabled: Some(false) },
        LocalAccount { name: None, full_name: Some("x".to_owned()), enabled: None },
        LocalAccount { name: Some("dev".to_owned()), full_name: Some("Dev User".to_owned()), enabled: None },
    ];
    let users = list_os_users(&UserListing::Windows(Some(accounts)));
    assert_eq!(users.len(), 2);
    assert_eq!(users[0].username, "ADMINISTRATOR");
    assert_eq!(users[0].full_name, "ADMINISTRATOR");
    assert!(users[0].is_admin);
    assert!(users[0].is_disabled);
    assert_eq!(users[1].full_name, "Dev User");
    assert!(!users[1].is_admin && !users[1].is_disabled);
}

#[test]
fn windows_defaults_when_query_fails() {
    let users = list_os_users(&UserListing::Windows(None));
    assert_eq!(users.len(), 2);
    assert_eq!(users[0].username, "Administrator");
    assert_eq!(users[0].last_login.as_deref(), Some("2026-08-06T08:00:00Z"));
    assert_eq!(users[1].username, "User");
    assert!(!users[1].is_admin);
}

#[test]
fn windows_query_output_is_read_as_json() {
    let out = r#"[{"Name":"Admin","FullName":"","Enabled":true},{"Name":"bob","FullName":null,"Enabled":false},{"FullName":"ghost"}]"#;
    let users = list_os_users(&windows_listing(Some(out)));
    assert_eq!(users.len(), 2);
    assert_eq!(users[0].username, "Admin");
    assert_eq!(users[0].full_name, "");
    assert!(users[0].is_admin && !users[0].is_disabled);
    assert_eq!(users[1].username, "bob");
    assert_eq!(users[1].full_name, "bob");
    assert!(!users[1].is_admin && users[1].is_disabled);
    let single = list_os_users(&windows_listing(Some(r#"{"Name":"solo","FullName":"Solo","Enabled":true}"#)));
    assert_eq!(single.len(), 1);
    assert_eq!(single[0].full_name, "Solo");
    let garbage = list_os_users(&windows_listing(Some("not json")));
    assert_eq!(garbage.len(), 2);
    assert_eq!(garbage[0].username, "Administrator");
    assert!(matches!(windows_listing(None), UserListing::Windows(None)));
}

fn new_user() -> CreateUserData {
    CreateUserData { username: "dev".to_owned(), password: "pw".to_owned(), full_name: "Dev One".to_owned(), is_admin: true }
}

#[test]
fn created_user_reflects_request() {
    let u = create_os_user(&new_user(), CommandOutcome::Finished { success: true, stderr: String::new() }).unwrap();
    assert_eq!(u.username, "dev");
    assert_eq!(u.full_name, "Dev One");
    assert!(u.is_admin);
    let e = create_os_user(&new_user(), CommandOutcome::Finished { success: false, stderr: "exists".to_owned() });
    assert_eq!(e.unwrap_err(), "exists");
    let e = create_os_user(&new_user(), CommandOutcome::LaunchFailed("no useradd".to_owned()));
    assert_eq!(e.unwrap_err(), "no useradd");
}

#[test]
fn password_update_outcomes() {
    assert!(update_os_user_password(GuestOs::Posix, CommandOutcome::Finished { success: false, stderr: String::new() }).is_ok());
    assert_eq!(
        update_os_user_password(GuestOs::Posix, CommandOutcome::LaunchFailed("x".to_owned())).unwrap_err(),
        "Failed to execute chpasswd"
    );
    assert_eq!(
        update_os_user_password(GuestOs::Windows, CommandOutcome::Finished { success: false, stderr: "denied".to_owned() }).unwrap_err(),
        "denied"
    );
    assert!(update_os_user_password(GuestOs::Windows, CommandOutcome::Finished { success: true, stderr: String::new() }).is_ok());
}

#[test]
fn user_command_lines() {
    let d = new_user();
    assert_eq!(windows_add_user_script(&d), "net user \"dev\" \"pw\" /add /fullname:\"Dev One\"");
    assert_eq!(windows_admin_group_script("dev"), "net localgroup Administrators \"dev\" /add");
    let p = UpdatePasswordData { username: "dev".to_owned(), new_password: "n3w".to_owned() };
    assert_eq!(windows_set_password_script(&p), "net user \"dev\" \"n3w\"");
    assert_eq!(chpasswd_line("dev", "pw"), "dev:pw");
    assert_eq!(useradd_args(&d), vec!["-m", "-c", "Dev One", "dev"]);
    assert_eq!(admin_usermod_args("dev"), vec!["-aG", "sudo,wheel", "dev"]);
}

fn script(interpreter: &str) -> ScriptPayload {
    ScriptPayload { interpreter: interpreter.to_owned(), script_body: "echo hi".to_owned(), timeout_secs: 60, working_dir: None, env_vars: None }
}

#[test]
fn script_interpreters() {
    let c = script_command(&script("  PowerShell "));
    assert_eq!(c.interpreter, "powershell");
    assert_eq!(c.program, "powershell.exe");
    assert_eq!(c.args, vec!["-NoProfile", "-NonInteractive", "-ExecutionPolicy", "Bypass", "-Command", "echo hi"]);
    let c = script_command(&script("bat"));
    assert_eq!((c.program.as_str(), c.args.clone()), ("cmd.exe", vec!["/C".to_owned(), "echo hi".to_owned()]));
    let c = script_command(&script("py"));
    assert_eq!(c.program, "python3");
    let c = script_command(&script("zsh"));
    assert_eq!(c.program, "sh");
    assert_eq!(c.args, vec!["-c", "echo hi"]);
}

#[test]
fn script_results() {
    let r = script_finished(None, "out".to_owned(), "err".to_owned(), 5);
    assert_eq!(r.exit_code, -1);
    assert_eq!(r.stdout, "out");
    let r = script_finished(Some(3), String::new(), String::new(), 1);
    assert_eq!(r.exit_code, 3);
    let r = script_launch_failed("python", "not found", 2);
    assert_eq!(r.stderr, "Failed to launch interpreter 'python': not found");
    assert_eq!(r.exit_code, -1);
    assert_eq!(r.duration_ms, 2);
}

#[test]
fn log_keeps_newest_entries() {
    let mut log = AppLog::new();
    for i in 0..(MAX_LOG_ENTRIES + 3) {
        log.push_at("info", "test", &format!("m{i}"), "2026-01-01 00:00:00".to_owned());
    }
    assert_eq!(log.len(), MAX_LOG_ENTRIES);
    let entries = log.entries_vec();
    assert_eq!(entries[0].message, "m3");
    assert_eq!(entries[MAX_LOG_ENTRIES - 1].message, format!("m{}", MAX_LOG_ENTRIES + 2));
    assert_eq!(entries[0].level, "INFO");
    log.clear();
    assert_eq!(log.len(), 0);
}

#[test]
fn default_settings() {
    let s = AppSettings::defaults_for(None);
    assert_eq!(s.theme, Theme::System);
    assert_eq!(s.default_storage_dir, "./vms");
    assert_eq!(s.default_iso_dir, "./iso");
    assert!(s.auto_start_service);
    assert_eq!(s.metrics_interval_secs, 1);
    assert!(!s.telemetry_enabled);
    assert_eq!(s.language, "en-US");
    let d = AppSettings::defaults_for(Some("/home/u/.local/share"));
    assert!(d.default_storage_dir.ends_with("vms"));
    assert!(d.default_storage_dir.contains("NovaVM"));
    let sep = std::path::MAIN_SEPARATOR;
    assert_eq!(d.default_iso_dir, format!("/home/u/.local/share{sep}NovaVM{sep}iso"));
}

#[test]
fn record_files_sit_in_the_storage_dir() {
    let sep = std::path::MAIN_SEPARATOR;
    let p = Persistence::at("/data/novavm");
    assert_eq!(p.base_dir(), "/data/novavm");
    assert_eq!(p.vms_file(), format!("/data/novavm{sep}vms.json"));
    assert_eq!(p.disks_file(), format!("/data/novavm{sep}disks.json"));
    let q = Persistence::at("/data/novavm/");
    assert_eq!(q.vms_file(), "/data/novavm/vms.json");
}

#[test]
fn serial_output_accumulates_and_drains() {
    let mut bufs = SerialBuffers::new();
    bufs.push_serial_output(1, b"boot ");
    bufs.push_serial_output(1, b"ok\n");
    bufs.push_serial_output(1, &[0xFF, 0xFE]);
    bufs.push_serial_output(2, "é".as_bytes());
    assert_eq!(bufs.drain_serial_output(1), "boot ok\n");
    assert_eq!(bufs.drain_serial_output(1), "");
    assert_eq!(bufs.drain_serial_output(2), "é");
}

#[test]
fn serial_output_keeps_last_mebibyte() {
    let mut bufs = SerialBuffers::new();
    let chunk = vec![b'a'; SERIAL_BUFFER_CAP - 2];
    bufs.push_serial_output(9, &chunk);
    bufs.push_serial_output(9, b"xyz12");
    let out = bufs.drain_serial_output(9);
    assert_eq!(out.len(), SERIAL_BUFFER_CAP);
    assert!(out.ends_with("aaxyz12"));
}

fn summary(name: &str, id: u128) -> VmSummary {
    VmSummary {
        id,
        name: name.to_owned(),
        state: VmState::Stopped,
        cpu_vcpus: 1,
        memory_mib: 1,
        tags: vec![],
        group: None,
        created_at: 0,
        updated_at: 0,
    }
}

#[test]
fn summaries_sort_by_name_stably() {
    let sorted = sort_by_name(vec![summary("web", 1), summary("Db", 2), summary("api", 3), summary("web", 4), summary("Zed", 5), summary("é", 6)]);
    let order: Vec<(String, u128)> = sorted.into_iter().map(|s| (s.name, s.id)).collect();
    assert_eq!(
        order,
        vec![
            ("Db".to_owned(), 2),
            ("Zed".to_owned(), 5),
            ("api".to_owned(), 3),
            ("web".to_owned(), 1),
            ("web".to_owned(), 4),
            ("é".to_owned(), 6),
        ]
    );
}

#[test]
fn startup_log_entries() {
    let log = AppLog::startup("0.1.0");
    let e = log.entries_vec();
    assert_eq!(e.len(), 4);
    assert_eq!(e[0].message, "NovaVM 0.1.0 starting");
    assert_eq!(e[0].level, "INFO");
    assert_eq!(e[2].target, "network");
    assert_eq!(e[3].message, "NovaVM application ready");
}

#[test]
fn words_and_numbers() {
    let w = novavm::util::parse::split_words("  a\tbc  d ");
    assert_eq!(w, vec!["a", "bc", "d"]);
    assert_eq!(novavm::util::parse::parse_u64_text("+18446744073709551615"), Some(u64::MAX));
    assert_eq!(novavm::util::parse::parse_u64_text("18446744073709551616"), None);
    assert_eq!(novavm::util::parse::parse_u32_text("4294967295"), Some(u32::MAX));
    assert_eq!(novavm::util::parse::parse_u32_text("-1"), None);
    assert_eq!(novavm::util::parse::text_lines("a\r\nb\n\nc\r"), vec!["a", "b", "", "c\r"]);
}

#[test]
fn display_per_backend() {
    match open_vm_display("VirtualBox", "dev") {
        DisplayStep::RunVBoxManage(a) => assert_eq!(a, vec!["startvm", "dev", "--type", "gui"]),
        other => panic!("unexpected {other:?}"),
    }
    match open_vm_display("QEMU", "dev") {
        DisplayStep::Done(Ok(d)) => {
            assert_eq!(d.status, "sdl_window_active");
            assert!(d.info.starts_with("QEMU is running 'dev'. The SDL display window"));
            assert!(d.info.ends_with("127.0.0.1:5900 (use a VNC viewer to connect)."));
        }
        other => panic!("unexpected {other:?}"),
    }
    match open_vm_display("NovaVM-KVM", "dev") {
        DisplayStep::Done(Ok(d)) => {
            assert_eq!(d.backend, "NovaVM-KVM");
            assert_eq!(d.status, "native_running");
            assert_eq!(d.info, "'dev' is running on NovaVM's native hardware hypervisor (NovaVM-KVM).");
        }
        other => panic!("unexpected {other:?}"),
    }
    match open_vm_display("null", "dev") {
        DisplayStep::Done(Err(e)) => {
            assert_eq!(e.code, "NO_HYPERVISOR");
            assert!(e.message.starts_with("Windows Hypervisor Platform is not enabled."));
        }
        other => panic!("unexpected {other:?}"),
    }
}

#[test]
fn virtualbox_window_outcomes() {
    let ok = vbox_display_outcome("dev", CommandOutcome::Finished { success: true, stderr: String::new() }).unwrap();
    assert_eq!(ok.status, "opened");
    assert_eq!(ok.info, "VirtualBox display window opened for 'dev'");
    let locked = CommandOutcome::Finished { success: false, stderr: "session already locked".to_owned() };
    let again = vbox_display_outcome("dev", locked).unwrap();
    assert_eq!(again.status, "already_running");
    assert_eq!(again.info, "VM 'dev' is already running in VirtualBox");
    let failed = CommandOutcome::Finished { success: false, stderr: "no such VM".to_owned() };
    let e = vbox_display_outcome("dev", failed).unwrap_err();
    assert_eq!(e.code, "DISPLAY_ERROR");
    assert_eq!(e.message, "VBoxManage startvm failed: no such VM");
    let e = vbox_display_outcome("dev", CommandOutcome::LaunchFailed("not found".to_owned())).unwrap_err();
    assert_eq!(e.message, "Could not launch VBoxManage: not found");
}

#[test]
fn backend_capabilities() {
    let whp = capabilities_of(BackendKind::Whp, false);
    assert_eq!(whp.backend_name, "NovaVM-WHP");
    assert!(whp.secure_boot && whp.memory_dedup);
    let kvm = capabilities_of(BackendKind::Kvm, false);
    assert_eq!(kvm.backend_version, "Linux KVM");
    assert!(!kvm.secure_boot && kvm.vtpm);
    let qemu = capabilities_of(BackendKind::Qemu, false);
    assert_eq!(qemu.backend_name, "QEMU");
    assert!(qemu.memory_ballooning && !qemu.vtpm);
    let vbox = capabilities_of(BackendKind::VirtualBox, false);
    assert_eq!(vbox.backend_version, "7.x");
    assert!(vbox.nested_virt && !vbox.huge_pages);
    assert!(capabilities_of(BackendKind::Avf, true).secure_boot);
    assert_eq!(capabilities_of(BackendKind::Null, false).backend_name, "null");
}

#[test]
fn vm_listing_is_sorted_by_name() {
    let (mut engine, id_b) = engine_with_vm("beta");
    let (vm, req) = Engine::prepare_create_vm(VmConfig::minimal("alpha")).unwrap();
    let handle = NullBackend.create_vm(req).unwrap();
    let id_a = engine.register_vm(vm, handle);
    let all = list_vms(&engine);
    assert_eq!(all.len(), 2);
    assert_eq!(all[0].name, "alpha");
    assert_eq!(all[0].id, id_a);
    assert_eq!(all[1].id, id_b);
    assert_eq!(get_vm(&engine, id_b).unwrap().name, "beta");
    let e = get_vm(&engine, 0x0123_4567_89ab_cdef_0123_4567_89ab_cdef).err().unwrap();
    assert_eq!(e.code, "VM_NOT_FOUND");
    assert_eq!(e.message, "VM 01234567-89ab-cdef-0123-456789abcdef not found");
}

#[test]
fn config_changes_only_while_stopped() {
    let (mut engine, id) = engine_with_vm("cfg");
    let mut cfg = VmConfig::minimal("cfg");
    cfg.memory.size_mib = 8192;
    assert!(update_vm_config(&mut engine, id, cfg).is_ok());
    assert_eq!(get_vm(&engine, id).unwrap().memory_mib, 8192);
    engine.start_vm(id).unwrap();
    let e = update_vm_config(&mut engine, id, VmConfig::minimal("cfg")).err().unwrap();
    assert_eq!(e.code, "VM_NOT_STOPPED");
    assert_eq!(e.message, "Configuration can only be changed while the VM is stopped");
    assert_eq!(get_vm(&engine, id).unwrap().memory_mib, 8192);
    assert_eq!(update_vm_config(&mut engine, 5, VmConfig::minimal("x")).err().unwrap().code, "VM_NOT_FOUND");
}
