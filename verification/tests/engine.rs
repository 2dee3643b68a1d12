use novavm::engine::config::{CpuConfig, FirmwareType, MemoryConfig, VmConfig};
use novavm::engine::error::EngineError;
use novavm::engine::registry::Engine;
use novavm::engine::vm::{LifecycleAction, VirtualMachine, VmState};
use novavm::hypervisor::backend::null::NullBackend;

fn test_config(name: &str) -> VmConfig {
    VmConfig {
        name: name.to_owned(),
        description: Some("Test VM".to_owned()),
        cpu: CpuConfig {
            vcpus: 2,
            sockets: 1,
            cores_per_socket: 2,
            threads_per_core: 1,
            overcommit_ratio_bits: 1.0f32.to_bits(),
        },
        memory: MemoryConfig {
            size_mib: 512,
            dynamic_min_mib: 256,
            dynamic_max_mib: 1024,
            ballooning: false,
            huge_pages: false,
        },
        firmware: FirmwareType::Bios,
        secure_boot: false,
        vtpm: false,
        disks: vec![],
        nics: vec![],
        shared_folders: vec![],
        tags: vec![],
        group: None,
    }
}

fn make_config() -> VmConfig {
    VmConfig {
        name: "unit-test-vm".to_owned(),
        description: None,
        cpu: CpuConfig::default(),
        memory: MemoryConfig::default(),
        firmware: FirmwareType::Uefi,
        secure_boot: false,
        vtpm: false,
        disks: vec![],
        nics: vec![],
        shared_folders: vec![],
        tags: vec![],
        group: None,
    }
}

fn create(engine: &mut Engine, cfg: VmConfig) -> u128 {
    let (vm, req) = Engine::prepare_create_vm(cfg).unwrap();
    let handle = NullBackend.create_vm(req).unwrap();
    engine.register_vm(vm, handle)
}

#[test]
fn test_minimal_config() {
    let cfg = VmConfig::minimal("my-vm");
    assert_eq!(cfg.name, "my-vm");
    assert_eq!(cfg.cpu.vcpus, 2);
    assert_eq!(cfg.memory.size_mib, 2048);
}

#[test]
fn test_create_vm() {
    let mut engine = Engine::new();
    let id = create(&mut engine, test_config("test-vm-1"));
    assert_eq!(engine.registry().len(), 1);
    assert!(engine.registry().get(id).is_some());
}

#[test]
fn test_destroy_vm() {
    let mut engine = Engine::new();
    let id = create(&mut engine, test_config("test-vm-2"));
    engine.destroy_vm(id).unwrap();
    assert!(engine.registry().is_empty());
}

#[test]
fn test_vm_not_found() {
    let mut engine = Engine::new();
    let fake_id = uuid::Uuid::new_v4().as_u128();
    let result = engine.start_vm(fake_id);
    assert!(matches!(result, Err(EngineError::VmNotFound(_))));
}

#[test]
fn test_lifecycle_happy_path() {
    let mut vm = VirtualMachine::new(make_config()).unwrap();
    assert_eq!(*vm.state(), VmState::Stopped);
    vm.start().unwrap();
    assert_eq!(*vm.state(), VmState::Running);
    vm.pause().unwrap();
    assert_eq!(*vm.state(), VmState::Paused);
    vm.resume().unwrap();
    assert_eq!(*vm.state(), VmState::Running);
    vm.stop().unwrap();
    assert_eq!(*vm.state(), VmState::Stopped);
}

#[test]
fn test_invalid_transition() {
    let mut vm = VirtualMachine::new(make_config()).unwrap();
    assert!(vm.pause().is_err());
}

#[test]
fn test_validation_empty_name() {
    let mut cfg = make_config();
    cfg.name = "   ".to_owned();
    assert!(VirtualMachine::new(cfg).is_err());
}

#[test]
fn test_validation_secure_boot_no_uefi() {
    let mut cfg = make_config();
    cfg.secure_boot = true;
    cfg.firmware = FirmwareType::Bios;
    assert!(VirtualMachine::new(cfg).is_err());
}

#[test]
fn refusal_names_action_and_state() {
    let mut vm = VirtualMachine::new(make_config()).unwrap();
    match vm.pause() {
        Err(e) => assert_eq!(e.to_string(), "Invalid state transition: cannot pause a VM in state stopped"),
        Ok(()) => panic!("a stopped VM cannot be paused"),
    }
    assert_eq!(*vm.state(), VmState::Stopped);
}

#[test]
fn pause_then_resume_returns_to_running() {
    let mut vm = VirtualMachine::new(make_config()).unwrap();
    vm.start().unwrap();
    let id = vm.id();
    vm.pause().unwrap();
    vm.resume().unwrap();
    assert_eq!(*vm.state(), VmState::Running);
    assert_eq!(vm.id(), id);
}

#[test]
fn crashed_vm_can_only_be_started() {
    let mut vm = VirtualMachine::new(make_config()).unwrap();
    vm.start().unwrap();
    assert!(vm.reset().is_ok());
    vm.stop().unwrap();
    assert!(vm.stop().is_err());
    assert!(vm.resume().is_err());
    vm.start().unwrap();
    assert_eq!(*vm.state(), VmState::Running);
}

#[test]
fn control_unknown_vm_is_not_found() {
    let mut engine = Engine::new();
    let r = engine.control_vm(42, LifecycleAction::Pause);
    assert!(matches!(r, Err(EngineError::VmNotFound(42))));
}

#[test]
fn control_vm_forwards_handle() {
    let mut engine = Engine::new();
    let id = create(&mut engine, test_config("ctl"));
    assert!(engine.control_vm(id, LifecycleAction::Pause).is_err());
    let plan = engine.start_vm(id).unwrap();
    let _ = plan;
    let h = engine.control_vm(id, LifecycleAction::Pause).unwrap();
    assert!(h.is_some());
    assert_eq!(*engine.registry().get(id).unwrap().state(), VmState::Paused);
}

#[test]
fn named_lifecycle_calls() {
    let mut engine = Engine::new();
    let id = create(&mut engine, test_config("named"));
    assert!(matches!(engine.pause_vm(id), Err(EngineError::InvalidStateTransition { .. })));
    engine.start_vm(id).unwrap();
    assert!(engine.pause_vm(id).unwrap().is_some());
    assert_eq!(*engine.registry().get(id).unwrap().state(), VmState::Paused);
    assert!(engine.resume_vm(id).is_ok());
    assert_eq!(*engine.registry().get(id).unwrap().state(), VmState::Running);
    assert!(engine.reset_vm(id).is_ok());
    assert_eq!(*engine.registry().get(id).unwrap().state(), VmState::Running);
    assert!(engine.stop_vm(id).is_ok());
    assert_eq!(*engine.registry().get(id).unwrap().state(), VmState::Stopped);
    assert!(matches!(engine.stop_vm(7), Err(EngineError::VmNotFound(7))));
}

#[test]
fn engine_error_texts() {
    assert_eq!(EngineError::Config("bad".to_owned()).to_string(), "Configuration error: bad");
    assert_eq!(EngineError::Hypervisor("x".to_owned()).to_string(), "Hypervisor error: x");
    assert_eq!(
        EngineError::VmNotFound(0x0123_4567_89ab_cdef_0123_4567_89ab_cdef).to_string(),
        "VM 01234567-89ab-cdef-0123-456789abcdef not found"
    );
}
