use novavm::memory::pressure::MemoryPressure;
use novavm::memory::{MemoryError, MemoryManager};

#[test]
fn test_allocate_and_free() {
    let mut mgr = MemoryManager::new(false);
    let id = uuid::Uuid::new_v4().as_u128();
    let alloc = mgr.allocate(id, 512, 2048, false, false).unwrap();
    assert_eq!(alloc.allocated_mib, 512);
    mgr.free(id).unwrap();
}

#[test]
fn test_pressure_ordering() {
    assert!(MemoryPressure::High > MemoryPressure::Low);
    assert!(MemoryPressure::Critical > MemoryPressure::High);
}

#[test]
fn allocate_then_free_restores_available() {
    let mut mgr = MemoryManager::new(false);
    assert_eq!(mgr.host_memory_mib(), (8192, 4096));
    mgr.allocate(7, 1024, 2048, true, false).unwrap();
    assert_eq!(mgr.host_memory_mib(), (8192, 3072));
    mgr.free(7).unwrap();
    assert_eq!(mgr.host_memory_mib(), (8192, 4096));
}

#[test]
fn allocation_beyond_free_memory_is_refused() {
    let mut mgr = MemoryManager::new(false);
    match mgr.allocate(1, 5000, 6000, false, false) {
        Err(MemoryError::InsufficientHostMemory { requested_mib, available_mib }) => {
            assert_eq!(requested_mib, 5000);
            assert_eq!(available_mib, 4096);
        }
        other => panic!("unexpected {:?}", other.is_ok()),
    }
}

#[test]
fn freeing_unknown_vm_fails() {
    let mut mgr = MemoryManager::new(true);
    assert!(matches!(mgr.free(99), Err(MemoryError::VmNotRegistered(99))));
}

#[test]
fn pressure_is_low_with_half_free() {
    let mut mgr = MemoryManager::new(false);
    mgr.allocate(3, 512, 512, true, false).unwrap();
    let plan = mgr.update_pressure();
    assert_eq!(mgr.pressure(), MemoryPressure::Low);
    assert!(plan.is_empty());
}

#[test]
fn pressure_ranks_are_ordered() {
    assert_eq!(MemoryPressure::Low.rank(), 0);
    assert_eq!(MemoryPressure::Medium.rank(), 1);
    assert_eq!(MemoryPressure::High.rank(), 2);
    assert_eq!(MemoryPressure::Critical.rank(), 3);
    assert!(MemoryPressure::Medium < MemoryPressure::High);
}
