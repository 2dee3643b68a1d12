use novavm::scheduler::{CpuScheduler, SchedulerError, VmSchedulingPolicy};

#[test]
fn test_scheduler_creation() {
    let sched = CpuScheduler::new(1.5f32.to_bits(), 8).unwrap();
    assert!(sched.total_scheduled_vcpus() == 0);
}

#[test]
fn test_invalid_overcommit() {
    assert!(CpuScheduler::new(0.5f32.to_bits(), 8).is_err());
}

#[test]
fn test_register_and_budget() {
    let mut sched = CpuScheduler::new(2.0f32.to_bits(), 8).unwrap();
    let id = uuid::Uuid::new_v4().as_u128();
    sched.register_vm(id, VmSchedulingPolicy { vcpus: 4, ..Default::default() });
    let (vcpus, ratio_bits) = sched.effective_overcommit_ratio_bits(id).unwrap();
    let budget = vcpus as f32 / f32::from_bits(ratio_bits);
    assert!((budget - 2.0).abs() < f32::EPSILON);
}

#[test]
fn test_deregister() {
    let mut sched = CpuScheduler::new(1.0f32.to_bits(), 8).unwrap();
    let id = uuid::Uuid::new_v4().as_u128();
    sched.register_vm(id, VmSchedulingPolicy::default());
    sched.deregister_vm(id);
    assert!(sched.effective_overcommit_ratio_bits(id).is_err());
}

#[test]
fn ratio_of_exactly_one_is_accepted() {
    assert!(CpuScheduler::new(1.0f32.to_bits(), 4).is_ok());
    match CpuScheduler::new(0.99f32.to_bits(), 4) {
        Err(SchedulerError::InvalidOvercommitRatio(b)) => assert_eq!(f32::from_bits(b), 0.99),
        _ => panic!("ratio below one accepted"),
    }
}

#[test]
fn per_vm_ratio_overrides_global() {
    let mut sched = CpuScheduler::new(2.0f32.to_bits(), 8).unwrap();
    sched.register_vm(5, VmSchedulingPolicy { vcpus: 6, overcommit_ratio_bits: Some(3.0f32.to_bits()), ..Default::default() });
    assert_eq!(sched.effective_overcommit_ratio_bits(5).unwrap(), (6, 3.0f32.to_bits()));
}

#[test]
fn total_vcpus_sums_registered_vms() {
    let mut sched = CpuScheduler::new(1.0f32.to_bits(), 8).unwrap();
    sched.register_vm(1, VmSchedulingPolicy { vcpus: 4, ..Default::default() });
    sched.register_vm(2, VmSchedulingPolicy::default());
    assert_eq!(sched.total_scheduled_vcpus(), 6);
    sched.register_vm(1, VmSchedulingPolicy { vcpus: 1, ..Default::default() });
    assert_eq!(sched.total_scheduled_vcpus(), 3);
}

#[test]
fn unknown_vm_policy_update_fails() {
    let mut sched = CpuScheduler::new(1.0f32.to_bits(), 8).unwrap();
    assert!(matches!(sched.update_policy(9, VmSchedulingPolicy::default()), Err(SchedulerError::VmNotRegistered(9))));
}

#[test]
fn nan_and_negative_ratios_are_refused() {
    assert!(CpuScheduler::new(f32::NAN.to_bits(), 4).is_err());
    assert!(CpuScheduler::new((-2.0f32).to_bits(), 4).is_err());
    assert!(CpuScheduler::new(f32::INFINITY.to_bits(), 4).is_ok());
}
