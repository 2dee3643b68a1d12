use novavm::monitor::{HostMetrics, MetricsCollector, VmMetrics, RING_BUFFER_SIZE};

fn host_sample(t: u64) -> HostMetrics {
    HostMetrics {
        cpu_percent_bits: 12.5f64.to_bits(),
        memory_total_mib: 16384,
        memory_used_mib: 4096,
        swap_total_mib: 0,
        swap_used_mib: 0,
        per_cpu_percent_bits: vec![10.0f64.to_bits(), 15.0f64.to_bits()],
        disk_read_bytes: 0,
        disk_write_bytes: 0,
        net_rx_bytes: 0,
        net_tx_bytes: 0,
        timestamp: t,
    }
}

fn vm_sample(vm_id: u128, cpu: f64, t: u64) -> VmMetrics {
    VmMetrics {
        vm_id,
        cpu_percent_bits: cpu.to_bits(),
        memory_used_mib: 0,
        disk_read_bytes: 0,
        disk_write_bytes: 0,
        net_rx_bytes: 0,
        net_tx_bytes: 0,
        timestamp: t,
    }
}

#[test]
fn test_sample_host() {
    let mut collector = MetricsCollector::new();
    let metrics = collector.sample_host(host_sample(1));
    assert!(metrics.memory_total_mib > 0);
}

#[test]
fn test_ring_buffer_limit() {
    let mut collector = MetricsCollector::new();
    for t in 0..(RING_BUFFER_SIZE + 10) as u64 {
        collector.sample_host(host_sample(t));
    }
    assert_eq!(collector.host_history().len(), RING_BUFFER_SIZE);
}

#[test]
fn test_vm_metrics_record() {
    let mut collector = MetricsCollector::new();
    let vm_id = uuid::Uuid::new_v4().as_u128();
    collector.register_vm(vm_id);
    collector.record_vm_metrics(vm_sample(vm_id, 42.5, 0));
    let latest = collector.latest_vm(vm_id).unwrap();
    assert!((f64::from_bits(latest.cpu_percent_bits) - 42.5).abs() < 0.001);
}

#[test]
fn history_keeps_most_recent_samples_in_order() {
    let mut collector = MetricsCollector::new();
    for t in 0..(RING_BUFFER_SIZE + 5) as u64 {
        collector.sample_host(host_sample(t));
    }
    let h = collector.host_history();
    assert_eq!(h[0].timestamp, 5);
    assert_eq!(h[RING_BUFFER_SIZE - 1].timestamp, (RING_BUFFER_SIZE + 4) as u64);
    assert_eq!(collector.latest_host().unwrap().timestamp, (RING_BUFFER_SIZE + 4) as u64);
}

#[test]
fn recording_starts_tracking_a_new_vm() {
    let mut collector = MetricsCollector::new();
    assert!(collector.vm_history(3).is_none());
    collector.record_vm_metrics(vm_sample(3, 1.0, 0));
    assert_eq!(collector.latest_vm(3).unwrap().timestamp, 0);
    assert_eq!(collector.vm_history(3).unwrap().len(), 1);
}

#[test]
fn deregistered_vm_has_no_history() {
    let mut collector = MetricsCollector::new();
    collector.register_vm(4);
    collector.record_vm_metrics(vm_sample(4, 2.0, 1));
    assert_eq!(collector.vm_history(4).unwrap().len(), 1);
    collector.deregister_vm(4);
    assert!(collector.vm_history(4).is_none());
}
