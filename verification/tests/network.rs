use novavm::network::switch::{VirtualSwitch, VirtualSwitchMode};
use novavm::network::{HostAdapter, NetworkError, NetworkManager};

#[test]
fn test_create_and_list_switches() {
    let mut mgr = NetworkManager::new();
    mgr.create_switch("nat0".to_owned(), VirtualSwitchMode::Nat).unwrap();
    mgr.create_switch("bridge0".to_owned(), VirtualSwitchMode::Bridged).unwrap();
    assert_eq!(mgr.list_switches().len(), 2);
}

#[test]
fn test_duplicate_switch_name() {
    let mut mgr = NetworkManager::new();
    mgr.create_switch("sw0".to_owned(), VirtualSwitchMode::HostOnly).unwrap();
    assert!(mgr.create_switch("sw0".to_owned(), VirtualSwitchMode::HostOnly).is_err());
}

#[test]
fn test_delete_switch() {
    let mut mgr = NetworkManager::new();
    mgr.create_switch("sw0".to_owned(), VirtualSwitchMode::Internal).unwrap();
    mgr.delete_switch("sw0").unwrap();
    assert!(mgr.list_switches().is_empty());
}

#[test]
fn test_nat_switch_has_dhcp() {
    let sw = VirtualSwitch::new("nat0".to_owned(), VirtualSwitchMode::Nat);
    assert!(sw.dhcp_enabled);
    assert_eq!(sw.mode, VirtualSwitchMode::Nat);
}

#[test]
fn test_internal_switch_no_dhcp() {
    let sw = VirtualSwitch::new("int0".to_owned(), VirtualSwitchMode::Internal);
    assert!(!sw.dhcp_enabled);
}

#[test]
fn test_switch_mode_display() {
    assert_eq!(VirtualSwitchMode::Nat.to_string(), "NAT");
    assert_eq!(VirtualSwitchMode::Bridged.to_string(), "Bridged");
}

#[test]
fn deleting_unknown_switch_is_not_found() {
    let mut mgr = NetworkManager::new();
    match mgr.delete_switch("ghost") {
        Err(e) => {
            assert!(matches!(e, NetworkError::SwitchNotFound(ref n) if n == "ghost"));
            assert_eq!(e.to_string(), "Virtual switch 'ghost' not found");
        }
        Ok(()) => panic!("no such switch"),
    }
}

#[test]
fn duplicate_name_error_text() {
    let mut mgr = NetworkManager::new();
    mgr.create_switch("a".to_owned(), VirtualSwitchMode::Nat).unwrap();
    match mgr.create_switch("a".to_owned(), VirtualSwitchMode::Bridged) {
        Err(e) => assert_eq!(e.to_string(), "Switch name 'a' already exists"),
        Ok(_) => panic!("duplicate accepted"),
    }
    assert_eq!(mgr.list_switches().len(), 1);
}

#[test]
fn create_then_delete_restores_names() {
    let mut mgr = NetworkManager::new();
    mgr.create_switch("keep".to_owned(), VirtualSwitchMode::Nat).unwrap();
    mgr.create_switch("temp".to_owned(), VirtualSwitchMode::Internal).unwrap();
    mgr.delete_switch("temp").unwrap();
    let names: Vec<String> = mgr.list_switches().into_iter().map(|s| s.name).collect();
    assert_eq!(names, vec!["keep".to_owned()]);
    assert!(mgr.get_switch("keep").is_some());
    assert!(mgr.get_switch("temp").is_none());
}

#[test]
fn other_mode_names() {
    assert_eq!(VirtualSwitchMode::HostOnly.to_string(), "Host-only");
    assert_eq!(VirtualSwitchMode::Internal.to_string(), "Internal");
}

#[test]
fn adapter_list_formats_entries() {
    let mgr = NetworkManager::new();
    let adapters = vec![
        HostAdapter { name: "eth0".to_owned(), addresses: vec!["10.0.0.2".to_owned(), "fe80::1".to_owned()], mac: "aa:bb:cc:dd:ee:ff".to_owned() },
        HostAdapter { name: "lo".to_owned(), addresses: vec![], mac: "00:00:00:00:00:00".to_owned() },
    ];
    let list = mgr.list_physical_adapters(&adapters);
    assert_eq!(list, vec![
        "eth0 (IP: 10.0.0.2, fe80::1, MAC: aa:bb:cc:dd:ee:ff)".to_owned(),
        "lo (IP: No IP, MAC: 00:00:00:00:00:00)".to_owned(),
    ]);
}

#[test]
fn adapter_list_defaults_when_host_reports_none() {
    let mgr = NetworkManager::new();
    let list = mgr.list_physical_adapters(&vec![]);
    assert_eq!(list, vec!["Ethernet (Default Host Interface)".to_owned(), "Wi-Fi (Wireless LAN Adapter)".to_owned()]);
}
