use kvm_manager::json::{KVMInfo, VirtualMachines};
use kvm_manager::kvm::{
    create_vm_info, format_version, get_console_out, get_devices, get_domains, hypervisor_info,
    is_running, list_snapshots, not_implemented, operation_result, DeviceReport, DomainReport,
    OpFailure,
};

fn report(name: Option<&str>, state: Option<(u32, i32)>, vcpus: Option<u64>) -> DomainReport {
    DomainReport {
        name: name.map(|n| n.to_string()),
        state,
        max_memory: Some(2097152),
        max_vcpus: vcpus,
        autostart: Some(true),
        os_type: Some("hvm".to_string()),
    }
}

fn device(name: Option<&str>, caps: &[&str]) -> DeviceReport {
    DeviceReport {
        name: name.map(|n| n.to_string()),
        caps: caps.iter().map(|c| c.to_string()).collect(),
    }
}

fn failed_with(r: &KVMInfo, text: &str) {
    assert!(!r.success);
    assert_eq!(r.message.as_deref(), Some(text));
}

#[test]
fn version_splits_into_major_minor_release() {
    assert_eq!(format_version(2008016), "2.8.16");
    assert_eq!(format_version(6001001), "6.1.1");
    assert_eq!(format_version(0), "0.0.0");
    assert_eq!(format_version(1000000), "1.0.0");
    assert_eq!(format_version(999), "0.0.999");
    assert_eq!(format_version(4294967295), "4294.967.295");
}

#[test]
fn version_matches_formula_on_many_values() {
    for v in [7u32, 10, 1001, 12345678, 100200300, 4000000000] {
        let expected = format!("{}.{}.{}", v / 1000000, (v % 1000000) / 1000, (v % 1000000) % 1000);
        assert_eq!(format_version(v), expected);
    }
}

#[test]
fn hypervisor_info_of_qemu() {
    let info = hypervisor_info("QEMU".to_string(), 6001001);
    assert_eq!(info.hypervisor, "QEMU");
    assert_eq!(info.version, "6.1.1");
}

#[test]
fn running_predicate_tests_shutoff_bit() {
    assert!(is_running(Some((1, 0))));
    assert!(is_running(Some((3, 1))));
    assert!(!is_running(Some((5, 0))));
    assert!(!is_running(Some((4, 0))));
    assert!(!is_running(Some((0, 0))));
    assert!(!is_running(Some((7, 0))));
    assert!(!is_running(None));
}

#[test]
fn snapshot_of_running_domain_reports_vcpus() {
    let vm: VirtualMachines = create_vm_info(&report(Some("web"), Some((1, 1)), Some(8)));
    assert_eq!(vm.name, "web");
    assert_eq!(vm.state, (1, 1));
    assert_eq!(vm.memory, 2097152);
    assert_eq!(vm.vcpu, 8);
    assert!(vm.autostart);
    assert_eq!(vm.os_type, "hvm");
}

#[test]
fn snapshot_of_stopped_domain_hides_vcpus() {
    let vm = create_vm_info(&report(Some("db"), Some((5, 0)), Some(8)));
    assert_eq!(vm.state, (5, 0));
    assert_eq!(vm.vcpu, 0);
    let unknown = create_vm_info(&report(Some("db"), None, Some(8)));
    assert_eq!(unknown.vcpu, 0);
}

#[test]
fn snapshot_defaults_each_missing_field() {
    let empty = DomainReport {
        name: None,
        state: None,
        max_memory: None,
        max_vcpus: None,
        autostart: None,
        os_type: None,
    };
    let vm = create_vm_info(&empty);
    assert_eq!(vm.name, "no-name");
    assert_eq!(vm.state, (0, 0));
    assert_eq!(vm.memory, 0);
    assert_eq!(vm.vcpu, 0);
    assert!(!vm.autostart);
    assert_eq!(vm.os_type, "");
    let vm = create_vm_info(&report(Some("x"), Some((1, 0)), None));
    assert_eq!(vm.vcpu, 0);
    assert_eq!(vm.memory, 2097152);
}

#[test]
fn domain_listing_keeps_partial_entries() {
    let listing = vec![
        report(Some("a"), Some((1, 0)), Some(2)),
        report(None, None, None),
        report(Some("c"), Some((5, 0)), Some(4)),
    ];
    let vms = get_domains(Ok(listing)).unwrap();
    assert_eq!(vms.len(), 3);
    assert_eq!(vms[0].name, "a");
    assert_eq!(vms[0].vcpu, 2);
    assert_eq!(vms[1].name, "no-name");
    assert_eq!(vms[1].state, (0, 0));
    assert_eq!(vms[2].name, "c");
    assert_eq!(vms[2].vcpu, 0);
    assert!(get_domains(Ok(Vec::new())).unwrap().is_empty());
}

#[test]
fn domain_listing_fails_when_enumeration_fails() {
    let r = get_domains(Err("cannot list domains".to_string()));
    assert_eq!(r.unwrap_err(), "cannot list domains");
}

#[test]
fn successful_request_has_no_message() {
    let r = operation_result("web", Ok(0));
    assert!(r.success);
    assert!(r.message.is_none());
}

#[test]
fn start_of_missing_domain_fails_with_message() {
    let r = operation_result("ghost", Err(OpFailure::NotFound(String::new())));
    failed_with(&r, "no domain named ghost");
    let r = operation_result("ghost", Err(OpFailure::NotFound("Domain not found: ghost".to_string())));
    failed_with(&r, "Domain not found: ghost");
}

#[test]
fn refused_request_fails_with_message() {
    let r = operation_result("web", Err(OpFailure::Rejected("domain is not running".to_string())));
    failed_with(&r, "domain is not running");
    let r = operation_result("web", Err(OpFailure::Rejected(String::new())));
    failed_with(&r, "the hypervisor refused the request for web");
}

#[test]
fn repeated_requests_keep_the_result_shape() {
    let outcomes = vec![
        operation_result("web", Ok(0)),
        operation_result("web", Err(OpFailure::Rejected("domain is not running".to_string()))),
        operation_result("web", Err(OpFailure::Rejected("domain is already running".to_string()))),
        operation_result("web", Err(OpFailure::NotFound(String::new()))),
    ];
    for r in outcomes {
        assert_eq!(r.success, r.message.is_none());
        if let Some(m) = r.message {
            assert!(!m.is_empty());
        }
    }
}

#[test]
fn snapshot_names_default_to_empty() {
    let names = list_snapshots(Ok(vec![Some("before-upgrade".to_string()), None])).unwrap();
    assert_eq!(names, vec!["before-upgrade".to_string(), String::new()]);
    assert_eq!(list_snapshots(Err("no domain".to_string())).unwrap_err(), "no domain");
}

#[test]
fn device_listing_keeps_only_storage_and_vports() {
    let devs = vec![
        device(Some("scsi_host0"), &["scsi_host", "vports"]),
        device(Some("pci_0000_00_02_0"), &["pci"]),
        device(Some("block_sda"), &["storage"]),
        device(None, &["storage"]),
        device(Some("net_eth0"), &["net"]),
        device(Some("bare"), &[]),
    ];
    let names = get_devices(Ok(devs)).unwrap();
    assert_eq!(names, vec!["scsi_host0".to_string(), "block_sda".to_string(), String::new()]);
    assert_eq!(get_devices(Err("lookup failed".to_string())).unwrap_err(), "lookup failed");
}

#[test]
fn console_request_always_fails() {
    assert_eq!(get_console_out("web", "stream error".to_string()), Err("stream error".to_string()));
    assert_eq!(
        get_console_out("web", String::new()),
        Err("console output is not available for web".to_string())
    );
}

#[test]
fn unimplemented_route_names_the_instance() {
    assert_eq!(not_implemented("web"), "Not Implemented, web");
    assert_eq!(not_implemented(""), "Not Implemented, ");
}
