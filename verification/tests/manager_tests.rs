use vmctl::manager::{
    find_vm_index, merge_rest_vms, merge_scanned, name_less, read_vm_ip, scanned_vms, set_vm_ip,
    set_vm_state, sort_by_name,
};
use vmctl::vm::{Vm, VmState};
use vmctl::vmrest::VmrestVm;

fn vm(path: &str, name: &str, state: VmState, ip: Option<&str>) -> Vm {
    Vm { vmx_path: path.to_string(), name: name.to_string(), state, ip: ip.map(|s| s.to_string()) }
}

fn names(v: &[Vm]) -> Vec<String> {
    v.iter().map(|m| m.name.clone()).collect()
}

#[test]
fn names_compare_as_strings() {
    assert!(name_less("Alpha", "Beta"));
    assert!(!name_less("Beta", "Alpha"));
    assert!(name_less("Win", "Win10"));
    assert!(!name_less("Same", "Same"));
    assert!(name_less("Zed", "a"));
}

#[test]
fn sort_is_stable_by_name() {
    let v = vec![
        vm("/1", "b", VmState::Unknown, None),
        vm("/2", "a", VmState::Unknown, None),
        vm("/3", "b", VmState::Running, None),
        vm("/4", "A", VmState::Unknown, None),
    ];
    let s = sort_by_name(v);
    assert_eq!(names(&s), vec!["A", "a", "b", "b"]);
    assert_eq!(s[2].vmx_path, "/1");
    assert_eq!(s[3].vmx_path, "/3");
    assert!(sort_by_name(vec![]).is_empty());
}

#[test]
fn find_and_update_by_path() {
    let mut v = vec![vm("/a/A.vmx", "A", VmState::Stopped, None), vm("/b/B.vmx", "B", VmState::Stopped, None)];
    assert_eq!(find_vm_index(&v, "/b/B.vmx"), Some(1));
    assert_eq!(find_vm_index(&v, "/b/./B.vmx"), Some(1));
    assert_eq!(find_vm_index(&v, "/c/C.vmx"), None);
    set_vm_state(&mut v, "/b/B.vmx", VmState::Running);
    assert_eq!(v[1].state, VmState::Running);
    set_vm_ip(&mut v, "/b/B.vmx", Some("172.16.1.2".to_string()));
    assert_eq!(v[1].ip, Some("172.16.1.2".to_string()));
    set_vm_state(&mut v, "/c/C.vmx", VmState::Running);
    assert_eq!(v[0].state, VmState::Stopped);
    read_vm_ip(&mut v, "/a/A.vmx", "ethernet0.address = \"00:0c:29:01:02:03\"\n");
    assert_eq!(v[0].ip, Some("172.16.1.2".to_string()));
}

#[test]
fn rest_merge_keeps_known_ips_and_filters_directory() {
    let existing = vec![vm("/vms/B.vmwarevm/B.vmx", "B", VmState::Running, Some("172.16.9.9"))];
    let rest = vec![
        VmrestVm { id: "1".to_string(), name: "B".to_string(), path: "/vms/B.vmwarevm/B.vmx".to_string(), power_state: Some("poweredOn".to_string()) },
        VmrestVm { id: "2".to_string(), name: "A".to_string(), path: "/vms/A.vmwarevm/A.vmx".to_string(), power_state: None },
        VmrestVm { id: "3".to_string(), name: "C".to_string(), path: "/elsewhere/C.vmx".to_string(), power_state: Some("poweredOff".to_string()) },
    ];
    let merged = merge_rest_vms(&rest, &existing, "/vms");
    assert_eq!(names(&merged), vec!["A", "B"]);
    assert_eq!(merged[0].state, VmState::Unknown);
    assert_eq!(merged[0].ip, None);
    assert_eq!(merged[1].state, VmState::Running);
    assert_eq!(merged[1].ip, Some("172.16.9.9".to_string()));
}

#[test]
fn rescan_keeps_states_and_ips() {
    let existing = vec![vm("/vms/B.vmwarevm/B.vmx", "B", VmState::Paused, Some("172.16.1.1"))];
    let paths = vec!["/vms/B.vmwarevm/B.vmx".to_string(), "/vms/A.vmwarevm/A.vmx".to_string()];
    let merged = merge_scanned(&paths, &existing);
    assert_eq!(names(&merged), vec!["A", "B"]);
    assert_eq!(merged[0].state, VmState::Unknown);
    assert_eq!(merged[1].state, VmState::Paused);
    assert_eq!(merged[1].ip, Some("172.16.1.1".to_string()));
}

#[test]
fn first_scan_uses_found_states() {
    let found = vec![
        ("/vms/Z.vmwarevm/Z.vmx".to_string(), Some(VmState::Running)),
        ("/vms/M.vmwarevm/M.vmx".to_string(), None),
    ];
    let vms = scanned_vms(&found);
    assert_eq!(names(&vms), vec!["M", "Z"]);
    assert_eq!(vms[0].state, VmState::Unknown);
    assert_eq!(vms[1].state, VmState::Running);
}
