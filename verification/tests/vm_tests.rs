use vmctl::vm::{bundle_name_of, Vm, VmState};

#[test]
fn from_vmx_path_names_after_bundle() {
    let vm = Vm::from_vmx_path("/vms/Ubuntu.vmwarevm/Ubuntu.vmx".to_string());
    assert_eq!(vm.name, "Ubuntu");
    assert_eq!(vm.vmx_path, "/vms/Ubuntu.vmwarevm/Ubuntu.vmx");
    assert_eq!(vm.state, VmState::Unknown);
    assert_eq!(vm.ip, None);
}

#[test]
fn bundle_name_falls_back() {
    assert_eq!(bundle_name_of("x.vmx", "Unknown"), "Unknown");
    assert_eq!(bundle_name_of("/a/b/c.vmx", "Unknown"), "b");
    assert_eq!(bundle_name_of("/a/My.vmwarevm.vmwarevm/c.vmx", "?"), "My");
}

#[test]
fn display_names() {
    assert_eq!(VmState::Running.display_name(), "Running");
    assert_eq!(VmState::Stopped.display_name(), "Stopped");
    assert_eq!(VmState::Paused.display_name(), "Paused");
    assert_eq!(VmState::Unknown.display_name(), "Unknown");
}

#[test]
fn mac_to_ip_uses_fourth_and_fifth_bytes() {
    assert_eq!(
        Vm::parse_mac_to_ip("ethernet0.generatedAddress = \"00:0c:29:02:5f:34\""),
        Some("172.16.2.95".to_string())
    );
    assert_eq!(
        Vm::parse_mac_to_ip("ethernet0.address = \"00:0C:29:50:A2:D3\""),
        Some("172.16.80.162".to_string())
    );
}

#[test]
fn mac_to_ip_rejects_bad_lines() {
    assert_eq!(Vm::parse_mac_to_ip("no equals"), None);
    assert_eq!(Vm::parse_mac_to_ip("ethernet0.address = \"00:0c:29\""), None);
    assert_eq!(Vm::parse_mac_to_ip("ethernet0.address = \"00:0c:29:zz:5f:34\""), None);
    assert_eq!(Vm::parse_mac_to_ip("ethernet0.address = \"00:0c:29:100:5f:34\""), None);
}

#[test]
fn read_ip_from_vmx_takes_first_usable_line() {
    let mut vm = Vm::from_vmx_path("/vms/A.vmwarevm/A.vmx".to_string());
    vm.read_ip_from_vmx("numvcpus = \"1\"\nethernet0.address = \"bad\"\n  ethernet0.generatedAddress = \"00:0c:29:0a:0b:0c\"\n");
    assert_eq!(vm.ip, Some("172.16.10.11".to_string()));
    vm.read_ip_from_vmx("nothing here\n");
    assert_eq!(vm.ip, Some("172.16.10.11".to_string()));
}
