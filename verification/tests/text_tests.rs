use vmctl::config::{logo_path, refresh_interval, vm_dir, vmrun_path};
use vmctl::manager::{find_vm_index, is_bundle_name, is_vmx_path};
use vmctl::text::{byte_len_of, chars_of, dec_string, lowercase_chars, parse_uint, trim_chars};
use vmctl::vm::{bundle_name_of, Vm, VmState};
use vmctl::vmx::VmxFile;

#[test]
fn numbers() {
    assert_eq!(dec_string(0), "0");
    assert_eq!(dec_string(18446744073709551615), "18446744073709551615");
    assert_eq!(parse_uint(&chars_of("+42"), 10, u64::MAX), Some(42));
    assert_eq!(parse_uint(&chars_of("ff"), 16, 255), Some(255));
    assert_eq!(parse_uint(&chars_of("100"), 16, 255), None);
    assert_eq!(parse_uint(&chars_of(""), 10, 9), None);
    assert_eq!(parse_uint(&chars_of("1 2"), 10, 99), None);
    assert_eq!(parse_uint(&chars_of("18446744073709551616"), 10, u64::MAX), None);
}

#[test]
fn text_helpers() {
    assert_eq!(trim_chars(&chars_of("\u{3000} a b\t\n")), chars_of("a b"));
    assert_eq!(lowercase_chars(&chars_of("ÄbC")), chars_of("äbc"));
    assert_eq!(byte_len_of("快照"), 6);
    assert_eq!(byte_len_of("ab"), 2);
}

#[test]
fn path_operations_through_the_library() {
    let vms = vec![Vm { vmx_path: "/a/b".to_string(), name: "b".to_string(), state: VmState::Unknown, ip: None }];
    assert_eq!(find_vm_index(&vms, "/a//b/"), Some(0));
    assert_eq!(find_vm_index(&vms, "/a/c"), None);
    assert_eq!(bundle_name_of("/a/b/c.vmx", "?"), "b");
    assert_eq!(bundle_name_of("/", "?"), "?");
    assert_eq!(bundle_name_of("x", "?"), "?");
    let c = VmxFile::parse("/d/m.vmx".to_string(), "sata0:0.present = \"TRUE\"\nsata0:0.fileName = \"/abs/disk.vmdk\"\n").hardware_config();
    assert_eq!(c.disks[0].full_path, "/abs/disk.vmdk");
}

#[test]
fn settings_and_defaults() {
    assert_eq!(refresh_interval(Some("10")), 10);
    assert_eq!(refresh_interval(Some("ten")), 5);
    assert_eq!(refresh_interval(Some(" 10")), 5);
    assert_eq!(refresh_interval(None), 5);
    assert_eq!(vmrun_path(None), "/Applications/VMware Fusion.app/Contents/Library/vmrun");
    assert_eq!(vmrun_path(Some("/opt/vmrun")), "/opt/vmrun");
    assert_eq!(vm_dir(None, Some("/Users/me")), "/Users/me/Virtual Machines.localized");
    assert_eq!(vm_dir(None, None), "/Virtual Machines.localized");
    assert_eq!(vm_dir(Some("/vms"), Some("/Users/me")), "/vms");
    assert_eq!(logo_path(Some("")), None);
    assert_eq!(logo_path(Some("logo.txt")), Some("logo.txt".to_string()));
    assert_eq!(logo_path(None), None);
}

#[test]
fn bundle_and_configuration_names() {
    assert!(is_bundle_name("Ubuntu.vmwarevm"));
    assert!(!is_bundle_name("Ubuntu"));
    assert!(is_vmx_path("/vms/U.vmwarevm/U.vmx"));
    assert!(!is_vmx_path("/vms/U.vmwarevm/U.vmx.bak"));
    assert!(!is_vmx_path("/vms/U.vmwarevm/.vmx"));
}
