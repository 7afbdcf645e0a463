use vmctl::vm::VmState;
use vmctl::vmrun::{PortForwarding, Vmrun, VmrunError};

fn s(v: &[&str]) -> Vec<String> {
    v.iter().map(|x| x.to_string()).collect()
}

#[test]
fn list_running_skips_header_and_blank_lines() {
    let out = "Total running VMs: 2\n/vms/A.vmwarevm/A.vmx\n\n  /vms/B.vmwarevm/B.vmx  \n";
    assert_eq!(Vmrun::list_running(out), s(&["/vms/A.vmwarevm/A.vmx", "/vms/B.vmwarevm/B.vmx"]));
    assert!(Vmrun::list_running("Total running VMs: 0\n").is_empty());
}

#[test]
fn state_from_running_list_and_suspend_file() {
    let running = s(&["/vms/A.vmwarevm/A.vmx"]);
    assert_eq!(Vmrun::get_state(&running, "/vms/A.vmwarevm/A.vmx", false), VmState::Running);
    assert_eq!(Vmrun::get_state(&running, "/vms/A.vmwarevm//A.vmx", false), VmState::Running);
    assert_eq!(Vmrun::get_state(&running, "/vms/B.vmwarevm/B.vmx", false), VmState::Stopped);
    assert_eq!(Vmrun::get_state(&running, "/vms/B.vmwarevm/B.vmx", true), VmState::Paused);
    assert_eq!(Vmrun::get_state(&running, "/vms/A.vmwarevm/A.vmx", true), VmState::Paused);
}

#[test]
fn suspend_file_detection() {
    assert!(Vmrun::has_vmss_file(&s(&["A.vmx", "A-1234.vmss"])));
    assert!(!Vmrun::has_vmss_file(&s(&["A.vmx", "A.vmsd", "vmss.txt"])));
    assert!(!Vmrun::has_vmss_file(&vec![]));
}

#[test]
fn power_operation_arguments() {
    assert_eq!(Vmrun::start("/p.vmx"), s(&["start", "/p.vmx", "nogui"]));
    assert_eq!(Vmrun::stop("/p.vmx"), s(&["stop", "/p.vmx"]));
    assert_eq!(Vmrun::suspend("/p.vmx"), s(&["suspend", "/p.vmx"]));
    assert_eq!(Vmrun::resume("/p.vmx"), s(&["start", "/p.vmx"]));
    assert_eq!(Vmrun::delete_vm("/p.vmx"), s(&["deleteVM", "/p.vmx"]));
    assert_eq!(Vmrun::get_guest_ip_args("/p.vmx"), s(&["getGuestIPAddress", "/p.vmx"]));
}

#[test]
fn guest_ip_output() {
    assert_eq!(Vmrun::get_guest_ip(" 192.168.1.5\n").unwrap(), "192.168.1.5");
    match Vmrun::get_guest_ip("  \n") {
        Err(VmrunError::CommandFailed(m)) => assert_eq!(m, "未获取到 IP 地址"),
        _ => panic!("an empty answer is an error"),
    }
}

#[test]
fn error_messages() {
    assert_eq!(VmrunError::CommandFailed("boom".to_string()).message(), "Command failed: boom");
    assert_eq!(VmrunError::NotFound.message(), "vmrun not found");
    assert_eq!(VmrunError::InvalidOutput.message(), "Invalid output from vmrun");
}

#[test]
fn snapshot_commands() {
    assert_eq!(Vmrun::list_snapshots_args("/p.vmx"), s(&["listSnapshots", "/p.vmx"]));
    assert_eq!(Vmrun::list_snapshots("Total snapshots: 2\nbase\n  after update \n\n"), s(&["base", "after update"]));
    assert!(Vmrun::list_snapshots("").is_empty());
    assert_eq!(Vmrun::create_snapshot("/p.vmx", "s1"), s(&["snapshot", "/p.vmx", "s1"]));
    assert_eq!(Vmrun::delete_snapshot("/p.vmx", "s1"), s(&["deleteSnapshot", "/p.vmx", "s1"]));
    assert_eq!(Vmrun::revert_to_snapshot("/p.vmx", "s1"), s(&["revertToSnapshot", "/p.vmx", "s1"]));
}

#[test]
fn guest_commands() {
    assert_eq!(
        Vmrun::list_directory_in_guest_args("/p.vmx", "root", "pw", "/tmp"),
        s(&["-gu", "root", "-gp", "pw", "listDirectoryInGuest", "/p.vmx", "/tmp"])
    );
    assert_eq!(
        Vmrun::list_directory_in_guest("Directory list: 3\n..\n etc \n\nhome\n"),
        s(&["..", "etc", "home"])
    );
    assert_eq!(
        Vmrun::copy_file_to_guest("/p.vmx", "u", "p", "/h/a", "/g/a"),
        s(&["-gu", "u", "-gp", "p", "CopyFileFromHostToGuest", "/p.vmx", "/h/a", "/g/a"])
    );
    assert_eq!(
        Vmrun::copy_file_from_guest("/p.vmx", "u", "p", "/g/a", "/h/a"),
        s(&["-gu", "u", "-gp", "p", "CopyFileFromGuestToHost", "/p.vmx", "/g/a", "/h/a"])
    );
    assert_eq!(
        Vmrun::create_directory_in_guest("/p.vmx", "u", "p", "/g/d"),
        s(&["-gu", "u", "-gp", "p", "createDirectoryInGuest", "/p.vmx", "/g/d"])
    );
    assert_eq!(
        Vmrun::delete_file_in_guest("/p.vmx", "u", "p", "/g/a"),
        s(&["-gu", "u", "-gp", "p", "deleteFileInGuest", "/p.vmx", "/g/a"])
    );
}

#[test]
fn port_forwarding_line() {
    let r = PortForwarding::parse("  [tcp] 8080 -> 192.168.10.5:80 web server").unwrap();
    assert_eq!(r.protocol, "tcp");
    assert_eq!(r.host_port, 8080);
    assert_eq!(r.guest_ip, "192.168.10.5");
    assert_eq!(r.guest_port, 80);
    assert_eq!(r.description, "web server");
    let r = PortForwarding::parse("[udp] 53 x 10.0.0.2:53").unwrap();
    assert_eq!(r.description, "");
    assert!(PortForwarding::parse("tcp 80 x 1.2.3.4:80").is_none());
    assert!(PortForwarding::parse("[tcp] 80 x").is_none());
    assert!(PortForwarding::parse("[tcp] 99999 x 1.2.3.4:80").is_none());
    assert!(PortForwarding::parse("[tcp] 80 x 1.2.3.4").is_none());
}

#[test]
fn network_listings() {
    let nets = "Count: 3\nIndex Name Type\n0 vmnet1 hostOnly\n1 vmnet8 NAT\n2 vmnet9 nat extra\n";
    assert_eq!(Vmrun::list_nat_networks(nets), s(&["vmnet8", "vmnet9"]));
    assert_eq!(Vmrun::list_nat_networks_args(), s(&["listHostNetworks"]));
    assert_eq!(Vmrun::list_port_forwardings_args("vmnet8"), s(&["listPortForwardings", "vmnet8"]));
    let rules = Vmrun::list_port_forwardings("Total: 2\n[tcp] 2222 a 172.16.2.3:22 ssh\n\ngarbage\n[udp] 53 b 172.16.2.3:53\n");
    assert_eq!(rules.len(), 2);
    assert_eq!(rules[0].host_port, 2222);
    assert_eq!(rules[1].protocol, "udp");
}

#[test]
fn network_and_clone_commands() {
    assert_eq!(
        Vmrun::set_port_forwarding("vmnet8", "tcp", 2222, "172.16.2.3", 22, "ssh"),
        s(&["setPortForwarding", "vmnet8", "tcp", "2222", "172.16.2.3", "22", "ssh"])
    );
    assert_eq!(Vmrun::delete_port_forwarding("vmnet8", "tcp", 2222), s(&["deletePortForwarding", "vmnet8", "tcp", "2222"]));
    assert_eq!(Vmrun::enable_shared_folders("/p.vmx"), s(&["enableSharedFolders", "/p.vmx", "runtime"]));
    assert_eq!(Vmrun::disable_shared_folders("/p.vmx"), s(&["disableSharedFolders", "/p.vmx", "runtime"]));
    assert_eq!(Vmrun::add_shared_folder("/p.vmx", "share", "/h"), s(&["addSharedFolder", "/p.vmx", "share", "/h"]));
    assert_eq!(Vmrun::remove_shared_folder("/p.vmx", "share"), s(&["removeSharedFolder", "/p.vmx", "share"]));
    assert_eq!(
        Vmrun::set_shared_folder_state("/p.vmx", "share", "/h", false),
        s(&["setSharedFolderState", "/p.vmx", "share", "/h", "readonly"])
    );
    assert_eq!(
        Vmrun::clone_vm("/a/A.vmx", "/a/B.vmwarevm/B.vmx", "linked", "B"),
        s(&["clone", "/a/A.vmx", "/a/B.vmwarevm/B.vmx", "linked", "-cloneName=B"])
    );
}
