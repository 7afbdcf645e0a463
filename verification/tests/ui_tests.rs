use vmctl::ui::detail::get_detail_rows;
use vmctl::ui::shared::parse_shared_folders_from_vmx;
use vmctl::ui::state::{
    CloneType, DetailState, EditField, PortForwardInputState, SharedFolderInputState, VmListState,
};
use vmctl::vm::Vm;
use vmctl::vmx::VmxFile;

#[test]
fn detail_rows_list_settings_adapters_and_disks() {
    let content = "numvcpus = \"4\"\nmemsize = \"2048\"\nguestos = \"win\"\nethernet0.present = \"TRUE\"\nethernet0.connectionType = \"nat\"\nscsi0:0.present = \"TRUE\"\nscsi0:0.fileName = \"a.vmdk\"\n";
    let vmx_file = VmxFile::parse("/v/A.vmwarevm/A.vmx".to_string(), content);
    let mut config = vmx_file.hardware_config();
    let ds0 = DetailState {
        vmx_file: VmxFile::parse("/v/A.vmwarevm/A.vmx".to_string(), content),
        config: vmx_file.hardware_config(),
        selected_row: 0,
        dirty: false,
        vm_name: "A".to_string(),
        vmx_path: "/v/A.vmwarevm/A.vmx".to_string(),
    };
    let rows = get_detail_rows(&ds0);
    assert_eq!(rows.len(), 6);
    assert_eq!(rows[0].label, "CPU");
    assert_eq!(rows[0].value, "4");
    assert!(rows[0].editable);
    assert_eq!(rows[0].edit_field, Some(EditField::CpuCount));
    assert_eq!(rows[1].label, "内存");
    assert_eq!(rows[1].value, "2048");
    assert_eq!(rows[2].label, "系统");
    assert_eq!(rows[2].value, "win");
    assert!(!rows[2].editable);
    assert_eq!(rows[3].label, "固件");
    assert_eq!(rows[3].value, "bios");
    assert_eq!(rows[4].label, "网络 eth0");
    assert_eq!(rows[4].value, "nat (-)");
    assert_eq!(rows[5].label, "磁盘 scsi0:0");
    assert_eq!(rows[5].value, "a.vmdk (未知)");
    assert!(!rows[5].editable);
    assert_eq!(rows[5].edit_field, Some(EditField::DiskSize(0)));
    config.set_disk_sizes(&vec![Some(20)]);
    let ds = DetailState { config, ..ds0 };
    let rows = get_detail_rows(&ds);
    assert_eq!(rows[5].value, "a.vmdk (20GB)");
    assert!(rows[5].editable);
}

#[test]
fn shared_folders_from_vmx() {
    let content = "sharedFolder.maxNum = \"1\"\nsharedFolder0.present = \"TRUE\"\nsharedFolder0.hostPath = \"/Users/me/code\"\nsharedFolder0.guestName = \"code\"\nsharedFolder0.writeAccess = \"TRUE\"\nsharedFolder1.present = \"TRUE\"\nsharedFolder1.hostPath = \"/tmp\"\nsharedFolder2.present = \"FALSE\"\nsharedFolder2.guestName = \"off\"\n";
    let (folders, enabled) = parse_shared_folders_from_vmx(content);
    assert!(enabled);
    assert_eq!(folders.len(), 1);
    assert_eq!(folders[0].name, "code");
    assert_eq!(folders[0].host_path, "/Users/me/code");
    assert!(folders[0].writable);
    let (folders, enabled) = parse_shared_folders_from_vmx("sharedFolder.maxNum = \"0\"\n");
    assert!(!enabled);
    assert!(folders.is_empty());
}

#[test]
fn forms_start_empty() {
    let f = PortForwardInputState::new();
    assert_eq!(f.field_index, 0);
    assert_eq!(f.fields[0], "tcp");
    assert_eq!(f.current_field(), "tcp");
    assert_eq!(f.field_label(0), "协议 (tcp/udp)");
    assert_eq!(f.field_label(3), "客户端口");
    assert_eq!(f.field_label(9), "");
    let mut f = f;
    f.field_index = 2;
    f.current_field_mut().push_str("10.0.0.1");
    assert_eq!(f.fields[2], "10.0.0.1");
    let s = SharedFolderInputState::new();
    assert_eq!(s.field_index, 0);
    assert_eq!(s.field_label(1), "宿主路径");
    assert_eq!(CloneType::Full.as_str(), "full");
    assert_eq!(CloneType::Linked.as_str(), "linked");
    assert_eq!(CloneType::Full.display_name(), "完整克隆");
    assert_eq!(CloneType::Linked.display_name(), "链接克隆");
}

#[test]
fn list_selection() {
    let vms = vec![Vm::from_vmx_path("/v/A.vmwarevm/A.vmx".to_string())];
    let mut l = VmListState::new();
    assert_eq!(l.selected, None);
    l.with_selection(&vms, Some(0));
    assert_eq!(l.selected, Some(0));
    assert_eq!(l.selected_vmx, Some("/v/A.vmwarevm/A.vmx".to_string()));
    l.with_selection(&vms, Some(5));
    assert_eq!(l.selected, Some(5));
    assert_eq!(l.selected_vmx, Some("/v/A.vmwarevm/A.vmx".to_string()));
    l.with_selection(&vms, None);
    assert_eq!(l.selected, None);
    assert_eq!(l.selected_vmx, None);
}
