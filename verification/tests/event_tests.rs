use vmctl::event::ssh::{ssh_args, SshOutcome};
use vmctl::event::{handle_event, handle_reply, Action, AppState, Key, Pending, Reply, SshExecRequest};
use vmctl::ui::state::{AppMode, CloneType, SshLoginState, VmListState};
use vmctl::vm::{Vm, VmState};
use vmctl::vmrun::VmrunError;

const VMX: &str = "numvcpus = \"2\"\nmemsize = \"4096\"\nnvme0:0.present = \"TRUE\"\nnvme0:0.fileName = \"disk.vmdk\"\n";

fn machines() -> Vec<Vm> {
    vec![
        Vm { vmx_path: "/vms/A.vmwarevm/A.vmx".to_string(), name: "A".to_string(), state: VmState::Stopped, ip: None },
        Vm { vmx_path: "/vms/B.vmwarevm/B.vmx".to_string(), name: "B".to_string(), state: VmState::Running, ip: Some("172.16.1.2".to_string()) },
    ]
}

fn args(a: &Action) -> Vec<String> {
    match a {
        Action::Vmrun(v) => v.clone(),
        _ => panic!("expected a vmrun action"),
    }
}

fn key(state: &mut AppState, k: Key, vms: &Vec<Vm>, list: &mut VmListState) -> Action {
    handle_event(state, k, vms, list, false)
}

fn message(state: &AppState) -> String {
    state.message.clone().unwrap_or_default()
}

fn select(list: &mut VmListState, vms: &Vec<Vm>, i: usize) {
    list.with_selection(vms, Some(i));
}

#[test]
fn list_moves_stay_within_the_list() {
    let vms = machines();
    let mut st = AppState::new();
    let mut list = VmListState::new();
    key(&mut st, Key::Down, &vms, &mut list);
    assert_eq!(list.selected, Some(0));
    key(&mut st, Key::Char('s'), &vms, &mut list);
    key(&mut st, Key::Char('s'), &vms, &mut list);
    assert_eq!(list.selected, Some(1));
    assert_eq!(list.selected_vmx, Some("/vms/B.vmwarevm/B.vmx".to_string()));
    key(&mut st, Key::Up, &vms, &mut list);
    key(&mut st, Key::Char('w'), &vms, &mut list);
    assert_eq!(list.selected, Some(0));
    assert!(matches!(key(&mut st, Key::Char('q'), &vms, &mut list), Action::Quit));
    assert!(matches!(key(&mut st, Key::Esc, &vms, &mut list), Action::Quit));
}

#[test]
fn vmrest_toggle_reports_outcome() {
    let vms = machines();
    let mut st = AppState::new();
    let mut list = VmListState::new();
    assert!(matches!(handle_event(&mut st, Key::Char('R'), &vms, &mut list, true), Action::StopVmrest));
    handle_reply(&mut st, Reply::Done(Ok(String::new())), &mut list);
    assert_eq!(message(&st), "✓ vmrest 服务已停止");
    assert!(st.message_timer.is_some());
    assert!(matches!(handle_event(&mut st, Key::Char('R'), &vms, &mut list, false), Action::StartVmrest));
    handle_reply(&mut st, Reply::Done(Err("no binary".to_string())), &mut list);
    assert_eq!(message(&st), "✗ no binary");
    assert!(st.pending.is_none());
}

#[test]
fn power_operation_then_state_refresh() {
    let vms = machines();
    let mut st = AppState::new();
    let mut list = VmListState::new();
    assert!(matches!(key(&mut st, Key::Enter, &vms, &mut list), Action::Idle));
    select(&mut list, &vms, 0);
    let a = key(&mut st, Key::Enter, &vms, &mut list);
    assert_eq!(args(&a), vec!["start", "/vms/A.vmwarevm/A.vmx", "nogui"]);
    match handle_reply(&mut st, Reply::Output(Ok(String::new())), &mut list) {
        Action::RefreshVmState(p) => assert_eq!(p, "/vms/A.vmwarevm/A.vmx"),
        _ => panic!("a refresh follows a successful operation"),
    }
    assert_eq!(message(&st), "✓ 虚拟机已启动");
    let a = key(&mut st, Key::Char('p'), &vms, &mut list);
    assert_eq!(args(&a), vec!["suspend", "/vms/A.vmwarevm/A.vmx"]);
    let next = handle_reply(&mut st, Reply::Output(Err(VmrunError::CommandFailed("busy".to_string()))), &mut list);
    assert!(matches!(next, Action::Idle));
    assert_eq!(message(&st), "✗ Command failed: busy");
}

#[test]
fn delete_needs_a_stopped_machine() {
    let vms = machines();
    let mut st = AppState::new();
    let mut list = VmListState::new();
    select(&mut list, &vms, 1);
    key(&mut st, Key::Char('D'), &vms, &mut list);
    assert_eq!(message(&st), "✗ 虚拟机必须停止后才能删除");
    assert_eq!(st.app_mode, AppMode::List);
    select(&mut list, &vms, 0);
    key(&mut st, Key::Char('D'), &vms, &mut list);
    assert_eq!(st.app_mode, AppMode::DeleteConfirm);
    assert_eq!(st.message, None);
    let a = key(&mut st, Key::Char('y'), &vms, &mut list);
    assert_eq!(args(&a), vec!["deleteVM", "/vms/A.vmwarevm/A.vmx"]);
    assert_eq!(st.app_mode, AppMode::List);
    handle_reply(&mut st, Reply::Output(Ok(String::new())), &mut list);
    assert_eq!(message(&st), "✓ 虚拟机 \"A\" 已删除");
    assert_eq!(list.selected, None);
    assert_eq!(list.selected_vmx, None);
}

#[test]
fn detail_edit_and_save() {
    let vms = machines();
    let mut st = AppState::new();
    let mut list = VmListState::new();
    select(&mut list, &vms, 0);
    match key(&mut st, Key::Char('i'), &vms, &mut list) {
        Action::ReadFile(p) => assert_eq!(p, "/vms/A.vmwarevm/A.vmx"),
        _ => panic!("the configuration is read"),
    }
    match handle_reply(&mut st, Reply::Text(Ok(VMX.to_string())), &mut list) {
        Action::ReadDiskSizes(ps) => assert_eq!(ps, vec!["/vms/A.vmwarevm/disk.vmdk".to_string()]),
        _ => panic!("the disk sizes are read next"),
    }
    assert_eq!(st.app_mode, AppMode::Detail);
    handle_reply(&mut st, Reply::Sizes(vec![Some(40)]), &mut list);
    assert_eq!(st.detail_state.as_ref().unwrap().config.disks[0].size_gb, Some(40));
    assert_eq!(st.detail_state.as_ref().unwrap().vm_name, "A");

    key(&mut st, Key::Char('e'), &vms, &mut list);
    assert_eq!(st.app_mode, AppMode::Editing);
    assert_eq!(st.edit_state.as_ref().unwrap().buffer, "2");
    key(&mut st, Key::Backspace, &vms, &mut list);
    key(&mut st, Key::Char('x'), &vms, &mut list);
    key(&mut st, Key::Char('8'), &vms, &mut list);
    assert_eq!(st.edit_state.as_ref().unwrap().buffer, "8");
    match key(&mut st, Key::Enter, &vms, &mut list) {
        Action::ReadDiskSizes(ps) => assert_eq!(ps.len(), 1),
        _ => panic!("the settings are read anew"),
    }
    assert_eq!(st.app_mode, AppMode::Detail);
    let ds = st.detail_state.as_ref().unwrap();
    assert!(ds.dirty);
    assert_eq!(ds.config.cpu_count, 8);
    assert_eq!(ds.vmx_file.get("numvcpus"), Some("8"));
    handle_reply(&mut st, Reply::Sizes(vec![Some(40)]), &mut list);

    key(&mut st, Key::Char('W'), &vms, &mut list);
    assert_eq!(st.app_mode, AppMode::Confirm);
    match key(&mut st, Key::Char('y'), &vms, &mut list) {
        Action::SaveVmx { path, content } => {
            assert_eq!(path, "/vms/A.vmwarevm/A.vmx");
            assert!(content.starts_with("numvcpus = \"8\"\n"));
        },
        _ => panic!("the file is saved"),
    }
    handle_reply(&mut st, Reply::Done(Ok(String::new())), &mut list);
    assert_eq!(message(&st), "✓ 配置已保存");
    assert!(!st.detail_state.as_ref().unwrap().dirty);
    key(&mut st, Key::Esc, &vms, &mut list);
    assert_eq!(st.app_mode, AppMode::List);
    assert!(st.detail_state.is_none());
}

#[test]
fn detail_refuses_bad_values_and_running_machines() {
    let vms = machines();
    let mut st = AppState::new();
    let mut list = VmListState::new();
    select(&mut list, &vms, 0);
    key(&mut st, Key::Char('i'), &vms, &mut list);
    handle_reply(&mut st, Reply::Text(Ok(VMX.to_string())), &mut list);
    handle_reply(&mut st, Reply::Sizes(vec![Some(40)]), &mut list);
    key(&mut st, Key::Char('e'), &vms, &mut list);
    key(&mut st, Key::Char('9'), &vms, &mut list);
    key(&mut st, Key::Char('9'), &vms, &mut list);
    key(&mut st, Key::Enter, &vms, &mut list);
    assert_eq!(message(&st), "✗ 无效值。CPU 数量范围: 1-128");
    assert_eq!(st.app_mode, AppMode::Detail);
    assert!(!st.detail_state.as_ref().unwrap().dirty);
    key(&mut st, Key::Char('W'), &vms, &mut list);
    assert_eq!(st.app_mode, AppMode::Detail);
    for _ in 0..4 {
        key(&mut st, Key::Down, &vms, &mut list);
    }
    assert_eq!(st.detail_state.as_ref().unwrap().selected_row, 4);
    key(&mut st, Key::Down, &vms, &mut list);
    assert_eq!(st.detail_state.as_ref().unwrap().selected_row, 4);
    key(&mut st, Key::Char('e'), &vms, &mut list);
    assert_eq!(st.edit_state.as_ref().unwrap().buffer, "40");
    key(&mut st, Key::Enter, &vms, &mut list);
    assert_eq!(message(&st), "✗ 无效值。磁盘只能扩容，须大于当前 40GB");
    key(&mut st, Key::Char('e'), &vms, &mut list);
    key(&mut st, Key::Char('0'), &vms, &mut list);
    match key(&mut st, Key::Enter, &vms, &mut list) {
        Action::ExpandDisk { path, size_gb } => {
            assert_eq!(path, "/vms/A.vmwarevm/disk.vmdk");
            assert_eq!(size_gb, 400);
        },
        _ => panic!("the disk is grown"),
    }
    handle_reply(&mut st, Reply::Done(Ok("磁盘已扩容到 400GB".to_string())), &mut list);
    assert_eq!(message(&st), "✓ 磁盘已扩容到 400GB");

    let mut running = AppState::new();
    let mut list2 = VmListState::new();
    select(&mut list2, &vms, 1);
    key(&mut running, Key::Char('i'), &vms, &mut list2);
    handle_reply(&mut running, Reply::Text(Ok(VMX.to_string())), &mut list2);
    key(&mut running, Key::Char('e'), &vms, &mut list2);
    assert_eq!(message(&running), "✗ 虚拟机必须停止后才能编辑配置");
    assert_eq!(running.app_mode, AppMode::Detail);
}

#[test]
fn unreadable_configuration_is_reported() {
    let vms = machines();
    let mut st = AppState::new();
    let mut list = VmListState::new();
    select(&mut list, &vms, 0);
    key(&mut st, Key::Char('i'), &vms, &mut list);
    handle_reply(&mut st, Reply::Text(Err("No such file".to_string())), &mut list);
    assert_eq!(message(&st), "✗ 无法读取配置: IO 错误: No such file");
    assert_eq!(st.app_mode, AppMode::List);
}

#[test]
fn snapshots_open_create_and_delete() {
    let vms = machines();
    let mut st = AppState::new();
    let mut list = VmListState::new();
    select(&mut list, &vms, 0);
    let a = key(&mut st, Key::Char('n'), &vms, &mut list);
    assert_eq!(args(&a), vec!["listSnapshots", "/vms/A.vmwarevm/A.vmx"]);
    handle_reply(&mut st, Reply::Output(Ok("Total snapshots: 2\nbase\nnext\n".to_string())), &mut list);
    assert_eq!(st.app_mode, AppMode::Snapshot);
    assert_eq!(st.snapshot_state.as_ref().unwrap().snapshots, vec!["base", "next"]);
    key(&mut st, Key::Char('c'), &vms, &mut list);
    for c in " v3 ".chars() {
        key(&mut st, Key::Char(c), &vms, &mut list);
    }
    let a = key(&mut st, Key::Enter, &vms, &mut list);
    assert_eq!(args(&a), vec!["snapshot", "/vms/A.vmwarevm/A.vmx", "v3"]);
    let a = handle_reply(&mut st, Reply::Output(Ok(String::new())), &mut list);
    assert_eq!(message(&st), "✓ 快照 \"v3\" 已创建");
    assert_eq!(args(&a), vec!["listSnapshots", "/vms/A.vmwarevm/A.vmx"]);
    handle_reply(&mut st, Reply::Output(Ok("Total snapshots: 3\nbase\nnext\nv3\n".to_string())), &mut list);
    assert_eq!(st.snapshot_state.as_ref().unwrap().snapshots.len(), 3);
    key(&mut st, Key::Down, &vms, &mut list);
    key(&mut st, Key::Down, &vms, &mut list);
    key(&mut st, Key::Down, &vms, &mut list);
    assert_eq!(st.snapshot_state.as_ref().unwrap().selected, 2);
    key(&mut st, Key::Char('d'), &vms, &mut list);
    assert_eq!(st.app_mode, AppMode::SnapshotConfirm);
    let a = key(&mut st, Key::Char('y'), &vms, &mut list);
    assert_eq!(args(&a), vec!["deleteSnapshot", "/vms/A.vmwarevm/A.vmx", "v3"]);
    handle_reply(&mut st, Reply::Output(Ok(String::new())), &mut list);
    assert_eq!(message(&st), "✓ 快照 \"v3\" 已删除");
    handle_reply(&mut st, Reply::Output(Ok("Total snapshots: 2\nbase\nnext\n".to_string())), &mut list);
    assert_eq!(st.snapshot_state.as_ref().unwrap().selected, 1);
    key(&mut st, Key::Char('r'), &vms, &mut list);
    key(&mut st, Key::Char('y'), &vms, &mut list);
    handle_reply(&mut st, Reply::Output(Err(VmrunError::NotFound)), &mut list);
    assert_eq!(message(&st), "✗ 恢复快照失败: vmrun not found");
    key(&mut st, Key::Esc, &vms, &mut list);
    assert_eq!(st.app_mode, AppMode::List);
}

#[test]
fn clone_builds_target_path() {
    let vms = machines();
    let mut st = AppState::new();
    let mut list = VmListState::new();
    select(&mut list, &vms, 0);
    key(&mut st, Key::Char('c'), &vms, &mut list);
    assert_eq!(st.clone_input.as_ref().unwrap().buffer, "A-clone");
    key(&mut st, Key::Tab, &vms, &mut list);
    assert_eq!(st.clone_input.as_ref().unwrap().clone_type, CloneType::Linked);
    let a = key(&mut st, Key::Enter, &vms, &mut list);
    assert_eq!(
        args(&a),
        vec!["clone", "/vms/A.vmwarevm/A.vmx", "/vms/A-clone.vmwarevm/A-clone.vmx", "linked", "-cloneName=A-clone"]
    );
    assert_eq!(st.app_mode, AppMode::List);
    handle_reply(&mut st, Reply::Output(Ok(String::new())), &mut list);
    assert_eq!(message(&st), "✓ 已克隆为 \"A-clone\" (链接克隆)");
}

#[test]
fn port_forwarding_flow() {
    let vms = machines();
    let mut st = AppState::new();
    let mut list = VmListState::new();
    let a = key(&mut st, Key::Char('f'), &vms, &mut list);
    assert_eq!(args(&a), vec!["listHostNetworks"]);
    let a = handle_reply(&mut st, Reply::Output(Ok("c\nh\n0 vmnet8 nat\n".to_string())), &mut list);
    assert_eq!(args(&a), vec!["listPortForwardings", "vmnet8"]);
    handle_reply(&mut st, Reply::Output(Err(VmrunError::InvalidOutput)), &mut list);
    assert_eq!(st.app_mode, AppMode::PortForward);
    assert!(st.portfwd_state.as_ref().unwrap().rules.is_empty());
    key(&mut st, Key::Char('d'), &vms, &mut list);
    assert_eq!(st.app_mode, AppMode::PortForward);
    key(&mut st, Key::Char('a'), &vms, &mut list);
    key(&mut st, Key::Tab, &vms, &mut list);
    for c in "2222".chars() {
        key(&mut st, Key::Char(c), &vms, &mut list);
    }
    key(&mut st, Key::Tab, &vms, &mut list);
    for c in "172.16.1.2".chars() {
        key(&mut st, Key::Char(c), &vms, &mut list);
    }
    key(&mut st, Key::BackTab, &vms, &mut list);
    key(&mut st, Key::BackTab, &vms, &mut list);
    key(&mut st, Key::BackTab, &vms, &mut list);
    assert_eq!(st.portfwd_input.as_ref().unwrap().field_index, 4);
    key(&mut st, Key::Enter, &vms, &mut list);
    assert_eq!(message(&st), "✗ 请填写完整（协议 tcp/udp，端口 > 0）");
    key(&mut st, Key::Char('a'), &vms, &mut list);
    let fields = ["tcp", "2222", "172.16.1.2", "22", "ssh"];
    for (i, f) in fields.iter().enumerate() {
        if i > 0 {
            for c in f.chars() {
                key(&mut st, Key::Char(c), &vms, &mut list);
            }
        }
        key(&mut st, Key::Tab, &vms, &mut list);
    }
    let a = key(&mut st, Key::Enter, &vms, &mut list);
    assert_eq!(args(&a), vec!["setPortForwarding", "vmnet8", "tcp", "2222", "172.16.1.2", "22", "ssh"]);
    let a = handle_reply(&mut st, Reply::Output(Ok(String::new())), &mut list);
    assert_eq!(message(&st), "✓ 已添加 tcp :2222 → 172.16.1.2:22");
    assert_eq!(args(&a), vec!["listPortForwardings", "vmnet8"]);
    handle_reply(&mut st, Reply::Output(Ok("h\n[tcp] 2222 x 172.16.1.2:22 ssh\n".to_string())), &mut list);
    assert_eq!(st.portfwd_state.as_ref().unwrap().rules.len(), 1);
    key(&mut st, Key::Char('d'), &vms, &mut list);
    let a = key(&mut st, Key::Char('y'), &vms, &mut list);
    assert_eq!(args(&a), vec!["deletePortForwarding", "vmnet8", "tcp", "2222"]);
    handle_reply(&mut st, Reply::Output(Ok(String::new())), &mut list);
    assert_eq!(message(&st), "✓ 已删除 tcp :2222");
}

#[test]
fn no_nat_network_is_reported() {
    let vms = machines();
    let mut st = AppState::new();
    let mut list = VmListState::new();
    key(&mut st, Key::Char('f'), &vms, &mut list);
    handle_reply(&mut st, Reply::Output(Ok("c\nh\n0 vmnet1 hostonly\n".to_string())), &mut list);
    assert_eq!(message(&st), "✗ 未找到 NAT 网络");
    assert_eq!(st.app_mode, AppMode::List);
}

#[test]
fn shared_folders_flow() {
    let vms = machines();
    let mut st = AppState::new();
    let mut list = VmListState::new();
    select(&mut list, &vms, 1);
    key(&mut st, Key::Char('h'), &vms, &mut list);
    handle_reply(&mut st, Reply::Text(Ok("sharedFolder.maxNum = \"1\"\nsharedFolder0.present = \"TRUE\"\nsharedFolder0.guestName = \"code\"\nsharedFolder0.hostPath = \"/c\"\n".to_string())), &mut list);
    assert_eq!(st.app_mode, AppMode::SharedFolder);
    let ss = st.shared_state.as_ref().unwrap();
    assert!(ss.enabled);
    assert_eq!(ss.folders.len(), 1);
    let a = key(&mut st, Key::Char('e'), &vms, &mut list);
    assert_eq!(args(&a), vec!["disableSharedFolders", "/vms/B.vmwarevm/B.vmx", "runtime"]);
    handle_reply(&mut st, Reply::Output(Ok(String::new())), &mut list);
    assert_eq!(message(&st), "✓ 共享文件夹已禁用");
    assert!(!st.shared_state.as_ref().unwrap().enabled);
    key(&mut st, Key::Char('a'), &vms, &mut list);
    for c in "docs".chars() {
        key(&mut st, Key::Char(c), &vms, &mut list);
    }
    key(&mut st, Key::Tab, &vms, &mut list);
    for c in "/d".chars() {
        key(&mut st, Key::Char(c), &vms, &mut list);
    }
    let a = key(&mut st, Key::Enter, &vms, &mut list);
    assert_eq!(args(&a), vec!["addSharedFolder", "/vms/B.vmwarevm/B.vmx", "docs", "/d"]);
    handle_reply(&mut st, Reply::Output(Ok(String::new())), &mut list);
    assert_eq!(message(&st), "✓ 已添加共享 \"docs\"");
    assert_eq!(st.shared_state.as_ref().unwrap().folders.len(), 2);
    key(&mut st, Key::Down, &vms, &mut list);
    key(&mut st, Key::Char('d'), &vms, &mut list);
    let a = key(&mut st, Key::Char('y'), &vms, &mut list);
    assert_eq!(args(&a), vec!["removeSharedFolder", "/vms/B.vmwarevm/B.vmx", "docs"]);
    handle_reply(&mut st, Reply::Output(Ok(String::new())), &mut list);
    assert_eq!(message(&st), "✓ 已移除共享 \"docs\"");
    let ss = st.shared_state.as_ref().unwrap();
    assert_eq!(ss.folders.len(), 1);
    assert_eq!(ss.selected, 0);
    key(&mut st, Key::Char('a'), &vms, &mut list);
    key(&mut st, Key::Enter, &vms, &mut list);
    assert_eq!(message(&st), "✗ 名称和路径不能为空");
}

#[test]
fn guest_files_flow() {
    let vms = machines();
    let mut st = AppState::new();
    let mut list = VmListState::new();
    select(&mut list, &vms, 0);
    key(&mut st, Key::Char('g'), &vms, &mut list);
    assert_eq!(message(&st), "✗ 虚拟机必须运行中才能操作客户文件");
    select(&mut list, &vms, 1);
    key(&mut st, Key::Char('g'), &vms, &mut list);
    assert_eq!(st.app_mode, AppMode::GuestLogin);
    assert_eq!(st.guest_login.as_ref().unwrap().fields[0], "root");
    key(&mut st, Key::Tab, &vms, &mut list);
    for c in "pw".chars() {
        key(&mut st, Key::Char(c), &vms, &mut list);
    }
    let a = key(&mut st, Key::Enter, &vms, &mut list);
    assert_eq!(args(&a), vec!["-gu", "root", "-gp", "pw", "listDirectoryInGuest", "/vms/B.vmwarevm/B.vmx", "/"]);
    handle_reply(&mut st, Reply::Output(Ok("Directory list: 2\netc\nhome\n".to_string())), &mut list);
    assert_eq!(st.app_mode, AppMode::GuestFiles);
    key(&mut st, Key::Down, &vms, &mut list);
    let a = key(&mut st, Key::Enter, &vms, &mut list);
    assert_eq!(args(&a)[6], "/home");
    handle_reply(&mut st, Reply::Output(Ok("..\nuser\n".to_string())), &mut list);
    assert_eq!(st.guest_state.as_ref().unwrap().current_dir, "/home");
    assert_eq!(st.guest_state.as_ref().unwrap().selected, 0);
    key(&mut st, Key::Char('d'), &vms, &mut list);
    assert_eq!(st.app_mode, AppMode::GuestFiles);
    let a = key(&mut st, Key::Enter, &vms, &mut list);
    assert_eq!(args(&a)[6], "/");
    handle_reply(&mut st, Reply::Output(Err(VmrunError::InvalidOutput)), &mut list);
    assert_eq!(message(&st), "✗ 无法进入（可能是文件）");
    key(&mut st, Key::Down, &vms, &mut list);
    key(&mut st, Key::Char('o'), &vms, &mut list);
    assert_eq!(st.app_mode, AppMode::GuestFileInput);
    for c in "/tmp/u".chars() {
        key(&mut st, Key::Char(c), &vms, &mut list);
    }
    let a = key(&mut st, Key::Enter, &vms, &mut list);
    assert_eq!(args(&a), vec!["-gu", "root", "-gp", "pw", "CopyFileFromGuestToHost", "/vms/B.vmwarevm/B.vmx", "/home/user", "/tmp/u"]);
    let a = handle_reply(&mut st, Reply::Output(Ok(String::new())), &mut list);
    assert_eq!(message(&st), "✓ 已下载到 /tmp/u");
    assert_eq!(args(&a)[6], "/home");
    handle_reply(&mut st, Reply::Output(Ok("..\nuser\n".to_string())), &mut list);
    key(&mut st, Key::Char('u'), &vms, &mut list);
    for c in "/h/notes.txt".chars() {
        key(&mut st, Key::Char(c), &vms, &mut list);
    }
    let a = key(&mut st, Key::Enter, &vms, &mut list);
    assert_eq!(args(&a)[7], "/home/notes.txt");
    handle_reply(&mut st, Reply::Output(Err(VmrunError::CommandFailed("denied".to_string()))), &mut list);
    assert_eq!(message(&st), "✗ Command failed: denied");
    handle_reply(&mut st, Reply::Output(Ok("..\nuser\n".to_string())), &mut list);
    key(&mut st, Key::Char('d'), &vms, &mut list);
    assert_eq!(st.app_mode, AppMode::GuestFileConfirm);
    let a = key(&mut st, Key::Char('y'), &vms, &mut list);
    assert_eq!(args(&a), vec!["-gu", "root", "-gp", "pw", "deleteFileInGuest", "/vms/B.vmwarevm/B.vmx", "/home/user"]);
    handle_reply(&mut st, Reply::Output(Ok(String::new())), &mut list);
    assert_eq!(message(&st), "✓ 已删除 user");
    handle_reply(&mut st, Reply::Output(Ok("..\n".to_string())), &mut list);
    assert_eq!(st.guest_state.as_ref().unwrap().selected, 0);
    key(&mut st, Key::Char('q'), &vms, &mut list);
    assert_eq!(st.app_mode, AppMode::List);
}

#[test]
fn guest_login_failure_returns_to_list() {
    let vms = machines();
    let mut st = AppState::new();
    let mut list = VmListState::new();
    select(&mut list, &vms, 1);
    key(&mut st, Key::Char('g'), &vms, &mut list);
    key(&mut st, Key::Enter, &vms, &mut list);
    handle_reply(&mut st, Reply::Output(Err(VmrunError::CommandFailed("bad login".to_string()))), &mut list);
    assert_eq!(message(&st), "✗ 登录失败: Command failed: bad login");
    assert_eq!(st.app_mode, AppMode::List);
    assert!(st.guest_login.is_none());
}

#[test]
fn ssh_login_requests_a_session() {
    let vms = machines();
    let mut st = AppState::new();
    let mut list = VmListState::new();
    st.ssh_login = Some(SshLoginState {
        field_index: 0,
        fields: [String::new(), String::new()],
        ip: "172.16.1.2".to_string(),
        vm_name: "B".to_string(),
    });
    st.app_mode = AppMode::SshLogin;
    key(&mut st, Key::Enter, &vms, &mut list);
    assert_eq!(message(&st), "✗ 用户名不能为空");
    assert!(st.ssh_login.is_some());
    for c in "ops".chars() {
        key(&mut st, Key::Char(c), &vms, &mut list);
    }
    key(&mut st, Key::BackTab, &vms, &mut list);
    assert_eq!(st.ssh_login.as_ref().unwrap().field_index, 1);
    key(&mut st, Key::Enter, &vms, &mut list);
    let r = st.ssh_exec.as_ref().unwrap();
    assert_eq!(r.user, "ops");
    assert_eq!(r.ip, "172.16.1.2");
    assert_eq!(r.port, "22");
    assert_eq!(st.app_mode, AppMode::List);
    assert!(st.ssh_login.is_none());
}

#[test]
fn outcome_of_another_kind_drops_the_step() {
    let vms = machines();
    let mut st = AppState::new();
    let mut list = VmListState::new();
    assert!(matches!(handle_reply(&mut st, Reply::Sizes(vec![]), &mut list), Action::Idle));
    key(&mut st, Key::Char('f'), &vms, &mut list);
    assert!(matches!(st.pending, Some(Pending::NatNetworks)));
    assert!(matches!(handle_reply(&mut st, Reply::Text(Ok(String::new())), &mut list), Action::Idle));
    assert!(st.pending.is_none());
    assert_eq!(st.message, None);
}

#[test]
fn message_timer_starts_with_message() {
    let mut st = AppState::new();
    assert!(st.message_timer.is_none());
    st.set_message("hello".to_string());
    assert_eq!(st.message, Some("hello".to_string()));
    assert!(st.message_timer.is_some());
}

#[test]
fn ssh_command_and_outcome() {
    let req = SshExecRequest { user: "ops".to_string(), ip: "172.16.1.2".to_string(), port: "2222".to_string() };
    assert_eq!(ssh_args(&req), vec!["-p", "2222", "-o", "StrictHostKeyChecking=no", "ops@172.16.1.2"]);
    let mut st = AppState::new();
    st.ssh_finished(SshOutcome::Finished);
    assert_eq!(message(&st), "✓ SSH 会话已结束");
    st.ssh_finished(SshOutcome::Exited(255));
    assert_eq!(message(&st), "✗ SSH 退出码: 255");
    st.ssh_finished(SshOutcome::Exited(-1));
    assert_eq!(message(&st), "✗ SSH 退出码: -1");
    st.ssh_finished(SshOutcome::Failed("not found".to_string()));
    assert_eq!(message(&st), "✗ SSH 启动失败: not found");
    assert!(st.message_timer.is_some());
}

#[test]
fn message_expires_after_three_seconds() {
    let mut st = AppState::new();
    st.set_message("hello".to_string());
    st.expire_message(Some(3_000_000_000));
    assert_eq!(message(&st), "hello");
    st.expire_message(None);
    assert_eq!(message(&st), "hello");
    st.expire_message(Some(3_000_000_001));
    assert_eq!(st.message, None);
    assert!(st.message_timer.is_none());
    st.message = Some("kept".to_string());
    st.expire_message(Some(9_000_000_000));
    assert_eq!(message(&st), "kept");
}
