//! Keys on the machine list and in the machine deletion dialog, and the
//! outcomes of what they start.
use vstd::prelude::*;
use crate::text::{join2, owned};
use crate::ui::state::{AppMode, CloneInputState, CloneType, GuestLoginState, VmListState};
use crate::vm::{Vm, VmState};
use crate::vmrun::{strs, Vmrun, VmrunError};
use super::{
    cleared, failure, only_said, reads, runs, same_except, vm_name_at, vm_name_of, vm_state_at,
    vm_state_of, Action, AppState, Key, Part, Pending, VmOp,
};

verus! {

/// The row a move down selects: the next one, but not past the last
/// machine; the first when none is selected.
pub open spec fn row_below(sel: Option<usize>, len: nat) -> int {
    let last: int = if len == 0 {
        0
    } else {
        len - 1
    };
    match sel {
        Some(i) => if i + 1 <= last {
            i + 1
        } else {
            last
        },
        None => 0,
    }
}

/// The row a move up selects: the previous one, but not before the first;
/// the first when none is selected.
pub open spec fn row_above(sel: Option<usize>) -> int {
    match sel {
        Some(i) => if i == 0 {
            0
        } else {
            i - 1
        },
        None => 0,
    }
}

/// Moving through a non-empty list never leaves it: a move down selects a
/// row of the list, and a move up from a row of the list does too.
pub proof fn law_list_moves_stay_in_list(sel: Option<usize>, len: nat)
    requires
        len > 0,
    ensures
        0 <= row_below(sel, len) < len,
        (sel matches Some(i) && i < len) ==> 0 <= row_above(sel) < len,
{
}

/// `lb` is `la` after selecting row `r` of `vms`: the row is selected, and
/// so is its machine's path when the row exists.
pub open spec fn selected_row(la: VmListState, lb: VmListState, vms: Vec<Vm>, r: int) -> bool {
    &&& lb.selected == Some(r as usize)
    &&& if r < vms@.len() {
        lb.selected_vmx matches Some(p) && p@ == vms@[r].vmx_path@
    } else {
        lb.selected_vmx == la.selected_vmx
    }
}

/// The `vmrun` arguments of a power operation.
pub open spec fn op_args(op: VmOp, path: Seq<char>) -> Seq<Seq<char>> {
    match op {
        VmOp::Start => seq!["start"@, path, "nogui"@],
        VmOp::Stop => seq!["stop"@, path],
        VmOp::Suspend => seq!["suspend"@, path],
        VmOp::Resume => seq!["start"@, path],
    }
}

/// The power operation a key asks for on the list.
pub open spec fn key_op(key: Key) -> Option<VmOp> {
    if key == Key::Enter {
        Some(VmOp::Start)
    } else if key == Key::Char('x') {
        Some(VmOp::Stop)
    } else if key == Key::Char('p') {
        Some(VmOp::Suspend)
    } else if key == Key::Char('r') {
        Some(VmOp::Resume)
    } else {
        None
    }
}

/// What a key on the list does when the machine at `p` is selected (keys
/// that need no selection excepted).
pub open spec fn selected_key_spec(
    a: AppState,
    b: AppState,
    key: Key,
    vms: Vec<Vm>,
    p: Seq<char>,
    act: Action,
) -> bool {
    let name = vm_name_at(vms, p);
    if key == Key::Char('i') {
        &&& reads(act, p)
        &&& b.pending matches Some(Pending::OpenDetail { vmx_path, vm_name }) && vmx_path@ == p
            && vm_name@ == name
        &&& same_except(a, b, set![Part::Pending])
    } else if key == Key::Char('n') {
        &&& runs(act, seq!["listSnapshots"@, p])
        &&& b.pending matches Some(Pending::OpenSnapshots { vmx_path, vm_name }) && vmx_path@ == p
            && vm_name@ == name
        &&& same_except(a, b, set![Part::Pending])
    } else if key == Key::Char('c') {
        &&& act is Idle
        &&& b.app_mode == AppMode::CloneInput
        &&& b.clone_input matches Some(ci) && ci.buffer@ == name + "-clone"@ && ci.source_vmx@ == p
            && ci.source_name@ == name && ci.clone_type == CloneType::Full
        &&& cleared(a, b, set![Part::Mode, Part::CloneInput])
    } else if key == Key::Char('D') {
        &&& act is Idle
        &&& if vm_state_at(vms, p) == Some(VmState::Stopped) {
            b.app_mode == AppMode::DeleteConfirm && cleared(a, b, set![Part::Mode])
        } else {
            only_said(a, b, "✗ 虚拟机必须停止后才能删除"@)
        }
    } else if key == Key::Char('h') {
        &&& reads(act, p)
        &&& b.pending matches Some(Pending::OpenShared { vmx_path, vm_name }) && vmx_path@ == p
            && vm_name@ == name
        &&& same_except(a, b, set![Part::Pending])
    } else if key == Key::Char('g') {
        &&& act is Idle
        &&& if vm_state_at(vms, p) == Some(VmState::Running) {
            &&& b.app_mode == AppMode::GuestLogin
            &&& b.guest_login matches Some(g) && g.field_index == 0 && g.fields@[0]@ == "root"@
                && g.fields@[1]@ == Seq::<char>::empty() && g.vmx_path@ == p && g.vm_name@ == name
            &&& cleared(a, b, set![Part::Mode, Part::GuestLogin])
        } else {
            only_said(a, b, "✗ 虚拟机必须运行中才能操作客户文件"@)
        }
    } else {
        match key_op(key) {
            Some(op) => {
                &&& runs(act, op_args(op, p))
                &&& b.pending matches Some(Pending::Operation { op: o, vmx_path }) && o == op
                    && vmx_path@ == p
                &&& same_except(a, b, set![Part::Pending])
            },
            None => b == a && act is Idle,
        }
    }
}

/// What a key does on the machine list.
pub open spec fn list_key_spec(
    a: AppState,
    b: AppState,
    key: Key,
    vms: Vec<Vm>,
    la: VmListState,
    lb: VmListState,
    vmrest_running: bool,
    act: Action,
) -> bool {
    if key == Key::Down || key == Key::Char('s') {
        selected_row(la, lb, vms, row_below(la.selected, vms@.len())) && cleared(a, b, set![])
            && act is Idle
    } else if key == Key::Up || key == Key::Char('w') {
        selected_row(la, lb, vms, row_above(la.selected)) && cleared(a, b, set![]) && act is Idle
    } else {
        &&& lb == la
        &&& if key == Key::Char('q') || key == Key::Esc {
            b == a && act is Quit
        } else if key == Key::Char('R') {
            &&& same_except(a, b, set![Part::Pending])
            &&& if vmrest_running {
                act is StopVmrest && b.pending matches Some(Pending::VmrestStopped)
            } else {
                act is StartVmrest && b.pending matches Some(Pending::VmrestStarted)
            }
        } else if key == Key::Char('f') {
            &&& runs(act, seq!["listHostNetworks"@])
            &&& b.pending matches Some(Pending::NatNetworks)
            &&& same_except(a, b, set![Part::Pending])
        } else {
            match la.selected_vmx {
                Some(p) => selected_key_spec(a, b, key, vms, p@, act),
                None => b == a && act is Idle,
            }
        }
    }
}

/// The arguments of a power operation.
fn op_command(op: VmOp, path: &str) -> (res: Vec<String>)
    ensures
        strs(res) == op_args(op, path@),
{
    match op {
        VmOp::Start => Vmrun::start(path),
        VmOp::Stop => Vmrun::stop(path),
        VmOp::Suspend => Vmrun::suspend(path),
        VmOp::Resume => Vmrun::resume(path),
    }
}

/// Handles a key on the machine list.
pub fn handle_list_event(
    state: &mut AppState,
    key: Key,
    vms: &Vec<Vm>,
    list_state: &mut VmListState,
    vmrest_running: bool,
) -> (act: Action)
    ensures
        list_key_spec(
            *old(state),
            *final(state),
            key,
            *vms,
            *old(list_state),
            *final(list_state),
            vmrest_running,
            act,
        ),
{
    if key == Key::Down || key == Key::Char('s') {
        let last: usize = if vms.len() == 0 {
            0
        } else {
            vms.len() - 1
        };
        let new_index: usize = match list_state.selected {
            Some(i) => if i < last {
                i + 1
            } else {
                last
            },
            None => 0,
        };
        list_state.with_selection(vms, Some(new_index));
        state.message = None;
        return Action::Idle;
    }
    if key == Key::Up || key == Key::Char('w') {
        let new_index: usize = match list_state.selected {
            Some(i) => if i == 0 {
                0
            } else {
                i - 1
            },
            None => 0,
        };
        list_state.with_selection(vms, Some(new_index));
        state.message = None;
        return Action::Idle;
    }
    if key == Key::Char('q') || key == Key::Esc {
        return Action::Quit;
    }
    if key == Key::Char('R') {
        if vmrest_running {
            state.pending = Some(Pending::VmrestStopped);
            return Action::StopVmrest;
        } else {
            state.pending = Some(Pending::VmrestStarted);
            return Action::StartVmrest;
        }
    }
    if key == Key::Char('f') {
        state.pending = Some(Pending::NatNetworks);
        return Action::Vmrun(Vmrun::list_nat_networks_args());
    }
    let p = match &list_state.selected_vmx {
        Some(p) => owned(p.as_str()),
        None => {
            return Action::Idle;
        },
    };
    if key == Key::Char('i') {
        let vm_name = vm_name_of(vms, p.as_str());
        let path = owned(p.as_str());
        state.pending = Some(Pending::OpenDetail { vmx_path: p, vm_name });
        Action::ReadFile(path)
    } else if key == Key::Char('n') {
        let vm_name = vm_name_of(vms, p.as_str());
        let args = Vmrun::list_snapshots_args(p.as_str());
        state.pending = Some(Pending::OpenSnapshots { vmx_path: p, vm_name });
        Action::Vmrun(args)
    } else if key == Key::Char('c') {
        let vm_name = vm_name_of(vms, p.as_str());
        let buffer = join2(vm_name.as_str(), "-clone");
        state.clone_input = Some(
            CloneInputState {
                buffer,
                source_vmx: p,
                source_name: vm_name,
                clone_type: CloneType::Full,
            },
        );
        state.app_mode = AppMode::CloneInput;
        state.message = None;
        Action::Idle
    } else if key == Key::Char('D') {
        if vm_state_of(vms, p.as_str()) == Some(VmState::Stopped) {
            state.app_mode = AppMode::DeleteConfirm;
            state.message = None;
        } else {
            state.set_message(owned("✗ 虚拟机必须停止后才能删除"));
        }
        Action::Idle
    } else if key == Key::Char('h') {
        let vm_name = vm_name_of(vms, p.as_str());
        let path = owned(p.as_str());
        state.pending = Some(Pending::OpenShared { vmx_path: p, vm_name });
        Action::ReadFile(path)
    } else if key == Key::Char('g') {
        if vm_state_of(vms, p.as_str()) == Some(VmState::Running) {
            let vm_name = vm_name_of(vms, p.as_str());
            state.guest_login = Some(
                GuestLoginState {
                    field_index: 0,
                    fields: [owned("root"), String::new()],
                    vmx_path: p,
                    vm_name,
                },
            );
            state.app_mode = AppMode::GuestLogin;
            state.message = None;
        } else {
            state.set_message(owned("✗ 虚拟机必须运行中才能操作客户文件"));
        }
        Action::Idle
    } else {
        let op = if key == Key::Enter {
            VmOp::Start
        } else if key == Key::Char('x') {
            VmOp::Stop
        } else if key == Key::Char('p') {
            VmOp::Suspend
        } else if key == Key::Char('r') {
            VmOp::Resume
        } else {
            return Action::Idle;
        };
        let args = op_command(op, p.as_str());
        state.pending = Some(Pending::Operation { op, vmx_path: p });
        Action::Vmrun(args)
    }
}

/// What a key does in the machine deletion dialog.
pub open spec fn delete_confirm_spec(
    a: AppState,
    b: AppState,
    key: Key,
    vms: Vec<Vm>,
    la: VmListState,
    lb: VmListState,
    act: Action,
) -> bool {
    &&& lb == la
    &&& if key == Key::Char('y') {
        &&& b.app_mode == AppMode::List
        &&& match la.selected_vmx {
            Some(p) => {
                &&& runs(act, seq!["deleteVM"@, p@])
                &&& b.pending matches Some(Pending::VmDeleted { vm_name }) && vm_name@ == vm_name_at(
                    vms,
                    p@,
                )
                &&& same_except(a, b, set![Part::Mode, Part::Pending])
            },
            None => act is Idle && same_except(a, b, set![Part::Mode]),
        }
    } else if key == Key::Char('n') || key == Key::Esc {
        act is Idle && b.app_mode == AppMode::List && same_except(a, b, set![Part::Mode])
    } else {
        b == a && act is Idle
    }
}

/// Handles a key in the machine deletion dialog.
pub fn handle_delete_confirm_event(
    state: &mut AppState,
    key: Key,
    vms: &Vec<Vm>,
    list_state: &mut VmListState,
) -> (act: Action)
    ensures
        delete_confirm_spec(
            *old(state),
            *final(state),
            key,
            *vms,
            *old(list_state),
            *final(list_state),
            act,
        ),
{
    if key == Key::Char('y') {
        state.app_mode = AppMode::List;
        match &list_state.selected_vmx {
            Some(p) => {
                let vm_name = vm_name_of(vms, p.as_str());
                state.pending = Some(Pending::VmDeleted { vm_name });
                Action::Vmrun(Vmrun::delete_vm(p.as_str()))
            },
            None => Action::Idle,
        }
    } else if key == Key::Char('n') || key == Key::Esc {
        state.app_mode = AppMode::List;
        Action::Idle
    } else {
        Action::Idle
    }
}

/// The message shown when a power operation succeeded.
pub open spec fn op_done_text(op: VmOp) -> Seq<char> {
    match op {
        VmOp::Start => "✓ 虚拟机已启动"@,
        VmOp::Stop => "✓ 虚拟机已停止"@,
        VmOp::Suspend => "✓ 虚拟机已挂起"@,
        VmOp::Resume => "✓ 虚拟机已继续运行"@,
    }
}

/// After a power operation: its message, and on success a refresh of the
/// machine's state.
pub open spec fn operation_done_spec(
    a: AppState,
    b: AppState,
    op: VmOp,
    path: Seq<char>,
    out: Result<String, VmrunError>,
    act: Action,
) -> bool {
    &&& b.pending is None
    &&& match out {
        Ok(_) => {
            &&& act matches Action::RefreshVmState(p) && p@ == path
            &&& only_said(a, b, op_done_text(op))
        },
        Err(e) => act is Idle && only_said(a, b, "✗ "@ + e.message_spec()),
    }
}

/// Completes a power operation.
pub fn operation_done(state: &mut AppState, op: VmOp, path: String, out: Result<String, VmrunError>) -> (act: Action)
    requires
        old(state).pending is None,
    ensures
        operation_done_spec(*old(state), *final(state), op, path@, out, act),
{
    match out {
        Ok(_) => {
            let m = match op {
                VmOp::Start => "✓ 虚拟机已启动",
                VmOp::Stop => "✓ 虚拟机已停止",
                VmOp::Suspend => "✓ 虚拟机已挂起",
                VmOp::Resume => "✓ 虚拟机已继续运行",
            };
            state.set_message(owned(m));
            Action::RefreshVmState(path)
        },
        Err(e) => {
            state.set_message(failure("✗ ", &e));
            Action::Idle
        },
    }
}

/// After the REST service was started or stopped: the message of what
/// happened.
pub open spec fn vmrest_done_spec(a: AppState, b: AppState, started: bool, r: Result<String, String>) -> bool {
    &&& b.pending is None
    &&& match r {
        Ok(_) => only_said(
            a,
            b,
            if started {
                "✓ vmrest 服务已启动"@
            } else {
                "✓ vmrest 服务已停止"@
            },
        ),
        Err(e) => only_said(a, b, "✗ "@ + e@),
    }
}

/// Completes a start or stop of the REST service.
pub fn vmrest_done(state: &mut AppState, started: bool, r: Result<String, String>)
    requires
        old(state).pending is None,
    ensures
        vmrest_done_spec(*old(state), *final(state), started, r),
{
    match r {
        Ok(_) => {
            if started {
                state.set_message(owned("✓ vmrest 服务已启动"));
            } else {
                state.set_message(owned("✓ vmrest 服务已停止"));
            }
        },
        Err(e) => {
            state.set_message(join2("✗ ", e.as_str()));
        },
    }
}

/// After a machine deletion: the message, and on success no selection.
pub open spec fn vm_deleted_spec(
    a: AppState,
    b: AppState,
    name: Seq<char>,
    out: Result<String, VmrunError>,
    la: VmListState,
    lb: VmListState,
) -> bool {
    &&& b.pending is None
    &&& match out {
        Ok(_) => {
            &&& only_said(a, b, "✓ 虚拟机 \""@ + name + "\" 已删除"@)
            &&& lb.selected is None
            &&& lb.selected_vmx is None
        },
        Err(e) => only_said(a, b, "✗ 删除失败: "@ + e.message_spec()) && lb == la,
    }
}

/// Completes a machine deletion.
pub fn vm_deleted(
    state: &mut AppState,
    vm_name: String,
    out: Result<String, VmrunError>,
    list_state: &mut VmListState,
)
    requires
        old(state).pending is None,
    ensures
        vm_deleted_spec(*old(state), *final(state), vm_name@, out, *old(list_state), *final(list_state)),
{
    match out {
        Ok(_) => {
            state.set_message(super::framed("✓ 虚拟机 \"", vm_name.as_str(), "\" 已删除"));
            let none: Vec<Vm> = Vec::new();
            list_state.with_selection(&none, None);
        },
        Err(e) => {
            state.set_message(failure("✗ 删除失败: ", &e));
        },
    }
}

} // verus!
