//! Laws of the keys that edit settings, add port forwarding rules and run
//! power operations.
use vstd::prelude::*;
use crate::text::{dec, trim};
use crate::ui::state::{EditField, VmListState};
use crate::vm::Vm;
use crate::vmrun::strs;
use crate::vmx::set_spec;
use super::detail::{editing_key_spec, typed_value};
use super::list::list_key_spec;
use super::portfwd::{portfwd_input_spec, typed_port};
use super::{runs, Action, AppState, Key, Pending, VmOp};

verus! {

/// Enter on a CPU or memory edit accepts exactly the values in range: 1 to
/// 128 CPUs, 128 to 1048576 MB of memory. An accepted value is written to
/// `numvcpus` or `memsize` as typed and the view is marked changed; a
/// refused one leaves the detail view as it was. A disk can only grow: a
/// size above its current one (0 when unknown) and at most 65536 GB grows
/// that disk to the size typed.
pub proof fn law_edit_ranges(a: AppState, b: AppState, act: Action)
    requires
        editing_key_spec(a, b, Key::Enter, act),
        a.edit_state is Some,
        a.detail_state is Some,
    ensures
        ({
            let es = a.edit_state->0;
            let ds = a.detail_state->0;
            let v = typed_value(es.buffer@);
            &&& es.field == EditField::MemoryMb ==> ((128 <= v && v <= 1048576) == act is ReadDiskSizes)
            &&& es.field == EditField::CpuCount ==> ((1 <= v && v <= 128) == act is ReadDiskSizes)
            &&& es.field == EditField::MemoryMb && 128 <= v && v <= 1048576 ==> (b.detail_state matches Some(d)
                && d.vmx_file@ == set_spec(ds.vmx_file@, "memsize"@, es.buffer@) && d.dirty)
            &&& es.field == EditField::CpuCount && 1 <= v && v <= 128 ==> (b.detail_state matches Some(d)
                && d.vmx_file@ == set_spec(ds.vmx_file@, "numvcpus"@, es.buffer@) && d.dirty)
            &&& (es.field == EditField::MemoryMb && !(128 <= v && v <= 1048576)) ==> (act is Idle
                && b.detail_state == a.detail_state)
            &&& (es.field == EditField::CpuCount && !(1 <= v && v <= 128)) ==> (act is Idle
                && b.detail_state == a.detail_state)
            &&& es.field matches EditField::DiskSize(idx) ==> {
                let ok = idx < ds.config.disks@.len() && v > match ds.config.disks@[idx as int].size_gb {
                    Some(g) => g as int,
                    None => 0,
                } && v <= 65536;
                &&& (act is ExpandDisk) == ok
                &&& ok ==> (act matches Action::ExpandDisk { path, size_gb } && size_gb == v
                    && path@ == ds.config.disks@[idx as int].full_path@)
                &&& !ok ==> b.detail_state == a.detail_state
            }
        }),
{
}

/// Enter on the rule input adds the rule exactly when it is complete: the
/// protocol is `tcp` or `udp`, both ports are above 0 and the guest IP is
/// not empty. An added rule runs `setPortForwarding` on the view's network
/// with the protocol, ports, guest IP and description as typed (trimmed).
pub proof fn law_portfwd_add(a: AppState, b: AppState, act: Action)
    requires
        portfwd_input_spec(a, b, Key::Enter, act),
        a.portfwd_input is Some,
        a.portfwd_state is Some,
    ensures
        ({
            let f = a.portfwd_input->0.fields@;
            let protocol = trim(f[0]@);
            let complete = (protocol == "tcp"@ || protocol == "udp"@) && typed_port(f[1]@) > 0
                && trim(f[2]@).len() > 0 && typed_port(f[3]@) > 0;
            &&& (act is Vmrun) == complete
            &&& act matches Action::Vmrun(v) ==> {
                let args = strs(v);
                &&& args.len() == 7
                &&& args[0] == "setPortForwarding"@
                &&& args[1] == a.portfwd_state->0.network@
                &&& args[2] == protocol
                &&& args[3] == dec(typed_port(f[1]@) as nat)
                &&& args[4] == trim(f[2]@)
                &&& args[5] == dec(typed_port(f[3]@) as nat)
                &&& args[6] == trim(f[4]@)
            }
        }),
{
}

/// With a machine selected on the list, each power key runs `vmrun` on it
/// with its own command: Enter `start <path> nogui`, `x` `stop <path>`,
/// `p` `suspend <path>` and `r` `start <path>`, and the operation is
/// remembered for the reply.
pub proof fn law_power_keys(
    a: AppState,
    b: AppState,
    key: Key,
    vms: Vec<Vm>,
    la: VmListState,
    lb: VmListState,
    vmrest_running: bool,
    act: Action,
)
    requires
        list_key_spec(a, b, key, vms, la, lb, vmrest_running, act),
        la.selected_vmx is Some,
    ensures
        ({
            let p = la.selected_vmx->0@;
            &&& key == Key::Enter ==> runs(act, seq!["start"@, p, "nogui"@])
            &&& key == Key::Char('x') ==> runs(act, seq!["stop"@, p])
            &&& key == Key::Char('p') ==> runs(act, seq!["suspend"@, p])
            &&& key == Key::Char('r') ==> runs(act, seq!["start"@, p])
            &&& key == Key::Enter ==> (b.pending matches Some(Pending::Operation { op, vmx_path })
                && op == VmOp::Start && vmx_path@ == p)
            &&& key == Key::Char('x') ==> (b.pending matches Some(Pending::Operation { op, vmx_path })
                && op == VmOp::Stop && vmx_path@ == p)
            &&& key == Key::Char('p') ==> (b.pending matches Some(Pending::Operation { op, vmx_path })
                && op == VmOp::Suspend && vmx_path@ == p)
            &&& key == Key::Char('r') ==> (b.pending matches Some(Pending::Operation { op, vmx_path })
                && op == VmOp::Resume && vmx_path@ == p)
        }),
{
}

} // verus!
