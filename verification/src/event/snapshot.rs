//! Keys in the snapshot view, its name input and its confirmation dialog,
//! and the outcomes of the snapshot commands.
use vstd::prelude::*;
use crate::text::{
    byte_len, byte_len_of, chars_of, lines_spec, owned, pop_char, push_char, skip_n, string_of,
    trim, trim_chars,
};
use crate::ui::state::{AppMode, SnapshotAction, SnapshotInputState, SnapshotState};
use crate::vmrun::snapshot::snapshot_line;
use crate::vmrun::{collect, strs, Vmrun, VmrunError};
use super::{
    kept_in,
    cleared, failure, framed, only_said, runs, same_except, said, Action, AppState, Key, Part,
    Pending,
};

verus! {

/// The snapshot names in what `vmrun listSnapshots` printed.
pub open spec fn snapshot_names(out: Seq<char>) -> Seq<Seq<char>> {
    collect(skip_n(lines_spec(out), 1), |l: Seq<char>| snapshot_line(l))
}

/// `s` is `ss` with the selection `sel`.
pub open spec fn snapshot_moved(ss: SnapshotState, s: SnapshotState, sel: usize) -> bool {
    &&& s.selected == sel
    &&& s.snapshots == ss.snapshots
    &&& s.vm_name == ss.vm_name
    &&& s.vmx_path == ss.vmx_path
}

/// What a key does in the snapshot view.
pub open spec fn snapshot_key_spec(a: AppState, b: AppState, key: Key, act: Action) -> bool {
    &&& act is Idle
    &&& if key == Key::Esc || key == Key::Char('n') {
        b.app_mode == AppMode::List && b.snapshot_state is None && cleared(
            a,
            b,
            set![Part::Mode, Part::Snapshot],
        )
    } else if key == Key::Down || key == Key::Char('s') {
        &&& same_except(a, b, set![Part::Snapshot])
        &&& match a.snapshot_state {
            Some(ss) => b.snapshot_state matches Some(s) && snapshot_moved(
                ss,
                s,
                if ss.selected + 1 < ss.snapshots@.len() {
                    (ss.selected + 1) as usize
                } else {
                    ss.selected
                },
            ),
            None => b.snapshot_state is None,
        }
    } else if key == Key::Up || key == Key::Char('w') {
        &&& same_except(a, b, set![Part::Snapshot])
        &&& match a.snapshot_state {
            Some(ss) => b.snapshot_state matches Some(s) && snapshot_moved(
                ss,
                s,
                if ss.selected > 0 {
                    (ss.selected - 1) as usize
                } else {
                    ss.selected
                },
            ),
            None => b.snapshot_state is None,
        }
    } else if key == Key::Char('c') {
        &&& b.snapshot_input matches Some(si) && si.buffer@ == Seq::<char>::empty()
        &&& b.app_mode == AppMode::SnapshotInput
        &&& cleared(a, b, set![Part::Mode, Part::SnapshotInput])
    } else if key == Key::Char('d') || key == Key::Char('r') {
        match a.snapshot_state {
            Some(ss) => if ss.selected < ss.snapshots@.len() {
                let name = ss.snapshots@[ss.selected as int]@;
                &&& b.app_mode == AppMode::SnapshotConfirm
                &&& if key == Key::Char('d') {
                    b.snapshot_action matches Some(SnapshotAction::Delete(n)) && n@ == name
                } else {
                    b.snapshot_action matches Some(SnapshotAction::Revert(n)) && n@ == name
                }
                &&& same_except(a, b, set![Part::Mode, Part::SnapshotAction])
            } else {
                b == a
            },
            None => b == a,
        }
    } else {
        b == a
    }
}

/// Handles a key in the snapshot view.
pub fn handle_snapshot_event(state: &mut AppState, key: Key) -> (act: Action)
    ensures
        snapshot_key_spec(*old(state), *final(state), key, act),
{
    if key == Key::Esc || key == Key::Char('n') {
        state.app_mode = AppMode::List;
        state.snapshot_state = None;
        state.message = None;
    } else if key == Key::Down || key == Key::Char('s') {
        match &mut state.snapshot_state {
            Some(ss) => {
                if ss.selected < ss.snapshots.len() && ss.selected + 1 < ss.snapshots.len() {
                    ss.selected = ss.selected + 1;
                }
            },
            None => {},
        }
    } else if key == Key::Up || key == Key::Char('w') {
        match &mut state.snapshot_state {
            Some(ss) => {
                if ss.selected > 0 {
                    ss.selected = ss.selected - 1;
                }
            },
            None => {},
        }
    } else if key == Key::Char('c') {
        state.snapshot_input = Some(SnapshotInputState { buffer: String::new() });
        state.app_mode = AppMode::SnapshotInput;
        state.message = None;
    } else if key == Key::Char('d') || key == Key::Char('r') {
        let chosen = match &state.snapshot_state {
            Some(ss) => if ss.selected < ss.snapshots.len() {
                Some(owned(ss.snapshots[ss.selected].as_str()))
            } else {
                None
            },
            None => None,
        };
        match chosen {
            Some(name) => {
                if key == Key::Char('d') {
                    state.snapshot_action = Some(SnapshotAction::Delete(name));
                } else {
                    state.snapshot_action = Some(SnapshotAction::Revert(name));
                }
                state.app_mode = AppMode::SnapshotConfirm;
            },
            None => {},
        }
    }
    Action::Idle
}

/// What a key does while a snapshot name is typed.
pub open spec fn snapshot_input_spec(a: AppState, b: AppState, key: Key, act: Action) -> bool {
    if key == Key::Esc {
        act is Idle && b.snapshot_input is None && b.app_mode == AppMode::Snapshot && same_except(
            a,
            b,
            set![Part::Mode, Part::SnapshotInput],
        )
    } else if key == Key::Enter {
        &&& b.snapshot_input is None
        &&& b.app_mode == AppMode::Snapshot
        &&& match (a.snapshot_input, a.snapshot_state) {
            (Some(si), Some(ss)) => if trim(si.buffer@).len() > 0 {
                &&& runs(act, seq!["snapshot"@, ss.vmx_path@, trim(si.buffer@)])
                &&& b.pending matches Some(Pending::SnapshotCreated { name }) && name@ == trim(
                    si.buffer@,
                )
                &&& same_except(a, b, set![Part::Mode, Part::SnapshotInput, Part::Pending])
            } else {
                act is Idle && same_except(a, b, set![Part::Mode, Part::SnapshotInput])
            },
            _ => act is Idle && same_except(a, b, set![Part::Mode, Part::SnapshotInput]),
        }
    } else if key == Key::Backspace {
        &&& act is Idle
        &&& same_except(a, b, set![Part::SnapshotInput])
        &&& match a.snapshot_input {
            Some(si) => b.snapshot_input matches Some(s2) && s2.buffer@ == if si.buffer@.len()
                > 0 {
                si.buffer@.drop_last()
            } else {
                si.buffer@
            },
            None => b.snapshot_input is None,
        }
    } else if key is Char {
        &&& act is Idle
        &&& same_except(a, b, set![Part::SnapshotInput])
        &&& match a.snapshot_input {
            Some(si) => b.snapshot_input matches Some(s2) && s2.buffer@ == if byte_len(si.buffer@)
                < 64 {
                si.buffer@.push(key->0)
            } else {
                si.buffer@
            },
            None => b.snapshot_input is None,
        }
    } else {
        b == a && act is Idle
    }
}

/// Handles a key while a snapshot name is typed.
pub fn handle_snapshot_input_event(state: &mut AppState, key: Key) -> (act: Action)
    ensures
        snapshot_input_spec(*old(state), *final(state), key, act),
{
    match key {
        Key::Esc => {
            state.snapshot_input = None;
            state.app_mode = AppMode::Snapshot;
            Action::Idle
        },
        Key::Enter => {
            let mut act = Action::Idle;
            match (&state.snapshot_input, &state.snapshot_state) {
                (Some(si), Some(ss)) => {
                    let name = string_of(&trim_chars(&chars_of(si.buffer.as_str())));
                    if !name.as_str().is_empty() {
                        act = Action::Vmrun(Vmrun::create_snapshot(ss.vmx_path.as_str(), name.as_str()));
                        state.pending = Some(Pending::SnapshotCreated { name });
                    }
                },
                _ => {},
            }
            state.snapshot_input = None;
            state.app_mode = AppMode::Snapshot;
            act
        },
        Key::Backspace => {
            match &mut state.snapshot_input {
                Some(si) => {
                    pop_char(&mut si.buffer);
                },
                None => {},
            }
            Action::Idle
        },
        Key::Char(c) => {
            match &mut state.snapshot_input {
                Some(si) => {
                    if byte_len_of(si.buffer.as_str()) < 64 {
                        push_char(&mut si.buffer, c);
                    }
                },
                None => {},
            }
            Action::Idle
        },
        _ => Action::Idle,
    }
}

/// What a key does in the snapshot confirmation dialog.
pub open spec fn snapshot_confirm_spec(a: AppState, b: AppState, key: Key, act: Action) -> bool {
    if key == Key::Char('y') {
        &&& b.snapshot_action is None
        &&& b.app_mode == AppMode::Snapshot
        &&& match (a.snapshot_action, a.snapshot_state) {
            (Some(SnapshotAction::Delete(name)), Some(ss)) => {
                &&& runs(act, seq!["deleteSnapshot"@, ss.vmx_path@, name@])
                &&& b.pending matches Some(Pending::SnapshotDeleted { name: n }) && n@ == name@
                &&& same_except(a, b, set![Part::Mode, Part::SnapshotAction, Part::Pending])
            },
            (Some(SnapshotAction::Revert(name)), Some(ss)) => {
                &&& runs(act, seq!["revertToSnapshot"@, ss.vmx_path@, name@])
                &&& b.pending matches Some(Pending::SnapshotReverted { name: n }) && n@ == name@
                &&& same_except(a, b, set![Part::Mode, Part::SnapshotAction, Part::Pending])
            },
            _ => act is Idle && same_except(a, b, set![Part::Mode, Part::SnapshotAction]),
        }
    } else if key == Key::Char('n') || key == Key::Esc {
        act is Idle && b.snapshot_action is None && b.app_mode == AppMode::Snapshot && same_except(
            a,
            b,
            set![Part::Mode, Part::SnapshotAction],
        )
    } else {
        b == a && act is Idle
    }
}

/// Handles a key in the snapshot confirmation dialog.
pub fn handle_snapshot_confirm_event(state: &mut AppState, key: Key) -> (act: Action)
    ensures
        snapshot_confirm_spec(*old(state), *final(state), key, act),
{
    if key == Key::Char('y') {
        let mut act = Action::Idle;
        match (&state.snapshot_action, &state.snapshot_state) {
            (Some(SnapshotAction::Delete(name)), Some(ss)) => {
                act = Action::Vmrun(Vmrun::delete_snapshot(ss.vmx_path.as_str(), name.as_str()));
                state.pending = Some(Pending::SnapshotDeleted { name: owned(name.as_str()) });
            },
            (Some(SnapshotAction::Revert(name)), Some(ss)) => {
                act = Action::Vmrun(Vmrun::revert_to_snapshot(ss.vmx_path.as_str(), name.as_str()));
                state.pending = Some(Pending::SnapshotReverted { name: owned(name.as_str()) });
            },
            _ => {},
        }
        state.snapshot_action = None;
        state.app_mode = AppMode::Snapshot;
        act
    } else if key == Key::Char('n') || key == Key::Esc {
        state.snapshot_action = None;
        state.app_mode = AppMode::Snapshot;
        Action::Idle
    } else {
        Action::Idle
    }
}

/// After the snapshot list was read for the snapshot view: the view opens
/// on it; or the error is shown.
pub open spec fn snapshots_opened_spec(
    a: AppState,
    b: AppState,
    vmx_path: Seq<char>,
    vm_name: Seq<char>,
    out: Result<String, VmrunError>,
) -> bool {
    &&& b.pending is None
    &&& match out {
        Ok(o) => {
            &&& b.snapshot_state matches Some(ss) && strs(ss.snapshots) == snapshot_names(o@)
                && ss.selected == 0 && ss.vm_name@ == vm_name && ss.vmx_path@ == vmx_path
            &&& b.app_mode == AppMode::Snapshot
            &&& cleared(a, b, set![Part::Snapshot, Part::Mode])
        },
        Err(e) => only_said(a, b, "✗ 获取快照列表失败: "@ + e.message_spec()),
    }
}

/// Opens the snapshot view on the list read.
pub fn snapshots_opened(state: &mut AppState, vmx_path: String, vm_name: String, out: Result<String, VmrunError>)
    requires
        old(state).pending is None,
    ensures
        snapshots_opened_spec(*old(state), *final(state), vmx_path@, vm_name@, out),
{
    match out {
        Ok(o) => {
            let snapshots = Vmrun::list_snapshots(o.as_str());
            state.snapshot_state = Some(SnapshotState { snapshots, selected: 0, vm_name, vmx_path });
            state.app_mode = AppMode::Snapshot;
            state.message = None;
        },
        Err(e) => {
            state.set_message(failure("✗ 获取快照列表失败: ", &e));
        },
    }
}

/// After a snapshot command: the message, and on success of a creation or
/// deletion the list read again (`refresh`) when the view is open.
pub open spec fn snapshot_done_spec(
    a: AppState,
    b: AppState,
    out: Result<String, VmrunError>,
    ok_text: Seq<char>,
    err_prefix: Seq<char>,
    refresh: Option<bool>,
    act: Action,
) -> bool {
    match out {
        Ok(_) => {
            &&& said(b, ok_text)
            &&& match (refresh, a.snapshot_state) {
                (Some(after_delete), Some(ss)) => {
                    &&& runs(act, seq!["listSnapshots"@, ss.vmx_path@])
                    &&& b.pending matches Some(Pending::SnapshotsRefreshed { after_delete: d })
                        && d == after_delete
                    &&& same_except(a, b, set![Part::Message, Part::Timer, Part::Pending])
                },
                _ => act is Idle && b.pending is None && same_except(
                    a,
                    b,
                    set![Part::Message, Part::Timer],
                ),
            }
        },
        Err(e) => act is Idle && b.pending is None && only_said(
            a,
            b,
            err_prefix + e.message_spec(),
        ),
    }
}

/// Completes a snapshot command.
fn snapshot_done(
    state: &mut AppState,
    out: Result<String, VmrunError>,
    ok_text: String,
    err_prefix: &str,
    refresh: Option<bool>,
) -> (act: Action)
    requires
        old(state).pending is None,
    ensures
        snapshot_done_spec(*old(state), *final(state), out, ok_text@, err_prefix@, refresh, act),
{
    match out {
        Ok(_) => {
            state.set_message(ok_text);
            match refresh {
                Some(after_delete) => {
                    let args = match &state.snapshot_state {
                        Some(ss) => Vmrun::list_snapshots_args(ss.vmx_path.as_str()),
                        None => {
                            return Action::Idle;
                        },
                    };
                    state.pending = Some(Pending::SnapshotsRefreshed { after_delete });
                    Action::Vmrun(args)
                },
                None => Action::Idle,
            }
        },
        Err(e) => {
            state.set_message(failure(err_prefix, &e));
            Action::Idle
        },
    }
}

/// Completes a snapshot creation.
pub fn snapshot_created(state: &mut AppState, name: String, out: Result<String, VmrunError>) -> (act: Action)
    requires
        old(state).pending is None,
    ensures
        snapshot_done_spec(
            *old(state),
            *final(state),
            out,
            "✓ 快照 \""@ + name@ + "\" 已创建"@,
            "✗ 创建快照失败: "@,
            Some(false),
            act,
        ),
{
    let m = framed("✓ 快照 \"", name.as_str(), "\" 已创建");
    snapshot_done(state, out, m, "✗ 创建快照失败: ", Some(false))
}

/// Completes a snapshot deletion.
pub fn snapshot_deleted(state: &mut AppState, name: String, out: Result<String, VmrunError>) -> (act: Action)
    requires
        old(state).pending is None,
    ensures
        snapshot_done_spec(
            *old(state),
            *final(state),
            out,
            "✓ 快照 \""@ + name@ + "\" 已删除"@,
            "✗ 删除快照失败: "@,
            Some(true),
            act,
        ),
{
    let m = framed("✓ 快照 \"", name.as_str(), "\" 已删除");
    snapshot_done(state, out, m, "✗ 删除快照失败: ", Some(true))
}

/// Completes a revert to a snapshot.
pub fn snapshot_reverted(state: &mut AppState, name: String, out: Result<String, VmrunError>) -> (act: Action)
    requires
        old(state).pending is None,
    ensures
        snapshot_done_spec(
            *old(state),
            *final(state),
            out,
            "✓ 已恢复到快照 \""@ + name@ + "\""@,
            "✗ 恢复快照失败: "@,
            None,
            act,
        ),
{
    let m = framed("✓ 已恢复到快照 \"", name.as_str(), "\"");
    snapshot_done(state, out, m, "✗ 恢复快照失败: ", None)
}

/// After the snapshot list was read again: the view shows it, and after a
/// deletion a selection past the end moves back by one; a failed read
/// changes nothing.
pub open spec fn snapshots_refreshed_spec(
    a: AppState,
    b: AppState,
    after_delete: bool,
    out: Result<String, VmrunError>,
) -> bool {
    &&& same_except(a, b, set![Part::Snapshot])
    &&& match (out, a.snapshot_state) {
        (Ok(o), Some(ss)) => {
            let names = snapshot_names(o@);
            b.snapshot_state matches Some(s) && strs(s.snapshots) == names && s.vm_name == ss.vm_name
                && s.vmx_path == ss.vmx_path && s.selected == if after_delete {
                kept_in(ss.selected, names.len())
            } else {
                ss.selected
            }
        },
        _ => b.snapshot_state == a.snapshot_state,
    }
}

/// Shows the snapshot list read again.
pub fn snapshots_refreshed(state: &mut AppState, after_delete: bool, out: Result<String, VmrunError>)
    ensures
        snapshots_refreshed_spec(*old(state), *final(state), after_delete, out),
{
    match out {
        Ok(o) => {
            match &mut state.snapshot_state {
                Some(ss) => {
                    ss.snapshots = Vmrun::list_snapshots(o.as_str());
                    if after_delete && ss.selected >= ss.snapshots.len() && ss.selected > 0 {
                        ss.selected = ss.selected - 1;
                    }
                },
                None => {},
            }
        },
        Err(_) => {},
    }
}

} // verus!
