//! Keys in the shared folder view, its input and its removal dialog, and
//! the outcomes of the shared folder commands.
use vstd::prelude::*;
use crate::text::{chars_of, lines_spec, owned, string_of, trim, trim_chars};
use crate::ui::shared::{enables_shared, folders_upto, parse_shared_folders_from_vmx};
use crate::ui::state::{AppMode, SharedFolderEntry, SharedFolderInputState, SharedFolderState};
use crate::vmrun::{Vmrun, VmrunError};
use super::{
    kept_in,
    backspace_field, backspaced, cleared, failure, field_set, framed, only_said, runs,
    same_except, said, type_into_field, typed_char, Action, AppState, Key, Part, Pending,
};

verus! {

/// The folders of a `.vmx` content, by their views.
pub open spec fn folders_of(content: Seq<char>) -> Seq<(Seq<char>, Seq<char>, bool)> {
    folders_upto(lines_spec(content), 16)
}

/// Whether a `.vmx` content enables shared folders.
pub open spec fn enabled_in(content: Seq<char>) -> bool {
    exists|k: int| 0 <= k < lines_spec(content).len() && enables_shared(#[trigger] lines_spec(content)[k])
}

/// The folders of a view, by their views.
pub open spec fn folders_view(v: Vec<SharedFolderEntry>) -> Seq<(Seq<char>, Seq<char>, bool)> {
    v@.map_values(|f: SharedFolderEntry| f@)
}

/// `s` is `ss` with the selection `sel`.
pub open spec fn shared_moved(ss: SharedFolderState, s: SharedFolderState, sel: usize) -> bool {
    &&& s.selected == sel
    &&& s.folders == ss.folders
    &&& s.vm_name == ss.vm_name
    &&& s.vmx_path == ss.vmx_path
    &&& s.enabled == ss.enabled
}

/// What a key does in the shared folder view.
pub open spec fn shared_key_spec(a: AppState, b: AppState, key: Key, act: Action) -> bool {
    if key == Key::Esc || key == Key::Char('h') {
        act is Idle && b.app_mode == AppMode::List && b.shared_state is None && cleared(
            a,
            b,
            set![Part::Mode, Part::Shared],
        )
    } else if key == Key::Down || key == Key::Char('s') || key == Key::Up || key == Key::Char('w') {
        &&& act is Idle
        &&& same_except(a, b, set![Part::Shared])
        &&& match a.shared_state {
            Some(ss) => b.shared_state matches Some(s) && shared_moved(
                ss,
                s,
                if key == Key::Down || key == Key::Char('s') {
                    if ss.selected + 1 < ss.folders@.len() {
                        (ss.selected + 1) as usize
                    } else {
                        ss.selected
                    }
                } else if ss.selected > 0 {
                    (ss.selected - 1) as usize
                } else {
                    ss.selected
                },
            ),
            None => b.shared_state is None,
        }
    } else if key == Key::Char('a') {
        &&& act is Idle
        &&& b.shared_input matches Some(si) && si.field_index == 0 && si.fields@[0]@.len() == 0
            && si.fields@[1]@.len() == 0
        &&& b.app_mode == AppMode::SharedFolderInput
        &&& cleared(a, b, set![Part::Mode, Part::SharedInput])
    } else if key == Key::Char('d') {
        &&& act is Idle
        &&& match a.shared_state {
            Some(ss) => if ss.folders@.len() > 0 {
                b.app_mode == AppMode::SharedFolderConfirm && same_except(a, b, set![Part::Mode])
            } else {
                b == a
            },
            None => b == a,
        }
    } else if key == Key::Char('e') {
        match a.shared_state {
            Some(ss) => {
                &&& runs(
                    act,
                    seq![
                        if ss.enabled {
                            "disableSharedFolders"@
                        } else {
                            "enableSharedFolders"@
                        },
                        ss.vmx_path@,
                        "runtime"@,
                    ],
                )
                &&& b.pending matches Some(Pending::SharedToggled)
                &&& same_except(a, b, set![Part::Pending])
            },
            None => b == a && act is Idle,
        }
    } else {
        b == a && act is Idle
    }
}

/// Handles a key in the shared folder view.
pub fn handle_shared_event(state: &mut AppState, key: Key) -> (act: Action)
    ensures
        shared_key_spec(*old(state), *final(state), key, act),
{
    if key == Key::Esc || key == Key::Char('h') {
        state.app_mode = AppMode::List;
        state.shared_state = None;
        state.message = None;
        Action::Idle
    } else if key == Key::Down || key == Key::Char('s') {
        match &mut state.shared_state {
            Some(ss) => {
                if ss.selected < ss.folders.len() && ss.selected + 1 < ss.folders.len() {
                    ss.selected = ss.selected + 1;
                }
            },
            None => {},
        }
        Action::Idle
    } else if key == Key::Up || key == Key::Char('w') {
        match &mut state.shared_state {
            Some(ss) => {
                if ss.selected > 0 {
                    ss.selected = ss.selected - 1;
                }
            },
            None => {},
        }
        Action::Idle
    } else if key == Key::Char('a') {
        state.shared_input = Some(SharedFolderInputState::new());
        state.app_mode = AppMode::SharedFolderInput;
        state.message = None;
        Action::Idle
    } else if key == Key::Char('d') {
        let has_folders = match &state.shared_state {
            Some(ss) => ss.folders.len() > 0,
            None => false,
        };
        if has_folders {
            state.app_mode = AppMode::SharedFolderConfirm;
        }
        Action::Idle
    } else if key == Key::Char('e') {
        let args = match &state.shared_state {
            Some(ss) => if ss.enabled {
                Vmrun::disable_shared_folders(ss.vmx_path.as_str())
            } else {
                Vmrun::enable_shared_folders(ss.vmx_path.as_str())
            },
            None => {
                return Action::Idle;
            },
        };
        state.pending = Some(Pending::SharedToggled);
        Action::Vmrun(args)
    } else {
        Action::Idle
    }
}

/// What a key does on the shared folder input (whose field index is one
/// of the two).
pub open spec fn shared_input_spec(a: AppState, b: AppState, key: Key, act: Action) -> bool {
    if key == Key::Esc {
        act is Idle && b.shared_input is None && b.app_mode == AppMode::SharedFolder
            && same_except(a, b, set![Part::Mode, Part::SharedInput])
    } else if key == Key::Enter {
        &&& b.shared_input is None
        &&& b.app_mode == AppMode::SharedFolder
        &&& match (a.shared_input, a.shared_state) {
            (Some(si), Some(ss)) => {
                let name = trim(si.fields@[0]@);
                let host_path = trim(si.fields@[1]@);
                if name.len() > 0 && host_path.len() > 0 {
                    &&& runs(act, seq!["addSharedFolder"@, ss.vmx_path@, name, host_path])
                    &&& b.pending matches Some(Pending::SharedAdded { name: n, host_path: h })
                        && n@ == name && h@ == host_path
                    &&& same_except(a, b, set![Part::Mode, Part::SharedInput, Part::Pending])
                } else {
                    act is Idle && said(b, "✗ 名称和路径不能为空"@) && same_except(
                        a,
                        b,
                        set![Part::Mode, Part::SharedInput, Part::Message, Part::Timer],
                    )
                }
            },
            _ => act is Idle && same_except(a, b, set![Part::Mode, Part::SharedInput]),
        }
    } else if key == Key::Tab || key == Key::Backspace || key is Char {
        &&& act is Idle
        &&& same_except(a, b, set![Part::SharedInput])
        &&& match a.shared_input {
            Some(si) => b.shared_input matches Some(s2) && if key == Key::Tab {
                s2.fields == si.fields && s2.field_index == (si.field_index + 1) % 2
            } else {
                s2.field_index == si.field_index && field_set(
                    si.fields@,
                    s2.fields@,
                    si.field_index as int,
                    if key == Key::Backspace {
                        backspaced(si.fields@[si.field_index as int]@)
                    } else {
                        typed_char(si.fields@[si.field_index as int]@, key->0, 128)
                    },
                )
            },
            None => b.shared_input is None,
        }
    } else {
        b == a && act is Idle
    }
}

/// Handles a key on the shared folder input.
pub fn handle_shared_input_event(state: &mut AppState, key: Key) -> (act: Action)
    requires
        old(state).shared_input matches Some(si) ==> si.field_index < 2,
    ensures
        shared_input_spec(*old(state), *final(state), key, act),
{
    match key {
        Key::Esc => {
            state.shared_input = None;
            state.app_mode = AppMode::SharedFolder;
            Action::Idle
        },
        Key::Tab => {
            match &mut state.shared_input {
                Some(si) => {
                    si.field_index = (si.field_index + 1) % 2;
                },
                None => {},
            }
            Action::Idle
        },
        Key::Enter => {
            let mut act = Action::Idle;
            let mut incomplete = false;
            match (&state.shared_input, &state.shared_state) {
                (Some(si), Some(ss)) => {
                    let name = string_of(&trim_chars(&chars_of(si.fields[0].as_str())));
                    let host_path = string_of(&trim_chars(&chars_of(si.fields[1].as_str())));
                    if !name.as_str().is_empty() && !host_path.as_str().is_empty() {
                        act = Action::Vmrun(
                            Vmrun::add_shared_folder(
                                ss.vmx_path.as_str(),
                                name.as_str(),
                                host_path.as_str(),
                            ),
                        );
                        state.pending = Some(Pending::SharedAdded { name, host_path });
                    } else {
                        incomplete = true;
                    }
                },
                _ => {},
            }
            if incomplete {
                state.set_message(owned("✗ 名称和路径不能为空"));
            }
            state.shared_input = None;
            state.app_mode = AppMode::SharedFolder;
            act
        },
        Key::Backspace => {
            match &mut state.shared_input {
                Some(si) => {
                    let i = si.field_index;
                    backspace_field(&mut si.fields, i);
                },
                None => {},
            }
            Action::Idle
        },
        Key::Char(c) => {
            match &mut state.shared_input {
                Some(si) => {
                    let i = si.field_index;
                    type_into_field(&mut si.fields, i, c, 128);
                },
                None => {},
            }
            Action::Idle
        },
        _ => Action::Idle,
    }
}

/// What a key does in the shared folder removal dialog.
pub open spec fn shared_confirm_spec(a: AppState, b: AppState, key: Key, act: Action) -> bool {
    if key == Key::Char('y') {
        &&& b.app_mode == AppMode::SharedFolder
        &&& match a.shared_state {
            Some(ss) => if ss.selected < ss.folders@.len() {
                let folder = ss.folders@[ss.selected as int];
                &&& runs(act, seq!["removeSharedFolder"@, ss.vmx_path@, folder.name@])
                &&& b.pending matches Some(Pending::SharedRemoved { name }) && name@ == folder.name@
                &&& same_except(a, b, set![Part::Mode, Part::Pending])
            } else {
                act is Idle && same_except(a, b, set![Part::Mode])
            },
            None => act is Idle && same_except(a, b, set![Part::Mode]),
        }
    } else if key == Key::Char('n') || key == Key::Esc {
        act is Idle && b.app_mode == AppMode::SharedFolder && same_except(a, b, set![Part::Mode])
    } else {
        b == a && act is Idle
    }
}

/// Handles a key in the shared folder removal dialog.
pub fn handle_shared_confirm_event(state: &mut AppState, key: Key) -> (act: Action)
    ensures
        shared_confirm_spec(*old(state), *final(state), key, act),
{
    if key == Key::Char('y') {
        let mut act = Action::Idle;
        match &state.shared_state {
            Some(ss) => {
                if ss.selected < ss.folders.len() {
                    let folder = &ss.folders[ss.selected];
                    act = Action::Vmrun(
                        Vmrun::remove_shared_folder(ss.vmx_path.as_str(), folder.name.as_str()),
                    );
                    state.pending = Some(Pending::SharedRemoved { name: owned(folder.name.as_str()) });
                }
            },
            None => {},
        }
        state.app_mode = AppMode::SharedFolder;
        act
    } else if key == Key::Char('n') || key == Key::Esc {
        state.app_mode = AppMode::SharedFolder;
        Action::Idle
    } else {
        Action::Idle
    }
}

/// After the configuration file was read for the shared folder view: the
/// view opens on the folders it configures (none, and disabled, when
/// reading failed).
pub open spec fn shared_opened_spec(
    a: AppState,
    b: AppState,
    vmx_path: Seq<char>,
    vm_name: Seq<char>,
    r: Result<String, String>,
) -> bool {
    &&& b.shared_state matches Some(ss) && ss.vmx_path@ == vmx_path && ss.vm_name@ == vm_name
        && ss.selected == 0 && match r {
        Ok(c) => folders_view(ss.folders) == folders_of(c@) && ss.enabled == enabled_in(c@),
        Err(_) => ss.folders@.len() == 0 && !ss.enabled,
    }
    &&& b.app_mode == AppMode::SharedFolder
    &&& b.pending is None
    &&& cleared(a, b, set![Part::Shared, Part::Mode, Part::Pending])
}

/// Opens the shared folder view.
pub fn shared_opened(state: &mut AppState, vmx_path: String, vm_name: String, r: Result<String, String>)
    requires
        old(state).pending is None,
    ensures
        shared_opened_spec(*old(state), *final(state), vmx_path@, vm_name@, r),
{
    let (folders, enabled) = match r {
        Ok(c) => parse_shared_folders_from_vmx(c.as_str()),
        Err(_) => (Vec::new(), false),
    };
    state.shared_state = Some(SharedFolderState { vm_name, vmx_path, folders, selected: 0, enabled });
    state.app_mode = AppMode::SharedFolder;
    state.message = None;
}

/// After shared folders were switched: on success the view's switch flips
/// and the new setting is shown; or the error is shown.
pub open spec fn shared_toggled_spec(a: AppState, b: AppState, out: Result<String, VmrunError>) -> bool {
    &&& b.pending is None
    &&& match a.shared_state {
        Some(ss) => match out {
            Ok(_) => {
                &&& b.shared_state matches Some(s) && s.enabled == !ss.enabled && s.folders
                    == ss.folders && s.selected == ss.selected && s.vm_name == ss.vm_name
                    && s.vmx_path == ss.vmx_path
                &&& said(
                    b,
                    if !ss.enabled {
                        "✓ 共享文件夹已启用"@
                    } else {
                        "✓ 共享文件夹已禁用"@
                    },
                )
                &&& same_except(a, b, set![Part::Shared, Part::Message, Part::Timer])
            },
            Err(e) => only_said(a, b, "✗ 操作失败: "@ + e.message_spec()),
        },
        None => b == a,
    }
}

/// Completes a switch of shared folders.
pub fn shared_toggled(state: &mut AppState, out: Result<String, VmrunError>)
    requires
        old(state).pending is None,
    ensures
        shared_toggled_spec(*old(state), *final(state), out),
{
    let enabled = match &mut state.shared_state {
        Some(ss) => match &out {
            Ok(_) => {
                ss.enabled = !ss.enabled;
                ss.enabled
            },
            Err(_) => ss.enabled,
        },
        None => {
            return ;
        },
    };
    match out {
        Ok(_) => {
            if enabled {
                state.set_message(owned("✓ 共享文件夹已启用"));
            } else {
                state.set_message(owned("✓ 共享文件夹已禁用"));
            }
        },
        Err(e) => {
            state.set_message(failure("✗ 操作失败: ", &e));
        },
    }
}

/// After a shared folder was added: the message, and the folder (writable)
/// added to the view; or the error.
pub open spec fn shared_added_spec(
    a: AppState,
    b: AppState,
    name: Seq<char>,
    host_path: Seq<char>,
    out: Result<String, VmrunError>,
) -> bool {
    &&& b.pending is None
    &&& match out {
        Ok(_) => {
            &&& said(b, "✓ 已添加共享 \""@ + name + "\""@)
            &&& same_except(a, b, set![Part::Shared, Part::Message, Part::Timer])
            &&& match a.shared_state {
                Some(ss) => b.shared_state matches Some(s) && folders_view(s.folders)
                    == folders_view(ss.folders).push((name, host_path, true)) && s.selected
                    == ss.selected && s.vm_name == ss.vm_name && s.vmx_path == ss.vmx_path
                    && s.enabled == ss.enabled,
                None => b.shared_state is None,
            }
        },
        Err(e) => only_said(a, b, "✗ 添加失败: "@ + e.message_spec()),
    }
}

/// Completes the addition of a shared folder.
pub fn shared_added(state: &mut AppState, name: String, host_path: String, out: Result<String, VmrunError>)
    requires
        old(state).pending is None,
    ensures
        shared_added_spec(*old(state), *final(state), name@, host_path@, out),
{
    match out {
        Ok(_) => {
            state.set_message(framed("✓ 已添加共享 \"", name.as_str(), "\""));
            match &mut state.shared_state {
                Some(ss) => {
                    let ghost before = folders_view(ss.folders);
                    let entry = SharedFolderEntry { name, host_path, writable: true };
                    ss.folders.push(entry);
                    assert(folders_view(ss.folders) =~= before.push(entry@));
                },
                None => {},
            }
        },
        Err(e) => {
            state.set_message(failure("✗ 添加失败: ", &e));
        },
    }
}

/// After a shared folder was removed: the message, and the selected folder
/// removed from the view, the selection moving back when it passed the
/// end; or the error.
pub open spec fn shared_removed_spec(a: AppState, b: AppState, name: Seq<char>, out: Result<String, VmrunError>) -> bool {
    &&& b.pending is None
    &&& match out {
        Ok(_) => {
            &&& said(b, "✓ 已移除共享 \""@ + name + "\""@)
            &&& same_except(a, b, set![Part::Shared, Part::Message, Part::Timer])
            &&& match a.shared_state {
                Some(ss) => if ss.selected < ss.folders@.len() {
                    let rest = ss.folders@.remove(ss.selected as int);
                    b.shared_state matches Some(s) && s.folders@ == rest && s.selected == kept_in(ss.selected, rest.len()) && s.vm_name == ss.vm_name && s.vmx_path == ss.vmx_path && s.enabled
                        == ss.enabled
                } else {
                    b.shared_state == a.shared_state
                },
                None => b.shared_state is None,
            }
        },
        Err(e) => only_said(a, b, "✗ 移除失败: "@ + e.message_spec()),
    }
}

/// Completes the removal of a shared folder.
pub fn shared_removed(state: &mut AppState, name: String, out: Result<String, VmrunError>)
    requires
        old(state).pending is None,
    ensures
        shared_removed_spec(*old(state), *final(state), name@, out),
{
    match out {
        Ok(_) => {
            state.set_message(framed("✓ 已移除共享 \"", name.as_str(), "\""));
            match &mut state.shared_state {
                Some(ss) => {
                    if ss.selected < ss.folders.len() {
                        let sel = ss.selected;
                        ss.folders.remove(sel);
                        if ss.selected >= ss.folders.len() && ss.selected > 0 {
                            ss.selected = ss.selected - 1;
                        }
                    }
                },
                None => {},
            }
        },
        Err(e) => {
            state.set_message(failure("✗ 移除失败: ", &e));
        },
    }
}

} // verus!
