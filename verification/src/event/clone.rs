//! Keys while a clone is set up, and the outcome of the clone.
use vstd::prelude::*;
use crate::paths::{path_join, path_parent, std_path_join, std_path_parent};
use crate::text::{chars_of, join2, owned, string_of, trim, trim_chars};
use crate::ui::state::{AppMode, CloneType};
use crate::vmrun::{Vmrun, VmrunError};
use super::{
    backspace, backspaced, failure, only_said, runs, same_except, type_char, typed_char, Action,
    AppState, Key, Part, Pending,
};

verus! {

/// The directory a clone goes into: the directory above the source's
/// bundle, or `.` when the source path has no such parent.
pub open spec fn clone_base(source: Seq<char>) -> Seq<char> {
    match std_path_parent(source) {
        Some(p) => match std_path_parent(p) {
            Some(q) => q,
            None => "."@,
        },
        None => "."@,
    }
}

/// The `.vmx` path of a clone named `name`: `<base>/<name>.vmwarevm/<name>.vmx`.
pub open spec fn clone_target(source: Seq<char>, name: Seq<char>) -> Seq<char> {
    std_path_join(std_path_join(clone_base(source), name + ".vmwarevm"@), name + ".vmx"@)
}

/// The name `vmrun clone` takes for a kind of clone.
pub open spec fn clone_kind(t: CloneType) -> Seq<char> {
    match t {
        CloneType::Full => "full"@,
        CloneType::Linked => "linked"@,
    }
}

/// What a key does while a clone is set up.
pub open spec fn clone_key_spec(a: AppState, b: AppState, key: Key, act: Action) -> bool {
    if key == Key::Esc {
        act is Idle && b.clone_input is None && b.app_mode == AppMode::List && same_except(
            a,
            b,
            set![Part::Mode, Part::CloneInput],
        )
    } else if key == Key::Tab {
        &&& act is Idle
        &&& same_except(a, b, set![Part::CloneInput])
        &&& match a.clone_input {
            Some(ci) => b.clone_input matches Some(c2) && c2.buffer == ci.buffer && c2.source_vmx
                == ci.source_vmx && c2.source_name == ci.source_name && c2.clone_type == match ci.clone_type {
                CloneType::Full => CloneType::Linked,
                CloneType::Linked => CloneType::Full,
            },
            None => b.clone_input is None,
        }
    } else if key == Key::Enter {
        &&& b.clone_input is None
        &&& b.app_mode == AppMode::List
        &&& match a.clone_input {
            Some(ci) => {
                let name = trim(ci.buffer@);
                if name.len() > 0 {
                    &&& runs(
                        act,
                        seq![
                            "clone"@,
                            ci.source_vmx@,
                            clone_target(ci.source_vmx@, name),
                            clone_kind(ci.clone_type),
                            "-cloneName="@ + name,
                        ],
                    )
                    &&& b.pending matches Some(Pending::Cloned { name: n, clone_type }) && n@ == name
                        && clone_type == ci.clone_type
                    &&& same_except(a, b, set![Part::Mode, Part::CloneInput, Part::Pending])
                } else {
                    act is Idle && same_except(a, b, set![Part::Mode, Part::CloneInput])
                }
            },
            None => act is Idle && same_except(a, b, set![Part::Mode, Part::CloneInput]),
        }
    } else if key == Key::Backspace || key is Char {
        &&& act is Idle
        &&& same_except(a, b, set![Part::CloneInput])
        &&& match a.clone_input {
            Some(ci) => b.clone_input matches Some(c2) && c2.source_vmx == ci.source_vmx
                && c2.source_name == ci.source_name && c2.clone_type == ci.clone_type && c2.buffer@
                == if key == Key::Backspace {
                backspaced(ci.buffer@)
            } else {
                typed_char(ci.buffer@, key->0, 64)
            },
            None => b.clone_input is None,
        }
    } else {
        b == a && act is Idle
    }
}

/// Handles a key while a clone is set up.
pub fn handle_clone_input_event(state: &mut AppState, key: Key) -> (act: Action)
    ensures
        clone_key_spec(*old(state), *final(state), key, act),
{
    match key {
        Key::Esc => {
            state.clone_input = None;
            state.app_mode = AppMode::List;
            Action::Idle
        },
        Key::Tab => {
            match &mut state.clone_input {
                Some(ci) => {
                    ci.clone_type = match ci.clone_type {
                        CloneType::Full => CloneType::Linked,
                        CloneType::Linked => CloneType::Full,
                    };
                },
                None => {},
            }
            Action::Idle
        },
        Key::Enter => {
            let mut act = Action::Idle;
            match &state.clone_input {
                Some(ci) => {
                    let name = string_of(&trim_chars(&chars_of(ci.buffer.as_str())));
                    if !name.as_str().is_empty() {
                        let base = match path_parent(ci.source_vmx.as_str()) {
                            Some(p) => match path_parent(p.as_str()) {
                                Some(q) => q,
                                None => owned("."),
                            },
                            None => owned("."),
                        };
                        let dir_name = join2(name.as_str(), ".vmwarevm");
                        let dest_dir = path_join(base.as_str(), dir_name.as_str());
                        let file_name = join2(name.as_str(), ".vmx");
                        let dest_vmx = path_join(dest_dir.as_str(), file_name.as_str());
                        act = Action::Vmrun(
                            Vmrun::clone_vm(
                                ci.source_vmx.as_str(),
                                dest_vmx.as_str(),
                                ci.clone_type.as_str(),
                                name.as_str(),
                            ),
                        );
                        state.pending = Some(Pending::Cloned { name, clone_type: ci.clone_type });
                    }
                },
                None => {},
            }
            state.clone_input = None;
            state.app_mode = AppMode::List;
            act
        },
        Key::Backspace => {
            match &mut state.clone_input {
                Some(ci) => backspace(&mut ci.buffer),
                None => {},
            }
            Action::Idle
        },
        Key::Char(c) => {
            match &mut state.clone_input {
                Some(ci) => type_char(&mut ci.buffer, c, 64),
                None => {},
            }
            Action::Idle
        },
        _ => Action::Idle,
    }
}

/// The name shown for a kind of clone.
pub open spec fn clone_kind_shown(t: CloneType) -> Seq<char> {
    match t {
        CloneType::Full => "完整克隆"@,
        CloneType::Linked => "链接克隆"@,
    }
}

/// After a clone: the message of what happened.
pub open spec fn cloned_spec(
    a: AppState,
    b: AppState,
    name: Seq<char>,
    t: CloneType,
    out: Result<String, VmrunError>,
) -> bool {
    &&& b.pending is None
    &&& match out {
        Ok(_) => only_said(a, b, "✓ 已克隆为 \""@ + name + "\" ("@ + clone_kind_shown(t) + ")"@),
        Err(e) => only_said(a, b, "✗ 克隆失败: "@ + e.message_spec()),
    }
}

/// Completes a clone.
pub fn cloned(state: &mut AppState, name: String, clone_type: CloneType, out: Result<String, VmrunError>)
    requires
        old(state).pending is None,
    ensures
        cloned_spec(*old(state), *final(state), name@, clone_type, out),
{
    match out {
        Ok(_) => {
            let mut m = super::framed("✓ 已克隆为 \"", name.as_str(), "\" (");
            crate::text::append(&mut m, clone_type.display_name());
            crate::text::append(&mut m, ")");
            state.set_message(m);
        },
        Err(e) => {
            state.set_message(failure("✗ 克隆失败: ", &e));
        },
    }
}

} // verus!
