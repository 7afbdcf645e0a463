//! Keys in the guest login, the guest file browser, its path input and its
//! deletion dialog, and the outcomes of the guest commands.
use vstd::prelude::*;
use crate::paths::{path_file_name, path_parent, std_path_file_name, std_path_parent};
use crate::text::{chars_of, join2, lines_spec, owned, str_eq, string_of, trim, trim_chars};
use crate::ui::state::{AppMode, GuestFileAction, GuestFileInputState, GuestFilesState};
use crate::vmrun::guest::guest_entry_line;
use crate::vmrun::{collect, strs, Vmrun, VmrunError};
use super::{
    kept_in,
    backspace, backspace_field, backspaced, cleared, failure, field_set, in_dir, in_dir_of,
    only_said, runs, same_except, said, type_char, type_into_field, typed_char, Action, AppState,
    Key, Part, Pending,
};

verus! {

/// The entry names in what `vmrun listDirectoryInGuest` printed.
pub open spec fn guest_entries(out: Seq<char>) -> Seq<Seq<char>> {
    collect(lines_spec(out), |l: Seq<char>| guest_entry_line(l))
}

/// The arguments that list guest directory `dir`.
pub open spec fn list_dir_args(vmx_path: Seq<char>, user: Seq<char>, pass: Seq<char>, dir: Seq<char>) -> Seq<Seq<char>> {
    seq!["-gu"@, user, "-gp"@, pass, "listDirectoryInGuest"@, vmx_path, dir]
}

/// What a key does in the guest login (whose field index is one of the two).
pub open spec fn guest_login_spec(a: AppState, b: AppState, key: Key, act: Action) -> bool {
    if key == Key::Esc {
        act is Idle && b.guest_login is None && b.app_mode == AppMode::List && same_except(
            a,
            b,
            set![Part::Mode, Part::GuestLogin],
        )
    } else if key == Key::Enter {
        &&& b.guest_login is None
        &&& match a.guest_login {
            Some(gl) => {
                let user = trim(gl.fields@[0]@);
                let pass = gl.fields@[1]@;
                &&& runs(act, list_dir_args(gl.vmx_path@, user, pass, "/"@))
                &&& b.pending matches Some(
                    Pending::GuestLogin { vmx_path, vm_name, user: u, pass: p },
                ) && vmx_path@ == gl.vmx_path@ && vm_name@ == gl.vm_name@ && u@ == user && p@ == pass
                &&& same_except(a, b, set![Part::GuestLogin, Part::Pending])
            },
            None => act is Idle && b == a,
        }
    } else if key == Key::Tab || key == Key::Backspace || key is Char {
        &&& act is Idle
        &&& same_except(a, b, set![Part::GuestLogin])
        &&& match a.guest_login {
            Some(gl) => b.guest_login matches Some(g2) && g2.vmx_path == gl.vmx_path && g2.vm_name
                == gl.vm_name && if key == Key::Tab {
                g2.fields == gl.fields && g2.field_index == (gl.field_index + 1) % 2
            } else {
                g2.field_index == gl.field_index && field_set(
                    gl.fields@,
                    g2.fields@,
                    gl.field_index as int,
                    if key == Key::Backspace {
                        backspaced(gl.fields@[gl.field_index as int]@)
                    } else {
                        typed_char(gl.fields@[gl.field_index as int]@, key->0, 64)
                    },
                )
            },
            None => b.guest_login is None,
        }
    } else {
        b == a && act is Idle
    }
}

/// Handles a key in the guest login.
pub fn handle_guest_login_event(state: &mut AppState, key: Key) -> (act: Action)
    requires
        old(state).guest_login matches Some(gl) ==> gl.field_index < 2,
    ensures
        guest_login_spec(*old(state), *final(state), key, act),
{
    match key {
        Key::Esc => {
            state.guest_login = None;
            state.app_mode = AppMode::List;
            Action::Idle
        },
        Key::Tab => {
            match &mut state.guest_login {
                Some(gl) => {
                    gl.field_index = (gl.field_index + 1) % 2;
                },
                None => {},
            }
            Action::Idle
        },
        Key::Enter => {
            let act = match &state.guest_login {
                Some(gl) => {
                    let user = string_of(&trim_chars(&chars_of(gl.fields[0].as_str())));
                    let pass = owned(gl.fields[1].as_str());
                    let args = Vmrun::list_directory_in_guest_args(
                        gl.vmx_path.as_str(),
                        user.as_str(),
                        pass.as_str(),
                        "/",
                    );
                    state.pending = Some(
                        Pending::GuestLogin {
                            vmx_path: owned(gl.vmx_path.as_str()),
                            vm_name: owned(gl.vm_name.as_str()),
                            user,
                            pass,
                        },
                    );
                    Action::Vmrun(args)
                },
                None => {
                    return Action::Idle;
                },
            };
            state.guest_login = None;
            act
        },
        Key::Backspace => {
            match &mut state.guest_login {
                Some(gl) => {
                    let i = gl.field_index;
                    backspace_field(&mut gl.fields, i);
                },
                None => {},
            }
            Action::Idle
        },
        Key::Char(c) => {
            match &mut state.guest_login {
                Some(gl) => {
                    let i = gl.field_index;
                    type_into_field(&mut gl.fields, i, c, 64);
                },
                None => {},
            }
            Action::Idle
        },
        _ => Action::Idle,
    }
}

/// `g` is `gs` with the selection `sel`.
pub open spec fn guest_moved(gs: GuestFilesState, g: GuestFilesState, sel: usize) -> bool {
    &&& g.selected == sel
    &&& g.entries == gs.entries
    &&& g.vmx_path == gs.vmx_path
    &&& g.vm_name == gs.vm_name
    &&& g.user == gs.user
    &&& g.pass == gs.pass
    &&& g.current_dir == gs.current_dir
}

/// The directory entering `entry` from `dir` leads to: for `..` the parent
/// of `dir` (`/` when it has none or it is empty), otherwise `entry` in `dir`.
pub open spec fn entered_dir(dir: Seq<char>, entry: Seq<char>) -> Seq<char> {
    if entry == ".."@ {
        match std_path_parent(dir) {
            Some(p) => if p.len() == 0 {
                "/"@
            } else {
                p
            },
            None => "/"@,
        }
    } else {
        in_dir(dir, entry)
    }
}

/// What a key does in the guest file browser.
pub open spec fn guest_files_spec(a: AppState, b: AppState, key: Key, act: Action) -> bool {
    if key == Key::Esc || key == Key::Char('q') {
        act is Idle && b.app_mode == AppMode::List && b.guest_state is None && cleared(
            a,
            b,
            set![Part::Mode, Part::Guest],
        )
    } else if key == Key::Down || key == Key::Char('s') || key == Key::Up || key == Key::Char('w') {
        &&& act is Idle
        &&& same_except(a, b, set![Part::Guest])
        &&& match a.guest_state {
            Some(gs) => b.guest_state matches Some(g) && guest_moved(
                gs,
                g,
                if key == Key::Down || key == Key::Char('s') {
                    if gs.selected + 1 < gs.entries@.len() {
                        (gs.selected + 1) as usize
                    } else {
                        gs.selected
                    }
                } else if gs.selected > 0 {
                    (gs.selected - 1) as usize
                } else {
                    gs.selected
                },
            ),
            None => b.guest_state is None,
        }
    } else if key == Key::Enter {
        match a.guest_state {
            Some(gs) => if gs.selected < gs.entries@.len() {
                let dir = entered_dir(gs.current_dir@, gs.entries@[gs.selected as int]@);
                &&& runs(act, list_dir_args(gs.vmx_path@, gs.user@, gs.pass@, dir))
                &&& b.pending matches Some(Pending::GuestEnter { dir: d }) && d@ == dir
                &&& same_except(a, b, set![Part::Pending])
            } else {
                b == a && act is Idle
            },
            None => b == a && act is Idle,
        }
    } else if key == Key::Char('u') || key == Key::Char('m') {
        &&& act is Idle
        &&& b.guest_file_input matches Some(gi) && gi.buffer@.len() == 0 && if key == Key::Char(
            'u',
        ) {
            gi.action is Upload
        } else {
            gi.action is Mkdir
        }
        &&& b.app_mode == AppMode::GuestFileInput
        &&& same_except(a, b, set![Part::Mode, Part::GuestFileInput])
    } else if key == Key::Char('o') || key == Key::Char('d') {
        &&& act is Idle
        &&& match a.guest_state {
            Some(gs) => if gs.selected < gs.entries@.len() && gs.entries@[gs.selected as int]@
                != ".."@ {
                let entry = gs.entries@[gs.selected as int]@;
                if key == Key::Char('o') {
                    &&& b.guest_file_input matches Some(gi) && gi.buffer@.len() == 0
                        && (gi.action matches GuestFileAction::Download(p) && p@ == in_dir(
                        gs.current_dir@,
                        entry,
                    ))
                    &&& b.app_mode == AppMode::GuestFileInput
                    &&& same_except(a, b, set![Part::Mode, Part::GuestFileInput])
                } else {
                    b.app_mode == AppMode::GuestFileConfirm && same_except(a, b, set![Part::Mode])
                }
            } else {
                b == a
            },
            None => b == a,
        }
    } else {
        b == a && act is Idle
    }
}

/// The directory a guest entry leads to.
fn entered_dir_of(dir: &str, entry: &str) -> (res: String)
    ensures
        res@ == entered_dir(dir@, entry@),
{
    if str_eq(entry, "..") {
        proof {
            reveal_strlit("..");
        }
        match path_parent(dir) {
            Some(p) => if p.as_str().is_empty() {
                owned("/")
            } else {
                p
            },
            None => owned("/"),
        }
    } else {
        in_dir_of(dir, entry)
    }
}

/// Handles a key in the guest file browser.
pub fn handle_guest_files_event(state: &mut AppState, key: Key) -> (act: Action)
    ensures
        guest_files_spec(*old(state), *final(state), key, act),
{
    if key == Key::Esc || key == Key::Char('q') {
        state.app_mode = AppMode::List;
        state.guest_state = None;
        state.message = None;
        Action::Idle
    } else if key == Key::Down || key == Key::Char('s') {
        match &mut state.guest_state {
            Some(gs) => {
                if gs.selected < gs.entries.len() && gs.selected + 1 < gs.entries.len() {
                    gs.selected = gs.selected + 1;
                }
            },
            None => {},
        }
        Action::Idle
    } else if key == Key::Up || key == Key::Char('w') {
        match &mut state.guest_state {
            Some(gs) => {
                if gs.selected > 0 {
                    gs.selected = gs.selected - 1;
                }
            },
            None => {},
        }
        Action::Idle
    } else if key == Key::Enter {
        let act = match &state.guest_state {
            Some(gs) => if gs.selected < gs.entries.len() {
                let dir = entered_dir_of(gs.current_dir.as_str(), gs.entries[gs.selected].as_str());
                let args = Vmrun::list_directory_in_guest_args(
                    gs.vmx_path.as_str(),
                    gs.user.as_str(),
                    gs.pass.as_str(),
                    dir.as_str(),
                );
                state.pending = Some(Pending::GuestEnter { dir });
                Action::Vmrun(args)
            } else {
                Action::Idle
            },
            None => Action::Idle,
        };
        act
    } else if key == Key::Char('u') || key == Key::Char('m') {
        let action = if key == Key::Char('u') {
            GuestFileAction::Upload
        } else {
            GuestFileAction::Mkdir
        };
        state.guest_file_input = Some(GuestFileInputState { action, buffer: String::new() });
        state.app_mode = AppMode::GuestFileInput;
        Action::Idle
    } else if key == Key::Char('o') || key == Key::Char('d') {
        let target = match &state.guest_state {
            Some(gs) => if gs.selected < gs.entries.len() && !str_eq(
                gs.entries[gs.selected].as_str(),
                "..",
            ) {
                Some(in_dir_of(gs.current_dir.as_str(), gs.entries[gs.selected].as_str()))
            } else {
                None
            },
            None => None,
        };
        match target {
            Some(p) => {
                if key == Key::Char('o') {
                    state.guest_file_input = Some(
                        GuestFileInputState { action: GuestFileAction::Download(p), buffer: String::new() },
                    );
                    state.app_mode = AppMode::GuestFileInput;
                } else {
                    state.app_mode = AppMode::GuestFileConfirm;
                }
            },
            None => {},
        }
        Action::Idle
    } else {
        Action::Idle
    }
}

/// What Enter does on the guest path input: the operation runs, and the
/// message it shows on success is kept for its outcome.
pub open spec fn guest_input_enter_spec(a: AppState, b: AppState, act: Action) -> bool {
    &&& b.guest_file_input is None
    &&& b.app_mode == AppMode::GuestFiles
    &&& match (a.guest_file_input, a.guest_state) {
        (Some(gi), Some(gs)) => {
            let path = trim(gi.buffer@);
            if path.len() > 0 {
                let (args, ok_text) = match gi.action {
                    GuestFileAction::Upload => {
                        let file = match std_path_file_name(path) {
                            Some(n) => n,
                            None => "file"@,
                        };
                        let dest = in_dir(gs.current_dir@, file);
                        (
                            seq![
                                "-gu"@,
                                gs.user@,
                                "-gp"@,
                                gs.pass@,
                                "CopyFileFromHostToGuest"@,
                                gs.vmx_path@,
                                path,
                                dest,
                            ],
                            "✓ 已上传到 "@ + dest,
                        )
                    },
                    GuestFileAction::Download(gp) => (
                        seq![
                            "-gu"@,
                            gs.user@,
                            "-gp"@,
                            gs.pass@,
                            "CopyFileFromGuestToHost"@,
                            gs.vmx_path@,
                            gp@,
                            path,
                        ],
                        "✓ 已下载到 "@ + path,
                    ),
                    GuestFileAction::Mkdir => {
                        let dir = in_dir(gs.current_dir@, path);
                        (
                            seq![
                                "-gu"@,
                                gs.user@,
                                "-gp"@,
                                gs.pass@,
                                "createDirectoryInGuest"@,
                                gs.vmx_path@,
                                dir,
                            ],
                            "✓ 已创建目录 "@ + dir,
                        )
                    },
                };
                &&& runs(act, args)
                &&& b.pending matches Some(Pending::GuestFileDone { message }) && message@ == ok_text
                &&& same_except(a, b, set![Part::Mode, Part::GuestFileInput, Part::Pending])
            } else {
                act is Idle && same_except(a, b, set![Part::Mode, Part::GuestFileInput])
            }
        },
        _ => act is Idle && same_except(a, b, set![Part::Mode, Part::GuestFileInput]),
    }
}

/// What a key does on the guest path input.
pub open spec fn guest_input_spec(a: AppState, b: AppState, key: Key, act: Action) -> bool {
    if key == Key::Esc {
        act is Idle && b.guest_file_input is None && b.app_mode == AppMode::GuestFiles
            && same_except(a, b, set![Part::Mode, Part::GuestFileInput])
    } else if key == Key::Enter {
        guest_input_enter_spec(a, b, act)
    } else if key == Key::Backspace || key is Char {
        &&& act is Idle
        &&& same_except(a, b, set![Part::GuestFileInput])
        &&& match a.guest_file_input {
            Some(gi) => b.guest_file_input matches Some(g2) && g2.action == gi.action && g2.buffer@
                == if key == Key::Backspace {
                backspaced(gi.buffer@)
            } else {
                typed_char(gi.buffer@, key->0, 256)
            },
            None => b.guest_file_input is None,
        }
    } else {
        b == a && act is Idle
    }
}

/// Handles a key on the guest path input.
pub fn handle_guest_file_input_event(state: &mut AppState, key: Key) -> (act: Action)
    ensures
        guest_input_spec(*old(state), *final(state), key, act),
{
    match key {
        Key::Esc => {
            state.guest_file_input = None;
            state.app_mode = AppMode::GuestFiles;
            Action::Idle
        },
        Key::Enter => {
            let mut act = Action::Idle;
            match (&state.guest_file_input, &state.guest_state) {
                (Some(gi), Some(gs)) => {
                    let path = string_of(&trim_chars(&chars_of(gi.buffer.as_str())));
                    if !path.as_str().is_empty() {
                        let (args, message) = match &gi.action {
                            GuestFileAction::Upload => {
                                let file = match path_file_name(path.as_str()) {
                                    Some(n) => n,
                                    None => owned("file"),
                                };
                                let dest = in_dir_of(gs.current_dir.as_str(), file.as_str());
                                (
                                    Vmrun::copy_file_to_guest(
                                        gs.vmx_path.as_str(),
                                        gs.user.as_str(),
                                        gs.pass.as_str(),
                                        path.as_str(),
                                        dest.as_str(),
                                    ),
                                    join2("✓ 已上传到 ", dest.as_str()),
                                )
                            },
                            GuestFileAction::Download(gp) => (
                                Vmrun::copy_file_from_guest(
                                    gs.vmx_path.as_str(),
                                    gs.user.as_str(),
                                    gs.pass.as_str(),
                                    gp.as_str(),
                                    path.as_str(),
                                ),
                                join2("✓ 已下载到 ", path.as_str()),
                            ),
                            GuestFileAction::Mkdir => {
                                let dir = in_dir_of(gs.current_dir.as_str(), path.as_str());
                                (
                                    Vmrun::create_directory_in_guest(
                                        gs.vmx_path.as_str(),
                                        gs.user.as_str(),
                                        gs.pass.as_str(),
                                        dir.as_str(),
                                    ),
                                    join2("✓ 已创建目录 ", dir.as_str()),
                                )
                            },
                        };
                        act = Action::Vmrun(args);
                        state.pending = Some(Pending::GuestFileDone { message });
                    }
                },
                _ => {},
            }
            state.guest_file_input = None;
            state.app_mode = AppMode::GuestFiles;
            act
        },
        Key::Backspace => {
            match &mut state.guest_file_input {
                Some(gi) => backspace(&mut gi.buffer),
                None => {},
            }
            Action::Idle
        },
        Key::Char(c) => {
            match &mut state.guest_file_input {
                Some(gi) => type_char(&mut gi.buffer, c, 256),
                None => {},
            }
            Action::Idle
        },
        _ => Action::Idle,
    }
}

/// What a key does in the guest file deletion dialog.
pub open spec fn guest_confirm_spec(a: AppState, b: AppState, key: Key, act: Action) -> bool {
    if key == Key::Char('y') {
        &&& b.app_mode == AppMode::GuestFiles
        &&& match a.guest_state {
            Some(gs) => if gs.selected < gs.entries@.len() {
                let entry = gs.entries@[gs.selected as int]@;
                &&& runs(
                    act,
                    seq![
                        "-gu"@,
                        gs.user@,
                        "-gp"@,
                        gs.pass@,
                        "deleteFileInGuest"@,
                        gs.vmx_path@,
                        in_dir(gs.current_dir@, entry),
                    ],
                )
                &&& b.pending matches Some(Pending::GuestDeleted { entry: e }) && e@ == entry
                &&& same_except(a, b, set![Part::Mode, Part::Pending])
            } else {
                act is Idle && same_except(a, b, set![Part::Mode])
            },
            None => act is Idle && same_except(a, b, set![Part::Mode]),
        }
    } else if key == Key::Char('n') || key == Key::Esc {
        act is Idle && b.app_mode == AppMode::GuestFiles && same_except(a, b, set![Part::Mode])
    } else {
        b == a && act is Idle
    }
}

/// Handles a key in the guest file deletion dialog.
pub fn handle_guest_file_confirm_event(state: &mut AppState, key: Key) -> (act: Action)
    ensures
        guest_confirm_spec(*old(state), *final(state), key, act),
{
    if key == Key::Char('y') {
        let mut act = Action::Idle;
        match &state.guest_state {
            Some(gs) => {
                if gs.selected < gs.entries.len() {
                    let entry = owned(gs.entries[gs.selected].as_str());
                    let full = in_dir_of(gs.current_dir.as_str(), entry.as_str());
                    act = Action::Vmrun(
                        Vmrun::delete_file_in_guest(
                            gs.vmx_path.as_str(),
                            gs.user.as_str(),
                            gs.pass.as_str(),
                            full.as_str(),
                        ),
                    );
                    state.pending = Some(Pending::GuestDeleted { entry });
                }
            },
            None => {},
        }
        state.app_mode = AppMode::GuestFiles;
        act
    } else if key == Key::Char('n') || key == Key::Esc {
        state.app_mode = AppMode::GuestFiles;
        Action::Idle
    } else {
        Action::Idle
    }
}

/// After the guest's root directory was listed with new credentials: the
/// browser opens on it; or the error is shown and the list comes back.
pub open spec fn guest_logged_in_spec(
    a: AppState,
    b: AppState,
    vmx_path: Seq<char>,
    vm_name: Seq<char>,
    user: Seq<char>,
    pass: Seq<char>,
    out: Result<String, VmrunError>,
) -> bool {
    &&& b.pending is None
    &&& match out {
        Ok(o) => {
            &&& b.guest_state matches Some(gs) && gs.vmx_path@ == vmx_path && gs.vm_name@ == vm_name
                && gs.user@ == user && gs.pass@ == pass && gs.current_dir@ == "/"@ && strs(
                gs.entries,
            ) == guest_entries(o@) && gs.selected == 0
            &&& b.app_mode == AppMode::GuestFiles
            &&& cleared(a, b, set![Part::Guest, Part::Mode])
        },
        Err(e) => {
            &&& said(b, "✗ 登录失败: "@ + e.message_spec())
            &&& b.app_mode == AppMode::List
            &&& same_except(a, b, set![Part::Mode, Part::Message, Part::Timer])
        },
    }
}

/// Opens the guest file browser.
pub fn guest_logged_in(
    state: &mut AppState,
    vmx_path: String,
    vm_name: String,
    user: String,
    pass: String,
    out: Result<String, VmrunError>,
)
    requires
        old(state).pending is None,
    ensures
        guest_logged_in_spec(*old(state), *final(state), vmx_path@, vm_name@, user@, pass@, out),
{
    match out {
        Ok(o) => {
            let entries = Vmrun::list_directory_in_guest(o.as_str());
            state.guest_state = Some(
                GuestFilesState {
                    vmx_path,
                    vm_name,
                    user,
                    pass,
                    current_dir: owned("/"),
                    entries,
                    selected: 0,
                },
            );
            state.app_mode = AppMode::GuestFiles;
            state.message = None;
        },
        Err(e) => {
            state.set_message(failure("✗ 登录失败: ", &e));
            state.app_mode = AppMode::List;
        },
    }
}

/// After a guest directory was listed to enter it: the browser shows it;
/// or the refusal is shown.
pub open spec fn guest_entered_spec(a: AppState, b: AppState, dir: Seq<char>, out: Result<String, VmrunError>) -> bool {
    &&& b.pending is None
    &&& match a.guest_state {
        Some(gs) => match out {
            Ok(o) => {
                &&& b.guest_state matches Some(g) && g.current_dir@ == dir && strs(g.entries)
                    == guest_entries(o@) && g.selected == 0 && g.vmx_path == gs.vmx_path && g.vm_name
                    == gs.vm_name && g.user == gs.user && g.pass == gs.pass
                &&& same_except(a, b, set![Part::Guest])
            },
            Err(_) => only_said(a, b, "✗ 无法进入（可能是文件）"@),
        },
        None => b == a,
    }
}

/// Enters the guest directory listed.
pub fn guest_entered(state: &mut AppState, dir: String, out: Result<String, VmrunError>)
    requires
        old(state).pending is None,
    ensures
        guest_entered_spec(*old(state), *final(state), dir@, out),
{
    if state.guest_state.is_none() {
        return ;
    }
    match out {
        Ok(o) => {
            match &mut state.guest_state {
                Some(gs) => {
                    gs.current_dir = dir;
                    gs.entries = Vmrun::list_directory_in_guest(o.as_str());
                    gs.selected = 0;
                },
                None => {},
            }
        },
        Err(_) => {
            state.set_message(owned("✗ 无法进入（可能是文件）"));
        },
    }
}

/// After a guest file operation: its message (the one kept for success,
/// or the error), then the directory listed again.
pub open spec fn guest_file_done_spec(
    a: AppState,
    b: AppState,
    message: Seq<char>,
    out: Result<String, VmrunError>,
    act: Action,
) -> bool {
    &&& said(
        b,
        match out {
            Ok(_) => message,
            Err(e) => "✗ "@ + e.message_spec(),
        },
    )
    &&& match a.guest_state {
        Some(gs) => {
            &&& runs(act, list_dir_args(gs.vmx_path@, gs.user@, gs.pass@, gs.current_dir@))
            &&& b.pending matches Some(Pending::GuestRefreshed { after_delete: false })
            &&& same_except(a, b, set![Part::Message, Part::Timer, Part::Pending])
        },
        None => act is Idle && b.pending is None && same_except(a, b, set![Part::Message, Part::Timer]),
    }
}

/// Completes a guest file operation.
pub fn guest_file_done(state: &mut AppState, message: String, out: Result<String, VmrunError>) -> (act: Action)
    requires
        old(state).pending is None,
    ensures
        guest_file_done_spec(*old(state), *final(state), message@, out, act),
{
    match out {
        Ok(_) => state.set_message(message),
        Err(e) => state.set_message(failure("✗ ", &e)),
    }
    let args = match &state.guest_state {
        Some(gs) => Vmrun::list_directory_in_guest_args(
            gs.vmx_path.as_str(),
            gs.user.as_str(),
            gs.pass.as_str(),
            gs.current_dir.as_str(),
        ),
        None => {
            return Action::Idle;
        },
    };
    state.pending = Some(Pending::GuestRefreshed { after_delete: false });
    Action::Vmrun(args)
}

/// After a guest file was deleted: the message, and the directory listed
/// again; or the error.
pub open spec fn guest_deleted_spec(a: AppState, b: AppState, entry: Seq<char>, out: Result<String, VmrunError>, act: Action) -> bool {
    match out {
        Ok(_) => {
            &&& said(b, "✓ 已删除 "@ + entry)
            &&& match a.guest_state {
                Some(gs) => {
                    &&& runs(act, list_dir_args(gs.vmx_path@, gs.user@, gs.pass@, gs.current_dir@))
                    &&& b.pending matches Some(Pending::GuestRefreshed { after_delete: true })
                    &&& same_except(a, b, set![Part::Message, Part::Timer, Part::Pending])
                },
                None => act is Idle && b.pending is None && same_except(
                    a,
                    b,
                    set![Part::Message, Part::Timer],
                ),
            }
        },
        Err(e) => act is Idle && b.pending is None && only_said(
            a,
            b,
            "✗ 删除失败: "@ + e.message_spec(),
        ),
    }
}

/// Completes the deletion of a guest file.
pub fn guest_deleted(state: &mut AppState, entry: String, out: Result<String, VmrunError>) -> (act: Action)
    requires
        old(state).pending is None,
    ensures
        guest_deleted_spec(*old(state), *final(state), entry@, out, act),
{
    match out {
        Ok(_) => {
            state.set_message(join2("✓ 已删除 ", entry.as_str()));
            let args = match &state.guest_state {
                Some(gs) => Vmrun::list_directory_in_guest_args(
                    gs.vmx_path.as_str(),
                    gs.user.as_str(),
                    gs.pass.as_str(),
                    gs.current_dir.as_str(),
                ),
                None => {
                    return Action::Idle;
                },
            };
            state.pending = Some(Pending::GuestRefreshed { after_delete: true });
            Action::Vmrun(args)
        },
        Err(e) => {
            state.set_message(failure("✗ 删除失败: ", &e));
            Action::Idle
        },
    }
}

/// After the guest directory was listed again: the browser shows it, and
/// after a deletion a selection past the end moves back by one; a failed
/// listing changes nothing.
pub open spec fn guest_refreshed_spec(a: AppState, b: AppState, after_delete: bool, out: Result<String, VmrunError>) -> bool {
    &&& same_except(a, b, set![Part::Guest])
    &&& match (out, a.guest_state) {
        (Ok(o), Some(gs)) => {
            let entries = guest_entries(o@);
            b.guest_state matches Some(g) && strs(g.entries) == entries && g.current_dir
                == gs.current_dir && g.vmx_path == gs.vmx_path && g.vm_name == gs.vm_name && g.user
                == gs.user && g.pass == gs.pass && g.selected == if after_delete {
                kept_in(gs.selected, entries.len())
            } else {
                gs.selected
            }
        },
        _ => b.guest_state == a.guest_state,
    }
}

/// Shows the guest directory listed again.
pub fn guest_refreshed(state: &mut AppState, after_delete: bool, out: Result<String, VmrunError>)
    ensures
        guest_refreshed_spec(*old(state), *final(state), after_delete, out),
{
    match out {
        Ok(o) => {
            match &mut state.guest_state {
                Some(gs) => {
                    gs.entries = Vmrun::list_directory_in_guest(o.as_str());
                    if after_delete && gs.selected >= gs.entries.len() && gs.selected > 0 {
                        gs.selected = gs.selected - 1;
                    }
                },
                None => {},
            }
        },
        Err(_) => {},
    }
}

} // verus!
