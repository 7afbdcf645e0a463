//! Keys while the SSH settings are typed.
use vstd::prelude::*;
use crate::text::{chars_of, dec, dec_string, join2, join3, owned, string_of, trim, trim_chars};
use crate::vmrun::strs;
use crate::ui::state::AppMode;
use super::{
    backspace_field, backspaced, field_set, only_said, push_field, same_except, Action,
    AppState, Key, Part, SshExecRequest,
};

verus! {

/// What a key does while the SSH settings are typed (the field being
/// typed is one of the two).
pub open spec fn ssh_key_spec(a: AppState, b: AppState, key: Key, act: Action) -> bool {
    &&& act is Idle
    &&& if key == Key::Tab || key == Key::BackTab {
        &&& same_except(a, b, set![Part::SshLogin])
        &&& match a.ssh_login {
            Some(sl) => b.ssh_login matches Some(s2) && s2.fields == sl.fields && s2.ip == sl.ip
                && s2.vm_name == sl.vm_name && s2.field_index == if key == Key::Tab {
                ((sl.field_index + 1) % 2) as usize
            } else if sl.field_index == 0 {
                1usize
            } else {
                0usize
            },
            None => b.ssh_login is None,
        }
    } else if key is Char || key == Key::Backspace {
        &&& same_except(a, b, set![Part::SshLogin])
        &&& match a.ssh_login {
            Some(sl) => b.ssh_login matches Some(s2) && s2.field_index == sl.field_index && s2.ip
                == sl.ip && s2.vm_name == sl.vm_name && field_set(
                sl.fields@,
                s2.fields@,
                sl.field_index as int,
                if key == Key::Backspace {
                    backspaced(sl.fields@[sl.field_index as int]@)
                } else {
                    sl.fields@[sl.field_index as int]@.push(key->0)
                },
            ),
            None => b.ssh_login is None,
        }
    } else if key == Key::Enter {
        match a.ssh_login {
            Some(sl) => {
                let user = trim(sl.fields@[0]@);
                let port = trim(sl.fields@[1]@);
                if user.len() == 0 {
                    only_said(a, b, "✗ 用户名不能为空"@)
                } else {
                    &&& b.ssh_exec matches Some(r) && r.user@ == user && r.ip == sl.ip && r.port@
                        == if port.len() == 0 {
                        "22"@
                    } else {
                        port
                    }
                    &&& b.ssh_login is None
                    &&& b.app_mode == AppMode::List
                    &&& same_except(a, b, set![Part::SshExec, Part::SshLogin, Part::Mode])
                }
            },
            None => b == a,
        }
    } else if key == Key::Esc {
        b.ssh_login is None && b.app_mode == AppMode::List && same_except(
            a,
            b,
            set![Part::SshLogin, Part::Mode],
        )
    } else {
        b == a
    }
}

/// Handles a key while the SSH settings are typed.
pub fn handle_ssh_login_event(state: &mut AppState, key: Key) -> (act: Action)
    requires
        old(state).ssh_login matches Some(sl) ==> sl.field_index < 2,
    ensures
        ssh_key_spec(*old(state), *final(state), key, act),
{
    match key {
        Key::Tab => {
            match &mut state.ssh_login {
                Some(sl) => {
                    sl.field_index = (sl.field_index + 1) % 2;
                },
                None => {},
            }
        },
        Key::BackTab => {
            match &mut state.ssh_login {
                Some(sl) => {
                    sl.field_index = if sl.field_index == 0 {
                        1
                    } else {
                        0
                    };
                },
                None => {},
            }
        },
        Key::Char(c) => {
            match &mut state.ssh_login {
                Some(sl) => {
                    let i = sl.field_index;
                    push_field(&mut sl.fields, i, c);
                },
                None => {},
            }
        },
        Key::Backspace => {
            match &mut state.ssh_login {
                Some(sl) => {
                    let i = sl.field_index;
                    backspace_field(&mut sl.fields, i);
                },
                None => {},
            }
        },
        Key::Enter => {
            let mut request: Option<SshExecRequest> = None;
            let mut empty_user = false;
            match &state.ssh_login {
                Some(sl) => {
                    let user = string_of(&trim_chars(&chars_of(sl.fields[0].as_str())));
                    let port = string_of(&trim_chars(&chars_of(sl.fields[1].as_str())));
                    if user.as_str().is_empty() {
                        empty_user = true;
                    } else {
                        let port = if port.as_str().is_empty() {
                            owned("22")
                        } else {
                            port
                        };
                        request = Some(SshExecRequest { user, ip: sl.ip.clone(), port });
                    }
                },
                None => {},
            }
            if empty_user {
                state.set_message(owned("✗ 用户名不能为空"));
            } else if request.is_some() {
                state.ssh_exec = request;
                state.ssh_login = None;
                state.app_mode = AppMode::List;
            }
        },
        Key::Esc => {
            state.ssh_login = None;
            state.app_mode = AppMode::List;
        },
        _ => {},
    }
    Action::Idle
}

/// How an SSH session ended.
pub enum SshOutcome {
    /// It ended with success.
    Finished,
    /// It ended with this exit code (-1 when there was none).
    Exited(i32),
    /// `ssh` could not be started, with the error's message.
    Failed(String),
}

/// A signed number in decimal.
pub open spec fn signed_dec(n: int) -> Seq<char> {
    if n < 0 {
        "-"@ + dec((-n) as nat)
    } else {
        dec(n as nat)
    }
}

/// The arguments of the `ssh` command for a request: its port, no host key
/// check, and `user@ip`.
pub fn ssh_args(req: &SshExecRequest) -> (res: Vec<String>)
    ensures
        strs(res) == seq![
            "-p"@,
            req.port@,
            "-o"@,
            "StrictHostKeyChecking=no"@,
            req.user@ + "@"@ + req.ip@,
        ],
{
    let mut v: Vec<String> = Vec::new();
    v.push(owned("-p"));
    v.push(owned(req.port.as_str()));
    v.push(owned("-o"));
    v.push(owned("StrictHostKeyChecking=no"));
    v.push(join3(req.user.as_str(), "@", req.ip.as_str()));
    assert(strs(v) =~= seq![
        "-p"@,
        req.port@,
        "-o"@,
        "StrictHostKeyChecking=no"@,
        req.user@ + "@"@ + req.ip@,
    ]);
    v
}

/// The message shown when an SSH session ends.
pub open spec fn ssh_outcome_text(o: SshOutcome) -> Seq<char> {
    match o {
        SshOutcome::Finished => "✓ SSH 会话已结束"@,
        SshOutcome::Exited(c) => "✗ SSH 退出码: "@ + signed_dec(c as int),
        SshOutcome::Failed(e) => "✗ SSH 启动失败: "@ + e@,
    }
}

impl AppState {
    /// Shows how an SSH session ended.
    pub fn ssh_finished(&mut self, outcome: SshOutcome)
        ensures
            only_said(*old(self), *final(self), ssh_outcome_text(outcome)),
    {
        let m = match &outcome {
            SshOutcome::Finished => owned("✓ SSH 会话已结束"),
            SshOutcome::Exited(c) => {
                let n = if *c < 0 {
                    let mag: u64 = (0 - (*c as i64)) as u64;
                    join2("-", dec_string(mag).as_str())
                } else {
                    dec_string(*c as u64)
                };
                join2("✗ SSH 退出码: ", n.as_str())
            },
            SshOutcome::Failed(e) => join2("✗ SSH 启动失败: ", e.as_str()),
        };
        self.set_message(m);
    }
}

} // verus!
