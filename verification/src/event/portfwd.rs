//! Keys in the port forwarding view, its rule input and its deletion
//! dialog, and the outcomes of the network commands.
use vstd::prelude::*;
use crate::text::{
    append, chars_of, dec, dec_string, join2, lines_spec, owned, parse_uint, parse_uint_spec,
    skip_n, str_eq, string_of, trim, trim_chars,
};
use crate::ui::state::{AppMode, PortForwardInputState, PortForwardState};
use crate::vmrun::network::{nat_line, rule_line, rules_view};
use crate::vmrun::{collect, strs, Vmrun, VmrunError};
use super::{
    kept_in,
    backspace_field, backspaced, cleared, failure, field_set, only_said, runs, same_except, said,
    type_into_field, typed_char, Action, AppState, Key, Part, Pending,
};

verus! {

/// The NAT network names in what `vmrun listHostNetworks` printed.
pub open spec fn nat_names(out: Seq<char>) -> Seq<Seq<char>> {
    collect(skip_n(lines_spec(out), 2), |l: Seq<char>| nat_line(l))
}

/// The rules in what `vmrun listPortForwardings` printed.
pub open spec fn rule_list(out: Seq<char>) -> Seq<(Seq<char>, int, Seq<char>, int, Seq<char>)> {
    collect(skip_n(lines_spec(out), 1), |l: Seq<char>| rule_line(l))
}

/// `p` is `pfs` with the selection `sel`.
pub open spec fn portfwd_moved(pfs: PortForwardState, p: PortForwardState, sel: usize) -> bool {
    &&& p.selected == sel
    &&& p.rules == pfs.rules
    &&& p.network == pfs.network
}

/// What a key does in the port forwarding view.
pub open spec fn portfwd_key_spec(a: AppState, b: AppState, key: Key, act: Action) -> bool {
    &&& act is Idle
    &&& if key == Key::Esc || key == Key::Char('f') {
        b.app_mode == AppMode::List && b.portfwd_state is None && cleared(
            a,
            b,
            set![Part::Mode, Part::PortFwd],
        )
    } else if key == Key::Down || key == Key::Char('s') || key == Key::Up || key == Key::Char('w') {
        &&& same_except(a, b, set![Part::PortFwd])
        &&& match a.portfwd_state {
            Some(pfs) => b.portfwd_state matches Some(p) && portfwd_moved(
                pfs,
                p,
                if key == Key::Down || key == Key::Char('s') {
                    if pfs.selected + 1 < pfs.rules@.len() {
                        (pfs.selected + 1) as usize
                    } else {
                        pfs.selected
                    }
                } else if pfs.selected > 0 {
                    (pfs.selected - 1) as usize
                } else {
                    pfs.selected
                },
            ),
            None => b.portfwd_state is None,
        }
    } else if key == Key::Char('a') {
        &&& b.portfwd_input matches Some(pi) && pi.field_index == 0 && pi.fields@[0]@ == "tcp"@
            && pi.fields@[1]@.len() == 0 && pi.fields@[2]@.len() == 0 && pi.fields@[3]@.len() == 0
            && pi.fields@[4]@.len() == 0
        &&& b.app_mode == AppMode::PortForwardInput
        &&& cleared(a, b, set![Part::Mode, Part::PortFwdInput])
    } else if key == Key::Char('d') {
        match a.portfwd_state {
            Some(pfs) => if pfs.rules@.len() > 0 {
                b.app_mode == AppMode::PortForwardConfirm && same_except(a, b, set![Part::Mode])
            } else {
                b == a
            },
            None => b == a,
        }
    } else {
        b == a
    }
}

/// Handles a key in the port forwarding view.
pub fn handle_portfwd_event(state: &mut AppState, key: Key) -> (act: Action)
    ensures
        portfwd_key_spec(*old(state), *final(state), key, act),
{
    if key == Key::Esc || key == Key::Char('f') {
        state.app_mode = AppMode::List;
        state.portfwd_state = None;
        state.message = None;
    } else if key == Key::Down || key == Key::Char('s') {
        match &mut state.portfwd_state {
            Some(pfs) => {
                if pfs.selected < pfs.rules.len() && pfs.selected + 1 < pfs.rules.len() {
                    pfs.selected = pfs.selected + 1;
                }
            },
            None => {},
        }
    } else if key == Key::Up || key == Key::Char('w') {
        match &mut state.portfwd_state {
            Some(pfs) => {
                if pfs.selected > 0 {
                    pfs.selected = pfs.selected - 1;
                }
            },
            None => {},
        }
    } else if key == Key::Char('a') {
        state.portfwd_input = Some(PortForwardInputState::new());
        state.app_mode = AppMode::PortForwardInput;
        state.message = None;
    } else if key == Key::Char('d') {
        let has_rules = match &state.portfwd_state {
            Some(pfs) => pfs.rules.len() > 0,
            None => false,
        };
        if has_rules {
            state.app_mode = AppMode::PortForwardConfirm;
        }
    }
    Action::Idle
}

/// A port typed in a field: the trimmed text read as a decimal `u16`, 0
/// when it is not one.
pub open spec fn typed_port(s: Seq<char>) -> int {
    match parse_uint_spec(trim(s), 10, 65535) {
        Some(n) => n,
        None => 0,
    }
}

/// What Enter does on the rule input: a complete rule (protocol `tcp` or
/// `udp`, ports above 0, a guest IP) is added; otherwise the form is
/// refused.
pub open spec fn portfwd_enter_spec(a: AppState, b: AppState, act: Action) -> bool {
    &&& b.portfwd_input is None
    &&& b.app_mode == AppMode::PortForward
    &&& match (a.portfwd_input, a.portfwd_state) {
        (Some(pi), Some(pfs)) => {
            let protocol = trim(pi.fields@[0]@);
            let host_port = typed_port(pi.fields@[1]@);
            let guest_ip = trim(pi.fields@[2]@);
            let guest_port = typed_port(pi.fields@[3]@);
            let description = trim(pi.fields@[4]@);
            if (protocol == "tcp"@ || protocol == "udp"@) && host_port > 0 && guest_ip.len() > 0
                && guest_port > 0 {
                &&& runs(
                    act,
                    seq![
                        "setPortForwarding"@,
                        pfs.network@,
                        protocol,
                        dec(host_port as nat),
                        guest_ip,
                        dec(guest_port as nat),
                        description,
                    ],
                )
                &&& b.pending matches Some(
                    Pending::RuleAdded { protocol: pr, host_port: hp, guest_ip: gi, guest_port: gp },
                ) && pr@ == protocol && hp == host_port && gi@ == guest_ip && gp == guest_port
                &&& same_except(a, b, set![Part::Mode, Part::PortFwdInput, Part::Pending])
            } else {
                act is Idle && said(b, "✗ 请填写完整（协议 tcp/udp，端口 > 0）"@) && same_except(
                    a,
                    b,
                    set![Part::Mode, Part::PortFwdInput, Part::Message, Part::Timer],
                )
            }
        },
        _ => act is Idle && same_except(a, b, set![Part::Mode, Part::PortFwdInput]),
    }
}

/// What a key does on the rule input (whose field index is one of the five).
pub open spec fn portfwd_input_spec(a: AppState, b: AppState, key: Key, act: Action) -> bool {
    if key == Key::Esc {
        act is Idle && b.portfwd_input is None && b.app_mode == AppMode::PortForward
            && same_except(a, b, set![Part::Mode, Part::PortFwdInput])
    } else if key == Key::Enter {
        portfwd_enter_spec(a, b, act)
    } else if key == Key::Tab || key == Key::BackTab || key == Key::Backspace || key is Char {
        &&& act is Idle
        &&& same_except(a, b, set![Part::PortFwdInput])
        &&& match a.portfwd_input {
            Some(pi) => b.portfwd_input matches Some(p2) && if key == Key::Tab {
                p2.fields == pi.fields && p2.field_index == (pi.field_index + 1) % 5
            } else if key == Key::BackTab {
                p2.fields == pi.fields && p2.field_index == if pi.field_index == 0 {
                    4
                } else {
                    pi.field_index - 1
                }
            } else {
                p2.field_index == pi.field_index && field_set(
                    pi.fields@,
                    p2.fields@,
                    pi.field_index as int,
                    if key == Key::Backspace {
                        backspaced(pi.fields@[pi.field_index as int]@)
                    } else {
                        typed_char(pi.fields@[pi.field_index as int]@, key->0, 40)
                    },
                )
            },
            None => b.portfwd_input is None,
        }
    } else {
        b == a && act is Idle
    }
}

/// A port typed in a field.
fn port_of(s: &str) -> (res: u16)
    ensures
        res as int == typed_port(s@),
{
    let t = trim_chars(&chars_of(s));
    match parse_uint(&t, 10, 65535) {
        Some(n) => n as u16,
        None => 0,
    }
}

/// The trimmed text of a field.
fn trimmed(s: &str) -> (res: String)
    ensures
        res@ == trim(s@),
{
    string_of(&trim_chars(&chars_of(s)))
}

/// Handles a key on the rule input.
pub fn handle_portfwd_input_event(state: &mut AppState, key: Key) -> (act: Action)
    requires
        old(state).portfwd_input matches Some(pi) ==> pi.field_index < 5,
    ensures
        portfwd_input_spec(*old(state), *final(state), key, act),
{
    match key {
        Key::Esc => {
            state.portfwd_input = None;
            state.app_mode = AppMode::PortForward;
            Action::Idle
        },
        Key::Tab => {
            match &mut state.portfwd_input {
                Some(pi) => {
                    pi.field_index = (pi.field_index + 1) % 5;
                },
                None => {},
            }
            Action::Idle
        },
        Key::BackTab => {
            match &mut state.portfwd_input {
                Some(pi) => {
                    pi.field_index = if pi.field_index == 0 {
                        4
                    } else {
                        pi.field_index - 1
                    };
                },
                None => {},
            }
            Action::Idle
        },
        Key::Enter => {
            let mut act = Action::Idle;
            let mut incomplete = false;
            match (&state.portfwd_input, &state.portfwd_state) {
                (Some(pi), Some(pfs)) => {
                    let protocol = trimmed(pi.fields[0].as_str());
                    let host_port = port_of(pi.fields[1].as_str());
                    let guest_ip = trimmed(pi.fields[2].as_str());
                    let guest_port = port_of(pi.fields[3].as_str());
                    let description = trimmed(pi.fields[4].as_str());
                    if (str_eq(protocol.as_str(), "tcp") || str_eq(protocol.as_str(), "udp"))
                        && host_port > 0 && !guest_ip.as_str().is_empty() && guest_port > 0 {
                        act = Action::Vmrun(
                            Vmrun::set_port_forwarding(
                                pfs.network.as_str(),
                                protocol.as_str(),
                                host_port,
                                guest_ip.as_str(),
                                guest_port,
                                description.as_str(),
                            ),
                        );
                        state.pending = Some(
                            Pending::RuleAdded { protocol, host_port, guest_ip, guest_port },
                        );
                    } else {
                        incomplete = true;
                    }
                },
                _ => {},
            }
            if incomplete {
                state.set_message(owned("✗ 请填写完整（协议 tcp/udp，端口 > 0）"));
            }
            state.portfwd_input = None;
            state.app_mode = AppMode::PortForward;
            act
        },
        Key::Backspace => {
            match &mut state.portfwd_input {
                Some(pi) => {
                    let i = pi.field_index;
                    backspace_field(&mut pi.fields, i);
                },
                None => {},
            }
            Action::Idle
        },
        Key::Char(c) => {
            match &mut state.portfwd_input {
                Some(pi) => {
                    let i = pi.field_index;
                    type_into_field(&mut pi.fields, i, c, 40);
                },
                None => {},
            }
            Action::Idle
        },
        _ => Action::Idle,
    }
}

/// What a key does in the rule deletion dialog.
pub open spec fn portfwd_confirm_spec(a: AppState, b: AppState, key: Key, act: Action) -> bool {
    if key == Key::Char('y') {
        &&& b.app_mode == AppMode::PortForward
        &&& match a.portfwd_state {
            Some(pfs) => if pfs.selected < pfs.rules@.len() {
                let rule = pfs.rules@[pfs.selected as int];
                &&& runs(
                    act,
                    seq![
                        "deletePortForwarding"@,
                        pfs.network@,
                        rule.protocol@,
                        dec(rule.host_port as nat),
                    ],
                )
                &&& b.pending matches Some(Pending::RuleDeleted { protocol, host_port })
                    && protocol@ == rule.protocol@ && host_port == rule.host_port
                &&& same_except(a, b, set![Part::Mode, Part::Pending])
            } else {
                act is Idle && same_except(a, b, set![Part::Mode])
            },
            None => act is Idle && same_except(a, b, set![Part::Mode]),
        }
    } else if key == Key::Char('n') || key == Key::Esc {
        act is Idle && b.app_mode == AppMode::PortForward && same_except(a, b, set![Part::Mode])
    } else {
        b == a && act is Idle
    }
}

/// Handles a key in the rule deletion dialog.
pub fn handle_portfwd_confirm_event(state: &mut AppState, key: Key) -> (act: Action)
    ensures
        portfwd_confirm_spec(*old(state), *final(state), key, act),
{
    if key == Key::Char('y') {
        let mut act = Action::Idle;
        match &state.portfwd_state {
            Some(pfs) => {
                if pfs.selected < pfs.rules.len() {
                    let rule = &pfs.rules[pfs.selected];
                    act = Action::Vmrun(
                        Vmrun::delete_port_forwarding(
                            pfs.network.as_str(),
                            rule.protocol.as_str(),
                            rule.host_port,
                        ),
                    );
                    state.pending = Some(
                        Pending::RuleDeleted {
                            protocol: owned(rule.protocol.as_str()),
                            host_port: rule.host_port,
                        },
                    );
                }
            },
            None => {},
        }
        state.app_mode = AppMode::PortForward;
        act
    } else if key == Key::Char('n') || key == Key::Esc {
        state.app_mode = AppMode::PortForward;
        Action::Idle
    } else {
        Action::Idle
    }
}

/// After the host networks were listed: the rules of the first NAT network
/// are read next; or the lack of one, or the error, is shown.
pub open spec fn nat_networks_spec(a: AppState, b: AppState, out: Result<String, VmrunError>, act: Action) -> bool {
    match out {
        Ok(o) => {
            let nets = nat_names(o@);
            if nets.len() > 0 {
                &&& runs(act, seq!["listPortForwardings"@, nets[0]])
                &&& b.pending matches Some(Pending::OpenPortForward { network }) && network@ == nets[0]
                &&& same_except(a, b, set![Part::Pending])
            } else {
                act is Idle && b.pending is None && only_said(a, b, "✗ 未找到 NAT 网络"@)
            }
        },
        Err(e) => act is Idle && b.pending is None && only_said(
            a,
            b,
            "✗ 获取网络失败: "@ + e.message_spec(),
        ),
    }
}

/// Continues once the host networks are listed.
pub fn nat_networks(state: &mut AppState, out: Result<String, VmrunError>) -> (act: Action)
    requires
        old(state).pending is None,
    ensures
        nat_networks_spec(*old(state), *final(state), out, act),
{
    match out {
        Ok(o) => {
            let nets = Vmrun::list_nat_networks(o.as_str());
            if nets.len() > 0 {
                let network = owned(nets[0].as_str());
                let args = Vmrun::list_port_forwardings_args(network.as_str());
                state.pending = Some(Pending::OpenPortForward { network });
                Action::Vmrun(args)
            } else {
                state.set_message(owned("✗ 未找到 NAT 网络"));
                Action::Idle
            }
        },
        Err(e) => {
            state.set_message(failure("✗ 获取网络失败: ", &e));
            Action::Idle
        },
    }
}

/// After the rules were read for the rule view: the view opens on them
/// (on none when reading failed).
pub open spec fn portfwd_opened_spec(a: AppState, b: AppState, network: Seq<char>, out: Result<String, VmrunError>) -> bool {
    &&& b.portfwd_state matches Some(pfs) && pfs.network@ == network && pfs.selected == 0
        && rules_view(pfs.rules) == match out {
        Ok(o) => rule_list(o@),
        Err(_) => Seq::empty(),
    }
    &&& b.app_mode == AppMode::PortForward
    &&& b.pending is None
    &&& cleared(a, b, set![Part::PortFwd, Part::Mode, Part::Pending])
}

/// Opens the rule view.
pub fn portfwd_opened(state: &mut AppState, network: String, out: Result<String, VmrunError>)
    requires
        old(state).pending is None,
    ensures
        portfwd_opened_spec(*old(state), *final(state), network@, out),
{
    let rules = match out {
        Ok(o) => Vmrun::list_port_forwardings(o.as_str()),
        Err(_) => {
            let v = Vec::new();
            assert(rules_view(v) =~= Seq::empty());
            v
        },
    };
    state.portfwd_state = Some(PortForwardState { network, rules, selected: 0 });
    state.app_mode = AppMode::PortForward;
    state.message = None;
}

/// After a rule command: the message, and on success the rules read
/// again when the view is open.
pub open spec fn rule_done_spec(
    a: AppState,
    b: AppState,
    out: Result<String, VmrunError>,
    ok_text: Seq<char>,
    err_prefix: Seq<char>,
    after_delete: bool,
    act: Action,
) -> bool {
    match out {
        Ok(_) => {
            &&& said(b, ok_text)
            &&& match a.portfwd_state {
                Some(pfs) => {
                    &&& runs(act, seq!["listPortForwardings"@, pfs.network@])
                    &&& b.pending matches Some(Pending::RulesRefreshed { after_delete: d })
                        && d == after_delete
                    &&& same_except(a, b, set![Part::Message, Part::Timer, Part::Pending])
                },
                None => act is Idle && b.pending is None && same_except(
                    a,
                    b,
                    set![Part::Message, Part::Timer],
                ),
            }
        },
        Err(e) => act is Idle && b.pending is None && only_said(
            a,
            b,
            err_prefix + e.message_spec(),
        ),
    }
}

/// Completes a rule command.
fn rule_done(
    state: &mut AppState,
    out: Result<String, VmrunError>,
    ok_text: String,
    err_prefix: &str,
    after_delete: bool,
) -> (act: Action)
    requires
        old(state).pending is None,
    ensures
        rule_done_spec(*old(state), *final(state), out, ok_text@, err_prefix@, after_delete, act),
{
    match out {
        Ok(_) => {
            state.set_message(ok_text);
            let args = match &state.portfwd_state {
                Some(pfs) => Vmrun::list_port_forwardings_args(pfs.network.as_str()),
                None => {
                    return Action::Idle;
                },
            };
            state.pending = Some(Pending::RulesRefreshed { after_delete });
            Action::Vmrun(args)
        },
        Err(e) => {
            state.set_message(failure(err_prefix, &e));
            Action::Idle
        },
    }
}

/// The message of an added rule: `✓ 已添加 <protocol> :<host port> → <guest ip>:<guest port>`.
pub open spec fn rule_added_text(protocol: Seq<char>, host_port: u16, guest_ip: Seq<char>, guest_port: u16) -> Seq<char> {
    "✓ 已添加 "@ + protocol + " :"@ + dec(host_port as nat) + " → "@ + guest_ip + ":"@ + dec(
        guest_port as nat,
    )
}

/// Completes the addition of a rule.
pub fn rule_added(
    state: &mut AppState,
    protocol: String,
    host_port: u16,
    guest_ip: String,
    guest_port: u16,
    out: Result<String, VmrunError>,
) -> (act: Action)
    requires
        old(state).pending is None,
    ensures
        rule_done_spec(
            *old(state),
            *final(state),
            out,
            rule_added_text(protocol@, host_port, guest_ip@, guest_port),
            "✗ 添加失败: "@,
            false,
            act,
        ),
{
    let mut m = join2("✓ 已添加 ", protocol.as_str());
    append(&mut m, " :");
    append(&mut m, dec_string(host_port as u64).as_str());
    append(&mut m, " → ");
    append(&mut m, guest_ip.as_str());
    append(&mut m, ":");
    append(&mut m, dec_string(guest_port as u64).as_str());
    rule_done(state, out, m, "✗ 添加失败: ", false)
}

/// Completes the deletion of a rule.
pub fn rule_deleted(state: &mut AppState, protocol: String, host_port: u16, out: Result<String, VmrunError>) -> (act: Action)
    requires
        old(state).pending is None,
    ensures
        rule_done_spec(
            *old(state),
            *final(state),
            out,
            "✓ 已删除 "@ + protocol@ + " :"@ + dec(host_port as nat),
            "✗ 删除失败: "@,
            true,
            act,
        ),
{
    let mut m = join2("✓ 已删除 ", protocol.as_str());
    append(&mut m, " :");
    append(&mut m, dec_string(host_port as u64).as_str());
    rule_done(state, out, m, "✗ 删除失败: ", true)
}

/// After the rules were read again: the view shows them, and after a
/// deletion a selection past the end moves back by one; a failed read
/// changes nothing.
pub open spec fn rules_refreshed_spec(a: AppState, b: AppState, after_delete: bool, out: Result<String, VmrunError>) -> bool {
    &&& same_except(a, b, set![Part::PortFwd])
    &&& match (out, a.portfwd_state) {
        (Ok(o), Some(pfs)) => {
            let rules = rule_list(o@);
            b.portfwd_state matches Some(p) && rules_view(p.rules) == rules && p.network
                == pfs.network && p.selected == if after_delete {
                kept_in(pfs.selected, rules.len())
            } else {
                pfs.selected
            }
        },
        _ => b.portfwd_state == a.portfwd_state,
    }
}

/// Shows the rules read again.
pub fn rules_refreshed(state: &mut AppState, after_delete: bool, out: Result<String, VmrunError>)
    ensures
        rules_refreshed_spec(*old(state), *final(state), after_delete, out),
{
    match out {
        Ok(o) => {
            match &mut state.portfwd_state {
                Some(pfs) => {
                    pfs.rules = Vmrun::list_port_forwardings(o.as_str());
                    if after_delete && pfs.selected >= pfs.rules.len() && pfs.selected > 0 {
                        pfs.selected = pfs.selected - 1;
                    }
                },
                None => {},
            }
        },
        Err(_) => {},
    }
}

} // verus!
