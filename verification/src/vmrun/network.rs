//! Host network, port forwarding, shared folder and clone commands.
use vstd::prelude::*;
use crate::text::{
    skip_n,
    chars_eq, chars_of, dec, dec_string, find_char, find_char_from, find_char_spec, join2,
    lemma_char_vec_deep_view, lemma_find_char_from, lines, lines_spec, lowercase_chars, owned,
    parse_uint, parse_uint_spec, slice, split_chars, splitn, str_lowercase, string_of, trim,
    trim_chars, words, words_spec,
};
use super::{args2, args3, args4, args5, collect, lemma_collect_step, strs, Vmrun};

verus! {

/// A port forwarding rule of a NAT network.
#[derive(Debug, Clone)]
pub struct PortForwarding {
    /// Protocol (tcp/udp).
    pub protocol: String,
    /// Host port.
    pub host_port: u16,
    /// Guest IP address.
    pub guest_ip: String,
    /// Guest port.
    pub guest_port: u16,
    /// Description.
    pub description: String,
}

impl View for PortForwarding {
    type V = (Seq<char>, int, Seq<char>, int, Seq<char>);

    open spec fn view(&self) -> (Seq<char>, int, Seq<char>, int, Seq<char>) {
        (
            self.protocol@,
            self.host_port as int,
            self.guest_ip@,
            self.guest_port as int,
            self.description@,
        )
    }
}

/// The rule a line of `vmrun listPortForwardings` gives, of the form
/// `[protocol] host_port <word> guest_ip:guest_port description`: the line
/// (trimmed) starts with `[`; the protocol lies before the first `]`; the
/// rest (trimmed) is split at spaces into at most four parts, the first a
/// port, the third `ip:port`, the fourth (if any) the description.
pub open spec fn port_forward_spec(line: Seq<char>) -> Option<(Seq<char>, int, Seq<char>, int, Seq<char>)> {
    let l = trim(line);
    if !(l.len() > 0 && l[0] == '[') {
        None
    } else {
        let b = find_char_spec(l, ']');
        if b == -1 {
            None
        } else {
            let protocol = l.subrange(1, b);
            let rest = trim(l.skip(b + 1));
            let parts = splitn(rest, 4, ' ');
            if parts.len() < 3 {
                None
            } else {
                match parse_uint_spec(parts[0], 10, 65535) {
                    None => None,
                    Some(hp) => {
                        let gp = splitn(parts[2], 2, ':');
                        if gp.len() < 2 {
                            None
                        } else {
                            match parse_uint_spec(gp[1], 10, 65535) {
                                None => None,
                                Some(g) => Some(
                                    (
                                        protocol,
                                        hp,
                                        gp[0],
                                        g,
                                        if parts.len() >= 4 {
                                            parts[3]
                                        } else {
                                            Seq::empty()
                                        },
                                    ),
                                ),
                            }
                        }
                    },
                }
            }
        }
    }
}

/// A rule line of `vmrun listPortForwardings`: not blank, and a rule.
pub open spec fn rule_line(l: Seq<char>) -> Option<(Seq<char>, int, Seq<char>, int, Seq<char>)> {
    if trim(l).len() == 0 {
        None
    } else {
        port_forward_spec(l)
    }
}

/// A NAT network line of `vmrun listHostNetworks`: the second word when
/// the third word is `nat` (in any case).
pub open spec fn nat_line(l: Seq<char>) -> Option<Seq<char>> {
    let w = words_spec(l);
    if w.len() >= 3 && str_lowercase(w[2]) == "nat"@ {
        Some(w[1])
    } else {
        None
    }
}

/// The list of rules by their views.
pub open spec fn rules_view(v: Vec<PortForwarding>) -> Seq<(Seq<char>, int, Seq<char>, int, Seq<char>)> {
    v@.map_values(|r: PortForwarding| r@)
}

impl PortForwarding {
    /// Reads one line of `vmrun listPortForwardings`, as `port_forward_spec` says.
    pub fn parse(line: &str) -> (res: Option<PortForwarding>)
        ensures
            match res {
                Some(r) => port_forward_spec(line@) == Some(r@),
                None => port_forward_spec(line@) is None,
            },
    {
        let lc = chars_of(line);
        let l = trim_chars(&lc);
        if !(l.len() > 0 && l[0] == '[') {
            return None;
        }
        let b = match find_char(&l, ']', 0) {
            Some(b) => b,
            None => {
                return None;
            },
        };
        proof {
            lemma_find_char_from(l@, ']', 0);
            assert(find_char_from(l@, ']', 0) != -1);
            assert(b < l.len());
        }
        if b == 0 {
            return None;
        }
        let protocol = slice(&l, 1, b);
        let after = slice(&l, b + 1, l.len());
        assert(after@ =~= l@.skip(b + 1));
        let rest = trim_chars(&after);
        let parts = split_chars(&rest, ' ', Some(4));
        if parts.len() < 3 {
            return None;
        }
        proof {
            lemma_char_vec_deep_view(&parts[0]);
            lemma_char_vec_deep_view(&parts[2]);
        }
        let hp = match parse_uint(&parts[0], 10, 65535) {
            Some(n) => n,
            None => {
                return None;
            },
        };
        let gp = split_chars(&parts[2], ':', Some(2));
        if gp.len() < 2 {
            return None;
        }
        proof {
            lemma_char_vec_deep_view(&gp[0]);
            lemma_char_vec_deep_view(&gp[1]);
        }
        let g = match parse_uint(&gp[1], 10, 65535) {
            Some(n) => n,
            None => {
                return None;
            },
        };
        let description = if parts.len() >= 4 {
            proof {
                lemma_char_vec_deep_view(&parts[3]);
            }
            string_of(&parts[3])
        } else {
            let e = String::new();
            e
        };
        Some(
            PortForwarding {
                protocol: string_of(&protocol),
                host_port: hp as u16,
                guest_ip: string_of(&gp[0]),
                guest_port: g as u16,
                description,
            },
        )
    }
}

impl Vmrun {
    /// Arguments that list the host networks.
    pub fn list_nat_networks_args() -> (res: Vec<String>)
        ensures
            strs(res) == seq!["listHostNetworks"@],
    {
        let mut v: Vec<String> = Vec::new();
        v.push(owned("listHostNetworks"));
        assert(strs(v) =~= seq!["listHostNetworks"@]);
        v
    }

    /// The NAT network names `vmrun listHostNetworks` printed: from each
    /// line after the two header lines, the second word when the third is
    /// `nat`.
    pub fn list_nat_networks(output: &str) -> (res: Vec<String>)
        ensures
            strs(res) == collect(skip_n(lines_spec(output@), 2), |l: Seq<char>| nat_line(l)),
    {
        let cs = chars_of(output);
        let ls = lines(&cs);
        let ghost all = ls.deep_view();
        let ghost lv = skip_n(all, 2);
        let nat_word = chars_of("nat");
        let mut res: Vec<String> = Vec::new();
        if ls.len() <= 2 {
            assert(lv =~= Seq::<Seq<char>>::empty());
            return res;
        }
        let mut i: usize = 2;
        assert(lv.take(0) =~= Seq::<Seq<char>>::empty());
        while i < ls.len()
            invariant
                2 <= i <= ls.len(),
                all == ls.deep_view(),
                all == lines_spec(output@),
                lv == skip_n(all, 2),
                nat_word@ == "nat"@,
                strs(res) =~= collect(lv.take(i - 2), |l: Seq<char>| nat_line(l)),
            decreases ls.len() - i,
        {
            proof {
                lemma_collect_step(lv, i - 2, |l: Seq<char>| nat_line(l));
                lemma_char_vec_deep_view(&ls[i as int]);
                assert(lv[i - 2] == all[i as int]);
            }
            let w = words(&ls[i]);
            if w.len() >= 3 {
                proof {
                    lemma_char_vec_deep_view(&w[1]);
                    lemma_char_vec_deep_view(&w[2]);
                }
                let low = lowercase_chars(&w[2]);
                if chars_eq(&low, &nat_word) {
                    res.push(string_of(&w[1]));
                }
            }
            i = i + 1;
        }
        assert(lv.take(ls.len() - 2) =~= lv);
        res
    }

    /// Arguments that list the port forwarding rules of a network.
    pub fn list_port_forwardings_args(network: &str) -> (res: Vec<String>)
        ensures
            strs(res) == seq!["listPortForwardings"@, network@],
    {
        args2("listPortForwardings", network)
    }

    /// The rules `vmrun listPortForwardings` printed: every line after the
    /// first that is a rule.
    pub fn list_port_forwardings(output: &str) -> (res: Vec<PortForwarding>)
        ensures
            rules_view(res) == collect(skip_n(lines_spec(output@), 1), |l: Seq<char>| rule_line(l)),
    {
        let cs = chars_of(output);
        let ls = lines(&cs);
        let ghost all = ls.deep_view();
        let ghost lv = skip_n(all, 1);
        let mut res: Vec<PortForwarding> = Vec::new();
        if ls.len() <= 1 {
            assert(lv =~= Seq::<Seq<char>>::empty());
            return res;
        }
        let mut i: usize = 1;
        assert(lv.take(0) =~= Seq::<Seq<char>>::empty());
        while i < ls.len()
            invariant
                1 <= i <= ls.len(),
                all == ls.deep_view(),
                all == lines_spec(output@),
                lv == skip_n(all, 1),
                rules_view(res) =~= collect(lv.take(i - 1), |l: Seq<char>| rule_line(l)),
            decreases ls.len() - i,
        {
            proof {
                lemma_collect_step(lv, i - 1, |l: Seq<char>| rule_line(l));
                lemma_char_vec_deep_view(&ls[i as int]);
                assert(lv[i - 1] == all[i as int]);
            }
            let t = trim_chars(&ls[i]);
            if t.len() > 0 {
                let line = string_of(&ls[i]);
                match PortForwarding::parse(line.as_str()) {
                    Some(r) => {
                        res.push(r);
                    },
                    None => {},
                }
            }
            i = i + 1;
        }
        assert(lv.take(ls.len() - 1) =~= lv);
        res
    }

    /// Arguments that add a port forwarding rule.
    pub fn set_port_forwarding(
        network: &str,
        protocol: &str,
        host_port: u16,
        guest_ip: &str,
        guest_port: u16,
        description: &str,
    ) -> (res: Vec<String>)
        ensures
            strs(res) == seq![
                "setPortForwarding"@,
                network@,
                protocol@,
                dec(host_port as nat),
                guest_ip@,
                dec(guest_port as nat),
                description@,
            ],
    {
        let hp = dec_string(host_port as u64);
        let gp = dec_string(guest_port as u64);
        let mut v = args4("setPortForwarding", network, protocol, hp.as_str());
        let ghost v4 = strs(v);
        v.push(owned(guest_ip));
        assert(strs(v) =~= v4.push(guest_ip@));
        let ghost v5 = strs(v);
        v.push(gp);
        assert(strs(v) =~= v5.push(dec(guest_port as nat)));
        let ghost v6 = strs(v);
        v.push(owned(description));
        assert(strs(v) =~= v6.push(description@));
        assert(strs(v) =~= seq![
            "setPortForwarding"@,
            network@,
            protocol@,
            dec(host_port as nat),
            guest_ip@,
            dec(guest_port as nat),
            description@,
        ]);
        v
    }

    /// Arguments that delete a port forwarding rule.
    pub fn delete_port_forwarding(network: &str, protocol: &str, host_port: u16) -> (res: Vec<String>)
        ensures
            strs(res) == seq!["deletePortForwarding"@, network@, protocol@, dec(host_port as nat)],
    {
        let hp = dec_string(host_port as u64);
        args4("deletePortForwarding", network, protocol, hp.as_str())
    }

    /// Arguments that enable shared folders while the machine runs.
    pub fn enable_shared_folders(vmx_path: &str) -> (res: Vec<String>)
        ensures
            strs(res) == seq!["enableSharedFolders"@, vmx_path@, "runtime"@],
    {
        args3("enableSharedFolders", vmx_path, "runtime")
    }

    /// Arguments that disable shared folders while the machine runs.
    pub fn disable_shared_folders(vmx_path: &str) -> (res: Vec<String>)
        ensures
            strs(res) == seq!["disableSharedFolders"@, vmx_path@, "runtime"@],
    {
        args3("disableSharedFolders", vmx_path, "runtime")
    }

    /// Arguments that add a shared folder.
    pub fn add_shared_folder(vmx_path: &str, name: &str, host_path: &str) -> (res: Vec<String>)
        ensures
            strs(res) == seq!["addSharedFolder"@, vmx_path@, name@, host_path@],
    {
        args4("addSharedFolder", vmx_path, name, host_path)
    }

    /// Arguments that remove a shared folder.
    pub fn remove_shared_folder(vmx_path: &str, name: &str) -> (res: Vec<String>)
        ensures
            strs(res) == seq!["removeSharedFolder"@, vmx_path@, name@],
    {
        args3("removeSharedFolder", vmx_path, name)
    }

    /// Arguments that make a shared folder writable or read-only.
    pub fn set_shared_folder_state(vmx_path: &str, name: &str, host_path: &str, writable: bool) -> (res: Vec<String>)
        ensures
            strs(res) == seq![
                "setSharedFolderState"@,
                vmx_path@,
                name@,
                host_path@,
                if writable {
                    "writable"@
                } else {
                    "readonly"@
                },
            ],
    {
        let mode = if writable {
            "writable"
        } else {
            "readonly"
        };
        args5("setSharedFolderState", vmx_path, name, host_path, mode)
    }

    /// Arguments that clone a machine (`full` or `linked`) under a name.
    pub fn clone_vm(source_vmx: &str, dest_vmx: &str, clone_type: &str, clone_name: &str) -> (res: Vec<String>)
        ensures
            strs(res) == seq![
                "clone"@,
                source_vmx@,
                dest_vmx@,
                clone_type@,
                "-cloneName="@ + clone_name@,
            ],
    {
        let n = join2("-cloneName=", clone_name);
        args5("clone", source_vmx, dest_vmx, clone_type, n.as_str())
    }
}

} // verus!
