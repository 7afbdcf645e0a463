//! Virtual machines as the manager lists them.
use vstd::prelude::*;
use crate::paths::{path_file_name, path_parent, std_path_file_name, std_path_parent};
use crate::text::{
    chars_of, dec, dec_string, find_char, find_char_from, find_char_spec, has_prefix, join2,
    lemma_char_vec_deep_view, lemma_find_char_from, lines, lines_spec, owned, parse_uint,
    parse_uint_spec, remove_all, remove_all_chars, slice, split_all, split_chars, starts_with,
    string_of, trim, trim_chars, trim_matches, trim_matches_chars,
};

verus! {

/// The power state of a virtual machine.
#[derive(Clone, Copy, Debug, PartialEq, Eq, Structural)]
pub enum VmState {
    Running,
    Stopped,
    Paused,
    Unknown,
}

impl VmState {
    /// The text shown for a state.
    pub open spec fn display_spec(self) -> Seq<char> {
        match self {
            VmState::Running => "Running"@,
            VmState::Stopped => "Stopped"@,
            VmState::Paused => "Paused"@,
            VmState::Unknown => "Unknown"@,
        }
    }

    /// The text shown for a state.
    pub fn display_name(&self) -> (res: &'static str)
        ensures
            res@ == self.display_spec(),
    {
        match self {
            VmState::Running => "Running",
            VmState::Stopped => "Stopped",
            VmState::Paused => "Paused",
            VmState::Unknown => "Unknown",
        }
    }
}

/// A virtual machine: its `.vmx` path, name, state and IP address.
#[derive(Debug, Clone)]
pub struct Vm {
    /// The `.vmx` file's path.
    pub vmx_path: String,
    /// The name, taken from the bundle directory's name.
    pub name: String,
    /// The current state.
    pub state: VmState,
    /// The IP address, when known.
    pub ip: Option<String>,
}

impl View for Vm {
    type V = (Seq<char>, Seq<char>, VmState, Option<Seq<char>>);

    open spec fn view(&self) -> (Seq<char>, Seq<char>, VmState, Option<Seq<char>>) {
        (
            self.vmx_path@,
            self.name@,
            self.state,
            match self.ip {
                Some(s) => Some(s@),
                None => None,
            },
        )
    }
}

/// The name of the bundle directory a path lies in, with `.vmwarevm`
/// removed; `fallback` when the path has no parent with a name.
pub open spec fn bundle_name(path: Seq<char>, fallback: Seq<char>) -> Seq<char> {
    let dir_name = match std_path_parent(path) {
        Some(p) => match std_path_file_name(p) {
            Some(n) => n,
            None => fallback,
        },
        None => fallback,
    };
    remove_all(dir_name, ".vmwarevm"@)
}

/// The bundle directory name of a path, `.vmwarevm` removed.
pub fn bundle_name_of(path: &str, fallback: &str) -> (res: String)
    ensures
        res@ == bundle_name(path@, fallback@),
{
    let dir_name = match path_parent(path) {
        Some(p) => match path_file_name(p.as_str()) {
            Some(n) => n,
            None => owned(fallback),
        },
        None => owned(fallback),
    };
    let dc = chars_of(dir_name.as_str());
    let pat = chars_of(".vmwarevm");
    proof {
        reveal_strlit(".vmwarevm");
    }
    let r = remove_all_chars(&dc, &pat);
    string_of(&r)
}

/// The IP address derived from a `ethernetN.address = "xx:xx:xx:B3:B4:xx"`
/// line: `172.16.B3.B4`, the fourth and fifth bytes of the MAC address in
/// decimal; none when the line has no `=`, fewer than six parts, or those
/// two parts are not hexadecimal bytes.
pub open spec fn mac_to_ip_spec(line: Seq<char>) -> Option<Seq<char>> {
    let eq = find_char_spec(line, '=');
    if eq == -1 {
        None
    } else {
        let mac = trim_matches(trim(line.skip(eq + 1)), '"');
        let parts = split_all(mac, ':');
        if parts.len() >= 6 {
            match (parse_uint_spec(parts[3], 16, 255), parse_uint_spec(parts[4], 16, 255)) {
                (Some(b3), Some(b4)) => Some(
                    "172.16."@ + dec(b3 as nat) + "."@ + dec(b4 as nat),
                ),
                _ => None,
            }
        } else {
            None
        }
    }
}

/// Every address derived from a MAC address line is in the `172.16`
/// network, with two numbers of at most 255 after it.
pub proof fn law_mac_ip_in_nat_range(line: Seq<char>)
    ensures
        mac_to_ip_spec(line) matches Some(ip) ==> {
            &&& has_prefix(ip, "172.16."@)
            &&& exists|b3: nat, b4: nat|
                b3 <= 255 && b4 <= 255 && ip == "172.16."@ + dec(b3) + "."@ + dec(b4)
        },
{
    let eq = find_char_spec(line, '=');
    if eq != -1 {
        let mac = trim_matches(trim(line.skip(eq + 1)), '"');
        let parts = split_all(mac, ':');
        if parts.len() >= 6 {
            crate::text::lemma_parse_uint_range(parts[3], 16, 255);
            crate::text::lemma_parse_uint_range(parts[4], 16, 255);
            match (parse_uint_spec(parts[3], 16, 255), parse_uint_spec(parts[4], 16, 255)) {
                (Some(b3), Some(b4)) => {
                    let ip = "172.16."@ + dec(b3 as nat) + "."@ + dec(b4 as nat);
                    assert(ip.take("172.16."@.len() as int) =~= "172.16."@);
                    assert(ip == "172.16."@ + dec(b3 as nat) + "."@ + dec(b4 as nat));
                },
                _ => {},
            }
        }
    }
}

/// Whether a trimmed `.vmx` line names the first adapter's MAC address.
pub open spec fn is_mac_line(t: Seq<char>) -> bool {
    has_prefix(t, "ethernet0.generatedAddress"@) || has_prefix(t, "ethernet0.address"@)
}

/// The IP derived from the first line (trimmed) that names the first
/// adapter's MAC address and gives one.
pub open spec fn first_ip(ls: Seq<Seq<char>>) -> Option<Seq<char>>
    decreases ls.len(),
{
    if ls.len() == 0 {
        None
    } else {
        let t = trim(ls[0]);
        if is_mac_line(t) && mac_to_ip_spec(t) is Some {
            mac_to_ip_spec(t)
        } else {
            first_ip(ls.drop_first())
        }
    }
}

impl Vm {
    /// A virtual machine for a `.vmx` path: named after its bundle directory
    /// (`Unknown` when there is none), state unknown, no IP address.
    pub fn from_vmx_path(vmx_path: String) -> (res: Vm)
        ensures
            res.vmx_path@ == vmx_path@,
            res.name@ == bundle_name(vmx_path@, "Unknown"@),
            res.state == VmState::Unknown,
            res.ip is None,
    {
        let name = bundle_name_of(vmx_path.as_str(), "Unknown");
        Vm { vmx_path, name, state: VmState::Unknown, ip: None }
    }

    /// The IP address a MAC address line gives, as `mac_to_ip_spec` says.
    pub fn parse_mac_to_ip(line: &str) -> (res: Option<String>)
        ensures
            match res {
                Some(ip) => mac_to_ip_spec(line@) == Some(ip@),
                None => mac_to_ip_spec(line@) is None,
            },
    {
        let lc = chars_of(line);
        match Self::mac_to_ip_chars(&lc) {
            Some(v) => Some(string_of(&v)),
            None => None,
        }
    }

    fn mac_to_ip_chars(line: &Vec<char>) -> (res: Option<Vec<char>>)
        ensures
            match res {
                Some(ip) => mac_to_ip_spec(line@) == Some(ip@),
                None => mac_to_ip_spec(line@) is None,
            },
    {
        let eq = match find_char(line, '=', 0) {
            Some(e) => e,
            None => {
                return None;
            },
        };
        proof {
            lemma_find_char_from(line@, '=', 0);
            assert(find_char_from(line@, '=', 0) != -1);
            assert(eq < line.len());
        }
        let after = slice(line, eq + 1, line.len());
        assert(after@ =~= line@.skip(eq + 1));
        let value = trim_chars(&after);
        let mac = trim_matches_chars(&value, '"');
        let parts = split_chars(&mac, ':', None);
        if parts.len() < 6 {
            return None;
        }
        proof {
            lemma_char_vec_deep_view(&parts[3]);
            lemma_char_vec_deep_view(&parts[4]);
        }
        let b3 = match parse_uint(&parts[3], 16, 255) {
            Some(b) => b,
            None => {
                return None;
            },
        };
        let b4 = match parse_uint(&parts[4], 16, 255) {
            Some(b) => b,
            None => {
                return None;
            },
        };
        let s3 = dec_string(b3);
        let s4 = dec_string(b4);
        let a = join2("172.16.", s3.as_str());
        let b = join2(a.as_str(), ".");
        let c = join2(b.as_str(), s4.as_str());
        Some(chars_of(c.as_str()))
    }

    /// Sets the IP address from the first line of the `.vmx` content that
    /// names the first adapter's MAC address and gives one; keeps the old
    /// address when no line does.
    pub fn read_ip_from_vmx(&mut self, content: &str)
        ensures
            final(self).vmx_path == old(self).vmx_path,
            final(self).name == old(self).name,
            final(self).state == old(self).state,
            match first_ip(lines_spec(content@)) {
                Some(ip) => final(self).ip matches Some(s) && s@ == ip,
                None => final(self).ip == old(self).ip,
            },
    {
        let cs = chars_of(content);
        let ls = lines(&cs);
        let ghost lv = ls.deep_view();
        let g = chars_of("ethernet0.generatedAddress");
        let a = chars_of("ethernet0.address");
        let mut i: usize = 0;
        assert(lv.skip(0) =~= lv);
        while i < ls.len()
            invariant
                i <= ls.len(),
                lv == ls.deep_view(),
                lv == lines_spec(content@),
                g@ == "ethernet0.generatedAddress"@,
                a@ == "ethernet0.address"@,
                first_ip(lv) == first_ip(lv.skip(i as int)),
                self.vmx_path == old(self).vmx_path,
                self.name == old(self).name,
                self.state == old(self).state,
                self.ip == old(self).ip,
            decreases ls.len() - i,
        {
            proof {
                lemma_char_vec_deep_view(&ls[i as int]);
            }
            assert(lv.skip(i as int)[0] == lv[i as int]);
            assert(lv.skip(i as int).drop_first() =~= lv.skip(i + 1));
            let t = trim_chars(&ls[i]);
            if starts_with(&t, &g) || starts_with(&t, &a) {
                match Self::mac_to_ip_chars(&t) {
                    Some(ip) => {
                        self.ip = Some(string_of(&ip));
                        return;
                    },
                    None => {},
                }
            }
            i = i + 1;
        }
    }
}

} // verus!
