//! The `vmrun` command line: which arguments each operation passes, and how
//! each listing that `vmrun` prints is read.
pub mod guest;
pub mod network;
pub mod snapshot;

use vstd::prelude::*;
use crate::paths::{path_eq, std_path_eq};
use crate::text::{
    chars_of, has_prefix, has_suffix, join2, lemma_char_vec_deep_view, lines, lines_spec, owned,
    starts_with, ends_with, string_of, trim, trim_chars,
};
use crate::vm::VmState;

pub use network::{port_forward_spec, PortForwarding};

verus! {

/// Why a `vmrun` command failed.
#[derive(Debug)]
pub enum VmrunError {
    /// The command ran and failed, with what it printed on standard error.
    CommandFailed(String),
    /// `vmrun` was not found.
    NotFound,
    /// `vmrun` printed something that could not be read.
    InvalidOutput,
}

impl VmrunError {
    /// The message shown for this error.
    pub open spec fn message_spec(&self) -> Seq<char> {
        match self {
            VmrunError::CommandFailed(m) => "Command failed: "@ + m@,
            VmrunError::NotFound => "vmrun not found"@,
            VmrunError::InvalidOutput => "Invalid output from vmrun"@,
        }
    }

    /// The message shown for this error.
    pub fn message(&self) -> (res: String)
        ensures
            res@ == self.message_spec(),
    {
        match self {
            VmrunError::CommandFailed(m) => join2("Command failed: ", m.as_str()),
            VmrunError::NotFound => owned("vmrun not found"),
            VmrunError::InvalidOutput => owned("Invalid output from vmrun"),
        }
    }
}

/// The `vmrun` command line tool.
pub struct Vmrun;

/// A list of strings by their views.
pub open spec fn strs(v: Vec<String>) -> Seq<Seq<char>> {
    v@.map_values(|s: String| s@)
}

/// The items `f` keeps from a list of lines, in order.
pub open spec fn collect<T>(ls: Seq<Seq<char>>, f: spec_fn(Seq<char>) -> Option<T>) -> Seq<T>
    decreases ls.len(),
{
    if ls.len() == 0 {
        Seq::empty()
    } else {
        let prev = collect(ls.drop_last(), f);
        match f(ls.last()) {
            Some(x) => prev.push(x),
            None => prev,
        }
    }
}

/// One step of `collect`.
pub proof fn lemma_collect_step<T>(ls: Seq<Seq<char>>, i: int, f: spec_fn(Seq<char>) -> Option<T>)
    requires
        0 <= i < ls.len(),
    ensures
        collect(ls.take(i + 1), f) == match f(ls[i]) {
            Some(x) => collect(ls.take(i), f).push(x),
            None => collect(ls.take(i), f),
        },
{
    assert(ls.take(i + 1).drop_last() =~= ls.take(i));
    assert(ls.take(i + 1).last() == ls[i]);
}

/// A list of two arguments.
pub(crate) fn args2(a: &str, b: &str) -> (res: Vec<String>)
    ensures
        strs(res) == seq![a@, b@],
{
    let mut v: Vec<String> = Vec::new();
    v.push(owned(a));
    v.push(owned(b));
    assert(strs(v) =~= seq![a@, b@]);
    v
}

/// A list of three arguments.
pub(crate) fn args3(a: &str, b: &str, c: &str) -> (res: Vec<String>)
    ensures
        strs(res) == seq![a@, b@, c@],
{
    let mut v: Vec<String> = Vec::new();
    v.push(owned(a));
    v.push(owned(b));
    v.push(owned(c));
    assert(strs(v) =~= seq![a@, b@, c@]);
    v
}

/// A list of four arguments.
pub(crate) fn args4(a: &str, b: &str, c: &str, d: &str) -> (res: Vec<String>)
    ensures
        strs(res) == seq![a@, b@, c@, d@],
{
    let mut v: Vec<String> = Vec::new();
    v.push(owned(a));
    v.push(owned(b));
    v.push(owned(c));
    v.push(owned(d));
    assert(strs(v) =~= seq![a@, b@, c@, d@]);
    v
}

/// A list of five arguments.
pub(crate) fn args5(a: &str, b: &str, c: &str, d: &str, e: &str) -> (res: Vec<String>)
    ensures
        strs(res) == seq![a@, b@, c@, d@, e@],
{
    let mut v: Vec<String> = Vec::new();
    v.push(owned(a));
    v.push(owned(b));
    v.push(owned(c));
    v.push(owned(d));
    v.push(owned(e));
    assert(strs(v) =~= seq![a@, b@, c@, d@, e@]);
    v
}

/// A line of `vmrun list` that names a running machine: not blank and not
/// the `Total running VMs:` header.
pub open spec fn running_line(l: Seq<char>) -> Option<Seq<char>> {
    let t = trim(l);
    if t.len() > 0 && !has_prefix(t, "Total running VMs:"@) {
        Some(t)
    } else {
        None
    }
}

/// The state of a machine: paused when its directory holds a `.vmss`
/// suspend file, else running when `vmrun list` names it, else stopped.
pub open spec fn state_spec(is_running: bool, has_vmss: bool) -> VmState {
    if has_vmss {
        VmState::Paused
    } else if is_running {
        VmState::Running
    } else {
        VmState::Stopped
    }
}

impl Vmrun {
    /// The paths `vmrun list` prints (trimmed, in order), header and blank
    /// lines left out; the caller keeps those that exist.
    pub fn list_running(output: &str) -> (res: Vec<String>)
        ensures
            strs(res) == collect(lines_spec(output@), |l: Seq<char>| running_line(l)),
    {
        let cs = chars_of(output);
        let ls = lines(&cs);
        let ghost lv = ls.deep_view();
        let header = chars_of("Total running VMs:");
        let mut res: Vec<String> = Vec::new();
        let mut i: usize = 0;
        while i < ls.len()
            invariant
                i <= ls.len(),
                lv == ls.deep_view(),
                lv == lines_spec(output@),
                header@ == "Total running VMs:"@,
                strs(res) =~= collect(lv.take(i as int), |l: Seq<char>| running_line(l)),
            decreases ls.len() - i,
        {
            proof {
                lemma_collect_step(lv, i as int, |l: Seq<char>| running_line(l));
                lemma_char_vec_deep_view(&ls[i as int]);
            }
            let t = trim_chars(&ls[i]);
            if t.len() > 0 && !starts_with(&t, &header) {
                res.push(string_of(&t));
            }
            i = i + 1;
        }
        assert(lv.take(ls.len() as int) =~= lv);
        res
    }

    /// Whether any of the file names in a machine's directory is a `.vmss`
    /// suspend file.
    pub fn has_vmss_file(file_names: &Vec<String>) -> (res: bool)
        ensures
            res == exists|i: int|
                0 <= i < file_names@.len() && has_suffix(#[trigger] file_names@[i]@, ".vmss"@),
    {
        let ext = chars_of(".vmss");
        let mut i: usize = 0;
        while i < file_names.len()
            invariant
                i <= file_names.len(),
                ext@ == ".vmss"@,
                forall|j: int| 0 <= j < i ==> !has_suffix(#[trigger] file_names@[j]@, ".vmss"@),
            decreases file_names.len() - i,
        {
            let n = chars_of(file_names[i].as_str());
            if ends_with(&n, &ext) {
                return true;
            }
            i = i + 1;
        }
        false
    }

    /// The state of the machine at `vmx_path`, given the running machines'
    /// paths and whether its directory holds a `.vmss` file.
    pub fn get_state(running: &Vec<String>, vmx_path: &str, has_vmss: bool) -> (res: VmState)
        ensures
            res == state_spec(
                exists|i: int|
                    0 <= i < running@.len() && std_path_eq(#[trigger] running@[i]@, vmx_path@),
                has_vmss,
            ),
    {
        let mut is_running = false;
        let mut i: usize = 0;
        while i < running.len()
            invariant
                i <= running.len(),
                is_running == exists|j: int|
                    0 <= j < i && std_path_eq(#[trigger] running@[j]@, vmx_path@),
            decreases running.len() - i,
        {
            if path_eq(running[i].as_str(), vmx_path) {
                is_running = true;
            }
            i = i + 1;
        }
        if has_vmss {
            VmState::Paused
        } else if is_running {
            VmState::Running
        } else {
            VmState::Stopped
        }
    }

    /// Arguments that start a machine without a window.
    pub fn start(vmx_path: &str) -> (res: Vec<String>)
        ensures
            strs(res) == seq!["start"@, vmx_path@, "nogui"@],
    {
        args3("start", vmx_path, "nogui")
    }

    /// Arguments that stop a machine.
    pub fn stop(vmx_path: &str) -> (res: Vec<String>)
        ensures
            strs(res) == seq!["stop"@, vmx_path@],
    {
        args2("stop", vmx_path)
    }

    /// Arguments that suspend a machine.
    pub fn suspend(vmx_path: &str) -> (res: Vec<String>)
        ensures
            strs(res) == seq!["suspend"@, vmx_path@],
    {
        args2("suspend", vmx_path)
    }

    /// Arguments that resume a suspended machine (`vmrun start`).
    pub fn resume(vmx_path: &str) -> (res: Vec<String>)
        ensures
            strs(res) == seq!["start"@, vmx_path@],
    {
        args2("start", vmx_path)
    }

    /// Arguments that ask for a guest's IP address.
    pub fn get_guest_ip_args(vmx_path: &str) -> (res: Vec<String>)
        ensures
            strs(res) == seq!["getGuestIPAddress"@, vmx_path@],
    {
        args2("getGuestIPAddress", vmx_path)
    }

    /// The guest IP address `vmrun getGuestIPAddress` printed (trimmed); an
    /// error when it printed nothing.
    pub fn get_guest_ip(output: &str) -> (res: Result<String, VmrunError>)
        ensures
            match res {
                Ok(ip) => trim(output@).len() > 0 && ip@ == trim(output@),
                Err(e) => trim(output@).len() == 0 && (e matches VmrunError::CommandFailed(m) && m@
                    == "未获取到 IP 地址"@),
            },
    {
        let cs = chars_of(output);
        let t = trim_chars(&cs);
        if t.len() == 0 {
            Err(VmrunError::CommandFailed(owned("未获取到 IP 地址")))
        } else {
            Ok(string_of(&t))
        }
    }

    /// Arguments that delete a machine for good.
    pub fn delete_vm(vmx_path: &str) -> (res: Vec<String>)
        ensures
            strs(res) == seq!["deleteVM"@, vmx_path@],
    {
        args2("deleteVM", vmx_path)
    }
}

} // verus!
