//! Commands that act inside a guest system, with the guest's credentials.
use vstd::prelude::*;
use crate::text::{
    chars_of, has_prefix, lemma_char_vec_deep_view, lines, lines_spec, owned, starts_with,
    string_of, trim, trim_chars,
};
use super::{args3, args4, collect, lemma_collect_step, strs, Vmrun};

verus! {

/// A name line of `vmrun listDirectoryInGuest` (trimmed, not blank, not the
/// `Directory list:` header).
pub open spec fn guest_entry_line(l: Seq<char>) -> Option<Seq<char>> {
    let t = trim(l);
    if t.len() > 0 && !has_prefix(t, "Directory list:"@) {
        Some(t)
    } else {
        None
    }
}

impl Vmrun {
    /// The arguments of a guest command: the credentials (`-gu user -gp
    /// pass`) and then the command's own arguments.
    pub fn guest_command(user: &str, pass: &str, args: &Vec<String>) -> (res: Vec<String>)
        ensures
            strs(res) == seq!["-gu"@, user@, "-gp"@, pass@] + strs(*args),
    {
        let mut v: Vec<String> = Vec::new();
        v.push(owned("-gu"));
        v.push(owned(user));
        v.push(owned("-gp"));
        v.push(owned(pass));
        let ghost head = strs(v);
        assert(head =~= seq!["-gu"@, user@, "-gp"@, pass@]);
        let mut j: usize = 0;
        while j < args.len()
            invariant
                j <= args.len(),
                strs(v) =~= head + strs(*args).take(j as int),
            decreases args.len() - j,
        {
            let ghost before = strs(v);
            v.push(owned(args[j].as_str()));
            assert(strs(v) =~= before.push(strs(*args)[j as int]));
            assert(strs(*args).take(j + 1) =~= strs(*args).take(j as int).push(strs(*args)[j as int]));
            j = j + 1;
        }
        assert(strs(*args).take(args.len() as int) =~= strs(*args));
        v
    }

    /// Arguments that list a guest directory.
    pub fn list_directory_in_guest_args(vmx_path: &str, user: &str, pass: &str, dir: &str) -> (res: Vec<String>)
        ensures
            strs(res) == seq!["-gu"@, user@, "-gp"@, pass@, "listDirectoryInGuest"@, vmx_path@, dir@],
    {
        let a = args3("listDirectoryInGuest", vmx_path, dir);
        let r = Self::guest_command(user, pass, &a);
        assert(strs(r) =~= seq!["-gu"@, user@, "-gp"@, pass@, "listDirectoryInGuest"@, vmx_path@, dir@]);
        r
    }

    /// The entry names `vmrun listDirectoryInGuest` printed: trimmed lines,
    /// blank lines and the `Directory list:` header left out.
    pub fn list_directory_in_guest(output: &str) -> (res: Vec<String>)
        ensures
            strs(res) == collect(lines_spec(output@), |l: Seq<char>| guest_entry_line(l)),
    {
        let cs = chars_of(output);
        let ls = lines(&cs);
        let ghost lv = ls.deep_view();
        let header = chars_of("Directory list:");
        let mut res: Vec<String> = Vec::new();
        let mut i: usize = 0;
        while i < ls.len()
            invariant
                i <= ls.len(),
                lv == ls.deep_view(),
                lv == lines_spec(output@),
                header@ == "Directory list:"@,
                strs(res) =~= collect(lv.take(i as int), |l: Seq<char>| guest_entry_line(l)),
            decreases ls.len() - i,
        {
            proof {
                lemma_collect_step(lv, i as int, |l: Seq<char>| guest_entry_line(l));
                lemma_char_vec_deep_view(&ls[i as int]);
            }
            let t = trim_chars(&ls[i]);
            if t.len() > 0 && !starts_with(&t, &header) {
                res.push(string_of(&t));
            }
            i = i + 1;
        }
        assert(lv.take(ls.len() as int) =~= lv);
        res
    }

    /// Arguments that copy a host file into the guest.
    pub fn copy_file_to_guest(vmx_path: &str, user: &str, pass: &str, host_path: &str, guest_path: &str) -> (res: Vec<String>)
        ensures
            strs(res) == seq![
                "-gu"@, user@, "-gp"@, pass@, "CopyFileFromHostToGuest"@, vmx_path@, host_path@, guest_path@
            ],
    {
        let a = args4("CopyFileFromHostToGuest", vmx_path, host_path, guest_path);
        let r = Self::guest_command(user, pass, &a);
        assert(strs(r) =~= seq![
            "-gu"@, user@, "-gp"@, pass@, "CopyFileFromHostToGuest"@, vmx_path@, host_path@, guest_path@
        ]);
        r
    }

    /// Arguments that copy a guest file to the host.
    pub fn copy_file_from_guest(vmx_path: &str, user: &str, pass: &str, guest_path: &str, host_path: &str) -> (res: Vec<String>)
        ensures
            strs(res) == seq![
                "-gu"@, user@, "-gp"@, pass@, "CopyFileFromGuestToHost"@, vmx_path@, guest_path@, host_path@
            ],
    {
        let a = args4("CopyFileFromGuestToHost", vmx_path, guest_path, host_path);
        let r = Self::guest_command(user, pass, &a);
        assert(strs(r) =~= seq![
            "-gu"@, user@, "-gp"@, pass@, "CopyFileFromGuestToHost"@, vmx_path@, guest_path@, host_path@
        ]);
        r
    }

    /// Arguments that create a directory in the guest.
    pub fn create_directory_in_guest(vmx_path: &str, user: &str, pass: &str, dir: &str) -> (res: Vec<String>)
        ensures
            strs(res) == seq!["-gu"@, user@, "-gp"@, pass@, "createDirectoryInGuest"@, vmx_path@, dir@],
    {
        let a = args3("createDirectoryInGuest", vmx_path, dir);
        let r = Self::guest_command(user, pass, &a);
        assert(strs(r) =~= seq!["-gu"@, user@, "-gp"@, pass@, "createDirectoryInGuest"@, vmx_path@, dir@]);
        r
    }

    /// Arguments that delete a file in the guest.
    pub fn delete_file_in_guest(vmx_path: &str, user: &str, pass: &str, path: &str) -> (res: Vec<String>)
        ensures
            strs(res) == seq!["-gu"@, user@, "-gp"@, pass@, "deleteFileInGuest"@, vmx_path@, path@],
    {
        let a = args3("deleteFileInGuest", vmx_path, path);
        let r = Self::guest_command(user, pass, &a);
        assert(strs(r) =~= seq!["-gu"@, user@, "-gp"@, pass@, "deleteFileInGuest"@, vmx_path@, path@]);
        r
    }
}

} // verus!
