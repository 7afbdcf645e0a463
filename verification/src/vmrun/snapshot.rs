//! Snapshot commands.
use vstd::prelude::*;
use crate::text::{
    skip_n,chars_of, lemma_char_vec_deep_view, lines, lines_spec, string_of, trim, trim_chars};
use super::{args2, args3, collect, lemma_collect_step, strs, Vmrun};

verus! {

/// A snapshot name line of `vmrun listSnapshots` (trimmed, not blank).
pub open spec fn snapshot_line(l: Seq<char>) -> Option<Seq<char>> {
    let t = trim(l);
    if t.len() > 0 {
        Some(t)
    } else {
        None
    }
}

impl Vmrun {
    /// Arguments that list a machine's snapshots.
    pub fn list_snapshots_args(vmx_path: &str) -> (res: Vec<String>)
        ensures
            strs(res) == seq!["listSnapshots"@, vmx_path@],
    {
        args2("listSnapshots", vmx_path)
    }

    /// The snapshot names `vmrun listSnapshots` printed: every line after
    /// the first (`Total snapshots: N`), trimmed, blank lines left out.
    pub fn list_snapshots(output: &str) -> (res: Vec<String>)
        ensures
            strs(res) == collect(skip_n(lines_spec(output@), 1), |l: Seq<char>| snapshot_line(l)),
    {
        let cs = chars_of(output);
        let ls = lines(&cs);
        let ghost all = ls.deep_view();
        let ghost lv = skip_n(all, 1);
        let mut res: Vec<String> = Vec::new();
        let mut i: usize = 1;
        assert(lv.take(0) =~= Seq::<Seq<char>>::empty());
        while i < ls.len()
            invariant
                1 <= i <= ls.len() || (i == 1 && ls.len() == 0),
                all == ls.deep_view(),
                all == lines_spec(output@),
                lv == skip_n(all, 1),
                strs(res) =~= collect(lv.take(i - 1), |l: Seq<char>| snapshot_line(l)),
            decreases ls.len() - i,
        {
            proof {
                lemma_collect_step(lv, i - 1, |l: Seq<char>| snapshot_line(l));
                lemma_char_vec_deep_view(&ls[i as int]);
                assert(lv[i - 1] == all[i as int]);
            }
            let t = trim_chars(&ls[i]);
            if t.len() > 0 {
                res.push(string_of(&t));
            }
            i = i + 1;
        }
        if ls.len() > 0 {
            assert(lv.take(ls.len() - 1) =~= lv);
        } else {
            assert(lv =~= Seq::<Seq<char>>::empty());
        }
        res
    }

    /// Arguments that take a snapshot with the given name.
    pub fn create_snapshot(vmx_path: &str, name: &str) -> (res: Vec<String>)
        ensures
            strs(res) == seq!["snapshot"@, vmx_path@, name@],
    {
        args3("snapshot", vmx_path, name)
    }

    /// Arguments that delete a snapshot.
    pub fn delete_snapshot(vmx_path: &str, name: &str) -> (res: Vec<String>)
        ensures
            strs(res) == seq!["deleteSnapshot"@, vmx_path@, name@],
    {
        args3("deleteSnapshot", vmx_path, name)
    }

    /// Arguments that revert a machine to a snapshot.
    pub fn revert_to_snapshot(vmx_path: &str, name: &str) -> (res: Vec<String>)
        ensures
            strs(res) == seq!["revertToSnapshot"@, vmx_path@, name@],
    {
        args3("revertToSnapshot", vmx_path, name)
    }
}

} // verus!
