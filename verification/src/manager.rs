//! How the manager's list of machines is built, ordered and updated.
use vstd::prelude::*;
use crate::paths::{
    path_eq, path_extension, path_starts_with, std_path_eq, std_path_extension,
    std_path_starts_with,
};
use crate::text::{chars_of, owned};
use crate::text::lines_spec;
use crate::vm::{bundle_name, bundle_name_of, first_ip, Vm, VmState};
use crate::vmrest::{power_state_spec, vmrest_power_to_state, VmrestVm};

verus! {

/// Whether a directory's name marks a machine bundle (`.vmwarevm`).
pub fn is_bundle_name(dir_name: &str) -> (res: bool)
    ensures
        res == crate::text::has_suffix(dir_name@, ".vmwarevm"@),
{
    let n = crate::text::chars_of(dir_name);
    let ext = crate::text::chars_of(".vmwarevm");
    crate::text::ends_with(&n, &ext)
}

/// Whether a path names a machine's configuration (extension `vmx`).
pub fn is_vmx_path(path: &str) -> (res: bool)
    ensures
        res == (std_path_extension(path@) == Some("vmx"@)),
{
    match path_extension(path) {
        Some(e) => crate::text::str_eq(e.as_str(), "vmx"),
        None => false,
    }
}

/// `a` comes before `b` in the order of `String` (character by character).
pub open spec fn name_lt(a: Seq<char>, b: Seq<char>) -> bool
    decreases a.len(),
{
    if a.len() == 0 {
        b.len() > 0
    } else if b.len() == 0 {
        false
    } else if a[0] != b[0] {
        a[0] < b[0]
    } else {
        name_lt(a.drop_first(), b.drop_first())
    }
}

/// The view of a machine.
pub type VmView = (Seq<char>, Seq<char>, VmState, Option<Seq<char>>);

/// Where `x` goes into the list `s`: before the first machine whose name
/// comes after `x`'s name.
pub open spec fn insert_pos(s: Seq<VmView>, x: VmView, i: int) -> int
    decreases s.len() - i,
{
    if i < 0 || i >= s.len() {
        s.len() as int
    } else if name_lt(x.1, s[i].1) {
        i
    } else {
        insert_pos(s, x, i + 1)
    }
}

/// `s` with `x` put at its place by name.
pub open spec fn insert_by_name(s: Seq<VmView>, x: VmView) -> Seq<VmView> {
    let p = insert_pos(s, x, 0);
    s.take(p).push(x) + s.skip(p)
}

/// The machines ordered by name; machines with equal names keep their
/// order (what the stable `sort_by` on names gives).
pub open spec fn sorted_by_name(s: Seq<VmView>) -> Seq<VmView>
    decreases s.len(),
{
    if s.len() == 0 {
        Seq::empty()
    } else {
        insert_by_name(sorted_by_name(s.drop_last()), s.last())
    }
}

/// The views of a list of machines.
pub open spec fn vms_view(v: Vec<Vm>) -> Seq<VmView> {
    v@.map_values(|m: Vm| m@)
}

/// Whether `a`'s name comes before `b`'s.
pub fn name_less(a: &str, b: &str) -> (res: bool)
    ensures
        res == name_lt(a@, b@),
{
    let av = chars_of(a);
    let bv = chars_of(b);
    let mut i: usize = 0;
    assert(av@.skip(0) =~= av@);
    assert(bv@.skip(0) =~= bv@);
    while i < av.len() && i < bv.len() && av[i] == bv[i]
        invariant
            i <= av.len(),
            i <= bv.len(),
            name_lt(a@, b@) == name_lt(av@.skip(i as int), bv@.skip(i as int)),
            av@ == a@,
            bv@ == b@,
        decreases av.len() - i,
    {
        assert(av@.skip(i as int).drop_first() =~= av@.skip(i + 1));
        assert(bv@.skip(i as int).drop_first() =~= bv@.skip(i + 1));
        i = i + 1;
    }
    if i == av.len() {
        i < bv.len()
    } else if i == bv.len() {
        false
    } else {
        assert(av@.skip(i as int)[0] == av@[i as int]);
        assert(bv@.skip(i as int)[0] == bv@[i as int]);
        av[i] < bv[i]
    }
}

proof fn lemma_insert_pos(s: Seq<VmView>, x: VmView, i: int)
    requires
        0 <= i <= s.len(),
    ensures
        i <= insert_pos(s, x, i) <= s.len(),
    decreases s.len() - i,
{
    if i < s.len() && !name_lt(x.1, s[i].1) {
        lemma_insert_pos(s, x, i + 1);
    }
}

/// The machines ordered by name, equal names keeping their order.
pub fn sort_by_name(vms: Vec<Vm>) -> (res: Vec<Vm>)
    ensures
        vms_view(res) == sorted_by_name(vms_view(vms)),
{
    let ghost input = vms_view(vms);
    let mut rest = vms;
    let mut out: Vec<Vm> = Vec::new();
    let mut taken: usize = 0;
    let ghost n = input.len();
    assert(input.take(0) =~= Seq::<VmView>::empty());
    assert(input.skip(0) =~= input);
    assert(input.len() == rest.len());
    while rest.len() > 0
        invariant
            taken + rest.len() == n,
            n <= usize::MAX,
            n == input.len(),
            vms_view(rest) =~= input.skip(taken as int),
            vms_view(out) =~= sorted_by_name(input.take(taken as int)),
        decreases rest.len(),
    {
        let ghost rv = vms_view(rest);
        assert(rv[0] == input[taken as int]);
        assert(rv[0] == rest@[0]@);
        let ghost old_rest = rest@;
        let x = rest.remove(0);
        let ghost xv = x@;
        assert(xv == input[taken as int]);
        assert forall|j: int| 0 <= j < vms_view(rest).len() implies vms_view(rest)[j] == input.skip(
            taken + 1,
        )[j] by {
            assert(rest@[j] == old_rest[j + 1]);
            assert(rv[j + 1] == old_rest[j + 1]@);
        }
        assert(vms_view(rest) =~= input.skip(taken + 1));
        let ghost sorted = vms_view(out);
        let mut p: usize = 0;
        while p < out.len() && !name_less(x.name.as_str(), out[p].name.as_str())
            invariant
                p <= out.len(),
                sorted == vms_view(out),
                xv == x@,
                insert_pos(sorted, xv, 0) == insert_pos(sorted, xv, p as int),
            decreases out.len() - p,
        {
            assert(sorted[p as int] == out@[p as int]@);
            assert(!name_lt(xv.1, sorted[p as int].1));
            p = p + 1;
        }
        proof {
            lemma_insert_pos(sorted, xv, 0);
        }
        out.insert(p, x);
        assert(input.take(taken + 1).drop_last() =~= input.take(taken as int));
        assert(input.take(taken + 1).last() == xv);
        assert(vms_view(out) =~= sorted.take(p as int).push(xv) + sorted.skip(p as int));
        taken = taken + 1;
    }
    assert(input.take(n as int) =~= input);
    out
}

/// `a` comes before `b` by name, or has the same name.
pub open spec fn name_le(a: Seq<char>, b: Seq<char>) -> bool {
    !name_lt(b, a)
}

/// The machines are ordered by name.
pub open spec fn names_sorted(s: Seq<VmView>) -> bool {
    forall|i: int, j: int| 0 <= i < j < s.len() ==> name_le(#[trigger] s[i].1, #[trigger] s[j].1)
}

proof fn lemma_lt_asym(a: Seq<char>, b: Seq<char>)
    ensures
        name_lt(a, b) ==> !name_lt(b, a),
    decreases a.len(),
{
    if a.len() > 0 && b.len() > 0 && a[0] == b[0] {
        lemma_lt_asym(a.drop_first(), b.drop_first());
    }
}

proof fn lemma_lt_total(a: Seq<char>, b: Seq<char>)
    ensures
        !name_lt(a, b) && !name_lt(b, a) ==> a == b,
    decreases a.len(),
{
    if a.len() > 0 && b.len() > 0 && a[0] == b[0] {
        lemma_lt_total(a.drop_first(), b.drop_first());
        if !name_lt(a, b) && !name_lt(b, a) {
            assert(a.drop_first() == b.drop_first());
            assert forall|i: int| 0 <= i < a.len() implies a[i] == b[i] by {
                if i > 0 {
                    assert(a[i] == a.drop_first()[i - 1]);
                    assert(b[i] == b.drop_first()[i - 1]);
                }
            }
            assert(a =~= b);
        }
    }
}

proof fn lemma_lt_trans(a: Seq<char>, b: Seq<char>, c: Seq<char>)
    ensures
        name_lt(a, b) && name_lt(b, c) ==> name_lt(a, c),
    decreases a.len(),
{
    if a.len() > 0 && b.len() > 0 && c.len() > 0 && a[0] == b[0] && b[0] == c[0] {
        lemma_lt_trans(a.drop_first(), b.drop_first(), c.drop_first());
    }
}

/// A name before `b` comes before every name not before `b`.
proof fn lemma_lt_le(a: Seq<char>, b: Seq<char>, c: Seq<char>)
    ensures
        name_lt(a, b) && name_le(b, c) ==> name_lt(a, c),
{
    lemma_lt_total(b, c);
    lemma_lt_trans(a, b, c);
}

proof fn lemma_insert_pos_props(s: Seq<VmView>, x: VmView, i: int)
    requires
        0 <= i <= s.len(),
    ensures
        i <= insert_pos(s, x, i) <= s.len(),
        forall|j: int| i <= j < insert_pos(s, x, i) ==> !name_lt(x.1, #[trigger] s[j].1),
        insert_pos(s, x, i) < s.len() ==> name_lt(x.1, s[insert_pos(s, x, i)].1),
    decreases s.len() - i,
{
    if i < s.len() && !name_lt(x.1, s[i].1) {
        lemma_insert_pos_props(s, x, i + 1);
    }
}

proof fn lemma_insert_sorted(s: Seq<VmView>, x: VmView)
    requires
        names_sorted(s),
    ensures
        names_sorted(insert_by_name(s, x)),
        insert_by_name(s, x).to_multiset() == s.to_multiset().insert(x),
{
    broadcast use vstd::multiset::group_multiset_axioms;
    broadcast use vstd::seq_lib::group_to_multiset_ensures;

    let p = insert_pos(s, x, 0);
    lemma_insert_pos_props(s, x, 0);
    let r = insert_by_name(s, x);
    assert(r.len() == s.len() + 1);
    assert forall|k: int| 0 <= k < r.len() implies #[trigger] r[k] == if k < p {
        s[k]
    } else if k == p {
        x
    } else {
        s[k - 1]
    } by {}
    assert forall|i: int, j: int| 0 <= i < j < r.len() implies name_le(
        #[trigger] r[i].1,
        #[trigger] r[j].1,
    ) by {
        if j < p {
            assert(name_le(s[i].1, s[j].1));
        } else if j == p {
            assert(!name_lt(x.1, s[i].1));
        } else if i < p {
            assert(name_le(s[i].1, s[j - 1].1));
        } else if i == p {
            assert(name_lt(x.1, s[p].1));
            if p < j - 1 {
                assert(name_le(s[p].1, s[j - 1].1));
            }
            lemma_lt_le(x.1, s[p].1, s[j - 1].1);
            lemma_lt_asym(x.1, s[j - 1].1);
        } else {
            assert(name_le(s[i - 1].1, s[j - 1].1));
        }
    }
    vstd::seq_lib::lemma_multiset_commutative(s.take(p).push(x), s.skip(p));
    vstd::seq_lib::lemma_multiset_commutative(s.take(p), s.skip(p));
    assert(s.take(p) + s.skip(p) =~= s);
    assert(r.to_multiset() =~= s.to_multiset().insert(x));
}

/// The machines ordered by name are in order of their names, and they are
/// the machines that were given, each as often.
pub proof fn law_sorted_by_name(s: Seq<VmView>)
    ensures
        names_sorted(sorted_by_name(s)),
        sorted_by_name(s).to_multiset() == s.to_multiset(),
    decreases s.len(),
{
    broadcast use vstd::seq_lib::group_to_multiset_ensures;

    if s.len() == 0 {
        assert(s.to_multiset() =~= vstd::multiset::Multiset::empty());
        assert(sorted_by_name(s).to_multiset() =~= vstd::multiset::Multiset::empty());
    } else {
        law_sorted_by_name(s.drop_last());
        lemma_insert_sorted(sorted_by_name(s.drop_last()), s.last());
        assert(s.drop_last().push(s.last()) =~= s);
    }
}

/// The index of the first machine whose path equals `path` (as paths), or -1.
pub open spec fn index_of_path(vms: Seq<VmView>, path: Seq<char>, i: int) -> int
    decreases vms.len() - i,
{
    if i < 0 || i >= vms.len() {
        -1
    } else if std_path_eq(vms[i].0, path) {
        i
    } else {
        index_of_path(vms, path, i + 1)
    }
}

/// The index of the first machine with the given path.
pub fn find_vm_index(vms: &Vec<Vm>, vmx_path: &str) -> (res: Option<usize>)
    ensures
        match res {
            Some(i) => index_of_path(vms_view(*vms), vmx_path@, 0) == i,
            None => index_of_path(vms_view(*vms), vmx_path@, 0) == -1,
        },
{
    let mut i: usize = 0;
    while i < vms.len()
        invariant
            i <= vms.len(),
            index_of_path(vms_view(*vms), vmx_path@, 0) == index_of_path(
                vms_view(*vms),
                vmx_path@,
                i as int,
            ),
        decreases vms.len() - i,
    {
        assert(vms_view(*vms)[i as int] == vms@[i as int]@);
        if path_eq(vms[i].vmx_path.as_str(), vmx_path) {
            return Some(i);
        }
        i = i + 1;
    }
    None
}

pub(crate) proof fn lemma_index_of_path(vms: Seq<VmView>, path: Seq<char>, i: int)
    requires
        0 <= i,
    ensures
        index_of_path(vms, path, i) == -1 || (i <= index_of_path(vms, path, i) < vms.len()),
    decreases vms.len() - i,
{
    if i < vms.len() && !std_path_eq(vms[i].0, path) {
        lemma_index_of_path(vms, path, i + 1);
    }
}

/// Sets the state of the first machine with the given path, if any.
pub fn set_vm_state(vms: &mut Vec<Vm>, vmx_path: &str, state: VmState)
    ensures
        ({
            let i = index_of_path(vms_view(*old(vms)), vmx_path@, 0);
            if i == -1 {
                vms_view(*final(vms)) == vms_view(*old(vms))
            } else {
                let o = vms_view(*old(vms))[i];
                vms_view(*final(vms)) == vms_view(*old(vms)).update(i, (o.0, o.1, state, o.3))
            }
        }),
{
    proof {
        lemma_index_of_path(vms_view(*vms), vmx_path@, 0);
    }
    match find_vm_index(vms, vmx_path) {
        Some(i) => {
            let mut m = vms.remove(i);
            m.state = state;
            vms.insert(i, m);
            assert(vms_view(*vms) =~= vms_view(*old(vms)).update(
                i as int,
                (old(vms)@[i as int].vmx_path@, old(vms)@[i as int].name@, state, old(vms)@[i as int]@.3),
            ));
        },
        None => {},
    }
}

/// Sets the IP address of the first machine with the given path, if any.
pub fn set_vm_ip(vms: &mut Vec<Vm>, vmx_path: &str, ip: Option<String>)
    ensures
        ({
            let i = index_of_path(vms_view(*old(vms)), vmx_path@, 0);
            if i == -1 {
                vms_view(*final(vms)) == vms_view(*old(vms))
            } else {
                let o = vms_view(*old(vms))[i];
                vms_view(*final(vms)) == vms_view(*old(vms)).update(
                    i,
                    (
                        o.0,
                        o.1,
                        o.2,
                        match ip {
                            Some(s) => Some(s@),
                            None => None,
                        },
                    ),
                )
            }
        }),
{
    proof {
        lemma_index_of_path(vms_view(*vms), vmx_path@, 0);
    }
    match find_vm_index(vms, vmx_path) {
        Some(i) => {
            let mut m = vms.remove(i);
            m.ip = ip;
            let ghost mv = m@;
            vms.insert(i, m);
            assert(vms_view(*vms) =~= vms_view(*old(vms)).update(i as int, mv));
        },
        None => {},
    }
}

/// Reads the IP address of the first machine with the given path from its
/// `.vmx` content, as `Vm::read_ip_from_vmx` does.
pub fn read_vm_ip(vms: &mut Vec<Vm>, vmx_path: &str, content: &str)
    ensures
        ({
            let i = index_of_path(vms_view(*old(vms)), vmx_path@, 0);
            if i == -1 {
                vms_view(*final(vms)) == vms_view(*old(vms))
            } else {
                let o = vms_view(*old(vms))[i];
                vms_view(*final(vms)) == vms_view(*old(vms)).update(
                    i,
                    (
                        o.0,
                        o.1,
                        o.2,
                        match first_ip(lines_spec(content@)) {
                            Some(ip) => Some(ip),
                            None => o.3,
                        },
                    ),
                )
            }
        }),
{
    proof {
        lemma_index_of_path(vms_view(*vms), vmx_path@, 0);
    }
    match find_vm_index(vms, vmx_path) {
        Some(i) => {
            let mut m = vms.remove(i);
            m.read_ip_from_vmx(content);
            let ghost mv = m@;
            vms.insert(i, m);
            assert(vms_view(*vms) =~= vms_view(*old(vms)).update(i as int, mv));
        },
        None => {},
    }
}

/// The last machine of `existing` whose path equals `path` (as paths), as
/// a map keyed by path gives it when it is built in order; -1 when none.
pub open spec fn last_with_path(existing: Seq<VmView>, path: Seq<char>) -> int
    decreases existing.len(),
{
    if existing.len() == 0 {
        -1
    } else if std_path_eq(existing.last().0, path) {
        existing.len() - 1
    } else {
        last_with_path(existing.drop_last(), path)
    }
}

proof fn lemma_last_with_path(existing: Seq<VmView>, path: Seq<char>)
    ensures
        -1 <= last_with_path(existing, path) < existing.len(),
    decreases existing.len(),
{
    if existing.len() > 0 {
        lemma_last_with_path(existing.drop_last(), path);
    }
}

/// The index of the last machine with the given path.
fn last_with_path_exec(existing: &Vec<Vm>, path: &str) -> (res: Option<usize>)
    ensures
        match res {
            Some(i) => last_with_path(vms_view(*existing), path@) == i,
            None => last_with_path(vms_view(*existing), path@) == -1,
        },
{
    let ghost ev = vms_view(*existing);
    let mut i: usize = existing.len();
    assert(ev.take(ev.len() as int) =~= ev);
    while i > 0
        invariant
            i <= existing.len(),
            ev == vms_view(*existing),
            last_with_path(ev, path@) == last_with_path(ev.take(i as int), path@),
        decreases i,
    {
        assert(ev.take(i as int).drop_last() =~= ev.take(i - 1));
        assert(ev.take(i as int).last() == existing@[i - 1]@);
        if path_eq(existing[i - 1].vmx_path.as_str(), path) {
            return Some(i - 1);
        }
        i = i - 1;
    }
    None
}

/// The machine a `vmrest` entry gives: its path and name, the state its
/// power state stands for (unknown without one), and the IP address the
/// last existing machine with that path had.
pub open spec fn rest_vm_spec(r: (Seq<char>, Seq<char>, Seq<char>), power: Option<Seq<char>>, existing: Seq<VmView>) -> VmView {
    let k = last_with_path(existing, r.2);
    (
        r.2,
        r.1,
        match power {
            Some(p) => power_state_spec(p),
            None => VmState::Unknown,
        },
        if k == -1 {
            None
        } else {
            existing[k].3
        },
    )
}

/// The `vmrest` entries under the scan directory, as machines, in order.
pub open spec fn rest_vms_spec(rest: Seq<VmrestVm>, existing: Seq<VmView>, scan_dir: Seq<char>) -> Seq<VmView>
    decreases rest.len(),
{
    if rest.len() == 0 {
        Seq::empty()
    } else {
        let prev = rest_vms_spec(rest.drop_last(), existing, scan_dir);
        let r = rest.last();
        if std_path_starts_with(r.path@, scan_dir) {
            prev.push(
                rest_vm_spec(
                    r@,
                    match r.power_state {
                        Some(p) => Some(p@),
                        None => None,
                    },
                    existing,
                ),
            )
        } else {
            prev
        }
    }
}

fn copy_ip(ip: &Option<String>) -> (res: Option<String>)
    ensures
        match res {
            Some(s) => ip matches Some(t) && s@ == t@,
            None => ip is None,
        },
{
    match ip {
        Some(s) => Some(owned(s.as_str())),
        None => None,
    }
}

/// The new machine list from a `vmrest` listing: the entries under the scan
/// directory, keeping the IP addresses already known, ordered by name.
pub fn merge_rest_vms(rest: &Vec<VmrestVm>, existing: &Vec<Vm>, scan_dir: &str) -> (res: Vec<Vm>)
    ensures
        vms_view(res) == sorted_by_name(rest_vms_spec(rest@, vms_view(*existing), scan_dir@)),
{
    let ghost ev = vms_view(*existing);
    let mut out: Vec<Vm> = Vec::new();
    let mut i: usize = 0;
    while i < rest.len()
        invariant
            i <= rest.len(),
            ev == vms_view(*existing),
            vms_view(out) =~= rest_vms_spec(rest@.take(i as int), ev, scan_dir@),
        decreases rest.len() - i,
    {
        assert(rest@.take(i + 1).drop_last() =~= rest@.take(i as int));
        assert(rest@.take(i + 1).last() == rest@[i as int]);
        let r = &rest[i];
        if path_starts_with(r.path.as_str(), scan_dir) {
            let state = match &r.power_state {
                Some(p) => vmrest_power_to_state(p.as_str()),
                None => VmState::Unknown,
            };
            proof {
                lemma_last_with_path(ev, r.path@);
            }
            let ip = match last_with_path_exec(existing, r.path.as_str()) {
                Some(k) => copy_ip(&existing[k].ip),
                None => None,
            };
            let m = Vm { vmx_path: owned(r.path.as_str()), name: owned(r.name.as_str()), state, ip };
            let ghost before = vms_view(out);
            out.push(m);
            assert(vms_view(out) =~= before.push(m@));
        }
        i = i + 1;
    }
    assert(rest@.take(rest.len() as int) =~= rest@);
    sort_by_name(out)
}

/// The machine a rescanned `.vmx` path gives: named after its bundle
/// directory, with the state and IP address the last existing machine with
/// that path had (unknown and none for a new one).
pub open spec fn scanned_vm_spec(path: Seq<char>, existing: Seq<VmView>) -> VmView {
    let k = last_with_path(existing, path);
    (
        path,
        bundle_name(path, "Unknown"@),
        if k == -1 {
            VmState::Unknown
        } else {
            existing[k].2
        },
        if k == -1 {
            None
        } else {
            existing[k].3
        },
    )
}

/// The new machine list from a rescan of the `.vmx` paths found, keeping
/// known states and IP addresses, ordered by name.
pub fn merge_scanned(paths: &Vec<String>, existing: &Vec<Vm>) -> (res: Vec<Vm>)
    ensures
        vms_view(res) == sorted_by_name(
            paths@.map_values(|p: String| scanned_vm_spec(p@, vms_view(*existing))),
        ),
{
    let ghost ev = vms_view(*existing);
    let ghost all = paths@.map_values(|p: String| scanned_vm_spec(p@, ev));
    let mut out: Vec<Vm> = Vec::new();
    let mut i: usize = 0;
    while i < paths.len()
        invariant
            i <= paths.len(),
            ev == vms_view(*existing),
            all == paths@.map_values(|p: String| scanned_vm_spec(p@, ev)),
            vms_view(out) =~= all.take(i as int),
        decreases paths.len() - i,
    {
        let p = &paths[i];
        proof {
            lemma_last_with_path(ev, p@);
        }
        let (state, ip) = match last_with_path_exec(existing, p.as_str()) {
            Some(k) => (existing[k].state, copy_ip(&existing[k].ip)),
            None => (VmState::Unknown, None),
        };
        let name = bundle_name_of(p.as_str(), "Unknown");
        let m = Vm { vmx_path: owned(p.as_str()), name, state, ip };
        let ghost before = vms_view(out);
        out.push(m);
        assert(vms_view(out) =~= before.push(m@));
        assert(all.take(i + 1) =~= all.take(i as int).push(all[i as int]));
        i = i + 1;
    }
    assert(all.take(paths.len() as int) =~= all);
    sort_by_name(out)
}

/// The machine list of a first scan: one machine per `.vmx` path found,
/// with the state found for it when there is one, ordered by name.
pub fn scanned_vms(found: &Vec<(String, Option<VmState>)>) -> (res: Vec<Vm>)
    ensures
        vms_view(res) == sorted_by_name(
            found@.map_values(
                |f: (String, Option<VmState>)|
                    (
                        f.0@,
                        bundle_name(f.0@, "Unknown"@),
                        match f.1 {
                            Some(s) => s,
                            None => VmState::Unknown,
                        },
                        None::<Seq<char>>,
                    ),
            ),
        ),
{
    let ghost all = found@.map_values(
        |f: (String, Option<VmState>)|
            (
                f.0@,
                bundle_name(f.0@, "Unknown"@),
                match f.1 {
                    Some(s) => s,
                    None => VmState::Unknown,
                },
                None::<Seq<char>>,
            ),
    );
    let mut out: Vec<Vm> = Vec::new();
    let mut i: usize = 0;
    while i < found.len()
        invariant
            i <= found.len(),
            all == found@.map_values(
                |f: (String, Option<VmState>)|
                    (
                        f.0@,
                        bundle_name(f.0@, "Unknown"@),
                        match f.1 {
                            Some(s) => s,
                            None => VmState::Unknown,
                        },
                        None::<Seq<char>>,
                    ),
            ),
            vms_view(out) =~= all.take(i as int),
        decreases found.len() - i,
    {
        let mut m = Vm::from_vmx_path(owned(found[i].0.as_str()));
        match found[i].1 {
            Some(s) => {
                m.state = s;
            },
            None => {},
        }
        let ghost before = vms_view(out);
        out.push(m);
        assert(vms_view(out) =~= before.push(m@));
        assert(all.take(i + 1) =~= all.take(i as int).push(all[i as int]));
        i = i + 1;
    }
    assert(all.take(found.len() as int) =~= all);
    sort_by_name(out)
}

} // verus!
