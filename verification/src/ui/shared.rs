//! Shared folder settings read from a `.vmx` file.
use vstd::prelude::*;
use crate::text::{
    chars_eq, chars_of, dec, dec_string, find_char, find_char_from, find_char_spec, has_prefix,
    join3, lemma_char_vec_deep_view, lemma_find_char_from, lines, lines_spec, lowercase_chars,
    parse_uint, parse_uint_spec, skip_n, slice, split_all, split_chars, starts_with,
    str_lowercase, string_of, trim, trim_chars, trim_matches, trim_matches_chars,
};
use super::state::SharedFolderEntry;

verus! {

/// Whether a line turns shared folders on: (trimmed, in lowercase) it
/// starts with `sharedfolder.maxnum`, and the text after its first `=`
/// (trimmed, quotes removed) is a `u32` above zero.
pub open spec fn enables_shared(line: Seq<char>) -> bool {
    let l = str_lowercase(trim(line));
    let parts = split_all(l, '=');
    has_prefix(l, "sharedfolder.maxnum"@) && parts.len() >= 2 && match parse_uint_spec(
        trim_matches(trim(parts[1]), '"'),
        10,
        u32::MAX as int,
    ) {
        Some(n) => n > 0,
        None => false,
    }
}

/// The key and value of a line: the key is the lowercase, trimmed line up
/// to its first `=` (trimmed); the value is the trimmed line from the same
/// position on (trimmed, quotes removed).
pub open spec fn line_kv(line: Seq<char>) -> Option<(Seq<char>, Seq<char>)> {
    let t = trim(line);
    let lower = str_lowercase(t);
    let eq = find_char_spec(lower, '=');
    if eq == -1 {
        None
    } else {
        Some((trim(lower.take(eq)), trim_matches(trim(skip_n(t, eq + 1)), '"')))
    }
}

/// The key `sharedfolder<i><suffix>`.
pub open spec fn folder_key(i: nat, suffix: Seq<char>) -> Seq<char> {
    "sharedfolder"@ + dec(i) + suffix
}

/// What the lines say of folder `i`: whether it is present, its host path,
/// its guest name and whether it is writable (later lines win).
pub open spec fn folder_state(ls: Seq<Seq<char>>, i: nat) -> (bool, Seq<char>, Seq<char>, bool)
    decreases ls.len(),
{
    if ls.len() == 0 {
        (false, Seq::empty(), Seq::empty(), false)
    } else {
        let (present, host, name, writable) = folder_state(ls.drop_last(), i);
        match line_kv(ls.last()) {
            None => (present, host, name, writable),
            Some((key, val)) => if key == folder_key(i, ".present"@) && str_lowercase(val)
                == "true"@ {
                (true, host, name, writable)
            } else if key == folder_key(i, ".hostpath"@) {
                (present, val, name, writable)
            } else if key == folder_key(i, ".guestname"@) {
                (present, host, val, writable)
            } else if key == folder_key(i, ".writeaccess"@) && str_lowercase(val) == "true"@ {
                (present, host, name, true)
            } else {
                (present, host, name, writable)
            },
        }
    }
}

/// Folder `i`, when it is present and has a name.
pub open spec fn folder_spec(ls: Seq<Seq<char>>, i: nat) -> Option<(Seq<char>, Seq<char>, bool)> {
    let (present, host, name, writable) = folder_state(ls, i);
    if present && name.len() > 0 {
        Some((name, host, writable))
    } else {
        None
    }
}

/// The folders among `sharedfolder0..n-1`, in order.
pub open spec fn folders_upto(ls: Seq<Seq<char>>, n: nat) -> Seq<(Seq<char>, Seq<char>, bool)>
    decreases n,
{
    if n == 0 {
        Seq::empty()
    } else {
        let prev = folders_upto(ls, (n - 1) as nat);
        match folder_spec(ls, (n - 1) as nat) {
            Some(f) => prev.push(f),
            None => prev,
        }
    }
}

/// Line `l` sets `key` to `true` (in any case).
pub open spec fn line_sets_true(l: Seq<char>, key: Seq<char>) -> bool {
    line_kv(l) matches Some((k, v)) && k == key && str_lowercase(v) == "true"@
}

/// Some line of `ls` sets `key` to `true` (in any case).
pub open spec fn some_line_sets_true(ls: Seq<Seq<char>>, key: Seq<char>) -> bool {
    exists|k: int| 0 <= k < ls.len() && #[trigger] line_sets_true(ls[k], key)
}

/// The keys of one folder differ from each other.
proof fn lemma_folder_keys_differ(i: nat)
    ensures
        folder_key(i, ".writeaccess"@) != folder_key(i, ".present"@),
        folder_key(i, ".writeaccess"@) != folder_key(i, ".hostpath"@),
        folder_key(i, ".writeaccess"@) != folder_key(i, ".guestname"@),
        folder_key(i, ".present"@) != folder_key(i, ".hostpath"@),
        folder_key(i, ".present"@) != folder_key(i, ".guestname"@),
{
    reveal_strlit(".writeaccess");
    reveal_strlit(".present");
    reveal_strlit(".hostpath");
    reveal_strlit(".guestname");
    reveal_strlit("sharedfolder");
    assert(folder_key(i, ".writeaccess"@).len() != folder_key(i, ".present"@).len());
    assert(folder_key(i, ".writeaccess"@).len() != folder_key(i, ".hostpath"@).len());
    assert(folder_key(i, ".writeaccess"@).len() != folder_key(i, ".guestname"@).len());
    assert(folder_key(i, ".present"@).len() != folder_key(i, ".hostpath"@).len());
    assert(folder_key(i, ".present"@).len() != folder_key(i, ".guestname"@).len());
}

/// A folder is present exactly when some line sets its `present` key to
/// `true`, and writable exactly when some line sets its `writeaccess` key
/// to `true` (in any case); any other value leaves it read-only.
pub proof fn law_folder_flags(ls: Seq<Seq<char>>, i: nat)
    ensures
        folder_state(ls, i).0 == some_line_sets_true(ls, folder_key(i, ".present"@)),
        folder_state(ls, i).3 == some_line_sets_true(ls, folder_key(i, ".writeaccess"@)),
    decreases ls.len(),
{
    lemma_folder_keys_differ(i);
    if ls.len() > 0 {
        let init = ls.drop_last();
        law_folder_flags(init, i);
        let pk = folder_key(i, ".present"@);
        let wk = folder_key(i, ".writeaccess"@);
        let last = ls.last();
        assert forall|key: Seq<char>| some_line_sets_true(ls, key) == (some_line_sets_true(init, key)
            || line_sets_true(last, key)) by {
            if some_line_sets_true(ls, key) {
                let k = choose|k: int| 0 <= k < ls.len() && #[trigger] line_sets_true(ls[k], key);
                if k < init.len() {
                    assert(init[k] == ls[k]);
                }
            }
            if some_line_sets_true(init, key) {
                let k = choose|k: int| 0 <= k < init.len() && #[trigger] line_sets_true(init[k], key);
                assert(init[k] == ls[k]);
                assert(line_sets_true(ls[k], key));
            }
            if line_sets_true(last, key) {
                assert(line_sets_true(ls[ls.len() - 1], key));
            }
        }
        assert(some_line_sets_true(ls, pk) == (some_line_sets_true(init, pk) || line_sets_true(
            last,
            pk,
        )));
        assert(some_line_sets_true(ls, wk) == (some_line_sets_true(init, wk) || line_sets_true(
            last,
            wk,
        )));
    } else {
        assert(!some_line_sets_true(ls, folder_key(i, ".present"@)));
        assert(!some_line_sets_true(ls, folder_key(i, ".writeaccess"@)));
    }
}

/// Line `l` sets `key` (to any value).
pub open spec fn line_sets_key(l: Seq<char>, key: Seq<char>) -> bool {
    line_kv(l) matches Some((k, _)) && k == key
}

/// Some line of `ls` sets `key`.
pub open spec fn some_line_sets_key(ls: Seq<Seq<char>>, key: Seq<char>) -> bool {
    exists|k: int| 0 <= k < ls.len() && #[trigger] line_sets_key(ls[k], key)
}

/// The last line of `ls` that sets `key` sets it to `v`.
pub open spec fn last_sets(ls: Seq<Seq<char>>, key: Seq<char>, v: Seq<char>) -> bool {
    exists|k: int|
        0 <= k < ls.len() && #[trigger] line_kv(ls[k]) == Some((key, v)) && forall|j: int|
            k < j < ls.len() ==> !#[trigger] line_sets_key(ls[j], key)
}

proof fn lemma_last_sets_step(ls: Seq<Seq<char>>, key: Seq<char>, v: Seq<char>)
    requires
        ls.len() > 0,
    ensures
        line_kv(ls.last()) == Some((key, v)) ==> last_sets(ls, key, v),
        !line_sets_key(ls.last(), key) ==> last_sets(ls, key, v) == last_sets(ls.drop_last(), key, v),
        some_line_sets_key(ls, key) == (some_line_sets_key(ls.drop_last(), key) || line_sets_key(
            ls.last(),
            key,
        )),
{
    let init = ls.drop_last();
    let n = ls.len() - 1;
    if line_kv(ls.last()) == Some((key, v)) {
        assert(line_kv(ls[n]) == Some((key, v)));
    }
    if !line_sets_key(ls.last(), key) {
        if last_sets(ls, key, v) {
            let k = choose|k: int|
                0 <= k < ls.len() && #[trigger] line_kv(ls[k]) == Some((key, v)) && forall|j: int|
                    k < j < ls.len() ==> !#[trigger] line_sets_key(ls[j], key);
            assert(k < n);
            assert(init[k] == ls[k]);
            assert forall|j: int| k < j < init.len() implies !#[trigger] line_sets_key(init[j], key) by {
                assert(init[j] == ls[j]);
                assert(!line_sets_key(ls[j], key));
            }
        }
        if last_sets(init, key, v) {
            let k = choose|k: int|
                0 <= k < init.len() && #[trigger] line_kv(init[k]) == Some((key, v)) && forall|j: int|
                    k < j < init.len() ==> !#[trigger] line_sets_key(init[j], key);
            assert(init[k] == ls[k]);
            assert(line_kv(ls[k]) == Some((key, v)));
            assert forall|j: int| k < j < ls.len() implies !#[trigger] line_sets_key(ls[j], key) by {
                if j < n {
                    assert(init[j] == ls[j]);
                    assert(!line_sets_key(init[j], key));
                }
            }
        }
    }
    if some_line_sets_key(ls, key) {
        let k = choose|k: int| 0 <= k < ls.len() && #[trigger] line_sets_key(ls[k], key);
        if k < n {
            assert(init[k] == ls[k]);
        }
    }
    if some_line_sets_key(init, key) {
        let k = choose|k: int| 0 <= k < init.len() && #[trigger] line_sets_key(init[k], key);
        assert(init[k] == ls[k]);
        assert(line_sets_key(ls[k], key));
    }
    if line_sets_key(ls.last(), key) {
        assert(line_sets_key(ls[n], key));
    }
}

/// A folder's host path and guest name are the values of the last lines
/// that set its `hostpath` and `guestname` keys, and empty when no line
/// sets them.
pub proof fn law_folder_texts(ls: Seq<Seq<char>>, i: nat)
    ensures
        ({
            let hk = folder_key(i, ".hostpath"@);
            let nk = folder_key(i, ".guestname"@);
            let st = folder_state(ls, i);
            &&& some_line_sets_key(ls, hk) ==> last_sets(ls, hk, st.1)
            &&& !some_line_sets_key(ls, hk) ==> st.1 == Seq::<char>::empty()
            &&& some_line_sets_key(ls, nk) ==> last_sets(ls, nk, st.2)
            &&& !some_line_sets_key(ls, nk) ==> st.2 == Seq::<char>::empty()
        }),
    decreases ls.len(),
{
    lemma_folder_keys_differ(i);
    reveal_strlit(".hostpath");
    reveal_strlit(".guestname");
    reveal_strlit("sharedfolder");
    let hk = folder_key(i, ".hostpath"@);
    let nk = folder_key(i, ".guestname"@);
    assert(hk.len() != nk.len());
    if ls.len() == 0 {
        assert(!some_line_sets_key(ls, hk));
        assert(!some_line_sets_key(ls, nk));
    } else {
        let init = ls.drop_last();
        law_folder_texts(init, i);
        let st = folder_state(ls, i);
        lemma_last_sets_step(ls, hk, st.1);
        lemma_last_sets_step(ls, nk, st.2);
    }
}

/// Every folder read among `sharedfolder0..n-1` is the folder of some
/// index below `n` that is present and named, and it is writable exactly
/// when some line sets that index's `writeaccess` to `true` (in any
/// case): a folder whose `writeaccess` is `FALSE` is read-only.
pub proof fn law_shared_folders(ls: Seq<Seq<char>>, n: nat)
    ensures
        forall|p: int|
            #![trigger folders_upto(ls, n)[p]]
            0 <= p < folders_upto(ls, n).len() ==> exists|i: nat|
                i < n && #[trigger] folder_spec(ls, i) == Some(folders_upto(ls, n)[p])
                    && some_line_sets_true(ls, folder_key(i, ".present"@))
                    && folders_upto(ls, n)[p].0.len() > 0
                    && (folders_upto(ls, n)[p].2 == some_line_sets_true(
                    ls,
                    folder_key(i, ".writeaccess"@),
                )),
    decreases n,
{
    if n > 0 {
        let m = (n - 1) as nat;
        law_shared_folders(ls, m);
        law_folder_flags(ls, m);
        let prev = folders_upto(ls, m);
        let cur = folders_upto(ls, n);
        assert forall|p: int| #![trigger cur[p]] 0 <= p < cur.len() implies exists|i: nat|
            i < n && #[trigger] folder_spec(ls, i) == Some(cur[p])
                && some_line_sets_true(ls, folder_key(i, ".present"@))
                && cur[p].0.len() > 0
                && (cur[p].2 == some_line_sets_true(ls, folder_key(i, ".writeaccess"@))) by {
            if p < prev.len() {
                assert(cur[p] == prev[p]);
                let i = choose|i: nat|
                    i < m && #[trigger] folder_spec(ls, i) == Some(prev[p])
                        && some_line_sets_true(ls, folder_key(i, ".present"@))
                        && prev[p].0.len() > 0
                        && (prev[p].2 == some_line_sets_true(ls, folder_key(i, ".writeaccess"@)));
                assert(folder_spec(ls, i) == Some(cur[p]));
            } else {
                assert(folder_spec(ls, m) == Some(cur[p]));
            }
        }
    }
}

fn enables_shared_exec(line: &Vec<char>) -> (res: bool)
    ensures
        res == enables_shared(line@),
{
    let t = trim_chars(line);
    let l = lowercase_chars(&t);
    let prefix = chars_of("sharedfolder.maxnum");
    if !starts_with(&l, &prefix) {
        return false;
    }
    let parts = split_chars(&l, '=', None);
    if parts.len() < 2 {
        return false;
    }
    proof {
        lemma_char_vec_deep_view(&parts[1]);
    }
    let v = trim_chars(&parts[1]);
    let v2 = trim_matches_chars(&v, '"');
    match parse_uint(&v2, 10, u32::MAX as u64) {
        Some(n) => n > 0,
        None => false,
    }
}

fn line_kv_exec(line: &Vec<char>) -> (res: Option<(Vec<char>, Vec<char>)>)
    ensures
        match res {
            Some((k, v)) => line_kv(line@) == Some((k@, v@)),
            None => line_kv(line@) is None,
        },
{
    let t = trim_chars(line);
    let lower = lowercase_chars(&t);
    let eq = match find_char(&lower, '=', 0) {
        Some(e) => e,
        None => {
            return None;
        },
    };
    proof {
        lemma_find_char_from(lower@, '=', 0);
        assert(find_char_from(lower@, '=', 0) != -1);
        assert(eq < lower.len());
    }
    let kpart = slice(&lower, 0, eq);
    assert(kpart@ =~= lower@.take(eq as int));
    let key = trim_chars(&kpart);
    let rest = if eq + 1 <= t.len() {
        let r = slice(&t, eq + 1, t.len());
        assert(r@ =~= t@.skip(eq + 1));
        r
    } else {
        let r: Vec<char> = Vec::new();
        r
    };
    assert(rest@ =~= skip_n(t@, eq + 1));
    let rt = trim_chars(&rest);
    let val = trim_matches_chars(&rt, '"');
    Some((key, val))
}

fn is_true_chars(v: &Vec<char>) -> (res: bool)
    ensures
        res == (str_lowercase(v@) == "true"@),
{
    let l = lowercase_chars(v);
    let t = chars_of("true");
    chars_eq(&l, &t)
}

/// Folder `i` of the lines.
fn folder_exec(ls: &Vec<Vec<char>>, i: u8) -> (res: Option<SharedFolderEntry>)
    ensures
        match res {
            Some(f) => folder_spec(ls.deep_view(), i as nat) == Some(f@),
            None => folder_spec(ls.deep_view(), i as nat) is None,
        },
{
    let n = dec_string(i as u64);
    let pk = chars_of(join3("sharedfolder", n.as_str(), ".present").as_str());
    let hk = chars_of(join3("sharedfolder", n.as_str(), ".hostpath").as_str());
    let nk = chars_of(join3("sharedfolder", n.as_str(), ".guestname").as_str());
    let wk = chars_of(join3("sharedfolder", n.as_str(), ".writeaccess").as_str());
    let ghost lv = ls.deep_view();
    let mut present = false;
    let mut host: Vec<char> = Vec::new();
    let mut name: Vec<char> = Vec::new();
    let mut writable = false;
    let mut j: usize = 0;
    while j < ls.len()
        invariant
            j <= ls.len(),
            lv == ls.deep_view(),
            pk@ == folder_key(i as nat, ".present"@),
            hk@ == folder_key(i as nat, ".hostpath"@),
            nk@ == folder_key(i as nat, ".guestname"@),
            wk@ == folder_key(i as nat, ".writeaccess"@),
            folder_state(lv.take(j as int), i as nat) == (present, host@, name@, writable),
        decreases ls.len() - j,
    {
        assert(lv.take(j + 1).drop_last() =~= lv.take(j as int));
        proof {
            lemma_char_vec_deep_view(&ls[j as int]);
        }
        match line_kv_exec(&ls[j]) {
            None => {},
            Some((key, val)) => {
                if chars_eq(&key, &pk) && is_true_chars(&val) {
                    present = true;
                } else if chars_eq(&key, &hk) {
                    host = val;
                } else if chars_eq(&key, &nk) {
                    name = val;
                } else if chars_eq(&key, &wk) && is_true_chars(&val) {
                    writable = true;
                }
            },
        }
        j = j + 1;
    }
    assert(lv.take(ls.len() as int) =~= lv);
    if present && name.len() > 0 {
        Some(SharedFolderEntry { name: string_of(&name), host_path: string_of(&host), writable })
    } else {
        None
    }
}

/// The shared folders a `.vmx` content configures (`sharedfolder0` to
/// `sharedfolder15` that are present and named), and whether shared
/// folders are enabled (some line sets `sharedFolder.maxNum` above zero).
pub fn parse_shared_folders_from_vmx(content: &str) -> (res: (Vec<SharedFolderEntry>, bool))
    ensures
        res.0@.map_values(|f: SharedFolderEntry| f@) == folders_upto(lines_spec(content@), 16),
        res.1 == exists|k: int|
            0 <= k < lines_spec(content@).len() && enables_shared(
                #[trigger] lines_spec(content@)[k],
            ),
{
    let cs = chars_of(content);
    let ls = lines(&cs);
    let ghost lv = ls.deep_view();
    let mut enabled = false;
    let mut j: usize = 0;
    while j < ls.len()
        invariant
            j <= ls.len(),
            lv == ls.deep_view(),
            lv == lines_spec(content@),
            enabled == exists|k: int| 0 <= k < j && enables_shared(#[trigger] lv[k]),
        decreases ls.len() - j,
    {
        proof {
            lemma_char_vec_deep_view(&ls[j as int]);
        }
        let e = enables_shared_exec(&ls[j]);
        assert(lv[j as int] == ls[j as int]@);
        if e {
            enabled = true;
        }
        proof {
            if !e {
                assert forall|k: int| 0 <= k < j + 1 && enables_shared(#[trigger] lv[k]) implies k < j by {}
            }
        }
        j = j + 1;
    }
    let mut folders: Vec<SharedFolderEntry> = Vec::new();
    let mut i: u8 = 0;
    while i < 16
        invariant
            i <= 16,
            lv == ls.deep_view(),
            lv == lines_spec(content@),
            folders@.map_values(|f: SharedFolderEntry| f@) =~= folders_upto(lv, i as nat),
        decreases 16 - i,
    {
        match folder_exec(&ls, i) {
            Some(f) => {
                folders.push(f);
            },
            None => {},
        }
        i = i + 1;
    }
    (folders, enabled)
}

} // verus!
