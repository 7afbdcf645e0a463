//! Character-level text utilities with exact specifications.
//!
//! Text is handled as `Vec<char>` in executable code and as `Seq<char>`
//! in specifications; the views of `String` and `str` are `Seq<char>` too.
use vstd::prelude::*;

verus! {

// ---------------------------------------------------------------------------
// Conversions between strings and character vectors
// ---------------------------------------------------------------------------

/// Appends one character to a string (`String::push`).
#[verifier::external_body]
pub(crate) fn push_char(s: &mut String, c: char)
    ensures
        final(s)@ == old(s)@.push(c),
{
    s.push(c);
}

/// Removes the last character of a string (`String::pop`), which it
/// returns; an empty string stays empty and gives `None`.
#[verifier::external_body]
pub(crate) fn pop_char(s: &mut String) -> (res: Option<char>)
    ensures
        old(s)@.len() == 0 ==> res is None && final(s)@ == old(s)@,
        old(s)@.len() > 0 ==> res == Some(old(s)@.last()) && final(s)@ == old(s)@.drop_last(),
{
    s.pop()
}

/// The length in bytes of a text, as `str::len` gives it.
pub open spec fn byte_len(s: Seq<char>) -> usize {
    vstd::utf8::encode_utf8(s).len() as usize
}

/// The length in bytes of a string slice.
pub fn byte_len_of(s: &str) -> (res: usize)
    ensures
        res == byte_len(s@),
{
    s.len()
}

/// The characters of a string slice, in order.
pub fn chars_of(s: &str) -> (res: Vec<char>)
    ensures
        res@ == s@,
{
    let mut res: Vec<char> = Vec::new();
    for c in it: s.chars()
        invariant
            it.seq() == s@,
            res@ == it.seq().take(it.index() as int),
    {
        res.push(c);
    }
    res
}

/// A string holding exactly the given characters.
pub fn string_of(v: &Vec<char>) -> (res: String)
    ensures
        res@ == v@,
{
    let mut res = String::new();
    let mut i: usize = 0;
    while i < v.len()
        invariant
            i <= v.len(),
            res@ == v@.take(i as int),
        decreases v.len() - i,
    {
        push_char(&mut res, v[i]);
        assert(v@.take(i as int).push(v@[i as int]) =~= v@.take(i + 1));
        i = i + 1;
    }
    assert(v@.take(v.len() as int) =~= v@);
    res
}

/// A copy of a string slice as an owned string.
pub fn owned(s: &str) -> (res: String)
    ensures
        res@ == s@,
{
    let v = chars_of(s);
    string_of(&v)
}

/// The characters `v[lo..hi]`.
pub fn slice(v: &Vec<char>, lo: usize, hi: usize) -> (res: Vec<char>)
    requires
        lo <= hi <= v.len(),
    ensures
        res@ == v@.subrange(lo as int, hi as int),
{
    let mut res: Vec<char> = Vec::new();
    let mut i: usize = lo;
    while i < hi
        invariant
            lo <= i <= hi <= v.len(),
            res@ == v@.subrange(lo as int, i as int),
        decreases hi - i,
    {
        res.push(v[i]);
        assert(v@.subrange(lo as int, i as int).push(v@[i as int]) =~= v@.subrange(
            lo as int,
            i + 1,
        ));
        i = i + 1;
    }
    res
}

/// Whether two character sequences are equal.
pub fn chars_eq(a: &Vec<char>, b: &Vec<char>) -> (res: bool)
    ensures
        res == (a@ == b@),
{
    if a.len() != b.len() {
        return false;
    }
    let mut i: usize = 0;
    while i < a.len()
        invariant
            a.len() == b.len(),
            i <= a.len(),
            forall|j: int| 0 <= j < i ==> a@[j] == b@[j],
        decreases a.len() - i,
    {
        if a[i] != b[i] {
            return false;
        }
        i = i + 1;
    }
    assert(a@ =~= b@);
    true
}

/// Whether a string equals a string slice.
pub fn str_eq(a: &str, b: &str) -> (res: bool)
    ensures
        res == (a@ == b@),
{
    let va = chars_of(a);
    let vb = chars_of(b);
    chars_eq(&va, &vb)
}


/// Appends a string slice to a string.
pub fn append(s: &mut String, t: &str)
    ensures
        final(s)@ == old(s)@ + t@,
{
    let v = chars_of(t);
    let mut i: usize = 0;
    let ghost s0 = s@;
    while i < v.len()
        invariant
            i <= v.len(),
            v@ == t@,
            s@ == s0 + v@.take(i as int),
        decreases v.len() - i,
    {
        push_char(s, v[i]);
        assert(s0 + v@.take(i as int).push(v@[i as int]) =~= s0 + v@.take(i + 1));
        i = i + 1;
    }
    assert(v@.take(v.len() as int) =~= v@);
}

/// The concatenation of two string slices.
pub fn join2(a: &str, b: &str) -> (res: String)
    ensures
        res@ == a@ + b@,
{
    let mut s = owned(a);
    append(&mut s, b);
    s
}

/// The concatenation of three string slices.
pub fn join3(a: &str, b: &str, c: &str) -> (res: String)
    ensures
        res@ == a@ + b@ + c@,
{
    let mut s = owned(a);
    append(&mut s, b);
    append(&mut s, c);
    s
}

// ---------------------------------------------------------------------------
// Prefixes, suffixes and searching
// ---------------------------------------------------------------------------

/// `p` is a prefix of `s`.
pub open spec fn has_prefix(s: Seq<char>, p: Seq<char>) -> bool {
    p.len() <= s.len() && s.take(p.len() as int) == p
}

/// `p` is a suffix of `s`.
pub open spec fn has_suffix(s: Seq<char>, p: Seq<char>) -> bool {
    p.len() <= s.len() && s.skip(s.len() - p.len()) == p
}

/// `p` occurs in `s` starting at position `k`.
pub open spec fn occurs_at(s: Seq<char>, p: Seq<char>, k: int) -> bool {
    0 <= k && k + p.len() <= s.len() && s.subrange(k, k + p.len()) == p
}

/// Whether `s` starts with `p`.
pub fn starts_with(s: &Vec<char>, p: &Vec<char>) -> (res: bool)
    ensures
        res == has_prefix(s@, p@),
{
    if p.len() > s.len() {
        return false;
    }
    let mut i: usize = 0;
    while i < p.len()
        invariant
            p.len() <= s.len(),
            i <= p.len(),
            forall|j: int| 0 <= j < i ==> s@[j] == p@[j],
        decreases p.len() - i,
    {
        if s[i] != p[i] {
            assert(s@.take(p.len() as int)[i as int] != p@[i as int]);
            return false;
        }
        i = i + 1;
    }
    assert(s@.take(p.len() as int) =~= p@);
    true
}

/// Whether `s` ends with `p`.
pub fn ends_with(s: &Vec<char>, p: &Vec<char>) -> (res: bool)
    ensures
        res == has_suffix(s@, p@),
{
    if p.len() > s.len() {
        return false;
    }
    let off = s.len() - p.len();
    let mut i: usize = 0;
    while i < p.len()
        invariant
            p.len() <= s.len(),
            off == s.len() - p.len(),
            i <= p.len(),
            forall|j: int| 0 <= j < i ==> s@[off + j] == p@[j],
        decreases p.len() - i,
    {
        if s[off + i] != p[i] {
            assert(s@.skip(off as int)[i as int] != p@[i as int]);
            return false;
        }
        i = i + 1;
    }
    assert(s@.skip(off as int) =~= p@);
    true
}

/// Whether `p` occurs in `s` at position `k` (executable form of `occurs_at`).
pub fn matches_at(s: &Vec<char>, p: &Vec<char>, k: usize) -> (res: bool)
    ensures
        res == occurs_at(s@, p@, k as int),
{
    if k > s.len() || p.len() > s.len() - k {
        return false;
    }
    let mut i: usize = 0;
    while i < p.len()
        invariant
            k + p.len() <= s.len(),
            i <= p.len(),
            forall|j: int| 0 <= j < i ==> s@[k + j] == p@[j],
        decreases p.len() - i,
    {
        if s[k + i] != p[i] {
            assert(s@.subrange(k as int, k + p.len())[i as int] != p@[i as int]);
            return false;
        }
        i = i + 1;
    }
    assert(s@.subrange(k as int, k + p.len()) =~= p@);
    true
}

/// The first position at or after `i` where `c` occurs, or -1.
pub open spec fn find_char_from(s: Seq<char>, c: char, i: int) -> int
    decreases s.len() - i,
{
    if i < 0 || i >= s.len() {
        -1
    } else if s[i] == c {
        i
    } else {
        find_char_from(s, c, i + 1)
    }
}

/// The first position of `c` in `s`, or -1.
pub open spec fn find_char_spec(s: Seq<char>, c: char) -> int {
    find_char_from(s, c, 0)
}

/// Characterisation of `find_char_from`.
pub proof fn lemma_find_char_from(s: Seq<char>, c: char, i: int)
    requires
        0 <= i <= s.len(),
    ensures
        find_char_from(s, c, i) == -1 ==> forall|j: int| i <= j < s.len() ==> s[j] != c,
        find_char_from(s, c, i) != -1 ==> {
            let k = find_char_from(s, c, i);
            &&& i <= k < s.len()
            &&& s[k] == c
            &&& forall|j: int| i <= j < k ==> s[j] != c
        },
    decreases s.len() - i,
{
    if i < s.len() && s[i] != c {
        lemma_find_char_from(s, c, i + 1);
    }
}

/// The first position at or after `from` holding `c`.
pub fn find_char(s: &Vec<char>, c: char, from: usize) -> (res: Option<usize>)
    requires
        from <= s.len(),
    ensures
        match res {
            Some(k) => k == find_char_from(s@, c, from as int),
            None => find_char_from(s@, c, from as int) == -1,
        },
{
    let mut i = from;
    while i < s.len()
        invariant
            from <= i <= s.len(),
            find_char_from(s@, c, from as int) == find_char_from(s@, c, i as int),
        decreases s.len() - i,
    {
        if s[i] == c {
            return Some(i);
        }
        i = i + 1;
    }
    None
}

/// The first position at or after `i` where `p` occurs, or -1.
pub open spec fn find_sub_from(s: Seq<char>, p: Seq<char>, i: int) -> int
    decreases s.len() + 1 - i,
{
    if i < 0 || i + p.len() > s.len() {
        -1
    } else if occurs_at(s, p, i) {
        i
    } else {
        find_sub_from(s, p, i + 1)
    }
}

/// The first position where `p` occurs in `s`, or -1 (`str::find`).
pub open spec fn find_sub_spec(s: Seq<char>, p: Seq<char>) -> int {
    find_sub_from(s, p, 0)
}

/// Whether `p` occurs in `s` (`str::contains`).
pub open spec fn contains_sub(s: Seq<char>, p: Seq<char>) -> bool {
    find_sub_spec(s, p) != -1
}

/// The first position of `p` in `s`.
pub fn find_sub(s: &Vec<char>, p: &Vec<char>) -> (res: Option<usize>)
    ensures
        match res {
            Some(k) => k == find_sub_spec(s@, p@),
            None => find_sub_spec(s@, p@) == -1,
        },
{
    if p.len() > s.len() {
        return None;
    }
    let end = s.len() - p.len();
    let mut i: usize = 0;
    while i <= end
        invariant
            p.len() <= s.len(),
            end == s.len() - p.len(),
            i <= end,
            find_sub_spec(s@, p@) == find_sub_from(s@, p@, i as int),
        decreases end - i,
    {
        if matches_at(s, p, i) {
            return Some(i);
        }
        if i == end {
            assert(find_sub_from(s@, p@, i + 1) == -1);
            return None;
        }
        i = i + 1;
    }
    None
}

/// Whether `p` occurs in `s`.
pub fn contains(s: &Vec<char>, p: &Vec<char>) -> (res: bool)
    ensures
        res == contains_sub(s@, p@),
{
    find_sub(s, p).is_some()
}

// ---------------------------------------------------------------------------
// Whitespace and trimming
// ---------------------------------------------------------------------------

/// Unicode `White_Space`, as `char::is_whitespace` documents it.
pub open spec fn is_ws(c: char) -> bool {
    ||| c == ' '
    ||| ('\t' <= c && c <= '\r')
    ||| c == '\u{85}'
    ||| c == '\u{A0}'
    ||| c == '\u{1680}'
    ||| ('\u{2000}' <= c && c <= '\u{200A}')
    ||| c == '\u{2028}'
    ||| c == '\u{2029}'
    ||| c == '\u{202F}'
    ||| c == '\u{205F}'
    ||| c == '\u{3000}'
}

/// Whether a character is whitespace.
pub fn is_whitespace(c: char) -> (res: bool)
    ensures
        res == is_ws(c),
{
    c == ' ' || ('\t' <= c && c <= '\r') || c == '\u{85}' || c == '\u{A0}' || c == '\u{1680}'
        || ('\u{2000}' <= c && c <= '\u{200A}') || c == '\u{2028}' || c == '\u{2029}' || c
        == '\u{202F}' || c == '\u{205F}' || c == '\u{3000}'
}

/// `s` without its leading whitespace (`str::trim_start`).
pub open spec fn trim_start(s: Seq<char>) -> Seq<char>
    decreases s.len(),
{
    if s.len() > 0 && is_ws(s[0]) {
        trim_start(s.drop_first())
    } else {
        s
    }
}

/// `s` without its trailing whitespace (`str::trim_end`).
pub open spec fn trim_end(s: Seq<char>) -> Seq<char>
    decreases s.len(),
{
    if s.len() > 0 && is_ws(s.last()) {
        trim_end(s.drop_last())
    } else {
        s
    }
}

/// `s` without leading and trailing whitespace (`str::trim`).
pub open spec fn trim(s: Seq<char>) -> Seq<char> {
    trim_end(trim_start(s))
}

/// Leading whitespace removed.
pub fn trim_start_chars(v: &Vec<char>) -> (res: Vec<char>)
    ensures
        res@ == trim_start(v@),
{
    let mut i: usize = 0;
    assert(v@.skip(0) =~= v@);
    while i < v.len() && is_whitespace(v[i])
        invariant
            i <= v.len(),
            trim_start(v@) == trim_start(v@.skip(i as int)),
        decreases v.len() - i,
    {
        assert(v@.skip(i as int).drop_first() =~= v@.skip(i + 1));
        i = i + 1;
    }
    slice(v, i, v.len())
}

/// Trailing whitespace removed.
pub fn trim_end_chars(v: &Vec<char>) -> (res: Vec<char>)
    ensures
        res@ == trim_end(v@),
{
    let mut j: usize = v.len();
    assert(v@.take(v.len() as int) =~= v@);
    while j > 0 && is_whitespace(v[j - 1])
        invariant
            j <= v.len(),
            trim_end(v@) == trim_end(v@.take(j as int)),
        decreases j,
    {
        assert(v@.take(j as int).drop_last() =~= v@.take(j - 1));
        j = j - 1;
    }
    assert(v@.subrange(0, j as int) =~= v@.take(j as int));
    slice(v, 0, j)
}

/// Leading and trailing whitespace removed.
pub fn trim_chars(v: &Vec<char>) -> (res: Vec<char>)
    ensures
        res@ == trim(v@),
{
    let a = trim_start_chars(v);
    trim_end_chars(&a)
}

/// `s` without any leading copies of `c`.
pub open spec fn strip_lead(s: Seq<char>, c: char) -> Seq<char>
    decreases s.len(),
{
    if s.len() > 0 && s[0] == c {
        strip_lead(s.drop_first(), c)
    } else {
        s
    }
}

/// `s` without any trailing copies of `c`.
pub open spec fn strip_trail(s: Seq<char>, c: char) -> Seq<char>
    decreases s.len(),
{
    if s.len() > 0 && s.last() == c {
        strip_trail(s.drop_last(), c)
    } else {
        s
    }
}

/// `s` without leading and trailing copies of `c` (`str::trim_matches`).
pub open spec fn trim_matches(s: Seq<char>, c: char) -> Seq<char> {
    strip_trail(strip_lead(s, c), c)
}

/// Leading and trailing copies of `c` removed.
pub fn trim_matches_chars(v: &Vec<char>, c: char) -> (res: Vec<char>)
    ensures
        res@ == trim_matches(v@, c),
{
    let mut i: usize = 0;
    assert(v@.skip(0) =~= v@);
    while i < v.len() && v[i] == c
        invariant
            i <= v.len(),
            strip_lead(v@, c) == strip_lead(v@.skip(i as int), c),
        decreases v.len() - i,
    {
        assert(v@.skip(i as int).drop_first() =~= v@.skip(i + 1));
        i = i + 1;
    }
    let a = slice(v, i, v.len());
    let mut j: usize = a.len();
    assert(a@.take(a.len() as int) =~= a@);
    while j > 0 && a[j - 1] == c
        invariant
            j <= a.len(),
            strip_trail(a@, c) == strip_trail(a@.take(j as int), c),
        decreases j,
    {
        assert(a@.take(j as int).drop_last() =~= a@.take(j - 1));
        j = j - 1;
    }
    assert(a@.subrange(0, j as int) =~= a@.take(j as int));
    slice(&a, 0, j)
}

// ---------------------------------------------------------------------------
// Splitting
// ---------------------------------------------------------------------------

/// The finished pieces and the piece under construction when `s` is split
/// at `c`, at most `limit` pieces being made when a limit is given.
pub open spec fn split_state(s: Seq<char>, c: char, limit: Option<nat>) -> (Seq<Seq<char>>, Seq<char>)
    decreases s.len(),
{
    if s.len() == 0 {
        (Seq::empty(), Seq::empty())
    } else {
        let (done, cur) = split_state(s.drop_last(), c, limit);
        let x = s.last();
        if x == c && (limit matches Some(n) ==> done.len() + 1 < n) {
            (done.push(cur), Seq::empty())
        } else {
            (done, cur.push(x))
        }
    }
}

/// The pieces of `s` split at `c` (`str::split`, or `str::splitn` with a limit).
pub open spec fn split_spec(s: Seq<char>, c: char, limit: Option<nat>) -> Seq<Seq<char>> {
    let (done, cur) = split_state(s, c, limit);
    done.push(cur)
}

/// `s` split at every `c`.
pub open spec fn split_all(s: Seq<char>, c: char) -> Seq<Seq<char>> {
    split_spec(s, c, None)
}

/// `s` split at `c` into at most `n` pieces.
pub open spec fn splitn(s: Seq<char>, n: nat, c: char) -> Seq<Seq<char>> {
    split_spec(s, c, Some(n))
}

/// The pieces of `v` split at `c`, at most `limit` of them when a limit is
/// given (the limit must be at least 1).
pub fn split_chars(v: &Vec<char>, c: char, limit: Option<usize>) -> (res: Vec<Vec<char>>)
    requires
        limit matches Some(n) ==> n >= 1,
    ensures
        res.deep_view() == split_spec(
            v@,
            c,
            match limit {
                Some(n) => Some(n as nat),
                None => None,
            },
        ),
{
    let ghost lim = match limit {
        Some(n) => Some(n as nat),
        None => None,
    };
    let mut done: Vec<Vec<char>> = Vec::new();
    let mut cur: Vec<char> = Vec::new();
    let mut i: usize = 0;
    while i < v.len()
        invariant
            i <= v.len(),
            lim == match limit {
                Some(n) => Some(n as nat),
                None => None,
            },
            limit matches Some(n) ==> done.len() < n,
            split_state(v@.take(i as int), c, lim) == (done.deep_view(), cur@),
        decreases v.len() - i,
    {
        assert(v@.take(i + 1).drop_last() =~= v@.take(i as int));
        let x = v[i];
        let room = match limit {
            Some(n) => done.len() + 1 < n,
            None => true,
        };
        if x == c && room {
            let ghost before = done.deep_view();
            let piece = cur;
            proof { lemma_char_vec_deep_view(&piece); }
            done.push(piece);
            cur = Vec::new();
            assert(done.deep_view() =~= before.push(piece@));
        } else {
            cur.push(x);
        }
        i = i + 1;
    }
    assert(v@.take(v.len() as int) =~= v@);
    let ghost before = done.deep_view();
    proof { lemma_char_vec_deep_view(&cur); }
    let last = cur;
    done.push(last);
    assert(done.deep_view() =~= before.push(last@));
    done
}

/// The deep view of a character vector is its view.
pub proof fn lemma_char_vec_deep_view(v: &Vec<char>)
    ensures
        v.deep_view() == v@,
{
    assert(v.deep_view() =~= v@);
}


// ---------------------------------------------------------------------------
// Lines and words
// ---------------------------------------------------------------------------

/// `s` without its first `n` items (none left when it has fewer), as
/// `Iterator::skip` gives them.
pub open spec fn skip_n<T>(s: Seq<T>, n: int) -> Seq<T> {
    if n <= s.len() {
        s.skip(n)
    } else {
        Seq::empty()
    }
}

/// `s` without one trailing carriage return.
pub open spec fn strip_cr(s: Seq<char>) -> Seq<char> {
    if s.len() > 0 && s.last() == '\r' {
        s.drop_last()
    } else {
        s
    }
}

/// The lines of `s` (`str::lines`): split at `\n`, a `\r` before the `\n`
/// removed, and no empty last line after a final line ending.
pub open spec fn lines_spec(s: Seq<char>) -> Seq<Seq<char>> {
    let parts = split_all(s, '\n');
    let body = parts.take(parts.len() - 1).map_values(|p: Seq<char>| strip_cr(p));
    if parts.last().len() == 0 {
        body
    } else {
        body.push(parts.last())
    }
}

/// A line without one trailing `\r`.
fn strip_cr_chars(v: Vec<char>) -> (res: Vec<char>)
    ensures
        res@ == strip_cr(v@),
{
    let mut v = v;
    if v.len() > 0 && v[v.len() - 1] == '\r' {
        v.pop();
    }
    v
}

/// The lines of `v`.
pub fn lines(v: &Vec<char>) -> (res: Vec<Vec<char>>)
    ensures
        res.deep_view() == lines_spec(v@),
{
    let parts = split_chars(v, '\n', None);
    let ghost pv = parts.deep_view();
    let n = parts.len();
    assert(pv.len() >= 1);
    let mut res: Vec<Vec<char>> = Vec::new();
    let mut i: usize = 0;
    while i + 1 < n
        invariant
            n == parts.len(),
            n >= 1,
            pv == parts.deep_view(),
            i < n,
            res.deep_view() =~= pv.take(i as int).map_values(|p: Seq<char>| strip_cr(p)),
        decreases n - i,
    {
        let ghost before = res.deep_view();
        let line = strip_cr_chars(parts[i].clone());
        proof {
            lemma_char_vec_deep_view(&line);
            lemma_char_vec_deep_view(&parts[i as int]);
        }
        res.push(line);
        assert(res.deep_view() =~= before.push(line@));
        assert(pv.take(i + 1).map_values(|p: Seq<char>| strip_cr(p)) =~= pv.take(
            i as int,
        ).map_values(|p: Seq<char>| strip_cr(p)).push(strip_cr(pv[i as int])));
        i = i + 1;
    }
    let last = parts[n - 1].clone();
    proof {
        lemma_char_vec_deep_view(&last);
        lemma_char_vec_deep_view(&parts[n - 1]);
    }
    if last.len() > 0 {
        let ghost before = res.deep_view();
        res.push(last);
        assert(res.deep_view() =~= before.push(last@));
    }
    res
}

/// The finished words and the word under construction when `s` is split
/// at runs of whitespace.
pub open spec fn words_state(s: Seq<char>) -> (Seq<Seq<char>>, Seq<char>)
    decreases s.len(),
{
    if s.len() == 0 {
        (Seq::empty(), Seq::empty())
    } else {
        let (w, cur) = words_state(s.drop_last());
        let x = s.last();
        if is_ws(x) {
            if cur.len() > 0 {
                (w.push(cur), Seq::empty())
            } else {
                (w, Seq::empty())
            }
        } else {
            (w, cur.push(x))
        }
    }
}

/// The whitespace-separated words of `s` (`str::split_whitespace`).
pub open spec fn words_spec(s: Seq<char>) -> Seq<Seq<char>> {
    let (w, cur) = words_state(s);
    if cur.len() > 0 {
        w.push(cur)
    } else {
        w
    }
}

/// The whitespace-separated words of `v`.
pub fn words(v: &Vec<char>) -> (res: Vec<Vec<char>>)
    ensures
        res.deep_view() == words_spec(v@),
{
    let mut done: Vec<Vec<char>> = Vec::new();
    let mut cur: Vec<char> = Vec::new();
    let mut i: usize = 0;
    while i < v.len()
        invariant
            i <= v.len(),
            words_state(v@.take(i as int)) == (done.deep_view(), cur@),
        decreases v.len() - i,
    {
        assert(v@.take(i + 1).drop_last() =~= v@.take(i as int));
        let x = v[i];
        if is_whitespace(x) {
            if cur.len() > 0 {
                let ghost before = done.deep_view();
                let piece = cur;
                proof { lemma_char_vec_deep_view(&piece); }
                done.push(piece);
                assert(done.deep_view() =~= before.push(piece@));
            }
            cur = Vec::new();
        } else {
            cur.push(x);
        }
        i = i + 1;
    }
    assert(v@.take(v.len() as int) =~= v@);
    if cur.len() > 0 {
        let ghost before = done.deep_view();
        let piece = cur;
        proof { lemma_char_vec_deep_view(&piece); }
        done.push(piece);
        assert(done.deep_view() =~= before.push(piece@));
    }
    done
}

// ---------------------------------------------------------------------------
// Numbers
// ---------------------------------------------------------------------------

/// The value of `c` as a digit in `radix`, or -1 when it is not one.
pub open spec fn digit_val(c: char, radix: nat) -> int {
    let d: int = if '0' <= c && c <= '9' {
        c as int - '0' as int
    } else if 'a' <= c && c <= 'z' {
        c as int - 'a' as int + 10
    } else if 'A' <= c && c <= 'Z' {
        c as int - 'A' as int + 10
    } else {
        -1
    };
    if 0 <= d < radix {
        d
    } else {
        -1
    }
}

/// Every character of `s` is a digit in `radix`.
pub open spec fn all_digits(s: Seq<char>, radix: nat) -> bool {
    forall|i: int| 0 <= i < s.len() ==> digit_val(#[trigger] s[i], radix) >= 0
}

/// The number the digits `s` stand for in `radix`.
pub open spec fn digits_value(s: Seq<char>, radix: nat) -> int
    decreases s.len(),
{
    if s.len() == 0 {
        0
    } else {
        digits_value(s.drop_last(), radix) * radix + digit_val(s.last(), radix)
    }
}

/// What `from_str_radix` of an unsigned integer type whose largest value is
/// `max` gives: an optional `+`, then at least one digit, the value at most `max`.
pub open spec fn parse_uint_spec(s: Seq<char>, radix: nat, max: int) -> Option<int> {
    let d = uint_digits(s);
    if d.len() == 0 || !all_digits(d, radix) || digits_value(d, radix) > max {
        None
    } else {
        Some(digits_value(d, radix))
    }
}

/// The digits of an unsigned number: `s` without one leading `+`.
pub open spec fn uint_digits(s: Seq<char>) -> Seq<char> {
    if s.len() > 0 && s[0] == '+' {
        s.drop_first()
    } else {
        s
    }
}

/// The digit value of a character.
fn digit_of(c: char, radix: u32) -> (res: i64)
    requires
        2 <= radix <= 36,
    ensures
        res == digit_val(c, radix as nat),
{
    let d: i64 = if '0' <= c && c <= '9' {
        (c as u32 - '0' as u32) as i64
    } else if 'a' <= c && c <= 'z' {
        (c as u32 - 'a' as u32) as i64 + 10
    } else if 'A' <= c && c <= 'Z' {
        (c as u32 - 'A' as u32) as i64 + 10
    } else {
        -1
    };
    if 0 <= d && d < radix as i64 {
        d
    } else {
        -1
    }
}

/// Digit values never decrease when digits are appended.
proof fn lemma_digits_value_nonneg(s: Seq<char>, radix: nat)
    requires
        radix >= 2,
        all_digits(s, radix),
    ensures
        digits_value(s, radix) >= 0,
    decreases s.len(),
{
    if s.len() > 0 {
        assert(all_digits(s.drop_last(), radix)) by {
            assert forall|i: int| 0 <= i < s.drop_last().len() implies digit_val(
                #[trigger] s.drop_last()[i],
                radix,
            ) >= 0 by {
                assert(s.drop_last()[i] == s[i]);
            }
        }
        lemma_digits_value_nonneg(s.drop_last(), radix);
        let p = digits_value(s.drop_last(), radix);
        assert(digit_val(s[s.len() - 1], radix) >= 0);
        assert(p * radix >= 0) by (nonlinear_arith)
            requires
                p >= 0,
                radix >= 2,
        ;
    }
}

/// What `parse_uint_spec` gives lies between 0 and the bound.
pub proof fn lemma_parse_uint_range(s: Seq<char>, radix: nat, max: int)
    requires
        radix >= 2,
    ensures
        parse_uint_spec(s, radix, max) matches Some(n) ==> 0 <= n <= max,
{
    let d = uint_digits(s);
    if all_digits(d, radix) {
        lemma_digits_value_nonneg(d, radix);
    }
}

/// A prefix of a digit string is worth no more than the whole string.
proof fn lemma_digits_value_mono(s: Seq<char>, k: int, radix: nat)
    requires
        radix >= 2,
        0 <= k <= s.len(),
        all_digits(s, radix),
    ensures
        digits_value(s.take(k), radix) <= digits_value(s, radix),
    decreases s.len() - k,
{
    if k == s.len() {
        assert(s.take(k) =~= s);
    } else {
        lemma_digits_value_mono(s, k + 1, radix);
        assert(s.take(k + 1).drop_last() =~= s.take(k));
        let t = s.take(k);
        assert(all_digits(t, radix)) by {
            assert forall|i: int| 0 <= i < t.len() implies digit_val(#[trigger] t[i], radix)
                >= 0 by {
                assert(t[i] == s[i]);
            }
        }
        lemma_digits_value_nonneg(t, radix);
        let p = digits_value(t, radix);
        assert(digit_val(s[k], radix) >= 0);
        assert(s.take(k + 1).last() == s[k]);
        assert(p <= p * radix) by (nonlinear_arith)
            requires
                p >= 0,
                radix >= 2,
        ;
    }
}

/// Parses an unsigned number in `radix` that may be at most `max`, as
/// `from_str_radix` does for the unsigned type whose largest value is `max`.
pub fn parse_uint(v: &Vec<char>, radix: u32, max: u64) -> (res: Option<u64>)
    requires
        2 <= radix <= 36,
    ensures
        match res {
            Some(n) => parse_uint_spec(v@, radix as nat, max as int) == Some(n as int),
            None => parse_uint_spec(v@, radix as nat, max as int) is None,
        },
{
    let ghost d = uint_digits(v@);
    let start: usize = if v.len() > 0 && v[0] == '+' {
        1
    } else {
        0
    };
    assert(d =~= v@.skip(start as int));
    if start == v.len() {
        return None;
    }
    let mut val: u64 = 0;
    let mut i: usize = start;
    while i < v.len()
        invariant
            start <= i <= v.len(),
            start < v.len(),
            d =~= v@.skip(start as int),
            d == uint_digits(v@),
            2 <= radix <= 36,
            all_digits(d.take(i - start), radix as nat),
            val as int == digits_value(d.take(i - start), radix as nat),
            val <= max,
        decreases v.len() - i,
    {
        let ghost k = (i - start) as int;
        assert(d.take(k + 1).drop_last() =~= d.take(k));
        assert(d.take(k + 1).last() == v@[i as int]);
        let dv = digit_of(v[i], radix);
        if dv < 0 {
            assert(!all_digits(d, radix as nat)) by {
                assert(d[k] == v@[i as int]);
            }
            return None;
        }
        let du = dv as u64;
        if du > max {
            proof {
                if all_digits(d, radix as nat) {
                    lemma_digits_value_mono(d, k + 1, radix as nat);
                    lemma_digits_value_nonneg(d.take(k), radix as nat);
                    let p = digits_value(d.take(k), radix as nat);
                    assert(p * (radix as int) >= 0) by (nonlinear_arith)
                        requires p >= 0, radix >= 2;
                }
            }
            return None;
        }
        if val > (max - du) / (radix as u64) {
            proof {
                let r = radix as int;
                let vv = val as int;
                let q = (max - du) as int;
                assert(vv * r + du > max) by (nonlinear_arith)
                    requires
                        vv > q / r,
                        r >= 2,
                        q >= 0,
                        q == max - du,
                ;
                if all_digits(d, radix as nat) {
                    lemma_digits_value_mono(d, k + 1, radix as nat);
                }
            }
            return None;
        }
        proof {
            let r = radix as int;
            let vv = val as int;
            let q = (max - du) as int;
            assert(vv * r + du <= max) by (nonlinear_arith)
                requires
                    vv <= q / r,
                    r >= 2,
                    q >= 0,
                    q == max - du,
            ;
            assert forall|j: int| 0 <= j < k + 1 implies digit_val(
                #[trigger] d.take(k + 1)[j],
                radix as nat,
            ) >= 0 by {
                if j < k {
                    assert(d.take(k + 1)[j] == d.take(k)[j]);
                }
            }
        }
        val = val * (radix as u64) + du;
        i = i + 1;
    }
    assert(d.take(v.len() - start) =~= d);
    Some(val)
}

/// The decimal digit character for `n < 10`.
pub open spec fn digit_char(n: nat) -> char {
    if n == 0 { '0' }
    else if n == 1 { '1' }
    else if n == 2 { '2' }
    else if n == 3 { '3' }
    else if n == 4 { '4' }
    else if n == 5 { '5' }
    else if n == 6 { '6' }
    else if n == 7 { '7' }
    else if n == 8 { '8' }
    else { '9' }
}

/// The decimal representation of `n` (`u64::to_string`).
pub open spec fn dec(n: nat) -> Seq<char>
    decreases n,
{
    if n < 10 {
        seq![digit_char(n)]
    } else {
        dec(n / 10).push(digit_char(n % 10))
    }
}

fn digit_char_exec(n: u64) -> (c: char)
    requires
        n < 10,
    ensures
        c == digit_char(n as nat),
{
    if n == 0 { '0' }
    else if n == 1 { '1' }
    else if n == 2 { '2' }
    else if n == 3 { '3' }
    else if n == 4 { '4' }
    else if n == 5 { '5' }
    else if n == 6 { '6' }
    else if n == 7 { '7' }
    else if n == 8 { '8' }
    else { '9' }
}

/// The decimal digits of `n`.
pub fn dec_chars(n: u64) -> (res: Vec<char>)
    ensures
        res@ == dec(n as nat),
    decreases n,
{
    if n < 10 {
        let mut v = Vec::new();
        v.push(digit_char_exec(n));
        assert(v@ =~= seq![digit_char(n as nat)]);
        v
    } else {
        let mut v = dec_chars(n / 10);
        v.push(digit_char_exec(n % 10));
        v
    }
}

/// The decimal representation of `n` as a string.
pub fn dec_string(n: u64) -> (res: String)
    ensures
        res@ == dec(n as nat),
{
    let v = dec_chars(n);
    string_of(&v)
}

// ---------------------------------------------------------------------------
// Case and replacement
// ---------------------------------------------------------------------------

/// What `str::to_lowercase` gives for a string.
pub uninterp spec fn str_lowercase(s: Seq<char>) -> Seq<char>;

/// A character with the ASCII letters `A`–`Z` mapped to `a`–`z`.
pub open spec fn ascii_lower_char(c: char) -> char {
    if 'A' <= c && c <= 'Z' {
        ((c as u32) + 32) as char
    } else {
        c
    }
}

/// A text with the ASCII letters `A`–`Z` mapped to `a`–`z`.
pub open spec fn ascii_lower(s: Seq<char>) -> Seq<char> {
    s.map_values(|c: char| ascii_lower_char(c))
}

/// `ascii_lower_char` turns `A`–`Z` into `a`–`z`, leaves every other
/// character as it is, and changes nothing the second time.
pub proof fn lemma_ascii_lower_char(c: char)
    ensures
        ('A' <= c && c <= 'Z') ==> ('a' <= ascii_lower_char(c) && ascii_lower_char(c) <= 'z'),
        !('A' <= c && c <= 'Z') ==> ascii_lower_char(c) == c,
        ascii_lower_char(ascii_lower_char(c)) == ascii_lower_char(c),
{
}

/// `trim_start` drops a prefix, and what it leaves starts with no
/// whitespace.
pub proof fn lemma_trim_start_sub(s: Seq<char>) -> (a: int)
    ensures
        0 <= a <= s.len(),
        trim_start(s) == s.subrange(a, s.len() as int),
        trim_start(s).len() > 0 ==> !is_ws(trim_start(s)[0]),
    decreases s.len(),
{
    if s.len() > 0 && is_ws(s[0]) {
        let a0 = lemma_trim_start_sub(s.drop_first());
        assert(s.drop_first().subrange(a0, s.len() - 1) =~= s.subrange(a0 + 1, s.len() as int));
        a0 + 1
    } else {
        assert(s.subrange(0, s.len() as int) =~= s);
        0
    }
}

/// `trim_end` keeps a prefix, and what it keeps ends with no whitespace.
pub proof fn lemma_trim_end_sub(s: Seq<char>) -> (b: int)
    ensures
        0 <= b <= s.len(),
        trim_end(s) == s.subrange(0, b),
        trim_end(s).len() > 0 ==> !is_ws(trim_end(s).last()),
    decreases s.len(),
{
    if s.len() > 0 && is_ws(s.last()) {
        let b0 = lemma_trim_end_sub(s.drop_last());
        assert(s.drop_last().subrange(0, b0) =~= s.subrange(0, b0));
        b0
    } else {
        assert(s.subrange(0, s.len() as int) =~= s);
        s.len() as int
    }
}

/// `trim` keeps a stretch of `s` that neither starts nor ends with
/// whitespace.
pub proof fn lemma_trim_sub(s: Seq<char>) -> (r: (int, int))
    ensures
        0 <= r.0 <= r.1 <= s.len(),
        trim(s) == s.subrange(r.0, r.1),
        trim(s).len() > 0 ==> !is_ws(trim(s)[0]) && !is_ws(trim(s).last()),
{
    let a = lemma_trim_start_sub(s);
    let ts = trim_start(s);
    let b = lemma_trim_end_sub(ts);
    assert(ts.subrange(0, b) =~= s.subrange(a, a + b));
    if trim(s).len() > 0 {
        assert(trim(s)[0] == ts[0]);
    }
    (a, a + b)
}

/// Every piece of `s` split at `c` holds only characters of `s` with the
/// property `p`, and no `c`.
pub proof fn lemma_split_pieces(s: Seq<char>, c: char, p: spec_fn(char) -> bool)
    requires
        forall|i: int| 0 <= i < s.len() ==> p(#[trigger] s[i]),
    ensures
        ({
            let (done, cur) = split_state(s, c, None);
            &&& forall|k: int, j: int|
                0 <= k < done.len() && 0 <= j < done[k].len() ==> p(#[trigger] done[k][j])
                    && done[k][j] != c
            &&& forall|j: int| 0 <= j < cur.len() ==> p(#[trigger] cur[j]) && cur[j] != c
        }),
    decreases s.len(),
{
    if s.len() > 0 {
        let init = s.drop_last();
        assert forall|i: int| 0 <= i < init.len() implies p(#[trigger] init[i]) by {
            assert(init[i] == s[i]);
        }
        lemma_split_pieces(init, c, p);
        let (d0, c0) = split_state(init, c, None);
        let x = s.last();
        assert(p(x));
        let (done, cur) = split_state(s, c, None);
        if x == c {
            assert(done == d0.push(c0));
            assert(cur.len() == 0);
            assert forall|k: int, j: int|
                0 <= k < done.len() && 0 <= j < done[k].len() implies p(#[trigger] done[k][j])
                && done[k][j] != c by {
                if k < d0.len() {
                    assert(done[k] == d0[k]);
                } else {
                    assert(done[k] == c0);
                }
            }
        } else {
            assert(done == d0);
            assert(cur == c0.push(x));
            assert forall|j: int| 0 <= j < cur.len() implies p(#[trigger] cur[j]) && cur[j]
                != c by {
                if j < c0.len() {
                    assert(cur[j] == c0[j]);
                }
            }
        }
    }
}

/// Every line of `s` holds only characters of `s` with the property `p`,
/// and no line break.
pub proof fn lemma_lines_pieces(s: Seq<char>, p: spec_fn(char) -> bool)
    requires
        forall|i: int| 0 <= i < s.len() ==> p(#[trigger] s[i]),
    ensures
        forall|k: int, j: int|
            0 <= k < lines_spec(s).len() && 0 <= j < lines_spec(s)[k].len() ==> p(
                #[trigger] lines_spec(s)[k][j],
            ) && lines_spec(s)[k][j] != '\n',
{
    lemma_split_pieces(s, '\n', p);
    let parts = split_all(s, '\n');
    let (done, cur) = split_state(s, '\n', None);
    assert(parts == done.push(cur));
    let ls = lines_spec(s);
    assert forall|k: int, j: int| 0 <= k < ls.len() && 0 <= j < ls[k].len() implies p(
        #[trigger] ls[k][j],
    ) && ls[k][j] != '\n' by {
        if k < parts.len() - 1 {
            assert(ls[k] == strip_cr(parts[k]));
            assert(ls[k][j] == parts[k][j]);
            assert(parts[k] == done[k]);
        } else {
            assert(ls[k] == parts.last());
            assert(parts.last() == cur);
        }
    }
}

/// `str::to_lowercase`: the Unicode lowercase form of a string. Its result
/// is named `str_lowercase`; of an ASCII string it is claimed only that
/// `A`–`Z` become `a`–`z` and every other character stays, in place (the
/// Unicode lowercase mapping of the ASCII range).
#[verifier::external_body]
pub(crate) fn to_lowercase(s: &str) -> (res: String)
    ensures
        res@ == str_lowercase(s@),
        vstd::utf8::is_ascii_chars(s@) ==> res@ == ascii_lower(s@),
{
    s.to_lowercase()
}

/// The lowercase form of a character sequence.
pub fn lowercase_chars(v: &Vec<char>) -> (res: Vec<char>)
    ensures
        res@ == str_lowercase(v@),
        vstd::utf8::is_ascii_chars(v@) ==> res@ == ascii_lower(v@),
{
    let s = string_of(v);
    let l = to_lowercase(s.as_str());
    chars_of(l.as_str())
}

/// `s` with every occurrence of the non-empty `p` removed, scanning from the
/// left (`str::replace(p, "")`).
pub open spec fn remove_all(s: Seq<char>, p: Seq<char>) -> Seq<char>
    recommends
        p.len() > 0,
    decreases s.len(),
{
    if p.len() == 0 || s.len() == 0 {
        s
    } else if has_prefix(s, p) {
        remove_all(s.skip(p.len() as int), p)
    } else {
        seq![s[0]] + remove_all(s.drop_first(), p)
    }
}

/// Every occurrence of `p` removed from `v`.
pub fn remove_all_chars(v: &Vec<char>, p: &Vec<char>) -> (res: Vec<char>)
    requires
        p.len() > 0,
    ensures
        res@ == remove_all(v@, p@),
{
    let mut out: Vec<char> = Vec::new();
    let mut i: usize = 0;
    assert(v@.skip(0) =~= v@);
    while i < v.len()
        invariant
            i <= v.len(),
            p.len() > 0,
            remove_all(v@, p@) == out@ + remove_all(v@.skip(i as int), p@),
        decreases v.len() - i,
    {
        let ghost rest = v@.skip(i as int);
        if matches_at(v, p, i) {
            assert(rest.take(p.len() as int) =~= v@.subrange(i as int, i + p.len()));
            assert(rest.skip(p.len() as int) =~= v@.skip(i + p.len()));
            i = i + p.len();
        } else {
            assert(!has_prefix(rest, p@)) by {
                if has_prefix(rest, p@) {
                    assert(rest.take(p.len() as int) =~= v@.subrange(i as int, i + p.len()));
                }
            }
            assert(rest.drop_first() =~= v@.skip(i + 1));
            assert(out@.push(v@[i as int]) + remove_all(v@.skip(i + 1), p@) =~= out@ + (seq![
                rest[0],
            ] + remove_all(rest.drop_first(), p@)));
            out.push(v[i]);
            i = i + 1;
        }
    }
    assert(v@.skip(v.len() as int) =~= Seq::<char>::empty());
    assert(out@ + Seq::<char>::empty() =~= out@);
    out
}

} // verus!
