//! Laws of reading and changing `.vmx` settings.
use vstd::prelude::*;
use vstd::utf8::is_ascii_chars;
use crate::text::{
    ascii_lower, ascii_lower_char, find_char_from, find_char_spec, is_ws, lemma_ascii_lower_char,
    lemma_find_char_from, lemma_trim_end_sub, lemma_trim_sub, lines_spec, split_spec, split_state, str_lowercase,
    strip_cr, trim, trim_end, trim_start,
};
use super::{
    classify, get_spec, key_text, last_index, lemma_last_index, lemma_last_index_char, line_text,
    lookup, parse_line_spec, parse_spec, render_spec, set_spec, unquote, VmxLine,
};

verus! {

/// `last_index` after `set_spec` for the key that was set.
proof fn lemma_set_last_index(lines: Seq<VmxLine>, key: Seq<char>, value: Seq<char>)
    ensures
        ({
            let k = str_lowercase(key);
            let i = last_index(lines, k);
            let after = set_spec(lines, key, value);
            &&& i == -1 ==> last_index(after, k) == lines.len()
            &&& i != -1 ==> last_index(after, k) == i
            &&& after[last_index(after, k)] == VmxLine::Pair(k, value)
        }),
{
    let k = str_lowercase(key);
    lemma_last_index(lines, k);
    let i = last_index(lines, k);
    let after = set_spec(lines, key, value);
    if i == -1 {
        lemma_last_index_char(after, k, lines.len() as int);
    } else {
        assert forall|j: int| i < j < after.len() implies !(#[trigger] after[j] matches VmxLine::Pair(
            kk,
            _,
        ) && kk == k) by {
            assert(after[j] == lines[j]);
        }
        lemma_last_index_char(after, k, i);
    }
}

/// Reading a key right after setting it gives the value that was set.
pub proof fn law_get_after_set(lines: Seq<VmxLine>, key: Seq<char>, value: Seq<char>)
    ensures
        get_spec(set_spec(lines, key, value), key) == Some(value),
{
    lemma_set_last_index(lines, key, value);
}

/// Setting a key leaves the value stored under every other lowercase key
/// as it was.
pub proof fn lemma_set_keeps_other_lookups(
    lines: Seq<VmxLine>,
    key: Seq<char>,
    value: Seq<char>,
    o: Seq<char>,
)
    requires
        o != str_lowercase(key),
    ensures
        lookup(set_spec(lines, key, value), o) == lookup(lines, o),
{
    let k = str_lowercase(key);
    let after = set_spec(lines, key, value);
    lemma_last_index(lines, k);
    lemma_last_index(lines, o);
    let i = last_index(lines, k);
    let io = last_index(lines, o);
    assert forall|j: int| io < j < after.len() implies !(#[trigger] after[j] matches VmxLine::Pair(
        kk,
        _,
    ) && kk == o) by {
        if j < lines.len() && j != i {
            assert(after[j] == lines[j]);
        }
    }
    if io != -1 {
        assert(io != i);
        assert(after[io] == lines[io]);
    }
    lemma_last_index_char(after, o, io);
}

/// Setting a key leaves the value of every key that differs from it
/// (compared without regard to case) as it was.
pub proof fn law_set_keeps_other_keys(
    lines: Seq<VmxLine>,
    key: Seq<char>,
    value: Seq<char>,
    other: Seq<char>,
)
    requires
        str_lowercase(other) != str_lowercase(key),
    ensures
        get_spec(set_spec(lines, key, value), other) == get_spec(lines, other),
{
    lemma_set_keeps_other_lookups(lines, key, value, str_lowercase(other));
}

/// Setting a key twice is the same as setting it once to the second value:
/// the last write wins and no second line is added.
pub proof fn law_set_set(lines: Seq<VmxLine>, key: Seq<char>, v1: Seq<char>, v2: Seq<char>)
    ensures
        set_spec(set_spec(lines, key, v1), key, v2) == set_spec(lines, key, v2),
{
    let k = str_lowercase(key);
    lemma_set_last_index(lines, key, v1);
    lemma_last_index(lines, k);
    let i = last_index(lines, k);
    let a = set_spec(lines, key, v1);
    if i == -1 {
        assert(last_index(a, k) == lines.len());
        assert(set_spec(a, key, v2) =~= set_spec(lines, key, v2));
    } else {
        assert(last_index(a, k) == i);
        assert(a.update(i, VmxLine::Pair(k, v2)) =~= lines.update(i, VmxLine::Pair(k, v2)));
    }
}

/// Setting a key changes no line but the one it sets, and adds at most one
/// line, at the end.
pub proof fn law_set_keeps_other_lines(lines: Seq<VmxLine>, key: Seq<char>, value: Seq<char>)
    ensures
        ({
            let after = set_spec(lines, key, value);
            let k = str_lowercase(key);
            &&& lines.len() <= after.len() <= lines.len() + 1
            &&& forall|j: int|
                0 <= j < lines.len() && j != last_index(lines, k) ==> #[trigger] after[j]
                    == lines[j]
        }),
{
    lemma_last_index(lines, str_lowercase(key));
}

/// Keys are compared without regard to case: two keys with the same
/// lowercase form read the same value.
pub proof fn law_get_ignores_case(lines: Seq<VmxLine>, k1: Seq<char>, k2: Seq<char>)
    requires
        str_lowercase(k1) == str_lowercase(k2),
    ensures
        get_spec(lines, k1) == get_spec(lines, k2),
{
}

/// No character of `s` is `c`.
pub open spec fn free_of(s: Seq<char>, c: char) -> bool {
    forall|i: int| 0 <= i < s.len() ==> s[i] != c
}

/// A line that is written and read back as it was: a text line without a
/// line break, not ending in `\r`, that reads as text; or a pair whose key
/// is not empty, in lowercase, without `=` or line breaks, does not start
/// or end with whitespace and does not start with `#`, and whose value has
/// no line break.
pub open spec fn round_trips(l: VmxLine) -> bool {
    match l {
        VmxLine::Text(t) => free_of(t, '\n') && !(t.len() > 0 && t.last() == '\r') && classify(t)
            == VmxLine::Text(t),
        VmxLine::Pair(k, v) => {
            &&& k.len() > 0
            &&& free_of(k, '=')
            &&& free_of(k, '\n')
            &&& !is_ws(k[0])
            &&& !is_ws(k.last())
            &&& k[0] != '#'
            &&& str_lowercase(k) == k
            &&& free_of(v, '\n')
        },
    }
}

/// A line that reads back as it was once written, told without
/// lowercasing: as `round_trips`, but with a pair's key in ASCII and
/// holding no capital letter `A`–`Z`.
pub open spec fn ascii_round_trips(l: VmxLine) -> bool {
    match l {
        VmxLine::Text(_) => round_trips(l),
        VmxLine::Pair(k, v) => {
            &&& k.len() > 0
            &&& free_of(k, '=')
            &&& free_of(k, '\n')
            &&& !is_ws(k[0])
            &&& !is_ws(k.last())
            &&& k[0] != '#'
            &&& is_ascii_chars(k)
            &&& ascii_lower(k) == k
            &&& free_of(v, '\n')
        },
    }
}

/// A line read from a file, in ASCII, without a line break and not ending
/// in `\r`, reads back as it was once written, when the key it gives (if
/// any) is the ASCII lowercase form of its key text.
pub proof fn lemma_read_line_round_trips(line: Seq<char>)
    requires
        is_ascii_chars(line),
        free_of(line, '\n'),
        !(line.len() > 0 && line.last() == '\r'),
        is_ascii_chars(key_text(trim(line))) ==> (classify(line) matches VmxLine::Pair(k, _)
            ==> k == ascii_lower(key_text(trim(line)))),
    ensures
        ascii_round_trips(classify(line)),
{
    let (a, b) = lemma_trim_sub(line);
    let t = trim(line);
    if t.len() == 0 || t[0] == '#' {
        return;
    }
    if classify(line) is Text {
        return;
    }
    let eq = find_char_spec(t, '=');
    lemma_find_char_from(t, '=', 0);
    assert(eq != -1);
    let head = t.take(eq);
    let (a2, b2) = lemma_trim_sub(head);
    let kt = trim(head);
    assert(kt == key_text(t));
    assert forall|j: int| 0 <= j < kt.len() implies '\0' <= #[trigger] kt[j] <= '\u{7f}' && kt[j]
        != '\n' && kt[j] != '=' by {
        assert(kt[j] == head[a2 + j]);
        assert(head[a2 + j] == t[a2 + j]);
        assert(t[a2 + j] == line[a + a2 + j]);
    }
    assert(is_ascii_chars(kt));
    let k = ascii_lower(kt);
    let v = unquote(trim(t.skip(eq + 1)));
    assert(classify(line) == VmxLine::Pair(str_lowercase(kt), v));
    assert(str_lowercase(kt) == k);
    assert(kt.len() > 0);
    assert(head.len() > 0);
    assert(head[0] == t[0]);
    assert(trim_start(head) == head);
    let b4 = lemma_trim_end_sub(head);
    assert(kt == head.subrange(0, b4));
    assert(kt[0] == t[0]);
    assert forall|j: int| 0 <= j < k.len() implies '\0' <= #[trigger] k[j] <= '\u{7f}' && k[j]
        != '\n' && k[j] != '=' && ascii_lower_char(k[j]) == k[j] by {
        lemma_ascii_lower_char(kt[j]);
    }
    assert(ascii_lower(k) =~= k);
    lemma_ascii_lower_char(kt[0]);
    lemma_ascii_lower_char(kt.last());
    assert(k.last() == ascii_lower_char(kt.last()));
    let tail = t.skip(eq + 1);
    let (a3, b3) = lemma_trim_sub(tail);
    let tv = trim(tail);
    assert forall|j: int| 0 <= j < v.len() implies #[trigger] v[j] != '\n' by {
        let i = if tv.len() >= 2 && tv[0] == '"' && tv.last() == '"' {
            j + 1
        } else {
            j
        };
        assert(v[j] == tv[i]);
        assert(tv[i] == tail[a3 + i]);
        assert(tail[a3 + i] == t[eq + 1 + a3 + i]);
        assert(t[eq + 1 + a3 + i] == line[a + eq + 1 + a3 + i]);
    }
}

/// A line that is written on a line of its own: a text line without a line
/// break and not ending in `\r`, or a pair whose key and value have no line
/// break.
pub open spec fn one_line(l: VmxLine) -> bool {
    match l {
        VmxLine::Text(t) => free_of(t, '\n') && !(t.len() > 0 && t.last() == '\r'),
        VmxLine::Pair(k, v) => free_of(k, '\n') && free_of(v, '\n'),
    }
}

proof fn lemma_split_append(s: Seq<char>, t: Seq<char>, c: char)
    requires
        free_of(t, c),
    ensures
        split_state(s + t, c, None) == (split_state(s, c, None).0, split_state(s, c, None).1 + t),
    decreases t.len(),
{
    if t.len() == 0 {
        assert(s + t =~= s);
        assert(split_state(s, c, None).1 + t =~= split_state(s, c, None).1);
    } else {
        let t0 = t.drop_last();
        lemma_split_append(s, t0, c);
        assert((s + t).drop_last() =~= s + t0);
        assert((s + t).last() == t.last());
        assert(split_state(s, c, None).1 + t0 + seq![t.last()] =~= split_state(s, c, None).1 + t);
        assert((split_state(s, c, None).1 + t0).push(t.last()) =~= split_state(s, c, None).1 + t);
    }
}

proof fn lemma_text_free(l: VmxLine)
    requires
        one_line(l),
    ensures
        free_of(line_text(l), '\n'),
        line_text(l).len() > 0 ==> line_text(l).last() != '\r',
{
    reveal_strlit(" = \"");
    reveal_strlit("\"");
    match l {
        VmxLine::Pair(k, v) => {
            let t = line_text(l);
            assert forall|i: int| 0 <= i < t.len() implies t[i] != '\n' by {
                if i < k.len() {
                    assert(t[i] == k[i]);
                } else if i < k.len() + 4 {
                } else if i < k.len() + 4 + v.len() {
                    assert(t[i] == v[i - k.len() - 4]);
                }
            }
        },
        VmxLine::Text(_) => {},
    }
}

proof fn lemma_render_split(lines: Seq<VmxLine>)
    requires
        forall|i: int| 0 <= i < lines.len() ==> one_line(#[trigger] lines[i]),
    ensures
        split_state(render_spec(lines), '\n', None) == (
            lines.map_values(|l: VmxLine| line_text(l)),
            Seq::<char>::empty(),
        ),
    decreases lines.len(),
{
    if lines.len() == 0 {
        assert(lines.map_values(|l: VmxLine| line_text(l)) =~= Seq::<Seq<char>>::empty());
    } else {
        let init = lines.drop_last();
        let l = lines.last();
        assert(forall|i: int| 0 <= i < init.len() ==> init[i] == lines[i]);
        lemma_render_split(init);
        lemma_text_free(l);
        let text = line_text(l);
        let r0 = render_spec(init);
        lemma_split_append(r0, text, '\n');
        assert(Seq::<char>::empty() + text =~= text);
        let r = render_spec(lines);
        assert(r =~= (r0 + text).push('\n'));
        assert(r.drop_last() =~= r0 + text);
        assert(lines.map_values(|l: VmxLine| line_text(l)) =~= init.map_values(
            |l: VmxLine| line_text(l),
        ).push(text));
    }
}

proof fn lemma_pair_reads_back(k: Seq<char>, v: Seq<char>)
    requires
        round_trips(VmxLine::Pair(k, v)),
    ensures
        classify(line_text(VmxLine::Pair(k, v))) == VmxLine::Pair(k, v),
{
    reveal_strlit(" = \"");
    reveal_strlit("\"");
    let t = line_text(VmxLine::Pair(k, v));
    let n = k.len() as int;
    assert(t.len() == n + 4 + v.len() + 1);
    assert(t[0] == k[0]);
    assert(t.last() == '"');
    assert(trim_start(t) == t);
    assert(trim_end(t) == t);
    assert(trim(t) == t);
    assert(t[n + 1] == '=');
    assert forall|j: int| 0 <= j < n + 1 implies t[j] != '=' by {
        if j < n {
            assert(t[j] == k[j]);
        }
    }
    lemma_find_char_from(t, '=', 0);
    assert(find_char_spec(t, '=') == n + 1);
    let head = t.take(n + 1);
    assert(head =~= k.push(' '));
    assert(trim_start(head) == head);
    assert(head.drop_last() =~= k);
    assert(trim_end(head) == trim_end(k));
    assert(trim_end(k) == k);
    let tail = t.skip(n + 2);
    assert(tail =~= seq![' ', '"'] + v + seq!['"']);
    assert(tail.drop_first() =~= seq!['"'] + v + seq!['"']);
    assert(trim_start(tail.drop_first()) == tail.drop_first());
    assert(trim_start(tail) == tail.drop_first());
    assert(trim_end(tail.drop_first()) == tail.drop_first());
    assert(unquote(tail.drop_first()) =~= v);
    assert(parse_line_spec(t) == Some((k, v)));
}

/// Each line is written on a line of its own, in order: the lines of the
/// written content are the lines' texts, so blank lines, comments and
/// other text lines come back verbatim, each at its position.
pub proof fn law_rendered_lines(lines: Seq<VmxLine>)
    requires
        forall|i: int| 0 <= i < lines.len() ==> one_line(#[trigger] lines[i]),
    ensures
        lines_spec(render_spec(lines)) == lines.map_values(|l: VmxLine| line_text(l)),
{
    lemma_render_split(lines);
    let texts = lines.map_values(|l: VmxLine| line_text(l));
    let r = render_spec(lines);
    let parts = split_spec(r, '\n', None);
    assert(parts =~= texts.push(Seq::<char>::empty()));
    assert(parts.take(parts.len() - 1) =~= texts);
    assert forall|i: int| 0 <= i < texts.len() implies strip_cr(#[trigger] texts[i]) == texts[i] by {
        lemma_text_free(lines[i]);
    }
    assert(texts.map_values(|p: Seq<char>| strip_cr(p)) =~= texts);
    assert(lines_spec(r) =~= texts);
}

/// A file written from lines that each read back as they were reads back
/// as those lines.
pub proof fn law_render_then_parse(lines: Seq<VmxLine>)
    requires
        forall|i: int| 0 <= i < lines.len() ==> round_trips(#[trigger] lines[i]),
    ensures
        parse_spec(render_spec(lines)) == lines,
{
    assert forall|i: int| 0 <= i < lines.len() implies one_line(#[trigger] lines[i]) by {
        assert(round_trips(lines[i]));
    }
    law_rendered_lines(lines);
    let r = render_spec(lines);
    assert forall|i: int| 0 <= i < lines.len() implies classify(
        #[trigger] lines_spec(r)[i],
    ) == lines[i] by {
        assert(lines_spec(r)[i] == line_text(lines[i]));
        match lines[i] {
            VmxLine::Pair(k, v) => lemma_pair_reads_back(k, v),
            VmxLine::Text(_) => {},
        }
    }
    assert(parse_spec(r) =~= lines);
}

/// Setting a key, writing the file and reading it back gives the value
/// that was set, when every line and the new pair read back as they are.
pub proof fn law_set_save_reload(lines: Seq<VmxLine>, key: Seq<char>, value: Seq<char>)
    requires
        forall|i: int| 0 <= i < lines.len() ==> round_trips(#[trigger] lines[i]),
        round_trips(VmxLine::Pair(str_lowercase(key), value)),
    ensures
        parse_spec(render_spec(set_spec(lines, key, value))) == set_spec(lines, key, value),
        get_spec(parse_spec(render_spec(set_spec(lines, key, value))), key) == Some(value),
{
    let after = set_spec(lines, key, value);
    let k = str_lowercase(key);
    let idx = last_index(lines, k);
    lemma_last_index(lines, k);
    assert forall|i: int| 0 <= i < after.len() implies round_trips(#[trigger] after[i]) by {
        if idx == -1 {
            if i < lines.len() {
                assert(after[i] == lines[i]);
            } else {
                assert(after[i] == VmxLine::Pair(k, value));
            }
        } else if i == idx {
            assert(after[i] == VmxLine::Pair(k, value));
        } else {
            assert(after[i] == lines[i]);
        }
    }
    law_render_then_parse(after);
    law_get_after_set(lines, key, value);
}

} // verus!
