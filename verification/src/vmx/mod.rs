//! The `.vmx` configuration format: an ordered list of lines, each either a
//! `key = "value"` pair or text (blank lines, comments, anything else) that
//! is kept as it was.
pub mod hardware;
pub mod laws;
pub mod write;

pub use hardware::{DiskEntry, HardwareConfig, NetworkAdapter};

use vstd::prelude::*;
use vstd::utf8::is_ascii_chars;
use crate::text::{
    ascii_lower, append, chars_eq, find_char_from, chars_of, find_char, find_char_spec, join2, lemma_char_vec_deep_view,
    lemma_lines_pieces, lines, lines_spec, lowercase_chars, owned, push_char, slice, str_lowercase, string_of, trim,
    trim_chars,
};

verus! {

/// Why a `.vmx` file could not be read or changed.
#[derive(Debug)]
pub enum VmxError {
    /// An input/output error, with its message.
    Io(String),
    /// The virtual machine must be stopped before its configuration is changed.
    VmNotStopped,
    /// Copying the file to its backup failed, with the error's message.
    BackupFailed(String),
}

impl VmxError {
    /// The message shown for this error.
    pub open spec fn message_spec(&self) -> Seq<char> {
        match self {
            VmxError::Io(e) => "IO 错误: "@ + e@,
            VmxError::VmNotStopped => "虚拟机必须停止后才能修改配置"@,
            VmxError::BackupFailed(e) => "备份失败: "@ + e@,
        }
    }

    /// The message shown for this error.
    pub fn message(&self) -> (res: String)
        ensures
            res@ == self.message_spec(),
    {
        match self {
            VmxError::Io(e) => join2("IO 错误: ", e.as_str()),
            VmxError::VmNotStopped => owned("虚拟机必须停止后才能修改配置"),
            VmxError::BackupFailed(e) => join2("备份失败: ", e.as_str()),
        }
    }
}

/// One line of a `.vmx` file, as a mathematical value.
pub enum VmxLine {
    /// A `key = value` pair; the key is stored in lowercase, the value unquoted.
    Pair(Seq<char>, Seq<char>),
    /// Any other line, kept verbatim.
    Text(Seq<char>),
}

/// One line of a `.vmx` file.
#[derive(Debug, Clone)]
pub enum VmxEntry {
    /// A `key = value` pair; the key is stored in lowercase, the value unquoted.
    KeyValue { key: String, value: String },
    /// A comment, a blank line or a line that is not a pair, kept verbatim.
    Other(String),
}

impl View for VmxEntry {
    type V = VmxLine;

    open spec fn view(&self) -> VmxLine {
        match self {
            VmxEntry::KeyValue { key, value } => VmxLine::Pair(key@, value@),
            VmxEntry::Other(t) => VmxLine::Text(t@),
        }
    }
}

/// A parsed `.vmx` file: its lines in order, and the path it came from.
#[derive(Debug, Clone)]
pub struct VmxFile {
    /// The lines, in file order.
    pub entries: Vec<VmxEntry>,
    /// The file's path.
    pub path: String,
}

impl View for VmxFile {
    type V = Seq<VmxLine>;

    open spec fn view(&self) -> Seq<VmxLine> {
        self.entries@.map_values(|e: VmxEntry| e@)
    }
}

/// `"value"` without its surrounding quotes, when it has both.
pub open spec fn unquote(raw: Seq<char>) -> Seq<char> {
    if raw.len() >= 2 && raw[0] == '"' && raw.last() == '"' {
        raw.subrange(1, raw.len() - 1)
    } else {
        raw
    }
}

/// The key (trimmed, in lowercase) and value (trimmed, unquoted) of a
/// `key = value` line, split at its first `=`; none when there is no `=` or
/// the key is empty.
pub open spec fn parse_line_spec(line: Seq<char>) -> Option<(Seq<char>, Seq<char>)> {
    let eq = find_char_spec(line, '=');
    if eq == -1 {
        None
    } else {
        let key = str_lowercase(trim(line.take(eq)));
        if key.len() == 0 {
            None
        } else {
            Some((key, unquote(trim(line.skip(eq + 1)))))
        }
    }
}

/// The text of a line before its first `=`, trimmed: the key before it is
/// lowercased.
pub open spec fn key_text(line: Seq<char>) -> Seq<char> {
    trim(line.take(find_char_spec(line, '=')))
}

/// How one line of a file is read: blank lines and `#` comments are text,
/// lines that parse as pairs are pairs, everything else is text.
pub open spec fn classify(line: Seq<char>) -> VmxLine {
    let t = trim(line);
    if t.len() == 0 || t[0] == '#' {
        VmxLine::Text(line)
    } else {
        match parse_line_spec(t) {
            Some((k, v)) => VmxLine::Pair(k, v),
            None => VmxLine::Text(line),
        }
    }
}

/// The lines of a file's content, read one by one.
pub open spec fn parse_spec(content: Seq<char>) -> Seq<VmxLine> {
    lines_spec(content).map_values(|l: Seq<char>| classify(l))
}

/// No line of the content, as `str::lines` reads it, ends in `\r`.
pub open spec fn no_stray_cr(content: Seq<char>) -> bool {
    forall|i: int|
        0 <= i < lines_spec(content).len() ==> !(#[trigger] lines_spec(content)[i].len() > 0
            && lines_spec(content)[i].last() == '\r')
}

/// The index of the last pair whose key is `key`, or -1.
pub open spec fn last_index(lines: Seq<VmxLine>, key: Seq<char>) -> int
    decreases lines.len(),
{
    if lines.len() == 0 {
        -1
    } else if lines.last() matches VmxLine::Pair(k, _) && k == key {
        lines.len() - 1
    } else {
        last_index(lines.drop_last(), key)
    }
}

/// The value of the last pair whose key is `key`.
pub open spec fn lookup(lines: Seq<VmxLine>, key: Seq<char>) -> Option<Seq<char>> {
    let i = last_index(lines, key);
    if i == -1 {
        None
    } else {
        match lines[i] {
            VmxLine::Pair(_, v) => Some(v),
            VmxLine::Text(_) => None,
        }
    }
}

/// The value of `key`, compared without regard to case.
pub open spec fn get_spec(lines: Seq<VmxLine>, key: Seq<char>) -> Option<Seq<char>> {
    lookup(lines, str_lowercase(key))
}

/// The lines after `key` is set to `value`: the last pair with that key
/// (in lowercase) gets the new value, or a new pair is appended.
pub open spec fn set_spec(lines: Seq<VmxLine>, key: Seq<char>, value: Seq<char>) -> Seq<VmxLine> {
    let k = str_lowercase(key);
    let i = last_index(lines, k);
    if i == -1 {
        lines.push(VmxLine::Pair(k, value))
    } else {
        lines.update(i, VmxLine::Pair(k, value))
    }
}

/// The text of one line as it is written back, without its line ending.
pub open spec fn line_text(l: VmxLine) -> Seq<char> {
    match l {
        VmxLine::Pair(k, v) => k + " = \""@ + v + "\""@,
        VmxLine::Text(t) => t,
    }
}

/// The content written for a list of lines: each line's text and `\n`.
pub open spec fn render_spec(lines: Seq<VmxLine>) -> Seq<char>
    decreases lines.len(),
{
    if lines.len() == 0 {
        Seq::empty()
    } else {
        render_spec(lines.drop_last()) + line_text(lines.last()).push('\n')
    }
}

/// Properties of `last_index`.
pub proof fn lemma_last_index(lines: Seq<VmxLine>, key: Seq<char>)
    ensures
        -1 <= last_index(lines, key) < lines.len(),
        last_index(lines, key) != -1 ==> (lines[last_index(lines, key)] matches VmxLine::Pair(
            k,
            _,
        ) && k == key),
        forall|j: int|
            last_index(lines, key) < j < lines.len() ==> !(#[trigger] lines[j] matches VmxLine::Pair(
                k,
                _,
            ) && k == key),
    decreases lines.len(),
{
    if lines.len() > 0 {
        lemma_last_index(lines.drop_last(), key);
        if !(lines.last() matches VmxLine::Pair(k, _) && k == key) {
            assert forall|j: int|
                last_index(lines, key) < j < lines.len() implies !(#[trigger] lines[j] matches VmxLine::Pair(
                k,
                _,
            ) && k == key) by {
                if j < lines.len() - 1 {
                    assert(lines[j] == lines.drop_last()[j]);
                }
            }
        }
    }
}

/// `last_index` is the greatest index of a pair with the key.
pub proof fn lemma_last_index_char(lines: Seq<VmxLine>, key: Seq<char>, i: int)
    requires
        -1 <= i < lines.len(),
        i != -1 ==> (lines[i] matches VmxLine::Pair(k, _) && k == key),
        forall|j: int|
            i < j < lines.len() ==> !(#[trigger] lines[j] matches VmxLine::Pair(k, _) && k == key),
    ensures
        last_index(lines, key) == i,
{
    lemma_last_index(lines, key);
    let li = last_index(lines, key);
    if li < i {
        assert(lines[i] matches VmxLine::Pair(k, _) && k == key);
    } else if li > i {
        assert(lines[li] matches VmxLine::Pair(k, _) && k == key);
    }
}

impl VmxFile {
    /// Splits a line (already trimmed) into its key and value, as
    /// `parse_line_spec` says.
    pub fn parse_line(line: &str) -> (res: Option<(String, String)>)
        ensures
            match res {
                Some((k, v)) => parse_line_spec(line@) == Some((k@, v@)),
                None => parse_line_spec(line@) is None,
            },
            is_ascii_chars(key_text(line@)) ==> (res matches Some((k, _)) ==> k@ == ascii_lower(
                key_text(line@),
            )),
    {
        let v = chars_of(line);
        match Self::parse_line_chars(&v) {
            Some((k, val)) => Some((string_of(&k), string_of(&val))),
            None => None,
        }
    }

    fn parse_line_chars(line: &Vec<char>) -> (res: Option<(Vec<char>, Vec<char>)>)
        ensures
            match res {
                Some((k, v)) => parse_line_spec(line@) == Some((k@, v@)),
                None => parse_line_spec(line@) is None,
            },
            is_ascii_chars(key_text(line@)) ==> (res matches Some((k, _)) ==> k@ == ascii_lower(
                key_text(line@),
            )),
    {
        let eq = match find_char(line, '=', 0) {
            Some(e) => e,
            None => {
                return None;
            },
        };
        proof {
            crate::text::lemma_find_char_from(line@, '=', 0);
            assert(find_char_from(line@, '=', 0) != -1);
            assert(eq < line.len());
        }
        let before = slice(line, 0, eq);
        assert(before@ =~= line@.take(eq as int));
        let tkey = trim_chars(&before);
        let key = lowercase_chars(&tkey);
        if key.len() == 0 {
            return None;
        }
        let after = slice(line, eq + 1, line.len());
        assert(after@ =~= line@.skip(eq + 1));
        let raw = trim_chars(&after);
        let value = if raw.len() >= 2 && raw[0] == '"' && raw[raw.len() - 1] == '"' {
            slice(&raw, 1, raw.len() - 1)
        } else {
            raw
        };
        Some((key, value))
    }

    /// Reads a file's content line by line (`str::lines`); the path is kept.
    /// Every line of a content in ASCII whose lines do not end in `\r` is
    /// written back and read again as it is.
    pub fn parse(path: String, content: &str) -> (res: VmxFile)
        ensures
            res@ == parse_spec(content@),
            res.path == path,
            is_ascii_chars(content@) && no_stray_cr(content@) ==> forall|i: int|
                0 <= i < res@.len() ==> laws::ascii_round_trips(#[trigger] res@[i]),
    {
        let chars = chars_of(content);
        let ls = lines(&chars);
        let ghost lv = ls.deep_view();
        let mut entries: Vec<VmxEntry> = Vec::new();
        let mut i: usize = 0;
        while i < ls.len()
            invariant
                i <= ls.len(),
                lv == ls.deep_view(),
                lv == lines_spec(content@),
                entries@.map_values(|e: VmxEntry| e@) =~= lv.take(i as int).map_values(
                    |l: Seq<char>| classify(l),
                ),
                is_ascii_chars(content@) && no_stray_cr(content@) ==> forall|j: int|
                    0 <= j < i ==> laws::ascii_round_trips(#[trigger] classify(lv[j])),
            decreases ls.len() - i,
        {
            let line = &ls[i];
            proof {
                lemma_char_vec_deep_view(line);
            }
            let t = trim_chars(line);
            let entry = if t.len() == 0 || t[0] == '#' {
                VmxEntry::Other(string_of(line))
            } else {
                match Self::parse_line_chars(&t) {
                    Some((k, v)) => VmxEntry::KeyValue { key: string_of(&k), value: string_of(&v) },
                    None => VmxEntry::Other(string_of(line)),
                }
            };
            assert(is_ascii_chars(key_text(t@)) ==> (entry@ matches VmxLine::Pair(kk, _) ==> kk
                == ascii_lower(key_text(t@))));
            assert(entry@ == classify(lv[i as int]));
            proof {
                if is_ascii_chars(content@) && no_stray_cr(content@) {
                    let p = |c: char| '\0' <= c <= '\u{7f}';
                    assert forall|j: int| 0 <= j < content@.len() implies p(
                        #[trigger] content@[j],
                    ) by {}
                    lemma_lines_pieces(content@, p);
                    let l = lv[i as int];
                    assert forall|j: int| 0 <= j < l.len() implies '\0' <= #[trigger] l[j]
                        <= '\u{7f}' && l[j] != '\n' by {
                        assert(p(lv[i as int][j]));
                    }
                    assert(laws::free_of(l, '\n'));
                    assert(is_ascii_chars(l));
                    laws::lemma_read_line_round_trips(l);
                }
            }
            entries.push(entry);
            assert(lv.take(i + 1).map_values(|l: Seq<char>| classify(l)) =~= lv.take(
                i as int,
            ).map_values(|l: Seq<char>| classify(l)).push(classify(lv[i as int])));
            i = i + 1;
        }
        assert(lv.take(ls.len() as int) =~= lv);
        VmxFile { entries, path }
    }

    /// The index of the last pair whose key equals `key`.
    fn find_last(&self, key: &Vec<char>) -> (res: Option<usize>)
        ensures
            match res {
                Some(i) => last_index(self@, key@) == i,
                None => last_index(self@, key@) == -1,
            },
    {
        let ghost lv = self@;
        let mut i: usize = self.entries.len();
        while i > 0
            invariant
                i <= self.entries.len(),
                lv == self@,
                lv.len() == self.entries.len(),
                forall|j: int|
                    i <= j < lv.len() ==> !(#[trigger] lv[j] matches VmxLine::Pair(k, _) && k
                        == key@),
            decreases i,
        {
            let idx = i - 1;
            let hit = match &self.entries[idx] {
                VmxEntry::KeyValue { key: k, .. } => {
                    let kc = chars_of(k.as_str());
                    chars_eq(&kc, key)
                },
                VmxEntry::Other(_) => false,
            };
            assert(lv[idx as int] == self.entries@[idx as int]@);
            if hit {
                proof {
                    lemma_last_index_char(lv, key@, idx as int);
                }
                return Some(idx);
            }
            i = idx;
        }
        proof {
            lemma_last_index_char(lv, key@, -1);
        }
        None
    }

    /// The value of `key`, compared without regard to case.
    pub fn get(&self, key: &str) -> (res: Option<&str>)
        ensures
            match res {
                Some(v) => get_spec(self@, key@) == Some(v@),
                None => get_spec(self@, key@) is None,
            },
            is_ascii_chars(key@) ==> match res {
                Some(v) => lookup(self@, ascii_lower(key@)) == Some(v@),
                None => lookup(self@, ascii_lower(key@)) is None,
            },
    {
        let kc = chars_of(key);
        let lower = lowercase_chars(&kc);
        match self.find_last(&lower) {
            Some(i) => {
                proof {
                    lemma_last_index(self@, lower@);
                }
                assert(self@[i as int] == self.entries@[i as int]@);
                match &self.entries[i] {
                    VmxEntry::KeyValue { value, .. } => Some(value.as_str()),
                    VmxEntry::Other(_) => None,
                }
            },
            None => None,
        }
    }

    /// Sets `key` (stored in lowercase) to `value`: the last pair with that
    /// key changes, or a new pair is appended.
    pub fn set(&mut self, key: &str, value: &str)
        ensures
            final(self)@ == set_spec(old(self)@, key@, value@),
            final(self).path == old(self).path,
            get_spec(final(self)@, key@) == Some(value@),
            forall|other: Seq<char>|
                str_lowercase(other) != str_lowercase(key@) ==> #[trigger] get_spec(
                    final(self)@,
                    other,
                ) == get_spec(old(self)@, other),
            is_ascii_chars(key@) ==> lookup(final(self)@, ascii_lower(key@)) == Some(value@),
            is_ascii_chars(key@) ==> forall|o: Seq<char>|
                o != ascii_lower(key@) ==> #[trigger] lookup(final(self)@, o) == lookup(
                    old(self)@,
                    o,
                ),
    {
        proof {
            laws::law_get_after_set(self@, key@, value@);
            assert forall|other: Seq<char>| str_lowercase(other) != str_lowercase(key@) implies #[trigger] get_spec(
                set_spec(self@, key@, value@),
                other,
            ) == get_spec(self@, other) by {
                laws::law_set_keeps_other_keys(self@, key@, value@, other);
            }
        }
        let kc = chars_of(key);
        let lower = lowercase_chars(&kc);
        proof {
            assert forall|o: Seq<char>| o != lower@ implies #[trigger] lookup(
                set_spec(self@, key@, value@),
                o,
            ) == lookup(self@, o) by {
                laws::lemma_set_keeps_other_lookups(self@, key@, value@, o);
            }
        }
        let entry = VmxEntry::KeyValue { key: string_of(&lower), value: owned(value) };
        proof {
            lemma_last_index(self@, lower@);
        }
        match self.find_last(&lower) {
            Some(i) => {
                self.entries.set(i, entry);
                assert(self@ =~= set_spec(old(self)@, key@, value@));
            },
            None => {
                self.entries.push(entry);
                assert(self@ =~= set_spec(old(self)@, key@, value@));
            },
        }
    }

    /// The file's content as it is written back: every line in order, pairs
    /// as `key = "value"`, other lines verbatim, each followed by `\n`.
    pub fn to_content(&self) -> (res: String)
        ensures
            res@ == render_spec(self@),
    {
        let ghost lv = self@;
        let mut out = String::new();
        let mut i: usize = 0;
        while i < self.entries.len()
            invariant
                i <= self.entries.len(),
                lv == self@,
                lv.len() == self.entries.len(),
                out@ == render_spec(lv.take(i as int)),
            decreases self.entries.len() - i,
        {
            assert(lv.take(i + 1).drop_last() =~= lv.take(i as int));
            assert(lv[i as int] == self.entries@[i as int]@);
            match &self.entries[i] {
                VmxEntry::KeyValue { key, value } => {
                    append(&mut out, key.as_str());
                    append(&mut out, " = \"");
                    append(&mut out, value.as_str());
                    append(&mut out, "\"");
                },
                VmxEntry::Other(t) => {
                    append(&mut out, t.as_str());
                },
            }
            push_char(&mut out, '\n');
            i = i + 1;
        }
        assert(lv.take(self.entries.len() as int) =~= lv);
        out
    }
}

/// Whether two keys name the same setting: their lowercase forms agree.
pub fn same_key(a: &str, b: &str) -> (res: bool)
    ensures
        res == (str_lowercase(a@) == str_lowercase(b@)),
        is_ascii_chars(a@) && is_ascii_chars(b@) ==> res == (ascii_lower(a@) == ascii_lower(b@)),
{
    let la = lowercase_chars(&chars_of(a));
    let lb = lowercase_chars(&chars_of(b));
    chars_eq(&la, &lb)
}

} // verus!
