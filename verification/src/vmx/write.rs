//! Writing a configuration back, and telling when what is written reads
//! back as the same lines.
use vstd::prelude::*;
use vstd::utf8::is_ascii_chars;
use crate::text::{
    ascii_lower, chars_of, is_whitespace, lines_spec, str_eq, str_lowercase, string_of, to_lowercase,
    trim_chars,
};
use super::laws::{
    ascii_round_trips, free_of, law_render_then_parse, law_rendered_lines, law_set_save_reload, round_trips,
};
use super::{
    get_spec, line_text, parse_spec, render_spec, set_spec, VmxEntry, VmxFile, VmxLine,
};

verus! {

/// Whether no character of a text is `c`.
fn free_of_char(s: &str, c: char) -> (res: bool)
    ensures
        res == free_of(s@, c),
{
    let v = chars_of(s);
    let mut i: usize = 0;
    while i < v.len()
        invariant
            i <= v.len(),
            v@ == s@,
            forall|j: int| 0 <= j < i ==> v@[j] != c,
        decreases v.len() - i,
    {
        if v[i] == c {
            return false;
        }
        i = i + 1;
    }
    true
}

/// Whether the pair `key = value` is written and read back as it is.
pub fn pair_round_trips(key: &str, value: &str) -> (res: bool)
    ensures
        res == round_trips(VmxLine::Pair(key@, value@)),
        ascii_round_trips(VmxLine::Pair(key@, value@)) ==> res,
{
    let kv = chars_of(key);
    if kv.len() == 0 {
        return false;
    }
    if !free_of_char(key, '=') || !free_of_char(key, '\n') || !free_of_char(value, '\n') {
        return false;
    }
    if is_whitespace(kv[0]) || is_whitespace(kv[kv.len() - 1]) || kv[0] == '#' {
        return false;
    }
    let low = to_lowercase(key);
    str_eq(low.as_str(), key)
}

/// Whether a line is written and read back as it is.
pub fn line_round_trips(l: &VmxEntry) -> (res: bool)
    ensures
        res == round_trips(l@),
        ascii_round_trips(l@) ==> res,
{
    match l {
        VmxEntry::KeyValue { key, value } => pair_round_trips(key.as_str(), value.as_str()),
        VmxEntry::Other(t) => {
            let v = chars_of(t.as_str());
            if !free_of_char(t.as_str(), '\n') {
                return false;
            }
            if v.len() > 0 && v[v.len() - 1] == '\r' {
                return false;
            }
            let tt = trim_chars(&v);
            if tt.len() == 0 || tt[0] == '#' {
                return true;
            }
            let ts = string_of(&tt);
            VmxFile::parse_line(ts.as_str()).is_none()
        },
    }
}

/// Every line of `lines` is written and read back as it is.
pub open spec fn all_round_trip(lines: Seq<VmxLine>) -> bool {
    forall|i: int| 0 <= i < lines.len() ==> round_trips(#[trigger] lines[i])
}

impl VmxFile {
    /// Whether every line of the file is written and read back as it is.
    pub fn writes_back_exactly(&self) -> (res: bool)
        ensures
            res == all_round_trip(self@),
            (forall|i: int| 0 <= i < self@.len() ==> ascii_round_trips(#[trigger] self@[i])) ==> res,
    {
        let mut i: usize = 0;
        while i < self.entries.len()
            invariant
                i <= self.entries.len(),
                self@.len() == self.entries.len(),
                forall|j: int| 0 <= j < i ==> round_trips(#[trigger] self@[j]),
            decreases self.entries.len() - i,
        {
            assert(self@[i as int] == self.entries@[i as int]@);
            if !line_round_trips(&self.entries[i]) {
                return false;
            }
            i = i + 1;
        }
        true
    }

    /// The content to write, when reading it back gives the file's lines
    /// again: then every setting reads back the same, and each text line
    /// comes back verbatim at its position. `None` when some line would not
    /// read back as it is. It is never `None` when every line reads back as
    /// it is, told without lowercasing, as every line of an ASCII file read
    /// by `parse` does.
    pub fn saved_content(&self) -> (res: Option<String>)
        ensures
            match res {
                Some(c) => {
                    &&& c@ == render_spec(self@)
                    &&& parse_spec(c@) == self@
                    &&& forall|k: Seq<char>| #[trigger] get_spec(parse_spec(c@), k) == get_spec(self@, k)
                    &&& lines_spec(c@) == self@.map_values(|l: VmxLine| line_text(l))
                },
                None => !all_round_trip(self@),
            },
            (forall|i: int| 0 <= i < self@.len() ==> ascii_round_trips(#[trigger] self@[i])) ==> res
                is Some,
    {
        if !self.writes_back_exactly() {
            return None;
        }
        proof {
            law_render_then_parse(self@);
            law_rendered_lines(self@);
        }
        Some(self.to_content())
    }

    /// Sets `key` to `value`, and gives the content to write when the file's
    /// lines and the new pair all read back as they are: reading that
    /// content back gives the value set, and the changed lines.
    pub fn set_and_save(&mut self, key: &str, value: &str) -> (res: Option<String>)
        ensures
            final(self)@ == set_spec(old(self)@, key@, value@),
            final(self).path == old(self).path,
            match res {
                Some(c) => {
                    &&& c@ == render_spec(final(self)@)
                    &&& parse_spec(c@) == final(self)@
                    &&& get_spec(parse_spec(c@), key@) == Some(value@)
                },
                None => !(all_round_trip(old(self)@) && round_trips(
                    VmxLine::Pair(str_lowercase(key@), value@),
                )),
            },
            (forall|i: int| 0 <= i < old(self)@.len() ==> ascii_round_trips(#[trigger] old(self)@[i]))
                && is_ascii_chars(key@) && ascii_round_trips(
                VmxLine::Pair(ascii_lower(key@), value@),
            ) ==> res is Some,
    {
        let exact = self.writes_back_exactly();
        let low = to_lowercase(key);
        let pair_ok = pair_round_trips(low.as_str(), value);
        let ghost before = self@;
        self.set(key, value);
        if exact && pair_ok {
            proof {
                law_set_save_reload(before, key@, value@);
            }
            Some(self.to_content())
        } else {
            None
        }
    }
}

} // verus!
