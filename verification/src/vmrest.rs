//! Reading the answers of the `vmrest` REST service.
use vstd::prelude::*;
use crate::text::{
    append, chars_of, find_sub, find_sub_from, find_sub_spec, has_prefix, join2, join3, lines,
    lines_spec, lowercase_chars, owned, parse_uint, parse_uint_spec, slice, split_all,
    split_chars, starts_with, str_eq, str_lowercase, string_of, trim, trim_chars, trim_start,
    trim_start_chars, lemma_char_vec_deep_view,
};
use crate::vm::{bundle_name, bundle_name_of, VmState};

verus! {

/// A virtual machine as `vmrest` lists it.
#[derive(Debug, Clone)]
pub struct VmrestVm {
    /// The service's identifier of the machine.
    pub id: String,
    /// The name, from the bundle directory's name.
    pub name: String,
    /// The `.vmx` file's path.
    pub path: String,
    /// The power state, when the answer gave one.
    pub power_state: Option<String>,
}

/// The index after the end of a string value whose opening quote is at
/// index 0: the first `"` from `i` on that does not follow a `\`.
pub open spec fn string_end(v: Seq<char>, i: int) -> int
    decreases v.len() - i,
{
    if i <= 0 || i >= v.len() {
        v.len() as int
    } else if v[i] == '"' && v[i - 1] != '\\' {
        i
    } else {
        string_end(v, i + 1)
    }
}

/// The first index from `i` on holding `,`, `}` or `]`, else the length.
pub open spec fn value_end(v: Seq<char>, i: int) -> int
    decreases v.len() - i,
{
    if i < 0 || i >= v.len() {
        v.len() as int
    } else if v[i] == ',' || v[i] == '}' || v[i] == ']' {
        i
    } else {
        value_end(v, i + 1)
    }
}

/// The value of `key` in a JSON text, read the simple way: after the first
/// `"key"` and a `:`, either a quoted string (up to the next unescaped `"`)
/// or the text up to the next `,`, `}` or `]`, trimmed.
pub open spec fn json_value_spec(json: Seq<char>, key: Seq<char>) -> Result<Seq<char>, Seq<char>> {
    let search = seq!['"'] + key + seq!['"'];
    let pos = find_sub_spec(json, search);
    if pos == -1 {
        Err("未找到 key: "@ + key)
    } else {
        let t = trim_start(json.skip(pos + search.len()));
        if !(t.len() > 0 && t[0] == ':') {
            Err("JSON 格式错误"@)
        } else {
            let v = trim_start(t.drop_first());
            if v.len() > 0 && v[0] == '"' {
                Ok(v.subrange(1, string_end(v, 1)))
            } else {
                Ok(trim(v.take(value_end(v, 0))))
            }
        }
    }
}

proof fn lemma_string_end(v: Seq<char>, i: int)
    requires
        1 <= i <= v.len(),
    ensures
        i <= string_end(v, i) <= v.len(),
    decreases v.len() - i,
{
    if i < v.len() && !(v[i] == '"' && v[i - 1] != '\\') {
        lemma_string_end(v, i + 1);
    }
}

proof fn lemma_value_end(v: Seq<char>, i: int)
    requires
        0 <= i <= v.len(),
    ensures
        i <= value_end(v, i) <= v.len(),
    decreases v.len() - i,
{
    if i < v.len() && !(v[i] == ',' || v[i] == '}' || v[i] == ']') {
        lemma_value_end(v, i + 1);
    }
}

/// Reads the value of `key` from a JSON text, as `json_value_spec` says.
pub fn extract_json_value(json: &str, key: &str) -> (res: Result<String, String>)
    ensures
        match res {
            Ok(v) => json_value_spec(json@, key@) == Ok::<Seq<char>, Seq<char>>(v@),
            Err(e) => json_value_spec(json@, key@) == Err::<Seq<char>, Seq<char>>(e@),
        },
{
    let jc = chars_of(json);
    match extract_json_chars(&jc, key) {
        Ok(v) => Ok(string_of(&v)),
        Err(e) => Err(e),
    }
}

fn extract_json_chars(json: &Vec<char>, key: &str) -> (res: Result<Vec<char>, String>)
    ensures
        match res {
            Ok(v) => json_value_spec(json@, key@) == Ok::<Seq<char>, Seq<char>>(v@),
            Err(e) => json_value_spec(json@, key@) == Err::<Seq<char>, Seq<char>>(e@),
        },
{
    let q = join3("\"", key, "\"");
    proof {
        reveal_strlit("\"");
    }
    let search = chars_of(q.as_str());
    assert(search@ =~= seq!['"'] + key@ + seq!['"']);
    let pos = match find_sub(json, &search) {
        Some(p) => p,
        None => {
            return Err(join2("未找到 key: ", key));
        },
    };
    proof {
        lemma_find_sub(json@, search@, 0);
        assert(find_sub_from(json@, search@, 0) != -1);
        assert(pos + search.len() <= json.len());
    }
    let after = slice(json, pos + search.len(), json.len());
    assert(after@ =~= json@.skip(pos + search.len()));
    let t = trim_start_chars(&after);
    if !(t.len() > 0 && t[0] == ':') {
        return Err(owned("JSON 格式错误"));
    }
    let rest = slice(&t, 1, t.len());
    assert(rest@ =~= t@.drop_first());
    let v = trim_start_chars(&rest);
    if v.len() > 0 && v[0] == '"' {
        let mut end: usize = 1;
        while end < v.len() && !(v[end] == '"' && v[end - 1] != '\\')
            invariant
                1 <= end <= v.len(),
                string_end(v@, 1) == string_end(v@, end as int),
            decreases v.len() - end,
        {
            end = end + 1;
        }
        Ok(slice(&v, 1, end))
    } else {
        let mut end: usize = 0;
        while end < v.len() && !(v[end] == ',' || v[end] == '}' || v[end] == ']')
            invariant
                end <= v.len(),
                value_end(v@, 0) == value_end(v@, end as int),
            decreases v.len() - end,
        {
            end = end + 1;
        }
        let head = slice(&v, 0, end);
        assert(head@ =~= v@.take(end as int));
        Ok(trim_chars(&head))
    }
}

/// Characterisation of `find_sub_from`.
pub proof fn lemma_find_sub(s: Seq<char>, p: Seq<char>, i: int)
    requires
        0 <= i,
    ensures
        find_sub_from(s, p, i) != -1 ==> i <= find_sub_from(s, p, i) && find_sub_from(s, p, i)
            + p.len() <= s.len(),
    decreases s.len() + 1 - i,
{
    if i + p.len() <= s.len() && !crate::text::occurs_at(s, p, i) {
        lemma_find_sub(s, p, i + 1);
    }
}

/// The first index from `i` on holding `{`, else the length.
pub open spec fn next_open(s: Seq<char>, i: int) -> int
    decreases s.len() - i,
{
    if i < 0 || i >= s.len() {
        s.len() as int
    } else if s[i] == '{' {
        i
    } else {
        next_open(s, i + 1)
    }
}

/// Scanning from `i` with `depth` braces open: the index after the `}`
/// that closes them all, else the length.
pub open spec fn close_of(s: Seq<char>, i: int, depth: int) -> int
    decreases s.len() - i,
{
    if i < 0 || i >= s.len() {
        s.len() as int
    } else if s[i] == '{' {
        close_of(s, i + 1, depth + 1)
    } else if s[i] == '}' {
        if depth - 1 == 0 {
            i + 1
        } else {
            close_of(s, i + 1, depth - 1)
        }
    } else {
        close_of(s, i + 1, depth)
    }
}

/// The spans `(start, end)` of the objects of a JSON array text from
/// index `i` on: each from a `{` to the index after its matching `}`.
pub open spec fn object_spans(s: Seq<char>, i: int) -> Seq<(int, int)>
    decreases s.len() - i,
{
    let st = next_open(s, i);
    if i < 0 || st >= s.len() {
        Seq::empty()
    } else {
        let en = close_of(s, st, 0);
        if en <= i || en > s.len() {
            Seq::empty()
        } else {
            seq![(st, en)] + object_spans(s, en)
        }
    }
}

/// The machine an object text describes, when it has a non-empty `id` and
/// `path` (values that cannot be read count as empty).
pub open spec fn vm_of_object(obj: Seq<char>) -> Option<(Seq<char>, Seq<char>, Seq<char>)> {
    let id = match json_value_spec(obj, "id"@) {
        Ok(v) => v,
        Err(_) => Seq::empty(),
    };
    let path = match json_value_spec(obj, "path"@) {
        Ok(v) => v,
        Err(_) => Seq::empty(),
    };
    if id.len() > 0 && path.len() > 0 {
        Some((id, bundle_name(path, Seq::empty()), path))
    } else {
        None
    }
}

/// The machines the objects in the given spans describe, in order.
pub open spec fn vms_of_spans(s: Seq<char>, spans: Seq<(int, int)>) -> Seq<(Seq<char>, Seq<char>, Seq<char>)>
    decreases spans.len(),
{
    if spans.len() == 0 {
        Seq::empty()
    } else {
        let (a, b) = spans[0];
        let rest = vms_of_spans(s, spans.drop_first());
        match vm_of_object(s.subrange(a, b)) {
            Some(v) => seq![v] + rest,
            None => rest,
        }
    }
}

/// What `parse_vm_list` gives: an error unless the text (trimmed) starts
/// with `[`, else the machines of its objects from index 1 on.
pub open spec fn vm_list_spec(json: Seq<char>) -> Result<Seq<(Seq<char>, Seq<char>, Seq<char>)>, Seq<char>> {
    let j = trim(json);
    if !(j.len() > 0 && j[0] == '[') {
        Err("无效的 JSON 数组"@)
    } else {
        Ok(vms_of_spans(j, object_spans(j, 1)))
    }
}

impl View for VmrestVm {
    type V = (Seq<char>, Seq<char>, Seq<char>);

    open spec fn view(&self) -> (Seq<char>, Seq<char>, Seq<char>) {
        (self.id@, self.name@, self.path@)
    }
}

/// The index of the first `{` from `i` on, else the length.
fn next_open_exec(j: &Vec<char>, i: usize) -> (res: usize)
    requires
        i <= j.len(),
    ensures
        res == next_open(j@, i as int),
        i <= res <= j.len(),
        res < j.len() ==> j@[res as int] == '{',
{
    let mut k = i;
    while k < j.len() && j[k] != '{'
        invariant
            i <= k <= j.len(),
            next_open(j@, i as int) == next_open(j@, k as int),
        decreases j.len() - k,
    {
        k = k + 1;
    }
    k
}

/// The index after the `}` matching the `{` at `start`, else the length.
fn close_exec(j: &Vec<char>, start: usize) -> (res: usize)
    requires
        start < j.len(),
        j@[start as int] == '{',
    ensures
        res == close_of(j@, start as int, 0),
        start < res <= j.len(),
{
    let mut i = start;
    let mut depth: usize = 0;
    while i < j.len()
        invariant
            start <= i <= j.len(),
            depth <= i - start,
            (i == start && depth == 0) || depth >= 1,
            j@[start as int] == '{',
            close_of(j@, start as int, 0) == close_of(j@, i as int, depth as int),
        decreases j.len() - i,
    {
        if j[i] == '{' {
            depth = depth + 1;
        } else if j[i] == '}' {
            if depth - 1 == 0 {
                return i + 1;
            }
            depth = depth - 1;
        }
        i = i + 1;
    }
    i
}

/// The machine an object text describes.
fn vm_of_object_exec(obj: &Vec<char>) -> (res: Option<VmrestVm>)
    ensures
        match res {
            Some(v) => vm_of_object(obj@) == Some(v@) && v.power_state is None,
            None => vm_of_object(obj@) is None,
        },
{
    let id = match extract_json_chars(obj, "id") {
        Ok(v) => v,
        Err(_) => Vec::new(),
    };
    let path = match extract_json_chars(obj, "path") {
        Ok(v) => v,
        Err(_) => Vec::new(),
    };
    if id.len() > 0 && path.len() > 0 {
        let p = string_of(&path);
        proof {
            reveal_strlit("");
        }
        let name = bundle_name_of(p.as_str(), "");
        Some(VmrestVm { id: string_of(&id), name, path: p, power_state: None })
    } else {
        None
    }
}

/// The machines a `vmrest` `/api/vms` answer lists, as `vm_list_spec` says;
/// the answer gives no power states.
pub fn parse_vm_list(json: &str) -> (res: Result<Vec<VmrestVm>, String>)
    ensures
        match res {
            Ok(v) => vm_list_spec(json@) == Ok::<_, Seq<char>>(v@.map_values(|x: VmrestVm| x@))
                && forall|i: int| 0 <= i < v@.len() ==> (#[trigger] v@[i]).power_state is None,
            Err(e) => vm_list_spec(json@) == Err::<Seq<(Seq<char>, Seq<char>, Seq<char>)>, _>(e@),
        },
{
    let jc0 = chars_of(json);
    let j = trim_chars(&jc0);
    if !(j.len() > 0 && j[0] == '[') {
        return Err(owned("无效的 JSON 数组"));
    }
    let ghost s = j@;
    let ghost total = vms_of_spans(s, object_spans(s, 1));
    let mut vms: Vec<VmrestVm> = Vec::new();
    let mut i: usize = 1;
    while i < j.len()
        invariant
            1 <= i <= j.len(),
            s == j@,
            total == vms_of_spans(s, object_spans(s, 1)),
            total =~= vms@.map_values(|x: VmrestVm| x@) + vms_of_spans(s, object_spans(s, i as int)),
            forall|k: int| 0 <= k < vms@.len() ==> (#[trigger] vms@[k]).power_state is None,
        decreases j.len() - i,
    {
        let st = next_open_exec(&j, i);
        if st >= j.len() {
            assert(object_spans(s, i as int) =~= Seq::<(int, int)>::empty());
            assert(object_spans(s, j.len() as int) =~= Seq::<(int, int)>::empty());
            i = j.len();
        } else {
            let en = close_exec(&j, st);
            let ghost spans = object_spans(s, i as int);
            assert(spans =~= seq![(st as int, en as int)] + object_spans(s, en as int));
            assert(spans[0] == (st as int, en as int));
            assert(spans.drop_first() =~= object_spans(s, en as int));
            let obj = slice(&j, st, en);
            match vm_of_object_exec(&obj) {
                Some(v) => {
                    let ghost before = vms@.map_values(|x: VmrestVm| x@);
                    vms.push(v);
                    assert(vms@.map_values(|x: VmrestVm| x@) =~= before.push(v@));
                },
                None => {},
            }
            i = en;
        }
    }
    assert(object_spans(s, j.len() as int) =~= Seq::<(int, int)>::empty());
    Ok(vms)
}

/// The state a `vmrest` power state stands for: `poweredOn` is running,
/// `poweredOff` stopped, `paused` and `suspended` paused, anything else
/// unknown.
pub open spec fn power_state_spec(p: Seq<char>) -> VmState {
    if p == "poweredOn"@ {
        VmState::Running
    } else if p == "poweredOff"@ {
        VmState::Stopped
    } else if p == "paused"@ || p == "suspended"@ {
        VmState::Paused
    } else {
        VmState::Unknown
    }
}

/// The state a `vmrest` power state stands for.
pub fn vmrest_power_to_state(p: &str) -> (res: VmState)
    ensures
        res == power_state_spec(p@),
{
    if crate::text::str_eq(p, "poweredOn") {
        VmState::Running
    } else if crate::text::str_eq(p, "poweredOff") {
        VmState::Stopped
    } else if crate::text::str_eq(p, "paused") || crate::text::str_eq(p, "suspended") {
        VmState::Paused
    } else {
        VmState::Unknown
    }
}

/// The request path of a machine's power state.
pub fn power_state_path(vm_id: &str) -> (res: String)
    ensures
        res@ == "/api/vms/"@ + vm_id@ + "/power"@,
{
    join3("/api/vms/", vm_id, "/power")
}

/// The power state in a `vmrest` power answer (`{"power_state":"poweredOn"}`).
pub fn parse_power_state(json: &str) -> (res: Result<String, String>)
    ensures
        match res {
            Ok(v) => json_value_spec(json@, "power_state"@) == Ok::<Seq<char>, Seq<char>>(v@),
            Err(e) => json_value_spec(json@, "power_state"@) == Err::<Seq<char>, Seq<char>>(e@),
        },
{
    extract_json_value(json, "power_state")
}

/// The HTTP request asking the service for `path` with `method`.
pub fn http_request(method: &str, path: &str) -> (res: String)
    ensures
        res@ == method@ + " "@ + path@
            + " HTTP/1.1\r\nHost: localhost\r\nAccept: application/json\r\nConnection: close\r\n\r\n"@,
{
    let mut r = join3(method, " ", path);
    append(&mut r, " HTTP/1.1\r\nHost: localhost\r\nAccept: application/json\r\nConnection: close\r\n\r\n");
    r
}

/// Whether a line read from the answer is the blank line after its headers.
pub fn header_end(line: &str) -> (res: bool)
    ensures
        res == (line@ == "\r\n"@),
{
    str_eq(line, "\r\n")
}

/// What a header line says of the body's length: for a line starting with
/// `content-length:` (in any case) the text between its first and second
/// colons, trimmed, read as a decimal number (0 when it is not one); `None`
/// for any other line.
pub open spec fn content_length_spec(line: Seq<char>) -> Option<int> {
    let lower = str_lowercase(line);
    let parts = split_all(lower, ':');
    if has_prefix(lower, "content-length:"@) && parts.len() > 1 {
        Some(
            match parse_uint_spec(trim(parts[1]), 10, usize::MAX as int) {
                Some(n) => n,
                None => 0,
            },
        )
    } else {
        None
    }
}

/// What a header line says of the body's length.
pub fn content_length(line: &str) -> (res: Option<usize>)
    ensures
        match res {
            Some(n) => content_length_spec(line@) == Some(n as int),
            None => content_length_spec(line@) is None,
        },
{
    let lc = chars_of(line);
    let lower = lowercase_chars(&lc);
    let prefix = chars_of("content-length:");
    if !starts_with(&lower, &prefix) {
        return None;
    }
    let parts = split_chars(&lower, ':', None);
    if parts.len() < 2 {
        return None;
    }
    proof {
        lemma_char_vec_deep_view(&parts[1]);
        assert(parts.deep_view()[1] == parts@[1]@);
    }
    let t = trim_chars(&parts[1]);
    match parse_uint(&t, 10, usize::MAX as u64) {
        Some(n) => Some(n as usize),
        None => Some(0),
    }
}

/// Whether the headers of an answer report success (`HTTP/1.1 2..` or
/// `HTTP/1.0 2..`).
pub fn http_status_ok(headers: &str) -> (res: bool)
    ensures
        res == (has_prefix(headers@, "HTTP/1.1 2"@) || has_prefix(headers@, "HTTP/1.0 2"@)),
{
    let h = chars_of(headers);
    let a = chars_of("HTTP/1.1 2");
    let b = chars_of("HTTP/1.0 2");
    starts_with(&h, &a) || starts_with(&h, &b)
}

/// The error of an answer that did not succeed: `HTTP 错误: ` and the first
/// line of its headers.
pub fn http_status_error(headers: &str) -> (res: String)
    ensures
        res@ == "HTTP 错误: "@ + if lines_spec(headers@).len() > 0 {
            lines_spec(headers@)[0]
        } else {
            Seq::empty()
        },
{
    let h = chars_of(headers);
    let ls = lines(&h);
    if ls.len() > 0 {
        proof {
            lemma_char_vec_deep_view(&ls[0]);
            assert(ls.deep_view()[0] == ls@[0]@);
        }
        let first = string_of(&ls[0]);
        join2("HTTP 错误: ", first.as_str())
    } else {
        owned("HTTP 错误: ")
    }
}

} // verus!
