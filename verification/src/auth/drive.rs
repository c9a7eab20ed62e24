//! Google Drive share links and the rclone `gdrive` remote.
use vstd::prelude::*;
use vstd::string::*;
use crate::text::{
    chars_of, concat, eq_ignore_ascii_case, eq_ignore_ascii_case_exec, find, first_occurrence, is_ws,
    is_ws_exec, lines, occurs_at, occurs_at_exec, opt_view, seq_ends_with, seq_starts_with,
    split_lines, string_of, string_of_all, trim, trim_chars, views_of, ends_with_str, starts_with_str,
    slice_vec, to_lowercase, unicode_lowercase, seq_contains, str_contains, parse_u64,
    parse_u64_spec,
};

verus! {

broadcast use vstd::string::group_string_axioms;

/// The result of parsing a Google Drive link.
pub struct ParsedDriveLink {
    pub is_valid: bool,
    pub is_folder: bool,
    pub is_file: bool,
    pub id: String,
    pub resource_key: Option<String>,
    pub connection_string: String,
    pub error: Option<String>,
}

/// The mathematical value of a [`ParsedDriveLink`].
pub struct DriveLinkView {
    pub is_valid: bool,
    pub is_folder: bool,
    pub is_file: bool,
    pub id: Seq<char>,
    pub resource_key: Option<Seq<char>>,
    pub connection_string: Seq<char>,
    pub error: Option<Seq<char>>,
}

impl View for ParsedDriveLink {
    type V = DriveLinkView;

    open spec fn view(&self) -> DriveLinkView {
        DriveLinkView {
            is_valid: self.is_valid,
            is_folder: self.is_folder,
            is_file: self.is_file,
            id: self.id@,
            resource_key: opt_view(self.resource_key),
            connection_string: self.connection_string@,
            error: opt_view(self.error),
        }
    }
}

/// A character of a Drive file or folder ID: `[a-zA-Z0-9_-]`.
pub open spec fn is_id_char(c: char) -> bool {
    ||| ('a' <= c && c <= 'z')
    ||| ('A' <= c && c <= 'Z')
    ||| ('0' <= c && c <= '9')
    ||| c == '_'
    ||| c == '-'
}

/// Length of the literal part of a capture pattern: the marker `m`, preceded
/// by one query separator (`?` or `&`) when `sep` holds.
pub open spec fn pattern_len(m: Seq<char>, sep: bool) -> int {
    if sep { m.len() + 1int } else { m.len() as int }
}

/// The pattern `m([a-zA-Z0-9_-]+)` (or `[?&]m([a-zA-Z0-9_-]+)` when `sep`)
/// matches `s` at index `i`.
pub open spec fn pattern_at(s: Seq<char>, m: Seq<char>, sep: bool, i: int) -> bool {
    &&& 0 <= i
    &&& if sep {
        i < s.len() && (s[i] == '?' || s[i] == '&') && occurs_at(s, m, i + 1)
    } else {
        occurs_at(s, m, i)
    }
    &&& i + pattern_len(m, sep) < s.len()
    &&& is_id_char(s[i + pattern_len(m, sep)])
}

/// The end of the longest run of ID characters of `s` that starts at `j`.
pub open spec fn id_run_end(s: Seq<char>, j: int) -> int
    decreases s.len() - j,
{
    if 0 <= j < s.len() && is_id_char(s[j]) {
        id_run_end(s, j + 1)
    } else {
        j
    }
}

/// The leftmost index `>= from` at which the pattern matches.
pub open spec fn leftmost_pattern_from(s: Seq<char>, m: Seq<char>, sep: bool, from: int) -> Option<int>
    decreases s.len() - from,
{
    if from < 0 || from >= s.len() {
        None
    } else if pattern_at(s, m, sep, from) {
        Some(from)
    } else {
        leftmost_pattern_from(s, m, sep, from + 1)
    }
}

/// The first capture group of the leftmost match of the pattern, as a regex
/// engine with greedy `+` reports it.
pub open spec fn capture(s: Seq<char>, m: Seq<char>, sep: bool) -> Option<Seq<char>> {
    match leftmost_pattern_from(s, m, sep, 0) {
        Some(i) => {
            let b = i + pattern_len(m, sep);
            Some(s.subrange(b, id_run_end(s, b)))
        },
        None => None,
    }
}

/// A nonempty run of ID characters.
pub open spec fn is_id_text(s: Seq<char>) -> bool {
    s.len() > 0 && forall|i: int| 0 <= i < s.len() ==> is_id_char(#[trigger] s[i])
}

proof fn lemma_leftmost_pattern(s: Seq<char>, m: Seq<char>, sep: bool, from: int)
    ensures
        leftmost_pattern_from(s, m, sep, from) matches Some(i) ==> pattern_at(s, m, sep, i),
    decreases s.len() - from,
{
    if 0 <= from < s.len() && !pattern_at(s, m, sep, from) {
        lemma_leftmost_pattern(s, m, sep, from + 1);
    }
}

proof fn lemma_id_run_end(s: Seq<char>, j: int)
    requires
        0 <= j <= s.len(),
    ensures
        j <= id_run_end(s, j) <= s.len(),
        forall|k: int| j <= k < id_run_end(s, j) ==> is_id_char(#[trigger] s[k]),
    decreases s.len() - j,
{
    if j < s.len() && is_id_char(s[j]) {
        lemma_id_run_end(s, j + 1);
    }
}

/// What a capture yields is a nonempty run of ID characters.
pub proof fn lemma_capture_is_id_text(s: Seq<char>, m: Seq<char>, sep: bool)
    ensures
        capture(s, m, sep) matches Some(id) ==> is_id_text(id),
{
    lemma_leftmost_pattern(s, m, sep, 0);
    if let Some(i) = leftmost_pattern_from(s, m, sep, 0) {
        let b = i + pattern_len(m, sep);
        lemma_id_run_end(s, b + 1);
        assert(id_run_end(s, b) == id_run_end(s, b + 1));
        let id = s.subrange(b, id_run_end(s, b));
        assert forall|k: int| 0 <= k < id.len() implies is_id_char(#[trigger] id[k]) by {
            assert(id[k] == s[b + k]);
        }
    }
}

/// A bare Drive ID: 20 to 50 ID characters and nothing else.
pub open spec fn is_raw_id(s: Seq<char>) -> bool {
    20 <= s.len() <= 50 && forall|i: int| 0 <= i < s.len() ==> is_id_char(#[trigger] s[i])
}

/// The rclone connection string for a Drive ID and optional resource key.
pub open spec fn connection_string_spec(id: Seq<char>, resource_key: Option<Seq<char>>) -> Seq<char> {
    match resource_key {
        Some(k) => "gdrive,root_folder_id="@ + id + ",resource_key="@ + k + ":"@,
        None => "gdrive,root_folder_id="@ + id + ":"@,
    }
}

pub open spec fn valid_link(id: Seq<char>, resource_key: Option<Seq<char>>, is_folder: bool) -> DriveLinkView {
    DriveLinkView {
        is_valid: true,
        is_folder: is_folder,
        is_file: !is_folder,
        id: id,
        resource_key: resource_key,
        connection_string: connection_string_spec(id, resource_key),
        error: None,
    }
}

/// What [`parse_google_drive_link`] returns for a URL.
///
/// The URL is trimmed; a `resourcekey` query parameter is taken along; then
/// a `/folders/ID` link, a `/file/d/ID` link, a legacy `?id=ID` / `&id=ID`
/// link and a bare ID are tried in that order.
pub open spec fn parse_drive_link_spec(url: Seq<char>) -> DriveLinkView {
    let t = trim(url);
    let rk = capture(t, "resourcekey="@, true);
    if let Some(id) = capture(t, "/folders/"@, false) {
        valid_link(id, rk, true)
    } else if let Some(id) = capture(t, "/file/d/"@, false) {
        valid_link(id, rk, false)
    } else if let Some(id) = capture(t, "id="@, true) {
        valid_link(id, rk, true)
    } else if is_raw_id(t) {
        valid_link(t, None, true)
    } else {
        DriveLinkView {
            is_valid: false,
            is_folder: false,
            is_file: false,
            id: Seq::empty(),
            resource_key: None,
            connection_string: Seq::empty(),
            error: Some("Invalid Google Drive URL. Please paste a valid folder or file link."@),
        }
    }
}

pub fn is_id_char_exec(c: char) -> (res: bool)
    ensures
        res == is_id_char(c),
{
    ('a' <= c && c <= 'z') || ('A' <= c && c <= 'Z') || ('0' <= c && c <= '9') || c == '_' || c
        == '-'
}

fn pattern_at_exec(s: &Vec<char>, m: &Vec<char>, sep: bool, i: usize) -> (res: bool)
    ensures
        res == pattern_at(s@, m@, sep, i as int),
{
    if i >= s.len() {
        return false;
    }
    let lit_ok = if sep {
        (s[i] == '?' || s[i] == '&') && occurs_at_exec(s, m, i + 1)
    } else {
        occurs_at_exec(s, m, i)
    };
    if !lit_ok {
        return false;
    }
    let plen = if sep { m.len() + 1 } else { m.len() };
    // the literal part fits in `s`, so this cannot overflow
    let b = i + plen;
    b < s.len() && is_id_char_exec(s[b])
}

/// The end of the run of ID characters of `s` starting at `j`.
fn id_run_end_exec(s: &Vec<char>, j: usize) -> (res: usize)
    requires
        j <= s.len(),
    ensures
        res as int == id_run_end(s@, j as int),
        j <= res <= s.len(),
{
    let mut k = j;
    while k < s.len() && is_id_char_exec(s[k])
        invariant
            j <= k <= s.len(),
            id_run_end(s@, j as int) == id_run_end(s@, k as int),
        decreases s.len() - k,
    {
        k = k + 1;
    }
    k
}

/// The first capture of the pattern in `s`.
fn capture_exec(s: &Vec<char>, m: &str, sep: bool) -> (res: Option<String>)
    ensures
        opt_view(res) == capture(s@, m@, sep),
{
    let mv = chars_of(m);
    let mut i: usize = 0;
    while i < s.len()
        invariant
            i <= s.len(),
            mv@ == m@,
            leftmost_pattern_from(s@, m@, sep, 0) == leftmost_pattern_from(s@, m@, sep, i as int),
        decreases s.len() - i,
    {
        if pattern_at_exec(s, &mv, sep, i) {
            let b = if sep { i + mv.len() + 1 } else { i + mv.len() };
            let e = id_run_end_exec(s, b);
            return Some(string_of(s, b, e));
        }
        i = i + 1;
    }
    None
}

fn is_raw_id_exec(s: &Vec<char>) -> (res: bool)
    ensures
        res == is_raw_id(s@),
{
    if s.len() < 20 || s.len() > 50 {
        return false;
    }
    let mut i: usize = 0;
    while i < s.len()
        invariant
            i <= s.len(),
            forall|k: int| 0 <= k < i ==> is_id_char(#[trigger] s@[k]),
        decreases s.len() - i,
    {
        if !is_id_char_exec(s[i]) {
            return false;
        }
        i = i + 1;
    }
    true
}

/// Builds the rclone connection string for a Drive ID and optional resource key.
pub fn build_connection_string(id: &str, resource_key: Option<&str>) -> (res: String)
    ensures
        res@ == connection_string_spec(id@, match resource_key {
            Some(k) => Some(k@),
            None => None,
        }),
{
    let mut res = concat("gdrive,root_folder_id=", id);
    match resource_key {
        Some(rk) => {
            res.append(",resource_key=");
            res.append(rk);
            res.append(":");
        },
        None => {
            res.append(":");
        },
    }
    res
}

fn valid_link_exec(id: String, resource_key: Option<String>, is_folder: bool) -> (res: ParsedDriveLink)
    ensures
        res@ == valid_link(id@, opt_view(resource_key), is_folder),
{
    let conn = match &resource_key {
        Some(k) => build_connection_string(id.as_str(), Some(k.as_str())),
        None => build_connection_string(id.as_str(), None),
    };
    ParsedDriveLink {
        is_valid: true,
        is_folder: is_folder,
        is_file: !is_folder,
        id: id,
        resource_key: resource_key,
        connection_string: conn,
        error: None,
    }
}

proof fn lemma_no_query_pattern(s: Seq<char>, m: Seq<char>, from: int)
    requires
        forall|k: int| 0 <= k < s.len() ==> #[trigger] s[k] != '?' && s[k] != '&',
    ensures
        leftmost_pattern_from(s, m, true, from) is None,
    decreases s.len() - from,
{
    if 0 <= from < s.len() {
        lemma_no_query_pattern(s, m, from + 1);
    }
}

/// Every valid parsed link, whichever pattern matched, carries the resource
/// key of the link's `resourcekey=` query parameter (if it has one) and the
/// connection string `gdrive,root_folder_id=ID[,resource_key=KEY]:` built from
/// its ID and that key; its ID is a nonempty run of ID characters; it is a
/// folder or a file, not both. A `/folders/` link is a folder with that ID,
/// and a link is a file exactly when it has no `/folders/` part but a
/// `/file/d/` one; otherwise a `?id=` / `&id=` link is a folder with that ID,
/// and so is a bare ID of 20 to 50 ID characters; anything else is invalid.
/// An invalid link carries nothing but its error.
pub proof fn law_parsed_link_fields(url: Seq<char>)
    ensures
        ({
            let v = parse_drive_link_spec(url);
            let t = trim(url);
            let rk = capture(t, "resourcekey="@, true);
            &&& v.is_valid ==> {
                &&& v.resource_key == rk
                &&& v.connection_string == match v.resource_key {
                    Some(k) => "gdrive,root_folder_id="@ + v.id + ",resource_key="@ + k + ":"@,
                    None => "gdrive,root_folder_id="@ + v.id + ":"@,
                }
                &&& is_id_text(v.id)
                &&& v.is_folder != v.is_file
                &&& v.error is None
            }
            &&& !v.is_valid ==> {
                &&& v.id.len() == 0
                &&& v.connection_string.len() == 0
                &&& v.resource_key is None
                &&& !v.is_folder && !v.is_file
                &&& v.error is Some
            }
            &&& capture(t, "/folders/"@, false) matches Some(id) ==> v.is_valid && v.is_folder && v.id == id
            &&& v.is_file <==> (capture(t, "/folders/"@, false) is None && capture(t, "/file/d/"@, false) is Some)
            &&& v.is_file ==> capture(t, "/file/d/"@, false) == Some(v.id)
            &&& (capture(t, "/folders/"@, false) is None && capture(t, "/file/d/"@, false) is None) ==> {
                &&& capture(t, "id="@, true) matches Some(id) ==> v.is_valid && v.is_folder && v.id == id
                &&& (capture(t, "id="@, true) is None && is_raw_id(t)) ==> v.is_valid && v.is_folder && v.id
                    == t
                &&& (capture(t, "id="@, true) is None && !is_raw_id(t)) ==> !v.is_valid
            }
        }),
{
    let t = trim(url);
    lemma_capture_is_id_text(t, "/folders/"@, false);
    lemma_capture_is_id_text(t, "/file/d/"@, false);
    lemma_capture_is_id_text(t, "id="@, true);
    if capture(t, "/folders/"@, false) is None && capture(t, "/file/d/"@, false) is None && capture(
        t,
        "id="@,
        true,
    ) is None && is_raw_id(t) {
        assert forall|k: int| 0 <= k < t.len() implies #[trigger] t[k] != '?' && t[k] != '&' by {
            assert(is_id_char(t[k]));
        }
        lemma_no_query_pattern(t, "resourcekey="@, 0);
        assert(is_id_text(t));
    }
}

/// Parses any Google Drive URL into an ID and rclone connection string.
pub fn parse_google_drive_link(url: &str) -> (res: ParsedDriveLink)
    ensures
        res@ == parse_drive_link_spec(url@),
{
    let all = chars_of(url);
    let t = trim_chars(&all);
    let resource_key = capture_exec(&t, "resourcekey=", true);
    if let Some(id) = capture_exec(&t, "/folders/", false) {
        return valid_link_exec(id, resource_key, true);
    }
    if let Some(id) = capture_exec(&t, "/file/d/", false) {
        return valid_link_exec(id, resource_key, false);
    }
    if let Some(id) = capture_exec(&t, "id=", true) {
        return valid_link_exec(id, resource_key, true);
    }
    if is_raw_id_exec(&t) {
        return valid_link_exec(string_of_all(&t), None, true);
    }
    ParsedDriveLink {
        is_valid: false,
        is_folder: false,
        is_file: false,
        id: String::new(),
        resource_key: None,
        connection_string: String::new(),
        error: Some(String::from_str(
            "Invalid Google Drive URL. Please paste a valid folder or file link.",
        )),
    }
}


// ---------------------------------------------------------------------------
// The access token of the `gdrive` remote in an rclone configuration
// ---------------------------------------------------------------------------

/// The string value of field `key` of the JSON object that `text` holds, as
/// `serde_json` parses it; `None` when `text` is not JSON, not an object, or
/// the field is missing or not a string.
pub uninterp spec fn json_string_field(text: Seq<char>, key: Seq<char>) -> Option<Seq<char>>;

/// Parses `text` with `serde_json::from_str::<serde_json::Value>` and reads the
/// string field `key` (`Value::get`).  Claimed: the result is
/// `json_string_field(text, key)`, a function of the two arguments alone.
#[verifier::external_body]
pub(crate) fn json_string_field_exec(text: &str, key: &str) -> (res: Option<String>)
    ensures
        opt_view(res) == json_string_field(text@, key@),
{
    match serde_json::from_str::<serde_json::Value>(text) {
        Ok(v) => match v.get(key) {
            Some(serde_json::Value::String(s)) => Some(s.clone()),
            _ => None,
        },
        Err(_) => None,
    }
}

/// A trimmed line of the form `[name]`.
pub open spec fn is_section_header(t: Seq<char>) -> bool {
    seq_starts_with(t, "["@) && seq_ends_with(t, "]"@)
}

/// The token that a trimmed line inside the `gdrive` section yields: the line
/// starts with `token`, and what follows the first `=` (trimmed) is a JSON
/// object with a string `access_token`.
pub open spec fn line_token(t: Seq<char>) -> Option<Seq<char>> {
    if seq_starts_with(t, "token"@) {
        match first_occurrence(t, "="@) {
            Some(pos) => json_string_field(trim(t.skip(pos + 1)), "access_token"@),
            None => None,
        }
    } else {
        None
    }
}

/// The first token found scanning `ls` line by line; `in_gdrive` tells
/// whether the scan is inside a section named `gdrive` (any ASCII case).
pub open spec fn scan_lines(ls: Seq<Seq<char>>, in_gdrive: bool) -> Option<Seq<char>>
    decreases ls.len(),
{
    if ls.len() == 0 {
        None
    } else {
        let t = trim(ls[0]);
        if t.len() >= 2 && is_section_header(t) {
            scan_lines(ls.drop_first(), eq_ignore_ascii_case(t.subrange(1, t.len() - 1), "gdrive"@))
        } else if in_gdrive && line_token(t) is Some {
            line_token(t)
        } else {
            scan_lines(ls.drop_first(), in_gdrive)
        }
    }
}

/// The end of the run of white space of `s` that starts at `j`.
pub open spec fn ws_run_end(s: Seq<char>, j: int) -> int
    decreases s.len() - j,
{
    if 0 <= j < s.len() && is_ws(s[j]) {
        ws_run_end(s, j + 1)
    } else {
        j
    }
}

/// The first index `>= j` holding `c`.
pub open spec fn char_index_from(s: Seq<char>, c: char, j: int) -> Option<int>
    decreases s.len() - j,
{
    if j < 0 || j >= s.len() {
        None
    } else if s[j] == c {
        Some(j)
    } else {
        char_index_from(s, c, j + 1)
    }
}

/// The object text `{...}` (up to the first `}`) of `token\s*=\s*\{.*?\}`
/// matched at index `p`.
pub open spec fn token_object_at(s: Seq<char>, p: int) -> Option<Seq<char>> {
    if occurs_at(s, "token"@, p) {
        let q = ws_run_end(s, p + 5);
        if q < s.len() && s[q] == '=' {
            let r = ws_run_end(s, q + 1);
            if r < s.len() && s[r] == '{' {
                match char_index_from(s, '}', r + 1) {
                    Some(e) => Some(s.subrange(r, e + 1)),
                    None => None,
                }
            } else {
                None
            }
        } else {
            None
        }
    } else {
        None
    }
}

/// The match of `[^\[]*?token\s*=\s*(\{.*?\})` from index `p`: the fewest
/// characters other than `[` are skipped before the rest matches.
pub open spec fn lazy_token_from(s: Seq<char>, p: int) -> Option<Seq<char>>
    decreases s.len() - p,
{
    if p < 0 || p > s.len() {
        None
    } else if token_object_at(s, p) is Some {
        token_object_at(s, p)
    } else if p < s.len() && s[p] != '[' {
        lazy_token_from(s, p + 1)
    } else {
        None
    }
}

/// The capture of the leftmost match of `(?s)\[gdrive\][^\[]*?token\s*=\s*(\{.*?\})`
/// that starts at an index `>= i`.
pub open spec fn fallback_token_object_from(s: Seq<char>, i: int) -> Option<Seq<char>>
    decreases s.len() - i,
{
    if i < 0 || i >= s.len() {
        None
    } else if occurs_at(s, "[gdrive]"@, i) && lazy_token_from(s, i + 8) is Some {
        lazy_token_from(s, i + 8)
    } else {
        fallback_token_object_from(s, i + 1)
    }
}

/// A line of an rclone configuration that opens a section (`[name]`).
pub open spec fn is_header_line(l: Seq<char>) -> bool {
    trim(l).len() >= 2 && seq_starts_with(trim(l), "["@) && seq_ends_with(trim(l), "]"@)
}

/// A section header line whose name is `gdrive` in any ASCII case.
pub open spec fn is_gdrive_header(l: Seq<char>) -> bool {
    is_header_line(l) && eq_ignore_ascii_case(trim(l).subrange(1, trim(l).len() - 1), "gdrive"@)
}

proof fn lemma_scan_outside_gdrive(ls: Seq<Seq<char>>, k: int, h: int)
    requires
        0 <= k <= h <= ls.len(),
        forall|i: int| k <= i < h ==> !is_gdrive_header(#[trigger] ls[i]),
    ensures
        scan_lines(ls.skip(k), false) == scan_lines(ls.skip(h), false),
    decreases h - k,
{
    if k < h {
        let r = ls.skip(k);
        assert(r[0] == ls[k]);
        assert(r.drop_first() =~= ls.skip(k + 1));
        lemma_scan_outside_gdrive(ls, k + 1, h);
    }
}

proof fn lemma_scan_in_gdrive(ls: Seq<Seq<char>>, k: int, j: int, tok: Seq<char>)
    requires
        0 <= k <= j < ls.len(),
        forall|i: int| k <= i < j ==> !is_header_line(#[trigger] ls[i]) && line_token(trim(ls[i])) is None,
        !is_header_line(ls[j]),
        line_token(trim(ls[j])) == Some(tok),
    ensures
        scan_lines(ls.skip(k), true) == Some(tok),
    decreases j - k,
{
    let r = ls.skip(k);
    assert(r[0] == ls[k]);
    if k < j {
        assert(r.drop_first() =~= ls.skip(k + 1));
        lemma_scan_in_gdrive(ls, k + 1, j, tok);
    }
}

proof fn lemma_scan_no_gdrive(ls: Seq<Seq<char>>)
    requires
        forall|i: int| 0 <= i < ls.len() ==> !is_gdrive_header(#[trigger] ls[i]),
    ensures
        scan_lines(ls, false) is None,
    decreases ls.len(),
{
    if ls.len() > 0 {
        assert(!is_gdrive_header(ls[0]));
        assert forall|i: int| 0 <= i < ls.drop_first().len() implies !is_gdrive_header(
            #[trigger] ls.drop_first()[i],
        ) by {
            assert(ls.drop_first()[i] == ls[i + 1]);
        }
        lemma_scan_no_gdrive(ls.drop_first());
    }
}

proof fn lemma_fallback_none(s: Seq<char>, i: int)
    requires
        !seq_contains(s, "[gdrive]"@),
    ensures
        fallback_token_object_from(s, i) is None,
    decreases s.len() - i,
{
    if 0 <= i < s.len() {
        assert(!occurs_at(s, "[gdrive]"@, i));
        lemma_fallback_none(s, i + 1);
    }
}

/// The token comes from the `gdrive` section only. A text with no `gdrive`
/// section header and no `[gdrive]` anywhere yields no token. And when the
/// first `gdrive` header (any ASCII case) is line `h`, and line `j` after it
/// is the first line of that section holding `token = {...}` with a string
/// `access_token`, with no other header between, that `access_token` is the
/// token, whatever other sections hold.
pub proof fn law_token_from_gdrive_section(content: Seq<char>, h: int, j: int, tok: Seq<char>)
    ensures
        ((forall|i: int| 0 <= i < lines(content).len() ==> !is_gdrive_header(#[trigger] lines(content)[i]))
            && !seq_contains(content, "[gdrive]"@)) ==> gdrive_access_token_spec(content) is None,
        ({
            let ls = lines(content);
            &&& 0 <= h < j < ls.len()
            &&& is_gdrive_header(ls[h])
            &&& forall|i: int| 0 <= i < h ==> !is_gdrive_header(#[trigger] ls[i])
            &&& forall|i: int| h < i < j ==> !is_header_line(#[trigger] ls[i]) && line_token(trim(ls[i])) is None
            &&& !is_header_line(ls[j])
            &&& line_token(trim(ls[j])) == Some(tok)
        }) ==> gdrive_access_token_spec(content) == Some(tok),
{
    let ls = lines(content);
    if (forall|i: int| 0 <= i < ls.len() ==> !is_gdrive_header(#[trigger] ls[i])) && !seq_contains(
        content,
        "[gdrive]"@,
    ) {
        lemma_scan_no_gdrive(ls);
        lemma_fallback_none(content, 0);
    }
    if 0 <= h < j < ls.len() && is_gdrive_header(ls[h]) && (forall|i: int|
        0 <= i < h ==> !is_gdrive_header(#[trigger] ls[i])) && (forall|i: int|
        h < i < j ==> !is_header_line(#[trigger] ls[i]) && line_token(trim(ls[i])) is None) && !is_header_line(
        ls[j],
    ) && line_token(trim(ls[j])) == Some(tok) {
        lemma_scan_outside_gdrive(ls, 0, h);
        assert(ls.skip(0) =~= ls);
        let r = ls.skip(h);
        assert(r[0] == ls[h]);
        assert(r.drop_first() =~= ls.skip(h + 1));
        lemma_scan_in_gdrive(ls, h + 1, j, tok);
    }
}

/// What [`extract_gdrive_access_token`] returns for a configuration text:
/// the line-by-line scan first, then the whole-text fallback pattern.
pub open spec fn gdrive_access_token_spec(content: Seq<char>) -> Option<Seq<char>> {
    match scan_lines(lines(content), false) {
        Some(t) => Some(t),
        None => match fallback_token_object_from(content, 0) {
            Some(obj) => json_string_field(obj, "access_token"@),
            None => None,
        },
    }
}

fn line_token_exec(t: &Vec<char>) -> (res: Option<String>)
    ensures
        opt_view(res) == line_token(t@),
{
    if !starts_with_str(t, "token") {
        return None;
    }
    let eq = chars_of("=");
    proof {
        reveal_strlit("=");
        assert(eq@.len() == 1);
        crate::text::lemma_first_occurrence_from(t@, eq@, 0);
    }
    match find(t, &eq) {
        Some(pos) => {
            assert(occurs_at(t@, eq@, pos as int));
            assert(eq@.len() == 1);
            assert(pos + 1 <= t@.len());
            assert(t@.len() == t.len());
            let rest = slice_vec(t, pos + 1, t.len());
            assert(rest@ == t@.skip(pos + 1));
            let json = string_of_all(&trim_chars(&rest));
            json_string_field_exec(json.as_str(), "access_token")
        },
        None => None,
    }
}

fn ws_run_end_exec(s: &Vec<char>, j: usize) -> (res: usize)
    requires
        j <= s.len(),
    ensures
        res as int == ws_run_end(s@, j as int),
        j <= res <= s.len(),
{
    let mut k = j;
    while k < s.len() && is_ws_exec(s[k])
        invariant
            j <= k <= s.len(),
            ws_run_end(s@, j as int) == ws_run_end(s@, k as int),
        decreases s.len() - k,
    {
        k = k + 1;
    }
    k
}

fn char_index_from_exec(s: &Vec<char>, c: char, j: usize) -> (res: Option<usize>)
    ensures
        match res {
            Some(e) => char_index_from(s@, c, j as int) == Some(e as int),
            None => char_index_from(s@, c, j as int) is None,
        },
{
    let mut k = j;
    while k < s.len()
        invariant
            j <= k,
            char_index_from(s@, c, j as int) == char_index_from(s@, c, k as int),
        decreases s.len() - k,
    {
        if s[k] == c {
            return Some(k);
        }
        k = k + 1;
    }
    None
}

fn token_object_at_exec(s: &Vec<char>, token: &Vec<char>, p: usize) -> (res: Option<(usize, usize)>)
    requires
        token@ == "token"@,
    ensures
        match res {
            Some((a, b)) => a <= b <= s.len() && token_object_at(s@, p as int) == Some(
                s@.subrange(a as int, b as int),
            ),
            None => token_object_at(s@, p as int) is None,
        },
{
    if !occurs_at_exec(s, token, p) {
        return None;
    }
    proof {
        reveal_strlit("token");
        assert(token@.len() == 5);
        assert(p + 5 <= s.len());
    }
    let q = ws_run_end_exec(s, p + 5);
    if !(q < s.len() && s[q] == '=') {
        return None;
    }
    let r = ws_run_end_exec(s, q + 1);
    if !(r < s.len() && s[r] == '{') {
        return None;
    }
    match char_index_from_exec(s, '}', r + 1) {
        Some(e) => {
            proof {
                lemma_char_index_from_bounds(s@, '}', r + 1);
            }
            Some((r, e + 1))
        },
        None => None,
    }
}

proof fn lemma_char_index_from_bounds(s: Seq<char>, c: char, j: int)
    ensures
        char_index_from(s, c, j) matches Some(e) ==> j <= e < s.len(),
    decreases s.len() - j,
{
    if j < 0 || j >= s.len() {
    } else if s[j] == c {
    } else {
        lemma_char_index_from_bounds(s, c, j + 1);
    }
}

fn lazy_token_from_exec(s: &Vec<char>, token: &Vec<char>, p: usize) -> (res: Option<(usize, usize)>)
    requires
        token@ == "token"@,
        p <= s.len(),
    ensures
        match res {
            Some((a, b)) => a <= b <= s.len() && lazy_token_from(s@, p as int) == Some(
                s@.subrange(a as int, b as int),
            ),
            None => lazy_token_from(s@, p as int) is None,
        },
{
    let mut k = p;
    while k <= s.len()
        invariant
            p <= k <= s.len() + 1,
            token@ == "token"@,
            k <= s.len() ==> lazy_token_from(s@, p as int) == lazy_token_from(s@, k as int),
            k > s.len() ==> lazy_token_from(s@, p as int) is None,
        decreases s.len() + 1 - k,
    {
        match token_object_at_exec(s, token, k) {
            Some(r) => {
                return Some(r);
            },
            None => {},
        }
        if k < s.len() && s[k] != '[' {
            k = k + 1;
        } else {
            return None;
        }
    }
    None
}

fn fallback_token_object_exec(s: &Vec<char>) -> (res: Option<String>)
    ensures
        opt_view(res) == fallback_token_object_from(s@, 0),
{
    let marker = chars_of("[gdrive]");
    let token = chars_of("token");
    proof {
        reveal_strlit("[gdrive]");
        assert(marker@.len() == 8);
    }
    let mut i: usize = 0;
    while i < s.len()
        invariant
            i <= s.len(),
            marker@ == "[gdrive]"@,
            marker@.len() == 8,
            token@ == "token"@,
            fallback_token_object_from(s@, 0) == fallback_token_object_from(s@, i as int),
        decreases s.len() - i,
    {
        if occurs_at_exec(s, &marker, i) {
            match lazy_token_from_exec(s, &token, i + 8) {
                Some((a, b)) => {
                    return Some(string_of(s, a, b));
                },
                None => {},
            }
        }
        i = i + 1;
    }
    None
}

/// Reads the `access_token` of the `gdrive` remote from the text of an rclone
/// configuration file.
pub fn extract_gdrive_access_token(content: &str) -> (res: Option<String>)
    ensures
        opt_view(res) == gdrive_access_token_spec(content@),
{
    let all = chars_of(content);
    let ls = split_lines(&all);
    let gdrive = chars_of("gdrive");
    let mut in_gdrive = false;
    let mut i: usize = 0;
    assert(views_of(ls@).skip(0) =~= views_of(ls@));
    while i < ls.len()
        invariant
            i <= ls.len(),
            views_of(ls@) == lines(content@),
            gdrive@ == "gdrive"@,
            scan_lines(lines(content@), false) == scan_lines(views_of(ls@).skip(i as int), in_gdrive),
        decreases ls.len() - i,
    {
        let ghost rest = views_of(ls@).skip(i as int);
        assert(rest[0] == ls@[i as int]@);
        assert(rest.drop_first() =~= views_of(ls@).skip(i + 1));
        let t = trim_chars(&ls[i]);
        if t.len() >= 2 && starts_with_str(&t, "[") && ends_with_str(&t, "]") {
            let name = slice_vec(&t, 1, t.len() - 1);
            in_gdrive = eq_ignore_ascii_case_exec(&name, &gdrive);
        } else if in_gdrive {
            let tok = line_token_exec(&t);
            if tok.is_some() {
                return tok;
            }
        }
        i = i + 1;
    }
    assert(views_of(ls@).skip(i as int).len() == 0);
    match fallback_token_object_exec(&all) {
        Some(obj) => json_string_field_exec(obj.as_str(), "access_token"),
        None => None,
    }
}

// ---------------------------------------------------------------------------
// The signed-in Google user
// ---------------------------------------------------------------------------

/// The Google account behind the `gdrive` remote, as the Drive `about`
/// endpoint describes it.
pub struct GoogleUserInfo {
    pub is_authenticated: bool,
    pub display_name: Option<String>,
    pub email: Option<String>,
    pub photo_link: Option<String>,
    pub storage_total: Option<u64>,
    pub storage_used: Option<u64>,
}

/// A quota figure as Drive reports it: decimal text, kept when it parses as
/// a `u64`.
pub open spec fn quota_figure(text: Option<Seq<char>>) -> Option<u64> {
    match text {
        Some(t) => parse_u64_spec(t),
        None => None,
    }
}

fn quota_figure_exec(text: &Option<String>) -> (res: Option<u64>)
    ensures
        res == quota_figure(opt_view(*text)),
{
    match text {
        Some(t) => parse_u64(t.as_str()),
        None => None,
    }
}

impl GoogleUserInfo {
    /// The answer when no signed-in user could be read.
    pub fn unauthenticated() -> (res: GoogleUserInfo)
        ensures
            !res.is_authenticated,
            res.display_name is None,
            res.email is None,
            res.photo_link is None,
            res.storage_total is None,
            res.storage_used is None,
    {
        GoogleUserInfo {
            is_authenticated: false,
            display_name: None,
            email: None,
            photo_link: None,
            storage_total: None,
            storage_used: None,
        }
    }

    /// The user described by a successful `about` answer: its `user` fields
    /// as given, and the `storageQuota` limit and usage, which Drive sends as
    /// decimal text, as numbers when they parse.
    pub fn from_about(
        display_name: Option<String>,
        email: Option<String>,
        photo_link: Option<String>,
        quota_limit: &Option<String>,
        quota_usage: &Option<String>,
    ) -> (res: GoogleUserInfo)
        ensures
            res.is_authenticated,
            res.display_name == display_name,
            res.email == email,
            res.photo_link == photo_link,
            res.storage_total == quota_figure(opt_view(*quota_limit)),
            res.storage_used == quota_figure(opt_view(*quota_usage)),
    {
        GoogleUserInfo {
            is_authenticated: true,
            display_name,
            email,
            photo_link,
            storage_total: quota_figure_exec(quota_limit),
            storage_used: quota_figure_exec(quota_usage),
        }
    }
}

/// Whether rclone's error output reports that it fell back to its shared
/// OAuth client (in any letter case).
pub open spec fn reports_shared_client(stderr: Seq<char>) -> bool {
    seq_contains(unicode_lowercase(stderr), "shared client"@)
}

pub fn shared_client_reported(stderr: &str) -> (res: bool)
    ensures
        res == reports_shared_client(stderr@),
{
    let lower = to_lowercase(stderr);
    str_contains(lower.as_str(), "shared client")
}

/// Whether an `rclone about` run that refreshes the token counts: it must
/// have succeeded, and with the app's own client rather than rclone's shared one.
pub fn refresh_accepted(success: bool, stderr: &str) -> (res: bool)
    ensures
        res == (success && !reports_shared_client(stderr@)),
{
    success && !shared_client_reported(stderr)
}

// ---------------------------------------------------------------------------
// Fetching the signed-in user: tokens, one refresh, one retry
// ---------------------------------------------------------------------------

/// How Drive's `about` endpoint answered a request.
#[derive(Clone, Copy, Debug, PartialEq, Eq, Structural)]
pub enum AboutAnswer {
    /// A success status.
    Success,
    /// `401 Unauthorized`: the token expired.
    Unauthorized,
    /// Any other status.
    OtherStatus,
    /// The request could not be sent or answered.
    Failed,
}

/// The fields of a successful `about` answer that the user is made of.
pub struct AboutFields {
    pub display_name: Option<String>,
    pub email: Option<String>,
    pub photo_link: Option<String>,
    pub quota_limit: Option<String>,
    pub quota_usage: Option<String>,
}

/// Where the fetch of the signed-in user stands.
#[derive(Clone, Copy, Debug, PartialEq, Eq, Structural)]
pub enum ProfileFetch {
    /// Reading the access token from the rclone configuration.
    ReadingToken,
    /// The first `about` request was sent.
    FirstRequest,
    /// rclone was asked to refresh the token.
    Refreshing,
    /// The request was sent again with the refreshed token.
    Retried,
    /// Reading the body of a successful answer.
    ReadingBody,
    /// Finished.
    Done,
}

/// What the outside work of a fetch step reported.
pub enum ProfileEvent {
    /// Whether a token could be read (no configuration counts as none).
    TokenRead(bool),
    /// How the `about` request was answered.
    Answer(AboutAnswer),
    /// Whether the refresh run was accepted (see [`refresh_accepted`]), and
    /// whether a token could be read after it.
    Refreshed { accepted: bool, token_read: bool },
    /// The answer's fields, when its body is JSON.
    Body(Option<AboutFields>),
}

/// What to do next.
pub enum ProfileAction {
    /// Send the `about` request with the token last read.
    Request,
    /// Run `rclone about gdrive:` to refresh the token, then read it again.
    Refresh,
    /// Read the body of the answer.
    ReadBody,
    /// The fetch ends with this user.
    Finish(GoogleUserInfo),
}

/// The mathematical value of a [`GoogleUserInfo`].
pub struct UserView {
    pub is_authenticated: bool,
    pub display_name: Option<Seq<char>>,
    pub email: Option<Seq<char>>,
    pub photo_link: Option<Seq<char>>,
    pub storage_total: Option<u64>,
    pub storage_used: Option<u64>,
}

pub open spec fn user_view(u: GoogleUserInfo) -> UserView {
    UserView {
        is_authenticated: u.is_authenticated,
        display_name: opt_view(u.display_name),
        email: opt_view(u.email),
        photo_link: opt_view(u.photo_link),
        storage_total: u.storage_total,
        storage_used: u.storage_used,
    }
}

pub open spec fn unauthenticated_view() -> UserView {
    UserView {
        is_authenticated: false,
        display_name: None,
        email: None,
        photo_link: None,
        storage_total: None,
        storage_used: None,
    }
}

pub struct AboutView {
    pub display_name: Option<Seq<char>>,
    pub email: Option<Seq<char>>,
    pub photo_link: Option<Seq<char>>,
    pub quota_limit: Option<Seq<char>>,
    pub quota_usage: Option<Seq<char>>,
}

/// The user that a successful answer describes.
pub open spec fn about_user(f: AboutView) -> UserView {
    UserView {
        is_authenticated: true,
        display_name: f.display_name,
        email: f.email,
        photo_link: f.photo_link,
        storage_total: quota_figure(f.quota_limit),
        storage_used: quota_figure(f.quota_usage),
    }
}

pub enum EventView {
    TokenRead(bool),
    Answer(AboutAnswer),
    Refreshed { accepted: bool, token_read: bool },
    Body(Option<AboutView>),
}

pub open spec fn event_view(e: ProfileEvent) -> EventView {
    match e {
        ProfileEvent::TokenRead(b) => EventView::TokenRead(b),
        ProfileEvent::Answer(a) => EventView::Answer(a),
        ProfileEvent::Refreshed { accepted, token_read } => EventView::Refreshed { accepted, token_read },
        ProfileEvent::Body(b) => EventView::Body(
            match b {
                Some(f) => Some(
                    AboutView {
                        display_name: opt_view(f.display_name),
                        email: opt_view(f.email),
                        photo_link: opt_view(f.photo_link),
                        quota_limit: opt_view(f.quota_limit),
                        quota_usage: opt_view(f.quota_usage),
                    },
                ),
                None => None,
            },
        ),
    }
}

pub enum ProfileActionView {
    Request,
    Refresh,
    ReadBody,
    Finish(UserView),
}

pub open spec fn profile_action_view(a: ProfileAction) -> ProfileActionView {
    match a {
        ProfileAction::Request => ProfileActionView::Request,
        ProfileAction::Refresh => ProfileActionView::Refresh,
        ProfileAction::ReadBody => ProfileActionView::ReadBody,
        ProfileAction::Finish(u) => ProfileActionView::Finish(user_view(u)),
    }
}

/// One step of the fetch: a token leads to the request; the first `401`
/// leads to one refresh, and an accepted refresh with a token read again to
/// exactly one more request; a success leads to the body, and a body that is
/// JSON to the user it describes; anything else ends unauthenticated.
pub open spec fn profile_step_spec(s: ProfileFetch, e: EventView) -> (ProfileFetch, ProfileActionView) {
    let give_up = (ProfileFetch::Done, ProfileActionView::Finish(unauthenticated_view()));
    match (s, e) {
        (ProfileFetch::ReadingToken, EventView::TokenRead(true)) => (
            ProfileFetch::FirstRequest,
            ProfileActionView::Request,
        ),
        (ProfileFetch::FirstRequest, EventView::Answer(AboutAnswer::Unauthorized)) => (
            ProfileFetch::Refreshing,
            ProfileActionView::Refresh,
        ),
        (ProfileFetch::FirstRequest, EventView::Answer(AboutAnswer::Success)) => (
            ProfileFetch::ReadingBody,
            ProfileActionView::ReadBody,
        ),
        (ProfileFetch::Retried, EventView::Answer(AboutAnswer::Success)) => (
            ProfileFetch::ReadingBody,
            ProfileActionView::ReadBody,
        ),
        (ProfileFetch::Refreshing, EventView::Refreshed { accepted: true, token_read: true }) => (
            ProfileFetch::Retried,
            ProfileActionView::Request,
        ),
        (ProfileFetch::ReadingBody, EventView::Body(Some(f))) => (
            ProfileFetch::Done,
            ProfileActionView::Finish(about_user(f)),
        ),
        _ => give_up,
    }
}

/// Takes what the outside work of the current step reported and says what
/// to do next (`get_google_user_profile_with_credentials`).
pub fn profile_step(s: ProfileFetch, e: ProfileEvent) -> (res: (ProfileFetch, ProfileAction))
    ensures
        (res.0, profile_action_view(res.1)) == profile_step_spec(s, event_view(e)),
{
    match (s, e) {
        (ProfileFetch::ReadingToken, ProfileEvent::TokenRead(true)) => (
            ProfileFetch::FirstRequest,
            ProfileAction::Request,
        ),
        (ProfileFetch::FirstRequest, ProfileEvent::Answer(AboutAnswer::Unauthorized)) => (
            ProfileFetch::Refreshing,
            ProfileAction::Refresh,
        ),
        (ProfileFetch::FirstRequest, ProfileEvent::Answer(AboutAnswer::Success)) => (
            ProfileFetch::ReadingBody,
            ProfileAction::ReadBody,
        ),
        (ProfileFetch::Retried, ProfileEvent::Answer(AboutAnswer::Success)) => (
            ProfileFetch::ReadingBody,
            ProfileAction::ReadBody,
        ),
        (ProfileFetch::Refreshing, ProfileEvent::Refreshed { accepted: true, token_read: true }) => (
            ProfileFetch::Retried,
            ProfileAction::Request,
        ),
        (ProfileFetch::ReadingBody, ProfileEvent::Body(Some(f))) => (
            ProfileFetch::Done,
            ProfileAction::Finish(
                GoogleUserInfo::from_about(
                    f.display_name,
                    f.email,
                    f.photo_link,
                    &f.quota_limit,
                    &f.quota_usage,
                ),
            ),
        ),
        _ => (ProfileFetch::Done, ProfileAction::Finish(GoogleUserInfo::unauthenticated())),
    }
}

/// The actions of a run of steps from `s` over the events `es`.
pub open spec fn profile_run(s: ProfileFetch, es: Seq<EventView>) -> Seq<ProfileActionView>
    decreases es.len(),
{
    if es.len() == 0 {
        Seq::empty()
    } else {
        let (s2, a) = profile_step_spec(s, es[0]);
        seq![a] + profile_run(s2, es.drop_first())
    }
}

/// The number of refreshes among `acts`.
pub open spec fn refresh_count(acts: Seq<ProfileActionView>) -> nat
    decreases acts.len(),
{
    if acts.len() == 0 {
        0
    } else {
        (if acts[0] is Refresh { 1nat } else { 0nat }) + refresh_count(acts.drop_first())
    }
}

/// The number of requests among `acts`.
pub open spec fn request_count(acts: Seq<ProfileActionView>) -> nat
    decreases acts.len(),
{
    if acts.len() == 0 {
        0
    } else {
        (if acts[0] is Request { 1nat } else { 0nat }) + request_count(acts.drop_first())
    }
}

proof fn lemma_profile_run_counts(s: ProfileFetch, es: Seq<EventView>)
    ensures
        refresh_count(profile_run(s, es)) <= (if s == ProfileFetch::ReadingToken || s
            == ProfileFetch::FirstRequest { 1nat } else { 0nat }),
        request_count(profile_run(s, es)) <= (if s == ProfileFetch::ReadingToken {
            2nat
        } else if s == ProfileFetch::FirstRequest || s == ProfileFetch::Refreshing {
            1nat
        } else {
            0nat
        }),
    decreases es.len(),
{
    if es.len() > 0 {
        let (s2, a) = profile_step_spec(s, es[0]);
        lemma_profile_run_counts(s2, es.drop_first());
        let acts = profile_run(s, es);
        assert(acts.drop_first() =~= profile_run(s2, es.drop_first()));
    }
}

/// However the outside work answers, a fetch of the signed-in user refreshes
/// the token at most once and sends at most two requests: the second only
/// after an accepted refresh.
pub proof fn law_profile_fetch_refreshes_once(es: Seq<EventView>)
    ensures
        refresh_count(profile_run(ProfileFetch::ReadingToken, es)) <= 1,
        request_count(profile_run(ProfileFetch::ReadingToken, es)) <= 2,
        forall|s: ProfileFetch, e: EventView| #[trigger] profile_step_spec(s, e).1 is Request && s
            != ProfileFetch::ReadingToken ==> s == ProfileFetch::Refreshing && e == (EventView::Refreshed {
            accepted: true,
            token_read: true,
        }),
        forall|s: ProfileFetch, e: EventView| #[trigger] profile_step_spec(s, e).1 is Refresh ==> s
            == ProfileFetch::FirstRequest && e == EventView::Answer(AboutAnswer::Unauthorized),
{
    lemma_profile_run_counts(ProfileFetch::ReadingToken, es);
}

/// A successful answer's body yields the user it describes, field by field:
/// its name, email and photo link as given, and its quota limit and usage
/// when they are decimal numbers. Only such a body yields a signed-in user;
/// every other end of the fetch is the unauthenticated answer. A token read
/// leads to the first request, and a success answer to reading the body.
pub proof fn law_profile_body_gives_its_user(f: AboutView, s: ProfileFetch, e: EventView)
    ensures
        profile_step_spec(ProfileFetch::ReadingBody, EventView::Body(Some(f))) matches (
            ProfileFetch::Done,
            ProfileActionView::Finish(u),
        ) && u.is_authenticated && u.display_name == f.display_name && u.email == f.email && u.photo_link
            == f.photo_link && u.storage_total == (match f.quota_limit {
            Some(t) => parse_u64_spec(t),
            None => None,
        }) && u.storage_used == (match f.quota_usage {
            Some(t) => parse_u64_spec(t),
            None => None,
        }),
        profile_step_spec(s, e).1 matches ProfileActionView::Finish(u) ==> (u.is_authenticated <==> (s
            == ProfileFetch::ReadingBody && e matches EventView::Body(Some(_)))),
        profile_step_spec(s, e).1 matches ProfileActionView::Finish(u) ==> (!u.is_authenticated ==> u
            == unauthenticated_view() && profile_step_spec(s, e).0 == ProfileFetch::Done),
        profile_step_spec(ProfileFetch::ReadingToken, EventView::TokenRead(true)) == (
            ProfileFetch::FirstRequest,
            ProfileActionView::Request,
        ),
        (s == ProfileFetch::FirstRequest || s == ProfileFetch::Retried) ==> profile_step_spec(
            s,
            EventView::Answer(AboutAnswer::Success),
        ) == (ProfileFetch::ReadingBody, ProfileActionView::ReadBody),
{
}

/// How the access-token check goes on after the health request: an expired
/// token (`401`) asks for a refresh; any other answer keeps the token.
pub open spec fn token_needs_refresh(a: AboutAnswer) -> bool {
    a == AboutAnswer::Unauthorized
}

pub fn access_token_needs_refresh(answer: AboutAnswer) -> (res: bool)
    ensures
        res == token_needs_refresh(answer),
{
    answer == AboutAnswer::Unauthorized
}

/// The token after a refresh (`get_google_access_token_with_credentials`):
/// the one read again after an accepted refresh; none when the refresh was
/// not accepted or nothing could be read.
pub fn access_token_after_refresh(accepted: bool, reread: Option<String>) -> (res: Option<String>)
    ensures
        opt_view(res) == (if accepted {
            opt_view(reread)
        } else {
            None
        }),
{
    if accepted {
        reread
    } else {
        None
    }
}

} // verus!
