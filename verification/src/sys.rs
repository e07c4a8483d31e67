//! Path names as text, and read-only probes of the filesystem.
//!
//! Paths are carried as plain strings.  The functions that take a path
//! apart are verified; looking at the disk itself happens only in the
//! trusted probes at the end of the file, whose results no contract
//! constrains (what is on disk can change between two calls).

use vstd::prelude::*;

verus! {

use vstd::string::StrSliceExecFns;
use crate::text::{str_chars, subrange_chars, chars_to_string, ends_with_chars, concat_chars};
use crate::text::seq_ends_with;

/// The path separators recognised in path text.
pub open spec fn is_path_sep(c: char) -> bool {
    c == '/' || c == '\\'
}

/// A path with its trailing separators dropped: the text whose last
/// component the path names.
pub open spec fn strip_trailing_seps_spec(s: Seq<char>) -> Seq<char>
    decreases s.len(),
{
    if s.len() > 0 && is_path_sep(s[s.len() - 1]) {
        strip_trailing_seps_spec(s.drop_last())
    } else {
        s
    }
}

/// The text after the last separator of a path that does not end in
/// one.
pub open spec fn tail_after_sep_spec(s: Seq<char>) -> Seq<char>
    decreases s.len(),
{
    if s.len() == 0 {
        s
    } else if is_path_sep(s[s.len() - 1]) {
        Seq::empty()
    } else {
        tail_after_sep_spec(s.drop_last()).push(s[s.len() - 1])
    }
}

/// The text before the last separator of a path that does not end in
/// one; empty when it holds no separator.
pub open spec fn head_before_sep_spec(s: Seq<char>) -> Seq<char>
    decreases s.len(),
{
    if s.len() == 0 {
        s
    } else if is_path_sep(s[s.len() - 1]) {
        s.drop_last()
    } else {
        head_before_sep_spec(s.drop_last())
    }
}

/// The file name a path stands for: its last named component, with
/// trailing separators ignored (so `a/b/` names `b`, and a bare root
/// names nothing).
pub open spec fn filename_spec(s: Seq<char>) -> Seq<char> {
    tail_after_sep_spec(strip_trailing_seps_spec(s))
}

/// The parent of a path: the text in front of its last named
/// component, trailing separators ignored; empty when no separator
/// remains — in particular the parent of a root-level name is empty
/// here, not the root itself.
pub open spec fn parent_spec(s: Seq<char>) -> Seq<char> {
    head_before_sep_spec(strip_trailing_seps_spec(s))
}

proof fn lemma_strip_take(s: Seq<char>, m: int)
    requires
        0 <= m <= s.len(),
        forall|k: int| m <= k < s.len() ==> is_path_sep(s[k]),
        m > 0 ==> !is_path_sep(s[m - 1]),
    ensures
        strip_trailing_seps_spec(s) == s.take(m),
    decreases s.len() - m,
{
    if m == s.len() {
        assert(s.take(m) =~= s);
    } else {
        assert(is_path_sep(s[s.len() - 1]));
        lemma_strip_take(s.drop_last(), m);
        assert(s.drop_last().take(m) =~= s.take(m));
    }
}

proof fn lemma_filename_skip(s: Seq<char>, j: int)
    requires
        0 <= j <= s.len(),
        forall|k: int| j <= k < s.len() ==> !is_path_sep(s[k]),
        j > 0 ==> is_path_sep(s[j - 1]),
    ensures
        tail_after_sep_spec(s) == s.skip(j),
        head_before_sep_spec(s) == if j > 0 {
            s.take(j - 1)
        } else {
            Seq::<char>::empty()
        },
    decreases s.len() - j,
{
    if j == s.len() {
        if j > 0 {
            assert(is_path_sep(s[s.len() - 1]));
            assert(s.skip(j) =~= Seq::<char>::empty());
            assert(s.drop_last() =~= s.take(j - 1));
        } else {
            assert(s.skip(0) =~= s);
        }
    } else {
        assert(!is_path_sep(s[s.len() - 1]));
        lemma_filename_skip(s.drop_last(), j);
        assert(s.drop_last().skip(j).push(s[s.len() - 1]) =~= s.skip(j));
        if j > 0 {
            assert(s.drop_last().take(j - 1) =~= s.take(j - 1));
        }
    }
}

/// The index after the last non-separator character of `v`: the length
/// of the path once trailing separators are dropped.
fn strip_trailing_seps_len(v: &Vec<char>) -> (m: usize)
    ensures
        0 <= m <= v@.len(),
        forall|k: int| m <= k < v@.len() ==> is_path_sep(v@[k]),
        m > 0 ==> !is_path_sep(v@[m - 1]),
{
    let mut m: usize = v.len();
    while m > 0
        invariant
            0 <= m <= v@.len(),
            forall|k: int| m <= k < v@.len() ==> is_path_sep(v@[k]),
        decreases m,
    {
        if !path_sep_char(v[m - 1]) {
            return m;
        }
        m -= 1;
    }
    m
}

fn path_sep_char(c: char) -> (r: bool)
    ensures
        r == is_path_sep(c),
{
    c == '/' || c == '\\'
}

/// The index just after the last path separator of `v`; 0 when there is
/// none.
fn after_last_sep(v: &Vec<char>) -> (j: usize)
    ensures
        0 <= j <= v@.len(),
        forall|k: int| j <= k < v@.len() ==> !is_path_sep(v@[k]),
        j > 0 ==> is_path_sep(v@[j - 1]),
{
    let mut j: usize = v.len();
    while j > 0
        invariant
            0 <= j <= v@.len(),
            forall|k: int| j <= k < v@.len() ==> !is_path_sep(v@[k]),
        decreases j,
    {
        if path_sep_char(v[j - 1]) {
            return j;
        }
        j -= 1;
    }
    j
}

/// The file name of `path`: its last named component, trailing
/// separators ignored.
pub fn filename(path: &str) -> (r: String)
    ensures
        r@ == filename_spec(path@),
{
    let v = str_chars(path);
    let m = strip_trailing_seps_len(&v);
    let t = subrange_chars(&v, 0, m);
    proof {
        lemma_strip_take(path@, m as int);
        assert(t@ =~= path@.take(m as int));
    }
    let j = after_last_sep(&t);
    let tail = subrange_chars(&t, j, t.len());
    proof {
        lemma_filename_skip(t@, j as int);
        assert(tail@ =~= t@.skip(j as int));
    }
    chars_to_string(&tail)
}

/// The name of the directory a path stands for: the text after the last
/// separator, as `filename` yields it.
pub fn dirname(path: &str) -> (r: String)
    ensures
        r@ == filename_spec(path@),
{
    filename(path)
}

/// The parent of `path`: the text in front of its last named
/// component, trailing separators ignored; empty when no separator
/// remains.
pub fn parent_dir(path: &str) -> (r: String)
    ensures
        r@ == parent_spec(path@),
{
    let v = str_chars(path);
    let m = strip_trailing_seps_len(&v);
    let t = subrange_chars(&v, 0, m);
    proof {
        lemma_strip_take(path@, m as int);
        assert(t@ =~= path@.take(m as int));
    }
    let j = after_last_sep(&t);
    proof {
        lemma_filename_skip(t@, j as int);
    }
    if j > 0 {
        let head = subrange_chars(&t, 0, j - 1);
        proof {
            assert(head@ =~= t@.take(j - 1));
        }
        chars_to_string(&head)
    } else {
        let empty: Vec<char> = Vec::new();
        chars_to_string(&empty)
    }
}

/// How a file stem relates to the file name it came from: either `r`
/// is the name cut at its last dot (a leading dot does not count), or
/// the name has no such dot and `r` is the whole of it.
pub open spec fn stem_splits(f: Seq<char>, r: Seq<char>) -> bool {
    (exists|j: int|
        1 <= j < f.len() && f[j] == '.' && (forall|k: int| j < k < f.len() ==> f[k] != '.') && r
            == f.take(j)) || ((forall|k: int| 1 <= k < f.len() ==> f[k] != '.') && r == f)
}

/// The position of the last dot of `v` that does not stand first, if
/// there is one.
fn find_last_dot(v: &Vec<char>) -> (r: Option<usize>)
    ensures
        match r {
            Some(j) => 1 <= j < v@.len() && v@[j as int] == '.' && (forall|k: int|
                j < k < v@.len() ==> v@[k] != '.'),
            None => forall|k: int| 1 <= k < v@.len() ==> v@[k] != '.',
        },
{
    let mut j: usize = v.len();
    while j > 1
        invariant
            j <= v@.len() || (j == v@.len() && v@.len() <= 1),
            forall|k: int| j <= k < v@.len() ==> v@[k] != '.',
        decreases j,
    {
        if v[j - 1] == '.' {
            return Some(j - 1);
        }
        j -= 1;
    }
    None
}

/// The file name of `path` without its last extension; a leading dot
/// does not begin an extension.
pub fn file_stem(path: &str) -> (r: String)
    ensures
        stem_splits(filename_spec(path@), r@),
{
    let name = filename(path);
    let v = str_chars(name.as_str());
    let ghost f = filename_spec(path@);
    match find_last_dot(&v) {
        Some(j) => {
            let stem = subrange_chars(&v, 0, j);
            let out = chars_to_string(&stem);
            proof {
                assert(out@ =~= f.take(j as int));
                assert(stem_splits(f, out@));
            }
            out
        }
        None => {
            let out = chars_to_string(&v);
            proof {
                assert(stem_splits(f, out@));
            }
            out
        }
    }
}

/// `text` without the given trailing `extension`; `text` itself when it
/// does not end in it.
pub fn trim_extension<'a>(text: &'a str, extension: &str) -> (r: &'a str)
    ensures
        r@ == if seq_ends_with(text@, extension@) {
            text@.take(text@.len() - extension@.len())
        } else {
            text@
        },
{
    let tv = str_chars(text);
    let ev = str_chars(extension);
    if ends_with_chars(&tv, &ev) {
        let keep: usize = tv.len() - ev.len();
        let r = text.substring_char(0, keep);
        r
    } else {
        text
    }
}

/// `dir` and `name` joined with a single separator between them.
pub fn join_path(dir: &str, name: &str) -> (r: String)
    ensures
        r@ == dir@ + seq!['/'] + name@,
{
    let d = str_chars(dir);
    let mut sep: Vec<char> = Vec::new();
    sep.push('/');
    let n = str_chars(name);
    let r = concat_chars(&concat_chars(&d, &sep), &n);
    proof {
        assert(sep@ =~= seq!['/']);
    }
    chars_to_string(&r)
}

/// The path text itself; paths in this crate are already plain strings.
pub fn path_to_str(p: &str) -> (r: String)
    ensures
        r@ == p@,
{
    p.to_owned()
}

/// Relies on `std::path::Path::exists`: whether anything on disk bears
/// this path right now.
#[verifier::external_body]
pub fn path_exists(p: &str) -> bool {
    std::path::Path::new(p).exists()
}

/// Relies on `std::path::Path::is_dir`: whether the path names an
/// existing directory right now.
#[verifier::external_body]
pub fn path_is_dir(p: &str) -> bool {
    std::path::Path::new(p).is_dir()
}

/// Relies on `std::path::Path::is_file`: whether the path names an
/// existing regular file right now.
#[verifier::external_body]
pub fn path_is_file(p: &str) -> bool {
    std::path::Path::new(p).is_file()
}

/// Relies on `std::path::Path::read_dir`: the names of the entries the
/// directory holds right now, or `None` when it cannot be read.
#[verifier::external_body]
pub fn dir_entry_names(p: &str) -> Option<Vec<String>> {
    match std::path::Path::new(p).read_dir() {
        Ok(entries) => Some(
            entries
                .filter_map(|e| e.ok().and_then(|e| e.file_name().into_string().ok()))
                .collect(),
        ),
        Err(_) => None,
    }
}

/// The entries of a directory; an unreadable directory is tolerated
/// and treated as empty.
pub fn ls(dir: &str) -> Vec<String> {
    match dir_entry_names(dir) {
        Some(names) => names,
        None => Vec::new(),
    }
}

/// Whether the directory holds no entries; an unreadable or missing
/// directory counts as empty.
pub fn is_dir_empty(path: &str) -> bool {
    if !path_is_dir(path) {
        return true;
    }
    match dir_entry_names(path) {
        Some(names) => names.len() == 0,
        None => true,
    }
}

/// Relies on `std::path::Path::canonicalize`: the canonical absolute
/// form of the path, when the operating system can resolve it.
#[verifier::external_body]
pub fn canonicalize_str(p: &str) -> Option<String> {
    match std::path::Path::new(p).canonicalize() {
        Ok(c) => c.to_str().map(|s| s.to_owned()),
        Err(_) => None,
    }
}

/// Relies on `std::time::SystemTime::now`: the seconds since the Unix
/// epoch at the moment of the call.
#[verifier::external_body]
pub fn unix_timestamp() -> u64 {
    match std::time::SystemTime::now().duration_since(std::time::SystemTime::UNIX_EPOCH) {
        Ok(d) => d.as_secs(),
        Err(_) => 0,
    }
}

} // verus!
