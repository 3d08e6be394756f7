//! Lexical path bookkeeping: file names, extensions, output names and file URLs.
//!
//! Paths are strings with `/` as separator. When the file name is looked up,
//! trailing separators are ignored, and so is a trailing `.` segment that
//! follows a separator: `a/.` and `a/./` name the file `a`. A final segment
//! `..`, or a `.` that begins the path, names no file.

use crate::errors::{
    canonicalize_message, err_canonicalize, err_file_name, file_name_message, HtopError,
};
use vstd::prelude::*;
use vstd::string::{StrSliceExecFns, StringExecFns};

verus! {

/// Length of the first `n` characters of `p` once trailing separators, and
/// trailing `.` segments that follow a separator, are dropped.
pub open spec fn trimmed_len(p: Seq<char>, n: int) -> int
    decreases n,
{
    if n <= 0 {
        0
    } else if p[n - 1] == '/' {
        trimmed_len(p, n - 1)
    } else if n >= 2 && p[n - 1] == '.' && p[n - 2] == '/' {
        trimmed_len(p, n - 2)
    } else {
        n
    }
}

/// Start of the segment that ends at `n`: just after the last separator before `n`.
pub open spec fn segment_start(p: Seq<char>, n: int) -> int
    decreases n,
{
    if n <= 0 {
        0
    } else if p[n - 1] == '/' {
        n
    } else {
        segment_start(p, n - 1)
    }
}

/// End of the last segment of `p`.
pub open spec fn name_end(p: Seq<char>) -> int {
    trimmed_len(p, p.len() as int)
}

/// Start of the last segment of `p`.
pub open spec fn name_start(p: Seq<char>) -> int {
    segment_start(p, name_end(p))
}

/// The final segment of `p`, when it names a file.
pub open spec fn file_name_of(p: Seq<char>) -> Option<Seq<char>> {
    let s = p.subrange(name_start(p), name_end(p));
    if s.len() == 0 || s == seq!['.'] || s == seq!['.', '.'] {
        None
    } else {
        Some(s)
    }
}

/// Position of the last dot among the first `n` characters of `s`, or -1.
pub open spec fn last_dot(s: Seq<char>, n: int) -> int
    decreases n,
{
    if n <= 0 {
        -1
    } else if s[n - 1] == '.' {
        n - 1
    } else {
        last_dot(s, n - 1)
    }
}

/// Length of the stem of a file name: what precedes its last dot, unless that
/// dot is the first character or there is none, where it is the whole name.
pub open spec fn stem_len(name: Seq<char>) -> int {
    let d = last_dot(name, name.len() as int);
    if d <= 0 {
        name.len() as int
    } else {
        d
    }
}

/// The extension of the file that `p` names: what follows the stem and its dot.
pub open spec fn extension_of(p: Seq<char>) -> Option<Seq<char>> {
    match file_name_of(p) {
        None => None,
        Some(name) => if last_dot(name, name.len() as int) <= 0 {
            None
        } else {
            Some(name.subrange(stem_len(name) + 1, name.len() as int))
        },
    }
}

pub open spec fn pdf_suffix() -> Seq<char> {
    seq!['.', 'p', 'd', 'f']
}

pub open spec fn html_extension() -> Seq<char> {
    seq!['h', 't', 'm', 'l']
}

/// `p` with the extension of the file it names replaced by `pdf`; `p` itself
/// where it names no file.
pub open spec fn with_pdf_extension(p: Seq<char>) -> Seq<char> {
    match file_name_of(p) {
        None => p,
        Some(name) => p.subrange(0, name_start(p) + stem_len(name)) + pdf_suffix(),
    }
}

/// A file URL for an absolute path.
pub open spec fn file_url_of(absolute: Seq<char>) -> Seq<char> {
    "file://"@ + absolute
}

/// `dir` and a file name joined by one separator.
pub open spec fn join_path(dir: Seq<char>, name: Seq<char>) -> Seq<char> {
    if dir.len() == 0 || dir.last() == '/' {
        dir + name
    } else {
        dir + seq!['/'] + name
    }
}

proof fn lemma_trimmed_len(p: Seq<char>, n: int)
    requires
        0 <= n <= p.len(),
    ensures
        0 <= trimmed_len(p, n) <= n,
        trimmed_len(p, n) > 0 ==> p[trimmed_len(p, n) - 1] != '/',
    decreases n,
{
    if n > 0 && p[n - 1] == '/' {
        lemma_trimmed_len(p, n - 1);
    } else if n >= 2 && p[n - 1] == '.' && p[n - 2] == '/' {
        lemma_trimmed_len(p, n - 2);
    }
}

proof fn lemma_segment_start(p: Seq<char>, n: int)
    requires
        0 <= n <= p.len(),
    ensures
        0 <= segment_start(p, n) <= n,
        segment_start(p, n) > 0 ==> p[segment_start(p, n) - 1] == '/',
        forall|k: int| segment_start(p, n) <= k < n ==> p[k] != '/',
    decreases n,
{
    if n > 0 && p[n - 1] != '/' {
        lemma_segment_start(p, n - 1);
    }
}

/// A run free of separators that follows a separator, or the start, is a segment.
proof fn lemma_segment_start_run(p: Seq<char>, lo: int, n: int)
    requires
        0 <= lo <= n <= p.len(),
        lo == 0 || p[lo - 1] == '/',
        forall|k: int| lo <= k < n ==> p[k] != '/',
    ensures
        segment_start(p, n) == lo,
    decreases n,
{
    if n > lo {
        lemma_segment_start_run(p, lo, n - 1);
    }
}

proof fn lemma_last_dot(s: Seq<char>, n: int)
    requires
        0 <= n <= s.len(),
    ensures
        -1 <= last_dot(s, n) < n,
        last_dot(s, n) >= 0 ==> s[last_dot(s, n)] == '.',
        forall|k: int| last_dot(s, n) < k < n ==> s[k] != '.',
    decreases n,
{
    if n > 0 && s[n - 1] != '.' {
        lemma_last_dot(s, n - 1);
    }
}

/// The dot found is the last one.
proof fn lemma_last_dot_at(s: Seq<char>, d: int, n: int)
    requires
        0 <= d < n <= s.len(),
        s[d] == '.',
        forall|k: int| d < k < n ==> s[k] != '.',
    ensures
        last_dot(s, n) == d,
    decreases n,
{
    if n > d + 1 {
        lemma_last_dot_at(s, d, n - 1);
    }
}

/// Bounds of the last segment of `p`.
proof fn lemma_name_bounds(p: Seq<char>)
    ensures
        0 <= name_start(p) <= name_end(p) <= p.len(),
        forall|k: int| name_start(p) <= k < name_end(p) ==> p[k] != '/',
        name_start(p) > 0 ==> p[name_start(p) - 1] == '/',
{
    lemma_trimmed_len(p, p.len() as int);
    lemma_segment_start(p, name_end(p));
}

/// Bounds of a stem within its file name.
proof fn lemma_stem_bounds(name: Seq<char>)
    requires
        name.len() > 0,
    ensures
        0 < stem_len(name) <= name.len(),
        last_dot(name, name.len() as int) > 0 ==> name[stem_len(name)] == '.',
{
    lemma_last_dot(name, name.len() as int);
}

/// Replacing the extension by `pdf` a second time changes nothing.
pub proof fn lemma_replace_ext_idempotent(p: Seq<char>)
    ensures
        with_pdf_extension(with_pdf_extension(p)) == with_pdf_extension(p),
{
    if let Some(name) = file_name_of(p) {
        lemma_name_bounds(p);
        lemma_stem_bounds(name);
        let st = name_start(p);
        let a = st + stem_len(name);
        let q = with_pdf_extension(p);
        assert(q == p.subrange(0, a) + pdf_suffix());
        assert(q.len() == a + 4);
        assert(q.last() == 'f');
        assert(name_end(q) == q.len());
        assert forall|k: int| st <= k < q.len() implies q[k] != '/' by {
            if k < a {
                assert(q[k] == p[k]);
                assert(name[k - st] == p[k]);
            }
        }
        assert(st > 0 ==> q[st - 1] == p[st - 1]);
        lemma_segment_start_run(q, st, q.len() as int);
        let name2 = q.subrange(st, q.len() as int);
        assert(name2.len() >= 5);
        assert(name2.len() != 1 && name2.len() != 2);
        assert(file_name_of(q) == Some(name2));
        assert(name2[name2.len() - 4] == '.');
        lemma_last_dot_at(name2, name2.len() - 4, name2.len() as int);
        assert(stem_len(name2) == stem_len(name));
        assert(q.subrange(0, a) =~= p.subrange(0, a));
        assert(with_pdf_extension(q) =~= q);
    }
}

/// Length of `p` without its trailing separators and `.` segments.
fn trimmed_end(p: &str) -> (r: usize)
    ensures
        r == name_end(p@),
{
    let mut i: usize = p.unicode_len();
    let mut done = false;
    while !done
        invariant
            i <= p@.len(),
            trimmed_len(p@, i as int) == name_end(p@),
            done ==> trimmed_len(p@, i as int) == i,
        decreases 2 * i + if done { 0int } else { 1int },
    {
        if i > 0 && p.get_char(i - 1) == '/' {
            i = i - 1;
        } else if i >= 2 && p.get_char(i - 1) == '.' && p.get_char(i - 2) == '/' {
            i = i - 2;
        } else {
            done = true;
        }
    }
    i
}

/// Start of the segment of `p` that ends at `n`.
fn segment_begin(p: &str, n: usize) -> (r: usize)
    requires
        n <= p@.len(),
    ensures
        r == segment_start(p@, n as int),
{
    let mut i: usize = n;
    while i > 0 && p.get_char(i - 1) != '/'
        invariant
            i <= n <= p@.len(),
            segment_start(p@, i as int) == segment_start(p@, n as int),
        decreases i,
    {
        i = i - 1;
    }
    i
}

/// Position of the last dot in `s`, or `None`.
fn last_dot_pos(s: &str) -> (r: Option<usize>)
    ensures
        match r {
            None => last_dot(s@, s@.len() as int) == -1,
            Some(d) => last_dot(s@, s@.len() as int) == d,
        },
{
    let mut i: usize = s.unicode_len();
    while i > 0 && s.get_char(i - 1) != '.'
        invariant
            i <= s@.len(),
            last_dot(s@, i as int) == last_dot(s@, s@.len() as int),
        decreases i,
    {
        i = i - 1;
    }
    if i == 0 {
        None
    } else {
        Some(i - 1)
    }
}

/// Start and end of the file name of `p`, when it names one.
fn file_name_span(p: &str) -> (r: Option<(usize, usize)>)
    ensures
        match r {
            None => file_name_of(p@) is None,
            Some((s, e)) => {
                &&& file_name_of(p@) is Some
                &&& s <= e <= p@.len()
                &&& s == name_start(p@)
                &&& e == name_end(p@)
            },
        },
{
    proof {
        lemma_name_bounds(p@);
    }
    let e = trimmed_end(p);
    let s = segment_begin(p, e);
    let ghost name = p@.subrange(s as int, e as int);
    if e - s == 1 && p.get_char(s) == '.' {
        assert(name =~= seq!['.']);
        return None;
    }
    if e - s == 2 && p.get_char(s) == '.' && p.get_char(s + 1) == '.' {
        assert(name =~= seq!['.', '.']);
        return None;
    }
    if e == s {
        return None;
    }
    assert(name.len() == 1 ==> name != seq!['.']) by {
        if name.len() == 1 && name == seq!['.'] {
            assert(name[0] == '.');
        }
    }
    assert(name.len() == 2 ==> name != seq!['.', '.']) by {
        if name.len() == 2 && name == seq!['.', '.'] {
            assert(name[0] == '.' && name[1] == '.');
        }
    }
    Some((s, e))
}

/// Replaces the extension of the file that `path` names by `.pdf`.
pub fn replace_ext(path: &str) -> (r: String)
    ensures
        r@ == with_pdf_extension(path@),
{
    match file_name_span(path) {
        None => String::from_str(path),
        Some((s, e)) => {
            let name = path.substring_char(s, e);
            proof {
                lemma_name_bounds(path@);
                lemma_stem_bounds(name@);
            }
            let stem: usize = match last_dot_pos(name) {
                Some(d) if d > 0 => d,
                _ => e - s,
            };
            let mut r = String::from_str(path.substring_char(0, s + stem));
            let suffix = ".pdf";
            proof {
                reveal_strlit(".pdf");
            }
            assert(suffix@ =~= pdf_suffix());
            r.append(suffix);
            r
        },
    }
}

/// Replaces the extension of the file that `path` names by `.pdf`, and
/// returns that file name alone.
pub fn file_name(path: &str) -> (r: Result<String, HtopError>)
    ensures
        match file_name_of(with_pdf_extension(path@)) {
            Some(name) => r is Ok && r->Ok_0@ == name,
            None => r is Err && r->Err_0@ == file_name_message(path@),
        },
{
    let out = replace_ext(path);
    let o = out.as_str();
    match file_name_span(o) {
        None => Err(err_file_name(path)),
        Some((s, e)) => {
            proof {
                lemma_name_bounds(o@);
            }
            Ok(String::from_str(o.substring_char(s, e)))
        },
    }
}

/// Tells whether the file that `path` names has the extension `html`, exactly.
pub fn has_html_extension(path: &str) -> (r: bool)
    ensures
        r == (extension_of(path@) == Some(html_extension())),
{
    match file_name_span(path) {
        None => false,
        Some((s, e)) => {
            let name = path.substring_char(s, e);
            proof {
                lemma_name_bounds(path@);
                lemma_stem_bounds(name@);
                lemma_last_dot(name@, name@.len() as int);
            }
            match last_dot_pos(name) {
                Some(d) if d > 0 => {
                    let ext = String::from_str(name.substring_char(d + 1, e - s));
                    let html = String::from_str("html");
                    proof {
                        reveal_strlit("html");
                    }
                    assert(html@ =~= html_extension());
                    ext == html
                },
                _ => false,
            }
        },
    }
}

/// Builds the file URL of `file_path` from the outcome of making it absolute:
/// the absolute path, or the reason that failed.
pub fn file_url(file_path: &str, canonical: &Result<String, String>) -> (r: Result<
    String,
    HtopError,
>)
    ensures
        match canonical {
            Ok(absolute) => r is Ok && r->Ok_0@ == file_url_of(absolute@),
            Err(reason) => r is Err && r->Err_0@ == canonicalize_message(file_path@, reason@),
        },
{
    match canonical {
        Ok(absolute) => {
            let mut url = String::from_str("file://");
            url.append(absolute.as_str());
            Ok(url)
        },
        Err(reason) => Err(err_canonicalize(file_path, reason.clone())),
    }
}

/// Joins a directory and a file name with one separator.
pub fn join(dir: &str, name: &str) -> (r: String)
    ensures
        r@ == join_path(dir@, name@),
{
    let mut r = String::from_str(dir);
    let n = dir.unicode_len();
    if n > 0 && dir.get_char(n - 1) != '/' {
        let sep = "/";
        proof {
            reveal_strlit("/");
        }
        assert(sep@ =~= seq!['/']);
        r.append(sep);
    }
    r.append(name);
    r
}

} // verus!
