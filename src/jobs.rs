//! The list of conversions to run: one for a single file, one for each HTML
//! file directly inside a directory.

use crate::errors::{canonicalize_message, file_name_message, HtopError};
use crate::utils::{
    extension_of, file_name, file_name_of, file_url, file_url_of, has_html_extension,
    html_extension, join, join_path, replace_ext, with_pdf_extension,
};
use vstd::prelude::*;

verus! {

/// Conversions to run, in order: each is an input URL and an output path.
pub type Files = Vec<(String, String)>;

/// One entry of a listed directory, as the file system reported it.
#[derive(Debug)]
pub struct ListedEntry {
    /// The entry's path: the directory joined with the entry's name.
    pub path: String,
    /// Whether the entry is a regular file.
    pub is_file: bool,
    /// The entry's absolute path, or the reason it could not be made absolute.
    pub canonical: Result<String, String>,
}

/// A view of an optional directory.
pub open spec fn opt_view(d: Option<&str>) -> Option<Seq<char>> {
    match d {
        Some(s) => Some(s@),
        None => None,
    }
}

/// The job of a single input file: its file URL, and the output file given or,
/// without one, the input with its extension replaced by `pdf`.
pub open spec fn single_model(
    input: Seq<char>,
    output: Option<Seq<char>>,
    canonical: Result<String, String>,
) -> core::result::Result<(Seq<char>, Seq<char>), Seq<char>> {
    match canonical {
        Err(reason) => Err(canonicalize_message(input, reason@)),
        Ok(absolute) => Ok(
            (
                file_url_of(absolute@),
                match output {
                    Some(o) => o,
                    None => with_pdf_extension(input),
                },
            ),
        ),
    }
}

/// Whether batch mode converts an entry: a regular file with extension `html`.
pub open spec fn selected(e: ListedEntry) -> bool {
    e.is_file && extension_of(e.path@) == Some(html_extension())
}

/// The job of a selected entry: its file URL, and the entry's path with the
/// extension replaced by `pdf`, or, with an output directory, that file name
/// within it.
pub open spec fn entry_job(e: ListedEntry, out_dir: Option<Seq<char>>) -> core::result::Result<
    (Seq<char>, Seq<char>),
    Seq<char>,
> {
    match e.canonical {
        Err(reason) => Err(canonicalize_message(e.path@, reason@)),
        Ok(absolute) => match out_dir {
            None => Ok((file_url_of(absolute@), with_pdf_extension(e.path@))),
            Some(d) => match file_name_of(with_pdf_extension(e.path@)) {
                None => Err(file_name_message(e.path@)),
                Some(name) => Ok((file_url_of(absolute@), join_path(d, name))),
            },
        },
    }
}

/// The jobs of the selected entries, in order, or the error of the first
/// selected entry that has none.
pub open spec fn batch_model(es: Seq<ListedEntry>, out_dir: Option<Seq<char>>) -> core::result::Result<
    Seq<(Seq<char>, Seq<char>)>,
    Seq<char>,
>
    decreases es.len(),
{
    if es.len() == 0 {
        Ok(seq![])
    } else {
        match batch_model(es.drop_last(), out_dir) {
            Err(m) => Err(m),
            Ok(js) => if selected(es.last()) {
                match entry_job(es.last(), out_dir) {
                    Ok(j) => Ok(js.push(j)),
                    Err(m) => Err(m),
                }
            } else {
                Ok(js)
            },
        }
    }
}

/// Each selected entry, and no other, gives exactly one job, in the order of
/// the listing.
pub proof fn lemma_batch_one_job_per_selected(es: Seq<ListedEntry>, out_dir: Option<Seq<char>>)
    ensures
        batch_model(es, out_dir) is Ok ==> {
            let js = batch_model(es, out_dir)->Ok_0;
            let chosen = es.filter(|e: ListedEntry| selected(e));
            &&& js.len() == chosen.len()
            &&& forall|k: int| 0 <= k < js.len() ==> entry_job(#[trigger] chosen[k], out_dir) == Ok::<
                (Seq<char>, Seq<char>),
                Seq<char>,
            >(js[k])
        },
    decreases es.len(),
{
    let pred = |e: ListedEntry| selected(e);
    if es.len() == 0 {
        reveal(Seq::filter);
    } else {
        lemma_batch_one_job_per_selected(es.drop_last(), out_dir);
        assert(es.drop_last().push(es.last()) =~= es);
        es.drop_last().lemma_filter_push(es.last(), pred);
    }
}

/// Once a prefix of the listing fails, the whole listing fails the same way.
proof fn lemma_batch_error_persists(es: Seq<ListedEntry>, n: int, out_dir: Option<Seq<char>>)
    requires
        0 <= n <= es.len(),
        batch_model(es.take(n), out_dir) is Err,
    ensures
        batch_model(es, out_dir) == batch_model(es.take(n), out_dir),
    decreases es.len(),
{
    if es.len() == n {
        assert(es.take(n) =~= es);
    } else {
        assert(es.drop_last().take(n) =~= es.take(n));
        lemma_batch_error_persists(es.drop_last(), n, out_dir);
    }
}

/// The job of a single input file, from the outcome of making it absolute.
pub fn single_job(input_file: &str, output_file: Option<String>, canonical: &Result<
    String,
    String,
>) -> (r: Result<Files, HtopError>)
    ensures
        match single_model(input_file@, opt_string_view(output_file), *canonical) {
            Ok(j) => r is Ok && r->Ok_0.deep_view() == seq![j],
            Err(m) => r is Err && r->Err_0@ == m,
        },
{
    match file_url(input_file, canonical) {
        Err(e) => Err(e),
        Ok(url) => {
            let output = match output_file {
                Some(o) => o,
                None => replace_ext(input_file),
            };
            let files = vec![(url, output)];
            assert(files.deep_view() =~= seq![(files@[0].0@, files@[0].1@)]);
            Ok(files)
        },
    }
}

/// A view of an optional string.
pub open spec fn opt_string_view(s: Option<String>) -> Option<Seq<char>> {
    match s {
        Some(v) => Some(v@),
        None => None,
    }
}

/// The jobs of batch mode: one for each regular file of `entries` whose
/// extension is `html`, in order; the first that fails stops the listing.
pub fn batch_jobs(entries: &Vec<ListedEntry>, output_dir: Option<&str>) -> (r: Result<
    Files,
    HtopError,
>)
    ensures
        match batch_model(entries@, opt_view(output_dir)) {
            Ok(js) => r is Ok && r->Ok_0.deep_view() == js,
            Err(m) => r is Err && r->Err_0@ == m,
        },
{
    let ghost out = opt_view(output_dir);
    let mut files: Files = Vec::new();
    let mut i: usize = 0;
    assert(files.deep_view() =~= seq![]);
    assert(entries@.take(0) =~= seq![]);
    while i < entries.len()
        invariant
            i <= entries@.len(),
            out == opt_view(output_dir),
            batch_model(entries@.take(i as int), out) == Ok::<
                Seq<(Seq<char>, Seq<char>)>,
                Seq<char>,
            >(files.deep_view()),
        decreases entries@.len() - i,
    {
        let e = &entries[i];
        assert(entries@.take(i + 1).drop_last() =~= entries@.take(i as int));
        assert(entries@.take(i + 1).last() == *e);
        if e.is_file && has_html_extension(e.path.as_str()) {
            let url = match file_url(e.path.as_str(), &e.canonical) {
                Ok(u) => u,
                Err(err) => {
                    proof {
                        lemma_batch_error_persists(entries@, i + 1, out);
                    }
                    return Err(err);
                },
            };
            let output = match output_dir {
                None => replace_ext(e.path.as_str()),
                Some(d) => match file_name(e.path.as_str()) {
                    Ok(name) => join(d, name.as_str()),
                    Err(err) => {
                        proof {
                            lemma_batch_error_persists(entries@, i + 1, out);
                        }
                        return Err(err);
                    },
                },
            };
            let ghost before = files.deep_view();
            files.push((url, output));
            assert(files.deep_view() =~= before.push((url@, output@)));
        }
        i = i + 1;
    }
    assert(entries@.take(entries@.len() as int) =~= entries@);
    Ok(files)
}

} // verus!
