//! Errors reported by the converter, each carrying a human-readable message.

use vstd::prelude::*;
use vstd::string::StringExecFns;

verus! {

/// Common error: a message that names what failed and why.
#[derive(Debug, Clone, PartialEq, Eq)]
pub struct HtopError(String);

impl View for HtopError {
    type V = Seq<char>;

    closed spec fn view(&self) -> Seq<char> {
        self.0@
    }
}

/// Common result type.
pub type Result<T> = core::result::Result<T, HtopError>;

pub open spec fn invalid_paper_format_message(format_name: Seq<char>) -> Seq<char> {
    "invalid paper format '"@ + format_name + "'"@
}

pub open spec fn headless_chrome_message(reason: Seq<char>) -> Seq<char> {
    "headless chrome failed with reason: "@ + reason
}

pub open spec fn headless_chrome_file_message(input: Seq<char>, reason: Seq<char>) -> Seq<char> {
    "headless chrome failed for file "@ + input + " with reason: "@ + reason
}

pub open spec fn write_file_message(file_name: Seq<char>, reason: Seq<char>) -> Seq<char> {
    "writing file "@ + file_name + " failed with reason: "@ + reason
}

pub open spec fn canonicalize_message(path: Seq<char>, reason: Seq<char>) -> Seq<char> {
    "canonicalizing failed for path "@ + path + " with reason: "@ + reason
}

pub open spec fn file_name_message(path: Seq<char>) -> Seq<char> {
    "retrieving file name for path "@ + path + " failed"@
}

impl HtopError {
    /// Creates a new error with the given message.
    pub fn new(message: String) -> (r: Self)
        ensures
            r@ == message@,
    {
        Self(message)
    }

    /// Returns the message of this error.
    pub fn message(&self) -> (r: String)
        ensures
            r@ == self@,
    {
        self.0.clone()
    }
}

/// Creates the error for a paper format that is not known.
pub fn err_invalid_paper_format(format_name: &str) -> (r: HtopError)
    ensures
        r@ == invalid_paper_format_message(format_name@),
{
    let mut m = String::from_str("invalid paper format '");
    m.append(format_name);
    m.append("'");
    HtopError::new(m)
}

/// Creates the error that carries a failure reason reported by the browser.
pub fn err_headless_chrome(reason: String) -> (r: HtopError)
    ensures
        r@ == headless_chrome_message(reason@),
{
    let mut m = String::from_str("headless chrome failed with reason: ");
    m.append(reason.as_str());
    HtopError::new(m)
}

/// Creates the error that carries a failure reason reported by the browser
/// while it worked on the given input.
pub fn err_headless_chrome_file(input: &str, reason: String) -> (r: HtopError)
    ensures
        r@ == headless_chrome_file_message(input@, reason@),
{
    let mut m = String::from_str("headless chrome failed for file ");
    m.append(input);
    m.append(" with reason: ");
    m.append(reason.as_str());
    HtopError::new(m)
}

/// Creates the error for a file that could not be written.
pub fn err_write_file(file_name: &str, reason: String) -> (r: HtopError)
    ensures
        r@ == write_file_message(file_name@, reason@),
{
    let mut m = String::from_str("writing file ");
    m.append(file_name);
    m.append(" failed with reason: ");
    m.append(reason.as_str());
    HtopError::new(m)
}

/// Creates the error for a path that could not be made absolute.
pub fn err_canonicalize(path: &str, reason: String) -> (r: HtopError)
    ensures
        r@ == canonicalize_message(path@, reason@),
{
    let mut m = String::from_str("canonicalizing failed for path ");
    m.append(path);
    m.append(" with reason: ");
    m.append(reason.as_str());
    HtopError::new(m)
}

/// Creates the error for a path that names no file.
pub fn err_file_name(path: &str) -> (r: HtopError)
    ensures
        r@ == file_name_message(path@),
{
    let mut m = String::from_str("retrieving file name for path ");
    m.append(path);
    m.append(" failed");
    HtopError::new(m)
}

} // verus!
