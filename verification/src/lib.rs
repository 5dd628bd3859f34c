//! Streaming text highlighter: scans a byte stream for a pattern and prints
//! every line, colorizing the ones that match.
//!
//! The crate is organised around three mechanisms: a record/replay wrapper for
//! non-seekable byte sources (`file::ReadRecorder`), a terminator-preserving
//! line splitter (`lines`), and a match-and-print pipeline (`sink`) that is
//! driven by an external search engine and stops cleanly when the output side
//! of a pipe is closed.
use vstd::prelude::*;

pub mod file;
pub mod lines;
pub mod print;
pub mod sink;
pub mod source;

verus! {

/// An error of the whole scan: pattern compilation, the search itself, or
/// printing.
#[derive(Debug)]
pub enum Error {
    /// The pattern is not a valid regular expression; holds the compiler's
    /// message.
    RegexError(String),
    /// The search engine reported a failure; holds its message verbatim.
    SearchError(String),
    /// Printing a line failed with an I/O error other than a broken pipe.
    PrintFailure(String),
}

impl Error {
    /// The message this error shows: a compiler message verbatim, the other
    /// failures with a prefix naming what failed.
    pub open spec fn message_spec(&self) -> Seq<char> {
        match self {
            Error::RegexError(m) => m@,
            Error::SearchError(m) => "Search process encountered a failure: "@ + m@,
            Error::PrintFailure(m) => "Print failure: "@ + m@,
        }
    }

    /// Renders the error for the user; see [`Error::message_spec`].
    pub fn message(&self) -> (r: String)
        ensures
            r@ == self.message_spec(),
    {
        match self {
            Error::RegexError(m) => m.clone(),
            Error::SearchError(m) => {
                let mut s = "Search process encountered a failure: ".to_owned();
                s.append(m.as_str());
                s
            },
            Error::PrintFailure(m) => {
                let mut s = "Print failure: ".to_owned();
                s.append(m.as_str());
                s
            },
        }
    }
}

impl From<sink::Error> for Error {
    /// Lifts a sink error into the scan's error: an engine message stays a
    /// search error, a hard print failure stays a print failure.
    fn from(err: sink::Error) -> (r: Self) {
        match err {
            sink::Error::SearchError(msg) => Error::SearchError(msg),
            sink::Error::PrintFailed(msg) => Error::PrintFailure(msg),
        }
    }
}

impl vstd::std_specs::convert::FromSpecImpl<sink::Error> for Error {
    open spec fn obeys_from_spec() -> bool {
        true
    }

    open spec fn from_spec(err: sink::Error) -> Self {
        match err {
            sink::Error::SearchError(msg) => Error::SearchError(msg),
            sink::Error::PrintFailed(msg) => Error::PrintFailure(msg),
        }
    }
}

#[verifier::external_type_specification]
#[verifier::external_body]
pub struct ExRegexMatcher(grep::regex::RegexMatcher);

/// Whether grep's regular-expression compiler, in its default
/// configuration, accepts the pattern `p`. The compile result is a function
/// of the pattern alone.
pub uninterp spec fn pattern_compiles(p: Seq<char>) -> bool;

/// Relies on grep's `RegexMatcher::new`: it compiles `pattern` with the
/// default configuration or reports why it cannot; whether it succeeds
/// depends on the pattern alone, and the error's `to_string` carries the
/// compiler's message.
#[verifier::external_body]
fn regex_matcher_new(pattern: &str) -> (r: Result<grep::regex::RegexMatcher, String>)
    ensures
        r is Ok <==> pattern_compiles(pattern@),
{
    match grep::regex::RegexMatcher::new(pattern) {
        Ok(m) => Ok(m),
        Err(e) => Err(e.to_string()),
    }
}

/// Compiles the search pattern: a matcher exactly when the compiler accepts
/// the pattern. An invalid expression is surfaced immediately as
/// [`Error::RegexError`] with the compiler's message, and is never retried.
pub fn compile_pattern(pattern: &str) -> (r: Result<grep::regex::RegexMatcher, Error>)
    ensures
        r is Ok <==> pattern_compiles(pattern@),
        r matches Err(e) ==> e matches Error::RegexError(_),
{
    match regex_matcher_new(pattern) {
        Ok(m) => Ok(m),
        Err(msg) => Err(Error::RegexError(msg)),
    }
}

/// Rewrites a pattern so that it matches case-insensitively, by prefixing
/// the inline case-insensitive directive.
pub fn make_pattern_case_insensitive(pattern: &str) -> (r: String)
    ensures
        r@ == "(?i)"@ + pattern@,
{
    let mut s = "(?i)".to_owned();
    s.append(pattern);
    s
}

} // verus!
