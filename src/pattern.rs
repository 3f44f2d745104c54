//! Window-name patterns: regular expressions compiled by the `regex` crate.

use vstd::prelude::*;
use vstd::string::*;
use crate::error::{Error, ErrorKind};
use crate::window::{WindowList, Window, is_last_selected, last_selected};

verus! {

/// The `regex` crate's compiled expression, carried as an opaque value.
#[verifier::external_type_specification]
#[verifier::external_body]
pub struct ExRegex(regex::Regex);

/// Whether `regex::Regex::new` accepts a pattern (its syntax is valid and its
/// compiled form fits the default size limit).
pub uninterp spec fn regex_compiles(pattern: Seq<char>) -> bool;

/// Whether the regular expression `pattern` matches somewhere in `haystack`,
/// as `regex::Regex::is_match` decides it.
pub uninterp spec fn regex_finds(pattern: Seq<char>, haystack: Seq<char>) -> bool;

/// Relies on `regex::Regex::new`: it succeeds exactly on the patterns that
/// compile, and its outcome depends on the pattern alone. The crate's error
/// value, which only describes the failure, is dropped.
#[verifier::external_body]
fn compile_regex(pattern: &str) -> (r: Option<regex::Regex>)
    ensures
        r is Some <==> regex_compiles(pattern@),
{
    regex::Regex::new(pattern).ok()
}

/// A compiled window-name pattern together with its source text.
#[derive(Debug)]
pub struct WindowPattern {
    source: String,
    compiled: regex::Regex,
}

impl WindowPattern {
    /// The text of the pattern.
    pub closed spec fn source_view(&self) -> Seq<char> {
        self.source@
    }

    /// Compiles a regular expression; fails with `InvalidPattern` when the
    /// `regex` crate refuses it.
    pub fn new(pattern: &str) -> (r: Result<WindowPattern, Error>)
        ensures
            r is Ok <==> regex_compiles(pattern@),
            r matches Ok(p) ==> p.source_view() == pattern@,
            r matches Err(e) ==> e.kind == ErrorKind::InvalidPattern,
    {
        match compile_regex(pattern) {
            Some(compiled) => Ok(WindowPattern { source: pattern.to_owned(), compiled }),
            None => Err(Error::new(ErrorKind::InvalidPattern, String::from_str("invalid window-name pattern"))),
        }
    }

    /// Relies on `regex::Regex::is_match`: whether the pattern, compiled from
    /// `source` by `WindowPattern::new`, matches somewhere in `haystack`.
    #[verifier::external_body]
    pub(crate) fn is_match(&self, haystack: &str) -> (r: bool)
        ensures
            r == regex_finds(self.source_view(), haystack@),
    {
        self.compiled.is_match(haystack)
    }
}

/// The last window whose name the pattern matches.
pub fn select_by_pattern(windows: &WindowList, pattern: &WindowPattern) -> (r: Option<usize>)
    ensures
        is_last_selected(windows.0@.map_values(|w: Window| regex_finds(pattern.source_view(), w.name@)), r),
{
    let mut selected: Vec<bool> = Vec::new();
    let mut i: usize = 0;
    while i < windows.0.len()
        invariant
            0 <= i <= windows.0@.len(),
            selected@ =~= windows.0@.subrange(0, i as int).map_values(
                |w: Window| regex_finds(pattern.source_view(), w.name@),
            ),
        decreases windows.0@.len() - i,
    {
        selected.push(pattern.is_match(windows.0[i].name.as_str()));
        i = i + 1;
    }
    assert(windows.0@.subrange(0, i as int) =~= windows.0@);
    last_selected(&selected)
}

} // verus!
