//! Regular-expression and path operations of the outside world, each behind one trusted
//! wrapper whose result is named.
//!
//! A pattern is compiled with `regex::Regex::new` inside each wrapper; the wrappers give
//! `None` when the pattern does not compile.
use vstd::prelude::*;

use crate::pending_work::project_registry::opt_view;
use crate::text::string_views;

verus! {

/// The text with the first match of `pattern` replaced by `replacement` (with `$` group
/// expansion), as `Regex::replace` computes it; `None` when `pattern` does not compile.
pub uninterp spec fn regex_replace_first(
    pattern: Seq<char>,
    text: Seq<char>,
    replacement: Seq<char>,
) -> Option<Seq<char>>;

/// The text with every match of `pattern` replaced, as `Regex::replace_all` computes it;
/// `None` when `pattern` does not compile.
pub uninterp spec fn regex_replace_every(
    pattern: Seq<char>,
    text: Seq<char>,
    replacement: Seq<char>,
) -> Option<Seq<char>>;

/// The pieces of the text between matches of `pattern`, as `Regex::split` yields them;
/// `None` when `pattern` does not compile.
pub uninterp spec fn regex_split_text(pattern: Seq<char>, text: Seq<char>) -> Option<Seq<Seq<char>>>;

/// The first capture group of each successive match of `pattern`, as `Regex::captures_iter`
/// yields them, empty where the group did not take part; `None` when `pattern` does not
/// compile.
pub uninterp spec fn regex_first_groups(pattern: Seq<char>, text: Seq<char>) -> Option<Seq<Seq<char>>>;

/// The first capture group of the first match of `pattern`, as `Regex::captures` finds it:
/// `Some(None)` when nothing matches or the group did not take part; `None` when `pattern`
/// does not compile.
pub uninterp spec fn regex_first_group(pattern: Seq<char>, text: Seq<char>) -> Option<Option<Seq<char>>>;

/// The file stem of a path as `Path::file_stem` computes it (path syntax as on Unix targets,
/// where only `/` separates components).
pub uninterp spec fn path_file_stem(path: Seq<char>) -> Option<Seq<char>>;

/// `Regex::replace`: replaces the first match of `pattern` in `text`; what it returns is the
/// name `regex_replace_first`.
#[verifier::external_body]
pub fn replace_first(pattern: &str, text: &str, replacement: &str) -> (r: Option<String>)
    ensures
        opt_view(r) == regex_replace_first(pattern@, text@, replacement@),
{
    match regex::Regex::new(pattern) {
        Ok(re) => Some(re.replace(text, replacement).into_owned()),
        Err(_) => None,
    }
}

/// `Regex::replace_all`: replaces every match of `pattern` in `text`; what it returns is the
/// name `regex_replace_every`.
#[verifier::external_body]
pub fn replace_every(pattern: &str, text: &str, replacement: &str) -> (r: Option<String>)
    ensures
        opt_view(r) == regex_replace_every(pattern@, text@, replacement@),
{
    match regex::Regex::new(pattern) {
        Ok(re) => Some(re.replace_all(text, replacement).into_owned()),
        Err(_) => None,
    }
}

/// `Regex::split`: the pieces of `text` between matches of `pattern`; what it returns is the
/// name `regex_split_text`.
#[verifier::external_body]
pub fn split_text(pattern: &str, text: &str) -> (r: Option<Vec<String>>)
    ensures
        match r {
            Some(v) => regex_split_text(pattern@, text@) == Some(string_views(v@)),
            None => regex_split_text(pattern@, text@) is None,
        },
{
    match regex::Regex::new(pattern) {
        Ok(re) => Some(re.split(text).map(|piece| piece.to_string()).collect()),
        Err(_) => None,
    }
}

/// `Regex::captures_iter`: the first group of each match of `pattern` in `text`; what it
/// returns is the name `regex_first_groups`.
#[verifier::external_body]
pub fn first_groups(pattern: &str, text: &str) -> (r: Option<Vec<String>>)
    ensures
        match r {
            Some(v) => regex_first_groups(pattern@, text@) == Some(string_views(v@)),
            None => regex_first_groups(pattern@, text@) is None,
        },
{
    match regex::Regex::new(pattern) {
        Ok(re) => Some(
            re.captures_iter(text).map(|c| c.get(1).map_or("", |m| m.as_str()).to_string()).collect(),
        ),
        Err(_) => None,
    }
}

/// `Regex::captures`: the first group of the first match of `pattern` in `text`; what it
/// returns is the name `regex_first_group`.
#[verifier::external_body]
pub fn first_group(pattern: &str, text: &str) -> (r: Option<Option<String>>)
    ensures
        match r {
            Some(g) => regex_first_group(pattern@, text@) == Some(opt_view(g)),
            None => regex_first_group(pattern@, text@) is None,
        },
{
    match regex::Regex::new(pattern) {
        Ok(re) => Some(re.captures(text).and_then(|c| c.get(1)).map(|m| m.as_str().to_string())),
        Err(_) => None,
    }
}

/// `Path::file_stem`: the final component of `path` without its extension, when there is
/// one; what it returns is the name `path_file_stem`.
#[verifier::external_body]
pub fn file_stem_of(path: &str) -> (r: Option<String>)
    ensures
        opt_view(r) == path_file_stem(path@),
{
    std::path::Path::new(path).file_stem().and_then(|stem| stem.to_str()).map(|s| s.to_string())
}

} // verus!
