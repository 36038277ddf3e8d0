//! What this library assumes of the `regex` crate.
//!
//! A pattern language is too large to restate here, so the two results that
//! the library uses are named rather than defined: equal arguments give
//! equal results, and nothing else is known of them.

use vstd::prelude::*;
use regex::{Error, Regex};

verus! {

/// `regex::Regex`, as an opaque type.
#[verifier::external_type_specification]
#[verifier::external_body]
pub struct ExRegex(Regex);

/// `regex::Error`, as an opaque type.
#[verifier::external_type_specification]
#[verifier::external_body]
pub struct ExError(Error);

/// The regex that `Regex::new` builds from `pattern`, or nothing where it
/// rejects the pattern.
pub uninterp spec fn compiled(pattern: Seq<char>) -> Option<Regex>;

/// Whether `Regex::is_match` finds a match of `regex` anywhere in `haystack`.
pub uninterp spec fn matches_in(regex: Regex, haystack: Seq<char>) -> bool;

/// `Regex::new` compiles a pattern under the crate's default limits. Its
/// result depends on the pattern alone: it is the regex named `compiled`, or
/// an error where there is none.
pub assume_specification[ Regex::new ](re: &str) -> (outcome: Result<Regex, Error>)
    ensures
        match outcome {
            Ok(regex) => compiled(re@) == Some(regex),
            Err(_) => compiled(re@) is None,
        },
;

/// `Regex::is_match` says whether the regex matches anywhere in the
/// haystack. Its result depends on the regex and the haystack alone.
pub assume_specification[ Regex::is_match ](regex: &Regex, haystack: &str) -> (matched: bool)
    ensures
        matched == matches_in(*regex, haystack@),
;

} // verus!
