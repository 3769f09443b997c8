//! Host filters: regular expressions compiled by the `regex` crate.

use crate::inventory::InventoryError;
use regex::Regex;
use vstd::prelude::*;

verus! {

/// `regex::Regex`, a compiled regular expression. Nothing is known of what
/// is inside one.
#[verifier::external_type_specification]
#[verifier::external_body]
pub struct ExRegex(Regex);

/// `regex::Error`, the reason for which a pattern did not compile. It is
/// carried, never looked into.
#[verifier::external_type_specification]
#[verifier::external_body]
pub struct ExRegexError(regex::Error);

/// Whether `Regex::new` accepts `pattern`, in this build of the library.
pub uninterp spec fn filter_compiles(pattern: Seq<char>) -> bool;

/// Whether the regex that `Regex::new` makes of `pattern` finds a match
/// anywhere in `line`.
pub uninterp spec fn filter_matches(pattern: Seq<char>, line: Seq<char>) -> bool;

/// Whether `Regex::is_match` finds a match of this regex anywhere in `line`.
pub uninterp spec fn regex_matches(re: Regex, line: Seq<char>) -> bool;

/// Whether a filter text can be used: the empty text always can, any other
/// if it compiles.
pub open spec fn filter_usable(pattern: Seq<char>) -> bool {
    pattern.len() == 0 || filter_compiles(pattern)
}

/// Whether a filter lets a line through: the empty filter lets every line
/// through, any other those in which it finds a match.
pub open spec fn filter_accepts(pattern: Seq<char>, line: Seq<char>) -> bool {
    pattern.len() == 0 || filter_matches(pattern, line)
}

/// Calls `Regex::new`. The contract claims that success depends on the
/// pattern text alone, and so does what the compiled regex matches; and, as
/// the crate documents, that the empty pattern compiles and matches in
/// every text.
#[verifier::external_body]
fn regex_new(pattern: &str) -> (result: Result<Regex, regex::Error>)
    ensures
        result is Ok <==> filter_compiles(pattern@),
        pattern@.len() == 0 ==> result is Ok,
        result matches Ok(re) ==> forall|line: Seq<char>| #[trigger]
            regex_matches(re, line) == filter_matches(pattern@, line),
        result matches Ok(re) ==> pattern@.len() == 0 ==> forall|line: Seq<char>| #[trigger]
            regex_matches(re, line),
{
    Regex::new(pattern)
}

/// Calls `Regex::is_match`. The contract claims that the answer depends on
/// the regex and the searched line alone.
#[verifier::external_body]
fn regex_is_match(re: &Regex, line: &str) -> (result: bool)
    ensures
        result == regex_matches(*re, line@),
{
    re.is_match(line)
}

/// A compiled host filter. One is made from its text only, so that it
/// matches as its text says.
pub struct HostFilter {
    regex: Regex,
    pattern: Ghost<Seq<char>>,
}

impl View for HostFilter {
    type V = Seq<char>;

    /// The text the filter was compiled from.
    closed spec fn view(&self) -> Seq<char> {
        self.pattern@
    }
}

impl HostFilter {
    /// The compiled regex finds a match in exactly the lines that the
    /// filter's text lets through.
    #[verifier::type_invariant]
    spec fn matches_as_its_text_says(self) -> bool {
        forall|line: Seq<char>| #[trigger]
            regex_matches(self.regex, line) == filter_accepts(self.pattern@, line)
    }

    /// Compiles a filter text.
    pub fn new(pattern: &str) -> (result: Result<HostFilter, InventoryError>)
        ensures
            result is Ok <==> filter_usable(pattern@),
            result matches Ok(filter) ==> filter@ == pattern@,
            result is Err ==> result == Err::<HostFilter, InventoryError>(
                InventoryError::InvalidFilter,
            ),
    {
        match regex_new(pattern) {
            Ok(regex) => Ok(HostFilter { regex, pattern: Ghost(pattern@) }),
            Err(_) => Err(InventoryError::InvalidFilter),
        }
    }

    /// Tells whether the filter lets a line through.
    pub fn is_match(&self, line: &str) -> (result: bool)
        ensures
            result == filter_accepts(self@, line@),
    {
        proof {
            use_type_invariant(self);
        }
        regex_is_match(&self.regex, line)
    }
}

} // verus!
