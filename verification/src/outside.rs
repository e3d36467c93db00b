//! The calls this library makes into std's path and string handling and into
//! the `regex` and `fuzzy-matcher` crates, each with the contract it is
//! trusted to meet.

use fuzzy_matcher::skim::SkimMatcherV2;
use fuzzy_matcher::FuzzyMatcher;
use vstd::prelude::*;

verus! {

// ---------------------------------------------------------------------------
// Names for results that take pages to state.

/// The last component of `path`, as text (`Path::file_name` then `OsStr::to_str`).
pub uninterp spec fn path_file_name(path: Seq<char>) -> Option<Seq<char>>;

/// The extension of `path`, as text (`Path::extension` then `OsStr::to_str`).
pub uninterp spec fn path_extension(path: Seq<char>) -> Option<Seq<char>>;

/// The Unicode lowercase form of `s` (`str::to_lowercase`).
pub uninterp spec fn unicode_lowercase(s: Seq<char>) -> Seq<char>;

/// Whether `regex::Regex::new` accepts `pattern`.
pub uninterp spec fn regex_compiles(pattern: Seq<char>) -> bool;

/// Whether the regex compiled from `pattern` matches somewhere in `haystack`.
pub uninterp spec fn regex_finds(pattern: Seq<char>, haystack: Seq<char>) -> bool;

/// The score that `SkimMatcherV2::default().fuzzy_match(choice, pattern)` gives.
pub uninterp spec fn skim_fuzzy_score(choice: Seq<char>, pattern: Seq<char>) -> Option<i64>;

/// The text an optional string holds.
pub open spec fn opt_view(r: Option<String>) -> Option<Seq<char>> {
    match r {
        Some(s) => Some(s@),
        None => None,
    }
}

// ---------------------------------------------------------------------------
// Short facts the documentation and the sources give.

/// The index of the last `c` in `s`, or -1 where there is none.
pub open spec fn last_index_of(s: Seq<char>, c: char) -> int
    decreases s.len(),
{
    if s.len() == 0 {
        -1
    } else if s.last() == c {
        s.len() - 1
    } else {
        last_index_of(s.drop_last(), c)
    }
}

/// The extension of a file name as `Path::extension` documents it: none where
/// the name holds no `.`, none where its only `.` is the first character, and
/// otherwise the text after the last `.`.
pub open spec fn extension_of_name(name: Seq<char>) -> Option<Seq<char>> {
    let i = last_index_of(name, '.');
    if i <= 0 {
        None
    } else {
        Some(name.skip(i + 1))
    }
}

/// `c` with `A`..`Z` mapped to `a`..`z`.
pub open spec fn ascii_lower_char(c: char) -> char {
    if 'A' <= c && c <= 'Z' {
        ((c as u32) + 32) as char
    } else {
        c
    }
}

/// `s` with each ASCII capital letter made small and every other character kept.
pub open spec fn ascii_lowercase(s: Seq<char>) -> Seq<char> {
    Seq::new(s.len(), |i: int| ascii_lower_char(s[i]))
}

/// Whether every character of `s` is ASCII.
pub open spec fn is_ascii_text(s: Seq<char>) -> bool {
    forall|i: int| 0 <= i < s.len() ==> #[trigger] s[i] <= '\x7f'
}

/// Whether `s` holds an ASCII capital letter.
pub open spec fn has_ascii_upper(s: Seq<char>) -> bool {
    exists|i: int| 0 <= i < s.len() && 'A' <= #[trigger] s[i] && s[i] <= 'Z'
}

/// Character equality as the skim matcher uses it: exact when
/// `case_sensitive`, else up to ASCII case.
pub open spec fn skim_char_eq(c: char, p: char, case_sensitive: bool) -> bool {
    if case_sensitive {
        c == p
    } else {
        ascii_lower_char(c) == ascii_lower_char(p)
    }
}

/// Whether `pattern` can be found, in order, among the characters of `choice`.
pub open spec fn skim_subsequence(choice: Seq<char>, pattern: Seq<char>, case_sensitive: bool) -> bool
    decreases choice.len(),
{
    if pattern.len() == 0 {
        true
    } else if choice.len() == 0 {
        false
    } else if skim_char_eq(choice[0], pattern[0], case_sensitive) {
        skim_subsequence(choice.drop_first(), pattern.drop_first(), case_sensitive)
    } else {
        skim_subsequence(choice.drop_first(), pattern, case_sensitive)
    }
}

/// Whether the default skim matcher finds `pattern` in `choice`: the pattern
/// must be a subsequence of the choice, compared exactly when the pattern holds
/// an ASCII capital and up to ASCII case otherwise ("smart case").
pub open spec fn skim_matches(choice: Seq<char>, pattern: Seq<char>) -> bool {
    skim_subsequence(choice, pattern, has_ascii_upper(pattern))
}

// ---------------------------------------------------------------------------
// Trusted items.

/// `std::path::Path::file_name`, with the name turned into text. Claimed: the
/// result is the name `path_file_name` gives for the path. Nothing else is
/// claimed of how std splits a path into components.
#[verifier::external_body]
pub(crate) fn file_name_of(path: &str) -> (r: Option<String>)
    ensures
        opt_view(r) == path_file_name(path@),
{
    match std::path::Path::new(path).file_name() {
        Some(n) => n.to_str().map(|s| s.to_string()),
        None => None,
    }
}

/// `std::path::Path::extension`, with the extension turned into text. Claimed,
/// as std documents it: it is the extension of the path's file name (see
/// `extension_of_name`), and there is none where there is no file name.
#[verifier::external_body]
pub(crate) fn extension_of(path: &str) -> (r: Option<String>)
    ensures
        opt_view(r) == path_extension(path@),
        path_file_name(path@) is None ==> r is None,
        path_file_name(path@) matches Some(n) ==> (n != ".."@ ==> opt_view(r)
            == extension_of_name(n)),
{
    match std::path::Path::new(path).extension() {
        Some(e) => e.to_str().map(|s| s.to_string()),
        None => None,
    }
}

/// `str::to_lowercase`. Claimed: the result is `unicode_lowercase` of the
/// argument, and on ASCII text it is the ASCII lowering (Unicode lowercases
/// `A`..`Z` to `a`..`z` and leaves every other ASCII character); the Unicode
/// tables for other characters are not stated.
#[verifier::external_body]
pub(crate) fn lowercase_of(s: &str) -> (r: String)
    ensures
        r@ == unicode_lowercase(s@),
        is_ascii_text(s@) ==> r@ == ascii_lowercase(s@),
{
    s.to_lowercase()
}

/// `str::to_ascii_lowercase`. Claimed, as std documents it: `A`..`Z` become
/// `a`..`z` and every other character stays.
#[verifier::external_body]
pub(crate) fn ascii_lowercase_of(s: &str) -> (r: String)
    ensures
        r@ == ascii_lowercase(s@),
{
    s.to_ascii_lowercase()
}

/// The error `regex::Regex::new` gives for a pattern it refuses.
#[verifier::external_type_specification]
#[verifier::external_body]
pub struct ExRegexError(regex::Error);

/// `regex::Regex::new(pattern)` and then `Regex::is_match(haystack)`.
/// Claimed: the compile succeeds exactly when `regex_compiles` holds, and the
/// answer is `regex_finds`; what a regex matches is not stated.
#[verifier::external_body]
pub(crate) fn regex_search(pattern: &str, haystack: &str) -> (r: Result<bool, regex::Error>)
    ensures
        r is Ok <==> regex_compiles(pattern@),
        r matches Ok(found) ==> found == regex_finds(pattern@, haystack@),
{
    match regex::Regex::new(pattern) {
        Ok(re) => Ok(re.is_match(haystack)),
        Err(e) => Err(e),
    }
}

/// `SkimMatcherV2::default().fuzzy_match(choice, pattern)`. Claimed, as the
/// crate's source shows: an empty pattern scores 0, and a score is given
/// exactly when the pattern is a smart-case subsequence of the choice
/// (`skim_matches`); the score itself is only named.
#[verifier::external_body]
pub(crate) fn skim_fuzzy_match(choice: &str, pattern: &str) -> (r: Option<i64>)
    ensures
        r == skim_fuzzy_score(choice@, pattern@),
        r is Some <==> skim_matches(choice@, pattern@),
        pattern@.len() == 0 ==> r == Some(0i64),
{
    SkimMatcherV2::default().fuzzy_match(choice, pattern)
}

} // verus!
