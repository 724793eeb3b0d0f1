//! Regular expressions, through the `regex` crate.

use vstd::prelude::*;
use vstd::utf8::encode_utf8;

use crate::text::ascii_bytes;

verus! {

/// A compiled expression over text, `regex::Regex`.
#[verifier::external_type_specification]
#[verifier::external_body]
pub struct ExRegex(regex::Regex);

/// A compiled expression over bytes, `regex::bytes::Regex`.
#[verifier::external_type_specification]
#[verifier::external_body]
pub struct ExBytesRegex(regex::bytes::Regex);

/// Why an expression does not compile, `regex::Error`.
#[verifier::external_type_specification]
#[verifier::external_body]
pub struct ExRegexError(regex::Error);

/// The expression that `regex::RegexBuilder` builds from a pattern when told to
/// ignore case, or `None` where it refuses the pattern.
pub uninterp spec fn insensitive_regex(pattern: Seq<char>) -> Option<regex::Regex>;

/// The matches that `regex::Regex::find_iter` finds in a text, each as the byte
/// positions of its start and its end.
pub uninterp spec fn regex_spans(re: regex::Regex, text: Seq<char>) -> Seq<(usize, usize)>;

/// The expression that `regex::bytes::Regex::new` makes of a pattern, or `None`
/// where it refuses the pattern.
pub uninterp spec fn bytes_regex(pattern: Seq<char>) -> Option<regex::bytes::Regex>;

/// Whether `regex::bytes::Regex::is_match` finds a match.
pub uninterp spec fn bytes_match(re: regex::bytes::Regex, text: Seq<u8>) -> bool;

/// The pattern of a kernel message: a timestamp in brackets, such as
/// `[    0.123456]`, at the start.
pub open spec fn kernel_pattern() -> Seq<char> {
    "^\\[\\s*\\d+\\.\\d+\\]"@
}

/// ASCII white space: tab, line feed, vertical tab, form feed, carriage return
/// and space.
pub open spec fn ascii_space(b: u8) -> bool {
    9 <= b <= 13 || b == 32
}

/// ASCII digits.
pub open spec fn ascii_digit(b: u8) -> bool {
    48 <= b <= 57
}

/// Whether an opening bracket, white space up to `a`, digits up to `b`, a dot,
/// digits up to `c` and a closing bracket stand at the start of a line.
pub open spec fn timestamp_at(line: Seq<u8>, a: int, b: int, c: int) -> bool {
    &&& 1 <= a < b
    &&& b + 1 < c < line.len()
    &&& line[0] == 91
    &&& forall|i: int| 1 <= i < a ==> ascii_space(line[i])
    &&& forall|i: int| a <= i < b ==> ascii_digit(line[i])
    &&& line[b] == 46
    &&& forall|i: int| b + 1 <= i < c ==> ascii_digit(line[i])
    &&& line[c] == 93
}

/// A line that starts with a timestamp in brackets.
pub open spec fn starts_with_timestamp(line: Seq<u8>) -> bool {
    exists|a: int, b: int, c: int| timestamp_at(line, a, b, c)
}

/// Where the matches of an expression in a text can lie: in the text, one
/// behind the other.
pub open spec fn spans_in_order(spans: Seq<(usize, usize)>, text: Seq<char>) -> bool {
    &&& forall|i: int|
        0 <= i < spans.len() ==> (#[trigger] spans[i]).0 <= spans[i].1 <= encode_utf8(text).len()
    &&& forall|i: int, j: int| 0 <= i < j < spans.len() ==> (#[trigger] spans[i]).1 <= (
    #[trigger] spans[j]).0
}

/// Calls `regex::RegexBuilder` with case ignored. Which patterns it refuses, the
/// syntax of the `regex` crate and its size limit decide.
#[verifier::external_body]
pub(crate) fn build_insensitive(pattern: &str) -> (r: Result<regex::Regex, regex::Error>)
    ensures
        r is Ok <==> insensitive_regex(pattern@) is Some,
        r matches Ok(re) ==> insensitive_regex(pattern@) == Some(re),
{
    regex::RegexBuilder::new(pattern).case_insensitive(true).build()
}

/// Calls `regex::Regex::find_iter` and takes the bounds of each match. The
/// matches lie in the text, do not overlap and come from left to right.
#[verifier::external_body]
pub(crate) fn find_spans(re: &regex::Regex, text: &str) -> (r: Vec<(usize, usize)>)
    ensures
        r@ == regex_spans(*re, text@),
        spans_in_order(r@, text@),
{
    re.find_iter(text).map(|m| (m.start(), m.end())).collect()
}

/// Calls `regex::bytes::Regex::new`. The pattern of a kernel message is one that
/// it takes, and it matches a line that begins with a timestamp, whatever follows. On
/// ASCII text it matches nothing else; on other bytes its classes of white space and
/// digits are those of Unicode.
#[verifier::external_body]
pub(crate) fn build_bytes(pattern: &str) -> (r: Result<regex::bytes::Regex, regex::Error>)
    ensures
        r is Ok <==> bytes_regex(pattern@) is Some,
        r matches Ok(re) ==> bytes_regex(pattern@) == Some(re),
        pattern@ == kernel_pattern() ==> r is Ok,
        pattern@ == kernel_pattern() ==> (r matches Ok(re) ==> forall|line: Seq<u8>|
            ascii_bytes(line) ==> bytes_match(re, line) == starts_with_timestamp(line)),
        pattern@ == kernel_pattern() ==> (r matches Ok(re) ==> forall|line: Seq<u8>|
            starts_with_timestamp(line) ==> bytes_match(re, line)),
{
    regex::bytes::Regex::new(pattern)
}

/// Calls `regex::bytes::Regex::is_match`.
#[verifier::external_body]
pub(crate) fn matches_bytes(re: &regex::bytes::Regex, text: &[u8]) -> (r: bool)
    ensures
        r == bytes_match(*re, text@),
{
    re.is_match(text)
}

} // verus!
