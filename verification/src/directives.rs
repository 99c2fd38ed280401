//! Inline directives: `--secs <number>` and `--output <name>` typed inside a
//! prompt override the session's duration and output file.

use vstd::prelude::*;
use vstd::string::StrSliceExecFns;

verus! {

/// The error of the `regex` crate, carried through as it is.
#[verifier::external_type_specification]
#[verifier::external_body]
pub struct ExRegexError(regex::Error);

/// Whether `regex::Regex::new` compiles `pattern`.
pub uninterp spec fn regex_accepts(pattern: Seq<char>) -> bool;

/// The text that capture group `group` of `pattern` took in the match that
/// `regex::Regex::captures` finds in `text`; `None` where the pattern does
/// not match or the group took no part in the match.
pub uninterp spec fn regex_capture(pattern: Seq<char>, text: Seq<char>, group: nat) -> Option<Seq<char>>;

/// The view of an optional string.
pub open spec fn text_of(found: Option<String>) -> Option<Seq<char>> {
    match found {
        Some(s) => Some(s@),
        None => None,
    }
}

/// Compiles `pattern` with `regex::Regex::new`, searches `text` with
/// `Regex::captures` and copies out the text of capture group `group` with
/// `Captures::get`. The contract claims that compilation succeeds exactly
/// for the patterns that `regex_accepts` holds of, and that the text handed
/// back is the one that `regex_capture` names. Nothing is claimed about
/// which patterns are accepted or what they match.
#[verifier::external_body]
fn group_text(pattern: &str, text: &str, group: usize) -> (found: Result<Option<String>, regex::Error>)
    ensures
        found is Ok <==> regex_accepts(pattern@),
        found matches Ok(taken) ==> text_of(taken) == regex_capture(pattern@, text@, group as nat),
{
    match regex::Regex::new(pattern) {
        Err(e) => Err(e),
        Ok(re) => Ok(re.captures(text).and_then(|c| c.get(group)).map(|m| String::from(m.as_str()))),
    }
}

/// The pattern of the duration directive: `--secs`, a space or `=`, digits.
pub const SECS_PATTERN: &'static str = "--secs[ =](\\d+)";

/// The pattern of the output directive: `--output`, a space or `=`, a file
/// name made of letters, dots, underscores and hyphens.
pub const OUTPUT_PATTERN: &'static str = "--output[ =]([.a-zA-Z_-]+)";

/// The text of the first capture group of `pattern` in `text`, where the
/// pattern compiles and matches.
pub open spec fn directive_text(pattern: Seq<char>, text: Seq<char>) -> Option<Seq<char>> {
    if regex_accepts(pattern) {
        regex_capture(pattern, text, 1)
    } else {
        None
    }
}

/// Finds the first capture group of `pattern` in `text`. A pattern that
/// does not compile finds nothing.
pub fn capture(pattern: &str, text: &str) -> (found: Option<String>)
    ensures
        text_of(found) == directive_text(pattern@, text@),
{
    match group_text(pattern, text, 1) {
        Ok(taken) => taken,
        Err(_) => None,
    }
}

/// Whether `pattern` compiles.
pub fn pattern_compiles(pattern: &str) -> (accepted: bool)
    ensures
        accepted == regex_accepts(pattern@),
{
    group_text(pattern, "", 1).is_ok()
}

/// Whether `c` is one of the digits `0` to `9`.
pub open spec fn is_digit(c: char) -> bool {
    '0' <= c && c <= '9'
}

/// The value of a digit.
pub open spec fn digit_value(c: char) -> nat {
    (c as nat - '0' as nat) as nat
}

/// The number that a sequence of digits writes in base ten.
pub open spec fn decimal_value(digits: Seq<char>) -> nat
    decreases digits.len(),
{
    if digits.len() == 0 {
        0
    } else {
        decimal_value(digits.drop_last()) * 10 + digit_value(digits.last())
    }
}

/// Every character is a digit.
pub open spec fn all_digits(text: Seq<char>) -> bool {
    forall|i: int| 0 <= i < text.len() ==> is_digit(#[trigger] text[i])
}

/// The duration that `text` writes: its value in base ten if it is made of
/// digits, at least one, and the value fits the machine word.
pub open spec fn parsed_secs(text: Seq<char>) -> Option<usize> {
    if text.len() > 0 && all_digits(text) && decimal_value(text) <= usize::MAX {
        Some(decimal_value(text) as usize)
    } else {
        None
    }
}

/// A number does not shrink when digits are added to it.
proof fn lemma_decimal_value_grows(digits: Seq<char>, i: int)
    requires
        0 <= i <= digits.len(),
    ensures
        decimal_value(digits.take(i)) <= decimal_value(digits),
    decreases digits.len() - i,
{
    if i == digits.len() {
        assert(digits.take(i) =~= digits);
    } else {
        lemma_decimal_value_grows(digits, i + 1);
        assert(digits.take(i + 1).drop_last() =~= digits.take(i));
    }
}

/// Reads a duration in seconds: digits only, no sign, no blanks. Anything
/// else, and a number too large for the machine word, is `None`.
pub fn parse_secs(text: &str) -> (secs: Option<usize>)
    ensures
        secs == parsed_secs(text@),
{
    let n: usize = text.unicode_len();
    if n == 0 {
        return None;
    }
    let mut value: usize = 0;
    let mut i: usize = 0;
    while i < n
        invariant
            n == text@.len(),
            i <= n,
            all_digits(text@.take(i as int)),
            value == decimal_value(text@.take(i as int)),
        decreases n - i,
    {
        let c: char = text.get_char(i);
        proof {
            assert(text@.take(i as int + 1).drop_last() =~= text@.take(i as int));
            assert(text@.take(i as int + 1).last() == c);
        }
        if c < '0' || c > '9' {
            assert(!is_digit(text@[i as int]));
            return None;
        }
        let digit: usize = (c as u32 - '0' as u32) as usize;
        if value > (usize::MAX - digit) / 10 {
            proof {
                assert(all_digits(text@) ==> decimal_value(text@) > usize::MAX) by {
                    lemma_decimal_value_grows(text@, i as int + 1);
                }
            }
            return None;
        }
        value = value * 10 + digit;
        i = i + 1;
        assert(all_digits(text@.take(i as int))) by {
            assert forall|j: int| 0 <= j < i implies is_digit(#[trigger] text@.take(i as int)[j]) by {
                if j < i - 1 {
                    assert(text@.take(i as int)[j] == text@.take(i as int - 1)[j]);
                }
            }
        }
    }
    assert(text@.take(n as int) =~= text@);
    Some(value)
}

/// The duration that a duration directive in `text` sets, if there is one
/// and its number can be read.
pub open spec fn secs_override(text: Seq<char>) -> Option<usize> {
    match directive_text(SECS_PATTERN@, text) {
        Some(digits) => parsed_secs(digits),
        None => None,
    }
}

/// The output file that an output directive in `text` sets, if there is
/// one.
pub open spec fn output_override(text: Seq<char>) -> Option<Seq<char>> {
    directive_text(OUTPUT_PATTERN@, text)
}

/// Looks for a duration directive in `text`. The first one counts; if its
/// number cannot be read there is no override.
pub fn capture_secs(text: &str) -> (secs: Option<usize>)
    ensures
        secs == secs_override(text@),
{
    match capture(SECS_PATTERN, text) {
        Some(digits) => parse_secs(digits.as_str()),
        None => None,
    }
}

/// Looks for an output directive in `text`. The first one counts.
pub fn capture_output(text: &str) -> (output: Option<String>)
    ensures
        text_of(output) == output_override(text@),
{
    capture(OUTPUT_PATTERN, text)
}

} // verus!
