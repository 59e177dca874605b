//! Regular expressions, which this library takes from outside, and the
//! removal of whitespace.

use vstd::prelude::*;
use vstd::string::*;

verus! {

/// `regex::Error`: why a pattern is no regular expression.
#[verifier::external_type_specification]
#[verifier::external_body]
pub struct ExPatternError(regex::Error);

/// Whether `regex::Regex::new` accepts `pattern`.
pub uninterp spec fn pattern_compiles(pattern: Seq<char>) -> bool;

/// Whether the regular expression that `regex::Regex::new` compiles from
/// `pattern` has a match anywhere in `text`, as `regex::Regex::is_match` tells.
pub uninterp spec fn pattern_matches(pattern: Seq<char>, text: Seq<char>) -> bool;

/// Whether a character has the Unicode property `White_Space`: the
/// controls from tab to carriage return, the space, the next-line control,
/// the no-break space, the Ogham space mark, the spaces from en quad to
/// hair space, the line and paragraph separators, the narrow no-break
/// space, the medium mathematical space and the ideographic space.
pub open spec fn has_white_space_property(c: char) -> bool {
    let code = c as u32;
    ||| 0x0009 <= code <= 0x000D
    ||| code == 0x0020
    ||| code == 0x0085
    ||| code == 0x00A0
    ||| code == 0x1680
    ||| 0x2000 <= code <= 0x200A
    ||| code == 0x2028
    ||| code == 0x2029
    ||| code == 0x202F
    ||| code == 0x205F
    ||| code == 0x3000
}

/// Compiles `pattern` with `regex::Regex::new` and, where that succeeds,
/// asks `regex::Regex::is_match` whether the expression matches in `text`.
/// The contract gives both outcomes their names and claims nothing else:
/// the error comes exactly when the pattern does not compile.
#[verifier::external_body]
pub(crate) fn is_match(pattern: &str, text: &str) -> (r: Result<bool, regex::Error>)
    ensures
        r is Ok <==> pattern_compiles(pattern@),
        r is Ok ==> r->Ok_0 == pattern_matches(pattern@, text@),
{
    match regex::Regex::new(pattern) {
        Ok(expression) => Ok(expression.is_match(text)),
        Err(e) => Err(e),
    }
}

/// Whether a character is whitespace.
pub fn is_whitespace(c: char) -> (r: bool)
    ensures
        r == has_white_space_property(c),
{
    let code: u32 = c as u32;
    (0x0009 <= code && code <= 0x000D) || code == 0x0020 || code == 0x0085 || code == 0x00A0
        || code == 0x1680 || (0x2000 <= code && code <= 0x200A) || code == 0x2028 || code == 0x2029
        || code == 0x202F || code == 0x205F || code == 0x3000
}

/// The outcome of matching `pattern` against `text`: nothing where the
/// pattern is no regular expression.
pub open spec fn match_outcome(pattern: Seq<char>, text: Seq<char>) -> Option<bool> {
    if pattern_compiles(pattern) {
        Some(pattern_matches(pattern, text))
    } else {
        None
    }
}

/// Matches `pattern` against `text`; nothing where the pattern is no regular expression.
pub fn try_match(pattern: &str, text: &str) -> (r: Option<bool>)
    ensures
        r == match_outcome(pattern@, text@),
{
    match is_match(pattern, text) {
        Ok(found) => Some(found),
        Err(_) => None,
    }
}

/// `text` without the characters that have the property `White_Space`.
pub open spec fn without_whitespace(text: Seq<char>) -> Seq<char>
    decreases text.len(),
{
    if text.len() == 0 {
        Seq::empty()
    } else {
        let earlier = without_whitespace(text.drop_last());
        if has_white_space_property(text.last()) {
            earlier
        } else {
            earlier.push(text.last())
        }
    }
}

/// Removes the whitespace from `text`.
pub fn strip_whitespace(text: &str) -> (r: String)
    ensures
        r@ == without_whitespace(text@),
{
    let mut out = String::new();
    let n = text.unicode_len();
    let mut i: usize = 0;
    while i < n
        invariant
            n == text@.len(),
            i <= n,
            out@ == without_whitespace(text@.take(i as int)),
        decreases n - i,
    {
        let c = text.get_char(i);
        assert(text@.take(i + 1).drop_last() =~= text@.take(i as int));
        if !is_whitespace(c) {
            out.append(text.substring_char(i, i + 1));
        }
        i += 1;
    }
    assert(text@.take(n as int) =~= text@);
    out
}

} // verus!
