//! Text helpers that the rest of the library shares: comparing, lower-casing and
//! decoding text, and writing numbers and truth values as text.

use vstd::prelude::*;
use vstd::string::StringSliceAdditionalSpecFns;
use vstd::utf8::encode_utf8_decode_utf8;

verus! {

/// The lower-case form of a text, as `str::to_lowercase` of the standard library gives it.
pub uninterp spec fn lowercase(text: Seq<char>) -> Seq<char>;

/// A text with its HTML character references replaced by the characters they stand
/// for, as `decode_html_entities` of the crate `html_escape` gives it.
pub uninterp spec fn html_decoded(text: Seq<char>) -> Seq<char>;

/// Trusted: `str::to_lowercase` returns the lower-case equivalent of the text as a new
/// `String`. Which text that is depends on the text alone; the library gives it
/// the name [`lowercase`] and claims nothing more of it.
pub assume_specification[ str::to_lowercase ](text: &str) -> (lowered: String)
    ensures
        lowered@ == lowercase(text@),
;

/// Whether two texts hold the same characters.
pub fn same_text(a: &str, b: &str) -> (same: bool)
    ensures
        same == (a@ == b@),
{
    let left = a.as_bytes();
    let right = b.as_bytes();
    if left.len() != right.len() {
        return false;
    }
    let mut at: usize = 0;
    while at < left.len()
        invariant
            at <= left.len(),
            left.len() == right.len(),
            left@ == a.spec_bytes(),
            right@ == b.spec_bytes(),
            forall|i: int| 0 <= i < at ==> left@[i] == right@[i],
        decreases left.len() - at,
    {
        if left[at] != right[at] {
            return false;
        }
        at += 1;
    }
    proof {
        // Two texts with the same bytes are the same text: bytes decode to one text only.
        assert(left@ =~= right@);
        encode_utf8_decode_utf8(a@);
        encode_utf8_decode_utf8(b@);
    }
    true
}

/// Replaces the HTML character references in `text` (`&amp;`, `&#39;`, `&#x27;` and the
/// like) by the characters they stand for.
///
/// Trusted: wraps `html_escape::decode_html_entities`, which reads nothing but its
/// argument and returns for every text; the result is named [`html_decoded`], and
/// nothing more is claimed of it.
#[verifier::external_body]
pub(crate) fn decode_html(text: &str) -> (decoded: String)
    ensures
        decoded@ == html_decoded(text@),
{
    html_escape::decode_html_entities(text).into_owned()
}

/// Whether two texts are the same once both are in lower case.
pub open spec fn spec_same_ignoring_case(a: Seq<char>, b: Seq<char>) -> bool {
    lowercase(a) == lowercase(b)
}

/// Whether two texts are the same once both are in lower case.
pub fn same_ignoring_case(a: &str, b: &str) -> (same: bool)
    ensures
        same == spec_same_ignoring_case(a@, b@),
{
    let lowered_a = a.to_lowercase();
    let lowered_b = b.to_lowercase();
    lowered_a == lowered_b
}

/// Whether two optional texts are both absent, or both present with the same characters.
pub fn same_optional_text(a: &Option<String>, b: &Option<String>) -> (same: bool)
    ensures
        same == (optional_text(*a) == optional_text(*b)),
{
    match (a, b) {
        (Some(x), Some(y)) => *x == *y,
        (None, None) => true,
        _ => false,
    }
}

/// A copy of an optional text.
pub fn clone_optional_text(text: &Option<String>) -> (copy: Option<String>)
    ensures
        copy == *text,
{
    match text {
        Some(present) => Some(present.clone()),
        None => None,
    }
}

/// The characters of an optional text.
pub open spec fn optional_text(text: Option<String>) -> Option<Seq<char>> {
    match text {
        Some(present) => Some(present@),
        None => None,
    }
}

/// The character that writes a digit.
pub open spec fn digit_char(digit: nat) -> char
    recommends
        digit < 10,
{
    if digit == 0 {
        '0'
    } else if digit == 1 {
        '1'
    } else if digit == 2 {
        '2'
    } else if digit == 3 {
        '3'
    } else if digit == 4 {
        '4'
    } else if digit == 5 {
        '5'
    } else if digit == 6 {
        '6'
    } else if digit == 7 {
        '7'
    } else if digit == 8 {
        '8'
    } else {
        '9'
    }
}

/// A number in decimal: its digits from the most significant to the least, with no
/// leading zero (but `0` itself).
pub open spec fn decimal(number: nat) -> Seq<char>
    decreases number,
{
    if number < 10 {
        seq![digit_char(number)]
    } else {
        decimal(number / 10).push(digit_char(number % 10))
    }
}

/// The text of one digit.
fn digit_text(digit: u32) -> (text: &'static str)
    requires
        digit < 10,
    ensures
        text@ == seq![digit_char(digit as nat)],
{
    proof {
        reveal_strlit("0");
        reveal_strlit("1");
        reveal_strlit("2");
        reveal_strlit("3");
        reveal_strlit("4");
        reveal_strlit("5");
        reveal_strlit("6");
        reveal_strlit("7");
        reveal_strlit("8");
        reveal_strlit("9");
    }
    let text = if digit == 0 {
        "0"
    } else if digit == 1 {
        "1"
    } else if digit == 2 {
        "2"
    } else if digit == 3 {
        "3"
    } else if digit == 4 {
        "4"
    } else if digit == 5 {
        "5"
    } else if digit == 6 {
        "6"
    } else if digit == 7 {
        "7"
    } else if digit == 8 {
        "8"
    } else {
        "9"
    };
    text
}

/// Writes a number in decimal.
pub fn decimal_text(number: u32) -> (text: String)
    ensures
        text@ == decimal(number as nat),
    decreases number,
{
    if number < 10 {
        digit_text(number).to_owned()
    } else {
        let mut text = decimal_text(number / 10);
        text.append(digit_text(number % 10));
        text
    }
}

/// How a truth value is written: `true` or `false`.
pub open spec fn truth(value: bool) -> Seq<char> {
    if value {
        "true"@
    } else {
        "false"@
    }
}

/// Writes a truth value as `true` or `false`.
pub fn truth_text(value: bool) -> (text: &'static str)
    ensures
        text@ == truth(value),
{
    if value {
        "true"
    } else {
        "false"
    }
}

} // verus!
