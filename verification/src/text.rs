//! Turning values into the text of progress messages.
//!
//! Quoting and lossy decoding are left to the standard library, whose
//! results are named here and never spelled out. Decimal numerals are small
//! enough to state in full, and are proved.

use vstd::prelude::*;

verus! {

/// What formatting a `std::path::Path` with `{:?}` yields for the path
/// written as `path`: the path in double quotes, with escapes.
pub uninterp spec fn path_debug(path: Seq<char>) -> Seq<char>;

/// What formatting a `str` with `{:?}` yields for `text`: the text in double
/// quotes, with escapes.
pub uninterp spec fn text_debug(text: Seq<char>) -> Seq<char>;

/// What `String::from_utf8_lossy` yields for `bytes`: their decoding as
/// UTF-8, with a replacement character for each ill-formed part.
pub uninterp spec fn utf8_lossy(bytes: Seq<u8>) -> Seq<char>;

/// Formats a path with `{:?}`, through `Debug` of `std::path::Path`. The
/// contract only names the result: it is `path_debug` of the text handed in.
#[verifier::external_body]
pub(crate) fn quoted_path(path: &str) -> (quoted: String)
    ensures
        quoted@ == path_debug(path@),
{
    format!("{:?}", std::path::Path::new(path))
}

/// Formats a text with `{:?}`, through `Debug` of `str`. The contract only
/// names the result: it is `text_debug` of the text handed in.
#[verifier::external_body]
pub(crate) fn quoted_text(text: &str) -> (quoted: String)
    ensures
        quoted@ == text_debug(text@),
{
    format!("{:?}", text)
}

/// Calls `String::from_utf8_lossy`. The contract only names the result: it is
/// `utf8_lossy` of the bytes handed in.
#[verifier::external_body]
pub(crate) fn lossy_text(bytes: &[u8]) -> (text: String)
    ensures
        text@ == utf8_lossy(bytes@),
{
    String::from_utf8_lossy(bytes).into_owned()
}

/// The character that writes the digit `d`.
pub open spec fn digit_char(d: nat) -> char
    recommends
        d < 10,
{
    if d == 0 {
        '0'
    } else if d == 1 {
        '1'
    } else if d == 2 {
        '2'
    } else if d == 3 {
        '3'
    } else if d == 4 {
        '4'
    } else if d == 5 {
        '5'
    } else if d == 6 {
        '6'
    } else if d == 7 {
        '7'
    } else if d == 8 {
        '8'
    } else {
        '9'
    }
}

/// The decimal numeral of `n`: no sign, no leading zero, `"0"` for zero.
pub open spec fn decimal_digits(n: nat) -> Seq<char>
    decreases n,
{
    if n < 10 {
        seq![digit_char(n)]
    } else {
        decimal_digits(n / 10).push(digit_char(n % 10))
    }
}

/// The one-character text of a digit.
fn digit_text(d: u32) -> (text: &'static str)
    requires
        d < 10,
    ensures
        text@ == seq![digit_char(d as nat)],
{
    proof {
        reveal_strlit("0");
        reveal_strlit("1");
        reveal_strlit("2");
        reveal_strlit("3");
        reveal_strlit("4");
        reveal_strlit("5");
        reveal_strlit("6");
        reveal_strlit("7");
        reveal_strlit("8");
        reveal_strlit("9");
    }
    let text = if d == 0 {
        "0"
    } else if d == 1 {
        "1"
    } else if d == 2 {
        "2"
    } else if d == 3 {
        "3"
    } else if d == 4 {
        "4"
    } else if d == 5 {
        "5"
    } else if d == 6 {
        "6"
    } else if d == 7 {
        "7"
    } else if d == 8 {
        "8"
    } else {
        "9"
    };
    assert(text@ =~= seq![digit_char(d as nat)]);
    text
}

/// Writes `n` as a decimal numeral.
pub fn decimal(n: u32) -> (text: String)
    ensures
        text@ == decimal_digits(n as nat),
    decreases n,
{
    if n < 10 {
        String::from_str(digit_text(n))
    } else {
        let mut text = decimal(n / 10);
        text.append(digit_text(n % 10));
        assert(text@ =~= decimal_digits((n / 10) as nat).push(digit_char((n % 10) as nat)));
        text
    }
}

} // verus!
