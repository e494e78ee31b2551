//! Plain-text building blocks of the report: terminal styling,
//! decimal rendering of counters, and the kilobyte figure.

use vstd::prelude::*;
use vstd::string::StringExecFns;

verus! {

// ---------------------------------------------------------------------------
// Terminal styling.
//
// A styled fragment is the fragment wrapped in an ANSI select-graphic-
// rendition prefix and the reset suffix.  The library writes the escape
// sequences itself so that every rendered length is a provable function
// of the input.
// ---------------------------------------------------------------------------

/// Escape prefix that switches the terminal to bright blue.
pub open spec fn bright_blue_code() -> Seq<char> {
    "\u{1b}[94m"@
}

/// Escape prefix that switches the terminal to red.
pub open spec fn red_code() -> Seq<char> {
    "\u{1b}[31m"@
}

/// Escape prefix that switches the terminal to magenta.
pub open spec fn magenta_code() -> Seq<char> {
    "\u{1b}[35m"@
}

/// Escape suffix that resets the terminal's colours.
pub open spec fn reset_code() -> Seq<char> {
    "\u{1b}[0m"@
}

/// A fragment wrapped in a colour prefix and the reset suffix.
pub open spec fn styled(code: Seq<char>, s: Seq<char>) -> Seq<char> {
    code + s + reset_code()
}

pub open spec fn bright_blue_spec(s: Seq<char>) -> Seq<char> {
    styled(bright_blue_code(), s)
}

/// Every colour prefix is five characters and the reset four, so a
/// styled fragment is nine characters longer than its content.
pub proof fn lemma_styled_len(s: Seq<char>)
    ensures
        bright_blue_spec(s).len() == s.len() + 9,
        styled(red_code(), s).len() == s.len() + 9,
        styled(magenta_code(), s).len() == s.len() + 9,
{
    reveal_strlit("\u{1b}[94m");
    reveal_strlit("\u{1b}[31m");
    reveal_strlit("\u{1b}[35m");
    reveal_strlit("\u{1b}[0m");
}

/// Wraps `s` in the bright-blue escape prefix and the reset suffix.
pub fn bright_blue(s: &str) -> (r: String)
    ensures
        r@ == bright_blue_spec(s@),
{
    let mut r = String::from_str("\u{1b}[94m");
    r.append(s);
    r.append("\u{1b}[0m");
    r
}

/// Wraps `s` in the red escape prefix and the reset suffix.
pub fn red(s: &str) -> (r: String)
    ensures
        r@ == styled(red_code(), s@),
{
    let mut r = String::from_str("\u{1b}[31m");
    r.append(s);
    r.append("\u{1b}[0m");
    r
}

/// Wraps `s` in the magenta escape prefix and the reset suffix.
pub fn magenta(s: &str) -> (r: String)
    ensures
        r@ == styled(magenta_code(), s@),
{
    let mut r = String::from_str("\u{1b}[35m");
    r.append(s);
    r.append("\u{1b}[0m");
    r
}

// ---------------------------------------------------------------------------
// Decimal rendering.
// ---------------------------------------------------------------------------

/// The digit character for a value below ten.
pub open spec fn digit_char(d: nat) -> char {
    if d == 0 {
        '0'
    } else if d == 1 {
        '1'
    } else if d == 2 {
        '2'
    } else if d == 3 {
        '3'
    } else if d == 4 {
        '4'
    } else if d == 5 {
        '5'
    } else if d == 6 {
        '6'
    } else if d == 7 {
        '7'
    } else if d == 8 {
        '8'
    } else {
        '9'
    }
}

/// The usual decimal rendering of `n`: most significant digit first,
/// no leading zeros except for `n == 0` itself.
pub open spec fn decimal_of(n: nat) -> Seq<char>
    decreases n,
{
    if n < 10 {
        seq![digit_char(n)]
    } else {
        decimal_of(n / 10) + seq![digit_char(n % 10)]
    }
}

fn digit_str(d: u64) -> (r: &'static str)
    requires
        d < 10,
    ensures
        r@ == seq![digit_char(d as nat)],
{
    proof {
        reveal_strlit("0");
        reveal_strlit("1");
        reveal_strlit("2");
        reveal_strlit("3");
        reveal_strlit("4");
        reveal_strlit("5");
        reveal_strlit("6");
        reveal_strlit("7");
        reveal_strlit("8");
        reveal_strlit("9");
    }
    let r: &'static str = if d == 0 {
        "0"
    } else if d == 1 {
        "1"
    } else if d == 2 {
        "2"
    } else if d == 3 {
        "3"
    } else if d == 4 {
        "4"
    } else if d == 5 {
        "5"
    } else if d == 6 {
        "6"
    } else if d == 7 {
        "7"
    } else if d == 8 {
        "8"
    } else {
        "9"
    };
    proof {
        assert(r@ =~= seq![digit_char(d as nat)]);
    }
    r
}

/// Renders `n` in decimal.
pub fn u64_to_decimal(n: u64) -> (r: String)
    ensures
        r@ == decimal_of(n as nat),
    decreases n,
{
    if n < 10 {
        String::from_str(digit_str(n))
    } else {
        let mut r = u64_to_decimal(n / 10);
        r.append(digit_str(n % 10));
        r
    }
}

// ---------------------------------------------------------------------------
// Kilobyte figure.
// ---------------------------------------------------------------------------

/// The size in kilobytes shown for a size in bytes: the quotient by
/// 1000, rounded to the nearest integer with ties rounded up.
pub open spec fn kilobytes_spec(bytes: nat) -> nat {
    (bytes + 500) / 1000
}

/// Law: the kilobyte figure is `bytes / 1000` rounded to the nearest
/// integer, never truncated: it is within half a kilobyte of the exact
/// quotient, and a remainder of exactly 500 rounds up.
pub proof fn lemma_kilobytes_rounds_to_nearest(bytes: nat)
    ensures
        1000 * kilobytes_spec(bytes) <= bytes + 500,
        bytes < 1000 * kilobytes_spec(bytes) + 500,
{
    vstd::arithmetic::div_mod::lemma_fundamental_div_mod((bytes + 500) as int, 1000);
}

/// Converts a byte count to the kilobyte figure of the report.
pub fn kilobytes(bytes: u64) -> (r: u64)
    ensures
        r as nat == kilobytes_spec(bytes as nat),
{
    let quotient = bytes / 1000;
    let remainder = bytes % 1000;
    if remainder >= 500 {
        quotient + 1
    } else {
        quotient
    }
}

} // verus!
