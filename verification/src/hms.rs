//! A count of seconds rendered as `H:MM:SS`.

use vstd::prelude::*;
use vstd::string::*;

verus! {

/// The character that writes the digit `d`, for `0 <= d <= 9`.
pub open spec fn digit(d: int) -> char {
    "0123456789"@[d]
}

/// `n` in decimal, without leading zeros; `0` is written `"0"`.
pub open spec fn decimal(n: nat) -> Seq<char>
    decreases n,
{
    if n < 10 {
        seq![digit(n as int)]
    } else {
        decimal(n / 10).push(digit((n % 10) as int))
    }
}

/// `n` in two decimal digits, with a leading zero below ten, for `n < 100`.
pub open spec fn two_digits(n: nat) -> Seq<char> {
    seq![digit((n / 10) as int), digit((n % 10) as int)]
}

/// `delta` seconds as hours, minutes and seconds: two spaces, the hours
/// unpadded, a colon, the minutes in two digits, a colon, the seconds in two
/// digits, two spaces.
pub open spec fn hms(delta: nat) -> Seq<char> {
    seq![' ', ' '] + decimal(delta / 3600) + seq![':'] + two_digits((delta / 60) % 60)
        + seq![':'] + two_digits(delta % 60) + seq![' ', ' ']
}

/// The one-character string that writes the digit `d`.
fn digit_str(d: u64) -> (s: &'static str)
    requires
        d < 10,
    ensures
        s@ == seq![digit(d as int)],
{
    proof {
        reveal_strlit("0123456789");
    }
    let all: &'static str = "0123456789";
    let one = all.substring_ascii(d as usize, d as usize + 1);
    assert(one@ =~= seq![digit(d as int)]);
    one
}

/// Appends `n` in decimal to `out`.
fn push_decimal(out: &mut String, n: u64)
    ensures
        final(out)@ == old(out)@ + decimal(n as nat),
    decreases n,
{
    if n >= 10 {
        push_decimal(out, n / 10);
    }
    out.append(digit_str(n % 10));
    assert(final(out)@ =~= old(out)@ + decimal(n as nat));
}

/// Appends `n` in two decimal digits to `out`.
fn push_two_digits(out: &mut String, n: u64)
    requires
        n < 100,
    ensures
        final(out)@ == old(out)@ + two_digits(n as nat),
{
    out.append(digit_str(n / 10));
    out.append(digit_str(n % 10));
    assert(final(out)@ =~= old(out)@ + two_digits(n as nat));
}

/// Renders a count of seconds as `"  H:MM:SS  "`. The hours are not bounded:
/// they take as many digits as they need.
pub fn get_hms(delta: u64) -> (text: String)
    ensures
        text@ == hms(delta as nat),
{
    proof {
        reveal_strlit("  ");
        reveal_strlit(":");
    }
    let seconds: u64 = delta % 60;
    let mut mins: u64 = (delta - seconds) / 60;
    let mut hours: u64 = 0;
    if mins >= 60 {
        hours = mins / 60;
        mins = mins % 60;
    }
    let mut text = String::new();
    text.append("  ");
    push_decimal(&mut text, hours);
    text.append(":");
    push_two_digits(&mut text, mins);
    text.append(":");
    push_two_digits(&mut text, seconds);
    text.append("  ");
    assert("  "@ =~= seq![' ', ' ']);
    assert(":"@ =~= seq![':']);
    assert(text@ =~= hms(delta as nat));
    text
}

} // verus!
