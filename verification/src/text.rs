//! Decimal rendering of numbers in the texts the game shows.
use vstd::prelude::*;
use vstd::string::StringExecFns;

verus! {

/// The character of a decimal digit.
pub open spec fn digit_char(d: int) -> char {
    if d == 0 {
        '0'
    } else if d == 1 {
        '1'
    } else if d == 2 {
        '2'
    } else if d == 3 {
        '3'
    } else if d == 4 {
        '4'
    } else if d == 5 {
        '5'
    } else if d == 6 {
        '6'
    } else if d == 7 {
        '7'
    } else if d == 8 {
        '8'
    } else {
        '9'
    }
}

/// The decimal digits of `n`, most significant first, without leading zeros.
pub open spec fn decimal(n: nat) -> Seq<char>
    decreases n,
{
    if n < 10 {
        seq![digit_char(n as int)]
    } else {
        decimal(n / 10) + seq![digit_char((n % 10) as int)]
    }
}

/// The decimal digits of `n`, padded with a leading zero to at least two digits.
pub open spec fn decimal2(n: nat) -> Seq<char> {
    if n < 10 {
        seq!['0'] + decimal(n)
    } else {
        decimal(n)
    }
}

/// `secs` seconds as minutes and seconds, each of at least two digits.
pub open spec fn mm_ss(secs: nat) -> Seq<char> {
    decimal2(secs / 60) + seq![':'] + decimal2(secs % 60)
}

/// A one-character string holding the digit `d`.
fn digit_str(d: u64) -> (r: &'static str)
    requires
        d < 10,
    ensures
        r@ == seq![digit_char(d as int)],
{
    proof {
        reveal_strlit("0");
        reveal_strlit("1");
        reveal_strlit("2");
        reveal_strlit("3");
        reveal_strlit("4");
        reveal_strlit("5");
        reveal_strlit("6");
        reveal_strlit("7");
        reveal_strlit("8");
        reveal_strlit("9");
    }
    if d == 0 {
        "0"
    } else if d == 1 {
        "1"
    } else if d == 2 {
        "2"
    } else if d == 3 {
        "3"
    } else if d == 4 {
        "4"
    } else if d == 5 {
        "5"
    } else if d == 6 {
        "6"
    } else if d == 7 {
        "7"
    } else if d == 8 {
        "8"
    } else {
        "9"
    }
}

/// Appends the decimal digits of `n` to `s`.
pub fn push_decimal(s: &mut String, n: u64)
    ensures
        final(s)@ == old(s)@ + decimal(n as nat),
    decreases n,
{
    if n >= 10 {
        push_decimal(s, n / 10);
    }
    s.append(digit_str(n % 10));
    proof {
        if n >= 10 {
            assert(final(s)@ =~= old(s)@ + decimal(n as nat));
        } else {
            assert(final(s)@ =~= old(s)@ + decimal(n as nat));
        }
    }
}

/// A string made of `prefix`, the decimal digits of `n`, and `suffix`.
pub fn decimal_between(prefix: &str, n: u64, suffix: &str) -> (r: String)
    ensures
        r@ == prefix@ + decimal(n as nat) + suffix@,
{
    let mut s = String::from_str(prefix);
    push_decimal(&mut s, n);
    s.append(suffix);
    s
}

/// Formats a step number in a 3-character board cell: `" 7 "` or `"12 "`.
pub fn sfmt(n: u8) -> (r: String)
    ensures
        r@ == if n < 10 {
            seq![' '] + decimal(n as nat) + seq![' ']
        } else {
            decimal(n as nat) + seq![' ']
        },
{
    proof {
        reveal_strlit(" ");
        reveal_strlit("");
    }
    if n < 10 {
        decimal_between(" ", n as u64, " ")
    } else {
        decimal_between("", n as u64, " ")
    }
}

/// Formats a step number right-aligned in 2 characters: `" 7"` or `"12"`.
pub fn spre(n: u8) -> (r: String)
    ensures
        r@ == if n < 10 {
            seq![' '] + decimal(n as nat)
        } else {
            decimal(n as nat)
        },
{
    proof {
        reveal_strlit(" ");
        reveal_strlit("");
    }
    if n < 10 {
        decimal_between(" ", n as u64, "")
    } else {
        decimal_between("", n as u64, "")
    }
}

/// Formats a number of seconds as `MM:SS` (minutes take more digits past 99).
pub fn format_seconds(secs: u64) -> (r: String)
    ensures
        r@ == mm_ss(secs as nat),
{
    proof {
        reveal_strlit("0");
        reveal_strlit(":");
        reveal_strlit("");
    }
    let minutes = secs / 60;
    let seconds = secs % 60;
    let mut s = if minutes < 10 {
        String::from_str("0")
    } else {
        String::from_str("")
    };
    push_decimal(&mut s, minutes);
    s.append(":");
    if seconds < 10 {
        s.append("0");
    }
    push_decimal(&mut s, seconds);
    assert(s@ =~= decimal2(minutes as nat) + seq![':'] + decimal2(seconds as nat));
    s
}

/// The whole seconds of a duration, as `Duration::as_secs` gives them.
pub uninterp spec fn whole_seconds_of(d: std::time::Duration) -> u64;

/// The whole seconds of a `std::time::Duration` (`Duration::as_secs`), named
/// `whole_seconds_of`: the result depends on the duration alone.
#[verifier::external_body]
fn whole_seconds(d: &std::time::Duration) -> (r: u64)
    ensures
        r == whole_seconds_of(*d),
{
    d.as_secs()
}

/// Formats a duration as `MM:SS`.
pub fn format_duration(d: std::time::Duration) -> (r: String)
    ensures
        r@ == mm_ss(whole_seconds_of(d) as nat),
{
    let secs = whole_seconds(&d);
    format_seconds(secs)
}

} // verus!
