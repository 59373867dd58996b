//! Formatting helpers: decimal digit sequences and the track-duration
//! timestamp shown in playback notifications.

use vstd::prelude::*;
use vstd::string::StringExecFns;

verus! {

/// The decimal digit character for `d`.
pub open spec fn digit_char(d: int) -> char {
    if d == 0 {
        '0'
    } else if d == 1 {
        '1'
    } else if d == 2 {
        '2'
    } else if d == 3 {
        '3'
    } else if d == 4 {
        '4'
    } else if d == 5 {
        '5'
    } else if d == 6 {
        '6'
    } else if d == 7 {
        '7'
    } else if d == 8 {
        '8'
    } else {
        '9'
    }
}

/// The decimal representation of `n`, most significant digit first, no
/// leading zeroes (a lone zero for 0).
pub open spec fn dec_rep(n: int) -> Seq<char>
    decreases n,
{
    if n < 10 {
        seq![digit_char(n)]
    } else {
        dec_rep(n / 10).push(digit_char(n % 10))
    }
}

/// `n` zero-padded to at least two digits.
pub open spec fn two_digits(n: int) -> Seq<char> {
    if n < 10 {
        seq!['0', digit_char(n)]
    } else {
        dec_rep(n)
    }
}

/// The timestamp for `t` seconds: `MM:SS`, or `HH:MM:SS` from a full hour
/// on, every field zero-padded to at least two digits.
pub open spec fn spec_timestamp(t: int) -> Seq<char> {
    let sec = t % 60;
    let min = (t / 60) % 60;
    let hrs = t / 3600;
    if hrs == 0 {
        two_digits(min) + seq![':'] + two_digits(sec)
    } else {
        two_digits(hrs) + seq![':'] + two_digits(min) + seq![':'] + two_digits(sec)
    }
}

/// The one-character string for digit `d`.
fn digit_str(d: u64) -> (s: &'static str)
    requires
        d < 10,
    ensures
        s@ == seq![digit_char(d as int)],
{
    if d == 0 {
        proof {
            reveal_strlit("0");
            assert("0"@ =~= seq![digit_char(0)]);
        }
        "0"
    } else if d == 1 {
        proof {
            reveal_strlit("1");
            assert("1"@ =~= seq![digit_char(1)]);
        }
        "1"
    } else if d == 2 {
        proof {
            reveal_strlit("2");
            assert("2"@ =~= seq![digit_char(2)]);
        }
        "2"
    } else if d == 3 {
        proof {
            reveal_strlit("3");
            assert("3"@ =~= seq![digit_char(3)]);
        }
        "3"
    } else if d == 4 {
        proof {
            reveal_strlit("4");
            assert("4"@ =~= seq![digit_char(4)]);
        }
        "4"
    } else if d == 5 {
        proof {
            reveal_strlit("5");
            assert("5"@ =~= seq![digit_char(5)]);
        }
        "5"
    } else if d == 6 {
        proof {
            reveal_strlit("6");
            assert("6"@ =~= seq![digit_char(6)]);
        }
        "6"
    } else if d == 7 {
        proof {
            reveal_strlit("7");
            assert("7"@ =~= seq![digit_char(7)]);
        }
        "7"
    } else if d == 8 {
        proof {
            reveal_strlit("8");
            assert("8"@ =~= seq![digit_char(8)]);
        }
        "8"
    } else {
        proof {
            reveal_strlit("9");
            assert("9"@ =~= seq![digit_char(9)]);
        }
        "9"
    }
}

/// Appends the decimal representation of `n`.
fn push_dec(s: &mut String, n: u64)
    ensures
        final(s)@ == old(s)@ + dec_rep(n as int),
    decreases n,
{
    if n < 10 {
        s.append(digit_str(n));
    } else {
        push_dec(s, n / 10);
        s.append(digit_str(n % 10));
        assert(s@ =~= old(s)@ + dec_rep(n as int));
    }
}

/// Appends `n` zero-padded to at least two digits.
fn push_two_digits(s: &mut String, n: u64)
    ensures
        final(s)@ == old(s)@ + two_digits(n as int),
{
    if n < 10 {
        s.append("0");
        s.append(digit_str(n));
        proof {
            reveal_strlit("0");
            assert(s@ =~= old(s)@ + two_digits(n as int));
        }
    } else {
        push_dec(s, n);
    }
}

/// Formats a duration of `t` seconds as `MM:SS`, or `HH:MM:SS` from a full
/// hour on, every field zero-padded to at least two digits.
pub fn to_timestamp(t: u64) -> (r: String)
    ensures
        r@ == spec_timestamp(t as int),
{
    let sec: u64 = t % 60;
    let min: u64 = (t / 60) % 60;
    let hrs: u64 = t / 3600;
    let mut r = String::new();
    if hrs == 0 {
        push_two_digits(&mut r, min);
        r.append(":");
        push_two_digits(&mut r, sec);
        proof {
            reveal_strlit(":");
            assert(r@ =~= spec_timestamp(t as int));
        }
    } else {
        push_two_digits(&mut r, hrs);
        r.append(":");
        push_two_digits(&mut r, min);
        r.append(":");
        push_two_digits(&mut r, sec);
        proof {
            reveal_strlit(":");
            assert(r@ =~= spec_timestamp(t as int));
        }
    }
    r
}

} // verus!
