//! Formatting of request latencies for the access log.
//!
//! A latency prints after its status, in milliseconds once at least a
//! thousand microseconds have passed and in microseconds below that. The
//! measuring clock and the status type live with the logging layer outside
//! the library; the library formats the plain values.

use vstd::prelude::*;
use vstd::string::StringExecFns;

verus! {

/// Decimal digit character of a value below ten.
pub open spec fn digit_char(d: int) -> char {
    if d == 0 {
        '0'
    } else if d == 1 {
        '1'
    } else if d == 2 {
        '2'
    } else if d == 3 {
        '3'
    } else if d == 4 {
        '4'
    } else if d == 5 {
        '5'
    } else if d == 6 {
        '6'
    } else if d == 7 {
        '7'
    } else if d == 8 {
        '8'
    } else {
        '9'
    }
}

/// The decimal digits of a number, most significant first; a lone zero
/// for zero.
pub open spec fn dec_chars(n: int) -> Seq<char>
    decreases n,
{
    if n < 10 {
        seq![digit_char(n)]
    } else {
        dec_chars(n / 10) + seq![digit_char(n % 10)]
    }
}

/// One decimal digit as a string slice.
fn digit_str(d: u64) -> (r: &'static str)
    requires
        d < 10,
    ensures
        r@ == seq![digit_char(d as int)],
{
    let r: &'static str = if d == 0 {
        "0"
    } else if d == 1 {
        "1"
    } else if d == 2 {
        "2"
    } else if d == 3 {
        "3"
    } else if d == 4 {
        "4"
    } else if d == 5 {
        "5"
    } else if d == 6 {
        "6"
    } else if d == 7 {
        "7"
    } else if d == 8 {
        "8"
    } else {
        "9"
    };
    proof {
        reveal_strlit("0");
        reveal_strlit("1");
        reveal_strlit("2");
        reveal_strlit("3");
        reveal_strlit("4");
        reveal_strlit("5");
        reveal_strlit("6");
        reveal_strlit("7");
        reveal_strlit("8");
        reveal_strlit("9");
        assert(r@ =~= seq![digit_char(d as int)]);
    }
    r
}

/// Print a number in decimal.
pub fn u64_to_string(n: u64) -> (r: String)
    ensures
        r@ == dec_chars(n as int),
    decreases n,
{
    if n < 10 {
        String::from_str(digit_str(n))
    } else {
        let mut s = u64_to_string(n / 10);
        s.append(digit_str(n % 10));
        s
    }
}

/// What a latency of `micros` microseconds prints as after `status`: the
/// millisecond count once a thousand microseconds have passed, else the
/// microsecond count, each with its unit.
pub open spec fn latency_text(status: Seq<char>, micros: u64) -> Seq<char> {
    status + seq![' '] + (if micros >= 1000 {
        dec_chars(micros as int / 1000) + seq!['m', 's']
    } else {
        dec_chars(micros as int) + seq!['\u{3bc}', 's']
    })
}

/// Format a request latency and status message.
pub fn format_latency(micros: u64, status: &str) -> (r: String)
    ensures
        r@ == latency_text(status@, micros),
{
    let mut s = String::from_str(status);
    s.append(" ");
    proof {
        reveal_strlit(" ");
    }
    if micros >= 1000 {
        let num = u64_to_string(micros / 1000);
        s.append(num.as_str());
        s.append("ms");
        proof {
            reveal_strlit("ms");
            assert(s@ =~= latency_text(status@, micros));
        }
        s
    } else {
        let num = u64_to_string(micros);
        s.append(num.as_str());
        s.append("\u{3bc}s");
        proof {
            reveal_strlit("\u{3bc}s");
            assert(s@ =~= latency_text(status@, micros));
        }
        s
    }
}

} // verus!
