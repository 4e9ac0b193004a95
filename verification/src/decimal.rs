//! Decimal rendering of the integers that appear in log lines and
//! addresses: a port number is written as its base-ten digits, a log line
//! as those digits followed by a line terminator.

use vstd::prelude::*;
use vstd::string::*;

verus! {

/// The character for one decimal digit.
pub open spec fn dec_digit(d: nat) -> char {
    if d == 0 {
        '0'
    } else if d == 1 {
        '1'
    } else if d == 2 {
        '2'
    } else if d == 3 {
        '3'
    } else if d == 4 {
        '4'
    } else if d == 5 {
        '5'
    } else if d == 6 {
        '6'
    } else if d == 7 {
        '7'
    } else if d == 8 {
        '8'
    } else {
        '9'
    }
}

/// The base-ten digits of `n`, most significant first, with no leading
/// zero except for `n == 0` itself.
pub open spec fn dec_chars(n: nat) -> Seq<char>
    decreases n,
{
    if n < 10 {
        seq![dec_digit(n)]
    } else {
        dec_chars(n / 10) + seq![dec_digit(n % 10)]
    }
}

/// One decimal digit as a string slice.
fn digit_str(d: u8) -> (r: &'static str)
    requires
        d < 10,
    ensures
        r@ =~= seq![dec_digit(d as nat)],
{
    proof {
        reveal_strlit("0");
        reveal_strlit("1");
        reveal_strlit("2");
        reveal_strlit("3");
        reveal_strlit("4");
        reveal_strlit("5");
        reveal_strlit("6");
        reveal_strlit("7");
        reveal_strlit("8");
        reveal_strlit("9");
    }
    if d == 0 {
        "0"
    } else if d == 1 {
        "1"
    } else if d == 2 {
        "2"
    } else if d == 3 {
        "3"
    } else if d == 4 {
        "4"
    } else if d == 5 {
        "5"
    } else if d == 6 {
        "6"
    } else if d == 7 {
        "7"
    } else if d == 8 {
        "8"
    } else {
        "9"
    }
}

/// `n` written in base ten.
pub fn u64_dec_string(n: u64) -> (r: String)
    ensures
        r@ == dec_chars(n as nat),
    decreases n,
{
    if n < 10 {
        String::from_str(digit_str(n as u8))
    } else {
        let mut s = u64_dec_string(n / 10);
        s.append(digit_str((n % 10) as u8));
        assert(s@ =~= dec_chars(n as nat));
        s
    }
}

/// A port number written in base ten.
pub fn port_string(port: u16) -> (r: String)
    ensures
        r@ == dec_chars(port as nat),
{
    u64_dec_string(port as u64)
}

/// One classification-log line: the port's decimal digits followed by a
/// newline.
pub fn port_line(port: u16) -> (r: String)
    ensures
        r@ == dec_chars(port as nat) + seq!['\n'],
{
    let mut s = port_string(port);
    proof {
        reveal_strlit("\n");
    }
    s.append("\n");
    s
}

} // verus!
