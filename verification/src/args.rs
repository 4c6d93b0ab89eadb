use vstd::prelude::*;

use crate::config::TauConfigError;

verus! {

/// The command-line options of the program, after parsing: plain values with
/// none of the parser machinery attached.
pub struct Args {
    pub username: Option<String>,
    pub password: Option<String>,
    pub ip: Option<String>,
    pub port: Option<u16>,
    pub file: Option<String>,
    pub no_recording: bool,
    pub output: Option<String>,
    pub reset_config: bool,
}

/// Whether `c` is a decimal digit.
pub open spec fn is_dec_digit(c: char) -> bool {
    '0' <= c && c <= '9'
}

/// The numeric value of the decimal digit `c`.
pub open spec fn digit_val(c: char) -> nat
    recommends
        is_dec_digit(c),
{
    (c as nat - '0' as nat) as nat
}

/// Whether every character of `s` is a decimal digit.
pub open spec fn all_dec_digits(s: Seq<char>) -> bool {
    forall|i: int| 0 <= i < s.len() ==> is_dec_digit(s[i])
}

/// The number denoted by the digit string `s`, most significant digit first.
pub open spec fn dec_value(s: Seq<char>) -> nat
    recommends
        all_dec_digits(s),
    decreases s.len(),
{
    if s.len() == 0 {
        0
    } else {
        dec_value(s.drop_last()) * 10 + digit_val(s.last())
    }
}

/// The digits of a port string: a single leading `+` sign is accepted and
/// ignored, exactly as integer parsing in the standard library accepts it.
pub open spec fn port_digits(s: Seq<char>) -> Seq<char> {
    if s.len() > 0 && s[0] == '+' {
        s.skip(1)
    } else {
        s
    }
}

/// Whether `s` is a well-formed port number: at least one digit, nothing but
/// digits after an optional leading `+`, and a value no greater than 65535.
pub open spec fn is_port_string(s: Seq<char>) -> bool {
    &&& port_digits(s).len() > 0
    &&& all_dec_digits(port_digits(s))
    &&& dec_value(port_digits(s)) <= 65535
}

/// The value of a digit-string prefix never exceeds the value of the whole.
proof fn lemma_dec_value_prefix_le(s: Seq<char>, i: int)
    requires
        0 <= i <= s.len(),
    ensures
        dec_value(s.take(i)) <= dec_value(s),
    decreases s.len() - i,
{
    if i < s.len() {
        assert(s.take(i + 1).drop_last() =~= s.take(i));
        assert(dec_value(s.take(i)) <= dec_value(s.take(i + 1)));
        lemma_dec_value_prefix_le(s, i + 1);
    } else {
        assert(s.take(i) =~= s);
    }
}

/// Reads a port number out of its decimal text.
///
/// Succeeds exactly on well-formed port strings (an optional leading `+`,
/// then one or more decimal digits denoting a value up to 65535) and returns
/// the denoted value; everything else is rejected as a user-input error.
pub fn parse_port(p: &str) -> (r: Result<u16, TauConfigError>)
    ensures
        is_port_string(p@) ==> (r matches Ok(v) && v == dec_value(port_digits(p@))),
        !is_port_string(p@) ==> (r matches Err(e) && e matches TauConfigError::Input(m)
            && m@ == "Unable to parse as number"@),
{
    let n = p.unicode_len();
    let mut start: usize = 0;
    if n > 0 && p.get_char(0) == '+' {
        start = 1;
    }
    let ghost digits = port_digits(p@);
    assert(digits =~= p@.skip(start as int));
    if start == n {
        return Err(TauConfigError::Input(String::from_str("Unable to parse as number")));
    }
    let mut value: u32 = 0;
    let mut i: usize = start;
    while i < n
        invariant
            start <= i <= n,
            n == p@.len(),
            start < n,
            digits == port_digits(p@),
            digits == p@.skip(start as int),
            all_dec_digits(digits.take(i - start)),
            value == dec_value(digits.take(i - start)),
            value <= 65535,
        decreases n - i,
    {
        let c = p.get_char(i);
        proof {
            assert(digits[i - start] == c);
        }
        if !('0' <= c && c <= '9') {
            proof {
                assert(!is_dec_digit(port_digits(p@)[i - start]));
                assert(!all_dec_digits(port_digits(p@)));
                assert(!is_port_string(p@));
            }
            return Err(TauConfigError::Input(String::from_str("Unable to parse as number")));
        }
        let d: u32 = (c as u32) - ('0' as u32);
        proof {
            assert(digit_val(c) == d);
            assert(digits.take(i - start + 1).drop_last() =~= digits.take(i - start));
            assert(digits.take(i - start + 1).last() == c);
            assert(dec_value(digits.take(i - start + 1)) == value * 10 + d);
        }
        if value > 6553 || (value == 6553 && d > 5) {
            proof {
                lemma_dec_value_prefix_le(digits, i - start + 1);
                assert(dec_value(port_digits(p@)) > 65535);
                assert(!is_port_string(p@));
            }
            return Err(TauConfigError::Input(String::from_str("Unable to parse as number")));
        }
        value = value * 10 + d;
        i = i + 1;
    }
    assert(digits.take(i - start) =~= digits);
    Ok(value as u16)
}

/// Accepts every port number a connection can actually be made to; only the
/// reserved port 0 is rejected.
pub fn validate_port(port: u16) -> (r: Result<u16, TauConfigError>)
    ensures
        port != 0 ==> (r matches Ok(v) && v == port),
        port == 0 ==> (r matches Err(e) && e matches TauConfigError::InvalidPort(v) && v == port),
{
    if port == 0 {
        return Err(TauConfigError::InvalidPort(port));
    }
    Ok(port)
}

/// Whether a string is the textual form of an IPv4 or IPv6 address. The
/// decision is made by the address-syntax checker this library builds on; it
/// depends on the characters of the string alone.
pub uninterp spec fn is_ip_str(s: Seq<char>) -> bool;

/// Relies on is_ip::is_ip: recognises IPv4 and IPv6 address syntax, a pure
/// function of the characters of the string.
#[verifier::external_body]
fn ip_syntax_ok(s: &str) -> (r: bool)
    ensures
        r == is_ip_str(s@),
{
    is_ip::is_ip(s)
}

/// Accepts exactly the strings that are IPv4 or IPv6 addresses and hands them
/// back unchanged; everything else is rejected with the offending string.
pub fn validate_ip(ip: String) -> (r: Result<String, TauConfigError>)
    ensures
        is_ip_str(ip@) ==> (r matches Ok(v) && v@ == ip@),
        !is_ip_str(ip@) ==> (r matches Err(e) && e matches TauConfigError::InvalidIp(v)
            && v@ == ip@),
{
    if !ip_syntax_ok(ip.as_str()) {
        return Err(TauConfigError::InvalidIp(ip));
    }
    Ok(ip)
}

} // verus!
