use vstd::prelude::*;

use vstd::string::StringExecFns;

use crate::args::{all_dec_digits, dec_value, digit_val, is_port_string, port_digits};

verus! {

/// The character of one decimal digit.
pub open spec fn digit_char(d: nat) -> char
    recommends
        d < 10,
{
    if d == 0 {
        '0'
    } else if d == 1 {
        '1'
    } else if d == 2 {
        '2'
    } else if d == 3 {
        '3'
    } else if d == 4 {
        '4'
    } else if d == 5 {
        '5'
    } else if d == 6 {
        '6'
    } else if d == 7 {
        '7'
    } else if d == 8 {
        '8'
    } else {
        '9'
    }
}

/// The decimal text of `n`, most significant digit first, without leading
/// zeros (zero itself is the single digit `0`).
pub open spec fn dec_digits(n: nat) -> Seq<char>
    decreases n,
{
    if n < 10 {
        seq![digit_char(n)]
    } else {
        dec_digits(n / 10).push(digit_char(n % 10))
    }
}

/// The decimal text of a number is all digits, non-empty, and denotes
/// exactly that number.
pub proof fn lemma_dec_digits_value(n: nat)
    ensures
        all_dec_digits(dec_digits(n)),
        dec_value(dec_digits(n)) == n,
        dec_digits(n).len() >= 1,
    decreases n,
{
    if n < 10 {
        assert(seq![digit_char(n)].drop_last() =~= Seq::<char>::empty());
        assert(digit_val(digit_char(n)) == n);
        assert(dec_value(dec_digits(n)) == dec_value(Seq::<char>::empty()) * 10 + digit_val(
            digit_char(n),
        ));
    } else {
        lemma_dec_digits_value(n / 10);
        let prefix = dec_digits(n / 10);
        let c = digit_char((n % 10) as nat);
        assert(prefix.push(c).drop_last() =~= prefix);
        assert(prefix.push(c).last() == c);
        assert(digit_val(c) == n % 10);
        vstd::arithmetic::div_mod::lemma_fundamental_div_mod(n as int, 10);
        assert(dec_value(dec_digits(n)) == dec_value(prefix) * 10 + digit_val(c));
        assert forall|i: int| 0 <= i < dec_digits(n).len() implies is_dec_digit_at(
            dec_digits(n),
            i,
        ) by {
            if i < prefix.len() {
                assert(dec_digits(n)[i] == prefix[i]);
            }
        }
    }
}

/// Whether position `i` of `s` holds a decimal digit; a helper shape for the
/// quantifier above.
pub open spec fn is_dec_digit_at(s: Seq<char>, i: int) -> bool {
    crate::args::is_dec_digit(s[i])
}

/// Law: the decimal rendering of a port number is a well-formed port string
/// and parses back to the same number — rendering and parsing are inverse.
pub proof fn lemma_port_text_round_trip(v: u16)
    ensures
        is_port_string(dec_digits(v as nat)),
        dec_value(port_digits(dec_digits(v as nat))) == v,
{
    lemma_dec_digits_value(v as nat);
    assert(port_digits(dec_digits(v as nat)) == dec_digits(v as nat));
}

/// One decimal digit as text.
fn digit_str(d: u16) -> (s: &'static str)
    requires
        d < 10,
    ensures
        s@ == seq![digit_char(d as nat)],
{
    let r = match d {
        0 => "0",
        1 => "1",
        2 => "2",
        3 => "3",
        4 => "4",
        5 => "5",
        6 => "6",
        7 => "7",
        8 => "8",
        _ => "9",
    };
    proof {
        reveal_strlit("0");
        reveal_strlit("1");
        reveal_strlit("2");
        reveal_strlit("3");
        reveal_strlit("4");
        reveal_strlit("5");
        reveal_strlit("6");
        reveal_strlit("7");
        reveal_strlit("8");
        reveal_strlit("9");
        assert(r@ =~= seq![digit_char(d as nat)]);
    }
    r
}

/// Appends the decimal text of `v` to `out`.
fn push_digits(v: u16, out: &mut String)
    ensures
        final(out)@ == old(out)@ + dec_digits(v as nat),
    decreases v,
{
    if v >= 10 {
        push_digits(v / 10, out);
        out.append(digit_str(v % 10));
        proof {
            assert(final(out)@ =~= old(out)@ + dec_digits(v as nat));
        }
    } else {
        out.append(digit_str(v));
        proof {
            assert(final(out)@ =~= old(out)@ + dec_digits(v as nat));
        }
    }
}

/// Renders a 16-bit number in decimal, without leading zeros.
pub fn u16_to_dec(v: u16) -> (s: String)
    ensures
        s@ == dec_digits(v as nat),
{
    let mut s = String::new();
    push_digits(v, &mut s);
    proof {
        assert(s@ =~= dec_digits(v as nat));
    }
    s
}

/// Relies on chrono (Local::now and DateTime::format): the current local
/// time, rendered as `day-month-year_hour_minute_second`. The result depends
/// on the moment of the call, so nothing is promised of it.
#[verifier::external_body]
fn timestamp_tag() -> String {
    chrono::Local::now().format("%d-%m-%Y_%H_%M_%S").to_string()
}

/// The name of the output file, from an optional custom name and a time tag:
/// the custom name with the container extension appended, or a generated
/// `tau_` name carrying the tag.
pub fn make_filename(file: Option<String>, tag: String) -> (r: String)
    ensures
        file matches Some(f) ==> r@ == f@ + ".ogg"@,
        file is None ==> r@ == "tau_"@ + tag@ + ".ogg"@,
{
    match file {
        Some(f) => f.concat(".ogg"),
        None => String::from_str("tau_").concat(tag.as_str()).concat(".ogg"),
    }
}

/// Formats the name of the output file. A custom name gets the container
/// extension appended; with no custom name the file is named `tau_`, the
/// current local time, and the extension.
pub fn format_filename(file: Option<String>) -> (r: String)
    ensures
        file matches Some(f) ==> r@ == f@ + ".ogg"@,
        file is None ==> {
            &&& r@.len() >= 8
            &&& r@.take(4) == "tau_"@
            &&& r@.skip(r@.len() - 4) == ".ogg"@
        },
{
    let tag = timestamp_tag();
    let r = make_filename(file, tag);
    proof {
        reveal_strlit("tau_");
        reveal_strlit(".ogg");
        if file is None {
            assert(r@.take(4) =~= "tau_"@);
            assert(r@.skip(r@.len() - 4) =~= ".ogg"@);
        }
    }
    r
}

} // verus!
