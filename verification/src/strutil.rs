//! Small string helpers: comparison and prefix tests on `&str`, list
//! membership for configured name lists, and decimal rendering of
//! numbers for identifier and date strings.

use vstd::prelude::*;
use vstd::string::StringExecFns;

verus! {

/// Relies on `<str as PartialEq>::eq`: two string slices are equal
/// exactly when their character sequences are equal.
#[verifier::external_body]
pub fn str_eq(a: &str, b: &str) -> (r: bool)
    ensures
        r == (a@ == b@),
{
    a == b
}

/// Relies on `str::starts_with`: true exactly when the pattern is a
/// prefix of the string.
#[verifier::external_body]
pub fn str_starts_with(s: &str, prefix: &str) -> (r: bool)
    ensures
        r == prefix@.is_prefix_of(s@),
{
    s.starts_with(prefix)
}

/// Whether a configured name list holds the given name.
pub fn contains_str(list: &Vec<String>, name: &str) -> (r: bool)
    ensures
        r == list.deep_view().contains(name@),
{
    let mut i: usize = 0;
    while i < list.len()
        invariant
            0 <= i <= list.len(),
            forall|k: int| 0 <= k < i ==> list.deep_view()[k] != name@,
        decreases list.len() - i,
    {
        if str_eq(list[i].as_str(), name) {
            assert(list.deep_view()[i as int] == name@);
            return true;
        }
        i += 1;
    }
    assert(forall|k: int| 0 <= k < list.deep_view().len() ==> list.deep_view()[k] != name@);
    false
}

/// The character for one decimal digit.
pub open spec fn digit_char(d: nat) -> char {
    if d == 0 {
        '0'
    } else if d == 1 {
        '1'
    } else if d == 2 {
        '2'
    } else if d == 3 {
        '3'
    } else if d == 4 {
        '4'
    } else if d == 5 {
        '5'
    } else if d == 6 {
        '6'
    } else if d == 7 {
        '7'
    } else if d == 8 {
        '8'
    } else {
        '9'
    }
}

/// The decimal digit string of a number, most significant digit first,
/// with no leading zeroes (a lone zero for 0).
pub open spec fn spec_dec_digits(n: nat) -> Seq<char>
    decreases n,
{
    if n < 10 {
        seq![digit_char(n)]
    } else {
        spec_dec_digits(n / 10).push(digit_char(n % 10))
    }
}

/// The decimal digits of a number, zero-padded on the left to exactly
/// `width` digits (the low `width` digits, for a number too large).
pub open spec fn spec_fixed_digits(n: nat, width: nat) -> Seq<char>
    decreases width,
{
    if width == 0 {
        Seq::empty()
    } else {
        spec_fixed_digits(n / 10, (width - 1) as nat).push(digit_char(n % 10))
    }
}

/// One decimal digit as a string slice.
pub fn digit_str(d: u32) -> (r: &'static str)
    requires
        d < 10,
    ensures
        r@ == seq![digit_char(d as nat)],
{
    let r: &'static str = if d == 0 {
        "0"
    } else if d == 1 {
        "1"
    } else if d == 2 {
        "2"
    } else if d == 3 {
        "3"
    } else if d == 4 {
        "4"
    } else if d == 5 {
        "5"
    } else if d == 6 {
        "6"
    } else if d == 7 {
        "7"
    } else if d == 8 {
        "8"
    } else {
        "9"
    };
    proof {
        reveal_strlit("0");
        reveal_strlit("1");
        reveal_strlit("2");
        reveal_strlit("3");
        reveal_strlit("4");
        reveal_strlit("5");
        reveal_strlit("6");
        reveal_strlit("7");
        reveal_strlit("8");
        reveal_strlit("9");
        assert(r@ =~= seq![digit_char(d as nat)]);
    }
    r
}

/// Renders a number in decimal.
pub fn u32_to_string(n: u32) -> (r: String)
    ensures
        r@ == spec_dec_digits(n as nat),
    decreases n,
{
    if n < 10 {
        let d = digit_str(n);
        let r = d.to_owned();
        assert(r@ =~= spec_dec_digits(n as nat));
        r
    } else {
        let mut prefix = u32_to_string(n / 10);
        let d = digit_str(n % 10);
        prefix.append(d);
        assert(prefix@ =~= spec_dec_digits(n as nat));
        prefix
    }
}

/// Renders the low two digits of a number, zero-padded.
pub fn u32_to_two_digits(n: u32) -> (r: String)
    ensures
        r@ == spec_fixed_digits(n as nat, 2),
{
    let hi = digit_str((n / 10) % 10);
    let mut r = hi.to_owned();
    let lo = digit_str(n % 10);
    r.append(lo);
    proof {
        reveal_with_fuel(spec_fixed_digits, 3);
        assert(r@ =~= spec_fixed_digits(n as nat, 2));
    }
    r
}

/// Renders the low four digits of a number, zero-padded.
pub fn u32_to_four_digits(n: u32) -> (r: String)
    ensures
        r@ == spec_fixed_digits(n as nat, 4),
{
    let mut r = digit_str((n / 1000) % 10).to_owned();
    r.append(digit_str((n / 100) % 10));
    r.append(digit_str((n / 10) % 10));
    r.append(digit_str(n % 10));
    proof {
        reveal_with_fuel(spec_fixed_digits, 5);
        assert(r@ =~= spec_fixed_digits(n as nat, 4));
    }
    r
}

} // verus!
