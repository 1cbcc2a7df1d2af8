//! Plain-text helpers: decimal rendering of integers, string building, and
//! decoding of captured process output bytes.

use vstd::prelude::*;

verus! {

/// The decimal digit character for a value from zero through nine.
pub open spec fn digit_char(d: int) -> char {
    if d == 0 {
        '0'
    } else if d == 1 {
        '1'
    } else if d == 2 {
        '2'
    } else if d == 3 {
        '3'
    } else if d == 4 {
        '4'
    } else if d == 5 {
        '5'
    } else if d == 6 {
        '6'
    } else if d == 7 {
        '7'
    } else if d == 8 {
        '8'
    } else {
        '9'
    }
}

/// The decimal rendering of a natural number, most significant digit first.
pub open spec fn decimal_of(n: nat) -> Seq<char>
    decreases n,
{
    if n < 10 {
        seq![digit_char(n as int)]
    } else {
        decimal_of(n / 10).push(digit_char((n % 10) as int))
    }
}

/// The decimal rendering of an integer: a leading minus sign when negative.
pub open spec fn signed_decimal_of(n: int) -> Seq<char> {
    if n < 0 {
        seq!['-'] + decimal_of((-n) as nat)
    } else {
        decimal_of(n as nat)
    }
}

/// Relies on String::push: appends one character at the end.
#[verifier::external_body]
pub(crate) fn push_char(s: &mut String, c: char)
    ensures
        final(s)@ == old(s)@.push(c),
{
    s.push(c);
}

/// Relies on String::push_str: appends the given slice at the end.
#[verifier::external_body]
pub(crate) fn push_str(s: &mut String, t: &str)
    ensures
        final(s)@ == old(s)@ + t@,
{
    s.push_str(t);
}

fn digit_of(d: u64) -> (c: char)
    requires
        d < 10,
    ensures
        c == digit_char(d as int),
{
    if d == 0 {
        '0'
    } else if d == 1 {
        '1'
    } else if d == 2 {
        '2'
    } else if d == 3 {
        '3'
    } else if d == 4 {
        '4'
    } else if d == 5 {
        '5'
    } else if d == 6 {
        '6'
    } else if d == 7 {
        '7'
    } else if d == 8 {
        '8'
    } else {
        '9'
    }
}

/// Renders an unsigned integer in decimal.
pub fn format_u64(n: u64) -> (r: String)
    ensures
        r@ == decimal_of(n as nat),
    decreases n,
{
    let d: u64 = n % 10;
    let c = digit_of(d);
    if n < 10 {
        let mut s = String::new();
        push_char(&mut s, c);
        proof {
            assert(s@ =~= decimal_of(n as nat));
        }
        s
    } else {
        proof {
            assert(n / 10 < n) by (nonlinear_arith)
                requires
                    n >= 10,
            ;
        }
        let mut s = format_u64(n / 10);
        push_char(&mut s, c);
        proof {
            assert(s@ =~= decimal_of(n as nat));
        }
        s
    }
}

/// Renders a signed integer in decimal, with a leading minus sign when negative.
pub fn format_i64(n: i64) -> (r: String)
    ensures
        r@ == signed_decimal_of(n as int),
{
    if n < 0 {
        let m: u64 = (-(n as i128)) as u64;
        let mut s = String::new();
        push_char(&mut s, '-');
        let t = format_u64(m);
        push_str(&mut s, t.as_str());
        proof {
            assert(s@ =~= signed_decimal_of(n as int));
        }
        s
    } else {
        format_u64(n as u64)
    }
}

/// What String::from_utf8 returns on the given bytes: the decoded text when
/// they are valid UTF-8, and nothing otherwise.
pub uninterp spec fn utf8_of(b: Seq<u8>) -> Option<Seq<char>>;

/// What String::from_utf8_lossy returns on the given bytes: the decoded text,
/// with invalid sequences replaced.
pub uninterp spec fn utf8_lossy_of(b: Seq<u8>) -> Seq<char>;

/// Relies on String::from_utf8: succeeds exactly on valid UTF-8, and the
/// result is a function of the bytes alone; the error text names the defect.
#[verifier::external_body]
pub(crate) fn utf8_decode(b: Vec<u8>) -> (r: Result<String, String>)
    ensures
        r matches Ok(s) ==> utf8_of(b@) == Some(s@),
        r is Err <==> utf8_of(b@) is None,
{
    match String::from_utf8(b) {
        Ok(s) => Ok(s),
        Err(e) => Err(format!("{}", e)),
    }
}

/// Relies on String::from_utf8_lossy: the result is a function of the bytes alone.
#[verifier::external_body]
pub(crate) fn utf8_decode_lossy(b: &Vec<u8>) -> (r: String)
    ensures
        r@ == utf8_lossy_of(b@),
{
    String::from_utf8_lossy(b).into_owned()
}

} // verus!
