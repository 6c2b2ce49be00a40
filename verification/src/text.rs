//! Decimal integer text, and the few std string operations the library relies on.
use vstd::prelude::*;

verus! {

/// Whether `c` is an ASCII decimal digit.
pub open spec fn is_digit(c: char) -> bool {
    '0' <= c && c <= '9'
}

/// The value of an ASCII decimal digit.
pub open spec fn digit_value(c: char) -> int {
    c as int - '0' as int
}

/// The ASCII digit that stands for `d` (for `d < 10`).
pub open spec fn digit_char(d: nat) -> char
    recommends
        d < 10,
{
    (d + '0' as nat) as char
}

/// Every character of `d` is an ASCII decimal digit.
pub open spec fn all_digits(d: Seq<char>) -> bool {
    forall|i: int| 0 <= i < d.len() ==> is_digit(#[trigger] d[i])
}

/// The number written by a string of decimal digits, most significant first.
pub open spec fn digits_value(d: Seq<char>) -> int
    decreases d.len(),
{
    if d.len() == 0 {
        0
    } else {
        digits_value(d.drop_last()) * 10 + digit_value(d.last())
    }
}

/// Shortest decimal digits of a natural number (no leading zeros; "0" for zero).
pub open spec fn nat_to_decimal(n: nat) -> Seq<char>
    decreases n,
{
    if n < 10 {
        seq![digit_char(n)]
    } else {
        nat_to_decimal(n / 10).push(digit_char(n % 10))
    }
}

/// Decimal text of an integer: a '-' before the digits of a negative number.
pub open spec fn int_to_decimal(n: int) -> Seq<char> {
    if n < 0 {
        seq!['-'] + nat_to_decimal((-n) as nat)
    } else {
        nat_to_decimal(n as nat)
    }
}

/// The characters of each string, in order.
pub open spec fn string_views(v: Seq<String>) -> Seq<Seq<char>> {
    v.map_values(|s: String| s@)
}

/// The integer written by an optional '+' or '-' sign followed by one or more
/// decimal digits, or `None` for any other text.
pub open spec fn signed_decimal_value(s: Seq<char>) -> Option<int> {
    if s.len() > 0 && (s[0] == '-' || s[0] == '+') {
        let d = s.drop_first();
        if d.len() > 0 && all_digits(d) {
            if s[0] == '-' {
                Some(-digits_value(d))
            } else {
                Some(digits_value(d))
            }
        } else {
            None
        }
    } else if s.len() > 0 && all_digits(s) {
        Some(digits_value(s))
    } else {
        None
    }
}

/// What parsing `s` as an `i32` gives: the signed decimal value when it fits.
pub open spec fn parsed_i32(s: Seq<char>) -> Option<i32> {
    match signed_decimal_value(s) {
        Some(v) => if i32::MIN <= v <= i32::MAX {
            Some(v as i32)
        } else {
            None
        },
        None => None,
    }
}

/// The text of the error that `str::parse::<i32>` reports for `s`.
pub uninterp spec fn i32_parse_error_text(s: Seq<char>) -> Seq<char>;

/// The `Debug` rendering of a string (quoted, with escapes).
pub uninterp spec fn debug_quoted(s: Seq<char>) -> Seq<char>;

/// `i32::to_string`: std's `Display` for integers writes the decimal digits,
/// with a leading '-' for negative numbers and no leading zeros.
#[verifier::external_body]
pub(crate) fn i32_to_text(n: i32) -> (s: String)
    ensures
        s@ == int_to_decimal(n as int),
{
    n.to_string()
}

/// `u16::to_string`: the decimal digits of `n`, without leading zeros.
#[verifier::external_body]
pub(crate) fn u16_to_text(n: u16) -> (s: String)
    ensures
        s@ == int_to_decimal(n as int),
{
    n.to_string()
}

/// `str::parse::<i32>`: std documents that it accepts an optional '+' or '-'
/// followed by decimal digits only, and fails on empty text, on any other
/// character and on values outside `i32`. The error is turned into its text,
/// which depends on `s` alone and is named, not spelled out.
#[verifier::external_body]
pub(crate) fn parse_i32(s: &str) -> (r: Result<i32, String>)
    ensures
        match r {
            Ok(v) => parsed_i32(s@) == Some(v),
            Err(e) => parsed_i32(s@) is None && e@ == i32_parse_error_text(s@),
        },
{
    s.parse::<i32>().map_err(|e| e.to_string())
}

/// Whether two string slices hold the same characters.
pub(crate) fn str_eq(a: &str, b: &str) -> (r: bool)
    ensures
        r == (a@ == b@),
{
    let x = String::from_str(a);
    let y = String::from_str(b);
    x == y
}

/// `format!("{:?}", s)` on a string: its quoted, escaped `Debug` rendering.
#[verifier::external_body]
pub(crate) fn debug_text(s: &str) -> (r: String)
    ensures
        r@ == debug_quoted(s@),
{
    format!("{:?}", s)
}

/// A new `String` holding the characters of `a` followed by those of `b`.
pub(crate) fn concat2(a: &str, b: &str) -> (r: String)
    ensures
        r@ == a@ + b@,
{
    let mut r = String::from_str(a);
    r.append(b);
    r
}

/// A new `String` holding `a`, `b` and `c` one after the other.
pub(crate) fn concat3(a: &str, b: &str, c: &str) -> (r: String)
    ensures
        r@ == a@ + b@ + c@,
{
    let mut r = String::from_str(a);
    r.append(b);
    r.append(c);
    r
}

proof fn lemma_digit_char(d: nat)
    requires
        d < 10,
    ensures
        is_digit(digit_char(d)),
        digit_value(digit_char(d)) == d,
{
}

/// The digits of a natural number are digits, read back as the number, and
/// never start with a sign.
pub proof fn lemma_nat_to_decimal(n: nat)
    ensures
        nat_to_decimal(n).len() > 0,
        all_digits(nat_to_decimal(n)),
        digits_value(nat_to_decimal(n)) == n,
    decreases n,
{
    if n < 10 {
        lemma_digit_char(n);
        let s = nat_to_decimal(n);
        assert(s.drop_last() =~= Seq::<char>::empty());
        assert(digits_value(Seq::<char>::empty()) == 0);
        assert(digits_value(s) == digits_value(s.drop_last()) * 10 + digit_value(s.last()));
    } else {
        lemma_nat_to_decimal(n / 10);
        lemma_digit_char(n % 10);
        let s = nat_to_decimal(n);
        let p = nat_to_decimal(n / 10);
        assert(s.drop_last() =~= p);
        assert(s.last() == digit_char(n % 10));
        assert((n / 10) * 10 + n % 10 == n) by (nonlinear_arith);
        assert(digits_value(s) == digits_value(p) * 10 + digit_value(s.last()));
        assert forall|i: int| 0 <= i < s.len() implies is_digit(#[trigger] s[i]) by {
            if i < p.len() {
                assert(s[i] == p[i]);
            }
        }
    }
}

/// Parsing the decimal text of any `i32` gives that `i32` back.
pub proof fn lemma_parse_decimal_i32(n: i32)
    ensures
        parsed_i32(int_to_decimal(n as int)) == Some(n),
{
    let s = int_to_decimal(n as int);
    if n < 0 {
        let m = (-(n as int)) as nat;
        lemma_nat_to_decimal(m);
        let d = nat_to_decimal(m);
        assert(s.drop_first() =~= d);
        assert(s[0] == '-');
    } else {
        let m = n as nat;
        lemma_nat_to_decimal(m);
        let d = nat_to_decimal(m);
        assert(is_digit(d[0]));
        assert(s[0] != '-' && s[0] != '+');
    }
}

} // verus!
