use vstd::prelude::*;
use vstd::string::*;

verus! {

/// The dash shown in place of a value that is unavailable.
pub const DASH: &'static str = "\u{2014}";

/// The minus glyph used for negative numbers.
pub const MINUS: &'static str = "\u{2212}";

/// The plus sign used for positive numbers.
pub const PLUS: &'static str = "+";

/// Character of a decimal digit.
pub open spec fn digit_char(d: nat) -> char {
    if d == 0 { '0' }
    else if d == 1 { '1' }
    else if d == 2 { '2' }
    else if d == 3 { '3' }
    else if d == 4 { '4' }
    else if d == 5 { '5' }
    else if d == 6 { '6' }
    else if d == 7 { '7' }
    else if d == 8 { '8' }
    else { '9' }
}

/// Decimal notation of a natural number, without leading zeros.
pub open spec fn decimal(n: nat) -> Seq<char>
    decreases n,
{
    if n < 10 {
        seq![digit_char(n)]
    } else {
        decimal(n / 10).push(digit_char(n % 10))
    }
}

/// Signed notation of a difference: `+` before a positive number, the minus
/// glyph before the magnitude of a negative one, `0` alone for zero.
pub open spec fn delta_text(i: int) -> Seq<char> {
    if i > 0 {
        PLUS@ + decimal(i as nat)
    } else if i < 0 {
        MINUS@ + decimal((-i) as nat)
    } else {
        decimal(0)
    }
}

/// Text equality of two string slices.
pub fn same_text(a: &str, b: &str) -> (r: bool)
    ensures
        r == (a@ == b@),
{
    let x = a.to_owned();
    let y = b.to_owned();
    x == y
}

fn digit_str(d: u64) -> (r: &'static str)
    requires
        d < 10,
    ensures
        r@ == seq![digit_char(d as nat)],
{
    proof {
        reveal_strlit("0");
        reveal_strlit("1");
        reveal_strlit("2");
        reveal_strlit("3");
        reveal_strlit("4");
        reveal_strlit("5");
        reveal_strlit("6");
        reveal_strlit("7");
        reveal_strlit("8");
        reveal_strlit("9");
    }
    if d == 0 { "0" }
    else if d == 1 { "1" }
    else if d == 2 { "2" }
    else if d == 3 { "3" }
    else if d == 4 { "4" }
    else if d == 5 { "5" }
    else if d == 6 { "6" }
    else if d == 7 { "7" }
    else if d == 8 { "8" }
    else { "9" }
}

/// Decimal notation of an unsigned number.
pub fn decimal_string(n: u64) -> (r: String)
    ensures
        r@ == decimal(n as nat),
    decreases n,
{
    if n < 10 {
        String::from_str(digit_str(n))
    } else {
        let head = decimal_string(n / 10);
        head.concat(digit_str(n % 10))
    }
}

/// The text shown for a difference of hit counts: `+5`, `−3` (with the
/// minus glyph) or `0`.
pub fn delta_string(i: i64) -> (r: String)
    ensures
        r@ == delta_text(i as int),
{
    if i > 0 {
        String::from_str(PLUS).concat(decimal_string(i as u64).as_str())
    } else if i < 0 {
        let magnitude: u64 = (-(i as i128)) as u64;
        String::from_str(MINUS).concat(decimal_string(magnitude).as_str())
    } else {
        decimal_string(0)
    }
}

/// The last `n` bytes of `s`, or all of `s` when it is shorter.
pub fn str_take_right(s: &str, n: usize) -> (r: &str)
    requires
        s.spec_bytes().len() <= usize::MAX,
        vstd::utf8::is_char_boundary(
            s.spec_bytes(),
            if s.spec_bytes().len() > n { s.spec_bytes().len() - n } else { 0 },
        ),
    ensures
        r.spec_bytes() == s.spec_bytes().subrange(
            if s.spec_bytes().len() > n { s.spec_bytes().len() - n } else { 0 },
            s.spec_bytes().len() as int,
        ),
{
    let len = s.len();
    let mid = if len > n { len - n } else { 0 };
    s.split_at(mid).1
}

} // verus!
