//! Character classes, string/character-vector conversions, and decimal
//! rendering of integers. Everything downstream works over `Seq<char>` views.

use vstd::prelude::*;

verus! {

// ---------------------------------------------------------------------------
// Character classes.
//
// The tokenizer follows the Unicode character classes of the standard
// library. They are named here and pinned down on the ASCII range, which is
// all the grammar itself ever produces; outside ASCII the names still make
// the tokenizer a deterministic function of its input.
// ---------------------------------------------------------------------------

pub uninterp spec fn unicode_whitespace(c: char) -> bool;

pub uninterp spec fn unicode_alphanumeric(c: char) -> bool;

pub uninterp spec fn unicode_numeric(c: char) -> bool;

/// Relies on `char::is_whitespace`: determined by the character's Unicode
/// `White_Space` property alone; within ASCII that property holds exactly for
/// space and the controls U+0009..U+000D.
#[verifier::external_body]
pub fn char_is_whitespace(c: char) -> (r: bool)
    ensures
        r == unicode_whitespace(c),
        (c as u32) < 128 ==> r == ((c as u32) == 32 || (9 <= (c as u32) && (c as u32) <= 13)),
{
    c.is_whitespace()
}

/// Relies on `char::is_alphanumeric`: determined by the character's Unicode
/// `Alphabetic` and numeric properties alone; within ASCII these hold exactly
/// for the letters and the ten digits.
#[verifier::external_body]
pub fn char_is_alphanumeric(c: char) -> (r: bool)
    ensures
        r == unicode_alphanumeric(c),
        (c as u32) < 128 ==> r == ((48 <= (c as u32) && (c as u32) <= 57) || (65 <= (c as u32)
            && (c as u32) <= 90) || (97 <= (c as u32) && (c as u32) <= 122)),
{
    c.is_alphanumeric()
}

/// Relies on `char::is_numeric`: determined by the character's Unicode
/// numeric properties alone; within ASCII these hold exactly for the ten
/// digits.
#[verifier::external_body]
pub fn char_is_numeric(c: char) -> (r: bool)
    ensures
        r == unicode_numeric(c),
        (c as u32) < 128 ==> r == (48 <= (c as u32) && (c as u32) <= 57),
{
    c.is_numeric()
}

// ---------------------------------------------------------------------------
// String <-> character vector conversions.
// ---------------------------------------------------------------------------

/// Relies on `str::chars`: yields exactly the characters of the string, in
/// order, which is the string's view.
#[verifier::external_body]
pub fn chars_of(s: &str) -> (r: Vec<char>)
    ensures
        r@ == s@,
{
    s.chars().collect()
}

/// Relies on `String`'s `FromIterator<char>`: the collected string holds
/// exactly the given characters, in order.
#[verifier::external_body]
pub fn string_of(cs: &Vec<char>) -> (r: String)
    ensures
        r@ == cs@,
{
    cs.iter().collect()
}

// ---------------------------------------------------------------------------
// Verified string comparison helpers.
// ---------------------------------------------------------------------------

pub fn str_eq(a: &str, b: &str) -> (r: bool)
    ensures
        r == (a@ == b@),
{
    let la = a.unicode_len();
    let lb = b.unicode_len();
    if la != lb {
        return false;
    }
    let mut i: usize = 0;
    while i < la
        invariant
            i <= la,
            la == a@.len(),
            la == b@.len(),
            forall|j: int| 0 <= j < i ==> a@[j] == b@[j],
        decreases la - i,
    {
        if a.get_char(i) != b.get_char(i) {
            return false;
        }
        i = i + 1;
    }
    proof {
        assert(a@ =~= b@);
    }
    true
}

pub fn chars_eq_str(v: &Vec<char>, s: &str) -> (r: bool)
    ensures
        r == (v@ == s@),
{
    let ls = s.unicode_len();
    if v.len() != ls {
        return false;
    }
    let mut i: usize = 0;
    while i < ls
        invariant
            i <= ls,
            ls == s@.len(),
            ls == v@.len(),
            forall|j: int| 0 <= j < i ==> v@[j] == s@[j],
        decreases ls - i,
    {
        if v[i] != s.get_char(i) {
            return false;
        }
        i = i + 1;
    }
    proof {
        assert(v@ =~= s@);
    }
    true
}

// ---------------------------------------------------------------------------
// Decimal digits and decimal rendering of integers.
// ---------------------------------------------------------------------------

pub open spec fn is_decimal_digit(c: char) -> bool {
    48 <= (c as u32) && (c as u32) <= 57
}

pub open spec fn digit_val(c: char) -> int {
    (c as u32) - 48
}

pub open spec fn digit_char(d: int) -> char {
    if d == 0 {
        '0'
    } else if d == 1 {
        '1'
    } else if d == 2 {
        '2'
    } else if d == 3 {
        '3'
    } else if d == 4 {
        '4'
    } else if d == 5 {
        '5'
    } else if d == 6 {
        '6'
    } else if d == 7 {
        '7'
    } else if d == 8 {
        '8'
    } else {
        '9'
    }
}

/// The usual decimal rendering of a non-negative integer.
pub open spec fn dec_nat(n: int) -> Seq<char>
    decreases n,
{
    if n < 10 {
        seq![digit_char(n)]
    } else {
        dec_nat(n / 10).push(digit_char(n % 10))
    }
}

/// The decimal rendering of a signed integer.
pub open spec fn dec_int(n: int) -> Seq<char> {
    if n < 0 {
        seq!['-'].add(dec_nat(-n))
    } else {
        dec_nat(n)
    }
}

fn push_dec_u64(n: u64, out: &mut Vec<char>)
    ensures
        final(out)@ == old(out)@ + dec_nat(n as int),
    decreases n,
{
    if n < 10 {
        let d: u64 = n;
        out.push(exec_digit_char(d));
        proof {
            assert(out@ =~= old(out)@ + dec_nat(n as int));
        }
    } else {
        push_dec_u64(n / 10, out);
        out.push(exec_digit_char(n % 10));
        proof {
            assert(out@ =~= old(out)@ + dec_nat(n as int));
        }
    }
}

fn exec_digit_char(d: u64) -> (c: char)
    requires
        d < 10,
    ensures
        c == digit_char(d as int),
{
    if d == 0 {
        '0'
    } else if d == 1 {
        '1'
    } else if d == 2 {
        '2'
    } else if d == 3 {
        '3'
    } else if d == 4 {
        '4'
    } else if d == 5 {
        '5'
    } else if d == 6 {
        '6'
    } else if d == 7 {
        '7'
    } else if d == 8 {
        '8'
    } else {
        '9'
    }
}

pub fn u64_to_chars(n: u64) -> (r: Vec<char>)
    ensures
        r@ == dec_nat(n as int),
{
    let mut out: Vec<char> = Vec::new();
    push_dec_u64(n, &mut out);
    out
}

pub fn usize_to_string(n: usize) -> (r: String)
    ensures
        r@ == dec_nat(n as int),
{
    let cs = u64_to_chars(n as u64);
    string_of(&cs)
}

pub fn i64_to_chars(n: i64) -> (r: Vec<char>)
    ensures
        r@ == dec_int(n as int),
{
    let mut out: Vec<char> = Vec::new();
    if n < 0 {
        out.push('-');
        let mag: u64 = if n == i64::MIN {
            9223372036854775808u64
        } else {
            (-n) as u64
        };
        assert(mag as int == -(n as int));
        push_dec_u64(mag, &mut out);
        proof {
            assert(out@ =~= dec_int(n as int));
        }
    } else {
        push_dec_u64(n as u64, &mut out);
    }
    out
}

pub fn i64_to_string(n: i64) -> (r: String)
    ensures
        r@ == dec_int(n as int),
{
    let cs = i64_to_chars(n);
    string_of(&cs)
}

} // verus!
