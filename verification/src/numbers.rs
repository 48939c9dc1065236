//! Numeric literals: the grammars of integer and real literals, the exact
//! value of digit strings, and the canonical decimal rendering of real
//! literals that the compiler emits into SQL.

use vstd::prelude::*;
use crate::text::is_decimal_digit;
use crate::text::digit_val;

verus! {

// ---------------------------------------------------------------------------
// Digit strings and their values.
// ---------------------------------------------------------------------------

pub open spec fn all_digits(s: Seq<char>) -> bool {
    forall|j: int| 0 <= j < s.len() ==> is_decimal_digit(#[trigger] s[j])
}

/// The value of a digit string, most significant digit first.
pub open spec fn dec_digits_val(s: Seq<char>) -> int
    decreases s.len(),
{
    if s.len() == 0 {
        0
    } else {
        dec_digits_val(s.drop_last()) * 10 + digit_val(s.last())
    }
}

/// Exponent magnitudes are clamped here; beyond it every literal renders as
/// an infinity or as zero anyway.
pub open spec fn exp_cap() -> int {
    1180591620717411303424
}

proof fn lemma_dec_digits_val_nonneg(s: Seq<char>)
    requires
        all_digits(s),
    ensures
        dec_digits_val(s) >= 0,
    decreases s.len(),
{
    if s.len() > 0 {
        assert(all_digits(s.drop_last()));
        lemma_dec_digits_val_nonneg(s.drop_last());
    }
}

/// The value of a digit string, clamped at `exp_cap`.
pub open spec fn clamped_digits_val(s: Seq<char>) -> int {
    if dec_digits_val(s) >= exp_cap() {
        exp_cap()
    } else {
        dec_digits_val(s)
    }
}

/// Reads the digits of `v` from `from` on, clamping the value at `exp_cap`.
/// Returns `None` unless there is at least one digit and nothing else.
fn digits_val_capped(v: &Vec<char>, from: usize) -> (r: Option<u128>)
    requires
        from <= v.len(),
    ensures
        r is Some <==> (from < v.len() && all_digits(v@.skip(from as int))),
        r matches Some(x) ==> x as int == clamped_digits_val(v@.skip(from as int)),
{
    if from >= v.len() {
        return None;
    }
    let mut acc: u128 = 0;
    let mut j: usize = from;
    proof {
        assert(v@.subrange(from as int, from as int) =~= Seq::<char>::empty());
    }
    while j < v.len()
        invariant
            from <= j <= v.len(),
            all_digits(v@.subrange(from as int, j as int)),
            acc as int == clamped_digits_val(v@.subrange(from as int, j as int)),
            acc <= exp_cap(),
        decreases v.len() - j,
    {
        let c = v[j];
        let cu = c as u32;
        if !(48 <= cu && cu <= 57) {
            proof {
                assert(!is_decimal_digit(v@.skip(from as int)[j - from]));
            }
            return None;
        }
        let d: u128 = (cu - 48) as u128;
        let ghost pre = v@.subrange(from as int, j as int);
        let ghost cur = v@.subrange(from as int, j as int + 1);
        proof {
            assert(cur.drop_last() =~= pre);
            assert(cur.last() == v@[j as int]);
            lemma_digits_val_clamp_step(pre, v@[j as int]);
        }
        if acc >= 1180591620717411303424u128 {
            // already at the cap; the value only grows from here
        } else {
            let next: u128 = acc * 10 + d;
            if next >= 1180591620717411303424u128 {
                acc = 1180591620717411303424u128;
            } else {
                acc = next;
            }
        }
        j = j + 1;
    }
    proof {
        assert(v@.subrange(from as int, v@.len() as int) =~= v@.skip(from as int));
    }
    Some(acc)
}

proof fn lemma_digits_val_clamp_step(pre: Seq<char>, c: char)
    requires
        all_digits(pre),
        is_decimal_digit(c),
    ensures
        dec_digits_val(pre.push(c)) == dec_digits_val(pre) * 10 + digit_val(c),
        dec_digits_val(pre.push(c)) >= dec_digits_val(pre),
        clamped_digits_val(pre.push(c)) == if dec_digits_val(pre) * 10 + digit_val(c) >= exp_cap() {
            exp_cap()
        } else {
            dec_digits_val(pre) * 10 + digit_val(c)
        },
{
    let cur = pre.push(c);
    assert(cur.drop_last() =~= pre);
    assert(cur.last() == c);
    lemma_dec_digits_val_nonneg(pre);
}

// ---------------------------------------------------------------------------
// Sign handling.
// ---------------------------------------------------------------------------

pub open spec fn has_sign(s: Seq<char>) -> bool {
    s.len() > 0 && (s[0] == '+' || s[0] == '-')
}

pub open spec fn is_negative(s: Seq<char>) -> bool {
    s.len() > 0 && s[0] == '-'
}

pub open spec fn strip_sign(s: Seq<char>) -> Seq<char> {
    if has_sign(s) {
        s.skip(1)
    } else {
        s
    }
}

// ---------------------------------------------------------------------------
// Integer literals: an optional sign, digits, and the 64-bit signed range.
// ---------------------------------------------------------------------------

pub open spec fn int_literal_grammar(s: Seq<char>) -> bool {
    let b = strip_sign(s);
    b.len() > 0 && all_digits(b) && (if is_negative(s) {
        dec_digits_val(b) <= 0x8000000000000000
    } else {
        dec_digits_val(b) <= 0x7fffffffffffffff
    })
}

pub open spec fn int_literal_val(s: Seq<char>) -> int {
    if is_negative(s) {
        -dec_digits_val(strip_sign(s))
    } else {
        dec_digits_val(strip_sign(s))
    }
}

/// Reads a decimal integer literal, exactly when it lies in the 64-bit
/// signed range.
pub fn parse_int_chars(v: &Vec<char>) -> (r: Option<i64>)
    ensures
        r is Some <==> int_literal_grammar(v@),
        r matches Some(x) ==> x as int == int_literal_val(v@),
{
    if v.len() == 0 {
        return None;
    }
    let c0 = v[0];
    let signed = c0 == '+' || c0 == '-';
    let neg = c0 == '-';
    let from: usize = if signed {
        1
    } else {
        0
    };
    match digits_val_capped(v, from) {
        None => {
            proof {
                assert(strip_sign(v@) =~= v@.skip(from as int));
            }
            None
        },
        Some(m) => {
            proof {
                assert(strip_sign(v@) =~= v@.skip(from as int));
            }
            if neg {
                if m <= 0x8000000000000000u128 {
                    let x: i64 = if m == 0x8000000000000000u128 {
                        i64::MIN
                    } else {
                        -((m as u64) as i64)
                    };
                    Some(x)
                } else {
                    None
                }
            } else {
                if m <= 0x7fffffffffffffffu128 {
                    Some(m as u64 as i64)
                } else {
                    None
                }
            }
        },
    }
}

// ---------------------------------------------------------------------------
// Exponents: an optional sign and digits, clamped at `exp_cap`.
// ---------------------------------------------------------------------------

pub open spec fn exp_grammar(s: Seq<char>) -> bool {
    let b = strip_sign(s);
    b.len() > 0 && all_digits(b)
}

/// The signed exponent value with its magnitude clamped at `exp_cap`.
pub open spec fn exp_val(s: Seq<char>) -> int {
    if is_negative(s) {
        -clamped_digits_val(strip_sign(s))
    } else {
        clamped_digits_val(strip_sign(s))
    }
}

fn parse_exp_chars(v: &Vec<char>, from: usize) -> (r: Option<i128>)
    requires
        from <= v.len(),
    ensures
        r is Some <==> exp_grammar(v@.skip(from as int)),
        r matches Some(x) ==> x as int == exp_val(v@.skip(from as int)) && -exp_cap() <= x as int
            <= exp_cap(),
{
    let ghost s = v@.skip(from as int);
    if from >= v.len() {
        return None;
    }
    let c0 = v[from];
    let signed = c0 == '+' || c0 == '-';
    let neg = c0 == '-';
    let dfrom: usize = if signed {
        from + 1
    } else {
        from
    };
    proof {
        assert(strip_sign(s) =~= v@.skip(dfrom as int));
    }
    match digits_val_capped(v, dfrom) {
        None => None,
        Some(m) => {
            proof {
                lemma_dec_digits_val_nonneg(strip_sign(s));
            }
            let x: i128 = if neg {
                -(m as i128)
            } else {
                m as i128
            };
            Some(x)
        },
    }
}

/// The exponent grammar bounded to the 32-bit signed range, which is what
/// classifies the explicit scientific form of a token.
pub open spec fn exp32_grammar(s: Seq<char>) -> bool {
    exp_grammar(s) && (if is_negative(s) {
        dec_digits_val(strip_sign(s)) <= 0x80000000
    } else {
        dec_digits_val(strip_sign(s)) <= 0x7fffffff
    })
}

pub fn parse_exp32_chars(v: &Vec<char>) -> (r: Option<i128>)
    ensures
        r is Some <==> exp32_grammar(v@),
        r matches Some(x) ==> x as int == exp_val(v@) && -0x80000000i128 <= x <= 0x7fffffffi128,
{
    let ghost s = v@;
    proof {
        assert(v@.skip(0) =~= v@);
    }
    match parse_exp_chars(v, 0) {
        None => None,
        Some(x) => {
            if -0x80000000i128 <= x && x <= 0x7fffffffi128 {
                proof {
                    assert(clamped_digits_val(strip_sign(s)) == dec_digits_val(strip_sign(s)));
                }
                Some(x)
            } else {
                proof {
                    lemma_dec_digits_val_nonneg(strip_sign(s));
                    if is_negative(s) {
                        assert(dec_digits_val(strip_sign(s)) > 0x80000000);
                    } else {
                        assert(dec_digits_val(strip_sign(s)) > 0x7fffffff);
                    }
                }
                None
            }
        },
    }
}

// ---------------------------------------------------------------------------
// Case-insensitive comparison against a lowercase pattern, for the special
// words of the real-literal grammar.
// ---------------------------------------------------------------------------

pub open spec fn eqi_char(c: char, l: char) -> bool {
    c == l || ((l as u32) >= 32 && (c as u32) == (l as u32) - 32)
}

pub open spec fn seq_eqi(s: Seq<char>, t: Seq<char>) -> bool {
    s.len() == t.len() && (forall|j: int| 0 <= j < s.len() ==> eqi_char(#[trigger] s[j], t[j]))
}

fn eqi_str(v: &Vec<char>, pat: &str) -> (r: bool)
    ensures
        r == seq_eqi(v@, pat@),
{
    let lp = pat.unicode_len();
    if v.len() != lp {
        return false;
    }
    let mut j: usize = 0;
    while j < lp
        invariant
            j <= lp,
            lp == pat@.len(),
            lp == v@.len(),
            forall|k: int| 0 <= k < j ==> eqi_char(#[trigger] v@[k], pat@[k]),
        decreases lp - j,
    {
        let pc = pat.get_char(j);
        let vc = v[j];
        let ok = vc == pc || ((pc as u32) >= 32 && (vc as u32) == (pc as u32) - 32);
        if !ok {
            return false;
        }
        j = j + 1;
    }
    true
}

// ---------------------------------------------------------------------------
// Finding a character, for splitting at the exponent mark or decimal point.
// ---------------------------------------------------------------------------

/// The least index holding `a` or `b`.
pub open spec fn find_char2(s: Seq<char>, a: char, b: char) -> Option<int>
    decreases s.len(),
{
    if s.len() == 0 {
        None
    } else if s[0] == a || s[0] == b {
        Some(0int)
    } else {
        match find_char2(s.skip(1), a, b) {
            None => None,
            Some(i) => Some(i + 1),
        }
    }
}

proof fn lemma_find_char2(s: Seq<char>, a: char, b: char, i: int)
    requires
        0 <= i <= s.len(),
        forall|j: int| 0 <= j < i ==> #[trigger] s[j] != a && s[j] != b,
        i < s.len() ==> (s[i] == a || s[i] == b),
    ensures
        find_char2(s, a, b) == if i == s.len() {
            None::<int>
        } else {
            Some(i)
        },
    decreases i,
{
    if i == 0 {
        if s.len() > 0 && !(s[0] == a || s[0] == b) {
            // i == s.len() is impossible here, so i < s.len() gave a hit at 0
        }
    } else {
        let t = s.skip(1);
        assert(forall|j: int| 0 <= j < i - 1 ==> #[trigger] t[j] != a && t[j] != b);
        lemma_find_char2(t, a, b, i - 1);
    }
}

pub fn find_char2_in(v: &Vec<char>, a: char, b: char) -> (r: Option<usize>)
    ensures
        match r {
            Some(i) => find_char2(v@, a, b) == Some(i as int) && i < v@.len(),
            None => find_char2(v@, a, b) is None,
        },
{
    let mut i: usize = 0;
    while i < v.len()
        invariant
            i <= v@.len(),
            forall|j: int| 0 <= j < i ==> #[trigger] v@[j] != a && v@[j] != b,
        decreases v@.len() - i,
    {
        let c = v[i];
        if c == a || c == b {
            proof {
                lemma_find_char2(v@, a, b, i as int);
            }
            return Some(i);
        }
        i = i + 1;
    }
    proof {
        lemma_find_char2(v@, a, b, v@.len() as int);
    }
    None
}

// ---------------------------------------------------------------------------
// The real-literal grammar: an optional sign, then one of the special words
// `inf`, `infinity`, `nan` (any case), or digits with an optional decimal
// point and an optional exponent part.
// ---------------------------------------------------------------------------

pub open spec fn mant_grammar(m: Seq<char>) -> bool {
    match find_char2(m, '.', '.') {
        None => m.len() > 0 && all_digits(m),
        Some(d) => all_digits(m.take(d)) && all_digits(m.skip(d + 1)) && (d > 0 || m.len() > d
            + 1),
    }
}

pub open spec fn real_grammar(s: Seq<char>) -> bool {
    let b = strip_sign(s);
    b.len() > 0 && (seq_eqi(b, "inf"@) || seq_eqi(b, "infinity"@) || seq_eqi(b, "nan"@) || (
    match find_char2(b, 'e', 'E') {
        None => mant_grammar(b),
        Some(i) => mant_grammar(b.take(i)) && exp_grammar(b.skip(i + 1)),
    }))
}

// ---------------------------------------------------------------------------
// Canonical rendering of a real literal: the exact decimal value, leading
// and trailing zeros dropped, written positionally; magnitudes beyond
// roughly ten to the 309th render as an infinity, and below roughly ten to
// the minus 324th as zero.
// ---------------------------------------------------------------------------

pub open spec fn zeros(n: int) -> Seq<char> {
    Seq::new(n as nat, |i: int| '0')
}

pub open spec fn lead_zeros(s: Seq<char>) -> int
    decreases s.len(),
{
    if s.len() > 0 && s[0] == '0' {
        1 + lead_zeros(s.skip(1))
    } else {
        0
    }
}

pub open spec fn tail_zeros(s: Seq<char>) -> int
    decreases s.len(),
{
    if s.len() > 0 && s.last() == '0' {
        1 + tail_zeros(s.drop_last())
    } else {
        0
    }
}

pub open spec fn canonical_decimal(neg: bool, md: Seq<char>, e10: int) -> Seq<char> {
    let m1 = md.skip(lead_zeros(md));
    let m2 = m1.take(m1.len() - tail_zeros(m1));
    let e2 = e10 + tail_zeros(m1);
    if m2.len() == 0 {
        if neg {
            "-0"@
        } else {
            "0"@
        }
    } else {
        let pos = e2 + m2.len();
        let sign = if neg {
            seq!['-']
        } else {
            Seq::<char>::empty()
        };
        if pos > 309 {
            sign + "inf"@
        } else if pos <= -324 {
            if neg {
                "-0"@
            } else {
                "0"@
            }
        } else if e2 >= 0 {
            sign + m2 + zeros(e2)
        } else if pos > 0 {
            sign + m2.take(pos) + seq!['.'] + m2.skip(pos)
        } else {
            sign + "0."@ + zeros(-pos) + m2
        }
    }
}

pub open spec fn canonical_mant(neg: bool, m: Seq<char>, e: int) -> Seq<char> {
    match find_char2(m, '.', '.') {
        None => canonical_decimal(neg, m, e),
        Some(d) => canonical_decimal(neg, m.take(d) + m.skip(d + 1), e - (m.len() - d - 1)),
    }
}

/// The canonical rendering of a real literal, shifted by `extra` decimal
/// places (the explicit scientific form of a token supplies the shift).
pub open spec fn canonical_number(s: Seq<char>, extra: int) -> Seq<char> {
    let neg = is_negative(s);
    let b = strip_sign(s);
    if seq_eqi(b, "inf"@) || seq_eqi(b, "infinity"@) {
        if neg {
            "-inf"@
        } else {
            "inf"@
        }
    } else if seq_eqi(b, "nan"@) {
        "NaN"@
    } else {
        match find_char2(b, 'e', 'E') {
            None => canonical_mant(neg, b, extra),
            Some(i) => canonical_mant(neg, b.take(i), exp_val(b.skip(i + 1)) + extra),
        }
    }
}

pub open spec fn canonical_real(s: Seq<char>) -> Seq<char> {
    canonical_number(s, 0)
}

// ---------------------------------------------------------------------------
// Executable canonicalization, verified against the spec above.
// ---------------------------------------------------------------------------

pub fn copy_range(v: &Vec<char>, from: usize, to: usize) -> (r: Vec<char>)
    requires
        from <= to <= v@.len(),
    ensures
        r@ == v@.subrange(from as int, to as int),
{
    let mut r: Vec<char> = Vec::new();
    let mut i: usize = from;
    while i < to
        invariant
            from <= i <= to <= v@.len(),
            r@ == v@.subrange(from as int, i as int),
        decreases to - i,
    {
        r.push(v[i]);
        proof {
            assert(r@ =~= v@.subrange(from as int, i as int + 1));
        }
        i = i + 1;
    }
    r
}

fn all_digits_exec(v: &Vec<char>, from: usize, to: usize) -> (r: bool)
    requires
        from <= to <= v@.len(),
    ensures
        r == all_digits(v@.subrange(from as int, to as int)),
{
    let ghost s = v@.subrange(from as int, to as int);
    let mut i: usize = from;
    while i < to
        invariant
            from <= i <= to <= v@.len(),
            s == v@.subrange(from as int, to as int),
            forall|j: int| 0 <= j < i - from ==> is_decimal_digit(#[trigger] s[j]),
        decreases to - i,
    {
        let cu = v[i] as u32;
        if !(48 <= cu && cu <= 57) {
            proof {
                assert(s[i - from] == v@[i as int]);
            }
            return false;
        }
        i = i + 1;
    }
    true
}

proof fn lemma_lead_zeros_at(s: Seq<char>, k: int)
    requires
        0 <= k <= s.len(),
        forall|j: int| 0 <= j < k ==> #[trigger] s[j] == '0',
        k < s.len() ==> s[k] != '0',
    ensures
        lead_zeros(s) == k,
    decreases k,
{
    if k == 0 {
    } else {
        let t = s.skip(1);
        assert(forall|j: int| 0 <= j < k - 1 ==> #[trigger] t[j] == '0');
        lemma_lead_zeros_at(t, k - 1);
    }
}

proof fn lemma_tail_zeros_at(s: Seq<char>, k: int)
    requires
        0 <= k <= s.len(),
        forall|j: int| s.len() - k <= j < s.len() ==> #[trigger] s[j] == '0',
        k < s.len() ==> s[s.len() - k - 1] != '0',
    ensures
        tail_zeros(s) == k,
    decreases k,
{
    if k == 0 {
    } else {
        let t = s.drop_last();
        assert(forall|j: int| t.len() - (k - 1) <= j < t.len() ==> #[trigger] t[j] == '0');
        lemma_tail_zeros_at(t, k - 1);
    }
}

fn push_zeros(out: &mut Vec<char>, n: usize)
    ensures
        final(out)@ == old(out)@ + zeros(n as int),
{
    let mut k: usize = 0;
    while k < n
        invariant
            k <= n,
            out@ == old(out)@ + zeros(k as int),
        decreases n - k,
    {
        out.push('0');
        proof {
            assert(out@ =~= old(out)@ + zeros(k as int + 1));
        }
        k = k + 1;
    }
    proof {
        assert(out@ =~= old(out)@ + zeros(n as int));
    }
}

fn push_range(out: &mut Vec<char>, v: &Vec<char>, from: usize, to: usize)
    requires
        from <= to <= v@.len(),
    ensures
        final(out)@ == old(out)@ + v@.subrange(from as int, to as int),
{
    let mut i: usize = from;
    while i < to
        invariant
            from <= i <= to <= v@.len(),
            out@ == old(out)@ + v@.subrange(from as int, i as int),
        decreases to - i,
    {
        out.push(v[i]);
        proof {
            assert(out@ =~= old(out)@ + v@.subrange(from as int, i as int + 1));
        }
        i = i + 1;
    }
}

fn zero_chars(neg: bool) -> (r: Vec<char>)
    ensures
        r@ == if neg {
            "-0"@
        } else {
            "0"@
        },
{
    proof {
        reveal_strlit("-0");
        reveal_strlit("0");
    }
    let mut r: Vec<char> = Vec::new();
    if neg {
        r.push('-');
        r.push('0');
        proof {
            assert(r@ =~= "-0"@);
        }
    } else {
        r.push('0');
        proof {
            assert(r@ =~= "0"@);
        }
    }
    r
}

fn inf_chars(neg: bool) -> (r: Vec<char>)
    ensures
        r@ == if neg {
            "-inf"@
        } else {
            "inf"@
        },
{
    proof {
        reveal_strlit("-inf");
        reveal_strlit("inf");
    }
    let mut r: Vec<char> = Vec::new();
    if neg {
        r.push('-');
    }
    r.push('i');
    r.push('n');
    r.push('f');
    proof {
        if neg {
            assert(r@ =~= "-inf"@);
        } else {
            assert(r@ =~= "inf"@);
        }
    }
    r
}

fn canonical_decimal_chars(neg: bool, md: &Vec<char>, e10: i128) -> (r: Vec<char>)
    requires
        -0x2000000000000000000i128 <= e10 <= 0x2000000000000000000i128,
    ensures
        r@ == canonical_decimal(neg, md@, e10 as int),
{
    let ghost mds = md@;
    // count the leading zeros
    let mut l: usize = 0;
    while l < md.len() && md[l] == '0'
        invariant
            l <= md@.len(),
            forall|j: int| 0 <= j < l ==> #[trigger] md@[j] == '0',
        decreases md@.len() - l,
    {
        l = l + 1;
    }
    proof {
        lemma_lead_zeros_at(mds, l as int);
    }
    let ghost m1 = mds.skip(l as int);
    // count the trailing zeros of what is left
    let m1len: usize = md.len() - l;
    let mut t: usize = 0;
    while t < m1len && md[md.len() - 1 - t] == '0'
        invariant
            t <= m1len,
            l + m1len == md@.len(),
            m1 == md@.skip(l as int),
            m1len == m1.len(),
            forall|j: int| m1.len() - t <= j < m1.len() ==> #[trigger] m1[j] == '0',
        decreases m1len - t,
    {
        proof {
            assert(m1[m1.len() - (t as int) - 1] == md@[md@.len() - (t as int) - 1]);
        }
        t = t + 1;
    }
    proof {
        if (t as int) < m1.len() {
            assert(m1[m1.len() - (t as int) - 1] == md@[md@.len() - (t as int) - 1]);
        }
        lemma_tail_zeros_at(m1, t as int);
    }
    let m2len: usize = m1len - t;
    let ghost m2 = m1.take(m1.len() - tail_zeros(m1));
    proof {
        assert(m2 =~= mds.subrange(l as int, l as int + m2len as int));
    }
    if m2len == 0 {
        return zero_chars(neg);
    }
    let e2: i128 = e10 + t as i128;
    let pos: i128 = e2 + m2len as i128;
    if pos > 309 {
        proof {
            reveal_strlit("-inf");
            reveal_strlit("inf");
            assert(seq!['-'] + "inf"@ =~= "-inf"@);
            assert(Seq::<char>::empty() + "inf"@ =~= "inf"@);
        }
        return inf_chars(neg);
    }
    if pos <= -324 {
        return zero_chars(neg);
    }
    let mut out: Vec<char> = Vec::new();
    if neg {
        out.push('-');
    }
    let ghost sign = if neg {
        seq!['-']
    } else {
        Seq::<char>::empty()
    };
    proof {
        assert(out@ =~= sign);
    }
    if e2 >= 0 {
        push_range(&mut out, md, l, l + m2len);
        push_zeros(&mut out, e2 as usize);
        proof {
            assert(out@ =~= sign + m2 + zeros(e2 as int));
        }
    } else if pos > 0 {
        let p: usize = pos as usize;
        push_range(&mut out, md, l, l + p);
        out.push('.');
        push_range(&mut out, md, l + p, l + m2len);
        proof {
            assert(m2.take(pos as int) =~= mds.subrange(l as int, l as int + pos as int));
            assert(m2.skip(pos as int) =~= mds.subrange(
                l as int + pos as int,
                l as int + m2len as int,
            ));
            assert(out@ =~= sign + m2.take(pos as int) + seq!['.'] + m2.skip(pos as int));
        }
    } else {
        proof {
            reveal_strlit("0.");
        }
        out.push('0');
        out.push('.');
        let nz: usize = (-pos) as usize;
        push_zeros(&mut out, nz);
        push_range(&mut out, md, l, l + m2len);
        proof {
            assert(out@ =~= sign + "0."@ + zeros(-(pos as int)) + m2);
        }
    }
    out
}

/// Classifies and canonically renders a real literal, shifted by `extra`
/// decimal places; `None` exactly when the literal grammar is not met.
pub fn canonical_number_chars(v: &Vec<char>, extra: i128) -> (r: Option<Vec<char>>)
    requires
        -0x100000000i128 <= extra <= 0x100000000i128,
    ensures
        r is Some <==> real_grammar(v@),
        r matches Some(o) ==> o@ == canonical_number(v@, extra as int),
{
    let n = v.len();
    if n == 0 {
        return None;
    }
    let c0 = v[0];
    let signed = c0 == '+' || c0 == '-';
    let neg = c0 == '-';
    let from: usize = if signed {
        1
    } else {
        0
    };
    let b = copy_range(v, from, n);
    proof {
        assert(b@ =~= strip_sign(v@));
    }
    if b.len() == 0 {
        return None;
    }
    if eqi_str(&b, "inf") || eqi_str(&b, "infinity") {
        return Some(inf_chars(neg));
    }
    if eqi_str(&b, "nan") {
        proof {
            reveal_strlit("NaN");
        }
        let mut r: Vec<char> = Vec::new();
        r.push('N');
        r.push('a');
        r.push('N');
        proof {
            assert(r@ =~= "NaN"@);
        }
        return Some(r);
    }
    let blen = b.len();
    let (mant_to, e): (usize, i128) = match find_char2_in(&b, 'e', 'E') {
        None => (blen, extra),
        Some(i) => {
            match parse_exp_chars(&b, i + 1) {
                None => {
                    return None;
                },
                Some(ev) => (i, ev + extra),
            }
        },
    };
    let mant = copy_range(&b, 0, mant_to);
    let ghost mants = mant@;
    proof {
        assert(mants =~= b@.take(mant_to as int));
        if mant_to == blen {
            assert(mants =~= b@);
        }
    }
    // split the mantissa at the decimal point
    match find_char2_in(&mant, '.', '.') {
        None => {
            if mant.len() == 0 || !all_digits_exec(&mant, 0, mant.len()) {
                proof {
                    assert(mants.subrange(0, mants.len() as int) =~= mants);
                }
                return None;
            }
            proof {
                assert(mants.subrange(0, mants.len() as int) =~= mants);
            }
            Some(canonical_decimal_chars(neg, &mant, e))
        },
        Some(d) => {
            let fplen: usize = mant.len() - d - 1;
            if !(d > 0 || fplen > 0) {
                return None;
            }
            if !all_digits_exec(&mant, 0, d) || !all_digits_exec(&mant, d + 1, mant.len()) {
                proof {
                    assert(mants.take(d as int) =~= mants.subrange(0, d as int));
                    assert(mants.skip(d as int + 1) =~= mants.subrange(
                        d as int + 1,
                        mants.len() as int,
                    ));
                }
                return None;
            }
            let mut mdv = copy_range(&mant, 0, d);
            let mut fpv = copy_range(&mant, d + 1, mant.len());
            proof {
                assert(mants.take(d as int) =~= mants.subrange(0, d as int));
                assert(mants.skip(d as int + 1) =~= mants.subrange(
                    d as int + 1,
                    mants.len() as int,
                ));
            }
            mdv.append(&mut fpv);
            proof {
                assert(mdv@ =~= mants.take(d as int) + mants.skip(d as int + 1));
            }
            Some(canonical_decimal_chars(neg, &mdv, e - fplen as i128))
        },
    }
}

} // verus!
