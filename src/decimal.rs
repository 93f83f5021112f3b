//! Decimal rendering and parsing of unsigned numbers.

use vstd::prelude::*;

use crate::text::{find_char, index_or_end};

verus! {

/// The character of a decimal digit.
pub open spec fn digit_char(d: nat) -> char {
    if d == 0 { '0' }
    else if d == 1 { '1' }
    else if d == 2 { '2' }
    else if d == 3 { '3' }
    else if d == 4 { '4' }
    else if d == 5 { '5' }
    else if d == 6 { '6' }
    else if d == 7 { '7' }
    else if d == 8 { '8' }
    else { '9' }
}

/// The decimal representation of `n`: most significant digit first, no
/// leading zeros, and `"0"` for zero.
pub open spec fn decimal_digits(n: nat) -> Seq<char>
    decreases n,
{
    if n < 10 {
        seq![digit_char(n)]
    } else {
        decimal_digits(n / 10).push(digit_char(n % 10))
    }
}

fn digit_str(d: u64) -> (r: &'static str)
    requires
        d < 10,
    ensures
        r@ == seq![digit_char(d as nat)],
{
    proof {
        reveal_strlit("0");
        reveal_strlit("1");
        reveal_strlit("2");
        reveal_strlit("3");
        reveal_strlit("4");
        reveal_strlit("5");
        reveal_strlit("6");
        reveal_strlit("7");
        reveal_strlit("8");
        reveal_strlit("9");
    }
    if d == 0 { "0" }
    else if d == 1 { "1" }
    else if d == 2 { "2" }
    else if d == 3 { "3" }
    else if d == 4 { "4" }
    else if d == 5 { "5" }
    else if d == 6 { "6" }
    else if d == 7 { "7" }
    else if d == 8 { "8" }
    else { "9" }
}

/// Appends the decimal representation of `n` to `out`.
pub fn push_decimal(out: &mut String, n: u64)
    ensures
        final(out)@ == old(out)@ + decimal_digits(n as nat),
    decreases n,
{
    if n >= 10 {
        push_decimal(out, n / 10);
    }
    out.append(digit_str(n % 10));
    proof {
        if n >= 10 {
            assert(decimal_digits(n as nat) == decimal_digits((n / 10) as nat).push(
                digit_char((n % 10) as nat),
            ));
        }
    }
    assert(final(out)@ =~= old(out)@ + decimal_digits(n as nat));
}

/// The decimal representation of `n`.
pub fn decimal_string(n: u64) -> (r: String)
    ensures
        r@ == decimal_digits(n as nat),
{
    let mut s = String::new();
    push_decimal(&mut s, n);
    assert(s@ =~= decimal_digits(n as nat));
    s
}


/// `10^k`.
pub open spec fn pow10(k: nat) -> nat
    decreases k,
{
    if k == 0 {
        1
    } else {
        10 * pow10((k - 1) as nat)
    }
}

pub open spec fn is_digit(c: char) -> bool {
    '0' <= c && c <= '9'
}

pub open spec fn digit_value(c: char) -> nat {
    (c as u32 - '0' as u32) as nat
}

pub open spec fn all_digits(s: Seq<char>) -> bool {
    forall|i: int| 0 <= i < s.len() ==> is_digit(#[trigger] s[i])
}

/// The number that a string of decimal digits denotes.
pub open spec fn digits_value(s: Seq<char>) -> nat
    decreases s.len(),
{
    if s.len() == 0 {
        0
    } else {
        digits_value(s.drop_last()) * 10 + digit_value(s.last())
    }
}

/// The most digits a decimal number may have in total; with this many the
/// digits always fit in a `u64`.
pub const MAX_DECIMAL_DIGITS: usize = 19;

/// A decimal number `whole[.frac]` with at least one digit and at most
/// `MAX_DECIMAL_DIGITS` digits, as `(m, k)` with value `m / 10^k`: `m` is all
/// its digits read as one integer and `k` the number of digits after the point.
pub open spec fn decimal_value(s: Seq<char>) -> Option<(nat, nat)> {
    let p = index_or_end(s, '.');
    let whole = s.take(p as int);
    let frac = if p < s.len() { s.skip(p + 1 as int) } else { Seq::<char>::empty() };
    if all_digits(whole) && all_digits(frac) && whole.len() + frac.len() >= 1
        && whole.len() + frac.len() <= MAX_DECIMAL_DIGITS {
        Some((digits_value(whole) * pow10(frac.len()) + digits_value(frac), frac.len()))
    } else {
        None
    }
}

proof fn lemma_pow10_positive(k: nat)
    ensures
        pow10(k) >= 1,
    decreases k,
{
    if k > 0 {
        lemma_pow10_positive((k - 1) as nat);
    }
}

proof fn lemma_pow10_monotone(a: nat, b: nat)
    requires
        a <= b,
    ensures
        pow10(a) <= pow10(b),
    decreases b,
{
    if a < b {
        lemma_pow10_monotone(a, (b - 1) as nat);
        lemma_pow10_positive((b - 1) as nat);
    }
}

proof fn lemma_pow10_19()
    ensures
        pow10(19) == 10_000_000_000_000_000_000nat,
{
    reveal_with_fuel(pow10, 20);
}

/// `10^k` as a machine integer.
pub fn pow10_u128(k: u32) -> (r: u128)
    requires
        k <= 19,
    ensures
        r == pow10(k as nat),
        r >= 1,
{
    let mut r: u128 = 1;
    let mut i: u32 = 0;
    while i < k
        invariant
            i <= k <= 19,
            r == pow10(i as nat),
            r >= 1,
        decreases k - i,
    {
        proof {
            lemma_pow10_monotone(i as nat, 18);
            reveal_with_fuel(pow10, 20);
        }
        r = r * 10;
        i = i + 1;
    }
    r
}

/// Reads the digits of `s` in `[from, to)` as one number.
fn read_digits(s: &str, from: usize, to: usize) -> (r: u64)
    requires
        from <= to <= s@.len(),
        to - from <= MAX_DECIMAL_DIGITS,
        all_digits(s@.subrange(from as int, to as int)),
    ensures
        r == digits_value(s@.subrange(from as int, to as int)),
{
    let mut acc: u64 = 0;
    let mut i: usize = from;
    proof {
        lemma_pow10_19();
    }
    while i < to
        invariant
            from <= i <= to <= s@.len(),
            to - from <= MAX_DECIMAL_DIGITS,
            all_digits(s@.subrange(from as int, to as int)),
            pow10(19) == 10_000_000_000_000_000_000nat,
            acc == digits_value(s@.subrange(from as int, i as int)),
            acc < pow10((i - from) as nat),
        decreases to - i,
    {
        let c = s.get_char(i);
        assert(s@.subrange(from as int, to as int)[i - from] == c);
        let d = (c as u32 - '0' as u32) as u64;
        proof {
            lemma_pow10_monotone((i - from + 1) as nat, 19);
            assert(pow10((i - from + 1) as nat) == 10 * pow10((i - from) as nat));
            assert(acc * 10 + d < 10 * pow10((i - from) as nat)) by (nonlinear_arith)
                requires
                    acc < pow10((i - from) as nat),
                    d < 10,
            ;
            let prev = s@.subrange(from as int, i as int);
            let next = s@.subrange(from as int, i + 1);
            assert(next.drop_last() =~= prev);
            assert(next.last() == c);
        }
        acc = acc * 10 + d;
        i = i + 1;
    }
    acc
}

/// Parses a decimal number `whole[.frac]`; `None` unless `decimal_value`
/// accepts `s`.
pub fn parse_decimal(s: &str) -> (r: Option<(u64, u32)>)
    ensures
        match decimal_value(s@) {
            Some((m, k)) => r == Some((m as u64, k as u32)) && m <= u64::MAX && k <= 19,
            None => r.is_none(),
        },
{
    let n = s.unicode_len();
    let p = find_char(s, '.');
    let frac_from: usize = if p < n { p + 1 } else { n };
    let ghost whole = s@.take(p as int);
    let ghost frac = if p < n { s@.skip(p + 1) } else { Seq::<char>::empty() };
    assert(whole =~= s@.subrange(0, p as int));
    assert(frac =~= s@.subrange(frac_from as int, n as int));
    let whole_len = p;
    let frac_len = n - frac_from;
    if whole_len + frac_len == 0 || whole_len + frac_len > MAX_DECIMAL_DIGITS {
        return None;
    }
    let mut i: usize = 0;
    while i < n
        invariant
            i <= n == s@.len(),
            p <= n,
            frac_from == (if p < n { (p + 1) as usize } else { n }),
            forall|k: int| 0 <= k < i && k != p ==> is_digit(s@[k]),
            whole =~= s@.subrange(0, p as int),
            frac =~= s@.subrange(frac_from as int, n as int),
            index_or_end(s@, '.') == p,
            whole == s@.take(p as int),
            frac == (if p < n { s@.skip(p + 1) } else { Seq::<char>::empty() }),
        decreases n - i,
    {
        let c = s.get_char(i);
        if i != p && !('0' <= c && c <= '9') {
            proof {
                if i < p {
                    assert(whole[i as int] == c);
                    assert(!all_digits(whole));
                } else {
                    assert(frac[i - frac_from] == c);
                    assert(!all_digits(frac));
                }
                assert(decimal_value(s@).is_none());
            }
            return None;
        }
        i = i + 1;
    }
    assert(all_digits(whole)) by {
        assert forall|k: int| 0 <= k < whole.len() implies is_digit(#[trigger] whole[k]) by {
            assert(whole[k] == s@[k]);
        }
    }
    assert(all_digits(frac)) by {
        assert forall|k: int| 0 <= k < frac.len() implies is_digit(#[trigger] frac[k]) by {
            assert(frac[k] == s@[frac_from + k]);
        }
    }
    let w = read_digits(s, 0, p);
    let f = read_digits(s, frac_from, n);
    proof {
        lemma_pow10_19();
        lemma_pow10_monotone(frac_len as nat, 19);
        lemma_pow10_monotone((whole_len + frac_len) as nat, 19);
        lemma_digits_bound(whole);
        lemma_digits_bound(frac);
        lemma_pow10_add(whole_len as nat, frac_len as nat);
        assert(w * pow10(frac_len as nat) + f < pow10((whole_len + frac_len) as nat))
            by (nonlinear_arith)
            requires
                w < pow10(whole_len as nat),
                f < pow10(frac_len as nat),
                pow10((whole_len + frac_len) as nat) == pow10(whole_len as nat) * pow10(
                    frac_len as nat,
                ),
        ;
    }
    let scale = pow10_u128(frac_len as u32);
    let m = (w as u128) * scale + (f as u128);
    Some((m as u64, frac_len as u32))
}

proof fn lemma_digits_bound(s: Seq<char>)
    requires
        all_digits(s),
    ensures
        digits_value(s) < pow10(s.len()),
    decreases s.len(),
{
    if s.len() > 0 {
        let t = s.drop_last();
        assert(all_digits(t)) by {
            assert forall|k: int| 0 <= k < t.len() implies is_digit(#[trigger] t[k]) by {
                assert(t[k] == s[k]);
            }
        }
        lemma_digits_bound(t);
        assert(is_digit(s[s.len() - 1]));
        let d = digit_value(s.last());
        assert(digits_value(t) * 10 + d < pow10(t.len()) * 10) by (nonlinear_arith)
            requires
                digits_value(t) < pow10(t.len()),
                d < 10,
        ;
    }
}

proof fn lemma_pow10_add(a: nat, b: nat)
    ensures
        pow10(a + b) == pow10(a) * pow10(b),
    decreases a,
{
    if a > 0 {
        let c = (a - 1) as nat;
        lemma_pow10_add(c, b);
        assert(pow10(a) == 10 * pow10(c));
        assert(pow10(c + b + 1) == 10 * pow10(c + b));
        assert(a + b == c + b + 1);
        assert(10 * (pow10(c) * pow10(b)) == (10 * pow10(c)) * pow10(b)) by (nonlinear_arith);
        assert(pow10(a + b) == 10 * (pow10(c) * pow10(b)));
        assert(pow10(a + b) == pow10(a) * pow10(b));
    } else {
        assert(a + b == b);
        assert(pow10(a) == 1);
        assert(pow10(a + b) == pow10(a) * pow10(b));
    }
}

} // verus!
