//! Opacities as they are written in a style sheet.
//!
//! An opacity is a decimal number. It is read as a single-precision number, so what counts is
//! the nearest such number to the one that is written: a number between zero and one, or one so
//! near to that interval that it is rounded into it.

use crate::text;
use vstd::prelude::*;

verus! {

/// The powers of ten.
pub open spec fn pow10(n: nat) -> nat
    decreases n,
{
    if n == 0 {
        1
    } else {
        10 * pow10((n - 1) as nat)
    }
}

pub open spec fn is_digit_char(c: char) -> bool {
    '0' <= c <= '9'
}

/// The number that a decimal digit stands for.
pub open spec fn digit_of(c: char) -> nat {
    (c as int - 48) as nat
}

/// The number that decimal digits spell.
pub open spec fn digits_value(s: Seq<char>) -> nat
    decreases s.len(),
{
    if s.len() == 0 {
        0
    } else {
        10 * digits_value(s.drop_last()) + digit_of(s.last())
    }
}

/// How many digits a text starts with.
pub open spec fn digit_run(s: Seq<char>) -> nat
    decreases s.len(),
{
    if s.len() > 0 && is_digit_char(s[0]) {
        1 + digit_run(s.drop_first())
    } else {
        0
    }
}

/// The number that a text of digits alone spells; such a text is not empty.
pub open spec fn natural_of(s: Seq<char>) -> Option<nat> {
    if s.len() > 0 && digit_run(s) == s.len() {
        Some(digits_value(s))
    } else {
        None
    }
}

/// A text without the sign it may start with, and whether that sign is a minus.
pub open spec fn sign_of(s: Seq<char>) -> (bool, Seq<char>) {
    if s.len() > 0 && s[0] == '-' {
        (true, s.drop_first())
    } else if s.len() > 0 && s[0] == '+' {
        (false, s.drop_first())
    } else {
        (false, s)
    }
}

/// The exponent that a text spells: digits, with or without a sign.
pub open spec fn exponent_of(s: Seq<char>) -> Option<int> {
    let (negative, digits) = sign_of(s);
    match natural_of(digits) {
        Some(n) => Some(if negative {
            -(n as int)
        } else {
            n as int
        }),
        None => None,
    }
}

/// The digits that a number starts with, those behind its point with the others; how many of
/// them stand behind the point; and what follows.
pub open spec fn mantissa_of(s: Seq<char>) -> (Seq<char>, nat, Seq<char>) {
    let whole = digit_run(s) as int;
    let rest = s.skip(whole);
    if rest.len() > 0 && rest[0] == '.' {
        let behind = rest.drop_first();
        let part = digit_run(behind);
        (s.take(whole) + behind.take(part as int), part, behind.skip(part as int))
    } else {
        (s.take(whole), 0, rest)
    }
}

/// A number without a sign: digits, a point and more digits (at least one digit in all), and an
/// exponent. It is given as a natural number and the power of ten that this is multiplied by.
pub open spec fn number_of(s: Seq<char>) -> Option<(nat, int)> {
    let (digits, part, tail) = mantissa_of(s);
    if digits.len() == 0 {
        None
    } else if tail.len() == 0 {
        Some((digits_value(digits), -part))
    } else if tail[0] == 'e' || tail[0] == 'E' {
        match exponent_of(tail.drop_first()) {
            Some(x) => Some((digits_value(digits), x - part)),
            None => None,
        }
    } else {
        None
    }
}

/// Whether `n` times ten to the power `e` is at most `limit`.
pub open spec fn scaled_at_most(n: nat, e: int, limit: nat) -> bool {
    if e >= 0 {
        n * pow10(e as nat) <= limit
    } else {
        n <= limit * pow10((-e) as nat)
    }
}

/// Whether a text is a number that single precision rounds to one between zero and one. Upwards
/// that reaches to the middle between one and its successor, 1 + 2^-24. Downwards it reaches to
/// the middle between zero and the greatest negative number, -2^-150.
pub open spec fn is_opacity(s: Seq<char>) -> bool {
    let (negative, unsigned) = sign_of(s);
    match number_of(unsigned) {
        Some((n, e)) => if negative {
            scaled_at_most(n * vstd::arithmetic::power2::pow2(150), e, 1)
        } else {
            scaled_at_most(
                n * vstd::arithmetic::power2::pow2(24),
                e,
                vstd::arithmetic::power2::pow2(24) + 1,
            )
        },
        None => false,
    }
}

/// The decimal digits of a number spell that number.
pub proof fn decimal_digits_spell_the_number(n: nat)
    ensures
        digits_value(text::decimal_digits(n)) == n,
    decreases n,
{
    let s = text::decimal_digits(n);
    if n < 10 {
        assert(digits_value(s.drop_last()) == 0);
    } else {
        decimal_digits_spell_the_number(n / 10);
        assert(s.drop_last() =~= text::decimal_digits(n / 10));
    }
}

/// Every number of hundredths below one is an opacity.
pub proof fn hundredths_are_opacities(tenth: char, hundredth: char)
    requires
        is_digit_char(tenth),
        is_digit_char(hundredth),
    ensures
        is_opacity(seq!['0', '.', tenth, hundredth]),
{
    let s = seq!['0', '.', tenth, hundredth];
    let behind = seq![tenth, hundredth];
    let digits = seq!['0', tenth, hundredth];
    assert(digit_run(s.drop_first()) == 0);
    assert(digit_run(s) == 1);
    assert(s.skip(1).drop_first() =~= behind);
    assert(digit_run(behind.drop_first().drop_first()) == 0);
    assert(digit_run(behind.drop_first()) == 1);
    assert(digit_run(behind) == 2);
    assert(s.take(1) + behind.take(2) =~= digits);
    assert(behind.skip(2).len() == 0);
    assert(digits_value(digits.drop_last().drop_last().drop_last()) == 0);
    assert(digits_value(digits.drop_last().drop_last()) == 0);
    assert(digits_value(digits.drop_last()) == digit_of(tenth));
    let n = digits_value(digits);
    assert(n == 10 * digit_of(tenth) + digit_of(hundredth));
    assert(number_of(s) == Some((n, -2)));
    assert(pow10(0) == 1);
    assert(pow10(1) == 10);
    assert(pow10(2) == 100);
    let p = vstd::arithmetic::power2::pow2(24);
    assert(n * p <= (p + 1) * 100) by (nonlinear_arith)
        requires
            n <= 100,
    ;
}

/// The characters that an opacity is written with.
pub open spec fn is_number_char(c: char) -> bool {
    is_digit_char(c) || c == '.' || c == '+' || c == '-' || c == 'e' || c == 'E'
}

/// An opacity is written with digits, a point, signs and the letter that leads an exponent.
pub proof fn opacity_chars(s: Seq<char>)
    requires
        is_opacity(s),
    ensures
        forall|c: char| #[trigger] s.contains(c) ==> is_number_char(c),
{
    let (negative, unsigned) = sign_of(s);
    let whole = digit_run(unsigned) as int;
    let rest = unsigned.skip(whole);
    let behind = rest.drop_first();
    let (digits, part, tail) = mantissa_of(unsigned);
    lemma_digit_run(unsigned);
    lemma_digit_run(behind);
    assert forall|c: char| #[trigger] s.contains(c) implies is_number_char(c) by {
        let i = choose|i: int| 0 <= i < s.len() && s[i] == c;
        let j = i - (s.len() - unsigned.len());
        if j >= 0 {
            assert(unsigned[j] == c);
            if j >= whole {
                assert(rest[j - whole] == c);
                if rest[0] == '.' && j > whole {
                    assert(behind[j - whole - 1] == c);
                    if j - whole - 1 >= part {
                        assert(tail[j - whole - 1 - part] == c);
                        lemma_exponent_chars(tail, j - whole - 1 - part);
                    }
                } else if rest[0] != '.' {
                    lemma_exponent_chars(tail, j - whole);
                }
            }
        }
    }
}

proof fn lemma_exponent_chars(tail: Seq<char>, i: int)
    requires
        0 <= i < tail.len(),
        tail[0] == 'e' || tail[0] == 'E',
        exponent_of(tail.drop_first()) is Some,
    ensures
        is_number_char(tail[i]),
{
    let s = tail.drop_first();
    let (negative, digits) = sign_of(s);
    lemma_digit_run(digits);
    if i > 0 {
        assert(s[i - 1] == tail[i]);
        let j = i - 1 - (s.len() - digits.len());
        if j >= 0 {
            assert(digits[j] == tail[i]);
        }
    }
}

proof fn lemma_digit_run(s: Seq<char>)
    ensures
        digit_run(s) <= s.len(),
        forall|i: int| 0 <= i < digit_run(s) ==> is_digit_char(#[trigger] s[i]),
    decreases s.len(),
{
    if s.len() > 0 && is_digit_char(s[0]) {
        lemma_digit_run(s.drop_first());
        assert forall|i: int| 0 <= i < digit_run(s) implies is_digit_char(#[trigger] s[i]) by {
            if i > 0 {
                assert(s.drop_first()[i - 1] == s[i]);
            }
        }
    }
}

proof fn lemma_pow10_adds(a: nat, b: nat)
    ensures
        pow10(a + b) == pow10(a) * pow10(b),
    decreases a,
{
    if a > 0 {
        lemma_pow10_adds((a - 1) as nat, b);
        assert(pow10(a + b) == 10 * pow10((a - 1 + b) as nat));
        assert(10 * (pow10((a - 1) as nat) * pow10(b)) == (10 * pow10((a - 1) as nat)) * pow10(b))
            by (nonlinear_arith);
    } else {
        assert(1 * pow10(b) == pow10(b));
    }
}

proof fn lemma_pow10_grows(a: nat, b: nat)
    requires
        a <= b,
    ensures
        1 <= pow10(a) <= pow10(b),
    decreases b,
{
    if a < b {
        lemma_pow10_grows(a, (b - 1) as nat);
    } else if a > 0 {
        lemma_pow10_grows((a - 1) as nat, (a - 1) as nat);
    }
}

/// The number whose decimal digits are given from the lowest to the highest.
spec fn low_first(v: Seq<u8>) -> nat
    decreases v.len(),
{
    if v.len() == 0 {
        0
    } else {
        low_first(v.drop_last()) + v.last() as nat * pow10((v.len() - 1) as nat)
    }
}

spec fn all_digits(v: Seq<u8>) -> bool {
    forall|i: int| 0 <= i < v.len() ==> #[trigger] v[i] < 10
}

proof fn lemma_low_first_bound(v: Seq<u8>)
    requires
        all_digits(v),
    ensures
        low_first(v) < pow10(v.len()),
    decreases v.len(),
{
    if v.len() > 0 {
        lemma_low_first_bound(v.drop_last());
        let p = pow10((v.len() - 1) as nat);
        let d = v.last();
        assert(d < 10);
        assert(d * p <= 9 * p) by (nonlinear_arith)
            requires
                d < 10,
        ;
    }
}

/// A number is its lower digits and, multiplied by a power of ten, its higher ones.
proof fn lemma_low_first_split(v: Seq<u8>, k: int)
    requires
        0 <= k <= v.len(),
    ensures
        low_first(v) == low_first(v.take(k)) + pow10(k as nat) * low_first(v.skip(k)),
    decreases v.len(),
{
    if k == v.len() {
        assert(v.take(k) =~= v);
        assert(v.skip(k).len() == 0);
        assert(pow10(k as nat) * 0 == 0);
    } else {
        let w = v.drop_last();
        lemma_low_first_split(w, k);
        assert(w.take(k) =~= v.take(k));
        assert(v.skip(k).drop_last() =~= w.skip(k));
        let n = (v.len() - 1 - k) as nat;
        lemma_pow10_adds(k as nat, n);
        let d = v.last() as nat;
        let p = pow10(k as nat);
        let q = pow10(n);
        let h = low_first(w.skip(k));
        assert(v.skip(k).last() == v.last());
        assert(low_first(v.skip(k)) == h + d * q);
        assert(low_first(v) == low_first(w) + d * (p * q));
        assert(p * (h + d * q) == p * h + d * (p * q)) by (nonlinear_arith);
    }
}

/// A digit below other digits.
proof fn lemma_low_first_front(v: Seq<u8>)
    requires
        v.len() > 0,
    ensures
        low_first(v) == v[0] + 10 * low_first(v.drop_first()),
{
    lemma_low_first_split(v, 1);
    assert(v.skip(1) =~= v.drop_first());
    let one = v.take(1);
    assert(low_first(one.drop_last()) == 0);
    assert(pow10(0) == 1);
    assert(pow10(1) == 10 * pow10(0));
    let d = v[0] as nat;
    assert(d * pow10(0) == d) by (nonlinear_arith)
        requires
            pow10(0) == 1,
    ;
    assert(low_first(one) == d);
}

/// A digit at the front of other digits.
proof fn lemma_digits_value_front(s: Seq<char>)
    requires
        s.len() > 0,
    ensures
        digits_value(s) == digit_of(s[0]) * pow10((s.len() - 1) as nat) + digits_value(
            s.drop_first(),
        ),
    decreases s.len(),
{
    if s.len() == 1 {
        assert(digits_value(s.drop_first()) == 0);
        assert(digits_value(s.drop_last()) == 0);
        let d = digit_of(s[0]);
        assert(d * pow10(0) == d) by (nonlinear_arith)
            requires
                pow10(0) == 1,
        ;
    } else {
        let w = s.drop_last();
        lemma_digits_value_front(w);
        assert(w.drop_first() =~= s.drop_first().drop_last());
        let d = digit_of(s[0]);
        let p = pow10((w.len() - 1) as nat);
        assert(pow10((s.len() - 1) as nat) == 10 * p);
        assert(w[0] == s[0]);
        assert(s.drop_first().last() == s.last());
        assert(digits_value(s) == 10 * (d * p + digits_value(w.drop_first())) + digit_of(s.last()));
        assert(digits_value(s.drop_first()) == 10 * digits_value(w.drop_first()) + digit_of(
            s.last(),
        ));
        assert(10 * (d * p) == d * (10 * p)) by (nonlinear_arith);
    }
}

fn is_digit(c: char) -> (r: bool)
    ensures
        r == is_digit_char(c),
{
    '0' <= c && c <= '9'
}

/// How many digits there are from place `start` on.
fn digits_from(chars: &[char], start: usize) -> (end: usize)
    requires
        start <= chars@.len(),
    ensures
        start <= end <= chars@.len(),
        end - start == digit_run(chars@.skip(start as int)),
        forall|i: int| start <= i < end ==> is_digit_char(#[trigger] chars@[i]),
{
    let mut end: usize = start;
    while end < chars.len() && is_digit(chars[end])
        invariant
            start <= end <= chars@.len(),
            digit_run(chars@.skip(start as int)) == (end - start) + digit_run(
                chars@.skip(end as int),
            ),
            forall|i: int| start <= i < end ==> is_digit_char(#[trigger] chars@[i]),
        decreases chars.len() - end,
    {
        assert(chars@.skip(end as int).drop_first() =~= chars@.skip(end + 1));
        end = end + 1;
    }
    end
}

/// The digits of a number from the lowest to the highest.
fn lowest_first(chars: &[char]) -> (r: Vec<u8>)
    requires
        forall|i: int| 0 <= i < chars@.len() ==> is_digit_char(#[trigger] chars@[i]),
    ensures
        low_first(r@) == digits_value(chars@),
        all_digits(r@),
        r@.len() == chars@.len(),
{
    let mut r: Vec<u8> = Vec::new();
    let mut i: usize = chars.len();
    assert(chars@.skip(i as int).len() == 0);
    while i > 0
        invariant
            i <= chars@.len(),
            forall|j: int| 0 <= j < chars@.len() ==> is_digit_char(#[trigger] chars@[j]),
            r@.len() == chars@.len() - i,
            all_digits(r@),
            low_first(r@) == digits_value(chars@.skip(i as int)),
        decreases i,
    {
        let ghost before = r@;
        let c: char = chars[i - 1];
        assert(is_digit_char(chars@[i - 1]));
        let d: u8 = (c as u32 - 48) as u8;
        r.push(d);
        i = i - 1;
        proof {
            let rest = chars@.skip(i as int);
            lemma_digits_value_front(rest);
            assert(rest.drop_first() =~= chars@.skip(i + 1));
            assert(r@.drop_last() =~= before);
            assert(digit_of(c) == d as nat);
        }
    }
    assert(chars@.skip(0) =~= chars@);
    r
}

/// Twice a number.
fn doubled(v: &Vec<u8>) -> (r: Vec<u8>)
    requires
        all_digits(v@),
    ensures
        all_digits(r@),
        low_first(r@) == 2 * low_first(v@),
{
    let mut r: Vec<u8> = Vec::new();
    let mut carry: u8 = 0;
    let mut i: usize = 0;
    assert(v@.take(0).len() == 0);
    assert(0 * pow10(0) == 0);
    while i < v.len()
        invariant
            i <= v@.len(),
            carry <= 1,
            all_digits(v@),
            all_digits(r@),
            r@.len() == i,
            low_first(r@) + carry * pow10(i as nat) == 2 * low_first(v@.take(i as int)),
        decreases v.len() - i,
    {
        let ghost before = r@;
        let ghost p = pow10(i as nat);
        let ghost c0 = carry;
        let d: u8 = v[i];
        assert(d < 10);
        let t: u8 = 2 * d + carry;
        if t >= 10 {
            r.push(t - 10);
            carry = 1;
        } else {
            r.push(t);
            carry = 0;
        }
        proof {
            let x = r@.last();
            assert(r@.drop_last() =~= before);
            assert(v@.take(i + 1).drop_last() =~= v@.take(i as int));
            assert(pow10((i + 1) as nat) == 10 * p);
            assert(2 * d + c0 == x + 10 * carry);
            assert(2 * (d * p) + c0 * p == x * p + carry * (10 * p)) by (nonlinear_arith)
                requires
                    2 * d + c0 == x + 10 * carry,
            ;
        }
        i = i + 1;
    }
    assert(v@.take(i as int) =~= v@);
    if carry == 1 {
        let ghost before = r@;
        r.push(1);
        assert(r@.drop_last() =~= before);
    }
    r
}

/// A number doubled so many times.
fn doubled_times(v: Vec<u8>, times: u32) -> (r: Vec<u8>)
    requires
        all_digits(v@),
    ensures
        all_digits(r@),
        low_first(r@) == low_first(v@) * vstd::arithmetic::power2::pow2(times as nat),
{
    let ghost start = low_first(v@);
    let mut r: Vec<u8> = v;
    let mut i: u32 = 0;
    proof {
        vstd::arithmetic::power2::lemma2_to64();
        assert(start * 1 == start);
    }
    while i < times
        invariant
            i <= times,
            all_digits(r@),
            low_first(r@) == start * vstd::arithmetic::power2::pow2(i as nat),
        decreases times - i,
    {
        let next = doubled(&r);
        proof {
            vstd::arithmetic::power2::lemma_pow2_unfold((i + 1) as nat);
            let p = vstd::arithmetic::power2::pow2(i as nat);
            assert(2 * (start * p) == start * (2 * p)) by (nonlinear_arith);
        }
        r = next;
        i = i + 1;
    }
    r
}

/// Whether every digit below place `k` is zero.
fn low_digits_are_zero(v: &Vec<u8>, k: usize) -> (r: bool)
    requires
        k <= v@.len(),
        all_digits(v@),
    ensures
        r == (low_first(v@.take(k as int)) == 0),
{
    let mut i: usize = 0;
    assert(v@.take(0).len() == 0);
    while i < k
        invariant
            i <= k <= v@.len(),
            all_digits(v@),
            low_first(v@.take(i as int)) == 0,
        decreases k - i,
    {
        assert(v@.take(i + 1).drop_last() =~= v@.take(i as int));
        let ghost p = pow10(i as nat);
        let d: u8 = v[i];
        proof {
            lemma_pow10_grows(0, i as nat);
        }
        if d != 0 {
            proof {
                assert(d * p >= 1) by (nonlinear_arith)
                    requires
                        d >= 1,
                        p >= 1,
                ;
                lemma_low_first_split(v@.take(k as int), i + 1);
                assert(v@.take(k as int).take(i + 1) =~= v@.take(i + 1));
                let high = low_first(v@.take(k as int).skip(i + 1));
                let q = pow10((i + 1) as nat);
                assert(q * high >= 0) by (nonlinear_arith);
            }
            return false;
        }
        assert(0 * p == 0);
        i = i + 1;
    }
    true
}

/// The number that the digits from place `k` on make, or `limit + 1` if it is over `limit`.
fn high_digits(v: &Vec<u8>, k: usize, limit: u64) -> (q: u64)
    requires
        k <= v@.len(),
        all_digits(v@),
        limit < 1_000_000_000,
    ensures
        low_first(v@.skip(k as int)) <= limit ==> q == low_first(v@.skip(k as int)),
        low_first(v@.skip(k as int)) > limit ==> q == limit + 1,
{
    let mut i: usize = v.len();
    let mut q: u64 = 0;
    assert(v@.skip(i as int).len() == 0);
    while i > k
        invariant
            k <= i <= v@.len(),
            all_digits(v@),
            limit < 1_000_000_000,
            q <= limit,
            q == low_first(v@.skip(i as int)),
        decreases i,
    {
        let d: u8 = v[i - 1];
        proof {
            let whole = v@.skip(i - 1);
            lemma_low_first_front(whole);
            assert(whole.drop_first() =~= v@.skip(i as int));
        }
        let next: u64 = 10 * q + d as u64;
        if next > limit {
            proof {
                lemma_low_first_split(v@.skip(k as int), i - 1 - k);
                assert(v@.skip(k as int).skip(i - 1 - k) =~= v@.skip(i - 1));
                lemma_pow10_grows(0, (i - 1 - k) as nat);
                let p = pow10((i - 1 - k) as nat);
                let n = low_first(v@.skip(i - 1));
                assert(p * n >= n) by (nonlinear_arith)
                    requires
                        p >= 1,
                ;
            }
            return limit + 1;
        }
        q = next;
        i = i - 1;
    }
    q
}

/// Compares a number, multiplied by a power of ten, with a limit.
fn at_most(v: &Vec<u8>, e: i128, limit: u64) -> (r: bool)
    requires
        all_digits(v@),
        1 <= limit < 1_000_000_000,
        e > i128::MIN,
    ensures
        r == scaled_at_most(low_first(v@), e as int, limit as nat),
{
    let ghost n = low_first(v@);
    if e < 0 {
        let k: i128 = -e;
        proof {
            lemma_low_first_bound(v@);
        }
        if k >= v.len() as i128 {
            proof {
                lemma_pow10_grows(v@.len(), k as nat);
                let p = pow10(k as nat);
                assert(limit * p >= p) by (nonlinear_arith)
                    requires
                        limit >= 1,
                ;
            }
            return true;
        }
        let k: usize = k as usize;
        let q: u64 = high_digits(v, k, limit);
        let exact: bool = low_digits_are_zero(v, k);
        proof {
            lemma_low_first_split(v@, k as int);
            lemma_low_first_bound(v@.take(k as int));
            let p = pow10(k as nat);
            let low = low_first(v@.take(k as int));
            let high = low_first(v@.skip(k as int));
            assert(n == low + p * high);
            assert(low < p);
            assert(high < limit ==> low + p * high <= limit * p) by (nonlinear_arith)
                requires
                    low < p,
            ;
            assert(high > limit ==> p * high > limit * p) by (nonlinear_arith)
                requires
                    p >= 1,
            ;
            assert(high == limit ==> p * high == limit * p) by (nonlinear_arith);
        }
        q < limit || (q == limit && exact)
    } else {
        let q: u64 = high_digits(v, 0, limit);
        assert(v@.skip(0) =~= v@);
        if q == 0 {
            assert(0 * pow10(e as nat) == 0);
            return true;
        }
        if q > limit || e >= 9 {
            proof {
                lemma_pow10_grows(0, e as nat);
                let p = pow10(e as nat);
                assert(n * p >= n && n * p >= p) by (nonlinear_arith)
                    requires
                        n >= 1,
                        p >= 1,
                ;
                if e >= 9 {
                    lemma_pow10_grows(9, e as nat);
                    reveal_with_fuel(pow10, 10);
                }
            }
            return false;
        }
        let mut scaled: u64 = q;
        let mut i: i128 = 0;
        assert(n * pow10(0) == n) by (nonlinear_arith)
            requires
                pow10(0) == 1,
        ;
        while i < e
            invariant
                0 <= i <= e < 9,
                n == low_first(v@),
                scaled <= limit < 1_000_000_000,
                scaled == n * pow10(i as nat),
            decreases e - i,
        {
            let ghost p = pow10(i as nat);
            proof {
                assert(pow10((i + 1) as nat) == 10 * p);
                assert(10 * (n * p) == n * (10 * p)) by (nonlinear_arith);
            }
            let next: u64 = 10 * scaled;
            i = i + 1;
            if next > limit {
                proof {
                    lemma_pow10_grows(i as nat, e as nat);
                    let small = pow10(i as nat);
                    let large = pow10(e as nat);
                    assert(n * small <= n * large) by (nonlinear_arith)
                        requires
                            small <= large,
                    ;
                }
                return false;
            }
            scaled = next;
        }
        true
    }
}

/// The greatest exponent that is told apart from greater ones. No text has that many digits.
const FAR: i128 = 1_000_000_000_000_000_000_000_000_000_000;

/// The number that digits spell, or `FAR` if it is that or more.
fn natural(chars: &[char]) -> (r: i128)
    requires
        forall|i: int| 0 <= i < chars@.len() ==> is_digit_char(#[trigger] chars@[i]),
    ensures
        0 <= r <= FAR,
        r < FAR ==> r == digits_value(chars@),
        r == FAR ==> digits_value(chars@) >= FAR,
{
    let mut r: i128 = 0;
    let mut i: usize = 0;
    assert(chars@.take(0).len() == 0);
    while i < chars.len()
        invariant
            i <= chars@.len(),
            forall|j: int| 0 <= j < chars@.len() ==> is_digit_char(#[trigger] chars@[j]),
            0 <= r <= FAR,
            r < FAR ==> r == digits_value(chars@.take(i as int)),
            r == FAR ==> digits_value(chars@.take(i as int)) >= FAR,
        decreases chars.len() - i,
    {
        let c: char = chars[i];
        assert(is_digit_char(chars@[i as int]));
        assert(chars@.take(i + 1).drop_last() =~= chars@.take(i as int));
        assert(chars@.take(i + 1).last() == c);
        let next: i128 = 10 * r + (c as u32 - 48) as i128;
        if next < FAR {
            r = next;
        } else {
            r = FAR;
        }
        i = i + 1;
    }
    assert(chars@.take(i as int) =~= chars@);
    r
}

/// Beyond the far exponents a comparison does not depend on the exponent any more.
proof fn lemma_far_exponent(v: Seq<u8>, near: int, far: int, limit: nat)
    requires
        all_digits(v),
        1 <= limit < 1_000_000_000,
        9 <= near <= far || (far <= near && near <= -(v.len() as int) && near < 0),
    ensures
        scaled_at_most(low_first(v), near, limit) == scaled_at_most(low_first(v), far, limit),
{
    let n = low_first(v);
    if near > 0 {
        lemma_pow10_grows(9, near as nat);
        lemma_pow10_grows(9, far as nat);
        reveal_with_fuel(pow10, 10);
        let p = pow10(near as nat);
        let q = pow10(far as nat);
        assert(n >= 1 ==> n * p >= p && n * q >= q) by (nonlinear_arith)
            requires
                p >= 1,
                q >= 1,
        ;
        assert(0 * p == 0 && 0 * q == 0);
    } else {
        lemma_low_first_bound(v);
        lemma_pow10_grows(v.len(), (-near) as nat);
        lemma_pow10_grows(v.len(), (-far) as nat);
        let p = pow10((-near) as nat);
        let q = pow10((-far) as nat);
        assert(limit * p >= p && limit * q >= q) by (nonlinear_arith)
            requires
                limit >= 1,
                p >= 1,
                q >= 1,
        ;
    }
}

/// Takes a sign off the start of a text.
fn split_sign(chars: &[char]) -> (r: (bool, Vec<char>))
    ensures
        (r.0, r.1@) == sign_of(chars@),
{
    if chars.len() > 0 && (chars[0] == '-' || chars[0] == '+') {
        let rest = text::slice_of(chars, 1, chars.len());
        assert(rest@ =~= chars@.drop_first());
        (chars[0] == '-', rest)
    } else {
        let rest = text::slice_of(chars, 0, chars.len());
        assert(rest@ =~= chars@);
        (false, rest)
    }
}

/// Reads an exponent; one at or beyond `FAR` or `-FAR` comes out as that.
fn exponent(chars: &[char]) -> (r: Option<i128>)
    ensures
        r is Some <==> exponent_of(chars@) is Some,
        r matches Some(x) ==> {
            let exact = exponent_of(chars@)->0;
            &&& -FAR <= x <= FAR
            &&& -FAR < x < FAR ==> x == exact
            &&& x == FAR ==> exact >= FAR
            &&& x == -FAR ==> exact <= -FAR
        },
{
    let (negative, digits) = split_sign(chars);
    let end: usize = digits_from(digits.as_slice(), 0);
    assert(digits@.skip(0) =~= digits@);
    if digits.len() == 0 || end != digits.len() {
        return None;
    }
    let n: i128 = natural(digits.as_slice());
    if negative {
        Some(-n)
    } else {
        Some(n)
    }
}

/// Whether an exponent is the right one, or as far out as the right one and not farther.
spec fn stands_for(e: int, exact: int) -> bool {
    ||| e == exact
    ||| FAR / 10 <= e <= exact
    ||| exact <= e <= -(FAR / 10)
}

/// Reads the digits of a number. They come with how many of them stand behind the point and
/// with the place of what follows.
fn mantissa(s: &[char]) -> (r: (Vec<char>, usize, usize))
    ensures
        r.2 <= s@.len(),
        (r.0@, r.1 as nat, s@.skip(r.2 as int)) == mantissa_of(s@),
        forall|i: int| 0 <= i < r.0@.len() ==> is_digit_char(#[trigger] r.0@[i]),
{
    let whole: usize = digits_from(s, 0);
    assert(s@.skip(0) =~= s@);
    let mut digits = text::slice_of(s, 0, whole);
    let ghost first = digits@;
    assert(first =~= s@.take(whole as int));
    assert forall|i: int| 0 <= i < first.len() implies is_digit_char(#[trigger] first[i]) by {
        assert(first[i] == s@[i]);
    }
    if whole < s.len() && s[whole] == '.' {
        let tail: usize = digits_from(s, whole + 1);
        let part: usize = tail - (whole + 1);
        let ghost behind = s@.skip(whole + 1);
        assert(s@.skip(whole as int).drop_first() =~= behind);
        let mut more = text::slice_of(s, whole + 1, tail);
        let ghost fraction = more@;
        assert(fraction =~= behind.take(part as int));
        assert(behind.skip(part as int) =~= s@.skip(tail as int));
        assert forall|i: int| 0 <= i < fraction.len() implies is_digit_char(
            #[trigger] fraction[i],
        ) by {
            assert(fraction[i] == s@[whole + 1 + i]);
        }
        digits.append(&mut more);
        assert(digits@ =~= first + fraction);
        (digits, part, tail)
    } else {
        (digits, 0, whole)
    }
}

/// Reads a number without a sign: its digits and its exponent.
fn number(s: &[char]) -> (r: Option<(Vec<char>, i128)>)
    ensures
        r is Some <==> number_of(s@) is Some,
        r matches Some((digits, e)) ==> {
            &&& e > i128::MIN
            &&& digits_value(digits@) == number_of(s@).unwrap().0
            &&& stands_for(e as int, number_of(s@).unwrap().1)
            &&& forall|i: int| 0 <= i < digits@.len() ==> is_digit_char(#[trigger] digits@[i])
        },
{
    let size: usize = s.len();
    let (digits, part, tail) = mantissa(s);
    if digits.len() == 0 {
        return None;
    }
    let mut scale: i128 = 0;
    if tail < size {
        if s[tail] != 'e' && s[tail] != 'E' {
            return None;
        }
        let behind = text::slice_of(s, tail + 1, size);
        assert(behind@ =~= s@.skip(tail as int).drop_first());
        match exponent(behind.as_slice()) {
            Some(x) => {
                scale = x;
            },
            None => {
                return None;
            },
        }
    }
    Some((digits, scale - part as i128))
}

/// Whether a text is a number that single precision rounds to one between zero and one.
pub fn is_opacity_text(chars: &[char]) -> (r: bool)
    ensures
        r == is_opacity(chars@),
{
    let (negative, s) = split_sign(chars);
    match number(s.as_slice()) {
        Some((digits, e)) => {
            let ghost exact = number_of(s@).unwrap().1;
            let plain = lowest_first(digits.as_slice());
            let limit: u64 = if negative {
                1
            } else {
                16777217
            };
            let v = doubled_times(
                plain,
                if negative {
                    150
                } else {
                    24
                },
            );
            let length: usize = v.len();
            proof {
                assert(vstd::arithmetic::power2::pow2(24) == 16777216) by {
                    vstd::arithmetic::power2::lemma2_to64();
                }
                if exact != e {
                    assert(length < FAR / 10);
                    lemma_far_exponent(v@, e as int, exact, limit as nat);
                }
            }
            at_most(&v, e, limit)
        },
        None => false,
    }
}

/// Where a run of digits ends.
proof fn lemma_digits_end(digits: Seq<char>, tail: Seq<char>)
    requires
        forall|i: int| 0 <= i < digits.len() ==> is_digit_char(#[trigger] digits[i]),
        tail.len() > 0 ==> !is_digit_char(tail[0]),
    ensures
        digit_run(digits + tail) == digits.len(),
        (digits + tail).take(digits.len() as int) == digits,
        (digits + tail).skip(digits.len() as int) == tail,
    decreases digits.len(),
{
    let s = digits + tail;
    if digits.len() == 0 {
        assert(s =~= tail);
    } else {
        let rest = digits.drop_first();
        assert forall|i: int| 0 <= i < rest.len() implies is_digit_char(#[trigger] rest[i]) by {
            assert(rest[i] == digits[i + 1]);
        }
        lemma_digits_end(rest, tail);
        assert(s.drop_first() =~= rest + tail);
        assert(is_digit_char(digits[0]));
    }
    assert(s.take(digits.len() as int) =~= digits);
    assert(s.skip(digits.len() as int) =~= tail);
}

/// A number is read as it is written: `whole` digits, a point and the digits `part` behind it
/// stand for all these digits, divided by ten as often as there are digits behind the point.
proof fn lemma_number_with_point(whole: Seq<char>, part: Seq<char>, tail: Seq<char>)
    requires
        forall|i: int| 0 <= i < whole.len() ==> is_digit_char(#[trigger] whole[i]),
        forall|i: int| 0 <= i < part.len() ==> is_digit_char(#[trigger] part[i]),
        tail.len() > 0 ==> !is_digit_char(tail[0]),
    ensures
        mantissa_of(whole + seq!['.'] + part + tail) == (whole + part, part.len(), tail),
{
    let s = whole + seq!['.'] + part + tail;
    let behind = part + tail;
    let rest = seq!['.'] + behind;
    assert(s =~= whole + rest);
    lemma_digits_end(whole, rest);
    assert(rest.drop_first() =~= behind);
    lemma_digits_end(part, tail);
}

/// Which numbers with a point and without an exponent are opacities: those from zero to one, and
/// as far above one as single precision does not tell from one, 2^-24; a sign in front of a
/// number other than zero is taken as what it is.
pub proof fn numbers_from_zero_to_one_are_opacities(whole: Seq<char>, part: Seq<char>)
    requires
        forall|i: int| 0 <= i < whole.len() ==> '0' <= #[trigger] whole[i] <= '9',
        forall|i: int| 0 <= i < part.len() ==> '0' <= #[trigger] part[i] <= '9',
        whole.len() + part.len() > 0,
    ensures
        ({
            let written = whole + seq!['.'] + part;
            let n = digits_value(whole + part);
            let ulp = vstd::arithmetic::power2::pow2(24);
            &&& is_opacity(written) <==> n * ulp <= (ulp + 1) * pow10(part.len())
            &&& is_opacity(seq!['+'] + written) <==> n * ulp <= (ulp + 1) * pow10(part.len())
            &&& n <= pow10(part.len()) ==> is_opacity(written)
            &&& n >= 2 * pow10(part.len()) ==> !is_opacity(written)
            &&& is_opacity(seq!['-'] + written) <==> n * vstd::arithmetic::power2::pow2(150)
                <= pow10(part.len())
            &&& n == 0 ==> is_opacity(seq!['-'] + written)
        }),
{
    let written = whole + seq!['.'] + part;
    let n = digits_value(whole + part);
    let ulp = vstd::arithmetic::power2::pow2(24);
    let low = vstd::arithmetic::power2::pow2(150);
    let p = pow10(part.len());
    vstd::arithmetic::power2::lemma_pow2_pos(24);
    assert(ulp == 0x100_0000) by {
        vstd::arithmetic::power2::lemma2_to64();
    }
    lemma_pow10_grows(0, part.len());
    assert(whole + seq!['.'] + part + Seq::<char>::empty() =~= written);
    lemma_number_with_point(whole, part, Seq::empty());
    assert(written[0] != '-' && written[0] != '+') by {
        if whole.len() > 0 {
            assert(written[0] == whole[0]);
        }
    }
    assert((seq!['+'] + written).drop_first() =~= written);
    assert((seq!['-'] + written).drop_first() =~= written);
    assert(number_of(written) == Some((n, -(part.len() as int))));
    assert(pow10(0) == 1);
    if part.len() == 0 {
        assert(n * ulp * 1 == n * ulp);
        assert((ulp + 1) * 1 == ulp + 1);
    }
    assert(n <= p ==> n * ulp <= (ulp + 1) * p) by (nonlinear_arith);
    assert(n >= 2 * p && p >= 1 && ulp == 0x100_0000 ==> n * ulp > (ulp + 1) * p) by
        (nonlinear_arith);
    assert(n == 0 ==> n * low == 0) by (nonlinear_arith);
}

/// A whole number is an opacity exactly if it is zero or one.
pub proof fn whole_opacities_are_zero_and_one(whole: Seq<char>)
    requires
        forall|i: int| 0 <= i < whole.len() ==> '0' <= #[trigger] whole[i] <= '9',
        whole.len() > 0,
    ensures
        is_opacity(whole) <==> digits_value(whole) <= 1,
        is_opacity(seq!['+'] + whole) <==> digits_value(whole) <= 1,
        is_opacity(seq!['-'] + whole) <==> digits_value(whole) == 0,
{
    let n = digits_value(whole);
    let ulp = vstd::arithmetic::power2::pow2(24);
    let low = vstd::arithmetic::power2::pow2(150);
    assert(ulp == 0x100_0000) by {
        vstd::arithmetic::power2::lemma2_to64();
    }
    assert(low > 1) by {
        vstd::arithmetic::power2::lemma_pow2_strictly_increases(0, 150);
        vstd::arithmetic::power2::lemma2_to64();
    }
    assert forall|i: int| 0 <= i < whole.len() implies is_digit_char(#[trigger] whole[i]) by {}
    lemma_digits_end(whole, Seq::empty());
    assert(whole + Seq::<char>::empty() =~= whole);
    assert(is_digit_char(whole[0]));
    assert((seq!['+'] + whole).drop_first() =~= whole);
    assert((seq!['-'] + whole).drop_first() =~= whole);
    assert(number_of(whole) == Some((n, 0int)));
    assert(pow10(0) == 1);
    assert(n * ulp * 1 <= ulp + 1 <==> n <= 1) by (nonlinear_arith)
        requires
            ulp == 0x100_0000,
    ;
    assert(n * low * 1 <= 1 <==> n == 0) by (nonlinear_arith)
        requires
            low > 1,
    ;
}

/// An exponent moves the point, whichever letter leads it: a number with the exponent `k` is an
/// opacity exactly if the number times ten to the power `k` is.
pub proof fn exponents_move_the_point(
    whole: Seq<char>,
    part: Seq<char>,
    exponent: Seq<char>,
    letter: char,
)
    requires
        forall|i: int| 0 <= i < whole.len() ==> '0' <= #[trigger] whole[i] <= '9',
        forall|i: int| 0 <= i < part.len() ==> '0' <= #[trigger] part[i] <= '9',
        forall|i: int| 0 <= i < exponent.len() ==> '0' <= #[trigger] exponent[i] <= '9',
        whole.len() + part.len() > 0,
        exponent.len() > 0,
        letter == 'e' || letter == 'E',
    ensures
        ({
            let written = whole + seq!['.'] + part + seq![letter];
            let n = digits_value(whole + part);
            let k = digits_value(exponent);
            let ulp = vstd::arithmetic::power2::pow2(24);
            let raised = if k >= part.len() {
                n * ulp * pow10((k - part.len()) as nat) <= ulp + 1
            } else {
                n * ulp <= (ulp + 1) * pow10((part.len() - k) as nat)
            };
            &&& is_opacity(written + exponent) <==> raised
            &&& is_opacity(written + seq!['+'] + exponent) <==> raised
            &&& is_opacity(written + seq!['-'] + exponent) <==> n * ulp <= (ulp + 1) * pow10(
                part.len() + k,
            )
        }),
{
    let written = whole + seq!['.'] + part + seq![letter];
    let n = digits_value(whole + part);
    let k = digits_value(exponent);
    let ulp = vstd::arithmetic::power2::pow2(24);
    assert(written[0] != '-' && written[0] != '+') by {
        if whole.len() > 0 {
            assert(written[0] == whole[0]);
        }
    }
    assert forall|i: int| 0 <= i < exponent.len() implies is_digit_char(#[trigger] exponent[i]) by {}
    lemma_digits_end(exponent, Seq::empty());
    assert(exponent + Seq::<char>::empty() =~= exponent);
    assert(natural_of(exponent) == Some(k));
    assert(is_digit_char(exponent[0]));
    let plain = seq![letter] + exponent;
    let plus = seq![letter, '+'] + exponent;
    let minus = seq![letter, '-'] + exponent;
    assert(written + exponent =~= whole + seq!['.'] + part + plain);
    assert(written + seq!['+'] + exponent =~= whole + seq!['.'] + part + plus);
    assert(written + seq!['-'] + exponent =~= whole + seq!['.'] + part + minus);
    lemma_number_with_point(whole, part, plain);
    lemma_number_with_point(whole, part, plus);
    lemma_number_with_point(whole, part, minus);
    assert(plain.drop_first() =~= exponent);
    assert(plus.drop_first() =~= seq!['+'] + exponent);
    assert(minus.drop_first() =~= seq!['-'] + exponent);
    assert((seq!['+'] + exponent).drop_first() =~= exponent);
    assert((seq!['-'] + exponent).drop_first() =~= exponent);
    assert(number_of(written + exponent) == Some((n, k - part.len())));
    assert(number_of(written + seq!['+'] + exponent) == Some((n, k - part.len())));
    assert(number_of(written + seq!['-'] + exponent) == Some((n, -k - part.len())));
    assert(pow10(0) == 1);
    if k == 0 && part.len() == 0 {
        assert(n * ulp * 1 == n * ulp);
        assert((ulp + 1) * 1 == ulp + 1);
    }
}

/// A number without a point is what it is with a point behind it, with an exponent or without.
pub proof fn point_may_be_left_out(whole: Seq<char>, tail: Seq<char>)
    requires
        forall|i: int| 0 <= i < whole.len() ==> '0' <= #[trigger] whole[i] <= '9',
        whole.len() > 0,
        tail.len() > 0 ==> tail[0] == 'e' || tail[0] == 'E',
    ensures
        is_opacity(whole + tail) == is_opacity(whole + seq!['.'] + tail),
{
    assert forall|i: int| 0 <= i < whole.len() implies is_digit_char(#[trigger] whole[i]) by {}
    lemma_digits_end(whole, tail);
    let nothing = Seq::<char>::empty();
    lemma_number_with_point(whole, nothing, tail);
    assert(whole + seq!['.'] + nothing + tail =~= whole + seq!['.'] + tail);
    assert(whole + nothing =~= whole);
    assert((whole + tail)[0] == whole[0]);
    assert((whole + seq!['.'] + tail)[0] == whole[0]);
}

/// A plus in front of a number that has no sign changes nothing.
pub proof fn plus_may_be_left_out(s: Seq<char>)
    requires
        s.len() > 0 ==> s[0] != '+' && s[0] != '-',
    ensures
        is_opacity(seq!['+'] + s) == is_opacity(s),
{
    assert((seq!['+'] + s).drop_first() =~= s);
}

/// Nothing is an opacity that has no digit in front of an exponent: not even a point, a sign or
/// nothing at all.
pub proof fn opacities_start_with_a_digit(s: Seq<char>)
    requires
        s.len() == 0 || (s[0] != '.' && s[0] != '+' && s[0] != '-' && !('0' <= s[0] <= '9')),
    ensures
        !is_opacity(s),
        !is_opacity(seq!['.'] + s),
        !is_opacity(seq!['+'] + s),
        !is_opacity(seq!['-'] + s),
{
    let nothing = Seq::<char>::empty();
    lemma_digits_end(nothing, s);
    assert(nothing + s =~= s);
    lemma_number_with_point(nothing, nothing, s);
    assert(nothing + seq!['.'] + nothing + s =~= seq!['.'] + s);
    assert((seq!['.'] + s)[0] == '.');
    assert((seq!['+'] + s).drop_first() =~= s);
    assert((seq!['-'] + s).drop_first() =~= s);
    assert(s.take(0).len() == 0);
    assert((nothing + nothing).len() == 0);
}

} // verus!
