//! Decimal numbers of seconds, read exactly as whole microseconds.

use vstd::prelude::*;

use crate::text::{all_digits, is_digit};

verus! {

/// Microseconds in one second.
pub const MICROS_PER_SECOND: u64 = 1_000_000;

/// Digits after the decimal point that are kept.
pub const FRACTION_DIGITS: usize = 6;

/// The index of the first `c` in `s`, or the length of `s` if there is none.
pub open spec fn first_index_of(s: Seq<char>, c: char) -> int
    decreases s.len(),
{
    if s.len() == 0 || s[0] == c {
        0
    } else {
        1 + first_index_of(s.drop_first(), c)
    }
}

/// The value of the digit `c`; zero for any other character.
pub open spec fn digit_of(c: char) -> nat {
    if is_digit(c) {
        (c as u32 - 0x30) as nat
    } else {
        0
    }
}

/// The number that the digit string `s` writes; zero for the empty string.
pub open spec fn digits_value(s: Seq<char>) -> nat
    decreases s.len(),
{
    if s.len() == 0 {
        0
    } else {
        digits_value(s.drop_last()) * 10 + digit_of(s.last())
    }
}

/// What stands before the decimal point of `s`.
pub open spec fn whole_part(s: Seq<char>) -> Seq<char> {
    s.take(first_index_of(s, '.'))
}

/// What stands after the decimal point of `s`; empty where it has none.
pub open spec fn fraction_part(s: Seq<char>) -> Seq<char> {
    if first_index_of(s, '.') < s.len() {
        s.skip(first_index_of(s, '.') + 1)
    } else {
        Seq::empty()
    }
}

/// Whether `s` is an unsigned decimal number: digits with at most one decimal
/// point among them, and at least one digit.
pub open spec fn is_decimal_number(s: Seq<char>) -> bool {
    &&& all_digits(whole_part(s))
    &&& all_digits(fraction_part(s))
    &&& whole_part(s).len() + fraction_part(s).len() > 0
}

/// The first six digits of the fraction `f`, with zeros where it is shorter.
pub open spec fn six_digits(f: Seq<char>) -> Seq<char> {
    Seq::new(
        6,
        |i: int|
            if i < f.len() {
                f[i]
            } else {
                '0'
            },
    )
}

/// The value of the decimal number `s` in microseconds, digits beyond the sixth
/// after the point cut off.
pub open spec fn number_micros(s: Seq<char>) -> nat {
    digits_value(whole_part(s)) * 1_000_000 + digits_value(six_digits(fraction_part(s)))
}

/// The microseconds that `s` stands for: `Some` exactly where `s` is a decimal
/// number whose value fits in 64 bits.
pub open spec fn micros_of(s: Seq<char>) -> Option<u64> {
    if is_decimal_number(s) && number_micros(s) <= u64::MAX {
        Some(number_micros(s) as u64)
    } else {
        None
    }
}

/// The first `c` is where none went before and one stands, or at the end.
pub proof fn lemma_first_index_of(s: Seq<char>, c: char, j: int)
    requires
        0 <= j <= s.len(),
        forall|k: int| 0 <= k < j ==> s[k] != c,
    ensures
        first_index_of(s, c) >= j,
        (j == s.len() || s[j] == c) ==> first_index_of(s, c) == j,
        first_index_of(s, c) <= s.len(),
    decreases j,
{
    lemma_first_index_of_bound(s, c);
    if j > 0 {
        let t = s.drop_first();
        assert forall|k: int| 0 <= k < j - 1 implies t[k] != c by {
            assert(t[k] == s[k + 1]);
        }
        lemma_first_index_of(t, c, j - 1);
    }
}

/// The first index of a character lies within the sequence or at its end, and
/// no earlier character is that one.
pub proof fn lemma_first_index_of_bound(s: Seq<char>, c: char)
    ensures
        0 <= first_index_of(s, c) <= s.len(),
        forall|k: int| 0 <= k < first_index_of(s, c) ==> s[k] != c,
        first_index_of(s, c) < s.len() ==> s[first_index_of(s, c)] == c,
    decreases s.len(),
{
    if s.len() == 0 || s[0] == c {
    } else {
        let t = s.drop_first();
        lemma_first_index_of_bound(t, c);
        assert forall|k: int| 0 <= k < first_index_of(s, c) implies s[k] != c by {
            if k > 0 {
                assert(t[k - 1] == s[k]);
            }
        }
    }
}

/// A digit string is worth at least as much as any of its beginnings.
pub proof fn lemma_digits_value_grows(s: Seq<char>, i: int)
    requires
        0 <= i <= s.len(),
    ensures
        digits_value(s.take(i)) <= digits_value(s),
    decreases s.len() - i,
{
    if i == s.len() {
        assert(s.take(i) =~= s);
    } else {
        lemma_digits_value_grows(s.drop_last(), i);
        assert(s.drop_last().take(i) =~= s.take(i));
    }
}

/// Ten to the power `k`.
pub open spec fn pow10(k: nat) -> nat
    decreases k,
{
    if k == 0 {
        1
    } else {
        10 * pow10((k - 1) as nat)
    }
}

/// Powers of ten grow with the exponent.
pub proof fn lemma_pow10_grows(a: nat, b: nat)
    requires
        a <= b,
    ensures
        pow10(a) <= pow10(b),
    decreases b - a,
{
    if a < b {
        lemma_pow10_grows(a, (b - 1) as nat);
    }
}

/// The value of the digit `c`, if it is one.
pub fn digit_value(c: char) -> (d: Option<u8>)
    ensures
        d is Some == is_digit(c),
        d matches Some(v) ==> v as nat == digit_of(c) && v < 10,
{
    let u: u32 = c as u32;
    if 0x30 <= u && u <= 0x39 {
        Some((u - 0x30) as u8)
    } else {
        None
    }
}

/// Reads a decimal number of seconds as whole microseconds.
///
/// The result is `None` where `s` is not a decimal number, and where its value
/// does not fit in 64 bits.
pub fn parse_micros(s: &[char]) -> (r: Option<u64>)
    ensures
        r == micros_of(s@),
{
    let limit: u64 = u64::MAX / MICROS_PER_SECOND;
    let n = s.len();
    let mut whole: u64 = 0;
    let mut i: usize = 0;
    assert(s@.take(0) =~= Seq::<char>::empty());
    while i < n && s[i] != '.'
        invariant
            n == s.len(),
            limit == u64::MAX / 1_000_000,
            i <= n,
            forall|k: int| 0 <= k < i ==> s@[k] != '.' && is_digit(s@[k]),
            whole as nat == digits_value(s@.take(i as int)),
            whole <= limit,
        decreases n - i,
    {
        proof {
            lemma_first_index_of(s@, '.', i as int + 1);
        }
        match digit_value(s[i]) {
            None => {
                assert(whole_part(s@)[i as int] == s@[i as int]);
                return None;
            },
            Some(d) => {
                assert(s@.take(i + 1).drop_last() =~= s@.take(i as int));
                whole = whole * 10 + d as u64;
                if whole > limit {
                    proof {
                        lemma_digits_value_grows(whole_part(s@), i as int + 1);
                        assert(whole_part(s@).take(i as int + 1) =~= s@.take(i as int + 1));
                        assert(number_micros(s@) >= (limit + 1) * 1_000_000) by (nonlinear_arith)
                            requires
                                number_micros(s@) >= digits_value(whole_part(s@)) * 1_000_000,
                                digits_value(whole_part(s@)) >= limit + 1,
                        ;
                    }
                    return None;
                }
            },
        }
        i += 1;
    }
    proof {
        lemma_first_index_of(s@, '.', i as int);
        assert(whole_part(s@) == s@.take(i as int));
        assert(all_digits(whole_part(s@)));
    }
    let ghost frac = fraction_part(s@);
    let start: usize = if i < n {
        i + 1
    } else {
        n
    };
    assert(frac =~= s@.skip(start as int));
    let mut part: u64 = 0;
    let mut k: usize = 0;
    assert(six_digits(frac).take(0) =~= Seq::<char>::empty());
    while k < FRACTION_DIGITS
        invariant
            n == s.len(),
            i <= start <= n,
            frac == s@.skip(start as int),
            frac == fraction_part(s@),
            k <= 6,
            part as nat == digits_value(six_digits(frac).take(k as int)),
            part < 1_000_000,
            part < pow10(k as nat),
            forall|j: int| 0 <= j < k && j < frac.len() ==> is_digit(frac[j]),
        decreases 6 - k,
    {
        let c: char = if k < n - start {
            s[start + k]
        } else {
            '0'
        };
        assert(c == six_digits(frac)[k as int]);
        match digit_value(c) {
            None => {
                assert(is_digit('0'));
                assert(k < frac.len());
                assert(frac[k as int] == s@[start + k]);
                assert(!all_digits(frac));
                return None;
            },
            Some(d) => {
                assert(six_digits(frac).take(k + 1).drop_last() =~= six_digits(frac).take(
                    k as int,
                ));
                assert(pow10(k as nat + 1) == 10 * pow10(k as nat));
                assert(pow10(6) == 1_000_000) by {
                    reveal_with_fuel(pow10, 7);
                }
                assert(pow10(k as nat + 1) <= pow10(6)) by {
                    lemma_pow10_grows(k as nat + 1, 6);
                }
                part = part * 10 + d as u64;
            },
        }
        k += 1;
    }
    assert(six_digits(frac).take(6) =~= six_digits(frac));
    let mut j: usize = if n - start < FRACTION_DIGITS {
        n
    } else {
        start + FRACTION_DIGITS
    };
    while j < n
        invariant
            n == s.len(),
            start <= j <= n,
            frac == s@.skip(start as int),
            frac == fraction_part(s@),
            forall|m: int| 0 <= m < j - start ==> is_digit(frac[m]),
        decreases n - j,
    {
        if digit_value(s[j]).is_none() {
            assert(frac[j - start] == s@[j as int]);
            assert(!all_digits(frac));
            return None;
        }
        j += 1;
    }
    assert(all_digits(frac));
    if i + (n - start) == 0 {
        return None;
    }
    let total: u128 = whole as u128 * 1_000_000 + part as u128;
    if total > u64::MAX as u128 {
        return None;
    }
    Some(total as u64)
}

/// `s` without a sign in front.
pub open spec fn unsigned_part(s: Seq<char>) -> Seq<char> {
    if s.len() > 0 && (s[0] == '-' || s[0] == '+') {
        s.skip(1)
    } else {
        s
    }
}

/// The number that the numeral `s` writes: a minus sign negates the digits
/// that follow it.
pub open spec fn numeral_value(s: Seq<char>) -> int {
    if s.len() > 0 && s[0] == '-' {
        -(digits_value(unsigned_part(s)) as int)
    } else {
        digits_value(unsigned_part(s)) as int
    }
}

/// The integer that `s` writes: `Some` exactly where `s` is a numeral, that
/// is one or more digits with at most one sign in front, whose value fits in
/// 64 bits.
pub open spec fn integer_of(s: Seq<char>) -> Option<i64> {
    if unsigned_part(s).len() > 0 && all_digits(unsigned_part(s)) && i64::MIN <= numeral_value(s)
        <= i64::MAX {
        Some(numeral_value(s) as i64)
    } else {
        None
    }
}

/// Reads a signed decimal numeral.
///
/// The result is `None` where `s` is not a numeral, and where its value does
/// not fit in 64 bits.
pub fn parse_integer(s: &[char]) -> (r: Option<i64>)
    ensures
        r == integer_of(s@),
{
    let n = s.len();
    let negative = n > 0 && s[0] == '-';
    let start: usize = if n > 0 && (s[0] == '-' || s[0] == '+') {
        1
    } else {
        0
    };
    let ghost digits = unsigned_part(s@);
    assert(digits =~= s@.skip(start as int));
    if start == n {
        return None;
    }
    let limit: u128 = 0x8000_0000_0000_0000;
    let mut size: u128 = 0;
    let mut i: usize = start;
    assert(digits.take(0) =~= Seq::<char>::empty());
    while i < n
        invariant
            n == s.len(),
            start <= i <= n,
            digits == s@.skip(start as int),
            digits == unsigned_part(s@),
            limit == 0x8000_0000_0000_0000,
            size <= limit,
            size as nat == digits_value(digits.take(i - start)),
            forall|k: int| 0 <= k < i - start ==> is_digit(digits[k]),
        decreases n - i,
    {
        match digit_value(s[i]) {
            None => {
                assert(digits[i - start] == s@[i as int]);
                assert(!all_digits(digits));
                return None;
            },
            Some(d) => {
                assert(digits[i - start] == s@[i as int]);
                assert(digits.take(i - start + 1).drop_last() =~= digits.take(i - start));
                size = size * 10 + d as u128;
                if size > limit {
                    proof {
                        lemma_digits_value_grows(digits, i - start + 1);
                    }
                    return None;
                }
            },
        }
        i += 1;
    }
    assert(digits.take(n - start) =~= digits);
    if negative {
        Some((-(size as i128)) as i64)
    } else if size == limit {
        None
    } else {
        Some(size as i64)
    }
}

} // verus!
