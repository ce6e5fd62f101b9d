//! Durations in whole seconds, written as hours, minutes and seconds.

use vstd::prelude::*;

use crate::text::{decimal, decimal_chars, pad_left, push_padded, string_of};

verus! {

/// A number written with at least two characters: zeros fill up a short one,
/// and a minus sign counts as a character.
pub open spec fn two_digits(v: int) -> Seq<char> {
    if v < 0 {
        seq!['-'] + decimal((-v) as nat)
    } else {
        pad_left(decimal(v as nat), 2, '0')
    }
}

/// The number of size `size`, negative where `negative` is set.
pub open spec fn with_sign(negative: bool, size: int) -> int {
    if negative {
        -size
    } else {
        size
    }
}

/// `seconds` written as `HH:MM:SS`. The hours take as many digits as they
/// need. A negative duration has each part rounded toward zero and the minus
/// sign on every part that is not zero.
pub open spec fn clock_text(seconds: int) -> Seq<char> {
    let negative = seconds < 0;
    let size = with_sign(negative, seconds);
    two_digits(with_sign(negative, size / 3600)) + seq![':'] + two_digits(
        with_sign(negative, (size % 3600) / 60),
    ) + seq![':'] + two_digits(with_sign(negative, size % 60))
}

/// Appends the number of size `size`, negative where `negative` is set, with
/// at least two characters.
fn push_two_digits(out: &mut Vec<char>, negative: bool, size: u64)
    ensures
        final(out)@ == old(out)@ + two_digits(with_sign(negative, size as int)),
{
    let digits = decimal_chars(size);
    if negative && size > 0 {
        out.push('-');
        crate::text::push_all(out, digits.as_slice());
        assert(out@ =~= old(out)@ + (seq!['-'] + decimal(size as nat)));
    } else {
        push_padded(out, digits.as_slice(), 2, '0');
    }
}

/// Writes a duration of `seconds` seconds as `HH:MM:SS`.
pub fn duration_to_string(seconds: i64) -> (text: String)
    ensures
        text@ == clock_text(seconds as int),
{
    let negative = seconds < 0;
    let size: u64 = if negative {
        (-(seconds + 1)) as u64 + 1
    } else {
        seconds as u64
    };
    let hours: u64 = size / 3600;
    let minutes: u64 = (size % 3600) / 60;
    let rest: u64 = size % 60;
    let mut out: Vec<char> = Vec::new();
    push_two_digits(&mut out, negative, hours);
    out.push(':');
    push_two_digits(&mut out, negative, minutes);
    out.push(':');
    push_two_digits(&mut out, negative, rest);
    assert(out@ =~= clock_text(seconds as int));
    string_of(out.as_slice())
}

} // verus!
