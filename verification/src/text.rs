//! Decimal rendering of integers into text.

use vstd::prelude::*;

verus! {

/// The character that stands for a single decimal digit.
pub open spec fn digit_char(d: nat) -> char
    recommends
        d < 10,
{
    if d == 0 {
        '0'
    } else if d == 1 {
        '1'
    } else if d == 2 {
        '2'
    } else if d == 3 {
        '3'
    } else if d == 4 {
        '4'
    } else if d == 5 {
        '5'
    } else if d == 6 {
        '6'
    } else if d == 7 {
        '7'
    } else if d == 8 {
        '8'
    } else {
        '9'
    }
}

/// Positional decimal notation of `n`, most significant digit first and
/// without leading zeros (zero itself is the single digit `0`).
pub open spec fn decimal_digits(n: nat) -> Seq<char>
    decreases n,
{
    if n < 10 {
        seq![digit_char(n)]
    } else {
        decimal_digits(n / 10).push(digit_char(n % 10))
    }
}

/// The lowest `width` decimal digits of `n`, most significant first and
/// padded with zeros on the left.
pub open spec fn fixed_digits(n: nat, width: nat) -> Seq<char>
    decreases width,
{
    if width == 0 {
        Seq::empty()
    } else {
        fixed_digits(n / 10, (width - 1) as nat).push(digit_char(n % 10))
    }
}

/// Fixed-width notation always has exactly `width` characters.
pub proof fn lemma_fixed_digits_len(n: nat, width: nat)
    ensures
        fixed_digits(n, width).len() == width,
    decreases width,
{
    if width > 0 {
        lemma_fixed_digits_len(n / 10, (width - 1) as nat);
    }
}

/// Appends one decimal digit to `out`.
fn append_digit(out: &mut String, d: u8)
    requires
        d < 10,
    ensures
        final(out)@ == old(out)@.push(digit_char(d as nat)),
{
    proof {
        reveal_strlit("0");
        reveal_strlit("1");
        reveal_strlit("2");
        reveal_strlit("3");
        reveal_strlit("4");
        reveal_strlit("5");
        reveal_strlit("6");
        reveal_strlit("7");
        reveal_strlit("8");
        reveal_strlit("9");
    }
    let glyph: &str = if d == 0 {
        "0"
    } else if d == 1 {
        "1"
    } else if d == 2 {
        "2"
    } else if d == 3 {
        "3"
    } else if d == 4 {
        "4"
    } else if d == 5 {
        "5"
    } else if d == 6 {
        "6"
    } else if d == 7 {
        "7"
    } else if d == 8 {
        "8"
    } else {
        "9"
    };
    assert(glyph@ =~= seq![digit_char(d as nat)]);
    out.append(glyph);
    assert(out@ =~= old(out)@.push(digit_char(d as nat)));
}

/// Appends the decimal notation of `n` to `out`.
pub fn append_decimal(out: &mut String, n: u128)
    ensures
        final(out)@ == old(out)@ + decimal_digits(n as nat),
    decreases n,
{
    if n >= 10 {
        append_decimal(out, n / 10);
    }
    append_digit(out, (n % 10) as u8);
    assert(out@ =~= old(out)@ + decimal_digits(n as nat));
}

/// Appends the lowest `width` decimal digits of `n` to `out`, zero-padded.
pub fn append_fixed(out: &mut String, n: u128, width: u8)
    ensures
        final(out)@ == old(out)@ + fixed_digits(n as nat, width as nat),
    decreases width,
{
    if width > 0 {
        append_fixed(out, n / 10, width - 1);
        append_digit(out, (n % 10) as u8);
    }
    assert(out@ =~= old(out)@ + fixed_digits(n as nat, width as nat));
}

} // verus!
