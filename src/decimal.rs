//! Decimal rendering of unsigned integers into ASCII bytes, with and without
//! a minimum width filled by leading zeros.

use vstd::prelude::*;

verus! {

/// The ASCII byte of the decimal digit `d` (`d < 10`).
pub open spec fn ascii_digit(d: nat) -> u8 {
    (d + 48) as u8
}

/// The shortest decimal form of `n`, most significant digit first.
pub open spec fn decimal(n: nat) -> Seq<u8>
    decreases n,
{
    if n < 10 {
        seq![ascii_digit(n)]
    } else {
        decimal(n / 10).push(ascii_digit(n % 10))
    }
}

/// `n` in decimal, with leading zeros added up to `width` digits; a longer
/// form is kept whole.
pub open spec fn zero_padded(n: nat, width: nat) -> Seq<u8> {
    if decimal(n).len() < width {
        Seq::new((width - decimal(n).len()) as nat, |_i: int| 48u8) + decimal(n)
    } else {
        decimal(n)
    }
}

/// Appends the decimal form of `n` to `out`.
pub fn push_decimal(out: &mut Vec<u8>, n: u64)
    ensures
        final(out)@ == old(out)@ + decimal(n as nat),
    decreases n,
{
    let ghost start = out@;
    if n >= 10 {
        push_decimal(out, n / 10);
    }
    out.push((n % 10) as u8 + 48u8);
    assert(out@ =~= start + decimal(n as nat));
}

/// Appends `n` in decimal to `out`, zero-filled on the left to `width` digits.
pub fn push_zero_padded(out: &mut Vec<u8>, n: u64, width: usize)
    ensures
        final(out)@ == old(out)@ + zero_padded(n as nat, width as nat),
{
    let ghost start = out@;
    let mut digits: Vec<u8> = Vec::new();
    push_decimal(&mut digits, n);
    assert(digits@ =~= decimal(n as nat));
    let mut filled: usize = digits.len();
    while filled < width
        invariant
            digits@ == decimal(n as nat),
            digits@.len() <= filled,
            filled <= width || filled == digits@.len(),
            out@ =~= start + Seq::new((filled - digits@.len()) as nat, |_i: int| 48u8),
        decreases width - filled,
    {
        out.push(48u8);
        filled = filled + 1;
    }
    out.append(&mut digits);
    assert(out@ =~= start + zero_padded(n as nat, width as nat));
}

} // verus!
