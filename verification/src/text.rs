//! Decimal rendering of the numbers that appear in a frame's textual suffix.
use vstd::prelude::*;

verus! {

/// The decimal digits of `n`, most significant first, as ASCII bytes.
pub open spec fn dec_of(n: nat) -> Seq<u8>
    decreases n,
{
    if n < 10 {
        seq![(48 + n) as u8]
    } else {
        dec_of(n / 10) + seq![(48 + n % 10) as u8]
    }
}

/// The percentage text for `bp` hundredths of a percent: an integer part,
/// a dot, and exactly two fractional digits (`5000` renders as `50.00`).
pub open spec fn pct_of(bp: nat) -> Seq<u8> {
    dec_of(bp / 100) + seq![46u8, (48 + (bp % 100) / 10) as u8, (48 + bp % 10) as u8]
}

/// Appends the decimal digits of `n` to `out`.
pub fn push_decimal(out: &mut Vec<u8>, n: u128)
    ensures
        final(out)@ == old(out)@ + dec_of(n as nat),
    decreases n,
{
    if n < 10 {
        out.push(48 + n as u8);
        assert(out@ =~= old(out)@ + dec_of(n as nat));
    } else {
        push_decimal(out, n / 10);
        out.push(48 + (n % 10) as u8);
        assert(out@ =~= old(out)@ + dec_of(n as nat));
    }
}

/// Appends the two-decimal percentage text for `bp` hundredths of a percent.
pub fn push_percent(out: &mut Vec<u8>, bp: u128)
    ensures
        final(out)@ == old(out)@ + pct_of(bp as nat),
{
    push_decimal(out, bp / 100);
    out.push(46);
    out.push(48 + ((bp % 100) / 10) as u8);
    out.push(48 + (bp % 10) as u8);
    assert(out@ =~= old(out)@ + pct_of(bp as nat));
}

} // verus!
