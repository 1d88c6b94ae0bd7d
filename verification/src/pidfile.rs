//! What the PID file holds.

use vstd::prelude::*;

verus! {

/// The decimal numeral of `n` in ASCII, most significant digit first and
/// without leading zeros.
pub open spec fn decimal_digits(n: nat) -> Seq<u8>
    decreases n,
{
    if n < 10 {
        seq![(48 + n) as u8]
    } else {
        decimal_digits(n / 10).push((48 + n % 10) as u8)
    }
}

/// Appends the decimal numeral of `n` to `text`.
pub fn push_decimal(n: u32, text: &mut Vec<u8>)
    ensures
        final(text)@ == old(text)@ + decimal_digits(n as nat),
    decreases n,
{
    if n >= 10 {
        push_decimal(n / 10, text);
    }
    let digit: u8 = (n % 10) as u8;
    text.push(48 + digit);
    assert(text@ =~= old(text)@ + decimal_digits(n as nat));
}

/// The contents of the PID file of the process `pid`: its decimal numeral.
pub fn pidfile_contents(pid: u32) -> (text: Vec<u8>)
    ensures
        text@ == decimal_digits(pid as nat),
{
    let mut text: Vec<u8> = Vec::new();
    push_decimal(pid, &mut text);
    assert(text@ =~= decimal_digits(pid as nat));
    text
}

/// A decimal numeral is not empty, holds ASCII digits only, and starts with
/// a zero only where it is the numeral of zero, which is the single digit.
pub proof fn lemma_decimal_digits_shape(n: nat)
    ensures
        decimal_digits(n).len() >= 1,
        forall|i: int| 0 <= i < decimal_digits(n).len() ==> 48 <= #[trigger] decimal_digits(n)[i] <= 57,
        n > 0 ==> decimal_digits(n)[0] != 48,
        n == 0 ==> decimal_digits(n) == seq![48u8],
    decreases n,
{
    if n >= 10 {
        lemma_decimal_digits_shape(n / 10);
    }
}

} // verus!
