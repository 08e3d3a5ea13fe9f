//! Decimal notation for the numbers of the report.

use vstd::prelude::*;

verus! {

/// The character for one decimal digit.
pub open spec fn digit_char(d: nat) -> char
    recommends
        d < 10,
{
    "0123456789"@[d as int]
}

/// `n` in decimal notation: most significant digit first, no sign, no
/// leading zero, and `0` for zero.
pub open spec fn decimal(n: nat) -> Seq<char>
    decreases n,
{
    if n < 10 {
        seq![digit_char(n)]
    } else {
        decimal(n / 10).push(digit_char(n % 10))
    }
}

/// The number of digits of `n` in decimal notation.
pub open spec fn digit_count(n: nat) -> nat
    decreases n,
{
    if n < 10 {
        1
    } else {
        digit_count(n / 10) + 1
    }
}

/// The decimal notation of `n` has `digit_count(n)` characters, each of them
/// a digit, and the first of them is `0` only for zero itself.
pub proof fn lemma_decimal_shape(n: nat)
    ensures
        decimal(n).len() == digit_count(n),
        forall|i: int| 0 <= i < decimal(n).len() ==> '0' <= #[trigger] decimal(n)[i] <= '9',
        decimal(n)[0] == '0' <==> n == 0,
    decreases n,
{
    reveal_strlit("0123456789");
    if n >= 10 {
        lemma_decimal_shape(n / 10);
    }
}

/// The text of one decimal digit.
fn digit_text(d: u64) -> (text: &'static str)
    requires
        d < 10,
    ensures
        text@ == seq![digit_char(d as nat)],
{
    proof {
        reveal_strlit("0123456789");
    }
    let text = "0123456789".substring_ascii(d as usize, d as usize + 1);
    assert(text@ =~= seq![digit_char(d as nat)]);
    text
}

/// Appends `n` in decimal notation to `out`.
pub fn append_decimal(out: &mut String, n: u64)
    ensures
        final(out)@ == old(out)@ + decimal(n as nat),
    decreases n,
{
    if n >= 10 {
        append_decimal(out, n / 10);
    }
    out.append(digit_text(n % 10));
    assert(out@ =~= old(out)@ + decimal(n as nat));
}

/// `n` in decimal notation.
pub fn decimal_string(n: u64) -> (text: String)
    ensures
        text@ == decimal(n as nat),
{
    let mut text = String::new();
    append_decimal(&mut text, n);
    assert(text@ =~= decimal(n as nat));
    text
}

} // verus!
