//! The decimal notation of a natural number, as ASCII bytes.
use vstd::prelude::*;

verus! {

/// The ASCII byte of the digit `d`, for `d` below ten.
pub open spec fn digit(d: nat) -> u8 {
    (0x30 + d) as u8
}

/// Whether `b` is one of the ASCII bytes `0` to `9`.
pub open spec fn is_digit(b: u8) -> bool {
    0x30 <= b <= 0x39
}

/// The decimal notation of `n`: most significant digit first, no sign, no
/// padding, and nothing after the last digit.
pub open spec fn decimal(n: nat) -> Seq<u8>
    decreases n,
{
    if n < 10 {
        seq![digit(n)]
    } else {
        decimal(n / 10).push(digit(n % 10))
    }
}

/// The number that a sequence of digits denotes, read most significant digit
/// first. The empty sequence denotes zero.
pub open spec fn value(s: Seq<u8>) -> nat
    decreases s.len(),
{
    if s.len() == 0 {
        0
    } else {
        (10 * value(s.drop_last()) + (s.last() - 0x30)) as nat
    }
}

/// The notation is never empty, and that of a number below `2^32` has at
/// most ten digits.
pub proof fn lemma_decimal_len(n: nat)
    ensures
        decimal(n).len() >= 1,
        n <= u32::MAX ==> decimal(n).len() <= 10,
{
    reveal_with_fuel(decimal, 11);
}

/// Every byte of the notation is an ASCII digit: there is no sign, no blank
/// and no line end in it.
pub proof fn lemma_decimal_digits(n: nat)
    ensures
        forall|i: int| 0 <= i < decimal(n).len() ==> is_digit(#[trigger] decimal(n)[i]),
    decreases n,
{
    if n >= 10 {
        lemma_decimal_digits(n / 10);
        let shorter = decimal(n / 10);
        assert forall|i: int| 0 <= i < decimal(n).len() implies is_digit(
            #[trigger] decimal(n)[i],
        ) by {
            if i < shorter.len() {
                assert(decimal(n)[i] == shorter[i]);
            }
        }
    }
}

/// The notation has no leading zero: it starts with `0` only where it is the
/// single digit of zero itself.
pub proof fn lemma_decimal_no_leading_zero(n: nat)
    ensures
        decimal(n)[0] == digit(0) <==> n == 0,
        n == 0 ==> decimal(n) == seq![digit(0)],
    decreases n,
{
    if n >= 10 {
        lemma_decimal_no_leading_zero(n / 10);
        lemma_decimal_len(n / 10);
    }
}

/// Reading the notation of `n` gives `n` back.
pub proof fn lemma_value_of_decimal(n: nat)
    ensures
        value(decimal(n)) == n,
    decreases n,
{
    if n < 10 {
        let s = decimal(n);
        assert(s.drop_last().len() == 0);
        assert(value(s.drop_last()) == 0);
    } else {
        lemma_value_of_decimal(n / 10);
        let s = decimal(n);
        assert(s.drop_last() == decimal(n / 10));
        assert(s.last() == digit(n % 10));
    }
}

/// Two numbers with the same notation are the same number.
pub proof fn lemma_decimal_injective(m: nat, n: nat)
    requires
        decimal(m) == decimal(n),
    ensures
        m == n,
{
    lemma_value_of_decimal(m);
    lemma_value_of_decimal(n);
}

/// Writes `n` in decimal.
pub fn format_decimal(n: u32) -> (out: Vec<u8>)
    ensures
        out@ == decimal(n as nat),
{
    let mut out: Vec<u8> = Vec::new();
    let mut rest: u32 = n / 10;
    out.push(0x30u8 + (n % 10) as u8);
    while rest > 0
        invariant
            rest > 0 ==> decimal(n as nat) == decimal(rest as nat) + out@,
            rest == 0 ==> decimal(n as nat) == out@,
        decreases rest,
    {
        let low: u8 = (rest % 10) as u8;
        proof {
            let ghost longer = seq![digit(low as nat)] + out@;
            if rest >= 10 {
                assert(decimal(rest as nat) + out@ == decimal((rest / 10) as nat) + longer);
            } else {
                assert(decimal(rest as nat) + out@ == longer);
            }
        }
        out.insert(0, 0x30u8 + low);
        rest = rest / 10;
    }
    out
}

} // verus!
