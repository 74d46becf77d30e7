//! Numbers as text: decimal and lower-case hexadecimal numerals.

use vstd::prelude::*;
use vstd::string::*;

verus! {

/// The sixteen digits, each at the index of its value.
pub open spec fn digits() -> Seq<char> {
    seq!['0', '1', '2', '3', '4', '5', '6', '7', '8', '9', 'a', 'b', 'c', 'd', 'e', 'f']
}

/// The decimal numeral of `n`: no sign, no leading zero, `0` for zero.
pub open spec fn decimal(n: nat) -> Seq<char>
    decreases n,
{
    if n < 10 {
        seq![digits()[n as int]]
    } else {
        decimal(n / 10).push(digits()[(n % 10) as int])
    }
}

/// The hexadecimal numeral of `n` in lower case: no prefix, no leading zero,
/// `0` for zero.
pub open spec fn lower_hex(n: nat) -> Seq<char>
    decreases n,
{
    if n < 16 {
        seq![digits()[n as int]]
    } else {
        lower_hex(n / 16).push(digits()[(n % 16) as int])
    }
}

/// The value of the digit `c`: its index among the sixteen digits.
pub open spec fn digit_value(c: char) -> nat {
    digits().index_of(c) as nat
}

/// The number that the numeral `s` stands for in base `radix`, most
/// significant digit first.
pub open spec fn numeral_value(s: Seq<char>, radix: nat) -> nat
    decreases s.len(),
{
    if s.len() == 0 {
        0
    } else {
        numeral_value(s.drop_last(), radix) * radix + digit_value(s.last())
    }
}

/// The decimal numeral of `n` is made of the digits `0` to `9`, starts with
/// `0` only where `n` is zero, and stands for `n` in base ten.
pub proof fn lemma_decimal_is_canonical(n: nat)
    ensures
        decimal(n).len() >= 1,
        forall|i: int|
            0 <= i < decimal(n).len() ==> digits().subrange(0, 10).contains(
                #[trigger] decimal(n)[i],
            ),
        decimal(n)[0] == '0' <==> n == 0,
        numeral_value(decimal(n), 10) == n,
    decreases n,
{
    let last = digits()[(n % 10) as int];
    assert(digits().subrange(0, 10)[(n % 10) as int] == last);
    if n < 10 {
        assert(numeral_value(decimal(n), 10) == numeral_value(decimal(n).drop_last(), 10) * 10
            + digit_value(last));
    } else {
        lemma_decimal_is_canonical(n / 10);
        assert(decimal(n).drop_last() =~= decimal(n / 10));
    }
}

/// The hexadecimal numeral of `n` is made of the digits `0` to `9` and `a`
/// to `f`, starts with `0` only where `n` is zero, and stands for `n` in
/// base sixteen.
pub proof fn lemma_lower_hex_is_canonical(n: nat)
    ensures
        lower_hex(n).len() >= 1,
        forall|i: int|
            0 <= i < lower_hex(n).len() ==> digits().contains(#[trigger] lower_hex(n)[i]),
        lower_hex(n)[0] == '0' <==> n == 0,
        numeral_value(lower_hex(n), 16) == n,
    decreases n,
{
    let last = digits()[(n % 16) as int];
    if n < 16 {
        assert(numeral_value(lower_hex(n), 16) == numeral_value(lower_hex(n).drop_last(), 16) * 16
            + digit_value(last));
    } else {
        lemma_lower_hex_is_canonical(n / 16);
        assert(lower_hex(n).drop_last() =~= lower_hex(n / 16));
    }
}

/// Appends the digit of value `d`.
fn append_digit(out: &mut String, d: u64)
    requires
        d < 16,
    ensures
        final(out)@ == old(out)@.push(digits()[d as int]),
{
    let all: &'static str = "0123456789abcdef";
    proof {
        reveal_strlit("0123456789abcdef");
    }
    let at: usize = d as usize;
    let one: &str = all.substring_ascii(at, at + 1);
    out.append(one);
}

/// Appends the decimal numeral of `n`.
pub(crate) fn append_decimal(out: &mut String, n: u64)
    ensures
        final(out)@ == old(out)@ + decimal(n as nat),
    decreases n,
{
    if n >= 10 {
        append_decimal(out, n / 10);
    }
    append_digit(out, n % 10);
}

/// Appends the lower-case hexadecimal numeral of `n`.
pub(crate) fn append_lower_hex(out: &mut String, n: u64)
    ensures
        final(out)@ == old(out)@ + lower_hex(n as nat),
    decreases n,
{
    if n >= 16 {
        append_lower_hex(out, n / 16);
    }
    append_digit(out, n % 16);
}

} // verus!
