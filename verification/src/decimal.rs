//! Decimal notation for tuple-field indices.

use vstd::prelude::*;

verus! {

/// The character that writes the digit `d` (`0 <= d <= 9`).
pub open spec fn digit_char(d: nat) -> char
    recommends
        d < 10,
{
    if d == 0 {
        '0'
    } else if d == 1 {
        '1'
    } else if d == 2 {
        '2'
    } else if d == 3 {
        '3'
    } else if d == 4 {
        '4'
    } else if d == 5 {
        '5'
    } else if d == 6 {
        '6'
    } else if d == 7 {
        '7'
    } else if d == 8 {
        '8'
    } else {
        '9'
    }
}

/// The decimal notation of `n`: most significant digit first, no leading
/// zero, and the single digit `0` for zero.
pub open spec fn decimal(n: nat) -> Seq<char>
    decreases n,
{
    if n < 10 {
        seq![digit_char(n)]
    } else {
        decimal(n / 10).push(digit_char(n % 10))
    }
}

/// The digit that a character writes; `0` for any other character.
pub open spec fn digit_value(c: char) -> nat {
    if c == '1' {
        1
    } else if c == '2' {
        2
    } else if c == '3' {
        3
    } else if c == '4' {
        4
    } else if c == '5' {
        5
    } else if c == '6' {
        6
    } else if c == '7' {
        7
    } else if c == '8' {
        8
    } else if c == '9' {
        9
    } else {
        0
    }
}

/// Whether `c` is one of the ten decimal digits.
pub open spec fn is_digit(c: char) -> bool {
    c == '0' || digit_value(c) != 0
}

/// The number that a sequence of decimal digits writes, read in the usual
/// positional way.
pub open spec fn decimal_value(digits: Seq<char>) -> nat
    decreases digits.len(),
{
    if digits.len() == 0 {
        0
    } else {
        decimal_value(digits.drop_last()) * 10 + digit_value(digits.last())
    }
}

/// The notation of a number is made of digits only, has no leading zero
/// unless the number is zero, and reads back as the number itself.
pub proof fn lemma_decimal_reads_back(n: nat)
    ensures
        decimal(n).len() >= 1,
        forall|i: int| 0 <= i < decimal(n).len() ==> is_digit(#[trigger] decimal(n)[i]),
        n > 0 ==> decimal(n)[0] != '0',
        decimal_value(decimal(n)) == n,
    decreases n,
{
    if n < 10 {
        assert(decimal(n).drop_last() =~= Seq::<char>::empty());
        assert(decimal_value(Seq::<char>::empty()) == 0);
    } else {
        lemma_decimal_reads_back(n / 10);
        let front = decimal(n / 10);
        assert(decimal(n).drop_last() =~= front);
        assert(decimal(n).last() == digit_char(n % 10));
        assert(decimal(n)[0] == front[0]);
    }
}

/// Two different numbers are never written alike.
pub proof fn lemma_decimal_is_injective(m: nat, n: nat)
    requires
        decimal(m) == decimal(n),
    ensures
        m == n,
{
    lemma_decimal_reads_back(m);
    lemma_decimal_reads_back(n);
}

/// The text of one decimal digit.
fn digit_text(d: usize) -> (text: &'static str)
    requires
        d < 10,
    ensures
        text@ == seq![digit_char(d as nat)],
{
    proof {
        reveal_strlit("0");
        reveal_strlit("1");
        reveal_strlit("2");
        reveal_strlit("3");
        reveal_strlit("4");
        reveal_strlit("5");
        reveal_strlit("6");
        reveal_strlit("7");
        reveal_strlit("8");
        reveal_strlit("9");
    }
    if d == 0 {
        "0"
    } else if d == 1 {
        "1"
    } else if d == 2 {
        "2"
    } else if d == 3 {
        "3"
    } else if d == 4 {
        "4"
    } else if d == 5 {
        "5"
    } else if d == 6 {
        "6"
    } else if d == 7 {
        "7"
    } else if d == 8 {
        "8"
    } else {
        "9"
    }
}

/// Appends the decimal notation of `n` to `out`.
pub fn push_decimal(out: &mut String, n: usize)
    ensures
        final(out)@ == old(out)@ + decimal(n as nat),
    decreases n,
{
    if n >= 10 {
        push_decimal(out, n / 10);
    }
    out.append(digit_text(n % 10));
}

} // verus!
