//! Decimal text of integers.

use vstd::prelude::*;
use vstd::string::StringExecFns;

verus! {

/// The character that stands for a digit.
pub open spec fn digit_char(digit: nat) -> char
    recommends
        digit < 10,
{
    (digit + 48) as char
}

/// The decimal text of a natural number, without leading zeros.
pub open spec fn decimal(n: nat) -> Seq<char>
    decreases n,
{
    if n < 10 {
        seq![digit_char(n)]
    } else {
        decimal(n / 10).push(digit_char(n % 10))
    }
}

/// The decimal text of an integer: a minus sign where it is negative, then its absolute value.
pub open spec fn signed_decimal(i: int) -> Seq<char> {
    if i < 0 {
        seq!['-'] + decimal((-i) as nat)
    } else {
        decimal(i as nat)
    }
}

/// The digits as text.
fn digit_text(digit: u64) -> (text: &'static str)
    requires
        digit < 10,
    ensures
        text@ == seq![digit_char(digit as nat)],
{
    proof {
        reveal_strlit("0");
        reveal_strlit("1");
        reveal_strlit("2");
        reveal_strlit("3");
        reveal_strlit("4");
        reveal_strlit("5");
        reveal_strlit("6");
        reveal_strlit("7");
        reveal_strlit("8");
        reveal_strlit("9");
    }
    match digit {
        0 => "0",
        1 => "1",
        2 => "2",
        3 => "3",
        4 => "4",
        5 => "5",
        6 => "6",
        7 => "7",
        8 => "8",
        _ => "9",
    }
}

/// Appends the decimal text of `n`.
pub fn push_decimal(out: &mut String, n: u64)
    ensures
        final(out)@ == old(out)@ + decimal(n as nat),
    decreases n,
{
    if n < 10 {
        out.append(digit_text(n));
    } else {
        push_decimal(out, n / 10);
        out.append(digit_text(n % 10));
        assert(out@ == old(out)@ + decimal(n as nat));
    }
}

/// Appends the decimal text of `i`.
pub fn push_signed_decimal(out: &mut String, i: i64)
    ensures
        final(out)@ == old(out)@ + signed_decimal(i as int),
{
    if i < 0 {
        out.append("-");
        proof {
            reveal_strlit("-");
        }
        let magnitude: u64 = (-(i as i128)) as u64;
        push_decimal(out, magnitude);
        assert(out@ == old(out)@ + signed_decimal(i as int));
    } else {
        push_decimal(out, i as u64);
    }
}

/// The number that decimal digits stand for.
pub open spec fn number_of(digits: Seq<char>) -> int
    decreases digits.len(),
{
    if digits.len() == 0 {
        0
    } else {
        number_of(digits.drop_last()) * 10 + (digits.last() as int - '0' as int)
    }
}

/// The decimal text of a number reads back as that number. It has digits only, and the first is a
/// zero only in the text of zero, which is that one digit.
pub proof fn law_decimal_reads_back(n: nat)
    ensures
        number_of(decimal(n)) == n,
        decimal(n).len() > 0,
        forall|i: int| 0 <= i < decimal(n).len() ==> '0' <= #[trigger] decimal(n)[i] <= '9',
        decimal(n)[0] == '0' <==> n == 0,
        n == 0 ==> decimal(n).len() == 1,
    decreases n,
{
    if n < 10 {
        assert(decimal(n).drop_last() == Seq::<char>::empty());
        assert(number_of(Seq::<char>::empty()) == 0);
    } else {
        law_decimal_reads_back(n / 10);
        assert(decimal(n).drop_last() == decimal(n / 10));
    }
}

/// The decimal text of an integer is that of its absolute value, after a minus sign if and only if it
/// is negative.
pub proof fn law_signed_decimal_reads_back(i: int)
    ensures
        signed_decimal(i)[0] == '-' <==> i < 0,
        i >= 0 ==> number_of(signed_decimal(i)) == i,
        i < 0 ==> number_of(signed_decimal(i).skip(1)) == -i,
{
    if i < 0 {
        law_decimal_reads_back((-i) as nat);
        assert(signed_decimal(i).skip(1) == decimal((-i) as nat));
    } else {
        law_decimal_reads_back(i as nat);
    }
}

} // verus!
