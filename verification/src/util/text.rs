//! Decimal text of unsigned integers.

use vstd::prelude::*;
use vstd::string::StringExecFns;

verus! {

/// The character of a decimal digit.
pub open spec fn digit_char(d: int) -> char {
    if d == 0 {
        '0'
    } else if d == 1 {
        '1'
    } else if d == 2 {
        '2'
    } else if d == 3 {
        '3'
    } else if d == 4 {
        '4'
    } else if d == 5 {
        '5'
    } else if d == 6 {
        '6'
    } else if d == 7 {
        '7'
    } else if d == 8 {
        '8'
    } else {
        '9'
    }
}

/// The decimal digits of `n`, most significant first, without leading zeros.
pub open spec fn decimal(n: nat) -> Seq<char>
    decreases n,
{
    if n < 10 {
        seq![digit_char(n as int)]
    } else {
        decimal(n / 10).push(digit_char((n % 10) as int))
    }
}

/// The text of one decimal digit.
pub fn digit_text(d: u8) -> (text: &'static str)
    requires
        d < 10,
    ensures
        text@ == seq![digit_char(d as int)],
{
    proof {
        reveal_strlit("0");
        reveal_strlit("1");
        reveal_strlit("2");
        reveal_strlit("3");
        reveal_strlit("4");
        reveal_strlit("5");
        reveal_strlit("6");
        reveal_strlit("7");
        reveal_strlit("8");
        reveal_strlit("9");
    }
    let text: &'static str = if d == 0 {
        "0"
    } else if d == 1 {
        "1"
    } else if d == 2 {
        "2"
    } else if d == 3 {
        "3"
    } else if d == 4 {
        "4"
    } else if d == 5 {
        "5"
    } else if d == 6 {
        "6"
    } else if d == 7 {
        "7"
    } else if d == 8 {
        "8"
    } else {
        "9"
    };
    assert(text@ =~= seq![digit_char(d as int)]);
    text
}

/// Appends the decimal digits of `value` to `out`.
pub fn push_decimal(out: &mut String, value: u128)
    ensures
        final(out)@ == old(out)@ + decimal(value as nat),
    decreases value,
{
    if value >= 10 {
        push_decimal(out, value / 10);
    }
    let digit: u8 = (value % 10) as u8;
    out.append(digit_text(digit));
    assert(out@ =~= old(out)@ + decimal(value as nat));
}

/// The last `count` decimal digits of `n`, with zeros where `n` has fewer.
pub open spec fn last_digits(n: nat, count: nat) -> Seq<char>
    decreases count,
{
    if count == 0 {
        Seq::empty()
    } else {
        last_digits(n / 10, (count - 1) as nat).push(digit_char((n % 10) as int))
    }
}

/// Ten to the power of `exponent`.
pub open spec fn power_of_ten(exponent: nat) -> nat
    decreases exponent,
{
    if exponent == 0 {
        1
    } else {
        10 * power_of_ten((exponent - 1) as nat)
    }
}

/// A number of at least `count` decimal digits ends in its last `count`
/// digits.
pub proof fn lemma_decimal_ends(n: nat, count: nat)
    requires
        count == 0 || n >= power_of_ten((count - 1) as nat),
    ensures
        decimal(n).len() >= count,
        decimal(n).subrange(decimal(n).len() - count, decimal(n).len() as int) == last_digits(
            n,
            count,
        ),
    decreases count,
{
    let text = decimal(n);
    if count == 0 {
        assert(text.subrange(text.len() as int, text.len() as int) =~= Seq::<char>::empty());
    } else if count == 1 {
        reveal_with_fuel(last_digits, 2);
        assert(text.subrange(text.len() - 1, text.len() as int) =~= seq![
            digit_char((n % 10) as int),
        ]);
        assert(last_digits(n, 1) =~= seq![digit_char((n % 10) as int)]);
    } else {
        assert(power_of_ten((count - 1) as nat) == 10 * power_of_ten((count - 2) as nat));
        assert(power_of_ten((count - 2) as nat) >= 1) by {
            lemma_power_of_ten_positive((count - 2) as nat);
        }
        assert(n >= 10);
        assert(n / 10 >= power_of_ten((count - 2) as nat));
        lemma_decimal_ends(n / 10, (count - 1) as nat);
        let front = decimal(n / 10);
        assert(text == front.push(digit_char((n % 10) as int)));
        assert(text.subrange(text.len() - count, text.len() as int) =~= front.subrange(
            front.len() - (count - 1),
            front.len() as int,
        ).push(digit_char((n % 10) as int)));
    }
}

/// A power of ten is at least one.
pub proof fn lemma_power_of_ten_positive(exponent: nat)
    ensures
        power_of_ten(exponent) >= 1,
    decreases exponent,
{
    if exponent > 0 {
        lemma_power_of_ten_positive((exponent - 1) as nat);
    }
}

/// Appends the last `count` decimal digits of `value` to `out`.
pub fn push_last_digits(out: &mut String, value: u128, count: usize)
    ensures
        final(out)@ == old(out)@ + last_digits(value as nat, count as nat),
    decreases count,
{
    if count > 0 {
        push_last_digits(out, value / 10, count - 1);
        let digit: u8 = (value % 10) as u8;
        out.append(digit_text(digit));
        assert(out@ =~= old(out)@ + last_digits(value as nat, count as nat));
    } else {
        assert(out@ =~= old(out)@ + last_digits(value as nat, count as nat));
    }
}

/// The characters of a text.
pub fn chars_of(text: &str) -> (chars: Vec<char>)
    ensures
        chars@ == text@,
{
    let mut chars: Vec<char> = Vec::new();
    for c in iter: text.chars()
        invariant
            iter.seq() == text@,
            chars@ == iter.seq().take(iter.index() as int),
    {
        proof {
            let i = iter.index() as int;
            assert(iter.seq().take(i + 1) =~= iter.seq().take(i).push(c));
        }
        chars.push(c);
    }
    assert(chars@ =~= text@);
    chars
}

/// Whether two texts hold the same characters.
pub fn same_text(left: &str, right: &str) -> (same: bool)
    ensures
        same == (left@ == right@),
{
    let a: Vec<char> = chars_of(left);
    let b: Vec<char> = chars_of(right);
    if a.len() != b.len() {
        return false;
    }
    let mut i: usize = 0;
    while i < a.len()
        invariant
            a@ == left@,
            b@ == right@,
            a@.len() == b@.len(),
            i <= a@.len(),
            forall|j: int| 0 <= j < i ==> a@[j] == b@[j],
        decreases a@.len() - i,
    {
        if a[i] != b[i] {
            return false;
        }
        i += 1;
    }
    assert(a@ =~= b@);
    true
}

} // verus!
