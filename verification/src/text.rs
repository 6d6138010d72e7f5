//! Building blocks of the human readable messages of errors.

use vstd::prelude::*;

verus! {

/// The decimal digit `d` as text.
pub open spec fn digit(d: nat) -> Seq<char> {
    if d == 0 {
        "0"@
    } else if d == 1 {
        "1"@
    } else if d == 2 {
        "2"@
    } else if d == 3 {
        "3"@
    } else if d == 4 {
        "4"@
    } else if d == 5 {
        "5"@
    } else if d == 6 {
        "6"@
    } else if d == 7 {
        "7"@
    } else if d == 8 {
        "8"@
    } else {
        "9"@
    }
}

/// The decimal representation of `n`, without leading zeros.
pub open spec fn decimal(n: nat) -> Seq<char>
    decreases n,
{
    if n < 10 {
        digit(n)
    } else {
        decimal(n / 10) + digit(n % 10)
    }
}

/// The decimal representations of `numbers`, separated by a comma and a space.
pub open spec fn decimal_list(numbers: Seq<u32>) -> Seq<char>
    decreases numbers.len(),
{
    if numbers.len() == 0 {
        Seq::empty()
    } else if numbers.len() == 1 {
        decimal(numbers[0] as nat)
    } else {
        decimal_list(numbers.drop_last()) + ", "@ + decimal(numbers.last() as nat)
    }
}

/// Returns the text of a decimal digit.
fn digit_str(d: u64) -> (r: &'static str)
    requires
        d < 10,
    ensures
        r@ == digit(d as nat),
{
    match d {
        0 => "0",
        1 => "1",
        2 => "2",
        3 => "3",
        4 => "4",
        5 => "5",
        6 => "6",
        7 => "7",
        8 => "8",
        _ => "9",
    }
}

/// Appends the decimal representation of `n` to `out`.
pub fn push_decimal(out: &mut String, n: u64)
    ensures
        final(out)@ == old(out)@ + decimal(n as nat),
    decreases n,
{
    if n >= 10 {
        push_decimal(out, n / 10);
    }
    out.append(digit_str(n % 10));
}

/// Returns the decimal representations of `numbers`, separated by a comma and a space.
pub fn join_decimals(numbers: &Vec<u32>) -> (r: String)
    ensures
        r@ == decimal_list(numbers@),
{
    let mut out = String::new();
    let mut i: usize = 0;
    while i < numbers.len()
        invariant
            i <= numbers.len(),
            out@ == decimal_list(numbers@.take(i as int)),
        decreases numbers.len() - i,
    {
        if i > 0 {
            out.append(", ");
        }
        push_decimal(&mut out, numbers[i] as u64);
        assert(numbers@.take(i as int) =~= numbers@.take(i + 1).drop_last());
        assert(numbers@.take(i + 1).last() == numbers@[i as int]);
        i = i + 1;
    }
    assert(numbers@.take(i as int) =~= numbers@);
    out
}

/// Returns `first` followed by `second`.
pub fn concat(first: &str, second: &str) -> (r: String)
    ensures
        r@ == first@ + second@,
{
    let mut out = String::from_str(first);
    out.append(second);
    out
}

/// The hexadecimal digit `d` as text.
pub open spec fn hex_digit(d: nat) -> Seq<char> {
    if d < 10 {
        digit(d)
    } else if d == 10 {
        "a"@
    } else if d == 11 {
        "b"@
    } else if d == 12 {
        "c"@
    } else if d == 13 {
        "d"@
    } else if d == 14 {
        "e"@
    } else {
        "f"@
    }
}

/// The `width` least significant hexadecimal digits of `n`, padded with zeros.
pub open spec fn hex(n: nat, width: nat) -> Seq<char>
    decreases width,
{
    if width == 0 {
        Seq::empty()
    } else {
        hex(n / 16, (width - 1) as nat) + hex_digit(n % 16)
    }
}

/// Returns the text of a hexadecimal digit.
fn hex_digit_str(d: u128) -> (r: &'static str)
    requires
        d < 16,
    ensures
        r@ == hex_digit(d as nat),
{
    match d {
        10 => "a",
        11 => "b",
        12 => "c",
        13 => "d",
        14 => "e",
        15 => "f",
        _ => digit_str(d as u64),
    }
}

/// Appends the `width` least significant hexadecimal digits of `n` to `out`.
pub fn push_hex(out: &mut String, n: u128, width: usize)
    ensures
        final(out)@ == old(out)@ + hex(n as nat, width as nat),
    decreases width,
{
    if width > 0 {
        push_hex(out, n / 16, width - 1);
        out.append(hex_digit_str(n % 16));
    }
}

/// The number that a digit in a base of at most sixteen stands for.
pub open spec fn digit_value(c: char) -> int {
    if '0' <= c <= '9' {
        c as int - '0' as int
    } else if 'a' <= c <= 'f' {
        c as int - 'a' as int + 10
    } else {
        -1
    }
}

/// The number that digits stand for in a base.
pub open spec fn digits_value(digits: Seq<char>, base: int) -> int
    decreases digits.len(),
{
    if digits.len() == 0 {
        0
    } else {
        base * digits_value(digits.drop_last(), base) + digit_value(digits.last())
    }
}

/// Whether a text is made of digits in a base.
pub open spec fn is_number(digits: Seq<char>, base: int) -> bool {
    forall|i: int| 0 <= i < digits.len() ==> 0 <= digit_value(#[trigger] digits[i]) < base
}

proof fn lemma_hex_digit(d: nat)
    requires
        d < 16,
    ensures
        hex_digit(d).len() == 1,
        digit_value(hex_digit(d)[0]) == d,
        d < 10 ==> hex_digit(d) == digit(d),
{
    reveal_strlit("0");
    reveal_strlit("1");
    reveal_strlit("2");
    reveal_strlit("3");
    reveal_strlit("4");
    reveal_strlit("5");
    reveal_strlit("6");
    reveal_strlit("7");
    reveal_strlit("8");
    reveal_strlit("9");
    reveal_strlit("a");
    reveal_strlit("b");
    reveal_strlit("c");
    reveal_strlit("d");
    reveal_strlit("e");
    reveal_strlit("f");
}

proof fn lemma_decimal(n: nat)
    ensures
        decimal(n).len() > 0,
        is_number(decimal(n), 10),
        digits_value(decimal(n), 10) == n,
        decimal(n)[0] == '0' ==> n == 0 && decimal(n).len() == 1,
    decreases n,
{
    lemma_hex_digit(n % 10);
    if n < 10 {
        assert(decimal(n).drop_last().len() == 0);
        assert(digits_value(decimal(n).drop_last(), 10) == 0);
    } else {
        let rest = decimal(n / 10);
        lemma_decimal(n / 10);
        assert(decimal(n).drop_last() =~= rest);
        assert(decimal(n)[0] == rest[0]);
        assert forall|i: int| 0 <= i < decimal(n).len() implies 0 <= digit_value(
            #[trigger] decimal(n)[i],
        ) < 10 by {
            if i < rest.len() {
                assert(decimal(n)[i] == rest[i]);
            }
        }
    }
}

proof fn lemma_hex(n: nat, width: nat)
    ensures
        hex(n, width).len() == width,
        is_number(hex(n, width), 16),
        digits_value(hex(n, width), 16) == n % (vstd::arithmetic::power::pow(16, width) as nat),
    decreases width,
{
    vstd::arithmetic::power::lemma_pow_positive(16, width);
    if width == 0 {
        vstd::arithmetic::power::lemma_pow0(16);
    } else {
        let rest = hex(n / 16, (width - 1) as nat);
        let weight = vstd::arithmetic::power::pow(16, (width - 1) as nat);
        lemma_hex(n / 16, (width - 1) as nat);
        lemma_hex_digit(n % 16);
        vstd::arithmetic::power::lemma_pow_positive(16, (width - 1) as nat);
        assert(hex(n, width).drop_last() =~= rest);
        assert(vstd::arithmetic::power::pow(16, width) == 16 * weight) by {
            reveal(vstd::arithmetic::power::pow);
        }
        vstd::arithmetic::div_mod::lemma_breakdown(n as int, 16, weight);
        assert forall|i: int| 0 <= i < hex(n, width).len() implies 0 <= digit_value(
            #[trigger] hex(n, width)[i],
        ) < 16 by {
            if i < rest.len() {
                assert(hex(n, width)[i] == rest[i]);
            }
        }
    }
}

/// A number that was appended to a text reads back from the decimal digits that were appended,
/// which start with no zero unless the number is zero; the text before it is kept.
pub proof fn law_decimal_number_reads_back(before: String, n: u64, after: String)
    requires
        exists|out: &mut String| #[trigger]
            call_ensures(push_decimal, (out, n), ()) && *out == before && *final(out) == after,
    ensures
        after@.len() > before@.len(),
        after@.take(before@.len() as int) == before@,
        is_number(after@.skip(before@.len() as int), 10),
        digits_value(after@.skip(before@.len() as int), 10) == n,
        after@[before@.len() as int] == '0' ==> n == 0 && after@.len() == before@.len() + 1,
{
    lemma_decimal(n as nat);
    assert(after@.skip(before@.len() as int) =~= decimal(n as nat));
}

/// The digits of a number that was appended in hexadecimal are as many as asked for and read
/// back as the number, less what does not fit into them; the text before it is kept.
pub proof fn law_hexadecimal_number_reads_back(before: String, n: u128, width: usize, after: String)
    requires
        exists|out: &mut String| #[trigger]
            call_ensures(push_hex, (out, n, width), ()) && *out == before && *final(out) == after,
    ensures
        after@.len() == before@.len() + width,
        after@.take(before@.len() as int) == before@,
        is_number(after@.skip(before@.len() as int), 16),
        digits_value(after@.skip(before@.len() as int), 16) == n as nat % (
        vstd::arithmetic::power::pow(16, width as nat) as nat),
{
    lemma_hex(n as nat, width as nat);
    assert(after@.skip(before@.len() as int) =~= hex(n as nat, width as nat));
}

/// A list of numbers shows its numbers in order, with a comma and a space between any two.
pub proof fn law_list_of_numbers(
    numbers: Vec<u32>,
    more: Vec<u32>,
    text: String,
    shown: String,
    next: String,
)
    requires
        more@.len() > 0,
        numbers@ == more@.drop_last(),
        call_ensures(join_decimals, (&numbers,), text),
        call_ensures(join_decimals, (&more,), shown),
        exists|out: &mut String| #[trigger]
            call_ensures(push_decimal, (out, more@.last() as u64), ()) && out@ == Seq::<
                char,
            >::empty() && *final(out) == next,
    ensures
        numbers@.len() == 0 ==> text@ == Seq::<char>::empty() && shown@ == next@,
        numbers@.len() > 0 ==> shown@ == text@ + ", "@ + next@,
{
    assert(next@ =~= decimal(more@.last() as nat));
}

/// Texts are put one after the other.
pub proof fn law_texts_are_joined(first: &str, second: &str, r: String)
    requires
        call_ensures(concat, (first, second), r),
    ensures
        r@.len() == first@.len() + second@.len(),
        r@.take(first@.len() as int) == first@,
        r@.skip(first@.len() as int) == second@,
{
}

} // verus!
