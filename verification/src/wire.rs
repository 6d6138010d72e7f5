//! Reading and writing the integers of back channel messages.

use vstd::prelude::*;
use bytes::Buf;

verus! {

/// The number whose bytes are given least significant byte first.
pub open spec fn le_number(bytes: Seq<u8>) -> nat
    decreases bytes.len(),
{
    if bytes.len() == 0 {
        0
    } else {
        bytes[0] as nat + 0x100 * le_number(bytes.drop_first())
    }
}

/// The `count` least significant bytes of `n`, least significant byte first.
pub open spec fn le_digits(n: nat, count: nat) -> Seq<u8>
    decreases count,
{
    if count == 0 {
        Seq::empty()
    } else {
        seq![(n % 0x100) as u8] + le_digits(n / 0x100, (count - 1) as nat)
    }
}

/// Reads the first byte of a message with [`bytes::Buf::get_u8`].
///
/// The call returns the byte at the start of the buffer and panics when the
/// buffer is empty.
#[verifier::external_body]
pub(crate) fn get_u8(data: &[u8]) -> (r: u8)
    requires
        data@.len() >= 1,
    ensures
        r == data@[0],
{
    let mut buf: &[u8] = data;
    buf.get_u8()
}

/// Reads the first byte of a message with [`bytes::Buf::try_get_u8`].
///
/// The call returns the byte at the start of the buffer and fails when the
/// buffer is empty.
#[verifier::external_body]
pub(crate) fn try_get_u8(data: &[u8]) -> (r: Option<u8>)
    ensures
        data@.len() == 0 ==> r is None,
        data@.len() >= 1 ==> r == Some(data@[0]),
{
    let mut buf: &[u8] = data;
    buf.try_get_u8().ok()
}

/// Reads a number from the start of a message with [`bytes::Buf::try_get_u128_le`].
///
/// The call takes sixteen bytes, least significant byte first, and fails when
/// there are fewer.
#[verifier::external_body]
pub(crate) fn try_get_u128_le(data: &[u8]) -> (r: Option<u128>)
    ensures
        data@.len() < 16 ==> r is None,
        data@.len() >= 16 ==> r is Some && r->0 as nat == le_number(data@.take(16)),
{
    let mut buf: &[u8] = data;
    buf.try_get_u128_le().ok()
}

/// Appends the sixteen bytes of `n`, least significant byte first.
pub fn push_u128_le(out: &mut Vec<u8>, n: u128)
    ensures
        final(out)@ == old(out)@ + le_digits(n as nat, 16),
{
    let ghost start = out@;
    let mut rest: u128 = n;
    let mut left: usize = 16;
    while left > 0
        invariant
            left <= 16,
            out@ + le_digits(rest as nat, left as nat) == start + le_digits(n as nat, 16),
        decreases left,
    {
        let ghost before = out@;
        let ghost digits = le_digits((rest / 0x100) as nat, (left - 1) as nat);
        out.push((rest % 0x100) as u8);
        assert(out@ + digits =~= before + (seq![(rest % 0x100) as u8] + digits));
        rest = rest / 0x100;
        left = left - 1;
    }
    assert(out@ + le_digits(rest as nat, 0) =~= out@);
}

/// The bytes of a number that fits into them give back the number.
pub proof fn law_le_round_trip(n: nat, count: nat)
    requires
        n < vstd::arithmetic::power::pow(0x100, count),
    ensures
        le_digits(n, count).len() == count,
        le_number(le_digits(n, count)) == n,
    decreases count,
{
    if count == 0 {
        vstd::arithmetic::power::lemma_pow0(0x100);
    } else {
        let digits = le_digits(n, count);
        let rest = le_digits(n / 0x100, (count - 1) as nat);
        assert(vstd::arithmetic::power::pow(0x100, count) == 0x100
            * vstd::arithmetic::power::pow(0x100, (count - 1) as nat)) by {
            reveal(vstd::arithmetic::power::pow);
        }
        law_le_round_trip(n / 0x100, (count - 1) as nat);
        assert(digits.drop_first() =~= rest);
    }
}

/// A number is written with as many bytes as asked for.
pub proof fn law_le_length(n: nat, count: nat)
    ensures
        le_digits(n, count).len() == count,
    decreases count,
{
    if count > 0 {
        law_le_length(n / 0x100, (count - 1) as nat);
    }
}

/// The first byte counts once, and each further one 256 times as much as the one before it.
pub proof fn law_le_weights(first: u8, rest: Seq<u8>)
    ensures
        le_number(Seq::empty()) == 0,
        le_number(seq![first] + rest) == first + 256 * le_number(rest),
{
    assert((seq![first] + rest).drop_first() =~= rest);
}

/// Appending a number leaves what was there and adds sixteen bytes that hold the number.
pub proof fn law_appended_number(before: Vec<u8>, after: Vec<u8>, n: u128)
    requires
        exists|state: &mut Vec<u8>| #[trigger]
            call_ensures(push_u128_le, (state, n), ()) && *state == before
                && *final(state) == after,
    ensures
        after@.len() == before@.len() + 16,
        after@.take(before@.len() as int) == before@,
        le_number(after@.skip(before@.len() as int)) == n,
{
    law_le_length(n as nat, 16);
    assert(n < vstd::arithmetic::power::pow(0x100, 16)) by {
        reveal_with_fuel(vstd::arithmetic::power::pow, 17);
        assert(vstd::arithmetic::power::pow(0x100, 16)
            == 0x1_0000_0000_0000_0000_0000_0000_0000_0000int);
    }
    law_le_round_trip(n as nat, 16);
    assert(after@.take(before@.len() as int) =~= before@);
    assert(after@.skip(before@.len() as int) =~= le_digits(n as nat, 16));
}

} // verus!
