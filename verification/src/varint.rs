//! Variable length encoding of unsigned integers.
//!
//! A number is written as groups of seven bits, least significant group first.
//! The topmost bit of a byte is set when further groups follow.

use vstd::prelude::*;
use byteorder::{ReadBytesExt, WriteBytesExt, LE};

verus! {

/// Longest encoding of a 32 bit number in bytes.
pub const MAX_LENGTH: usize = 5;

/// Largest value of the last byte of an encoding of [`MAX_LENGTH`] bytes.
pub const MAX_OF_LAST_BYTE: u8 = 15;

/// Decoding a number failed.
#[derive(Clone, Copy, Debug, PartialEq, Eq, Structural)]
pub enum VarintError {
    /// The bytes do not encode a 32 bit number.
    InvalidVarint,
    /// The data ended within a number.
    UnexpectedEof,
}

/// The weight of the group of seven bits at position `i` of a 32 bit number.
pub open spec fn group_weight(i: int) -> nat {
    if i <= 0 {
        1
    } else if i == 1 {
        0x80
    } else if i == 2 {
        0x4000
    } else if i == 3 {
        0x20_0000
    } else {
        0x1000_0000
    }
}

/// The number of bytes of the encoding of `n`.
pub open spec fn varint_len(n: u32) -> nat {
    if n < 0x80 {
        1
    } else if n < 0x4000 {
        2
    } else if n < 0x20_0000 {
        3
    } else if n < 0x1000_0000 {
        4
    } else {
        5
    }
}

/// The encoding of `n`: each group of seven bits, all but the last one marked.
pub open spec fn varint(n: u32) -> Seq<u8> {
    Seq::new(
        varint_len(n),
        |i: int|
            {
                let group = (n as nat / group_weight(i)) % 0x80;
                if i + 1 < varint_len(n) {
                    (group + 0x80) as u8
                } else {
                    group as u8
                }
            },
    )
}

/// The number whose groups are held by `bytes`.
pub open spec fn varint_value(bytes: Seq<u8>) -> nat
    decreases bytes.len(),
{
    if bytes.len() == 0 {
        0
    } else {
        varint_value(bytes.drop_last()) + (bytes.last() as nat % 0x80) * group_weight(
            bytes.len() - 1,
        )
    }
}

/// Whether the first `k` bytes announce further groups.
pub open spec fn continues(bytes: Seq<u8>, k: int) -> bool {
    forall|i: int| 0 <= i < k ==> #[trigger] bytes[i] >= 0x80
}

/// Whether `bytes` start with an encoding of `k + 1` bytes.
pub open spec fn ends_at(bytes: Seq<u8>, k: int) -> bool {
    &&& 0 <= k < MAX_LENGTH
    &&& k < bytes.len()
    &&& continues(bytes, k)
    &&& bytes[k] < 0x80
    &&& (k == MAX_LENGTH - 1 ==> bytes[k] <= MAX_OF_LAST_BYTE)
}

/// Whether reading a number from `bytes` finds an invalid encoding.
pub open spec fn is_invalid(bytes: Seq<u8>) -> bool {
    &&& bytes.len() >= MAX_LENGTH
    &&& continues(bytes, MAX_LENGTH - 1)
    &&& bytes[MAX_LENGTH - 1] > MAX_OF_LAST_BYTE
}

/// The bytes of `n`, least significant byte first.
pub open spec fn le_bytes(n: u32) -> Seq<u8> {
    seq![
        (n % 0x100) as u8,
        ((n / 0x100) % 0x100) as u8,
        ((n / 0x1_0000) % 0x100) as u8,
        (n / 0x100_0000) as u8,
    ]
}

/// The number whose bytes are given least significant byte first.
pub open spec fn le_value(bytes: Seq<u8>) -> nat {
    (bytes[0] + bytes[1] * 0x100 + bytes[2] * 0x1_0000 + bytes[3] * 0x100_0000) as nat
}

/// The largest value of the last byte of the longest encoding of an unsigned integer that
/// has `bits` bits.
pub open spec fn max_last_byte(bits: nat) -> nat {
    (vstd::arithmetic::power2::pow2(bits % 7) - 1) as nat
}

/// Number of bytes needed for the encoding of any value of an unsigned type of `T`'s size.
pub fn varint_max<T>() -> (r: usize)
    requires
        vstd::layout::size_of::<T>() * 8 + 6 <= usize::MAX,
    ensures
        r as nat == (vstd::layout::size_of::<T>() * 8 + 6) / 7,
{
    (core::mem::size_of::<T>() * 8 + 6) / 7
}

/// Appends a number to a buffer with [`byteorder::WriteBytesExt::write_u32`].
///
/// The call writes the four bytes of the number, least significant byte first,
/// and writing to a vector appends.
#[verifier::external_body]
fn push_u32_le(out: &mut Vec<u8>, n: u32)
    ensures
        final(out)@ == old(out)@ + le_bytes(n),
{
    out.write_u32::<LE>(n).unwrap()
}

/// Reads a number from the start of `data` with [`byteorder::ReadBytesExt::read_u32`].
///
/// The call takes the first four bytes, least significant byte first, and fails
/// when there are fewer.
#[verifier::external_body]
fn first_u32_le(data: &[u8]) -> (r: Option<u32>)
    ensures
        data@.len() < 4 ==> r is None,
        data@.len() >= 4 ==> r is Some && r->0 as nat == le_value(data@),
{
    let mut reader: &[u8] = data;
    reader.read_u32::<LE>().ok()
}

/// Writes the variable length encoding of `n` to the start of `out` and returns it.
pub fn varint_u32(n: u32, out: &mut [u8; MAX_LENGTH]) -> (used: &[u8])
    ensures
        used@ == varint(n),
        final(out)@ == varint(n) + old(out)@.skip(varint_len(n) as int),
{
    let mut value: u32 = n;
    let mut i: usize = 0;
    while value >= 0x80
        invariant
            i < MAX_LENGTH,
            i < varint_len(n),
            value as nat == n as nat / group_weight(i as int),
            forall|j: int|
                0 <= j < i ==> #[trigger] out@[j] == ((n as nat / group_weight(j)) % 0x80
                    + 0x80) as u8,
            forall|j: int| i <= j < MAX_LENGTH ==> #[trigger] out@[j] == old(out)@[j],
        decreases value,
    {
        proof {
            assert(group_weight(i + 1) == group_weight(i as int) * 0x80);
            vstd::arithmetic::div_mod::lemma_div_denominator(
                n as int,
                group_weight(i as int) as int,
                0x80,
            );
        }
        let low: u8 = (value % 0x80) as u8;
        out[i] = low + 0x80;
        value = value / 0x80;
        i = i + 1;
    }
    out[i] = value as u8;
    assert(i + 1 == varint_len(n));
    assert(out@ =~= varint(n) + old(out)@.skip(varint_len(n) as int));
    let used = vstd::slice::slice_subrange(vstd::array::array_as_slice(out), 0, i + 1);
    assert(used@ =~= varint(n));
    used
}

/// Writing a number in a fixed or variable length encoding.
pub trait VarintWrite {
    /// What has been written so far.
    spec fn written(&self) -> Seq<u8>;

    /// Writes a 32 bit number, using the variable length encoding if requested.
    ///
    /// Returns the number of bytes written.
    fn write_v32(&mut self, n: u32, varint: bool) -> (used: usize)
        ensures
            final(self).written() == old(self).written() + v32(n, varint),
            used as nat == v32(n, varint).len(),
    ;
}

/// The encoding of `n` in fixed or variable length.
pub open spec fn v32(n: u32, variable: bool) -> Seq<u8> {
    if variable {
        varint(n)
    } else {
        le_bytes(n)
    }
}

impl VarintWrite for Vec<u8> {
    open spec fn written(&self) -> Seq<u8> {
        self@
    }

    fn write_v32(&mut self, n: u32, varint: bool) -> (used: usize) {
        if !varint {
            push_u32_le(self, n);
            return 4;
        }
        let mut buf: [u8; MAX_LENGTH] = [0, 0, 0, 0, 0];
        let used = varint_u32(n, &mut buf);
        self.extend_from_slice(used);
        used.len()
    }
}

/// A position within received data.
pub struct Reader<'a> {
    /// The data.
    pub data: &'a [u8],
    /// Number of bytes that have been read.
    pub pos: usize,
}

/// Reading a number in a fixed or variable length encoding.
pub trait VarintRead {
    /// The data that has not been read.
    spec fn unread(&self) -> Seq<u8>;

    /// Whether the reader is in a state from which it can read.
    spec fn wf(&self) -> bool;

    /// Reads a 32 bit number in the encoding written by [`VarintWrite::write_v32`].
    fn read_v32(&mut self, varint: bool) -> (r: Result<u32, VarintError>)
        requires
            old(self).wf(),
        ensures
            final(self).wf(),
            !varint && old(self).unread().len() < 4 ==> r == Err::<u32, VarintError>(
                VarintError::UnexpectedEof,
            ),
            !varint && old(self).unread().len() >= 4 ==> {
                &&& r is Ok
                &&& r->Ok_0 as nat == le_value(old(self).unread())
                &&& final(self).unread() == old(self).unread().skip(4)
            },
            forall|k: int|
                varint && #[trigger] ends_at(old(self).unread(), k) ==> {
                    &&& r is Ok
                    &&& r->Ok_0 as nat == varint_value(old(self).unread().take(k + 1))
                    &&& final(self).unread() == old(self).unread().skip(k + 1)
                },
            varint ==> (r == Err::<u32, VarintError>(VarintError::InvalidVarint) <==> is_invalid(
                old(self).unread(),
            )),
            varint ==> (r == Err::<u32, VarintError>(VarintError::UnexpectedEof) <==> {
                &&& old(self).unread().len() < MAX_LENGTH
                &&& continues(old(self).unread(), old(self).unread().len() as int)
            }),
    ;
}

/// Decodes a number byte by byte.
pub struct VarintDecoder {
    /// The groups decoded so far.
    pub value: u32,
    /// Number of groups decoded so far.
    pub pos: usize,
}

/// The decoder value after the byte `val` at group position `pos`.
pub open spec fn accumulate(value: u32, pos: usize, val: u8) -> u32 {
    value | (((val & 0x7F) as u32) << ((7 * pos) as u32))
}

impl VarintDecoder {
    /// Creates a decoder that expects the first byte of a number.
    pub fn new() -> (r: Self)
        ensures
            r.value == 0,
            r.pos == 0,
    {
        Self { value: 0, pos: 0 }
    }

    /// Decodes the next byte.
    ///
    /// Returns the number once its last byte has been decoded; the decoder then
    /// expects the first byte of the next number. A decoder that failed because
    /// an encoding was too long must not be used again.
    pub fn decode(&mut self, val: u8) -> (r: Result<Option<u32>, VarintError>)
        requires
            old(self).pos < MAX_LENGTH,
        ensures
            val < 0x80 && !(old(self).pos == MAX_LENGTH - 1 && val > MAX_OF_LAST_BYTE) ==> {
                &&& r == Ok::<Option<u32>, VarintError>(
                    Some(accumulate(old(self).value, old(self).pos, val)),
                )
                &&& final(self).value == 0
                &&& final(self).pos == 0
            },
            val < 0x80 && old(self).pos == MAX_LENGTH - 1 && val > MAX_OF_LAST_BYTE ==> {
                &&& r == Err::<Option<u32>, VarintError>(VarintError::InvalidVarint)
                &&& final(self).value == accumulate(old(self).value, old(self).pos, val)
                &&& final(self).pos == old(self).pos
            },
            val >= 0x80 ==> {
                &&& final(self).value == accumulate(old(self).value, old(self).pos, val)
                &&& final(self).pos == old(self).pos + 1
                &&& r == (if old(self).pos + 1 < MAX_LENGTH {
                    Ok::<Option<u32>, VarintError>(None)
                } else {
                    Err(VarintError::InvalidVarint)
                })
            },
    {
        let carry: u32 = (val & 0x7F) as u32;
        self.value = self.value | (carry << ((7 * self.pos) as u32));
        if val < 0x80 {
            if self.pos == MAX_LENGTH - 1 && val > MAX_OF_LAST_BYTE {
                Err(VarintError::InvalidVarint)
            } else {
                self.pos = 0;
                let value: u32 = self.value;
                self.value = 0;
                Ok(Some(value))
            }
        } else {
            self.pos = self.pos + 1;
            if self.pos < MAX_LENGTH {
                Ok(None)
            } else {
                Err(VarintError::InvalidVarint)
            }
        }
    }
}

impl Default for VarintDecoder {
    fn default() -> (r: Self)
        ensures
            r.value == 0,
            r.pos == 0,
    {
        VarintDecoder::new()
    }
}

/// Joining a group to the groups below it adds its weight.
#[verifier::spinoff_prover]
proof fn lemma_accumulate(value: u32, pos: usize, val: u8)
    requires
        pos < MAX_LENGTH,
        value < group_weight(pos as int) || pos == 0 && value == 0,
        pos == MAX_LENGTH - 1 ==> val <= MAX_OF_LAST_BYTE,
    ensures
        accumulate(value, pos, val) as nat == value + (val as nat % 0x80) * group_weight(
            pos as int,
        ),
        pos < MAX_LENGTH - 1 ==> accumulate(value, pos, val) < group_weight(pos + 1),
{
    assert(val & 0x7F == val % 0x80) by (bit_vector);
    let carry: u32 = (val & 0x7F) as u32;
    assert(carry == val as nat % 0x80);
    if pos == 0 {
        assert(group_weight(0) == 1);
        assert(value == 0 && carry < 0x80 ==> value | (carry << 0u32) == carry) by (bit_vector);
        assert(accumulate(value, 0, val) == carry);
    } else if pos == 1 {
        assert(group_weight(1) == 0x80);
        assert(value < 0x80 && carry < 0x80 ==> value | (carry << 7u32) == value + carry * 0x80)
            by (bit_vector);
        assert(accumulate(value, 1, val) == value + carry * 0x80);
    } else if pos == 2 {
        assert(group_weight(2) == 0x4000);
        assert(value < 0x4000 && carry < 0x80 ==> value | (carry << 14u32) == value + carry
            * 0x4000) by (bit_vector);
        assert(accumulate(value, 2, val) == value + carry * 0x4000);
    } else if pos == 3 {
        assert(group_weight(3) == 0x20_0000);
        assert(value < 0x20_0000 && carry < 0x80 ==> value | (carry << 21u32) == value + carry
            * 0x20_0000) by (bit_vector);
        assert(accumulate(value, 3, val) == value + carry * 0x20_0000);
    } else {
        assert(group_weight(4) == 0x1000_0000);
        assert(value < 0x1000_0000 && carry < 0x10 ==> value | (carry << 28u32) == value + carry
            * 0x1000_0000) by (bit_vector);
        assert(accumulate(value, 4, val) == value + carry * 0x1000_0000);
    }
}

impl<'a> VarintRead for Reader<'a> {
    open spec fn unread(&self) -> Seq<u8> {
        self.data@.skip(self.pos as int)
    }

    open spec fn wf(&self) -> bool {
        self.pos <= self.data@.len()
    }

    fn read_v32(&mut self, varint: bool) -> (r: Result<u32, VarintError>) {
        let ghost unread = self.data@.skip(self.pos as int);
        if !varint {
            let rest: &[u8] = vstd::slice::slice_subrange(self.data, self.pos, self.data.len());
            assert(rest@ =~= unread);
            match first_u32_le(rest) {
                Some(value) => {
                    self.pos = self.pos + 4;
                    assert(self.data@.skip(self.pos as int) =~= unread.skip(4));
                    return Ok(value);
                },
                None => return Err(VarintError::UnexpectedEof),
            }
        }
        let ghost start = self.pos;
        let mut decoder = VarintDecoder::new();
        loop
            invariant
                self.data@ == old(self).data@,
                start == old(self).pos,
                unread == self.data@.skip(start as int),
                start <= self.pos <= self.data@.len(),
                decoder.pos == self.pos - start,
                decoder.pos < MAX_LENGTH,
                continues(unread, decoder.pos as int),
                decoder.pos == 0 ==> decoder.value == 0,
                decoder.value < group_weight(decoder.pos as int),
                decoder.value as nat == varint_value(unread.take(decoder.pos as int)),
                varint,
                old(self).unread() == unread,
            decreases self.data@.len() - self.pos,
        {
            if self.pos >= self.data.len() {
                proof {
                    assert forall|k: int| !ends_at(unread, k) by {
                        if ends_at(unread, k) {
                            assert(unread[k] >= 0x80);
                        }
                    }
                }
                return Err(VarintError::UnexpectedEof);
            }
            let val: u8 = self.data[self.pos];
            let ghost k = decoder.pos as int;
            let ghost value = decoder.value;
            self.pos = self.pos + 1;
            proof {
                assert(unread[k] == val);
                assert(unread.take(k + 1).drop_last() =~= unread.take(k));
                assert(unread.take(k + 1).last() == val);
                if k < MAX_LENGTH - 1 || val <= MAX_OF_LAST_BYTE {
                    lemma_accumulate(value, decoder.pos, val);
                }
            }
            match decoder.decode(val) {
                Ok(Some(out)) => {
                    proof {
                        assert(ends_at(unread, k));
                        assert forall|j: int| ends_at(unread, j) implies j == k by {
                            if j < k {
                                assert(unread[j] >= 0x80);
                            } else if j > k {
                                assert(unread[k] >= 0x80);
                            }
                        }
                        assert(self.data@.skip(self.pos as int) =~= unread.skip(k + 1));
                    }
                    return Ok(out);
                },
                Ok(None) => (),
                Err(err) => {
                    proof {
                        assert forall|j: int| !ends_at(unread, j) by {
                            if ends_at(unread, j) {
                                if j < k {
                                    assert(unread[j] >= 0x80);
                                }
                            }
                        }
                    }
                    return Err(err);
                },
            }
        }
    }
}

/// The largest value of the last byte of the longest encoding of an unsigned type of `T`'s
/// size.
///
/// It holds the bits that do not fill a group of seven.
pub fn max_of_last_byte<T>() -> (r: u8)
    requires
        vstd::layout::size_of::<T>() * 8 <= usize::MAX,
    ensures
        r as nat == max_last_byte(vstd::layout::size_of::<T>() * 8),
{
    let extra_bits: usize = core::mem::size_of::<T>() * 8 % 7;
    proof {
        vstd::arithmetic::power2::lemma2_to64();
    }
    match extra_bits {
        0 => 0,
        1 => 1,
        2 => 3,
        3 => 7,
        4 => 15,
        5 => 31,
        _ => 63,
    }
}

/// The longest encoding of a `u32` and the largest value of its last byte.
pub proof fn law_u32_bounds()
    ensures
        (vstd::layout::size_of::<u32>() * 8 + 6) / 7 == MAX_LENGTH,
        max_last_byte(vstd::layout::size_of::<u32>() * 8) == MAX_OF_LAST_BYTE,
{
    vstd::arithmetic::power2::lemma2_to64();
}

/// The encoding of a number has between one and [`MAX_LENGTH`] bytes.
pub proof fn law_varint_length(n: u32)
    ensures
        1 <= varint(n).len() <= MAX_LENGTH,
{
}

/// Taking one more byte adds its group.
proof fn lemma_value_step(bytes: Seq<u8>, i: int)
    requires
        0 <= i < bytes.len(),
    ensures
        varint_value(bytes.take(i + 1)) == varint_value(bytes.take(i)) + (bytes[i] as nat % 0x80)
            * group_weight(i),
{
    assert(bytes.take(i + 1).drop_last() =~= bytes.take(i));
    assert(bytes.take(i + 1).last() == bytes[i]);
}

/// The groups of a number, weighted, add up to it.
#[verifier::spinoff_prover]
proof fn lemma_groups(m: nat)
    requires
        m <= u32::MAX,
    ensures
        m < 0x80 ==> m == m % 0x80,
        m < 0x4000 ==> m == m % 0x80 + ((m / 0x80) % 0x80) * 0x80,
        m < 0x20_0000 ==> m == m % 0x80 + ((m / 0x80) % 0x80) * 0x80 + ((m / 0x4000) % 0x80)
            * 0x4000,
        m < 0x1000_0000 ==> m == m % 0x80 + ((m / 0x80) % 0x80) * 0x80 + ((m / 0x4000) % 0x80)
            * 0x4000 + ((m / 0x20_0000) % 0x80) * 0x20_0000,
        m == m % 0x80 + ((m / 0x80) % 0x80) * 0x80 + ((m / 0x4000) % 0x80) * 0x4000 + ((m
            / 0x20_0000) % 0x80) * 0x20_0000 + ((m / 0x1000_0000) % 0x80) * 0x1000_0000,
{
    let q1 = m / 0x80;
    let q2 = q1 / 0x80;
    let q3 = q2 / 0x80;
    let q4 = q3 / 0x80;
    assert(q2 == m / 0x4000) by {
        vstd::arithmetic::div_mod::lemma_div_denominator(m as int, 0x80, 0x80);
    }
    assert(q3 == m / 0x20_0000) by {
        vstd::arithmetic::div_mod::lemma_div_denominator(m as int, 0x4000, 0x80);
    }
    assert(q4 == m / 0x1000_0000) by {
        vstd::arithmetic::div_mod::lemma_div_denominator(m as int, 0x20_0000, 0x80);
    }
    assert(m == m % 0x80 + q1 * 0x80);
    assert(q1 == q1 % 0x80 + q2 * 0x80);
    assert(q2 == q2 % 0x80 + q3 * 0x80);
    assert(q3 == q3 % 0x80 + q4 * 0x80);
    assert(q4 % 0x80 == q4);
}

/// Reading what was written gives back the number, whatever follows it.
///
/// The first bytes of the data are a valid encoding, they hold the number, and
/// what is left after reading them is exactly what followed the number.
pub proof fn law_varint_round_trip(n: u32, rest: Seq<u8>)
    ensures
        ends_at(varint(n) + rest, varint(n).len() - 1),
        varint_value((varint(n) + rest).take(varint(n).len() as int)) == n as nat,
        (varint(n) + rest).skip(varint(n).len() as int) == rest,
{
    let s = varint(n);
    let all = s + rest;
    let len = s.len() as int;
    assert(all.take(len) =~= s.take(len));
    assert(all.skip(len) =~= rest);
    assert(forall|i: int| 0 <= i < len ==> all[i] == s[i]);
    let m = n as nat;
    lemma_groups(m);
    assert(s.take(0).len() == 0);
    lemma_value_step(s, 0);
    if len >= 2 {
        lemma_value_step(s, 1);
        assert(s[1] as nat % 0x80 == (m / 0x80) % 0x80);
    }
    if len >= 3 {
        lemma_value_step(s, 2);
        assert(s[2] as nat % 0x80 == (m / 0x4000) % 0x80);
    }
    if len >= 4 {
        lemma_value_step(s, 3);
        assert(s[3] as nat % 0x80 == (m / 0x20_0000) % 0x80);
    }
    if len >= 5 {
        lemma_value_step(s, 4);
        assert(s[4] as nat % 0x80 == (m / 0x1000_0000) % 0x80);
    }
}

/// The fixed length encoding has four bytes and holds the number.
pub proof fn law_fixed_round_trip(n: u32, rest: Seq<u8>)
    ensures
        le_bytes(n).len() == 4,
        le_value(le_bytes(n) + rest) == n as nat,
        (le_bytes(n) + rest).skip(4) == rest,
{
    let all = le_bytes(n) + rest;
    assert(all.skip(4) =~= rest);
    assert(all[0] == le_bytes(n)[0] && all[1] == le_bytes(n)[1]);
    assert(all[2] == le_bytes(n)[2] && all[3] == le_bytes(n)[3]);
}

/// No encoding is the start of the encoding of another number.
pub proof fn law_varint_prefix_free(a: u32, b: u32, rest: Seq<u8>)
    requires
        varint(a) + rest == varint(b),
    ensures
        a == b,
        rest.len() == 0,
{
    law_varint_round_trip(a, rest);
    law_varint_round_trip(b, Seq::empty());
    let s = varint(b);
    assert(s + Seq::<u8>::empty() =~= s);
    let i = varint(a).len() - 1;
    let j = s.len() - 1;
    if i < j {
        assert(s[i] >= 0x80);
    }
    assert(i == j);
    assert(rest.len() == 0);
    assert(s.take(s.len() as int) =~= s);
    assert((varint(a) + rest).take(varint(a).len() as int) =~= s);
}

/// A number that was written is read back from the data, whatever follows it, and reading goes
/// on with what follows.
pub proof fn law_written_number_is_read(
    before: Vec<u8>,
    n: u32,
    variable: bool,
    used: usize,
    after: Vec<u8>,
    rest: Seq<u8>,
    reader: Reader<'_>,
    r: Result<u32, VarintError>,
    read: Reader<'_>,
)
    requires
        exists|out: &mut Vec<u8>| #[trigger]
            call_ensures(<Vec<u8> as VarintWrite>::write_v32, (out, n, variable), used) && *out
                == before && *final(out) == after,
        reader.pos == before@.len(),
        reader.data@ == after@ + rest,
        read.pos <= read.data@.len(),
        exists|state: &mut Reader<'_>| #[trigger]
            call_ensures(<Reader<'_> as VarintRead>::read_v32, (state, variable), r) && *state
                == reader && *final(state) == read,
    ensures
        r == Ok::<u32, VarintError>(n),
        read.data@.skip(read.pos as int) == rest,
        after@.take(before@.len() as int) == before@,
        after@.len() == before@.len() + used,
        variable ==> 1 <= used <= 5,
        !variable ==> used == 4,
        variable && n < 0x80 ==> used == 1,
{
    let written = v32(n, variable);
    assert(reader.unread() =~= written + rest);
    assert(after@ == before@ + written);
    assert(read.unread() == read.data@.skip(read.pos as int));
    if variable {
        law_varint_round_trip(n, rest);
        law_varint_length(n);
        assert(ends_at(reader.unread(), varint(n).len() - 1));
    } else {
        law_fixed_round_trip(n, rest);
    }
}

/// A number below 128 is written as itself, and a number from there on as the low seven bits
/// with the mark that more follows, followed by what is left of the number.
pub proof fn law_groups_of_a_number(
    n: u32,
    before: [u8; MAX_LENGTH],
    after: [u8; MAX_LENGTH],
    used: &[u8],
    rest: &[u8],
)
    requires
        exists|out: &mut [u8; MAX_LENGTH]| #[trigger]
            call_ensures(varint_u32, (n, out), used) && *out == before && *final(out) == after,
        exists|out: &mut [u8; MAX_LENGTH]| #[trigger]
            call_ensures(varint_u32, ((n / 0x80) as u32, out), rest),
    ensures
        n < 0x80 ==> used@ == seq![n as u8],
        n >= 0x80 ==> used@ == seq![(n % 0x80 + 0x80) as u8] + rest@,
        after@.take(used@.len() as int) == used@,
        forall|i: int| used@.len() <= i < MAX_LENGTH ==> #[trigger] after@[i] == before@[i],
{
    let m = (n / 0x80) as u32;
    if n >= 0x80 {
        assert(varint_len(n) == varint_len(m) + 1);
        assert forall|i: int| 0 <= i < varint_len(m) implies varint(n)[i + 1] == #[trigger] varint(
            m,
        )[i] by {
            assert(group_weight(i + 1) == 0x80 * group_weight(i));
            vstd::arithmetic::div_mod::lemma_div_denominator(
                n as int,
                0x80,
                group_weight(i) as int,
            );
        }
        assert(varint(n) =~= seq![(n % 0x80 + 0x80) as u8] + varint(m)) by {
            assert forall|i: int| 0 <= i < varint_len(n) implies #[trigger] varint(n)[i] == (seq![
                (n % 0x80 + 0x80) as u8,
            ] + varint(m))[i] by {
                if i > 0 {
                    assert(varint(n)[i - 1 + 1] == varint(m)[i - 1]);
                }
            }
        }
    } else {
        assert(varint(n) =~= seq![n as u8]);
    }
}

/// A byte without a mark ends a number and makes the decoder ready for the next one. A byte
/// with a mark does not end it. The fifth byte must not be marked nor exceed four bits.
pub proof fn law_decoded_byte(
    before: VarintDecoder,
    val: u8,
    after: VarintDecoder,
    r: Result<Option<u32>, VarintError>,
    fresh: VarintDecoder,
    made: VarintDecoder,
)
    requires
        before.pos < 5,
        exists|state: &mut VarintDecoder| #[trigger]
            call_ensures(VarintDecoder::decode, (state, val), r) && *state == before
                && *final(state) == after,
        call_ensures(VarintDecoder::new, (), fresh),
        call_ensures(<VarintDecoder as Default>::default, (), made),
    ensures
        made == fresh,
        fresh.pos == 0 && fresh.value == 0,
        r is Err <==> before.pos == 4 && val > 15,
        r matches Ok(Some(_)) ==> val < 0x80 && after == fresh,
        r matches Ok(None) ==> val >= 0x80 && after.pos == before.pos + 1,
        before.pos == 0 && before.value == 0 && val < 0x80 ==> r == Ok::<Option<u32>, VarintError>(
            Some(val as u32),
        ),
{
    if before.pos == 0 && before.value == 0 && val < 0x80 {
        lemma_accumulate(0, 0, val);
        assert(val as nat % 0x80 == val);
        assert(accumulate(0, 0, val) == val as u32);
    }
}

/// A byte adds its seven bits to the number above those that were decoded before it.
pub proof fn law_decoded_value(
    before: VarintDecoder,
    val: u8,
    after: VarintDecoder,
    r: Result<Option<u32>, VarintError>,
)
    requires
        before.pos < 5,
        before.value < group_weight(before.pos as int),
        before.pos == 0 ==> before.value == 0,
        exists|state: &mut VarintDecoder| #[trigger]
            call_ensures(VarintDecoder::decode, (state, val), r) && *state == before
                && *final(state) == after,
    ensures
        r matches Ok(Some(value)) ==> value == before.value + val * group_weight(before.pos as int),
        r matches Ok(None) ==> after.value == before.value + (val - 0x80) * group_weight(
            before.pos as int,
        ) && after.value < group_weight(after.pos as int),
{
    if r is Ok {
        lemma_accumulate(before.value, before.pos, val);
    }
}

/// Reading fails because of the data only if it ends within a number or holds a number that is
/// too large: five bytes of which the first four are marked and the last exceeds four bits.
pub proof fn law_failure_of_reading(
    reader: Reader<'_>,
    variable: bool,
    r: Result<u32, VarintError>,
    read: Reader<'_>,
)
    requires
        reader.pos <= reader.data@.len(),
        exists|state: &mut Reader<'_>| #[trigger]
            call_ensures(<Reader<'_> as VarintRead>::read_v32, (state, variable), r) && *state
                == reader && *final(state) == read,
    ensures
        !variable ==> (r is Err <==> reader.data@.len() - reader.pos < 4),
        r == Err::<u32, VarintError>(VarintError::InvalidVarint) <==> {
            &&& variable
            &&& reader.data@.len() - reader.pos >= 5
            &&& forall|i: int|
                reader.pos <= i < reader.pos + 4 ==> #[trigger] reader.data@[i] >= 0x80
            &&& reader.data@[reader.pos + 4] > 15
        },
        variable ==> (r == Err::<u32, VarintError>(VarintError::UnexpectedEof) <==> {
            &&& reader.data@.len() - reader.pos < 5
            &&& forall|i: int|
                reader.pos <= i < reader.data@.len() ==> #[trigger] reader.data@[i] >= 0x80
        }),
{
    let unread = reader.unread();
    lemma_continues(reader.data@, reader.pos as int, 4);
    lemma_continues(reader.data@, reader.pos as int, unread.len() as int);
}

/// Bytes from a position on are marked exactly if those of what starts there are.
proof fn lemma_continues(bytes: Seq<u8>, pos: int, k: int)
    requires
        0 <= pos <= bytes.len(),
    ensures
        pos + k <= bytes.len() ==> (continues(bytes.skip(pos), k) <==> forall|i: int|
            pos <= i < pos + k ==> #[trigger] bytes[i] >= 0x80),
{
    let rest = bytes.skip(pos);
    if pos + k <= bytes.len() {
        if continues(rest, k) {
            assert forall|i: int| pos <= i < pos + k implies #[trigger] bytes[i] >= 0x80 by {
                assert(rest[i - pos] >= 0x80);
            }
        } else {
            let i = choose|i: int| 0 <= i < k && !(#[trigger] rest[i] >= 0x80);
            assert(bytes[pos + i] == rest[i]);
        }
    }
}

/// The longest encoding of a `u32` has five bytes, of which the last holds four bits.
pub proof fn law_longest_encoding(len: usize, last: u8)
    requires
        call_ensures(varint_max::<u32>, (), len),
        call_ensures(max_of_last_byte::<u32>, (), last),
    ensures
        len == 5,
        last == 15,
{
    law_u32_bounds();
}

/// The longest encoding of a type has as many groups of seven as hold all its bits and not one
/// more, and its last byte is at most what fills the bits that the other groups leave.
pub proof fn law_longest_encodings(
    len: (usize, usize, usize, usize),
    last: (u8, u8, u8, u8),
)
    requires
        call_ensures(varint_max::<u8>, (), len.0),
        call_ensures(varint_max::<u16>, (), len.1),
        call_ensures(varint_max::<u64>, (), len.2),
        call_ensures(varint_max::<u128>, (), len.3),
        call_ensures(max_of_last_byte::<u8>, (), last.0),
        call_ensures(max_of_last_byte::<u16>, (), last.1),
        call_ensures(max_of_last_byte::<u64>, (), last.2),
        call_ensures(max_of_last_byte::<u128>, (), last.3),
    ensures
        7 * (len.0 - 1) < 8 <= 7 * len.0 && last.0 == 1,
        7 * (len.1 - 1) < 16 <= 7 * len.1 && last.1 == 3,
        7 * (len.2 - 1) < 64 <= 7 * len.2 && last.2 == 1,
        7 * (len.3 - 1) < 128 <= 7 * len.3 && last.3 == 3,
{
    vstd::arithmetic::power2::lemma2_to64();
}

} // verus!
