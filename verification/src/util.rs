//! Short forms of binary data for diagnostic output.

use vstd::prelude::*;
use bytes::{Buf, Bytes};
use crate::text::{decimal, hex, push_decimal};

verus! {

/// The number of bytes that are shown.
pub const LIMIT: usize = 16;

/// How a byte is shown.
pub open spec fn shown_byte(b: u8) -> Seq<char> {
    if b == 0x0a {
        "\\n"@
    } else if b == 0x0d {
        "\\r"@
    } else if b == 0x09 {
        "\\t"@
    } else if b == 0x5c {
        "\\\\"@
    } else if b == 0x22 {
        "\\\""@
    } else if b == 0 {
        "\\0"@
    } else if 0x20 <= b < 0x7f {
        seq![b as char]
    } else {
        "\\x"@ + hex(b as nat, 2)
    }
}

/// How bytes are shown, one after the other.
pub open spec fn shown_bytes(data: Seq<u8>) -> Seq<char>
    decreases data.len(),
{
    if data.len() == 0 {
        Seq::empty()
    } else {
        shown_bytes(data.drop_last()) + shown_byte(data.last())
    }
}

/// How binary data is shown.
pub open spec fn shown(data: Seq<u8>) -> Seq<char> {
    "b\""@ + shown_bytes(data) + "\""@
}

/// Shows binary data with the [`core::fmt::Debug`] impl of [`bytes::Bytes`].
///
/// The impl writes a byte string literal: line feed, carriage return, tab, zero,
/// backslash and quotation mark by their escapes, other printable ASCII characters as
/// they are, and any other byte by two lower case hexadecimal digits.
#[verifier::external_body]
fn debug_bytes(data: &[u8]) -> (r: String)
    ensures
        r@ == shown(data@),
{
    let bytes = Bytes::copy_from_slice(data);
    format!("{bytes:?}")
}

/// Returns the first `len` bytes with [`bytes::Buf::copy_to_bytes`].
///
/// The call takes that many bytes from the start of the buffer and panics when there
/// are fewer.
#[verifier::external_body]
fn copy_to_bytes(data: &[u8], len: usize) -> (r: Vec<u8>)
    requires
        len <= data@.len(),
    ensures
        r@ == data@.take(len as int),
{
    let mut buf: &[u8] = data;
    buf.copy_to_bytes(len).to_vec()
}

/// The text that stands for binary data: long data is cut off and its length is given.
pub open spec fn bytes_text(data: Seq<u8>) -> Seq<char> {
    if data.len() > LIMIT {
        shown(data.take(LIMIT as int)) + "...["@ + decimal(data.len()) + " bytes]"@
    } else {
        shown(data)
    }
}

/// Returns a short text for binary data.
pub fn dbg_bytes(data: &Vec<u8>) -> (r: String)
    ensures
        r@ == bytes_text(data@),
{
    if data.len() > LIMIT {
        let start: Vec<u8> = copy_to_bytes(data.as_slice(), LIMIT);
        let mut out: String = debug_bytes(start.as_slice());
        out.append("...[");
        push_decimal(&mut out, data.len() as u64);
        out.append(" bytes]");
        out
    } else {
        debug_bytes(data.as_slice())
    }
}

/// Returns a short text for binary data that may be missing.
pub fn dbg_option_bytes(data: &Option<Vec<u8>>) -> (r: String)
    ensures
        r@ == (match *data {
            Some(data) => "Some("@ + bytes_text(data@) + ")"@,
            None => "None"@,
        }),
{
    match data {
        Some(data) => {
            let mut out = String::from_str("Some(");
            let text = dbg_bytes(data);
            out.append(text.as_str());
            out.append(")");
            out
        },
        None => String::from_str("None"),
    }
}

/// Up to sixteen bytes are shown in full between quotation marks. Of more the first sixteen are
/// shown as they would be alone, followed by how many there are.
pub proof fn law_long_data_is_cut_off(
    data: Vec<u8>,
    start: Vec<u8>,
    whole: String,
    short: String,
)
    requires
        data@.len() <= 16 ==> start@ == data@,
        data@.len() > 16 ==> start@ == data@.take(16),
        call_ensures(dbg_bytes, (&data,), whole),
        call_ensures(dbg_bytes, (&start,), short),
    ensures
        short@ == "b\""@ + shown_bytes(start@) + "\""@,
        data@.len() <= 16 ==> whole@ == short@,
        data@.len() > 16 ==> whole@ == short@ + "...["@ + decimal(data@.len()) + " bytes]"@,
{
}

/// Data that may be missing is shown as data is, and said to be there.
pub proof fn law_shown_missing_data(data: Vec<u8>, text: String, some: String, none: String)
    requires
        call_ensures(dbg_bytes, (&data,), text),
        call_ensures(dbg_option_bytes, (&Some(data),), some),
        call_ensures(dbg_option_bytes, (&None::<Vec<u8>>,), none),
    ensures
        some@ == "Some("@ + text@ + ")"@,
        none@ == "None"@,
{
}

} // verus!
