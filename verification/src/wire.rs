//! The MessagePack values that packets are made of.
//!
//! The bytes are written and read by `rmp` and `rmpv`. What those calls do is stated here over
//! spec functions on byte sequences, and everything else in this crate is proved from that.

use rmpv::Value as Decoded;
use vstd::prelude::*;
use vstd::utf8::*;

verus! {

/// The two bytes of a number below 2^16, most significant first.
pub open spec fn be16(n: nat) -> Seq<u8> {
    seq![(n / 0x100 % 0x100) as u8, (n % 0x100) as u8]
}

/// The four bytes of a number below 2^32, most significant first.
pub open spec fn be32(n: nat) -> Seq<u8> {
    seq![
        (n / 0x100_0000 % 0x100) as u8,
        (n / 0x1_0000 % 0x100) as u8,
        (n / 0x100 % 0x100) as u8,
        (n % 0x100) as u8,
    ]
}

/// The number that `bytes` spell, most significant first.
pub open spec fn from_be(bytes: Seq<u8>) -> nat
    decreases bytes.len(),
{
    if bytes.len() == 0 {
        0
    } else {
        from_be(bytes.drop_last()) * 0x100 + bytes.last() as nat
    }
}

/// The `width` bytes after the marker, as a number; nothing when `bytes` is too short.
pub open spec fn be_after_marker(bytes: Seq<u8>, width: nat) -> Option<nat> {
    if bytes.len() < 1 + width {
        None
    } else {
        Some(from_be(bytes.subrange(1, 1 + width as int)))
    }
}

/// The number `n` read as a two's complement integer of `width` bytes.
pub open spec fn signed(n: nat, width: nat) -> int {
    let half = vstd::arithmetic::power::pow(0x100, width) / 2;
    if n < half {
        n as int
    } else {
        n - 2 * half
    }
}

/// A header that announces an array of `len` elements.
pub open spec fn array_len_bytes(len: u32) -> Seq<u8> {
    if len < 16 {
        seq![(0x90 + len) as u8]
    } else if len < 0x1_0000 {
        seq![0xdcu8] + be16(len as nat)
    } else {
        seq![0xddu8] + be32(len as nat)
    }
}

/// A 32-bit unsigned integer, which always takes five bytes.
pub open spec fn u32_bytes(n: u32) -> Seq<u8> {
    seq![0xceu8] + be32(n as nat)
}

/// A nil.
pub open spec fn nil_bytes() -> Seq<u8> {
    seq![0xc0u8]
}

/// A header that announces a string of `len` bytes.
pub open spec fn str_len_bytes(len: nat) -> Seq<u8> {
    if len < 32 {
        seq![(0xa0 + len) as u8]
    } else if len < 0x100 {
        seq![0xd9u8, len as u8]
    } else if len < 0x1_0000 {
        seq![0xdau8] + be16(len)
    } else {
        seq![0xdbu8] + be32(len)
    }
}

/// A string: a header, then its UTF-8 bytes. The header has room for the low 32 bits of the
/// length.
pub open spec fn str_bytes(s: Seq<char>) -> Seq<u8> {
    str_len_bytes(encode_utf8(s).len() % 0x1_0000_0000) + encode_utf8(s)
}

/// The array header at the start of `bytes`: the number of elements, and the number of bytes
/// that the header takes.
pub open spec fn array_len_at(bytes: Seq<u8>) -> Option<(u32, nat)> {
    if bytes.len() == 0 {
        None
    } else if 0x90 <= bytes[0] <= 0x9f {
        Some(((bytes[0] - 0x90) as u32, 1))
    } else if bytes[0] == 0xdc {
        match be_after_marker(bytes, 2) {
            Some(n) => Some((n as u32, 3)),
            None => None,
        }
    } else if bytes[0] == 0xdd {
        match be_after_marker(bytes, 4) {
            Some(n) => Some((n as u32, 5)),
            None => None,
        }
    } else {
        None
    }
}

/// Whether `marker` starts an integer.
pub open spec fn is_int_marker(marker: u8) -> bool {
    marker <= 0x7f || 0xe0 <= marker || 0xcc <= marker <= 0xd3
}

/// How many bytes an integer has after the marker `0xcc` to `0xd3`.
pub open spec fn int_width(marker: u8) -> nat {
    match marker {
        0xcc | 0xd0 => 1,
        0xcd | 0xd1 => 2,
        0xce | 0xd2 => 4,
        _ => 8,
    }
}

/// The integer at the start of `bytes`, in whatever width it was written: its value, and the
/// number of bytes that it takes.
pub open spec fn int_at(bytes: Seq<u8>) -> Option<(int, nat)> {
    if bytes.len() == 0 || !is_int_marker(bytes[0]) {
        None
    } else if bytes[0] <= 0x7f {
        Some((bytes[0] as int, 1))
    } else if 0xe0 <= bytes[0] {
        Some((bytes[0] - 0x100, 1))
    } else {
        let width = int_width(bytes[0]);
        match be_after_marker(bytes, width) {
            Some(n) => Some((
                if bytes[0] <= 0xcf {
                    n as int
                } else {
                    signed(n, width)
                },
                1 + width,
            )),
            None => None,
        }
    }
}

/// The integer at the start of `bytes` if it fits in 32 bits unsigned.
pub open spec fn u32_at(bytes: Seq<u8>) -> Option<(u32, nat)> {
    match int_at(bytes) {
        Some((n, len)) => if 0 <= n <= u32::MAX {
            Some((n as u32, len))
        } else {
            None
        },
        None => None,
    }
}

/// Whether `marker` starts a string.
pub open spec fn is_str_marker(marker: u8) -> bool {
    0xa0 <= marker <= 0xbf || 0xd9 <= marker <= 0xdb
}

/// The string header at the start of `bytes`: the number of bytes in the string, and the number
/// of bytes that the header takes.
pub open spec fn str_len_at(bytes: Seq<u8>) -> Option<(nat, nat)> {
    if bytes.len() == 0 || !is_str_marker(bytes[0]) {
        None
    } else if bytes[0] <= 0xbf {
        Some(((bytes[0] - 0xa0) as nat, 1))
    } else {
        let width: nat = if bytes[0] == 0xd9 {
            1
        } else if bytes[0] == 0xda {
            2
        } else {
            4
        };
        match be_after_marker(bytes, width) {
            Some(n) => Some((n, 1 + width)),
            None => None,
        }
    }
}

/// What a value is, as far as packets need to know.
pub enum ValueView {
    Nil,
    /// An integer, with its value if it is not negative.
    Integer(Option<u64>),
    /// A string, with its text if it is valid UTF-8.
    Str(Option<Seq<char>>),
    Other,
}

/// Whether `marker` starts a nil. The byte `0xc1`, which MessagePack never uses, counts as one.
pub open spec fn is_nil_marker(marker: u8) -> bool {
    marker == 0xc0 || marker == 0xc1
}

/// Whether `bytes` start with a nil, an integer or a string, complete or not.
pub open spec fn starts_scalar(bytes: Seq<u8>) -> bool {
    bytes.len() > 0 && (is_nil_marker(bytes[0]) || is_int_marker(bytes[0]) || is_str_marker(
        bytes[0],
    ))
}

/// The nil, integer or string at the start of `bytes`, and the number of bytes that it takes.
pub open spec fn scalar_at(bytes: Seq<u8>) -> Option<(ValueView, nat)> {
    if bytes.len() == 0 {
        None
    } else if is_nil_marker(bytes[0]) {
        Some((ValueView::Nil, 1))
    } else if is_int_marker(bytes[0]) {
        match int_at(bytes) {
            Some((n, len)) => Some((
                ValueView::Integer(
                    if n >= 0 {
                        Some(n as u64)
                    } else {
                        None
                    },
                ),
                len,
            )),
            None => None,
        }
    } else {
        match str_len_at(bytes) {
            Some((len, head)) => if head + len <= bytes.len() {
                let text = bytes.subrange(head as int, (head + len) as int);
                Some((
                    ValueView::Str(
                        if valid_utf8(text) {
                            Some(decode_utf8(text))
                        } else {
                            None
                        },
                    ),
                    head + len,
                ))
            } else {
                None
            },
            None => None,
        }
    }
}

/// The number of bytes that `rmpv::decode::read_value` takes off the front of `bytes` when they
/// start with neither a nil, an integer nor a string; nothing when it rejects them.
pub uninterp spec fn other_value_len(bytes: Seq<u8>) -> Option<nat>;

/// A value read off the wire, as far as packets need to know it.
pub enum Value {
    Nil,
    /// An integer, with its value if it is not negative.
    Integer(Option<u64>),
    /// A string, with its text if it is valid UTF-8.
    Str(Option<String>),
    /// A boolean, a float, a binary, an array, a map or an extension.
    Other,
}

impl View for Value {
    type V = ValueView;

    open spec fn view(&self) -> ValueView {
        match self {
            Value::Nil => ValueView::Nil,
            Value::Integer(n) => ValueView::Integer(*n),
            Value::Str(s) => ValueView::Str(
                match s {
                    Some(s) => Some(s@),
                    None => None,
                },
            ),
            Value::Other => ValueView::Other,
        }
    }
}

/// `rmp::encode::write_array_len`: appends the shortest array header for `len`.
#[verifier::external_body]
pub(crate) fn write_array_len(out: &mut Vec<u8>, len: u32)
    ensures
        final(out)@ == old(out)@ + array_len_bytes(len),
{
    let _ = rmp::encode::write_array_len(out, len);
}

/// `rmp::encode::write_u32`: appends the marker `0xce` and the four bytes of `n`, however small
/// `n` is.
#[verifier::external_body]
pub(crate) fn write_u32(out: &mut Vec<u8>, n: u32)
    ensures
        final(out)@ == old(out)@ + u32_bytes(n),
{
    let _ = rmp::encode::write_u32(out, n);
}

/// `rmp::encode::write_str`: appends the shortest string header for the low 32 bits of the
/// length, then the UTF-8 bytes of `s`.
#[verifier::external_body]
pub(crate) fn write_str(out: &mut Vec<u8>, s: &str)
    ensures
        final(out)@ == old(out)@ + str_bytes(s@),
{
    let _ = rmp::encode::write_str(out, s);
}

/// `rmp::encode::write_nil`: appends the byte `0xc0`.
#[verifier::external_body]
pub(crate) fn write_nil(out: &mut Vec<u8>)
    ensures
        final(out)@ == old(out)@ + nil_bytes(),
{
    let _ = rmp::encode::write_nil(out);
}

/// `rmp::decode::read_array_len`: reads an array header of any width off the front of `bytes`,
/// and fails on anything else. The second part of the result is what the reader has left.
#[verifier::external_body]
pub(crate) fn read_array_len(bytes: &[u8]) -> (r: Option<(u32, &[u8])>)
    ensures
        match r {
            Some((len, rest)) => array_len_at(bytes@) matches Some((n, head)) && len == n && rest@
                == bytes@.skip(head as int),
            None => array_len_at(bytes@) is None,
        },
{
    let mut reader: &[u8] = bytes;
    match rmp::decode::read_array_len(&mut reader) {
        Ok(len) => Some((len, reader)),
        Err(_) => None,
    }
}

/// `rmp::decode::read_int` at `u32`: reads an integer of any width off the front of `bytes`, and
/// fails on anything else and on a value that does not fit. The second part of the result is
/// what the reader has left.
#[verifier::external_body]
pub(crate) fn read_int(bytes: &[u8]) -> (r: Option<(u32, &[u8])>)
    ensures
        match r {
            Some((n, rest)) => u32_at(bytes@) matches Some((m, head)) && n == m && rest@
                == bytes@.skip(head as int),
            None => u32_at(bytes@) is None,
        },
{
    let mut reader: &[u8] = bytes;
    match rmp::decode::read_int(&mut reader) {
        Ok(n) => Some((n, reader)),
        Err(_) => None,
    }
}

/// `rmpv::decode::read_value`: reads one value off the front of `bytes`. A nil, an integer and a
/// string are what `scalar_at` says, and where `bytes` start with the marker of one of these the
/// call fails exactly where `scalar_at` has nothing. Any other value comes out as such, and how
/// many bytes it takes, if it is read at all, is `other_value_len`. An integer comes as
/// `Integer::as_u64` gives it, a string as `Utf8String::into_str` does. The second part of the
/// result is what the reader has left.
#[verifier::external_body]
pub(crate) fn read_value(bytes: &[u8]) -> (r: Option<(Value, &[u8])>)
    ensures
        bytes@.len() == 0 ==> r is None,
        starts_scalar(bytes@) ==> match r {
            Some((value, rest)) => scalar_at(bytes@) matches Some((v, len)) && value@ == v && rest@
                == bytes@.skip(len as int),
            None => scalar_at(bytes@) is None,
        },
        bytes@.len() > 0 && !starts_scalar(bytes@) ==> match r {
            Some((value, rest)) => other_value_len(bytes@) matches Some(len) && value@
                == ValueView::Other && rest@ == bytes@.skip(len as int),
            None => other_value_len(bytes@) is None,
        },
{
    let mut reader: &[u8] = bytes;
    let value = match rmpv::decode::read_value(&mut reader).ok()? {
        Decoded::Nil => Value::Nil,
        Decoded::Integer(n) => Value::Integer(n.as_u64()),
        Decoded::String(s) => Value::Str(s.into_str()),
        Decoded::Boolean(_) => Value::Other,
        Decoded::F32(_) => Value::Other,
        Decoded::F64(_) => Value::Other,
        Decoded::Binary(_) => Value::Other,
        Decoded::Array(_) => Value::Other,
        Decoded::Map(_) => Value::Other,
        Decoded::Ext(_, _) => Value::Other,
    };
    Some((value, reader))
}

/// The bytes of a number spell it.
proof fn lemma_be(n: nat)
    ensures
        n < 0x100 ==> from_be(seq![n as u8]) == n,
        n < 0x1_0000 ==> from_be(be16(n)) == n,
        n < 0x1_0000_0000 ==> from_be(be32(n)) == n,
{
    reveal_with_fuel(from_be, 5);
    let one = seq![n as u8];
    assert(one.drop_last() =~= Seq::<u8>::empty());
    let two = be16(n);
    assert(two.drop_last() =~= seq![two[0]]);
    assert(two.drop_last().drop_last() =~= Seq::<u8>::empty());
    let four = be32(n);
    assert(four.drop_last() =~= seq![four[0], four[1], four[2]]);
    assert(four.drop_last().drop_last() =~= seq![four[0], four[1]]);
    assert(four.drop_last().drop_last().drop_last() =~= seq![four[0]]);
    assert(four.drop_last().drop_last().drop_last().drop_last() =~= Seq::<u8>::empty());
}

/// The `width` bytes after a marker are found again, whatever follows.
proof fn lemma_after_marker(marker: u8, digits: Seq<u8>, rest: Seq<u8>)
    ensures
        be_after_marker(seq![marker] + digits + rest, digits.len()) == Some(from_be(digits)),
{
    let bytes = seq![marker] + digits + rest;
    assert(bytes.subrange(1, 1 + digits.len() as int) =~= digits);
}

/// An array header is read back as it was written, whatever follows.
pub proof fn array_len_round_trip(len: u32, rest: Seq<u8>)
    ensures
        array_len_at(array_len_bytes(len) + rest) == Some((len, array_len_bytes(len).len())),
{
    lemma_be(len as nat);
    lemma_after_marker(0xdc, be16(len as nat), rest);
    lemma_after_marker(0xdd, be32(len as nat), rest);
}

/// A 32-bit unsigned integer is read back as it was written, whatever follows.
pub proof fn u32_round_trip(n: u32, rest: Seq<u8>)
    ensures
        u32_at(u32_bytes(n) + rest) == Some((n, u32_bytes(n).len())),
        scalar_at(u32_bytes(n) + rest) == Some(
            (ValueView::Integer(Some(n as u64)), u32_bytes(n).len()),
        ),
{
    lemma_be(n as nat);
    lemma_after_marker(0xce, be32(n as nat), rest);
}

/// A nil is read back as it was written, whatever follows.
pub proof fn nil_round_trip(rest: Seq<u8>)
    ensures
        scalar_at(nil_bytes() + rest) == Some((ValueView::Nil, nil_bytes().len())),
{
}

/// Whether the length of a string fits in its header.
pub open spec fn fits_header(s: Seq<char>) -> bool {
    encode_utf8(s).len() < 0x1_0000_0000
}

/// A string is read back as it was written, whatever follows.
pub proof fn str_round_trip(s: Seq<char>, rest: Seq<u8>)
    requires
        fits_header(s),
    ensures
        scalar_at(str_bytes(s) + rest) == Some((ValueView::Str(Some(s)), str_bytes(s).len())),
{
    let text = encode_utf8(s);
    let len = text.len();
    let head = str_len_bytes(len);
    lemma_be(len);
    lemma_after_marker(0xd9, seq![len as u8], text + rest);
    lemma_after_marker(0xda, be16(len), text + rest);
    lemma_after_marker(0xdb, be32(len), text + rest);
    let bytes = str_bytes(s) + rest;
    assert(bytes =~= head + (text + rest));
    assert(seq![0xd9u8, len as u8] =~= seq![0xd9u8] + seq![len as u8]);
    assert(str_len_at(bytes) == Some((len, head.len())));
    assert(bytes.subrange(head.len() as int, (head.len() + len) as int) =~= text);
    encode_utf8_valid_utf8(s);
    encode_utf8_decode_utf8(s);
}

} // verus!
