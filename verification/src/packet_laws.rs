//! What packets mean, in whatever form they are written, and how they are laid out.

use crate::laws;
use crate::method;
use crate::method::{Method, MethodView, ToMethod};
use crate::packet;
use crate::packet::{Packet, PacketError, PacketView};
use crate::wire;
use crate::wire::{Value, ValueView};
use vstd::prelude::*;
use vstd::std_specs::cmp::PartialEqSpec;

verus! {

/// An integer stands for the method of that number: a request or a notification that is made with
/// it calls that method at the other end.
pub proof fn integer_calls_its_method(n: u32, id: u32, args: Seq<u8>)
    ensures
        n.as_method() == MethodView::Int(n),
        packet::packet_at(packet::request_head(id, n.as_method()) + args) == Ok::<
            PacketView,
            PacketError,
        >(PacketView::Request { id, method: MethodView::Int(n), args }),
        packet::packet_at(packet::notify_head(n.as_method()) + args) == Ok::<
            PacketView,
            PacketError,
        >(PacketView::Notify { method: MethodView::Int(n), args }),
{
    laws::request_round_trip(id, n.as_method(), args);
    laws::notify_round_trip(n.as_method(), args);
}

/// A string stands for the method of that name: a request or a notification that is made with it
/// calls that method at the other end.
pub proof fn text_calls_its_method(s: &str, id: u32, args: Seq<u8>)
    requires
        wire::fits_header(s@),
    ensures
        s.as_method() == MethodView::Str(s@),
        packet::packet_at(packet::request_head(id, s.as_method()) + args) == Ok::<
            PacketView,
            PacketError,
        >(PacketView::Request { id, method: MethodView::Str(s@), args }),
        packet::packet_at(packet::notify_head(s.as_method()) + args) == Ok::<
            PacketView,
            PacketError,
        >(PacketView::Notify { method: MethodView::Str(s@), args }),
{
    laws::request_round_trip(id, s.as_method(), args);
    laws::notify_round_trip(s.as_method(), args);
}

/// A string stands for the method of that name, however long it is, and a method for itself.
pub proof fn what_stands_for_a_method(s: &str, method: Method)
    ensures
        s.as_method() == MethodView::Str(s@),
        method.as_method() == method@,
{
}

/// A method is what it is made of, and nothing is lost of it.
pub proof fn method_is_its_contents(n: u32, s: &str)
    ensures
        Method::Int(n)@ == MethodView::Int(n),
        Method::Str(s)@ == MethodView::Str(s@),
{
}

/// A method equals exactly the integer or the string that stands for it.
pub proof fn method_equals_what_stands_for_it(method: Method, n: u32, s: &str)
    ensures
        <Method as PartialEqSpec<u32>>::obeys_eq_spec(),
        <Method as PartialEqSpec<str>>::obeys_eq_spec(),
        method.eq_spec(&n) <==> method@ == n.as_method(),
        method.eq_spec(s) <==> method@ == s.as_method(),
{
}

/// The method of an integer is given by its remainder after division by 2^32, whatever the
/// quotient.
pub proof fn method_of_integer(value: u64, quotient: nat, remainder: u32)
    requires
        value == quotient * 0x1_0000_0000 + remainder,
    ensures
        packet::method_of(ValueView::Integer(Some(value))) == Some(MethodView::Int(remainder)),
{
}

/// The method of a string is that string. A nil, a negative integer, a string that is not UTF-8
/// and any other value are no methods.
pub proof fn method_of_other_values(text: Seq<char>)
    ensures
        packet::method_of(ValueView::Str(Some(text))) == Some(MethodView::Str(text)),
        packet::method_of(ValueView::Nil) is None,
        packet::method_of(ValueView::Integer(None)) is None,
        packet::method_of(ValueView::Str(None)) is None,
        packet::method_of(ValueView::Other) is None,
{
}

/// A value has the contents that were read.
pub proof fn value_is_its_contents(n: Option<u64>, s: String)
    ensures
        Value::Nil@ == ValueView::Nil,
        Value::Integer(n)@ == ValueView::Integer(n),
        Value::Str(Some(s))@ == ValueView::Str(Some(s@)),
        Value::Str(None)@ == ValueView::Str(None),
        Value::Other@ == ValueView::Other,
{
}

/// What is left of `head + rest` after `head` is `rest`.
proof fn lemma_rest(head: Seq<u8>, rest: Seq<u8>)
    ensures
        (head + rest).skip(head.len() as int) == rest,
{
    assert((head + rest).skip(head.len() as int) =~= rest);
}

/// The parts of a packet, with the bytes of each.
pub struct Parts {
    /// The array header.
    pub head: Seq<u8>,
    /// The type of the packet.
    pub pack_type: Seq<u8>,
    /// All that follows.
    pub body: Seq<u8>,
}

/// Whether `parts` are an array header for `len` elements and the packet type `pack_type`, each in
/// whatever width it is written, with anything behind them.
pub open spec fn starts(parts: Parts, len: u32, pack_type: u32) -> bool {
    &&& wire::array_len_at(parts.head + (parts.pack_type + parts.body)) == Some(
        (len, parts.head.len()),
    )
    &&& wire::u32_at(parts.pack_type + parts.body) == Some((pack_type, parts.pack_type.len()))
}

/// The packet that `parts` make up.
pub open spec fn whole(parts: Parts) -> Seq<u8> {
    parts.head + (parts.pack_type + parts.body)
}

/// What the start of a packet comes to.
proof fn lemma_starts(parts: Parts, len: u32, pack_type: u32)
    requires
        starts(parts, len, pack_type),
    ensures
        packet::packet_at(whole(parts)) == (if pack_type == packet::REQUEST {
            packet::request_at(len, parts.body)
        } else if pack_type == packet::NOTIFY {
            packet::notify_at(len, parts.body)
        } else if pack_type == packet::RESPONSE {
            packet::response_at(len, parts.body)
        } else {
            Err(PacketError::InvalidPackType)
        }),
{
    lemma_rest(parts.head, parts.pack_type + parts.body);
    lemma_rest(parts.pack_type, parts.body);
}

/// A packet that does not start with an array header, or has no integer of 32 bits for its type,
/// is refused for that.
pub proof fn unreadable_start_is_refused(head: Seq<u8>, rest: Seq<u8>, len: u32)
    ensures
        wire::array_len_at(head + rest) is None ==> packet::packet_at(head + rest) == Err::<
            PacketView,
            PacketError,
        >(PacketError::Header),
        wire::array_len_at(head + rest) == Some((len, head.len())) && wire::u32_at(rest) is None
            ==> packet::packet_at(head + rest) == Err::<PacketView, PacketError>(
            PacketError::PackType,
        ),
{
    lemma_rest(head, rest);
}

/// Types are 0 for a request, 1 for a response and 2 for a notification; a packet of any other
/// type is refused, and so is one whose array does not have the 4, 4 or 3 elements of its type.
pub proof fn type_and_length_are_checked(parts: Parts, len: u32, pack_type: u32)
    requires
        starts(parts, len, pack_type),
    ensures
        pack_type > 2 ==> packet::packet_at(whole(parts)) == Err::<PacketView, PacketError>(
            PacketError::InvalidPackType,
        ),
        (pack_type == 0 || pack_type == 1) && len != 4 ==> packet::packet_at(whole(parts)) == Err::<
            PacketView,
            PacketError,
        >(PacketError::Length),
        pack_type == 2 && len != 3 ==> packet::packet_at(whole(parts)) == Err::<
            PacketView,
            PacketError,
        >(PacketError::Length),
{
    lemma_starts(parts, len, pack_type);
}

/// A request is read whatever the width in which its parts are written: the integer behind the
/// type is its id, the value behind that is its method, and all the rest are its arguments. It is
/// refused only for an id that is no integer of 32 bits, or else for a value that is no method.
pub proof fn request_is_read(parts: Parts, id: u32, id_bytes: Seq<u8>, value: Seq<u8>, args: Seq<u8>)
    requires
        starts(parts, 4, 0),
        parts.body == id_bytes + (value + args),
    ensures
        wire::u32_at(parts.body) is None ==> packet::packet_at(whole(parts)) == Err::<
            PacketView,
            PacketError,
        >(PacketError::RequestId),
        wire::u32_at(parts.body) == Some((id, id_bytes.len())) ==> match wire::scalar_at(
            value + args,
        ) {
            Some((v, n)) => match packet::method_of(v) {
                Some(method) => n == value.len() ==> packet::packet_at(whole(parts)) == Ok::<
                    PacketView,
                    PacketError,
                >(PacketView::Request { id, method, args }),
                None => packet::packet_at(whole(parts)) == Err::<PacketView, PacketError>(
                    PacketError::Method,
                ),
            },
            None => packet::packet_at(whole(parts)) == Err::<PacketView, PacketError>(
                PacketError::Method,
            ),
        },
{
    lemma_starts(parts, 4, 0);
    lemma_rest(id_bytes, value + args);
    lemma_rest(value, args);
}

/// A notification is read whatever the width in which its parts are written: the value behind the
/// type is its method, and all the rest are its arguments. It is refused only for a value that is
/// no method.
pub proof fn notification_is_read(parts: Parts, value: Seq<u8>, args: Seq<u8>)
    requires
        starts(parts, 3, 2),
        parts.body == value + args,
    ensures
        match wire::scalar_at(parts.body) {
            Some((v, n)) => match packet::method_of(v) {
                Some(method) => n == value.len() ==> packet::packet_at(whole(parts)) == Ok::<
                    PacketView,
                    PacketError,
                >(PacketView::Notify { method, args }),
                None => packet::packet_at(whole(parts)) == Err::<PacketView, PacketError>(
                    PacketError::Method,
                ),
            },
            None => packet::packet_at(whole(parts)) == Err::<PacketView, PacketError>(
                PacketError::Method,
            ),
        },
{
    lemma_starts(parts, 3, 2);
    lemma_rest(value, args);
}

/// A response is read whatever the width in which its parts are written: the integer behind the
/// type is the id of the request, a nil behind that means success and a string is the error, and
/// all the rest is the result. It is refused only for an id that is no integer of 32 bits, or else
/// for an error that is neither.
pub proof fn response_is_read(
    parts: Parts,
    id: u32,
    id_bytes: Seq<u8>,
    value: Seq<u8>,
    result: Seq<u8>,
)
    requires
        starts(parts, 4, 1),
        parts.body == id_bytes + (value + result),
    ensures
        wire::u32_at(parts.body) is None ==> packet::packet_at(whole(parts)) == Err::<
            PacketView,
            PacketError,
        >(PacketError::RequestId),
        wire::u32_at(parts.body) == Some((id, id_bytes.len())) ==> match wire::scalar_at(
            value + result,
        ) {
            Some((ValueView::Nil, n)) => n == value.len() ==> packet::packet_at(whole(parts))
                == Ok::<PacketView, PacketError>(PacketView::Response { id, error: None, result }),
            Some((ValueView::Str(Some(e)), n)) => n == value.len() ==> packet::packet_at(
                whole(parts),
            ) == Ok::<PacketView, PacketError>(
                PacketView::Response { id, error: Some(e), result },
            ),
            _ => packet::packet_at(whole(parts)) == Err::<PacketView, PacketError>(
                PacketError::Error,
            ),
        },
{
    lemma_starts(parts, 4, 1);
    lemma_rest(id_bytes, value + result);
    lemma_rest(value, result);
}

/// What was found in a packet says one thing only, and that is the id, the method or the error,
/// and the bytes from the place that is given up to the end of the packet.
pub proof fn packet_says_one_thing(found: Packet, pack: Seq<u8>, a: PacketView, b: PacketView)
    requires
        packet::packet_is(found, pack, a),
    ensures
        packet::packet_is(found, pack, b) ==> a == b,
        match found {
            Packet::Request { id, method, offset } => offset <= pack.len() && a
                == (PacketView::Request {
                id,
                method: packet::method_of(method@)->0,
                args: pack.subrange(offset as int, pack.len() as int),
            }),
            Packet::Response { id, error, offset } => offset <= pack.len() && a
                == (PacketView::Response {
                id,
                error: match error {
                    Some(e) => Some(e@),
                    None => None,
                },
                result: pack.subrange(offset as int, pack.len() as int),
            }),
            Packet::Notify { method, offset } => offset <= pack.len() && a == (PacketView::Notify {
                method: packet::method_of(method@)->0,
                args: pack.subrange(offset as int, pack.len() as int),
            }),
        },
{
}

/// How packets are laid out: an array header of one byte, the type and the id as integers of five
/// bytes each, then the method or the error, and nothing else in between.
pub proof fn packets_are_laid_out(id: u32, method: MethodView, msgpack: Seq<u8>, err: Seq<char>)
    ensures
        packet::request_head(id, method) == seq![0x94u8, 0xce, 0, 0, 0, 0, 0xce] + wire::be32(
            id as nat,
        ) + method::method_bytes(method),
        packet::notify_head(method) == seq![0x93u8, 0xce, 0, 0, 0, 2] + method::method_bytes(
            method,
        ),
        packet::response_head(id) == seq![0x94u8, 0xce, 0, 0, 0, 1, 0xce] + wire::be32(id as nat),
        packet::result_frame(id, msgpack) == packet::response_head(id).push(0xc0) + msgpack,
        packet::error_frame(id, err) == (packet::response_head(id) + wire::str_bytes(err)).push(
            0xc0,
        ),
{
    let zero = wire::be32(0);
    let one = wire::be32(1);
    let two = wire::be32(2);
    assert(zero =~= seq![0u8, 0, 0, 0]);
    assert(one =~= seq![0u8, 0, 0, 1]);
    assert(two =~= seq![0u8, 0, 0, 2]);
    assert(packet::request_head(id, method) =~= seq![0x94u8, 0xce, 0, 0, 0, 0, 0xce] + wire::be32(
        id as nat,
    ) + method::method_bytes(method));
    assert(packet::notify_head(method) =~= seq![0x93u8, 0xce, 0, 0, 0, 2] + method::method_bytes(
        method,
    ));
    assert(packet::response_head(id) =~= seq![0x94u8, 0xce, 0, 0, 0, 1, 0xce] + wire::be32(
        id as nat,
    ));
    assert(packet::result_frame(id, msgpack) =~= packet::response_head(id).push(0xc0) + msgpack);
    assert(packet::error_frame(id, err) =~= (packet::response_head(id) + wire::str_bytes(err)).push(
        0xc0,
    ));
}

/// How methods are laid out: an integer takes five bytes however small it is, a string is written
/// as any other string.
pub proof fn methods_are_laid_out(n: u32, s: Seq<char>)
    ensures
        method::method_bytes(MethodView::Int(n)) == seq![0xceu8] + wire::be32(n as nat),
        method::method_bytes(MethodView::Str(s)) == wire::str_bytes(s),
{
}

} // verus!
