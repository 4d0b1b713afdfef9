//! The three packets: how they are laid out, written and read.
//!
//! A packet is a MessagePack array, written without its length in bytes:
//!
//! - request, caller to callee: `[REQUEST, id, method, args]`
//! - response, callee to caller: `[RESPONSE, id, error or nil, result]`
//! - notification: `[NOTIFY, method, args]`

use crate::method;
use crate::method::{Method, MethodView};
use crate::wire;
use crate::wire::{Value, ValueView};
use vstd::prelude::*;

verus! {

pub const REQUEST: u32 = 0;

pub const RESPONSE: u32 = 1;

pub const NOTIFY: u32 = 2;

/// Why a packet cannot be handled.
#[derive(Debug, Clone, Copy, PartialEq, Eq, Structural)]
pub enum PacketError {
    /// It does not start with an array header.
    Header,
    /// The type is not a 32-bit unsigned integer.
    PackType,
    /// There is no such type.
    InvalidPackType,
    /// The array does not have as many elements as the type asks for.
    Length,
    /// The request id is not a 32-bit unsigned integer.
    RequestId,
    /// The method is neither a non-negative integer nor a string.
    Method,
    /// The error is neither nil nor a string.
    Error,
    /// Nobody waits for the response.
    SenderNotFound,
}

/// What a packet says.
pub enum PacketView {
    Request { id: u32, method: MethodView, args: Seq<u8> },
    Response { id: u32, error: Option<Seq<char>>, result: Seq<u8> },
    Notify { method: MethodView, args: Seq<u8> },
}

/// The method that a value stands for: of an integer, the low 32 bits.
pub open spec fn method_of(value: ValueView) -> Option<MethodView> {
    match value {
        ValueView::Integer(Some(n)) => Some(MethodView::Int((n % 0x1_0000_0000) as u32)),
        ValueView::Str(Some(s)) => Some(MethodView::Str(s)),
        _ => None,
    }
}

/// The method at the start of `bytes`, and the number of bytes that it takes.
pub open spec fn method_at(bytes: Seq<u8>) -> Option<(MethodView, nat)> {
    match wire::scalar_at(bytes) {
        Some((value, len)) => match method_of(value) {
            Some(method) => Some((method, len)),
            None => None,
        },
        None => None,
    }
}

/// The error of a response at the start of `bytes`, nothing for a nil, and the number of bytes
/// that it takes.
pub open spec fn error_at(bytes: Seq<u8>) -> Option<(Option<Seq<char>>, nat)> {
    match wire::scalar_at(bytes) {
        Some((ValueView::Nil, len)) => Some((None, len)),
        Some((ValueView::Str(Some(s)), len)) => Some((Some(s), len)),
        _ => None,
    }
}

/// What the packet `pack` says, or the first thing that is wrong with it.
pub open spec fn packet_at(pack: Seq<u8>) -> Result<PacketView, PacketError> {
    match wire::array_len_at(pack) {
        None => Err(PacketError::Header),
        Some((len, n)) => {
            let body = pack.skip(n as int);
            match wire::u32_at(body) {
                None => Err(PacketError::PackType),
                Some((pack_type, n)) => {
                    let body = body.skip(n as int);
                    if pack_type == REQUEST {
                        request_at(len, body)
                    } else if pack_type == NOTIFY {
                        notify_at(len, body)
                    } else if pack_type == RESPONSE {
                        response_at(len, body)
                    } else {
                        Err(PacketError::InvalidPackType)
                    }
                },
            }
        },
    }
}

/// The rest of a request, in an array of `len` elements.
pub open spec fn request_at(len: u32, body: Seq<u8>) -> Result<PacketView, PacketError> {
    if len != 4 {
        Err(PacketError::Length)
    } else {
        match wire::u32_at(body) {
            None => Err(PacketError::RequestId),
            Some((id, n)) => match method_at(body.skip(n as int)) {
                None => Err(PacketError::Method),
                Some((method, m)) => Ok(
                    PacketView::Request { id, method, args: body.skip(n as int).skip(m as int) },
                ),
            },
        }
    }
}

/// The rest of a notification, in an array of `len` elements.
pub open spec fn notify_at(len: u32, body: Seq<u8>) -> Result<PacketView, PacketError> {
    if len != 3 {
        Err(PacketError::Length)
    } else {
        match method_at(body) {
            None => Err(PacketError::Method),
            Some((method, m)) => Ok(PacketView::Notify { method, args: body.skip(m as int) }),
        }
    }
}

/// The rest of a response, in an array of `len` elements.
pub open spec fn response_at(len: u32, body: Seq<u8>) -> Result<PacketView, PacketError> {
    if len != 4 {
        Err(PacketError::Length)
    } else {
        match wire::u32_at(body) {
            None => Err(PacketError::RequestId),
            Some((id, n)) => match error_at(body.skip(n as int)) {
                None => Err(PacketError::Error),
                Some((error, m)) => Ok(
                    PacketView::Response {
                        id,
                        error,
                        result: body.skip(n as int).skip(m as int),
                    },
                ),
            },
        }
    }
}

/// What a packet says, with arguments and results as the place in the packet where they start.
pub enum Packet {
    Request { id: u32, method: Value, offset: usize },
    Response { id: u32, error: Option<String>, offset: usize },
    Notify { method: Value, offset: usize },
}

/// Whether `packet` is `view`, found in `pack`.
pub open spec fn packet_is(packet: Packet, pack: Seq<u8>, view: PacketView) -> bool {
    match (packet, view) {
        (
            Packet::Request { id, method, offset },
            PacketView::Request { id: i, method: m, args },
        ) => id == i && method_of(method@) == Some(m) && offset <= pack.len() && pack.skip(
            offset as int,
        ) == args,
        (
            Packet::Response { id, error, offset },
            PacketView::Response { id: i, error: e, result },
        ) => id == i && offset <= pack.len() && pack.skip(offset as int) == result && match error {
            Some(s) => e == Some(s@),
            None => e is None,
        },
        (
            Packet::Notify { method, offset },
            PacketView::Notify { method: m, args },
        ) => method_of(method@) == Some(m) && offset <= pack.len() && pack.skip(offset as int)
            == args,
        _ => false,
    }
}

/// The method that a value stands for.
pub fn parse_method<'a>(val: &'a Value) -> (r: Option<Method<'a>>)
    ensures
        match r {
            Some(method) => method_of(val@) == Some(method@),
            None => method_of(val@) is None,
        },
{
    match val {
        Value::Integer(Some(n)) => {
            let n: u64 = *n;
            assert(n as u32 == n % 0x1_0000_0000) by (bit_vector);
            Some(Method::Int(n as u32))
        },
        Value::Str(Some(s)) => Some(Method::Str(s.as_str())),
        _ => None,
    }
}

/// Reads a method off the front of `bytes`.
fn read_method(bytes: &[u8]) -> (r: Option<(Value, &[u8])>)
    ensures
        match r {
            Some((value, rest)) => method_at(bytes@) matches Some((method, n)) && method_of(value@)
                == Some(method) && n <= bytes@.len() && rest@ == bytes@.skip(n as int),
            None => method_at(bytes@) is None,
        },
{
    let (value, rest) = wire::read_value(bytes)?;
    if parse_method(&value).is_none() {
        return None;
    }
    Some((value, rest))
}

/// Reads the error of a response off the front of `bytes`.
fn read_error(bytes: &[u8]) -> (r: Option<(Option<String>, &[u8])>)
    ensures
        match r {
            Some((error, rest)) => error_at(bytes@) matches Some((e, n)) && n <= bytes@.len()
                && rest@ == bytes@.skip(n as int) && match error {
                Some(s) => e == Some(s@),
                None => e is None,
            },
            None => error_at(bytes@) is None,
        },
{
    let (value, rest) = wire::read_value(bytes)?;
    match value {
        Value::Nil => Some((None, rest)),
        Value::Str(Some(s)) => Some((Some(s), rest)),
        _ => None,
    }
}

/// Whether `rest` is what is left of `pack` after some bytes.
spec fn is_tail(rest: Seq<u8>, pack: Seq<u8>) -> bool {
    rest.len() <= pack.len() && rest == pack.skip(pack.len() - rest.len())
}

/// What is left of a tail is a tail.
proof fn lemma_tail(pack: Seq<u8>, tail: Seq<u8>, n: int)
    requires
        is_tail(tail, pack),
        0 <= n <= tail.len(),
    ensures
        is_tail(tail.skip(n), pack),
{
    assert(tail.skip(n) =~= pack.skip(pack.len() - tail.len() + n));
}

/// Where `rest`, a tail of `pack`, starts in it.
fn offset_of(pack: &[u8], rest: &[u8]) -> (r: usize)
    requires
        is_tail(rest@, pack@),
    ensures
        r <= pack@.len(),
        pack@.skip(r as int) == rest@,
{
    pack.len() - rest.len()
}

/// Reads a packet. Arguments and results are left as they are.
pub fn parse_packet(pack: &[u8]) -> (r: Result<Packet, PacketError>)
    ensures
        match r {
            Ok(packet) => packet_at(pack@) matches Ok(view) && packet_is(packet, pack@, view),
            Err(e) => packet_at(pack@) == Err::<PacketView, PacketError>(e),
        },
{
    let Some((len, body)) = wire::read_array_len(pack) else {
        return Err(PacketError::Header);
    };
    let ghost mut tail = body@;
    proof {
        assert(pack@ =~= pack@.skip(0));
        lemma_tail(pack@, pack@, pack@.len() - tail.len());
    }
    let Some((pack_type, body)) = wire::read_int(body) else {
        return Err(PacketError::PackType);
    };
    proof {
        lemma_tail(pack@, tail, tail.len() - body@.len());
        tail = body@;
    }
    if pack_type == REQUEST {
        if len != 4 {
            return Err(PacketError::Length);
        }
        let Some((id, body)) = wire::read_int(body) else {
            return Err(PacketError::RequestId);
        };
        proof {
            lemma_tail(pack@, tail, tail.len() - body@.len());
            tail = body@;
        }
        let Some((method, rest)) = read_method(body) else {
            return Err(PacketError::Method);
        };
        proof {
            lemma_tail(pack@, tail, tail.len() - rest@.len());
        }
        Ok(Packet::Request { id, method, offset: offset_of(pack, rest) })
    } else if pack_type == NOTIFY {
        if len != 3 {
            return Err(PacketError::Length);
        }
        let Some((method, rest)) = read_method(body) else {
            return Err(PacketError::Method);
        };
        proof {
            lemma_tail(pack@, tail, tail.len() - rest@.len());
        }
        Ok(Packet::Notify { method, offset: offset_of(pack, rest) })
    } else if pack_type == RESPONSE {
        if len != 4 {
            return Err(PacketError::Length);
        }
        let Some((id, body)) = wire::read_int(body) else {
            return Err(PacketError::RequestId);
        };
        proof {
            lemma_tail(pack@, tail, tail.len() - body@.len());
            tail = body@;
        }
        let Some((error, rest)) = read_error(body) else {
            return Err(PacketError::Error);
        };
        proof {
            lemma_tail(pack@, tail, tail.len() - rest@.len());
        }
        Ok(Packet::Response { id, error, offset: offset_of(pack, rest) })
    } else {
        Err(PacketError::InvalidPackType)
    }
}

/// A request up to its arguments.
pub open spec fn request_head(id: u32, method: MethodView) -> Seq<u8> {
    wire::array_len_bytes(4) + wire::u32_bytes(REQUEST) + wire::u32_bytes(id)
        + method::method_bytes(method)
}

/// A notification up to its arguments.
pub open spec fn notify_head(method: MethodView) -> Seq<u8> {
    wire::array_len_bytes(3) + wire::u32_bytes(NOTIFY) + method::method_bytes(method)
}

/// A response up to its error.
pub open spec fn response_head(id: u32) -> Seq<u8> {
    wire::array_len_bytes(4) + wire::u32_bytes(RESPONSE) + wire::u32_bytes(id)
}

/// The response to the request `id` with the result `msgpack`.
pub open spec fn result_frame(id: u32, msgpack: Seq<u8>) -> Seq<u8> {
    response_head(id) + wire::nil_bytes() + msgpack
}

/// The response to the request `id` with the error `err`.
pub open spec fn error_frame(id: u32, err: Seq<char>) -> Seq<u8> {
    response_head(id) + wire::str_bytes(err) + wire::nil_bytes()
}

/// Appends `bytes` to `out`.
pub(crate) fn append(out: &mut Vec<u8>, bytes: &[u8])
    ensures
        final(out)@ == old(out)@ + bytes@,
{
    out.extend_from_slice(bytes);
    assert(out@ =~= old(out)@ + bytes@);
}

/// A notification up to its arguments.
pub fn prepare_notify(method: Method) -> (pack: Vec<u8>)
    ensures
        pack@ == notify_head(method@),
{
    let mut pack: Vec<u8> = Vec::new();
    wire::write_array_len(&mut pack, 3);
    wire::write_u32(&mut pack, NOTIFY);
    method.serialize(&mut pack);
    assert(pack@ =~= notify_head(method@));
    pack
}

/// A response up to its error.
pub fn prepare_response(req_id: u32) -> (pack: Vec<u8>)
    ensures
        pack@ == response_head(req_id),
{
    let mut pack: Vec<u8> = Vec::new();
    wire::write_array_len(&mut pack, 4);
    wire::write_u32(&mut pack, RESPONSE);
    wire::write_u32(&mut pack, req_id);
    assert(pack@ =~= response_head(req_id));
    pack
}

/// The response to the request `req_id` with a result that is already MessagePack.
pub fn response(req_id: u32, msgpack: &[u8]) -> (pack: Vec<u8>)
    ensures
        pack@ == result_frame(req_id, msgpack@),
{
    let mut pack = prepare_response(req_id);
    wire::write_nil(&mut pack);
    append(&mut pack, msgpack);
    pack
}

/// The response to the request `req_id` with an error.
pub fn response_error(req_id: u32, err: &str) -> (pack: Vec<u8>)
    ensures
        pack@ == error_frame(req_id, err@),
{
    let mut pack = prepare_response(req_id);
    wire::write_str(&mut pack, err);
    wire::write_nil(&mut pack);
    pack
}

} // verus!
