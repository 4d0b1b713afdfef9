//! What a handler is given: the arguments of a call, and the means to answer it.

use crate::method::Method;
use crate::packet;
use crate::result::{RequestResult, ResultView};
use vstd::prelude::*;

verus! {

/// The arguments of a request or a notification.
pub struct Arg<'a> {
    pub method: Method<'a>,
    /// The arguments, in MessagePack.
    pub bytes: &'a [u8],
    /// The request id, or 0 for a notification.
    pub id: u32,
}

/// What the answer `result` to the request `id` is on the wire, if it can be answered with.
pub open spec fn answer_frame(id: u32, result: ResultView) -> Option<Seq<u8>> {
    match result {
        ResultView::Data(msgpack) => Some(packet::result_frame(id, msgpack)),
        ResultView::Error(err) => Some(packet::error_frame(id, err)),
        _ => None,
    }
}

/// Whether `r` is the frame `frame`, or nothing where that is nothing.
pub open spec fn is_frame(r: Option<Vec<u8>>, frame: Option<Seq<u8>>) -> bool {
    match r {
        Some(pack) => frame == Some(pack@),
        None => frame is None,
    }
}

/// Answers a call, once. The request id is taken when an answer is made; a notification has
/// none, and cannot be answered.
///
/// Every way to answer gives the frame to send.
pub struct Ret<'b> {
    pub req_id: &'b mut Option<u32>,
}

impl<'b> Ret<'b> {
    /// Answers with what became of another request: with its result or its error, and not at
    /// all if it got neither.
    pub fn call_once(self, arg: RequestResult) -> (r: Option<Vec<u8>>)
        ensures
            is_frame(
                r,
                match *old(self.req_id) {
                    Some(id) => answer_frame(id, arg@),
                    None => None,
                },
            ),
            *final(self.req_id) == match arg@ {
                ResultView::Data(_) | ResultView::Error(_) => None,
                _ => *old(self.req_id),
            },
    {
        match arg {
            RequestResult::Data(data) => self.ret_raw(data.as_slice()),
            RequestResult::Error(err) => self.error(err.as_str()),
            _ => None,
        }
    }

    /// Answers with an error.
    pub fn error(self, s: &str) -> (r: Option<Vec<u8>>)
        ensures
            is_frame(
                r,
                match *old(self.req_id) {
                    Some(id) => Some(packet::error_frame(id, s@)),
                    None => None,
                },
            ),
            *final(self.req_id) == None::<u32>,
    {
        match self.req_id.take() {
            Some(req_id) => Some(packet::response_error(req_id, s)),
            None => None,
        }
    }

    /// Answers with a result that is already MessagePack.
    pub fn ret_raw(self, msgpack: &[u8]) -> (r: Option<Vec<u8>>)
        ensures
            is_frame(
                r,
                match *old(self.req_id) {
                    Some(id) => Some(packet::result_frame(id, msgpack@)),
                    None => None,
                },
            ),
            *final(self.req_id) == None::<u32>,
    {
        match self.req_id.take() {
            Some(req_id) => Some(packet::response(req_id, msgpack)),
            None => None,
        }
    }

    /// What answers the call later, if it is a request.
    pub fn into_async(self) -> (r: Option<AsyncRet>)
        ensures
            match r {
                Some(ret) => *old(self.req_id) == Some(ret.id()),
                None => *old(self.req_id) is None,
            },
            *final(self.req_id) == *old(self.req_id),
    {
        match *self.req_id {
            Some(req_id) => Some(AsyncRet { req_id }),
            None => None,
        }
    }

    /// Tells a request from a notification: whether there is a request to answer.
    pub fn is_valid(&self) -> (r: bool)
        ensures
            r == (*old(self.req_id) is Some),
    {
        self.req_id.is_some()
    }
}

/// Answers a request later, once.
///
/// Every way to answer gives the frame to send.
pub struct AsyncRet {
    req_id: u32,
}

impl AsyncRet {
    /// The id of the request.
    pub closed spec fn id(self) -> u32 {
        self.req_id
    }

    /// Answers with what became of another request: with its result or its error, and not at
    /// all if it got neither.
    pub fn call_once(self, arg: RequestResult) -> (r: Option<Vec<u8>>)
        ensures
            is_frame(r, answer_frame(self.id(), arg@)),
    {
        match arg {
            RequestResult::Data(data) => Some(self.ret_raw(data.as_slice())),
            RequestResult::Error(err) => Some(self.error(err.as_str())),
            _ => None,
        }
    }

    /// Answers with an error.
    pub fn error(self, s: &str) -> (r: Vec<u8>)
        ensures
            r@ == packet::error_frame(self.id(), s@),
    {
        packet::response_error(self.req_id, s)
    }

    /// Answers with a result that is already MessagePack.
    pub fn ret_raw(self, msgpack: &[u8]) -> (r: Vec<u8>)
        ensures
            r@ == packet::result_frame(self.id(), msgpack@),
    {
        packet::response(self.req_id, msgpack)
    }
}

} // verus!
