//! What becomes of a request.

use vstd::prelude::*;

verus! {

/// The result of a request: a response packet, and where in it the result starts.
pub struct RespData(Vec<u8>, usize);

impl View for RespData {
    type V = Seq<u8>;

    /// The MessagePack bytes of the result.
    closed spec fn view(&self) -> Seq<u8> {
        self.0@.skip(self.1 as int)
    }
}

impl RespData {
    /// The result starts inside the packet or at its end.
    #[verifier::type_invariant]
    spec fn in_packet(self) -> bool {
        self.1 <= self.0@.len()
    }

    /// The result that starts at `offset` in the response `pack`.
    pub(crate) fn new(pack: Vec<u8>, offset: usize) -> (r: RespData)
        requires
            offset <= pack@.len(),
        ensures
            r@ == pack@.skip(offset as int),
    {
        RespData(pack, offset)
    }

    /// The MessagePack bytes of the result.
    pub fn as_slice(&self) -> (r: &[u8])
        ensures
            r@ == self@,
    {
        proof {
            use_type_invariant(self);
        }
        vstd::slice::slice_subrange(self.0.as_slice(), self.1, self.0.len())
    }
}

/// What becomes of a request, with bytes and text as sequences.
pub enum ResultView {
    Data(Seq<u8>),
    Error(Seq<char>),
    Disconnect,
    Decode(Seq<u8>),
}

/// What becomes of a request.
pub enum RequestResult {
    /// The callee sent a result.
    Data(RespData),
    /// The callee sent an error.
    Error(String),
    /// The connection ended before a response came.
    Disconnect,
    /// The callee sent a result that is not what the caller expected.
    Decode(RespData),
}

impl View for RequestResult {
    type V = ResultView;

    open spec fn view(&self) -> ResultView {
        match self {
            RequestResult::Data(d) => ResultView::Data(d@),
            RequestResult::Error(s) => ResultView::Error(s@),
            RequestResult::Disconnect => ResultView::Disconnect,
            RequestResult::Decode(d) => ResultView::Decode(d@),
        }
    }
}

/// How a result is shown.
pub open spec fn shown(result: ResultView) -> Seq<char> {
    match result {
        ResultView::Data(_) => "<Success>"@,
        ResultView::Error(s) => "Error: "@ + s,
        ResultView::Disconnect => "Disconnect"@,
        ResultView::Decode(_) => "DecodeError"@,
    }
}

/// A result as far as it is shown.
pub enum Summary<'a> {
    Success,
    Error(&'a str),
    Disconnect,
    Decode,
}

/// Whether `summary` is what is shown of `result`.
pub open spec fn summarises(summary: Summary, result: ResultView) -> bool {
    match (summary, result) {
        (Summary::Success, ResultView::Data(_)) => true,
        (Summary::Error(s), ResultView::Error(t)) => s@ == t,
        (Summary::Disconnect, ResultView::Disconnect) => true,
        (Summary::Decode, ResultView::Decode(_)) => true,
        _ => false,
    }
}

impl<'a> Summary<'a> {
    /// How a result with this summary is shown.
    pub fn to_string(&self) -> (r: String)
        ensures
            forall|result: ResultView| #[trigger]
                summarises(*self, result) ==> r@ == shown(result),
    {
        match self {
            Summary::Success => "<Success>".to_owned(),
            Summary::Error(s) => "Error: ".to_owned().concat(s),
            Summary::Decode => "DecodeError".to_owned(),
            Summary::Disconnect => "Disconnect".to_owned(),
        }
    }
}

impl RequestResult {
    /// What is shown of the result.
    pub fn summary(&self) -> (r: Summary<'_>)
        ensures
            summarises(r, self@),
    {
        match self {
            RequestResult::Data(_) => Summary::Success,
            RequestResult::Error(s) => Summary::Error(s.as_str()),
            RequestResult::Decode(_) => Summary::Decode,
            RequestResult::Disconnect => Summary::Disconnect,
        }
    }

    /// The bytes to decode, if the callee sent a result.
    pub fn data(&self) -> (r: Option<&[u8]>)
        ensures
            match self@ {
                ResultView::Data(bytes) => r matches Some(s) && s@ == bytes,
                _ => r is None,
            },
    {
        match self {
            RequestResult::Data(d) => Some(d.as_slice()),
            _ => None,
        }
    }

    /// The value that the callee sent, where `decoded` is what decoding [`RequestResult::data`]
    /// gave, if it gave anything. A result that could not be decoded is kept as such.
    pub fn into<V>(self, decoded: Option<V>) -> (r: Result<V, RequestResult>)
        ensures
            match self {
                RequestResult::Data(d) => match decoded {
                    Some(v) => r == Ok::<V, RequestResult>(v),
                    None => r == Err::<V, RequestResult>(RequestResult::Decode(d)),
                },
                _ => r == Err::<V, RequestResult>(self),
            },
    {
        match self {
            RequestResult::Data(d) => match decoded {
                Some(v) => Ok(v),
                None => Err(RequestResult::Decode(d)),
            },
            else_error => Err(else_error),
        }
    }

    /// [`RequestResult::into`], with the error as text.
    pub fn intos<V>(self, decoded: Option<V>) -> (r: Result<V, String>)
        ensures
            match self@ {
                ResultView::Data(d) => match decoded {
                    Some(v) => r == Ok::<V, String>(v),
                    None => r matches Err(e) && e@ == shown(ResultView::Decode(d)),
                },
                _ => r matches Err(e) && e@ == shown(self@),
            },
    {
        match self.into(decoded) {
            Ok(v) => Ok(v),
            Err(e) => Err(e.to_string()),
        }
    }

    /// How the result is shown.
    pub fn to_string(&self) -> (r: String)
        ensures
            r@ == shown(self@),
    {
        self.summary().to_string()
    }
}

} // verus!
