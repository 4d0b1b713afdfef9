//! What a request or a notification calls: an integer or a string.

use crate::wire;
use vstd::prelude::*;
use vstd::utf8::*;

verus! {

/// The error of a handler, as the text that goes back to the caller.
pub struct HandleError(String);

impl View for HandleError {
    type V = Seq<char>;

    closed spec fn view(&self) -> Seq<char> {
        self.0@
    }
}

impl HandleError {
    /// An error with the text `text`.
    pub fn new(text: String) -> (r: HandleError)
        ensures
            r@ == text@,
    {
        HandleError(text)
    }

    /// The text of the error.
    pub fn text(&self) -> (r: &str)
        ensures
            r@ == self@,
    {
        self.0.as_str()
    }
}

/// `format!` with `{:#?}`: what the `std::fmt::Debug` implementation of the type writes in its
/// alternate form. What that is on a given value is the implementation's own affair, so nothing is
/// said of it here; `is_debug_text` says of a text that it came out of this call.
#[verifier::external_body]
pub(crate) fn debug_text<T: std::fmt::Debug>(e: T) -> (r: String) {
    format!("{:#?}", e)
}

/// Whether `text` is what debug-printing `e` gives.
pub closed spec fn is_debug_text<T: std::fmt::Debug>(e: T, text: Seq<char>) -> bool {
    exists|s: String| #[trigger] call_ensures(debug_text::<T>, (e,), s) && s@ == text
}

/// The text of an error that was made of `e` came out of debug-printing `e`, whole, and not out of
/// anything else.
pub(crate) proof fn debug_text_was_printed<T: std::fmt::Debug>(e: T, text: Seq<char>)
    ensures
        is_debug_text(e, text) <==> exists|printed: String| #[trigger]
            call_ensures(debug_text::<T>, (e,), printed) && printed@.len() == text.len() && (
            forall|i: int| 0 <= i < text.len() ==> printed@[i] == text[i]),
{
    assert forall|printed: String| #[trigger]
        call_ensures(debug_text::<T>, (e,), printed) && printed@.len() == text.len() && (forall|
            i: int,
        |
            0 <= i < text.len() ==> printed@[i] == text[i]) implies is_debug_text(e, text) by {
        assert(printed@ =~= text);
    }
}

/// Any value that can be debug-printed is an error, with what it prints as its text.
impl<T: std::fmt::Debug> From<T> for HandleError {
    fn from(e: T) -> (r: HandleError)
        ensures
            is_debug_text(e, r@),
    {
        let text = debug_text(e);
        assert(call_ensures(debug_text::<T>, (e,), text));
        HandleError::new(text)
    }
}

/// The text is not a function of the value here: `from` says which texts it can be.
impl<T: std::fmt::Debug> vstd::std_specs::convert::FromSpecImpl<T> for HandleError {
    open spec fn obeys_from_spec() -> bool {
        false
    }

    open spec fn from_spec(e: T) -> HandleError {
        arbitrary()
    }
}

/// A method, with a string as its characters.
pub enum MethodView {
    Int(u32),
    Str(Seq<char>),
}

/// The method of a request or a notification: an integer or a string.
#[derive(Clone, Copy, PartialEq, Eq)]
pub enum Method<'a> {
    Int(u32),
    Str(&'a str),
}

impl<'a> View for Method<'a> {
    type V = MethodView;

    open spec fn view(&self) -> MethodView {
        match self {
            Method::Int(i) => MethodView::Int(*i),
            Method::Str(s) => MethodView::Str(s@),
        }
    }
}

/// Whether two strings have the same characters.
fn same_text(a: &str, b: &str) -> (r: bool)
    ensures
        r == (a@ == b@),
{
    proof {
        encode_utf8_decode_utf8(a@);
        encode_utf8_decode_utf8(b@);
    }
    let x = a.as_bytes();
    let y = b.as_bytes();
    if x.len() != y.len() {
        return false;
    }
    let mut i: usize = 0;
    while i < x.len()
        invariant
            i <= x@.len(),
            x@.len() == y@.len(),
            x@ == encode_utf8(a@),
            y@ == encode_utf8(b@),
            forall|j: int| 0 <= j < i ==> x@[j] == y@[j],
        decreases x@.len() - i,
    {
        if x[i] != y[i] {
            return false;
        }
        i += 1;
    }
    assert(x@ =~= y@);
    true
}

impl PartialEq<u32> for Method<'_> {
    fn eq(&self, other: &u32) -> (r: bool) {
        match *self {
            Method::Int(n) => n == *other,
            _ => false,
        }
    }
}

impl vstd::std_specs::cmp::PartialEqSpecImpl<u32> for Method<'_> {
    open spec fn obeys_eq_spec() -> bool {
        true
    }

    open spec fn eq_spec(&self, other: &u32) -> bool {
        self@ == MethodView::Int(*other)
    }
}

impl PartialEq<str> for Method<'_> {
    fn eq(&self, other: &str) -> (r: bool) {
        match *self {
            Method::Str(s) => same_text(s, other),
            _ => false,
        }
    }
}

impl vstd::std_specs::cmp::PartialEqSpecImpl<str> for Method<'_> {
    open spec fn obeys_eq_spec() -> bool {
        true
    }

    open spec fn eq_spec(&self, other: &str) -> bool {
        self@ == MethodView::Str(other@)
    }
}

/// A method as it stands in a packet.
pub open spec fn method_bytes(method: MethodView) -> Seq<u8> {
    match method {
        MethodView::Int(i) => wire::u32_bytes(i),
        MethodView::Str(s) => wire::str_bytes(s),
    }
}

/// The text of the error for a method of the other kind.
pub open spec fn method_not_match() -> Seq<char> {
    "Method not match"@
}

impl<'a> Method<'a> {
    /// Appends the method to a packet.
    pub fn serialize(&self, w: &mut Vec<u8>)
        ensures
            final(w)@ == old(w)@ + method_bytes(self@),
    {
        match *self {
            Method::Int(i) => wire::write_u32(w, i),
            Method::Str(s) => wire::write_str(w, s),
        }
    }

    /// The string, if the method is one.
    pub fn to_str(self) -> (r: Result<&'a str, HandleError>)
        ensures
            match self@ {
                MethodView::Int(_) => r matches Err(e) && e@ == method_not_match(),
                MethodView::Str(s) => r matches Ok(t) && t@ == s,
            },
    {
        match self {
            Method::Int(_) => Err(HandleError::new("Method not match".to_owned())),
            Method::Str(s) => Ok(s),
        }
    }

    /// The integer, if the method is one.
    pub fn to_int(self) -> (r: Result<u32, HandleError>)
        ensures
            match self@ {
                MethodView::Int(i) => r == Ok::<u32, HandleError>(i),
                MethodView::Str(_) => r matches Err(e) && e@ == method_not_match(),
            },
    {
        match self {
            Method::Int(i) => Ok(i),
            Method::Str(_) => Err(HandleError::new("Method not match".to_owned())),
        }
    }
}

/// What stands for a method: an integer, a string, or a [`Method`].
pub trait ToMethod<'a>: Sized {
    /// The method that the value stands for.
    spec fn as_method(self) -> MethodView;

    fn to_method(self) -> (r: Method<'a>)
        ensures
            r@ == self.as_method(),
    ;
}

impl ToMethod<'_> for u32 {
    open spec fn as_method(self) -> MethodView {
        MethodView::Int(self)
    }

    fn to_method(self) -> (r: Method<'static>) {
        Method::Int(self)
    }
}

impl<'a> ToMethod<'a> for &'a str {
    open spec fn as_method(self) -> MethodView {
        MethodView::Str(self@)
    }

    fn to_method(self) -> (r: Method<'a>) {
        Method::Str(self)
    }
}

impl<'a> ToMethod<'a> for Method<'a> {
    open spec fn as_method(self) -> MethodView {
        self@
    }

    fn to_method(self) -> (r: Method<'a>) {
        self
    }
}

} // verus!
