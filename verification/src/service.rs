//! What a session works with: an adaptor that carries packets, and a service that handles calls.

use crate::method::HandleError;
use crate::reply::Arg;
use vstd::prelude::*;

verus! {

/// Why nothing was received.
#[derive(Debug, Clone, Copy, PartialEq, Eq, Structural)]
pub enum RecvError {
    Disconnect,
}

/// Adaptor of different means of communication.
pub trait Adaptor {
    /// Whether the caller may receive. An adaptor that does not say otherwise lets any caller
    /// receive; what works with every adaptor receives only where it is told that it may.
    open spec fn may_recv(&self) -> bool {
        true
    }

    /// Sends a packet, and says whether it was sent.
    fn send(&self, data: Vec<u8>) -> bool;

    /// Receives a packet. This may block.
    fn recv(&self) -> Result<Vec<u8>, RecvError>
        requires
            self.may_recv(),
    ;

    /// Whether the connection still stands.
    fn connected(&self) -> bool;

    /// Closes the connection.
    fn close(&self);
}

/// One use of the adaptor `A`. It is given up when it is used, so that whoever is handed one can
/// ask the adaptor once, and not twice.
pub trait Use<A: Adaptor + ?Sized>: Sized {
    /// The adaptor that is used.
    spec fn adaptor(&self) -> &A;

    /// Sends a packet, and says whether it was sent.
    fn send(self, data: Vec<u8>) -> (r: bool)
        ensures
            call_ensures(A::send, (self.adaptor(), data), r),
    ;

    /// Receives a packet.
    fn recv(self) -> (r: Result<Vec<u8>, RecvError>)
        requires
            self.adaptor().may_recv(),
        ensures
            call_ensures(A::recv, (self.adaptor(),), r),
    ;
}

impl<'a, A: Adaptor + ?Sized> Use<A> for &'a A {
    open spec fn adaptor(&self) -> &A {
        *self
    }

    fn send(self, data: Vec<u8>) -> (r: bool) {
        A::send(self, data)
    }

    fn recv(self) -> (r: Result<Vec<u8>, RecvError>) {
        A::recv(self)
    }
}

/// The text of the error for a method that the service does not have.
pub open spec fn no_this_method() -> Seq<char> {
    "No this method"@
}

/// A service of the user's, which handles requests and notifications. `S` is what further
/// requests are made through, `R` what the call is answered with.
pub trait Service<S, R> {
    fn handle(&self, _ss: &S, _arg: Arg, _ret: R) -> (r: Result<(), HandleError>)
        default_ensures
            r matches Err(e) && e@ == no_this_method(),
    {
        Err(HandleError::new("No this method".to_owned()))
    }
}

/// A service without methods.
pub struct EmptyService;

impl<S, R> Service<S, R> for EmptyService {

}

} // verus!
