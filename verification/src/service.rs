use vstd::prelude::*;
use std::sync::Arc;
use crate::error::RpcError;

verus! {

/// The bytes of a handler's reply, or the reason it gave none.
pub open spec fn reply_view(reply: Result<Vec<u8>, RpcError>) -> Result<Seq<u8>, RpcError> {
    match reply {
        Ok(bytes) => Ok(bytes@),
        Err(e) => Err(e),
    }
}

/// A handler whose request and response types are hidden behind bytes, so that
/// handlers of different types fit in one table.
///
/// An implementation decodes the request into the type its service takes,
/// runs the service on the shared state, and encodes what the service
/// returned. It reports `MalformedPayload` where the request does not decode
/// and `SerializationFailure` where the result does not encode.
pub trait ServiceHandle<State>: Send + Sync {
    /// Whether `reply` is an answer that this handler may give to `request`
    /// on `state`. A handler that makes no promise leaves this at `true`.
    open spec fn answers(
        &self,
        state: State,
        request: Seq<u8>,
        reply: Result<Seq<u8>, RpcError>,
    ) -> bool {
        true
    }

    /// Answers one request.
    fn serve(&self, state: Arc<State>, request: Vec<u8>) -> (reply: Result<Vec<u8>, RpcError>)
        ensures
            self.answers(*state, request@, reply_view(reply)),
    ;
}

/// A boxed handler answers as the handler in the box does. With
/// `Box<dyn ServiceHandle<State>>` this is the uniform value behind which
/// handlers of any type are stored.
impl<State, T: ServiceHandle<State> + ?Sized> ServiceHandle<State> for Box<T> {
    open spec fn answers(
        &self,
        state: State,
        request: Seq<u8>,
        reply: Result<Seq<u8>, RpcError>,
    ) -> bool {
        (**self).answers(state, request, reply)
    }

    fn serve(&self, state: Arc<State>, request: Vec<u8>) -> (reply: Result<Vec<u8>, RpcError>) {
        (**self).serve(state, request)
    }
}

/// A service binding: the name that callers use and the handler that answers
/// to it.
pub struct Service<H> {
    pub name: String,
    pub handle: H,
}

impl<H> Service<H> {
    /// Binds `handle` to `name`.
    pub fn new(name: String, handle: H) -> (service: Self)
        ensures
            service.name == name,
            service.handle == handle,
    {
        Service { name, handle }
    }
}

} // verus!
