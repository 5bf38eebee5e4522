use vstd::prelude::*;
use std::marker::PhantomData;
use std::sync::Arc;
use crate::error::RpcError;
use crate::service::{reply_view, ServiceHandle};

verus! {

/// A typed service behind the byte interface: a function from the shared
/// state and a request of type `Req` to a response of type `Res`, together
/// with the decoder of its requests and the encoder of its responses.
///
/// The three parts accept every input; what each returns is known only
/// through its own contract.
#[verifier::reject_recursive_types(State)]
#[verifier::reject_recursive_types(Req)]
#[verifier::reject_recursive_types(Res)]
pub struct Handler<State, Req, Res, D, S, E> where
    D: Fn(&Vec<u8>) -> Option<Req>,
    S: Fn(Arc<State>, Req) -> Res,
    E: Fn(&Res) -> Option<Vec<u8>>,
 {
    decode: D,
    service: S,
    encode: E,
    types: PhantomData<(State, Req, Res)>,
}

impl<State, Req, Res, D, S, E> Handler<State, Req, Res, D, S, E> where
    D: Fn(&Vec<u8>) -> Option<Req>,
    S: Fn(Arc<State>, Req) -> Res,
    E: Fn(&Res) -> Option<Vec<u8>>,
 {
    #[verifier::type_invariant]
    spec fn total(self) -> bool {
        &&& forall|bytes: &Vec<u8>| call_requires(self.decode, (bytes,))
        &&& forall|state: Arc<State>, request: Req| call_requires(self.service, (state, request))
        &&& forall|response: &Res| call_requires(self.encode, (response,))
    }

    /// The decoder of requests: `None` where the bytes are no request.
    pub closed spec fn decoder(&self) -> D {
        self.decode
    }

    /// The service itself.
    pub closed spec fn service(&self) -> S {
        self.service
    }

    /// The encoder of responses: `None` where the response has no encoding.
    pub closed spec fn encoder(&self) -> E {
        self.encode
    }

    /// Whether `reply` is what comes of `request` when it is decoded, the
    /// service is run on the result with `state`, and what it returns is
    /// encoded. A request that does not decode gives `MalformedPayload`, and
    /// the service does not run; a response that does not encode gives
    /// `SerializationFailure`.
    pub open spec fn relays(
        &self,
        state: State,
        request: Seq<u8>,
        reply: Result<Seq<u8>, RpcError>,
    ) -> bool {
        exists|raw: Vec<u8>, decoded: Option<Req>|
            {
                &&& raw@ == request
                &&& #[trigger] call_ensures(self.decoder(), (&raw,), decoded)
                &&& match decoded {
                    None => reply == Err::<Seq<u8>, RpcError>(RpcError::MalformedPayload),
                    Some(typed) => self.runs(state, typed, reply),
                }
            }
    }

    /// Whether `reply` is what comes of the decoded request `typed` when the
    /// service is run on it with `state` and what it returns is encoded.
    pub open spec fn runs(
        &self,
        state: State,
        typed: Req,
        reply: Result<Seq<u8>, RpcError>,
    ) -> bool {
        exists|shared: Arc<State>, result: Res, encoded: Option<Vec<u8>>|
            {
                &&& *shared == state
                &&& #[trigger] call_ensures(self.service(), (shared, typed), result)
                &&& #[trigger] call_ensures(self.encoder(), (&result,), encoded)
                &&& match encoded {
                    None => reply == Err::<Seq<u8>, RpcError>(RpcError::SerializationFailure),
                    Some(bytes) => reply == Ok::<Seq<u8>, RpcError>(bytes@),
                }
            }
    }

    /// Puts `service` behind the byte interface, with `decode` for its
    /// requests and `encode` for its responses.
    pub fn new(decode: D, service: S, encode: E) -> (handler: Self)
        requires
            forall|bytes: &Vec<u8>| call_requires(decode, (bytes,)),
            forall|state: Arc<State>, request: Req| call_requires(service, (state, request)),
            forall|response: &Res| call_requires(encode, (response,)),
        ensures
            handler.decoder() == decode,
            handler.service() == service,
            handler.encoder() == encode,
    {
        Handler { decode, service, encode, types: PhantomData }
    }
}

impl<State, Req, Res, D, S, E> ServiceHandle<State> for Handler<State, Req, Res, D, S, E> where
    State: Send + Sync,
    Req: Send + Sync,
    Res: Send + Sync,
    D: Fn(&Vec<u8>) -> Option<Req> + Send + Sync,
    S: Fn(Arc<State>, Req) -> Res + Send + Sync,
    E: Fn(&Res) -> Option<Vec<u8>> + Send + Sync,
 {
    open spec fn answers(
        &self,
        state: State,
        request: Seq<u8>,
        reply: Result<Seq<u8>, RpcError>,
    ) -> bool {
        self.relays(state, request, reply)
    }

    fn serve(&self, state: Arc<State>, request: Vec<u8>) -> (reply: Result<Vec<u8>, RpcError>)
        ensures
            self.relays(*state, request@, reply_view(reply)),
    {
        proof {
            use_type_invariant(self);
        }
        let ghost shared = state;
        let decoded = (self.decode)(&request);
        assert(call_ensures(self.decoder(), (&request,), decoded));
        match decoded {
            None => Err(RpcError::MalformedPayload),
            Some(typed) => {
                let result = (self.service)(state, typed);
                assert(call_ensures(self.service(), (shared, typed), result));
                let encoded = (self.encode)(&result);
                assert(call_ensures(self.encoder(), (&result,), encoded));
                match encoded {
                    None => Err(RpcError::SerializationFailure),
                    Some(bytes) => Ok(bytes),
                }
            },
        }
    }
}


/// What a typed handler answers, seen through the byte interface, is what it
/// relays.
pub proof fn lemma_handler_answers_as_it_relays<State, Req, Res, D, S, E>(
    handler: Handler<State, Req, Res, D, S, E>,
    state: State,
    request: Seq<u8>,
    reply: Result<Seq<u8>, RpcError>,
) where
    State: Send + Sync,
    Req: Send + Sync,
    Res: Send + Sync,
    D: Fn(&Vec<u8>) -> Option<Req> + Send + Sync,
    S: Fn(Arc<State>, Req) -> Res + Send + Sync,
    E: Fn(&Res) -> Option<Vec<u8>> + Send + Sync,

    ensures
        handler.answers(state, request, reply) == handler.relays(state, request, reply),
{
}

} // verus!
