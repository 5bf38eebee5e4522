use vstd::prelude::*;
use crate::app::App;
use crate::call;
use crate::connection;
use crate::error::RpcError;
use crate::service::ServiceHandle;
use crate::transport::{
    delivered, lemma_fitting_message_arrives, RequestView, ResponseView, READ_CAPACITY,
};

verus! {

/// The encoding that the two ends of the wire share: how a request and a
/// response become bytes, and how bytes become a request or a response again.
/// `None` stands for a value that does not encode, or for bytes that do not
/// decode.
pub struct Codec {
    pub encode_request: spec_fn(RequestView) -> Option<Seq<u8>>,
    pub decode_request: spec_fn(Seq<u8>) -> Option<RequestView>,
    pub encode_response: spec_fn(ResponseView) -> Option<Seq<u8>>,
    pub decode_response: spec_fn(Seq<u8>) -> Option<ResponseView>,
}

impl Codec {
    /// Whether what was encoded decodes to itself.
    pub open spec fn round_trips(self) -> bool {
        &&& forall|request: RequestView|
            (#[trigger] (self.encode_request)(request)) matches Some(bytes) ==> (
            self.decode_request)(bytes) == Some(request)
        &&& forall|response: ResponseView|
            (#[trigger] (self.encode_response)(response)) matches Some(bytes) ==> (
            self.decode_response)(bytes) == Some(response)
    }

    /// Whether an encoded request of which the end is missing is no request.
    pub open spec fn rejects_cut_requests(self) -> bool {
        forall|request: RequestView, kept: int|
            (self.encode_request)(request) is Some && 0 <= kept < (self.encode_request)(
                request,
            )->0.len() ==> (#[trigger] (self.decode_request)(
                (self.encode_request)(request)->0.take(kept),
            )) is None
    }
}

/// Whether a connection that asks for `asked` once the request is decoded
/// ends with `written` on the wire and with `outcome`, when the shell encodes
/// with `codec` and the write succeeds: a response that encodes is written, and
/// everything else closes the connection with nothing written.
pub open spec fn finishes(
    codec: Codec,
    asked: connection::ActionView,
    written: Option<Seq<u8>>,
    outcome: Result<(), RpcError>,
) -> bool {
    match asked {
        connection::ActionView::Encode { response } => {
            match (codec.encode_response)(response) {
                Some(bytes) => written == Some(bytes) && outcome == Ok::<(), RpcError>(()),
                None => written is None && outcome == Err::<(), RpcError>(
                    RpcError::SerializationFailure,
                ),
            }
        },
        connection::ActionView::Close { outcome: closed } => written is None && outcome == closed,
        _ => false,
    }
}

/// Whether the exchange on a connection may end with `written` on the wire
/// and with `outcome`, when the one read hands over `message`, the shell
/// decodes and encodes with `codec`, and the write succeeds. `written` is
/// `None` where the connection closes with nothing written.
pub open spec fn serves<State, H: ServiceHandle<State>>(
    app: &App<State, H>,
    codec: Codec,
    message: Seq<u8>,
    written: Option<Seq<u8>>,
    outcome: Result<(), RpcError>,
) -> bool {
    exists|decoded: connection::Stage, asked: connection::ActionView|
        #[trigger] connection::steps(
            app,
            connection::Stage::Decoding,
            connection::EventView::Decoded((codec.decode_request)(message)),
            decoded,
            asked,
        ) && finishes(codec, asked, written, outcome)
}

/// How a call for `request` ends when the connection opens, the shell encodes
/// and decodes with `codec`, the write succeeds, and the one read hands over
/// `message`.
pub open spec fn calls(codec: Codec, request: RequestView, message: Seq<u8>) -> Result<
    Seq<u8>,
    RpcError,
> {
    match (codec.encode_request)(request) {
        None => Err(RpcError::SerializationFailure),
        Some(_) => match (codec.decode_response)(message) {
            None => Err(RpcError::MalformedPayload),
            Some(response) => Ok(response.payload),
        },
    }
}

/// `serves` is what the connection's steps come to: a connection that is
/// driven from its first read to its close, with `codec` and a write that
/// succeeds, writes `written` and closes with `outcome`.
pub proof fn lemma_connection_serves<State, H: ServiceHandle<State>>(
    app: &App<State, H>,
    codec: Codec,
    message: Seq<u8>,
    decoded: connection::Stage,
    asked: connection::ActionView,
)
    requires
        connection::steps(
            app,
            connection::Stage::Decoding,
            connection::EventView::Decoded((codec.decode_request)(message)),
            decoded,
            asked,
        ),
    ensures
        connection::steps(
            app,
            connection::Stage::Reading,
            connection::EventView::Read(Some(message)),
            connection::Stage::Decoding,
            connection::ActionView::Decode { message },
        ),
        match asked {
            connection::ActionView::Encode { response } => {
                &&& decoded == connection::Stage::Encoding
                &&& match (codec.encode_response)(response) {
                    Some(bytes) => {
                        &&& connection::steps(
                            app,
                            decoded,
                            connection::EventView::Encoded(Some(bytes)),
                            connection::Stage::Writing,
                            connection::ActionView::Write { bytes },
                        )
                        &&& connection::steps(
                            app,
                            connection::Stage::Writing,
                            connection::EventView::Written(true),
                            connection::Stage::Closed,
                            connection::ActionView::Close { outcome: Ok(()) },
                        )
                        &&& serves(app, codec, message, Some(bytes), Ok(()))
                    },
                    None => {
                        &&& connection::steps(
                            app,
                            decoded,
                            connection::EventView::Encoded(None),
                            connection::Stage::Closed,
                            connection::ActionView::Close {
                                outcome: Err(RpcError::SerializationFailure),
                            },
                        )
                        &&& serves(app, codec, message, None, Err(RpcError::SerializationFailure))
                    },
                }
            },
            connection::ActionView::Close { outcome } => {
                &&& decoded == connection::Stage::Closed
                &&& outcome is Err
                &&& serves(app, codec, message, None, outcome)
            },
            _ => false,
        },
{
}

/// `calls` is what the call's steps come to: a call that is driven from its
/// connection to its end, with `codec`, writes the encoded request and ends
/// with `calls(codec, request, message)` once it has read `message`.
pub proof fn lemma_call_calls(codec: Codec, request: RequestView, message: Seq<u8>)
    ensures
        call::step(request, call::Stage::Connecting, call::EventView::Connected(true)) == (
            call::Stage::Encoding,
            call::ActionView::Encode { request },
        ),
        match (codec.encode_request)(request) {
            None => call::step(request, call::Stage::Encoding, call::EventView::Encoded(None)) == (
                call::Stage::Done,
                call::ActionView::Finish { outcome: calls(codec, request, message) },
            ),
            Some(bytes) => {
                &&& call::step(
                    request,
                    call::Stage::Encoding,
                    call::EventView::Encoded(Some(bytes)),
                ) == (call::Stage::Writing, call::ActionView::Write { bytes })
                &&& call::step(request, call::Stage::Writing, call::EventView::Written(true)) == (
                    call::Stage::Reading,
                    call::ActionView::Read { capacity: READ_CAPACITY },
                )
                &&& call::step(
                    request,
                    call::Stage::Reading,
                    call::EventView::Read(Some(message)),
                ) == (call::Stage::Decoding, call::ActionView::Decode { message })
                &&& call::step(
                    request,
                    call::Stage::Decoding,
                    call::EventView::Decoded((codec.decode_response)(message)),
                ) == (
                    call::Stage::Done,
                    call::ActionView::Finish { outcome: calls(codec, request, message) },
                )
            },
        },
{
}

/// A call that is handed over whole comes back with what the handler replied.
///
/// With an encoding that round-trips, and a request and a response that each
/// fit the read capacity and are each handed over whole by the one read, the
/// call ends with a reply that the dispatch of its request gave.
pub proof fn lemma_call_returns_reply<State, H: ServiceHandle<State>>(
    app: &App<State, H>,
    codec: Codec,
    request: RequestView,
    sent: Seq<u8>,
    written: Seq<u8>,
)
    requires
        codec.round_trips(),
        (codec.encode_request)(request) == Some(sent),
        sent.len() <= READ_CAPACITY,
        written.len() <= READ_CAPACITY,
        serves(app, codec, delivered(sent, sent.len() as int), Some(written), Ok(())),
    ensures
        calls(codec, request, delivered(written, written.len() as int)) is Ok,
        app.dispatches(request, calls(codec, request, delivered(written, written.len() as int))),
{
    lemma_fitting_message_arrives(sent);
    lemma_fitting_message_arrives(written);
}

/// A value that is sent to a service which returns its input unchanged comes
/// back unchanged, provided the encoding round-trips and the request and the
/// response each fit the read capacity and are each handed over whole.
pub proof fn lemma_echo_call_round_trip<State, H: ServiceHandle<State>>(
    app: &App<State, H>,
    codec: Codec,
    request: RequestView,
    sent: Seq<u8>,
    written: Option<Seq<u8>>,
    outcome: Result<(), RpcError>,
)
    requires
        codec.round_trips(),
        app.resolves(request.name),
        forall|state: State, bytes: Seq<u8>, reply: Result<Seq<u8>, RpcError>|
            #[trigger] app@[request.name].answers(state, bytes, reply) ==> reply == Ok::<
                Seq<u8>,
                RpcError,
            >(bytes),
        (codec.encode_request)(request) == Some(sent),
        sent.len() <= READ_CAPACITY,
        (codec.encode_response)(ResponseView { payload: request.payload }) matches Some(bytes)
            && bytes.len() <= READ_CAPACITY,
        serves(app, codec, delivered(sent, sent.len() as int), written, outcome),
    ensures
        outcome is Ok,
        written == (codec.encode_response)(ResponseView { payload: request.payload }),
        calls(codec, request, delivered(written->0, written->0.len() as int)) == Ok::<
            Seq<u8>,
            RpcError,
        >(request.payload),
{
    lemma_fitting_message_arrives(sent);
    lemma_fitting_message_arrives(
        (codec.encode_response)(ResponseView { payload: request.payload })->0,
    );
}

/// A request that is too long for one read is turned down: where the decoder
/// rejects a request whose end is missing, then however many bytes the one
/// read returned, the connection closes with `MalformedPayload`, nothing is
/// written, and no handler runs.
pub proof fn lemma_oversized_request_is_rejected<State, H: ServiceHandle<State>>(
    app: &App<State, H>,
    codec: Codec,
    request: RequestView,
    sent: Seq<u8>,
    bytes_read: int,
    written: Option<Seq<u8>>,
    outcome: Result<(), RpcError>,
)
    requires
        codec.rejects_cut_requests(),
        (codec.encode_request)(request) == Some(sent),
        sent.len() > READ_CAPACITY,
        0 <= bytes_read <= READ_CAPACITY,
        serves(app, codec, delivered(sent, bytes_read), written, outcome),
    ensures
        written is None,
        outcome == Err::<(), RpcError>(RpcError::MalformedPayload),
{
    let cut = (codec.encode_request)(request)->0.take(bytes_read);
    assert(cut == delivered(sent, bytes_read));
    assert((codec.decode_request)(cut) is None);
}

/// A call under a name that is not registered gets no response: the
/// connection closes with `UnknownService` and nothing written, so that the
/// caller reads an empty message, and, where an empty message is no response,
/// the call ends with an error.
pub proof fn lemma_unknown_service_gets_no_response<State, H: ServiceHandle<State>>(
    app: &App<State, H>,
    codec: Codec,
    request: RequestView,
    sent: Seq<u8>,
    written: Option<Seq<u8>>,
    outcome: Result<(), RpcError>,
)
    requires
        codec.round_trips(),
        !app@.contains_key(request.name),
        (codec.encode_request)(request) == Some(sent),
        sent.len() <= READ_CAPACITY,
        serves(app, codec, delivered(sent, sent.len() as int), written, outcome),
    ensures
        written is None,
        outcome == Err::<(), RpcError>(RpcError::UnknownService),
        (codec.decode_response)(Seq::<u8>::empty()) is None ==> calls(
            codec,
            request,
            Seq::<u8>::empty(),
        ) == Err::<Seq<u8>, RpcError>(RpcError::MalformedPayload),
{
    lemma_fitting_message_arrives(sent);
}

} // verus!
