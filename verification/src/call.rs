use vstd::prelude::*;
use crate::error::RpcError;
use crate::transport::{Request, RequestView, Response, ResponseView, READ_CAPACITY};

verus! {

/// How far one call of a client has come.
#[derive(Debug, Clone, Copy, PartialEq, Eq, Structural)]
pub enum Stage {
    /// A connection to the server is being opened.
    Connecting,
    /// The request is being encoded.
    Encoding,
    /// The encoded request is being written.
    Writing,
    /// The response has yet to be read.
    Reading,
    /// The message is being decoded as a response.
    Decoding,
    /// The call is over.
    Done,
}

/// What the shell reports: how the step that was asked for went.
#[derive(Debug, PartialEq, Eq)]
pub enum Event {
    /// Whether the connection was opened.
    Connected(bool),
    /// The bytes that the request encoded to, or `None` where it did not.
    Encoded(Option<Vec<u8>>),
    /// Whether the write succeeded.
    Written(bool),
    /// The bytes that the one read returned, or `None` where it failed.
    Read(Option<Vec<u8>>),
    /// The response that the message decoded to, or `None` where it did not.
    Decoded(Option<Response>),
}

/// What the shell is asked to do next.
#[derive(Debug, PartialEq, Eq)]
pub enum Action {
    /// Open a new connection to the server.
    Connect,
    /// Encode `request`.
    Encode { request: Request },
    /// Write `bytes` on the connection.
    Write { bytes: Vec<u8> },
    /// Read once, into a buffer of `capacity` bytes.
    Read { capacity: usize },
    /// Decode `message` as a response.
    Decode { message: Vec<u8> },
    /// Close the connection; `outcome` is the payload of the response, still
    /// encoded, or the reason why there is none.
    Finish { outcome: Result<Vec<u8>, RpcError> },
}

/// An event as plain data.
pub enum EventView {
    Connected(bool),
    Encoded(Option<Seq<u8>>),
    Written(bool),
    Read(Option<Seq<u8>>),
    Decoded(Option<ResponseView>),
}

/// An action as plain data.
pub enum ActionView {
    Connect,
    Encode { request: RequestView },
    Write { bytes: Seq<u8> },
    Read { capacity: usize },
    Decode { message: Seq<u8> },
    Finish { outcome: Result<Seq<u8>, RpcError> },
}

impl View for Event {
    type V = EventView;

    open spec fn view(&self) -> EventView {
        match *self {
            Event::Connected(done) => EventView::Connected(done),
            Event::Encoded(Some(bytes)) => EventView::Encoded(Some(bytes@)),
            Event::Encoded(None) => EventView::Encoded(None),
            Event::Written(done) => EventView::Written(done),
            Event::Read(Some(message)) => EventView::Read(Some(message@)),
            Event::Read(None) => EventView::Read(None),
            Event::Decoded(Some(response)) => EventView::Decoded(Some(response@)),
            Event::Decoded(None) => EventView::Decoded(None),
        }
    }
}

impl View for Action {
    type V = ActionView;

    open spec fn view(&self) -> ActionView {
        match *self {
            Action::Connect => ActionView::Connect,
            Action::Encode { request } => ActionView::Encode { request: request@ },
            Action::Write { bytes } => ActionView::Write { bytes: bytes@ },
            Action::Read { capacity } => ActionView::Read { capacity },
            Action::Decode { message } => ActionView::Decode { message: message@ },
            Action::Finish { outcome: Ok(payload) } => ActionView::Finish { outcome: Ok(payload@) },
            Action::Finish { outcome: Err(e) } => ActionView::Finish { outcome: Err(e) },
        }
    }
}

/// The error with which a call ends when `event` arrives in `stage` and does
/// not carry it on: a request that does not encode is a serialization failure,
/// a message that is no response is malformed, and everything else, an event
/// that the stage does not wait for included, is the transport's.
pub open spec fn failure(stage: Stage, event: EventView) -> RpcError {
    match (stage, event) {
        (Stage::Encoding, EventView::Encoded(None)) => RpcError::SerializationFailure,
        (Stage::Decoding, EventView::Decoded(None)) => RpcError::MalformedPayload,
        _ => RpcError::ConnectionError,
    }
}

/// The stage to which a call for `request` moves from `stage` on `event`, and
/// the action it asks for.
///
/// A call opens a connection, encodes its request, writes it, reads once,
/// and decodes what it read as the response, in that order. Each step that
/// fails ends the call with its error.
pub open spec fn step(request: RequestView, stage: Stage, event: EventView) -> (Stage, ActionView) {
    match (stage, event) {
        (Stage::Connecting, EventView::Connected(true)) => (
            Stage::Encoding,
            ActionView::Encode { request },
        ),
        (Stage::Encoding, EventView::Encoded(Some(bytes))) => (
            Stage::Writing,
            ActionView::Write { bytes },
        ),
        (Stage::Writing, EventView::Written(true)) => (
            Stage::Reading,
            ActionView::Read { capacity: READ_CAPACITY },
        ),
        (Stage::Reading, EventView::Read(Some(message))) => (
            Stage::Decoding,
            ActionView::Decode { message },
        ),
        (Stage::Decoding, EventView::Decoded(Some(response))) => (
            Stage::Done,
            ActionView::Finish { outcome: Ok(response.payload) },
        ),
        _ => (Stage::Done, ActionView::Finish { outcome: Err(failure(stage, event)) }),
    }
}

/// One call of a client: one request goes out under the name of a service,
/// one response comes back.
pub struct Call {
    stage: Stage,
    name: String,
    payload: Vec<u8>,
}

impl Call {
    /// How far the call has come.
    pub closed spec fn stage(&self) -> Stage {
        self.stage
    }

    /// The request that the call makes.
    pub closed spec fn request(&self) -> RequestView {
        RequestView { name: self.name@, payload: self.payload@ }
    }

    /// Begins a call of the service registered as `name`, with `payload` as
    /// the encoded argument. The first thing asked for is the connection.
    pub fn new(name: String, payload: Vec<u8>) -> (start: (Call, Action))
        ensures
            start.0.stage() == Stage::Connecting,
            start.0.request() == (RequestView { name: name@, payload: payload@ }),
            start.1@ == ActionView::Connect,
    {
        (Call { stage: Stage::Connecting, name, payload }, Action::Connect)
    }

    /// Whether the call is over.
    pub fn is_done(&self) -> (done: bool)
        ensures
            done == (self.stage() == Stage::Done),
    {
        match self.stage {
            Stage::Done => true,
            _ => false,
        }
    }

    /// Takes the report of the step that was asked for last and says what to
    /// do next.
    pub fn advance(&mut self, event: Event) -> (action: Action)
        ensures
            (final(self).stage(), action@) == step(old(self).request(), old(self).stage(), event@),
            final(self).request() == old(self).request(),
    {
        let stage = self.stage;
        match (stage, event) {
            (Stage::Connecting, Event::Connected(true)) => {
                self.stage = Stage::Encoding;
                let request = Request { name: self.name.clone(), payload: self.payload.clone() };
                Action::Encode { request }
            },
            (Stage::Encoding, Event::Encoded(Some(bytes))) => {
                self.stage = Stage::Writing;
                Action::Write { bytes }
            },
            (Stage::Writing, Event::Written(true)) => {
                self.stage = Stage::Reading;
                Action::Read { capacity: READ_CAPACITY }
            },
            (Stage::Reading, Event::Read(Some(message))) => {
                self.stage = Stage::Decoding;
                Action::Decode { message }
            },
            (Stage::Decoding, Event::Decoded(Some(response))) => {
                self.stage = Stage::Done;
                Action::Finish { outcome: Ok(response.payload) }
            },
            (Stage::Encoding, Event::Encoded(None)) => {
                self.stage = Stage::Done;
                Action::Finish { outcome: Err(RpcError::SerializationFailure) }
            },
            (Stage::Decoding, Event::Decoded(None)) => {
                self.stage = Stage::Done;
                Action::Finish { outcome: Err(RpcError::MalformedPayload) }
            },
            _ => {
                self.stage = Stage::Done;
                Action::Finish { outcome: Err(RpcError::ConnectionError) }
            },
        }
    }
}

/// The place of a stage in the order of a call.
pub open spec fn rank(stage: Stage) -> nat {
    match stage {
        Stage::Connecting => 0,
        Stage::Encoding => 1,
        Stage::Writing => 2,
        Stage::Reading => 3,
        Stage::Decoding => 4,
        Stage::Done => 5,
    }
}

/// A call takes its steps in one order and each of them once: every step
/// leads to the next stage or ends the call. No step asks for a second
/// connection, and a call ends with a payload only when a response was
/// decoded, whose payload it then is.
pub proof fn lemma_call_is_ordered(request: RequestView, stage: Stage, event: EventView)
    ensures
        ({
            let (next, action) = step(request, stage, event);
            &&& next == Stage::Done || rank(next) == rank(stage) + 1
            &&& next == Stage::Done <==> action is Finish
            &&& !(action is Connect)
            &&& action matches ActionView::Encode { request: sent } ==> sent == request
            &&& action matches ActionView::Finish { outcome: Ok(payload) } ==> stage
                == Stage::Decoding && event == EventView::Decoded(Some(ResponseView { payload }))
        }),
{
}

} // verus!
