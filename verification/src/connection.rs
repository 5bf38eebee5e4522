use vstd::prelude::*;
use crate::app::App;
use crate::error::RpcError;
use crate::service::ServiceHandle;
use crate::transport::{Request, RequestView, Response, ResponseView, READ_CAPACITY};

verus! {

/// How far the one exchange of an accepted connection has come.
#[derive(Debug, Clone, Copy, PartialEq, Eq, Structural)]
pub enum Stage {
    /// The request has yet to be read.
    Reading,
    /// The message is being decoded as a request.
    Decoding,
    /// The response is being encoded.
    Encoding,
    /// The encoded response is being written.
    Writing,
    /// The exchange is over; nothing more is read or written.
    Closed,
}

/// What the shell reports: how the step that was asked for went.
#[derive(Debug, PartialEq, Eq)]
pub enum Event {
    /// The bytes that the one read returned, or `None` where it failed.
    Read(Option<Vec<u8>>),
    /// The request that the message decoded to, or `None` where it did not.
    Decoded(Option<Request>),
    /// The bytes that the response encoded to, or `None` where it did not.
    Encoded(Option<Vec<u8>>),
    /// Whether the write succeeded.
    Written(bool),
}

/// What the shell is asked to do next.
#[derive(Debug, PartialEq, Eq)]
pub enum Action {
    /// Read once, into a buffer of `capacity` bytes.
    Read { capacity: usize },
    /// Decode `message` as a request.
    Decode { message: Vec<u8> },
    /// Encode `response`.
    Encode { response: Response },
    /// Write `bytes` back on the connection.
    Write { bytes: Vec<u8> },
    /// Close the connection; `outcome` says how the exchange ended.
    Close { outcome: Result<(), RpcError> },
}

/// An event as plain data.
pub enum EventView {
    Read(Option<Seq<u8>>),
    Decoded(Option<RequestView>),
    Encoded(Option<Seq<u8>>),
    Written(bool),
}

/// An action as plain data.
pub enum ActionView {
    Read { capacity: usize },
    Decode { message: Seq<u8> },
    Encode { response: ResponseView },
    Write { bytes: Seq<u8> },
    Close { outcome: Result<(), RpcError> },
}

impl View for Event {
    type V = EventView;

    open spec fn view(&self) -> EventView {
        match *self {
            Event::Read(Some(message)) => EventView::Read(Some(message@)),
            Event::Read(None) => EventView::Read(None),
            Event::Decoded(Some(request)) => EventView::Decoded(Some(request@)),
            Event::Decoded(None) => EventView::Decoded(None),
            Event::Encoded(Some(bytes)) => EventView::Encoded(Some(bytes@)),
            Event::Encoded(None) => EventView::Encoded(None),
            Event::Written(done) => EventView::Written(done),
        }
    }
}

impl View for Action {
    type V = ActionView;

    open spec fn view(&self) -> ActionView {
        match *self {
            Action::Read { capacity } => ActionView::Read { capacity },
            Action::Decode { message } => ActionView::Decode { message: message@ },
            Action::Encode { response } => ActionView::Encode { response: response@ },
            Action::Write { bytes } => ActionView::Write { bytes: bytes@ },
            Action::Close { outcome } => ActionView::Close { outcome },
        }
    }
}

/// The error with which an exchange ends when `event` arrives in `stage` and
/// does not carry it on: a message that is no request is malformed, a response
/// that does not encode is a serialization failure, and everything else,
/// an event that the stage does not wait for included, is the transport's.
pub open spec fn failure(stage: Stage, event: EventView) -> RpcError {
    match (stage, event) {
        (Stage::Decoding, EventView::Decoded(None)) => RpcError::MalformedPayload,
        (Stage::Encoding, EventView::Encoded(None)) => RpcError::SerializationFailure,
        _ => RpcError::ConnectionError,
    }
}

/// Whether an exchange may go on to `next` with `action` once `request` has
/// been dispatched on `app`: a reply goes on to be encoded as the payload of
/// the response, an error closes the connection.
pub open spec fn after_dispatch<State, H: ServiceHandle<State>>(
    app: &App<State, H>,
    request: RequestView,
    next: Stage,
    action: ActionView,
) -> bool {
    match action {
        ActionView::Encode { response } => {
            next == Stage::Encoding && app.dispatches(request, Ok(response.payload))
        },
        ActionView::Close { outcome: Err(e) } => {
            next == Stage::Closed && app.dispatches(request, Err(e))
        },
        _ => false,
    }
}

/// Whether an exchange in `stage` may answer `event` by moving to `next` and
/// asking for `action`.
///
/// The exchange is one read, one decoding, one dispatch, one encoding and one
/// write, in that order. Each step that fails closes the connection with its
/// error and without a response.
pub open spec fn steps<State, H: ServiceHandle<State>>(
    app: &App<State, H>,
    stage: Stage,
    event: EventView,
    next: Stage,
    action: ActionView,
) -> bool {
    match (stage, event) {
        (Stage::Reading, EventView::Read(Some(message))) => {
            next == Stage::Decoding && action == (ActionView::Decode { message })
        },
        (Stage::Decoding, EventView::Decoded(Some(request))) => {
            after_dispatch(app, request, next, action)
        },
        (Stage::Encoding, EventView::Encoded(Some(bytes))) => {
            next == Stage::Writing && action == (ActionView::Write { bytes })
        },
        (Stage::Writing, EventView::Written(true)) => {
            next == Stage::Closed && action == (ActionView::Close { outcome: Ok(()) })
        },
        _ => {
            next == Stage::Closed && action == (ActionView::Close {
                outcome: Err(failure(stage, event)),
            })
        },
    }
}

/// The exchange on one accepted connection: exactly one request is read and
/// at most one response is written.
pub struct Connection {
    stage: Stage,
}

impl Connection {
    /// How far the exchange has come.
    pub closed spec fn stage(&self) -> Stage {
        self.stage
    }

    /// Begins the exchange on a connection that was just accepted. The first
    /// thing asked for is the one read of the request.
    pub fn accept() -> (start: (Connection, Action))
        ensures
            start.0.stage() == Stage::Reading,
            start.1@ == (ActionView::Read { capacity: READ_CAPACITY }),
    {
        (Connection { stage: Stage::Reading }, Action::Read { capacity: READ_CAPACITY })
    }

    /// Whether the exchange is over.
    pub fn is_closed(&self) -> (closed: bool)
        ensures
            closed == (self.stage() == Stage::Closed),
    {
        match self.stage {
            Stage::Closed => true,
            _ => false,
        }
    }

    /// Takes the report of the step that was asked for last and says what to
    /// do next. The decoded request is dispatched on `app` here.
    pub fn advance<State, H: ServiceHandle<State>>(
        &mut self,
        app: &App<State, H>,
        event: Event,
    ) -> (action: Action)
        ensures
            steps(app, old(self).stage(), event@, final(self).stage(), action@),
    {
        let stage = self.stage;
        match (stage, event) {
            (Stage::Reading, Event::Read(Some(message))) => {
                self.stage = Stage::Decoding;
                Action::Decode { message }
            },
            (Stage::Decoding, Event::Decoded(Some(request))) => {
                match app.dispatch(request) {
                    Ok(response) => {
                        self.stage = Stage::Encoding;
                        Action::Encode { response }
                    },
                    Err(e) => {
                        self.stage = Stage::Closed;
                        Action::Close { outcome: Err(e) }
                    },
                }
            },
            (Stage::Encoding, Event::Encoded(Some(bytes))) => {
                self.stage = Stage::Writing;
                Action::Write { bytes }
            },
            (Stage::Writing, Event::Written(true)) => {
                self.stage = Stage::Closed;
                Action::Close { outcome: Ok(()) }
            },
            (Stage::Decoding, Event::Decoded(None)) => {
                self.stage = Stage::Closed;
                Action::Close { outcome: Err(RpcError::MalformedPayload) }
            },
            (Stage::Encoding, Event::Encoded(None)) => {
                self.stage = Stage::Closed;
                Action::Close { outcome: Err(RpcError::SerializationFailure) }
            },
            _ => {
                self.stage = Stage::Closed;
                Action::Close { outcome: Err(RpcError::ConnectionError) }
            },
        }
    }
}

/// The place of a stage in the order of an exchange.
pub open spec fn rank(stage: Stage) -> nat {
    match stage {
        Stage::Reading => 0,
        Stage::Decoding => 1,
        Stage::Encoding => 2,
        Stage::Writing => 3,
        Stage::Closed => 4,
    }
}

/// An exchange takes its steps in one order and each of them once: every step
/// leads to the next stage or closes the connection. No step asks for a second
/// read, a response is encoded only for a request that was dispatched with a
/// reply, and bytes are written only once a response was encoded.
pub proof fn lemma_exchange_is_ordered<State, H: ServiceHandle<State>>(
    app: &App<State, H>,
    stage: Stage,
    event: EventView,
    next: Stage,
    action: ActionView,
)
    requires
        steps(app, stage, event, next, action),
    ensures
        next == Stage::Closed || rank(next) == rank(stage) + 1,
        next == Stage::Closed <==> action is Close,
        !(action is Read),
        action is Decode ==> stage == Stage::Reading,
        action matches ActionView::Encode { response } ==> {
            &&& stage == Stage::Decoding
            &&& event matches EventView::Decoded(Some(request))
            &&& app.dispatches(request, Ok(response.payload))
        },
        action matches ActionView::Write { bytes } ==> {
            &&& stage == Stage::Encoding
            &&& event == EventView::Encoded(Some(bytes))
        },
        action == (ActionView::Close { outcome: Ok(()) }) ==> stage == Stage::Writing,
{
}

} // verus!
