use rpc_core::app::App;
use rpc_core::call;
use rpc_core::call::Call;
use rpc_core::connection;
use rpc_core::connection::Connection;
use rpc_core::error::RpcError;
use rpc_core::server::{AcceptLoop, Directive, Signal};
use rpc_core::service::{Service, ServiceHandle};
use rpc_core::transport::{received, Request, Response, READ_CAPACITY};
use std::sync::Arc;

struct Reverse;

impl ServiceHandle<()> for Reverse {
    fn serve(&self, _state: Arc<()>, request: Vec<u8>) -> Result<Vec<u8>, RpcError> {
        Ok(request.into_iter().rev().collect())
    }
}

struct Refuse;

impl ServiceHandle<()> for Refuse {
    fn serve(&self, _state: Arc<()>, _request: Vec<u8>) -> Result<Vec<u8>, RpcError> {
        Err(RpcError::MalformedPayload)
    }
}

fn reversing_app() -> App<()> {
    let mut app: App<()> = App::new(Arc::new(()));
    let reverse: Box<dyn ServiceHandle<()>> = Box::new(Reverse);
    let refuse: Box<dyn ServiceHandle<()>> = Box::new(Refuse);
    app.service(Service::new("reverse".to_string(), reverse))
        .service(Service::new("refuse".to_string(), refuse));
    app
}

fn reverse_request(payload: Vec<u8>) -> Request {
    Request { name: "reverse".to_string(), payload }
}

#[test]
fn read_capacity_is_1024() {
    assert_eq!(READ_CAPACITY, 1024);
}

#[test]
fn received_is_the_filled_part_of_the_buffer() {
    let buf = [1u8, 2, 3, 4, 0, 0, 0, 0];
    assert_eq!(received(&buf, 4), vec![1, 2, 3, 4]);
    assert_eq!(received(&buf, 0), Vec::<u8>::new());
    assert_eq!(received(&buf, 8), vec![1, 2, 3, 4, 0, 0, 0, 0]);
    assert_eq!(received(&buf, 1), vec![1]);
}

#[test]
fn received_from_a_full_buffer() {
    let buf = [7u8; 1024];
    assert_eq!(received(&buf, 1024), vec![7u8; 1024]);
    assert_eq!(received(&buf, 1023).len(), 1023);
}

#[test]
fn connection_starts_with_one_read() {
    let (connection, action) = Connection::accept();
    assert_eq!(action, connection::Action::Read { capacity: 1024 });
    assert!(!connection.is_closed());
}

#[test]
fn connection_runs_one_exchange() {
    let app = reversing_app();
    let (mut connection, _) = Connection::accept();
    let action = connection.advance(&app, connection::Event::Read(Some(vec![9, 9])));
    assert_eq!(action, connection::Action::Decode { message: vec![9, 9] });
    let action = connection.advance(&app, connection::Event::Decoded(Some(reverse_request(vec![1, 2, 3]))));
    assert_eq!(action, connection::Action::Encode { response: Response { payload: vec![3, 2, 1] } });
    let action = connection.advance(&app, connection::Event::Encoded(Some(vec![42])));
    assert_eq!(action, connection::Action::Write { bytes: vec![42] });
    assert!(!connection.is_closed());
    let action = connection.advance(&app, connection::Event::Written(true));
    assert_eq!(action, connection::Action::Close { outcome: Ok(()) });
    assert!(connection.is_closed());
}

#[test]
fn connection_closes_when_the_read_fails() {
    let app = reversing_app();
    let (mut connection, _) = Connection::accept();
    let action = connection.advance(&app, connection::Event::Read(None));
    assert_eq!(action, connection::Action::Close { outcome: Err(RpcError::ConnectionError) });
    assert!(connection.is_closed());
}

#[test]
fn connection_closes_on_a_message_that_is_no_request() {
    let app = reversing_app();
    let (mut connection, _) = Connection::accept();
    connection.advance(&app, connection::Event::Read(Some(vec![])));
    let action = connection.advance(&app, connection::Event::Decoded(None));
    assert_eq!(action, connection::Action::Close { outcome: Err(RpcError::MalformedPayload) });
    assert!(connection.is_closed());
}

#[test]
fn connection_closes_on_an_unknown_service() {
    let app = reversing_app();
    let (mut connection, _) = Connection::accept();
    connection.advance(&app, connection::Event::Read(Some(vec![1])));
    let request = Request { name: "missing".to_string(), payload: vec![1] };
    let action = connection.advance(&app, connection::Event::Decoded(Some(request)));
    assert_eq!(action, connection::Action::Close { outcome: Err(RpcError::UnknownService) });
    assert!(connection.is_closed());
}

#[test]
fn connection_closes_when_the_handler_fails() {
    let app = reversing_app();
    let (mut connection, _) = Connection::accept();
    connection.advance(&app, connection::Event::Read(Some(vec![1])));
    let request = Request { name: "refuse".to_string(), payload: vec![1] };
    let action = connection.advance(&app, connection::Event::Decoded(Some(request)));
    assert_eq!(action, connection::Action::Close { outcome: Err(RpcError::MalformedPayload) });
}

#[test]
fn connection_closes_when_the_response_does_not_encode() {
    let app = reversing_app();
    let (mut connection, _) = Connection::accept();
    connection.advance(&app, connection::Event::Read(Some(vec![1])));
    connection.advance(&app, connection::Event::Decoded(Some(reverse_request(vec![1]))));
    let action = connection.advance(&app, connection::Event::Encoded(None));
    assert_eq!(action, connection::Action::Close { outcome: Err(RpcError::SerializationFailure) });
}

#[test]
fn connection_closes_when_the_write_fails() {
    let app = reversing_app();
    let (mut connection, _) = Connection::accept();
    connection.advance(&app, connection::Event::Read(Some(vec![1])));
    connection.advance(&app, connection::Event::Decoded(Some(reverse_request(vec![1]))));
    connection.advance(&app, connection::Event::Encoded(Some(vec![1])));
    let action = connection.advance(&app, connection::Event::Written(false));
    assert_eq!(action, connection::Action::Close { outcome: Err(RpcError::ConnectionError) });
}

#[test]
fn connection_reads_no_second_request() {
    let app = reversing_app();
    let (mut connection, _) = Connection::accept();
    connection.advance(&app, connection::Event::Read(Some(vec![1])));
    connection.advance(&app, connection::Event::Decoded(Some(reverse_request(vec![1]))));
    connection.advance(&app, connection::Event::Encoded(Some(vec![1])));
    connection.advance(&app, connection::Event::Written(true));
    let action = connection.advance(&app, connection::Event::Read(Some(vec![2])));
    assert_eq!(action, connection::Action::Close { outcome: Err(RpcError::ConnectionError) });
    let action = connection.advance(&app, connection::Event::Decoded(Some(reverse_request(vec![2]))));
    assert_eq!(action, connection::Action::Close { outcome: Err(RpcError::ConnectionError) });
    assert!(connection.is_closed());
}

#[test]
fn connection_closes_on_an_event_out_of_turn() {
    let app = reversing_app();
    let (mut connection, _) = Connection::accept();
    let action = connection.advance(&app, connection::Event::Decoded(Some(reverse_request(vec![1]))));
    assert_eq!(action, connection::Action::Close { outcome: Err(RpcError::ConnectionError) });
    let (mut connection, _) = Connection::accept();
    connection.advance(&app, connection::Event::Read(Some(vec![1])));
    let action = connection.advance(&app, connection::Event::Written(true));
    assert_eq!(action, connection::Action::Close { outcome: Err(RpcError::ConnectionError) });
    let (mut connection, _) = Connection::accept();
    connection.advance(&app, connection::Event::Read(Some(vec![1])));
    connection.advance(&app, connection::Event::Decoded(Some(reverse_request(vec![1]))));
    let action = connection.advance(&app, connection::Event::Decoded(None));
    assert_eq!(action, connection::Action::Close { outcome: Err(RpcError::ConnectionError) });
}

#[test]
fn call_starts_by_connecting() {
    let (call, action) = Call::new("get".to_string(), vec![1]);
    assert_eq!(action, call::Action::Connect);
    assert!(!call.is_done());
}

#[test]
fn call_runs_one_exchange() {
    let (mut call, _) = Call::new("get".to_string(), vec![1, 2]);
    let action = call.advance(call::Event::Connected(true));
    assert_eq!(
        action,
        call::Action::Encode { request: Request { name: "get".to_string(), payload: vec![1, 2] } }
    );
    let action = call.advance(call::Event::Encoded(Some(vec![5, 6, 7])));
    assert_eq!(action, call::Action::Write { bytes: vec![5, 6, 7] });
    let action = call.advance(call::Event::Written(true));
    assert_eq!(action, call::Action::Read { capacity: 1024 });
    let action = call.advance(call::Event::Read(Some(vec![8, 9])));
    assert_eq!(action, call::Action::Decode { message: vec![8, 9] });
    assert!(!call.is_done());
    let action = call.advance(call::Event::Decoded(Some(Response { payload: vec![3] })));
    assert_eq!(action, call::Action::Finish { outcome: Ok(vec![3]) });
    assert!(call.is_done());
}

#[test]
fn call_fails_when_the_connection_does_not_open() {
    let (mut call, _) = Call::new("get".to_string(), vec![]);
    let action = call.advance(call::Event::Connected(false));
    assert_eq!(action, call::Action::Finish { outcome: Err(RpcError::ConnectionError) });
    assert!(call.is_done());
}

#[test]
fn call_fails_when_the_request_does_not_encode() {
    let (mut call, _) = Call::new("get".to_string(), vec![]);
    call.advance(call::Event::Connected(true));
    let action = call.advance(call::Event::Encoded(None));
    assert_eq!(action, call::Action::Finish { outcome: Err(RpcError::SerializationFailure) });
}

#[test]
fn call_fails_when_the_write_fails() {
    let (mut call, _) = Call::new("get".to_string(), vec![]);
    call.advance(call::Event::Connected(true));
    call.advance(call::Event::Encoded(Some(vec![1])));
    let action = call.advance(call::Event::Written(false));
    assert_eq!(action, call::Action::Finish { outcome: Err(RpcError::ConnectionError) });
}

#[test]
fn call_fails_when_the_read_fails() {
    let (mut call, _) = Call::new("get".to_string(), vec![]);
    call.advance(call::Event::Connected(true));
    call.advance(call::Event::Encoded(Some(vec![1])));
    call.advance(call::Event::Written(true));
    let action = call.advance(call::Event::Read(None));
    assert_eq!(action, call::Action::Finish { outcome: Err(RpcError::ConnectionError) });
}

#[test]
fn call_fails_on_a_message_that_is_no_response() {
    let (mut call, _) = Call::new("get".to_string(), vec![]);
    call.advance(call::Event::Connected(true));
    call.advance(call::Event::Encoded(Some(vec![1])));
    call.advance(call::Event::Written(true));
    call.advance(call::Event::Read(Some(vec![])));
    let action = call.advance(call::Event::Decoded(None));
    assert_eq!(action, call::Action::Finish { outcome: Err(RpcError::MalformedPayload) });
    assert!(call.is_done());
}

#[test]
fn call_ends_on_an_event_out_of_turn() {
    let (mut call, _) = Call::new("get".to_string(), vec![]);
    let action = call.advance(call::Event::Written(true));
    assert_eq!(action, call::Action::Finish { outcome: Err(RpcError::ConnectionError) });
    let action = call.advance(call::Event::Connected(true));
    assert_eq!(action, call::Action::Finish { outcome: Err(RpcError::ConnectionError) });
    assert!(call.is_done());
}

#[test]
fn accept_loop_dispatches_each_connection() {
    let mut accept_loop = AcceptLoop::new();
    assert!(accept_loop.is_serving());
    assert_eq!(accept_loop.react(Signal::Accepted), Directive::Dispatch);
    assert_eq!(accept_loop.react(Signal::Accepted), Directive::Dispatch);
    assert!(accept_loop.is_serving());
}

#[test]
fn stop_signal_returns_while_idle() {
    let mut accept_loop = AcceptLoop::new();
    assert_eq!(accept_loop.react(Signal::Stop), Directive::Return);
    assert!(!accept_loop.is_serving());
}

#[test]
fn stop_signal_returns_after_connections() {
    let mut accept_loop = AcceptLoop::new();
    assert_eq!(accept_loop.react(Signal::Accepted), Directive::Dispatch);
    assert_eq!(accept_loop.react(Signal::Stop), Directive::Return);
    assert!(!accept_loop.is_serving());
}

#[test]
fn interrupt_and_accept_failure_return() {
    let mut accept_loop = AcceptLoop::new();
    assert_eq!(accept_loop.react(Signal::Interrupt), Directive::Return);
    let mut accept_loop = AcceptLoop::new();
    assert_eq!(accept_loop.react(Signal::AcceptFailed), Directive::Return);
    assert!(!accept_loop.is_serving());
}

#[test]
fn nothing_is_dispatched_after_the_return() {
    let mut accept_loop = AcceptLoop::new();
    assert_eq!(accept_loop.react(Signal::Stop), Directive::Return);
    assert_eq!(accept_loop.react(Signal::Accepted), Directive::Return);
    assert_eq!(accept_loop.react(Signal::Stop), Directive::Return);
    assert!(!accept_loop.is_serving());
}
