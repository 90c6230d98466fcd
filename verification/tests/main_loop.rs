use std::ops::ControlFlow;
use std::task::Context;

use async_lsp::json::JsonValue;
use async_lsp::main_loop::{
    finish, respond, source_at, Action, Dispatched, Found, RequestFuture, Source,
};
use async_lsp::socket::MainLoopEvent;
use async_lsp::{
    AnyEvent, AnyNotification, AnyRequest, AnyResponse, ClientSocket, Error, ErrorCode, LspService,
    MainLoop, Message, Poll, RequestId, ResponseError, Result,
};

/// A service whose readiness is set from outside.
struct Service {
    ready: Option<core::result::Result<(), ResponseError>>,
    called: Vec<String>,
    client: ClientSocket,
}

impl LspService for Service {
    type Response = JsonValue;
    type Error = ResponseError;
    type Future = &'static str;

    fn poll_ready(&mut self, _: &mut Context<'_>) -> Poll<core::result::Result<(), ResponseError>> {
        match self.ready.clone() {
            Some(ready) => Poll::Ready(ready),
            None => Poll::Pending,
        }
    }

    fn call(&mut self, req: AnyRequest) -> &'static str {
        self.called.push(req.method);
        "pending"
    }

    fn notify(&mut self, notif: AnyNotification) -> ControlFlow<Result<()>> {
        if notif.method == "exit" {
            ControlFlow::Break(Ok(()))
        } else {
            self.called.push(notif.method);
            ControlFlow::Continue(())
        }
    }

    fn emit(&mut self, event: AnyEvent) -> ControlFlow<Result<()>> {
        if event.is::<u8>() {
            ControlFlow::Continue(())
        } else {
            ControlFlow::Break(Err(Error::Eof))
        }
    }
}

fn server() -> (MainLoop<Service>, ClientSocket) {
    MainLoop::new_server(|client| Service { ready: Some(Ok(())), called: Vec::new(), client })
}

fn cx() -> Context<'static> {
    Context::from_waker(futures::task::noop_waker_ref())
}

fn request(id: i32, method: &str) -> AnyRequest {
    AnyRequest { id: RequestId::Number(id), method: method.into(), params: JsonValue::Null }
}

fn notification(method: &str) -> Message {
    Message::Notification(AnyNotification { method: method.into(), params: JsonValue::Null })
}

fn next_event(this: &mut MainLoop<Service>) -> MainLoopEvent {
    this.rx.try_recv().unwrap()
}

#[test]
fn requests_to_the_peer_are_answered_once() {
    let (mut this, socket) = server();
    let mut first = socket.request("a".to_owned(), JsonValue::Null);
    // The socket that the service was built with talks to the same main loop.
    let mut second = this.get_ref().client.request("b".to_owned(), JsonValue::Null);

    for (id, method) in [(0, "a"), (1, "b")] {
        let event = next_event(&mut this);
        match this.step(Found::Asked(event), &mut cx()) {
            Action::Send(Message::Request(req)) => {
                assert_eq!(req.id, RequestId::Number(id));
                assert_eq!(req.method, method);
            }
            _ => panic!("the request is sent"),
        }
    }
    assert_eq!(this.outgoing_id, 2);

    for id in [RequestId::Number(7), RequestId::String("0".to_owned())] {
        let unknown = AnyResponse::new(id, Ok(1.into()));
        assert!(matches!(
            this.step(Found::Read(Ok(Message::Response(unknown))), &mut cx()),
            Action::GoOn
        ));
        assert_eq!(this.outgoing.len(), 2);
    }

    let response = AnyResponse::new(RequestId::Number(1), Ok(5.into()));
    assert!(matches!(
        this.step(Found::Read(Ok(Message::Response(response))), &mut cx()),
        Action::GoOn
    ));
    assert!(matches!(second.poll(&mut cx()), Poll::Ready(Ok(value)) if value == 5));
    assert!(matches!(first.poll(&mut cx()), Poll::Pending));
    let again = AnyResponse::new(RequestId::Number(1), Ok(6.into()));
    assert!(matches!(
        this.step(Found::Read(Ok(Message::Response(again))), &mut cx()),
        Action::GoOn
    ));
    assert_eq!(this.outgoing.len(), 1);

    drop(this);
    assert!(matches!(first.poll(&mut cx()), Poll::Ready(Err(Error::ServiceStopped))));
}

#[test]
fn requests_of_the_peer_wait_for_the_service() {
    let (mut this, _socket) = server();
    this.get_mut().ready = None;
    let waiting = match this.dispatch_message(Message::Request(request(4, "m")), &mut cx()) {
        Dispatched::Waiting(req) => req,
        _ => panic!("the service is not ready"),
    };
    assert!(this.service.called.is_empty());
    this.get_mut().ready = Some(Ok(()));
    match this.step(Found::Read(Ok(Message::Request(waiting))), &mut cx()) {
        Action::Spawn(RequestFuture { fut, id }) => {
            assert_eq!(fut, "pending");
            assert_eq!(id, RequestId::Number(4));
        }
        _ => panic!("the service is ready"),
    }
    this.get_mut().ready = Some(Err(ResponseError::new(ErrorCode(9), "broken")));
    match this.step(Found::Read(Ok(Message::Request(request(5, "m")))), &mut cx()) {
        Action::Send(Message::Response(response)) => {
            assert_eq!(response.id, RequestId::Number(5));
            assert!(response.result.is_none());
            assert_eq!(response.error.unwrap().message, "broken");
        }
        _ => panic!("the request is refused"),
    }
    assert_eq!(this.into_inner().called, vec!["m"]);
}

#[test]
fn handlers_end_the_loop() {
    let (mut this, socket) = server();
    let go_on = this.step(Found::Read(Ok(notification("other"))), &mut cx());
    assert!(matches!(go_on, Action::GoOn));
    let stop = this.step(Found::Read(Ok(notification("exit"))), &mut cx());
    assert!(matches!(stop, Action::Stop(Ok(()))));

    assert!(socket.emit(1u8, "u8").is_ok());
    let event = next_event(&mut this);
    assert!(matches!(this.step(Found::Asked(event), &mut cx()), Action::GoOn));
    assert!(socket.emit(1u16, "u16").is_ok());
    let event = next_event(&mut this);
    assert!(matches!(this.step(Found::Asked(event), &mut cx()), Action::Stop(Err(Error::Eof))));

    assert!(socket.notify("n".to_owned(), JsonValue::Null).is_ok());
    let event = next_event(&mut this);
    assert!(matches!(
        this.dispatch_event(event),
        ControlFlow::Continue(Some(Message::Notification(notif))) if notif.method == "n"
    ));
}

#[test]
fn failures_end_the_loop_at_once() {
    let (mut this, _socket) = MainLoop::new_client(|_server| Service {
        ready: None,
        called: Vec::new(),
        client: ClientSocket::new_closed(),
    });
    assert!(matches!(this.step(Found::Flushed(Ok(())), &mut cx()), Action::GoOn));
    assert!(matches!(
        this.step(Found::Flushed(Err(Error::Eof)), &mut cx()),
        Action::Fail(Error::Eof)
    ));
    assert!(matches!(this.step(Found::Read(Err(Error::Eof)), &mut cx()), Action::Fail(Error::Eof)));
    let response = AnyResponse::new(RequestId::Number(1), Ok(JsonValue::Null));
    assert!(matches!(
        this.step(Found::Completed(response), &mut cx()),
        Action::Send(Message::Response(response)) if response.id == RequestId::Number(1)
    ));
}

#[test]
fn response_carries_the_identifier_and_the_outcome() {
    let id = RequestId::String("a".to_owned());
    let response = respond::<ResponseError>(id.clone(), Ok(1.into()));
    assert_eq!(response.id, id);
    assert_eq!(response.result, Some(1.into()));
    assert!(response.error.is_none());

    let pending = RequestFuture { fut: (), id: id.clone() };
    let pending = pending.response::<ResponseError>(Poll::Pending).unwrap_err();
    assert_eq!(pending.id, id);
    let error = ResponseError::new(ErrorCode(1), "e");
    let response = pending.response(Poll::Ready(Err(error))).unwrap();
    assert_eq!(response.id, id);
    assert!(response.result.is_none());
    assert_eq!(response.error.unwrap().message, "e");
}

#[test]
fn outgoing_before_internal_before_incoming() {
    let order: Vec<Source> = (0..4).map(|tried| source_at(false, tried).unwrap()).collect();
    assert_eq!(order, vec![Source::Flush, Source::Task, Source::Event, Source::Incoming]);
    assert_eq!(source_at(false, 4), None);
    assert_eq!(source_at(true, 0), Some(Source::Waiting));
    assert_eq!(source_at(true, 1), Some(Source::Flush));
    assert_eq!(source_at(true, 2), None);
}

#[test]
fn error_of_the_handler_overrides_that_of_flushing() {
    assert!(matches!(finish(Ok(()), Ok(())), Ok(())));
    assert!(matches!(finish(Ok(()), Err(Error::Eof)), Err(Error::Eof)));
    assert!(matches!(finish(Err(Error::ServiceStopped), Ok(())), Err(Error::ServiceStopped)));
    assert!(matches!(
        finish(Err(Error::ServiceStopped), Err(Error::Eof)),
        Err(Error::ServiceStopped)
    ));
}
