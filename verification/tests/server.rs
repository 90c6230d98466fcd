use std::ops::ControlFlow;
use std::task::Context;

use async_lsp::server::{
    Lifecycle, LifecycleLayer, ResponseFuture, State, EXIT, INITIALIZE, INITIALIZED, SHUTDOWN,
};
use async_lsp::{
    AnyEvent, AnyNotification, AnyRequest, Error, ErrorCode, LspService, Poll, RequestId,
    ResponseError, Result,
};
use lsp_types::notification::Notification;
use lsp_types::request::Request;

/// Records the methods that reach it.
#[derive(Default)]
struct Recorder {
    seen: Vec<String>,
    events: usize,
    break_on: Option<&'static str>,
}

impl LspService for Recorder {
    type Response = serde_json::Value;
    type Error = ResponseError;
    type Future = usize;

    fn poll_ready(&mut self, _: &mut Context<'_>) -> Poll<core::result::Result<(), ResponseError>> {
        Poll::Pending
    }

    fn call(&mut self, req: AnyRequest) -> usize {
        self.seen.push(req.method);
        self.seen.len()
    }

    fn notify(&mut self, notif: AnyNotification) -> ControlFlow<Result<()>> {
        let breaks = self.break_on == Some(notif.method.as_str());
        self.seen.push(notif.method);
        if breaks {
            ControlFlow::Break(Err(Error::Eof))
        } else {
            ControlFlow::Continue(())
        }
    }

    fn emit(&mut self, _: AnyEvent) -> ControlFlow<Result<()>> {
        self.events += 1;
        ControlFlow::Break(Ok(()))
    }
}

fn request(method: &str) -> AnyRequest {
    AnyRequest {
        id: RequestId::Number(1),
        method: method.into(),
        params: serde_json::Value::Null,
    }
}

fn notification(method: &str) -> AnyNotification {
    AnyNotification { method: method.into(), params: serde_json::Value::Null }
}

fn refused(fut: ResponseFuture<usize>) -> (i32, String) {
    match fut {
        ResponseFuture::Refused(error) => (error.code.0, error.message),
        ResponseFuture::Forwarded(_) => panic!("the request was forwarded"),
    }
}

fn protocol_error(flow: ControlFlow<Result<()>>) -> String {
    match flow {
        ControlFlow::Break(Err(Error::Protocol(text))) => text,
        _ => panic!("the loop does not end with a protocol error"),
    }
}

#[test]
fn lifecycle_methods_are_those_of_the_protocol() {
    assert_eq!(INITIALIZE, lsp_types::request::Initialize::METHOD);
    assert_eq!(SHUTDOWN, lsp_types::request::Shutdown::METHOD);
    assert_eq!(INITIALIZED, lsp_types::notification::Initialized::METHOD);
    assert_eq!(EXIT, lsp_types::notification::Exit::METHOD);
}

#[test]
fn lifecycle_from_start_to_exit() {
    let mut server = LifecycleLayer::default().layer(Recorder::default());
    assert_eq!(
        refused(server.call(request("textDocument/hover"))),
        (ErrorCode::SERVER_NOT_INITIALIZED, "Server is not initialized yet".to_owned())
    );
    assert!(matches!(server.notify(notification("textDocument/didOpen")), ControlFlow::Continue(())));
    assert!(matches!(server.call(request("initialize")), ResponseFuture::Forwarded(1)));
    assert_eq!(server.state, State::Initializing);
    assert_eq!(
        refused(server.call(request("initialize"))),
        (ErrorCode::SERVER_NOT_INITIALIZED, "Server is not initialized yet".to_owned())
    );
    assert!(matches!(server.notify(notification("$/setTrace")), ControlFlow::Continue(())));
    assert!(matches!(server.notify(notification("initialized")), ControlFlow::Continue(())));
    assert_eq!(server.state, State::Ready);
    assert_eq!(
        refused(server.call(request("initialize"))),
        (ErrorCode::INVALID_REQUEST, "Server is already initialized".to_owned())
    );
    assert!(matches!(server.notify(notification("textDocument/didOpen")), ControlFlow::Continue(())));
    assert!(matches!(server.call(request("textDocument/hover")), ResponseFuture::Forwarded(4)));
    assert!(matches!(server.call(request("shutdown")), ResponseFuture::Forwarded(5)));
    assert_eq!(server.state, State::ShuttingDown);
    assert_eq!(
        refused(server.call(request("shutdown"))),
        (ErrorCode::INVALID_REQUEST, "Server is shutting down".to_owned())
    );
    assert_eq!(
        refused(server.call(request("initialize"))),
        (ErrorCode::INVALID_REQUEST, "Server is already initialized".to_owned())
    );
    assert!(matches!(server.notify(notification("textDocument/didClose")), ControlFlow::Continue(())));
    assert!(matches!(server.notify(notification("exit")), ControlFlow::Break(Ok(()))));
    assert_eq!(
        server.into_inner().seen,
        vec![
            "initialize",
            "initialized",
            "textDocument/didOpen",
            "textDocument/hover",
            "shutdown",
            "exit"
        ]
    );
}

#[test]
fn unexpected_initialized_is_a_protocol_error() {
    let mut server = Lifecycle::new(Recorder::default());
    assert_eq!(
        protocol_error(server.notify(notification("initialized"))),
        "Unexpected initialized notification on state Uninitialized"
    );
    let _ = server.call(request("initialize"));
    let _ = server.notify(notification("initialized"));
    assert_eq!(
        protocol_error(server.notify(notification("initialized"))),
        "Unexpected initialized notification on state Ready"
    );
    let _ = server.call(request("shutdown"));
    assert_eq!(
        protocol_error(server.notify(notification("initialized"))),
        "Unexpected initialized notification on state ShuttingDown"
    );
    assert_eq!(server.get_ref().seen.len(), 3);
}

#[test]
fn exit_ends_with_the_result_of_the_inner_service() {
    let mut server = Lifecycle::new(Recorder { break_on: Some("exit"), ..Recorder::default() });
    assert!(matches!(server.notify(notification("exit")), ControlFlow::Break(Err(Error::Eof))));
    server.get_mut().break_on = None;
    assert!(matches!(server.notify(notification("exit")), ControlFlow::Break(Ok(()))));
}

#[test]
fn lifecycle_forwards_events_and_readiness() {
    let mut cx = Context::from_waker(futures::task::noop_waker_ref());
    let mut server = Lifecycle::<Recorder>::default();
    assert!(matches!(server.poll_ready(&mut cx), Poll::Pending));
    assert!(matches!(server.emit(AnyEvent::new(1u8, "u8")), ControlFlow::Break(Ok(()))));
    assert_eq!(server.service.events, 1);
}
