use std::ops::ControlFlow;
use std::task::Context;

use async_lsp::json::JsonValue;
use async_lsp::socket::{
    MainLoopEvent, PeerSocket, PeerSocketRequestFuture, PeerSocketResponseFuture,
};
use async_lsp::{
    AnyEvent, AnyNotification, AnyRequest, AnyResponse, ClientSocket, Error, ErrorCode, LspService,
    Message, Poll, RequestId, ResponseError, ServerSocket,
};
use futures::channel::mpsc::{unbounded, UnboundedReceiver};
use lsp_types::notification::Notification;
use lsp_types::request::Request;

fn null() -> JsonValue {
    JsonValue::Null
}

fn poll_request(fut: &mut PeerSocketRequestFuture) -> Poll<async_lsp::Result<JsonValue>> {
    fut.poll(&mut Context::from_waker(futures::task::noop_waker_ref()))
}

fn poll_response(
    fut: &mut PeerSocketResponseFuture,
) -> Poll<core::result::Result<JsonValue, ResponseError>> {
    fut.poll(&mut Context::from_waker(futures::task::noop_waker_ref()))
}

fn open_socket() -> (PeerSocket, UnboundedReceiver<MainLoopEvent>) {
    let (tx, rx) = unbounded();
    (PeerSocket { tx }, rx)
}

#[test]
fn closed_client_socket() {
    let socket = ClientSocket::new_closed();
    assert!(matches!(
        socket.notify(lsp_types::notification::Exit::METHOD.to_owned(), null()),
        Err(Error::ServiceStopped)
    ));
    assert!(matches!(
        poll_request(&mut socket.request(lsp_types::request::Shutdown::METHOD.to_owned(), null())),
        Poll::Ready(Err(Error::ServiceStopped))
    ));
    assert!(matches!(socket.emit(42i32, "i32"), Err(Error::ServiceStopped)));
}

#[test]
fn closed_server_socket() {
    let socket = ServerSocket::new_closed();
    assert!(matches!(
        socket.notify(lsp_types::notification::Exit::METHOD.to_owned(), null()),
        Err(Error::ServiceStopped)
    ));
    assert!(matches!(
        poll_request(&mut socket.request(lsp_types::request::Shutdown::METHOD.to_owned(), null())),
        Poll::Ready(Err(Error::ServiceStopped))
    ));
    assert!(matches!(socket.emit(42i32, "i32"), Err(Error::ServiceStopped)));
}

#[test]
fn closed_socket_forwards_nothing() {
    let mut cx = Context::from_waker(futures::task::noop_waker_ref());
    let mut socket = ClientSocket::new_closed();
    assert!(matches!(socket.poll_ready(&mut cx), Poll::Ready(Ok(()))));
    let req = AnyRequest { id: RequestId::Number(3), method: "m".into(), params: null() };
    match poll_response(&mut socket.call(req)) {
        Poll::Ready(Err(error)) => {
            assert_eq!(error.code.0, ErrorCode::INTERNAL_ERROR);
            assert_eq!(error.message, "forwarding service stopped");
        }
        _ => panic!("the main loop has stopped"),
    }
    let notif = AnyNotification { method: "m".into(), params: null() };
    assert!(matches!(
        LspService::notify(&mut socket, notif),
        ControlFlow::Break(Err(Error::ServiceStopped))
    ));
    assert!(matches!(
        LspService::emit(&mut socket, AnyEvent::new(1u8, "u8")),
        ControlFlow::Break(Err(Error::ServiceStopped))
    ));
}

#[test]
fn messages_reach_the_main_loop_in_order() {
    let (socket, mut rx) = open_socket();
    let mut server = ServerSocket(socket.clone());
    let client = ClientSocket(socket);
    assert!(client.notify("a".to_owned(), 1.into()).is_ok());
    let mut asked = client.clone().request("b".to_owned(), 2.into());
    assert!(client.emit(3u8, "u8").is_ok());
    let mut forwarded = server.call(AnyRequest {
        id: RequestId::String("x".to_owned()),
        method: "c".into(),
        params: 4.into(),
    });
    let notif = AnyNotification { method: "d".into(), params: 5.into() };
    assert!(matches!(LspService::notify(&mut server, notif), ControlFlow::Continue(())));

    match rx.try_recv() {
        Ok(MainLoopEvent::Outgoing(Message::Notification(notif))) => {
            assert_eq!(notif.method, "a");
            assert_eq!(notif.params, 1);
        }
        _ => panic!("a notification comes first"),
    }
    let answer = match rx.try_recv() {
        Ok(MainLoopEvent::OutgoingRequest(req, tx)) => {
            assert_eq!(req.id, RequestId::Number(0));
            assert_eq!(req.method, "b");
            assert_eq!(req.params, 2);
            tx
        }
        _ => panic!("a request comes second"),
    };
    match rx.try_recv() {
        Ok(MainLoopEvent::Any(event)) => assert_eq!(event.downcast_ref::<u8>(), Some(&3)),
        _ => panic!("an event comes third"),
    }
    let answer_forwarded = match rx.try_recv() {
        Ok(MainLoopEvent::OutgoingRequest(req, tx)) => {
            assert_eq!(req.id, RequestId::String("x".to_owned()));
            assert_eq!(req.params, 4);
            tx
        }
        _ => panic!("a request comes fourth"),
    };
    assert!(matches!(
        rx.try_recv(),
        Ok(MainLoopEvent::Outgoing(Message::Notification(notif))) if notif.method == "d"
    ));

    assert!(matches!(poll_request(&mut asked), Poll::Pending));
    let sent = answer.send(AnyResponse::new(RequestId::Number(0), Ok(7.into())));
    assert!(sent.is_ok());
    assert!(matches!(poll_request(&mut asked), Poll::Ready(Ok(value)) if value == 7));

    assert!(matches!(poll_response(&mut forwarded), Poll::Pending));
    drop(answer_forwarded);
    assert!(matches!(poll_response(&mut forwarded), Poll::Ready(Err(error))
        if error.message == "forwarding service stopped"));
}

#[test]
fn socket_of_a_stopped_main_loop_is_closed() {
    let (socket, rx) = open_socket();
    let mut fut = socket.request("m".to_owned(), null());
    assert!(matches!(poll_request(&mut fut), Poll::Pending));
    drop(rx);
    assert!(matches!(poll_request(&mut fut), Poll::Ready(Err(Error::ServiceStopped))));
    assert!(matches!(socket.emit((), "()"), Err(Error::ServiceStopped)));
}

#[test]
fn settled_requests() {
    let id = RequestId::Number(1);
    let error = ResponseError::new(ErrorCode(-5), "no");
    assert!(matches!(
        PeerSocketRequestFuture::settle(Some(AnyResponse::new(id.clone(), Err(error.clone())))),
        Err(Error::Response(e)) if e.code.0 == -5 && e.message == "no"
    ));
    assert!(matches!(PeerSocketRequestFuture::settle(None), Err(Error::ServiceStopped)));
    let neither = AnyResponse { id: id.clone(), result: None, error: None };
    assert!(matches!(
        PeerSocketRequestFuture::settle(Some(neither)),
        Ok(value) if value == JsonValue::Null
    ));
    let both = AnyResponse { id: id.clone(), result: Some(1.into()), error: Some(error) };
    assert!(matches!(
        PeerSocketResponseFuture::settle(Some(both)),
        Err(e) if e.code.0 == -5
    ));
    assert!(matches!(
        PeerSocketResponseFuture::settle(Some(AnyResponse::new(id, Ok(2.into())))),
        Ok(value) if value == 2
    ));
}
