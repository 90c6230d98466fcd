use std::ops::ControlFlow;
use std::task::Context;

use async_lsp::client_monitor::{
    after_open, already_exited, report_exit, ClientProcessExited, ClientProcessMonitorBuilder, Next,
};
use async_lsp::json::JsonValue;
use async_lsp::monitor::{check_pid, process_id, to_watch, ClientProcessMonitorLayer};
use async_lsp::socket::{MainLoopEvent, PeerSocket};
use async_lsp::{
    AnyEvent, AnyNotification, AnyRequest, ClientSocket, Error, LspService, Poll, RequestId, Result,
};
use futures::channel::mpsc::{unbounded, UnboundedReceiver};

#[derive(Default)]
struct Inner {
    seen: Vec<String>,
}

impl LspService for Inner {
    type Response = JsonValue;
    type Error = ();
    type Future = usize;

    fn poll_ready(&mut self, _: &mut Context<'_>) -> Poll<core::result::Result<(), ()>> {
        Poll::Pending
    }

    fn call(&mut self, req: AnyRequest) -> usize {
        self.seen.push(req.method);
        self.seen.len()
    }

    fn notify(&mut self, notif: AnyNotification) -> ControlFlow<Result<()>> {
        self.seen.push(notif.method);
        ControlFlow::Break(Ok(()))
    }

    fn emit(&mut self, _: AnyEvent) -> ControlFlow<Result<()>> {
        self.seen.push("event".to_owned());
        ControlFlow::Continue(())
    }
}

fn client() -> (ClientSocket, UnboundedReceiver<MainLoopEvent>) {
    let (tx, rx) = unbounded();
    (ClientSocket(PeerSocket { tx }), rx)
}

fn request(method: &str, params: JsonValue) -> AnyRequest {
    AnyRequest { id: RequestId::Number(1), method: method.into(), params }
}

fn with_process_id(value: JsonValue) -> JsonValue {
    let mut params = serde_json::Map::new();
    params.insert("processId".to_owned(), value);
    params.into()
}

fn no_such_process() -> i32 {
    rustix::io::Errno::SRCH.raw_os_error()
}

#[test]
fn client_process_is_watched_from_initialize_on() {
    let monitor = ClientProcessMonitorBuilder::new(client().0).layer(Inner::default());
    let initialize = request("initialize", JsonValue::Null);
    assert_eq!(monitor.to_watch(&initialize, Some(5)), Some(5));
    assert_eq!(monitor.to_watch(&initialize, None), None);
    assert_eq!(monitor.to_watch(&request("shutdown", JsonValue::Null), Some(5)), None);
}

#[test]
fn exit_of_the_client_is_reported_and_ends_the_loop() {
    let (socket, mut rx) = client();
    let mut monitor = ClientProcessMonitorBuilder::new(socket.clone()).layer(Inner::default());

    assert!(matches!(monitor.opened(None), (Next::Wait, None)));
    assert!(matches!(monitor.opened(Some(None)), (Next::Fail, None)));
    assert!(matches!(monitor.opened(Some(Some(no_such_process() + 1))), (Next::Fail, None)));
    match monitor.opened(Some(Some(no_such_process()))) {
        (Next::Exited, Some(report)) => assert!(socket.0.send(report).is_ok()),
        _ => panic!("the exit is to be reported"),
    }
    report_exit(&socket);
    for _ in 0..2 {
        let event = match rx.try_recv() {
            Ok(MainLoopEvent::Any(event)) => event,
            _ => panic!("the exit is reported"),
        };
        assert!(event.is::<ClientProcessExited>());
        assert!(matches!(
            monitor.emit(event),
            ControlFlow::Break(Err(Error::Protocol(text))) if text == "Client process exited"
        ));
    }
    assert!(monitor.service.seen.is_empty());
}

#[test]
fn monitor_forwards_everything_else() {
    let mut cx = Context::from_waker(futures::task::noop_waker_ref());
    let mut monitor =
        ClientProcessMonitorBuilder::new(ClientSocket::new_closed()).layer(Inner::default());
    assert!(matches!(monitor.poll_ready(&mut cx), Poll::Pending));
    assert_eq!(monitor.call(request("initialize", with_process_id(1.into()))), 1);
    let notif = AnyNotification { method: "n".into(), params: JsonValue::Null };
    assert!(matches!(monitor.notify(notif), ControlFlow::Break(Ok(()))));
    let other = AnyEvent::new("ClientProcessExited", "&str");
    assert!(matches!(monitor.emit(other), ControlFlow::Continue(())));
    assert_eq!(monitor.service.seen, vec!["initialize", "n", "event"]);
}

#[test]
fn error_that_a_process_does_not_exist() {
    assert!(already_exited(Some(no_such_process())));
    assert!(!already_exited(Some(no_such_process() + 1)));
    assert!(!already_exited(None));
}

#[test]
fn process_id_in_the_parameters() {
    assert_eq!(process_id(&with_process_id(123.into())), Some(123));
    assert_eq!(process_id(&with_process_id((-1).into())), Some(-1));
    assert_eq!(process_id(&with_process_id(i64::from(i32::MAX).into())), Some(i32::MAX));
    assert_eq!(process_id(&with_process_id((i64::from(i32::MAX) + 1).into())), None);
    assert_eq!(process_id(&with_process_id((i64::from(i32::MIN) - 1).into())), None);
    assert_eq!(process_id(&with_process_id(JsonValue::Null)), None);
    assert_eq!(process_id(&with_process_id("1".into())), None);
    assert_eq!(process_id(&JsonValue::Null), None);
    assert_eq!(process_id(&vec![1].into()), None);
}

#[test]
fn waiting_for_a_process() {
    assert_eq!(check_pid(1), Ok(1));
    assert_eq!(check_pid(0), Err("Invalid PID 0".to_owned()));
    assert_eq!(check_pid(-7), Err("Invalid PID -7".to_owned()));
    assert_eq!(after_open(None), Next::Wait);
    assert_eq!(after_open(Some(Some(no_such_process()))), Next::Exited);
    assert_eq!(after_open(Some(Some(no_such_process() + 1))), Next::Fail);
    assert_eq!(after_open(Some(None)), Next::Fail);
}

#[test]
fn asynchronous_monitor_reports_and_forwards() {
    let mut cx = Context::from_waker(futures::task::noop_waker_ref());
    let (socket, mut rx) = client();
    let mut monitor = ClientProcessMonitorLayer::new(socket.clone()).layer(Inner::default());
    let initialize = request("initialize", with_process_id(9.into()));
    assert_eq!(to_watch(&initialize), Some(9));
    assert_eq!(to_watch(&request("other", with_process_id(9.into()))), None);
    assert!(matches!(monitor.poll_ready(&mut cx), Poll::Pending));
    assert_eq!(monitor.call(initialize), 1);
    async_lsp::monitor::report_exit(&socket);
    match rx.try_recv() {
        Ok(MainLoopEvent::Any(event)) => assert!(matches!(
            monitor.emit(event),
            ControlFlow::Break(Err(Error::Protocol(text))) if text == "Client process exited"
        )),
        _ => panic!("the exit is reported"),
    }
    assert!(matches!(monitor.emit(AnyEvent::new(0u8, "u8")), ControlFlow::Continue(())));
}
