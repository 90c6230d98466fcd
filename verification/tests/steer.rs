use std::ops::ControlFlow;
use std::sync::Arc;
use std::task::Context;

use async_lsp::can_handle::CanHandle;
use async_lsp::steer::{FirstComeFirstServe, LspPicker, LspSteer};
use async_lsp::util::LspServiceWithCanHandle;
use async_lsp::{AnyEvent, AnyNotification, AnyRequest, LspService, Poll, RequestId, Result};

struct MockService;

impl LspService for MockService {
    type Response = ();
    type Error = ();
    type Future = core::result::Result<(), ()>;

    fn poll_ready(&mut self, _: &mut Context<'_>) -> Poll<core::result::Result<(), ()>> {
        Poll::Ready(Ok(()))
    }

    fn call(&mut self, _: AnyRequest) -> Self::Future {
        Ok(())
    }

    fn notify(&mut self, _: AnyNotification) -> ControlFlow<Result<()>> {
        ControlFlow::Continue(())
    }

    fn emit(&mut self, _: AnyEvent) -> ControlFlow<Result<()>> {
        ControlFlow::Continue(())
    }
}

impl CanHandle<AnyRequest> for MockService {
    fn can_handle(&self, _: &AnyRequest) -> bool {
        true
    }
}

impl CanHandle<AnyNotification> for MockService {
    fn can_handle(&self, _: &AnyNotification) -> bool {
        true
    }
}

impl CanHandle<AnyEvent> for MockService {
    fn can_handle(&self, _: &AnyEvent) -> bool {
        true
    }
}

struct MockPicker;

impl<T> LspPicker<T> for MockPicker {
    fn pick(&mut self, _: &AnyRequest, _: &[T]) -> usize {
        0
    }

    fn pick_notification(&mut self, _: &AnyNotification, _: &[T]) -> usize {
        0
    }

    fn pick_event(&mut self, _: &AnyEvent, _: &[T]) -> usize {
        0
    }
}

fn request(method: &str) -> AnyRequest {
    AnyRequest {
        id: RequestId::Number(1),
        method: method.into(),
        params: serde_json::Value::Null,
    }
}

fn notification(method: &str) -> AnyNotification {
    AnyNotification { method: method.into(), params: serde_json::Value::Null }
}

#[test]
fn test_lsp_steer() {
    let services = vec![MockService, MockService, MockService];
    let mut steer = LspSteer::new(services, MockPicker {});

    let _future = steer.call(request("test"));

    let _ = steer.notify(notification("test"));

    let event = AnyEvent::new(Arc::new("test event"), "Arc<&str>");
    let _ = steer.emit(event);
}

#[test]
fn test_first_come_first_serve() {
    let services = vec![MockService, MockService, MockService];
    let picker = FirstComeFirstServe;
    let mut steer = LspSteer::new(services, picker);

    let _future = steer.call(request("test"));

    let _ = steer.notify(notification("test"));

    let event = AnyEvent::new(Arc::new("test event"), "Arc<&str>");
    let _ = steer.emit(event);
}

/// A service of one method, which counts what it gets.
struct Only {
    method: &'static str,
    ready: bool,
    polled: usize,
    requests: usize,
    notifications: usize,
    events: usize,
}

impl Only {
    fn new(method: &'static str) -> Self {
        Only { method, ready: true, polled: 0, requests: 0, notifications: 0, events: 0 }
    }
}

impl LspService for Only {
    type Response = &'static str;
    type Error = &'static str;
    type Future = &'static str;

    fn poll_ready(&mut self, _: &mut Context<'_>) -> Poll<core::result::Result<(), &'static str>> {
        self.polled += 1;
        if self.ready {
            Poll::Ready(Err("ignored"))
        } else {
            Poll::Pending
        }
    }

    fn call(&mut self, _: AnyRequest) -> &'static str {
        self.requests += 1;
        self.method
    }

    fn notify(&mut self, _: AnyNotification) -> ControlFlow<Result<()>> {
        self.notifications += 1;
        ControlFlow::Continue(())
    }

    fn emit(&mut self, _: AnyEvent) -> ControlFlow<Result<()>> {
        self.events += 1;
        ControlFlow::Break(Ok(()))
    }
}

impl CanHandle<AnyRequest> for Only {
    fn can_handle(&self, req: &AnyRequest) -> bool {
        req.method == self.method
    }
}

impl CanHandle<AnyNotification> for Only {
    fn can_handle(&self, notif: &AnyNotification) -> bool {
        notif.method == self.method
    }
}

impl CanHandle<AnyEvent> for Only {
    fn can_handle(&self, event: &AnyEvent) -> bool {
        event.downcast_ref::<&'static str>() == Some(&self.method)
    }
}

fn steer_abc() -> LspSteer<Only, FirstComeFirstServe> {
    LspSteer::new(vec![Only::new("a"), Only::new("b"), Only::new("b")], FirstComeFirstServe)
}

#[test]
fn first_service_that_can_handle_gets_the_message() {
    let mut steer = steer_abc();
    assert_eq!(steer.call(request("b")), "b");
    assert!(matches!(steer.notify(notification("b")), ControlFlow::Continue(())));
    assert!(matches!(steer.emit(AnyEvent::new("b", "&str")), ControlFlow::Break(Ok(()))));
    let counts: Vec<(usize, usize, usize)> =
        steer.services.iter().map(|s| (s.requests, s.notifications, s.events)).collect();
    assert_eq!(counts, vec![(0, 0, 0), (1, 1, 1), (0, 0, 0)]);
}

#[test]
fn first_service_gets_what_none_can_handle() {
    let mut steer = steer_abc();
    assert_eq!(steer.call(request("z")), "a");
    let _ = steer.notify(notification("z"));
    let _ = steer.emit(AnyEvent::new("z", "&str"));
    assert_eq!(steer.services[0].requests, 1);
    assert_eq!(steer.services[0].notifications, 1);
    assert_eq!(steer.services[0].events, 1);
    assert_eq!(FirstComeFirstServe.pick(&request("a"), &Vec::<Only>::new()), 0);
}

#[test]
fn steer_can_handle_what_any_service_can() {
    let steer = steer_abc();
    assert!(steer.can_handle(&request("b")));
    assert!(!steer.can_handle(&request("z")));
    assert!(steer.can_handle(&notification("a")));
    assert!(!steer.can_handle(&notification("z")));
    assert!(steer.can_handle(&AnyEvent::new("b", "&str")));
    assert!(!steer.can_handle(&AnyEvent::new(1u8, "u8")));
}

#[test]
fn steer_is_ready_when_no_service_is_busy() {
    let mut cx = Context::from_waker(futures::task::noop_waker_ref());
    let mut steer = steer_abc();
    assert!(matches!(steer.poll_ready(&mut cx), Poll::Ready(Ok(()))));
    steer.services[1].ready = false;
    assert!(matches!(steer.poll_ready(&mut cx), Poll::Pending));
    let polled: Vec<usize> = steer.services.iter().map(|s| s.polled).collect();
    assert_eq!(polled, vec![2, 2, 1]);
}

#[test]
fn functions_pick_by_kind_of_message() {
    let pick_notification = |_: &AnyNotification, services: &[Only]| services.len() - 1;
    let pick_event = |_: &AnyEvent, _: &[Only]| 1usize;
    let pick_request = |req: &AnyRequest, _: &[Only]| req.method.len();
    let mut steer = LspSteer::new(
        vec![Only::new("a"), Only::new("b"), Only::new("c")],
        (pick_notification, pick_event, pick_request),
    );
    assert_eq!(steer.call(request("xy")), "c");
    let _ = steer.notify(notification("xy"));
    let _ = steer.emit(AnyEvent::new(0u8, "u8"));
    let counts: Vec<(usize, usize, usize)> =
        steer.services.iter().map(|s| (s.requests, s.notifications, s.events)).collect();
    assert_eq!(counts, vec![(0, 0, 0), (0, 0, 1), (1, 1, 0)]);
}

fn takes_any_service<S: LspServiceWithCanHandle<&'static str, &'static str>>(service: &S) -> bool {
    service.can_handle(&request("a"))
}

#[test]
fn every_service_that_can_handle_has_the_combined_trait() {
    assert!(takes_any_service(&Only::new("a")));
}
