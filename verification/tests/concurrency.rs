use std::ops::ControlFlow;
use std::pin::Pin;
use std::sync::atomic::{AtomicUsize, Ordering};
use std::sync::Arc;
use std::task::Context;

use async_lsp::concurrency::{response, Concurrency, ConcurrencyBuilder, ResponseFuture, CANCEL};
use async_lsp::{
    AnyEvent, AnyNotification, AnyRequest, ErrorCode, LspService, Poll, RequestId, ResponseError,
    Result,
};
use futures::future::{Future, Pending, Ready};
use futures::stream::Aborted;
use futures::task::AtomicWaker;
use lsp_types::notification::Notification;

/// Answers each request at once, or never.
struct Answering {
    notified: Vec<String>,
}

type Outcome = core::result::Result<serde_json::Value, ResponseError>;

impl LspService for Answering {
    type Response = serde_json::Value;
    type Error = ResponseError;
    type Future = futures::future::Either<Ready<Outcome>, Pending<Outcome>>;

    fn poll_ready(&mut self, _: &mut Context<'_>) -> Poll<core::result::Result<(), ResponseError>> {
        Poll::Ready(Ok(()))
    }

    fn call(&mut self, req: AnyRequest) -> Self::Future {
        if req.method == "never" {
            futures::future::Either::Right(futures::future::pending())
        } else {
            futures::future::Either::Left(futures::future::ready(Ok(req.method.into())))
        }
    }

    fn notify(&mut self, notif: AnyNotification) -> ControlFlow<Result<()>> {
        self.notified.push(notif.method);
        ControlFlow::Continue(())
    }

    fn emit(&mut self, _: AnyEvent) -> ControlFlow<Result<()>> {
        ControlFlow::Break(Ok(()))
    }
}

type Fut = <Answering as LspService>::Future;

fn service(max: usize) -> Concurrency<Answering> {
    ConcurrencyBuilder::new(max).layer(Answering { notified: Vec::new() })
}

fn request(id: i32, method: &str) -> AnyRequest {
    AnyRequest {
        id: RequestId::Number(id),
        method: method.into(),
        params: serde_json::Value::Null,
    }
}

fn cancel(id: serde_json::Value) -> AnyNotification {
    let mut params = serde_json::Map::new();
    params.insert("id".to_owned(), id);
    AnyNotification { method: "$/cancelRequest".into(), params: params.into() }
}

fn poll(fut: &mut ResponseFuture<Fut>) -> Poll<Outcome> {
    let mut cx = Context::from_waker(futures::task::noop_waker_ref());
    match Pin::new(&mut fut.fut).poll(&mut cx) {
        std::task::Poll::Ready(ready) => response(Poll::Ready(ready)),
        std::task::Poll::Pending => response(Poll::Pending),
    }
}

struct CountWakes(AtomicUsize);

impl futures::task::ArcWake for CountWakes {
    fn wake_by_ref(this: &Arc<Self>) {
        this.0.fetch_add(1, Ordering::SeqCst);
    }
}

#[test]
fn cancel_method_is_that_of_the_protocol() {
    assert_eq!(CANCEL, lsp_types::notification::Cancel::METHOD);
}

#[test]
fn at_most_max_requests_at_once() {
    let wakes = Arc::new(CountWakes(AtomicUsize::new(0)));
    let waker = futures::task::waker(wakes.clone());
    let mut cx = Context::from_waker(&waker);

    let mut service = service(2);
    assert!(matches!(service.poll_ready(&mut cx), Poll::Ready(Ok(()))));
    let first = service.call(request(1, "never"));
    assert!(matches!(service.poll_ready(&mut cx), Poll::Ready(Ok(()))));
    let second = service.call(request(2, "never"));
    assert!(matches!(service.poll_ready(&mut cx), Poll::Pending));

    // A request that ends makes place for another one, and wakes the task that waits for it.
    let ResponseFuture { fut: _, on_finish } = first;
    assert_eq!(wakes.0.load(Ordering::SeqCst), 0);
    assert!(on_finish.run());
    assert_eq!(wakes.0.load(Ordering::SeqCst), 1);
    assert!(matches!(service.poll_ready(&mut cx), Poll::Ready(Ok(()))));

    let third = service.call(request(3, "never"));
    let ResponseFuture { fut: _, on_finish } = second;
    assert!(!on_finish.run());
    assert_eq!(wakes.0.load(Ordering::SeqCst), 1);
    assert!(matches!(service.poll_ready(&mut cx), Poll::Ready(Ok(()))));
    drop(third);
}

/// Notes the holders of a semaphore when it is woken.
struct CountHolders {
    semaphore: Arc<AtomicWaker>,
    seen: AtomicUsize,
}

impl futures::task::ArcWake for CountHolders {
    fn wake_by_ref(this: &Arc<Self>) {
        this.seen.store(Arc::strong_count(&this.semaphore), Ordering::SeqCst);
    }
}

#[test]
fn token_is_back_before_the_task_is_woken() {
    let mut service = service(1);
    let semaphore = service.semaphore.waker.clone();
    let counter = Arc::new(CountHolders { semaphore, seen: AtomicUsize::new(0) });
    let waker = futures::task::waker(counter.clone());
    let mut cx = Context::from_waker(&waker);
    let fut = service.call(request(1, "never"));
    assert!(matches!(service.poll_ready(&mut cx), Poll::Pending));
    assert!(fut.on_finish.run());
    // The middleware and the counter hold the semaphore, and the request does not.
    assert_eq!(counter.seen.load(Ordering::SeqCst), 2);
}

#[test]
fn nobody_is_woken_once_the_middleware_is_gone() {
    let wakes = Arc::new(CountWakes(AtomicUsize::new(0)));
    let waker = futures::task::waker(wakes.clone());
    let mut cx = Context::from_waker(&waker);

    let mut dropped = service(1);
    let fut = dropped.call(request(1, "never"));
    assert!(matches!(dropped.poll_ready(&mut cx), Poll::Pending));
    drop(dropped);
    assert!(!fut.on_finish.run());

    let mut unwrapped = service(1);
    let fut = unwrapped.call(request(1, "never"));
    assert!(matches!(unwrapped.poll_ready(&mut cx), Poll::Pending));
    let _ = unwrapped.into_inner();
    assert!(!fut.on_finish.run());

    assert_eq!(wakes.0.load(Ordering::SeqCst), 0);
}

#[test]
fn cancelled_request_is_aborted() {
    let mut service = service(4);
    let mut first = service.call(request(1, "never"));
    let mut second = service.call(request(2, "never"));
    assert!(matches!(poll(&mut first), Poll::Pending));
    assert!(matches!(service.notify(cancel(1.into())), ControlFlow::Continue(())));
    match poll(&mut first) {
        Poll::Ready(Err(error)) => {
            assert_eq!(error.code.0, ErrorCode::REQUEST_CANCELLED);
            assert_eq!(error.message, "Client cancelled the request");
            assert!(error.data.is_none());
        }
        _ => panic!("the request is cancelled"),
    }
    assert!(matches!(poll(&mut second), Poll::Pending));
    assert_eq!(service.ongoing.len(), 1);
    assert!(service.service.notified.is_empty());
}

#[test]
fn request_is_aborted_whatever_happened_before_it_was_cancelled() {
    let mut service = service(1);
    let mut cx = Context::from_waker(futures::task::noop_waker_ref());
    let mut first = service.call(request(1, "never"));
    // The handles are purged in between, and the request is still ongoing.
    for id in 2..5 {
        assert!(matches!(service.poll_ready(&mut cx), Poll::Pending));
        service.call(request(id, "quick")).on_finish.run();
        assert!(matches!(service.notify(cancel(9.into())), ControlFlow::Continue(())));
    }
    assert!(matches!(service.emit(AnyEvent::new(1u8, "u8")), ControlFlow::Break(Ok(()))));
    assert!(matches!(poll(&mut first), Poll::Pending));
    assert_eq!(service.ongoing.len(), 2);
    assert!(matches!(service.notify(cancel(1.into())), ControlFlow::Continue(())));
    assert!(matches!(poll(&mut first), Poll::Ready(Err(_))));
    assert!(service.ongoing.get(&RequestId::Number(1)).is_none());
    assert!(service.ongoing.get(&RequestId::Number(4)).is_some());
}

#[test]
fn cancelling_what_is_not_ongoing_does_nothing() {
    let mut service = service(4);
    let mut fut = service.call(AnyRequest {
        id: RequestId::String("1".to_owned()),
        method: "never".into(),
        params: serde_json::Value::Null,
    });
    assert!(matches!(service.notify(cancel(1.into())), ControlFlow::Continue(())));
    assert!(matches!(service.notify(cancel(serde_json::Value::Null)), ControlFlow::Continue(())));
    let wrong = AnyNotification { method: CANCEL.into(), params: serde_json::Value::Null };
    assert!(matches!(service.notify(wrong), ControlFlow::Continue(())));
    assert!(matches!(poll(&mut fut), Poll::Pending));
    assert_eq!(service.ongoing.len(), 1);
    assert!(matches!(service.notify(cancel("1".into())), ControlFlow::Continue(())));
    assert!(matches!(poll(&mut fut), Poll::Ready(Err(_))));
    assert_eq!(service.ongoing.len(), 0);
}

#[test]
fn finished_requests_are_purged() {
    let mut service = service(2);
    let mut kept = Vec::new();
    for id in 0..4 {
        let mut fut = service.call(request(id, "quick"));
        assert!(matches!(poll(&mut fut), Poll::Ready(Ok(value)) if value == "quick"));
        if id == 2 {
            kept.push(fut);
        } else {
            fut.on_finish.run();
        }
    }
    assert_eq!(service.ongoing.len(), 4);
    let fut = service.call(request(4, "never"));
    assert_eq!(service.ongoing.len(), 2);
    assert!(service.ongoing.get(&RequestId::Number(2)).is_some());
    assert!(service.ongoing.get(&RequestId::Number(4)).is_some());
    drop(fut);
}

#[test]
fn other_notifications_and_events_are_forwarded() {
    let mut service = service(1);
    let notif = AnyNotification { method: "x".into(), params: serde_json::Value::Null };
    assert!(matches!(service.notify(notif), ControlFlow::Continue(())));
    assert!(matches!(service.emit(AnyEvent::new(1u8, "u8")), ControlFlow::Break(Ok(()))));
    assert_eq!(service.get_ref().notified, vec!["x"]);
    service.get_mut().notified.clear();
    assert!(service.into_inner().notified.is_empty());
}

#[test]
fn response_maps_the_outcome() {
    assert!(matches!(response(Poll::Pending), Poll::Pending));
    assert!(matches!(response(Poll::Ready(Ok(Ok(3.into())))), Poll::Ready(Ok(v)) if v == 3));
    assert!(matches!(
        response(Poll::Ready(Err(Aborted))),
        Poll::Ready(Err(e)) if e.display() == "Client cancelled the request (jsonrpc error -32800)"
    ));
}

#[test]
fn default_limit_is_the_parallelism_or_one() {
    assert_eq!(ConcurrencyBuilder::with_parallelism(Some(8)).max_concurrency, 8);
    assert_eq!(ConcurrencyBuilder::with_parallelism(None).max_concurrency, 1);
}
