use std::ops::ControlFlow;
use std::sync::atomic::{AtomicUsize, Ordering};
use std::sync::Mutex;
use std::task::Context;

use async_lsp::instrument::TracingBuilder;
use async_lsp::json::JsonValue;
use async_lsp::omni_trait::{fallback, method_not_found};
use async_lsp::panic::{
    default_handler, polled, take_error, CatchUnwindBuilder, PanicPayload, ResponseFuture,
};
use async_lsp::stdio::{check_pipe_like, nonblocking};
use async_lsp::{
    AnyEvent, AnyNotification, AnyRequest, Error, ErrorCode, LspService, Poll, RequestId,
    ResponseError, Result,
};
use tracing::callsite::{Callsite, Identifier};
use tracing::field::FieldSet;
use tracing::metadata::Kind;
use tracing::subscriber::{Interest, Subscriber};
use tracing::{Level, Metadata, Span};

struct Inner;

impl LspService for Inner {
    type Response = JsonValue;
    type Error = ResponseError;
    type Future = String;

    fn poll_ready(&mut self, _: &mut Context<'_>) -> Poll<core::result::Result<(), ResponseError>> {
        Poll::Pending
    }

    fn call(&mut self, req: AnyRequest) -> String {
        req.method
    }

    fn notify(&mut self, _: AnyNotification) -> ControlFlow<Result<()>> {
        ControlFlow::Break(Ok(()))
    }

    fn emit(&mut self, _: AnyEvent) -> ControlFlow<Result<()>> {
        ControlFlow::Continue(())
    }
}

fn request(method: &str) -> AnyRequest {
    AnyRequest { id: RequestId::Number(1), method: method.into(), params: JsonValue::Null }
}

fn notification(method: &str) -> AnyNotification {
    AnyNotification { method: method.into(), params: JsonValue::Null }
}

static SPANS: AtomicUsize = AtomicUsize::new(0);

fn count(weight: usize) -> Span {
    SPANS.fetch_add(weight, Ordering::SeqCst);
    Span::none()
}

fn ready_span() -> Span {
    count(1)
}

fn request_span(_: &AnyRequest) -> Span {
    count(10)
}

fn notification_span(_: &AnyNotification) -> Span {
    count(100)
}

fn event_span(_: &AnyEvent) -> Span {
    count(1000)
}

type Builder = TracingBuilder<
    fn() -> Span,
    fn(&AnyRequest) -> Span,
    fn(&AnyNotification) -> Span,
    fn(&AnyEvent) -> Span,
>;

#[test]
fn spans_are_made_where_they_are_configured() {
    let mut cx = Context::from_waker(futures::task::noop_waker_ref());
    let mut plain = Builder::new().build(Inner);
    assert!(matches!(plain.poll_ready(&mut cx), Poll::Pending));
    let fut = plain.call(request("m"));
    assert_eq!(fut.fut, "m");
    assert!(fut.span.is_none());
    assert!(matches!(plain.notify(notification("n")), ControlFlow::Break(Ok(()))));
    assert!(matches!(plain.emit(AnyEvent::new(0u8, "u8")), ControlFlow::Continue(())));
    assert_eq!(SPANS.load(Ordering::SeqCst), 0);

    let builder = Builder::new()
        .service_ready(ready_span)
        .request(request_span)
        .notification(notification_span)
        .event(event_span);
    let mut traced = builder.clone().layer(Inner);
    assert!(matches!(traced.poll_ready(&mut cx), Poll::Pending));
    assert_eq!(SPANS.load(Ordering::SeqCst), 1);
    assert!(traced.call(request("m")).span.is_some());
    assert_eq!(SPANS.load(Ordering::SeqCst), 11);
    assert!(matches!(traced.notify(notification("n")), ControlFlow::Break(Ok(()))));
    assert_eq!(SPANS.load(Ordering::SeqCst), 111);
    assert!(matches!(traced.emit(AnyEvent::new(0u8, "u8")), ControlFlow::Continue(())));
    assert_eq!(SPANS.load(Ordering::SeqCst), 1111);
    let _: (&Inner, ()) = (traced.get_ref(), ());
    let _: &mut Inner = traced.get_mut();
    let _: Inner = traced.into_inner();
}

static LOG: Mutex<Vec<&'static str>> = Mutex::new(Vec::new());

fn log(entry: &'static str) {
    LOG.lock().unwrap().push(entry);
}

struct Site;

impl Callsite for Site {
    fn set_interest(&self, _: Interest) {}

    fn metadata(&self) -> &Metadata<'_> {
        &META
    }
}

static SITE: Site = Site;

static META: Metadata<'static> = Metadata::new(
    "span",
    "layers",
    Level::INFO,
    None,
    None,
    None,
    FieldSet::new(&[], Identifier(&SITE)),
    Kind::SPAN,
);

/// Logs when spans are entered and left.
struct Logger;

impl Subscriber for Logger {
    fn enabled(&self, _: &Metadata<'_>) -> bool {
        true
    }

    fn new_span(&self, _: &tracing::span::Attributes<'_>) -> tracing::Id {
        tracing::Id::from_u64(1)
    }

    fn record(&self, _: &tracing::Id, _: &tracing::span::Record<'_>) {}

    fn record_follows_from(&self, _: &tracing::Id, _: &tracing::Id) {}

    fn event(&self, _: &tracing::Event<'_>) {}

    fn enter(&self, _: &tracing::Id) {
        log("enter");
    }

    fn exit(&self, _: &tracing::Id) {
        log("leave");
    }
}

/// Logs what it is handed.
struct Logging;

impl LspService for Logging {
    type Response = JsonValue;
    type Error = ResponseError;
    type Future = ();

    fn poll_ready(&mut self, _: &mut Context<'_>) -> Poll<core::result::Result<(), ResponseError>> {
        log("ready");
        Poll::Ready(Ok(()))
    }

    fn call(&mut self, _: AnyRequest) {}

    fn notify(&mut self, _: AnyNotification) -> ControlFlow<Result<()>> {
        log("notification");
        ControlFlow::Continue(())
    }

    fn emit(&mut self, _: AnyEvent) -> ControlFlow<Result<()>> {
        log("event");
        ControlFlow::Continue(())
    }
}

fn logged_span() -> Span {
    Span::new(&META, &META.fields().value_set(&[]))
}

#[test]
fn handlers_run_inside_their_spans() {
    let mut cx = Context::from_waker(futures::task::noop_waker_ref());
    tracing::subscriber::with_default(Logger, || {
        let mut traced = Builder::new()
            .service_ready(logged_span)
            .notification(|_| logged_span())
            .event(|_| logged_span())
            .build(Logging);
        assert!(matches!(traced.poll_ready(&mut cx), Poll::Ready(Ok(()))));
        assert!(matches!(traced.notify(notification("n")), ControlFlow::Continue(())));
        assert!(matches!(traced.emit(AnyEvent::new(0u8, "u8")), ControlFlow::Continue(())));
    });
    assert_eq!(
        *LOG.lock().unwrap(),
        vec![
            "enter",
            "ready",
            "leave",
            "enter",
            "notification",
            "leave",
            "enter",
            "event",
            "leave"
        ]
    );
}

#[test]
fn panics_are_reported_with_their_text() {
    let error = default_handler("m", PanicPayload::Text("formatted".to_owned()));
    assert_eq!(error.code.0, ErrorCode::INTERNAL_ERROR);
    assert_eq!(error.message, "Request handler of m panicked: formatted");
    assert!(error.data.is_none());
    let error = default_handler("a/b", PanicPayload::Literal("constant"));
    assert_eq!(error.message, "Request handler of a/b panicked: constant");
    let error = default_handler("foo", PanicPayload::Shown(42i32.to_string()));
    assert_eq!(error.code, ErrorCode(-32603));
    assert_eq!(error.message, "Request handler of foo panicked: 42");
    let error = default_handler("m", PanicPayload::Other);
    assert_eq!(error.message, "Request handler of m panicked: unknown");
}

#[test]
fn caught_panics_become_responses() {
    let handler: fn(&str, PanicPayload) -> ResponseError = default_handler;
    let catching = CatchUnwindBuilder::new_with_handler(handler).clone().layer(Inner);
    match catching.called::<PanicPayload, u8>("m".to_owned(), Ok(7)) {
        ResponseFuture::Future { fut, method, .. } => {
            assert_eq!(fut, 7);
            assert_eq!(method, "m");
        }
        ResponseFuture::Ready { .. } => panic!("the call went well"),
    }
    match catching.called::<PanicPayload, u8>("m".to_owned(), Err(PanicPayload::Other)) {
        ResponseFuture::Ready { mut err } => {
            let error = take_error(&mut err);
            assert_eq!(error.message, "Request handler of m panicked: unknown");
            assert!(err.is_none());
        }
        ResponseFuture::Future { .. } => panic!("the call panicked"),
    }
}

#[test]
fn outcomes_are_asked_for_under_guard() {
    let handler: fn(&str, PanicPayload) -> ResponseError = default_handler;
    assert!(matches!(polled(&handler, "m", Ok(Poll::Pending)), Poll::Pending));
    assert!(matches!(
        polled(&handler, "m", Ok(Poll::Ready(Ok(1.into())))),
        Poll::Ready(Ok(value)) if value == 1
    ));
    assert!(matches!(
        polled(&handler, "m", Err(PanicPayload::Literal("x"))),
        Poll::Ready(Err(error)) if error.message == "Request handler of m panicked: x"
    ));
}

#[test]
fn unimplemented_messages_of_the_protocol() {
    for optional in ["$/progress", "exit", "initialized"] {
        assert!(matches!(fallback(optional), ControlFlow::Continue(())));
    }
    assert!(matches!(
        fallback("textDocument/didOpen"),
        ControlFlow::Break(Err(Error::Routing(text)))
            if text == "Unhandled notification: textDocument/didOpen"
    ));
    let error = method_not_found("textDocument/hover");
    assert_eq!(error.code.0, ErrorCode::METHOD_NOT_FOUND);
    assert_eq!(error.message, "No such method: textDocument/hover");
}

#[test]
fn pipe_like_files() {
    for mode in [0o010644, 0o140777, 0o020620] {
        assert_eq!(check_pipe_like(mode), Ok(()));
    }
    for (mode, name) in [
        (0o100644, "RegularFile"),
        (0o040755, "Directory"),
        (0o120777, "Symlink"),
        (0o060660, "BlockDevice"),
        (0o000644, "Unknown"),
    ] {
        assert_eq!(check_pipe_like(mode), Err(format!("File type {name} is not pipe-like")));
    }
}

#[test]
fn asynchronous_mode_keeps_the_other_flags() {
    let nonblock = rustix::fs::OFlags::NONBLOCK.bits();
    assert_eq!(nonblocking(0), nonblock);
    assert_eq!(nonblocking(nonblock), nonblock);
    assert_eq!(nonblocking(1), 1 | nonblock);
}
