//! Attaching spans over underlying handlers.
//!
//! *Applies to both Language Servers and Language Clients.*
//!
//! This middleware attaches spans to logs in underlying implementations. Each of these is
//! instrumented where a span is configured for it:
//! - [`LspService::poll_ready`].
//! - The outcome of a request from [`LspService::call`], whenever it is asked for.
//! - [`LspService::notify`].
//! - [`LspService::emit`].
use std::ops::ControlFlow;
use std::task::Context;

use tracing::Span;
use vstd::prelude::*;

use crate::error::Result;
use crate::event::AnyEvent;
use crate::message::{AnyNotification, AnyRequest};
use crate::service::{LspService, Poll};

verus! {

/// [`tracing::Span`], carried as an opaque value.
#[verifier::external_type_specification]
#[verifier::external_body]
pub struct ExSpan(tracing::Span);

/// [`tracing::Span::in_scope`] around [`LspService::poll_ready`]: the service is asked while the
/// span is entered, and answers as it does. [`polled_inside`] tells that it was called.
#[verifier::external_body]
fn poll_inside<S: LspService>(span: Span, service: &mut S, cx: &mut Context<'_>) -> (ready: Poll<
    core::result::Result<(), S::Error>,
>)
    requires
        old(service).can_poll(),
    ensures
        S::polls(*old(service), *final(service), ready),
{
    span.in_scope(|| service.poll_ready(cx))
}

/// [`tracing::Span::in_scope`] around [`LspService::notify`]: the service is handed the
/// notification while the span is entered, and answers as it does. [`notified_inside`] tells that
/// it was called.
#[verifier::external_body]
fn notify_inside<S: LspService>(span: Span, service: &mut S, notif: AnyNotification) -> (flow:
    ControlFlow<Result<()>>)
    requires
        old(service).can_notify(notif),
    ensures
        S::notifies(*old(service), notif, *final(service), flow),
{
    span.in_scope(|| service.notify(notif))
}

/// [`tracing::Span::in_scope`] around [`LspService::emit`]: the service is handed the event while
/// the span is entered, and answers as it does. [`emitted_inside`] tells that it was called.
#[verifier::external_body]
fn emit_inside<S: LspService>(span: Span, service: &mut S, event: AnyEvent) -> (flow: ControlFlow<
    Result<()>,
>)
    requires
        old(service).can_emit(event),
    ensures
        S::emits(*old(service), event, *final(service), flow),
{
    span.in_scope(|| service.emit(event))
}

/// Inside the span, the service in state `pre` was asked whether it is ready, and answered `ready`.
pub closed spec fn polled_inside<S: LspService>(
    span: Span,
    pre: S,
    ready: Poll<core::result::Result<(), S::Error>>,
) -> bool {
    exists|service: &mut S, cx: &mut Context<'_>|
        *service == pre && #[trigger] call_ensures(poll_inside::<S>, (span, service, cx), ready)
}

/// Inside the span, the service in state `pre` was handed the notification, and answered `flow`.
pub closed spec fn notified_inside<S: LspService>(
    span: Span,
    pre: S,
    notif: AnyNotification,
    flow: ControlFlow<Result<()>>,
) -> bool {
    exists|service: &mut S|
        *service == pre && #[trigger] call_ensures(
            notify_inside::<S>,
            (span, service, notif),
            flow,
        )
}

/// Inside the span, the service in state `pre` was handed the event, and answered `flow`.
pub closed spec fn emitted_inside<S: LspService>(
    span: Span,
    pre: S,
    event: AnyEvent,
    flow: ControlFlow<Result<()>>,
) -> bool {
    exists|service: &mut S|
        *service == pre && #[trigger] call_ensures(emit_inside::<S>, (span, service, event), flow)
}

/// The builder of [`Tracing`]. It holds a maker of spans for each thing that is to be instrumented.
#[must_use]
pub struct TracingBuilder<FR, FQ, FN, FE> {
    service_ready: Option<FR>,
    request: Option<FQ>,
    notification: Option<FN>,
    event: Option<FE>,
}

/// Another name of [`TracingBuilder`], which builds a layer around a service.
pub type TracingLayer<FR, FQ, FN, FE> = TracingBuilder<FR, FQ, FN, FE>;

impl<FR: Copy, FQ: Copy, FN: Copy, FE: Copy> Clone for TracingBuilder<FR, FQ, FN, FE> {
    fn clone(&self) -> (copy: Self)
        ensures
            copy == *self,
    {
        TracingBuilder {
            service_ready: self.service_ready,
            request: self.request,
            notification: self.notification,
            event: self.event,
        }
    }
}

impl<FR, FQ, FN, FE> TracingBuilder<FR, FQ, FN, FE> {
    /// The maker of spans for [`LspService::poll_ready`].
    pub closed spec fn for_ready(self) -> Option<FR> {
        self.service_ready
    }

    /// The maker of spans for requests.
    pub closed spec fn for_request(self) -> Option<FQ> {
        self.request
    }

    /// The maker of spans for notifications.
    pub closed spec fn for_notification(self) -> Option<FN> {
        self.notification
    }

    /// The maker of spans for events.
    pub closed spec fn for_event(self) -> Option<FE> {
        self.event
    }

    /// Creates the builder with no spans configured.
    pub fn new() -> (builder: Self)
        ensures
            builder.for_ready() is None,
            builder.for_request() is None,
            builder.for_notification() is None,
            builder.for_event() is None,
    {
        TracingBuilder { service_ready: None, request: None, notification: None, event: None }
    }

    /// Sets the maker of spans for [`LspService::poll_ready`].
    pub fn service_ready(self, f: FR) -> (builder: Self)
        ensures
            builder.for_ready() == Some(f),
            builder.for_request() == self.for_request(),
            builder.for_notification() == self.for_notification(),
            builder.for_event() == self.for_event(),
    {
        TracingBuilder { service_ready: Some(f), ..self }
    }

    /// Sets the maker of spans for the outcomes of requests.
    pub fn request(self, f: FQ) -> (builder: Self)
        ensures
            builder.for_ready() == self.for_ready(),
            builder.for_request() == Some(f),
            builder.for_notification() == self.for_notification(),
            builder.for_event() == self.for_event(),
    {
        TracingBuilder { request: Some(f), ..self }
    }

    /// Sets the maker of spans for [`LspService::notify`].
    pub fn notification(self, f: FN) -> (builder: Self)
        ensures
            builder.for_ready() == self.for_ready(),
            builder.for_request() == self.for_request(),
            builder.for_notification() == Some(f),
            builder.for_event() == self.for_event(),
    {
        TracingBuilder { notification: Some(f), ..self }
    }

    /// Sets the maker of spans for [`LspService::emit`].
    pub fn event(self, f: FE) -> (builder: Self)
        ensures
            builder.for_ready() == self.for_ready(),
            builder.for_request() == self.for_request(),
            builder.for_notification() == self.for_notification(),
            builder.for_event() == Some(f),
    {
        TracingBuilder { event: Some(f), ..self }
    }
}

impl<FR: Copy, FQ: Copy, FN: Copy, FE: Copy> TracingBuilder<FR, FQ, FN, FE> {
    /// Puts the middleware, with the current configuration, around a service.
    pub fn build<S>(&self, service: S) -> (tracing: Tracing<S, FR, FQ, FN, FE>)
        ensures
            tracing.service == service,
            tracing.spans == *self,
    {
        Tracing { service, spans: self.clone() }
    }

    /// Puts the middleware around a service.
    pub fn layer<S>(&self, inner: S) -> (tracing: Tracing<S, FR, FQ, FN, FE>)
        ensures
            tracing.service == inner,
            tracing.spans == *self,
    {
        self.build(inner)
    }
}

/// The pending outcome of a request to [`Tracing`].
pub struct ResponseFuture<Fut> {
    /// The span to be in whenever the outcome is asked for.
    pub span: Option<Span>,
    /// The pending outcome of the inner service.
    pub fut: Fut,
}

/// The middleware attaching spans over underlying handlers.
///
/// See the documentation of the module for details.
pub struct Tracing<S, FR, FQ, FN, FE> {
    /// The inner service.
    pub service: S,
    /// The makers of spans.
    pub spans: TracingBuilder<FR, FQ, FN, FE>,
}

impl<S, FR, FQ, FN, FE> Tracing<S, FR, FQ, FN, FE> {
    /// Gives a reference to the inner service.
    #[must_use]
    pub fn get_ref(&self) -> (service: &S)
        ensures
            *service == self.service,
    {
        &self.service
    }

    /// Gives a mutable reference to the inner service.
    #[must_use]
    pub fn get_mut(&mut self) -> (service: &mut S)
        ensures
            *service == old(self).service,
            *final(self) == (Tracing { service: *final(service), ..*old(self) }),
    {
        &mut self.service
    }

    /// Gives up the middleware and returns the inner service.
    #[must_use]
    pub fn into_inner(self) -> (service: S)
        ensures
            service == self.service,
    {
        self.service
    }
}

impl<S: LspService, FR, FQ, FN, FE> LspService for Tracing<S, FR, FQ, FN, FE> where
    FR: Fn() -> Span,
    FQ: Fn(&AnyRequest) -> Span,
    FN: Fn(&AnyNotification) -> Span,
    FE: Fn(&AnyEvent) -> Span,
 {
    type Response = S::Response;

    type Error = S::Error;

    type Future = ResponseFuture<S::Future>;

    open spec fn can_poll(self) -> bool {
        &&& self.spans.for_ready() matches Some(f) ==> call_requires(f, ())
        &&& self.service.can_poll()
    }

    open spec fn can_call(self, req: AnyRequest) -> bool {
        &&& self.spans.for_request() matches Some(f) ==> call_requires(f, (&req,))
        &&& self.service.can_call(req)
    }

    open spec fn can_notify(self, notif: AnyNotification) -> bool {
        &&& self.spans.for_notification() matches Some(f) ==> call_requires(f, (&notif,))
        &&& self.service.can_notify(notif)
    }

    open spec fn can_emit(self, event: AnyEvent) -> bool {
        &&& self.spans.for_event() matches Some(f) ==> call_requires(f, (&event,))
        &&& self.service.can_emit(event)
    }

    open spec fn polls(
        pre: Self,
        post: Self,
        ready: Poll<core::result::Result<(), S::Error>>,
    ) -> bool {
        &&& S::polls(pre.service, post.service, ready)
        &&& post.spans == pre.spans
        &&& pre.spans.for_ready() matches Some(f) ==> exists|span: Span| #[trigger]
            call_ensures(f, (), span) && polled_inside(span, pre.service, ready)
    }

    open spec fn calls(
        pre: Self,
        req: AnyRequest,
        post: Self,
        fut: ResponseFuture<S::Future>,
    ) -> bool {
        &&& S::calls(pre.service, req, post.service, fut.fut)
        &&& post.spans == pre.spans
        &&& match pre.spans.for_request() {
            Some(f) => fut.span matches Some(span) && call_ensures(f, (&req,), span),
            None => fut.span is None,
        }
    }

    open spec fn notifies(
        pre: Self,
        notif: AnyNotification,
        post: Self,
        flow: ControlFlow<Result<()>>,
    ) -> bool {
        &&& S::notifies(pre.service, notif, post.service, flow)
        &&& post.spans == pre.spans
        &&& pre.spans.for_notification() matches Some(f) ==> exists|span: Span| #[trigger]
            call_ensures(f, (&notif,), span) && notified_inside(span, pre.service, notif, flow)
    }

    open spec fn emits(
        pre: Self,
        event: AnyEvent,
        post: Self,
        flow: ControlFlow<Result<()>>,
    ) -> bool {
        &&& S::emits(pre.service, event, post.service, flow)
        &&& post.spans == pre.spans
        &&& pre.spans.for_event() matches Some(f) ==> exists|span: Span| #[trigger]
            call_ensures(f, (&event,), span) && emitted_inside(span, pre.service, event, flow)
    }

    fn poll_ready(&mut self, cx: &mut Context<'_>) -> (ready: Poll<
        core::result::Result<(), S::Error>,
    >) {
        match &self.spans.service_ready {
            Some(f) => {
                let span = (*f)();
                let inside = poll_inside::<S>;
                let ready = inside(span, &mut self.service, cx);
                assert(polled_inside(span, old(self).service, ready));
                ready
            },
            None => self.service.poll_ready(cx),
        }
    }

    fn call(&mut self, req: AnyRequest) -> (fut: ResponseFuture<S::Future>) {
        let span = match &self.spans.request {
            Some(f) => Some((*f)(&req)),
            None => None,
        };
        ResponseFuture { span, fut: self.service.call(req) }
    }

    fn notify(&mut self, notif: AnyNotification) -> (flow: ControlFlow<Result<()>>) {
        match &self.spans.notification {
            Some(f) => {
                let span = (*f)(&notif);
                let inside = notify_inside::<S>;
                let flow = inside(span, &mut self.service, notif);
                assert(notified_inside(span, old(self).service, notif, flow));
                flow
            },
            None => self.service.notify(notif),
        }
    }

    fn emit(&mut self, event: AnyEvent) -> (flow: ControlFlow<Result<()>>) {
        match &self.spans.event {
            Some(f) => {
                let span = (*f)(&event);
                let inside = emit_inside::<S>;
                let flow = inside(span, &mut self.service, event);
                assert(emitted_inside(span, old(self).service, event, flow));
                flow
            },
            None => self.service.emit(event),
        }
    }
}

/// Spans change nothing of what the inner service is asked and answers: whether it is ready, and
/// what becomes of requests, notifications and events, is up to it, with or without a span.
pub proof fn law_spans_change_no_answer<S: LspService, FR, FQ, FN, FE>(
    pre: Tracing<S, FR, FQ, FN, FE>,
    post: Tracing<S, FR, FQ, FN, FE>,
    ready: Poll<core::result::Result<(), S::Error>>,
    req: AnyRequest,
    fut: ResponseFuture<S::Future>,
    notif: AnyNotification,
    event: AnyEvent,
    flow: ControlFlow<Result<()>>,
) where
    FR: Fn() -> Span,
    FQ: Fn(&AnyRequest) -> Span,
    FN: Fn(&AnyNotification) -> Span,
    FE: Fn(&AnyEvent) -> Span,

    ensures
        Tracing::<S, FR, FQ, FN, FE>::polls(pre, post, ready) ==> S::polls(
            pre.service,
            post.service,
            ready,
        ) && post.spans == pre.spans,
        Tracing::<S, FR, FQ, FN, FE>::calls(pre, req, post, fut) ==> S::calls(
            pre.service,
            req,
            post.service,
            fut.fut,
        ) && post.spans == pre.spans,
        Tracing::<S, FR, FQ, FN, FE>::notifies(pre, notif, post, flow) ==> S::notifies(
            pre.service,
            notif,
            post.service,
            flow,
        ) && post.spans == pre.spans,
        Tracing::<S, FR, FQ, FN, FE>::emits(pre, event, post, flow) ==> S::emits(
            pre.service,
            event,
            post.service,
            flow,
        ) && post.spans == pre.spans,
{
}

/// What a span is configured for is done inside a span that its maker made for just that message; a
/// request without a maker of spans has none.
pub proof fn law_spans_are_those_configured<S: LspService, FR, FQ, FN, FE>(
    pre: Tracing<S, FR, FQ, FN, FE>,
    post: Tracing<S, FR, FQ, FN, FE>,
    ready: Poll<core::result::Result<(), S::Error>>,
    req: AnyRequest,
    fut: ResponseFuture<S::Future>,
    notif: AnyNotification,
    event: AnyEvent,
    flow: ControlFlow<Result<()>>,
) where
    FR: Fn() -> Span,
    FQ: Fn(&AnyRequest) -> Span,
    FN: Fn(&AnyNotification) -> Span,
    FE: Fn(&AnyEvent) -> Span,

    ensures
        Tracing::<S, FR, FQ, FN, FE>::polls(pre, post, ready) ==> (
        pre.spans.for_ready() matches Some(f) ==> exists|span: Span| #[trigger]
            call_ensures(f, (), span) && polled_inside(span, pre.service, ready)),
        Tracing::<S, FR, FQ, FN, FE>::calls(pre, req, post, fut) ==> {
            &&& fut.span is Some <==> pre.spans.for_request() is Some
            &&& fut.span matches Some(span) ==> call_ensures(
                pre.spans.for_request()->Some_0,
                (&req,),
                span,
            )
        },
        Tracing::<S, FR, FQ, FN, FE>::notifies(pre, notif, post, flow) ==> (
        pre.spans.for_notification() matches Some(f) ==> exists|span: Span| #[trigger]
            call_ensures(f, (&notif,), span) && notified_inside(span, pre.service, notif, flow)),
        Tracing::<S, FR, FQ, FN, FE>::emits(pre, event, post, flow) ==> (
        pre.spans.for_event() matches Some(f) ==> exists|span: Span| #[trigger]
            call_ensures(f, (&event,), span) && emitted_inside(span, pre.service, event, flow)),
{
}

/// The middleware asks nothing of those who use it but what the inner service and the makers of
/// spans do.
pub proof fn law_tracing_asks_no_more<S: LspService, FR, FQ, FN, FE>(
    tracing: Tracing<S, FR, FQ, FN, FE>,
    req: AnyRequest,
    notif: AnyNotification,
    event: AnyEvent,
) where
    FR: Fn() -> Span,
    FQ: Fn(&AnyRequest) -> Span,
    FN: Fn(&AnyNotification) -> Span,
    FE: Fn(&AnyEvent) -> Span,

    ensures
        tracing.service.can_poll() && (forall|f: FR| #[trigger] call_requires(f, ()))
            ==> tracing.can_poll(),
        tracing.service.can_call(req) && (forall|f: FQ| #[trigger] call_requires(f, (&req,)))
            ==> tracing.can_call(req),
        tracing.service.can_notify(notif) && (forall|f: FN| #[trigger] call_requires(f, (&notif,)))
            ==> tracing.can_notify(notif),
        tracing.service.can_emit(event) && (forall|f: FE| #[trigger] call_requires(f, (&event,)))
            ==> tracing.can_emit(event),
{
}

/// A builder starts without spans, each setting is for one thing and leaves the others, and what it
/// builds has the settings that it has.
pub proof fn law_settings_of_spans<S, FR: Copy, FQ: Copy, FN: Copy, FE: Copy>(
    builder: TracingBuilder<FR, FQ, FN, FE>,
    set: TracingBuilder<FR, FQ, FN, FE>,
    for_ready: FR,
    for_request: FQ,
    for_notification: FN,
    for_event: FE,
    service: S,
    built: Tracing<S, FR, FQ, FN, FE>,
)
    ensures
        call_ensures(TracingBuilder::<FR, FQ, FN, FE>::new, (), set) ==> {
            &&& set.for_ready() is None
            &&& set.for_request() is None
            &&& set.for_notification() is None
            &&& set.for_event() is None
        },
        call_ensures(
            TracingBuilder::<FR, FQ, FN, FE>::service_ready,
            (builder, for_ready),
            set,
        ) ==> {
            &&& set.for_ready() == Some(for_ready)
            &&& set.for_request() == builder.for_request()
            &&& set.for_notification() == builder.for_notification()
            &&& set.for_event() == builder.for_event()
        },
        call_ensures(
            TracingBuilder::<FR, FQ, FN, FE>::request,
            (builder, for_request),
            set,
        ) ==> {
            &&& set.for_ready() == builder.for_ready()
            &&& set.for_request() == Some(for_request)
            &&& set.for_notification() == builder.for_notification()
            &&& set.for_event() == builder.for_event()
        },
        call_ensures(
            TracingBuilder::<FR, FQ, FN, FE>::notification,
            (builder, for_notification),
            set,
        ) ==> {
            &&& set.for_ready() == builder.for_ready()
            &&& set.for_request() == builder.for_request()
            &&& set.for_notification() == Some(for_notification)
            &&& set.for_event() == builder.for_event()
        },
        call_ensures(
            TracingBuilder::<FR, FQ, FN, FE>::event,
            (builder, for_event),
            set,
        ) ==> {
            &&& set.for_ready() == builder.for_ready()
            &&& set.for_request() == builder.for_request()
            &&& set.for_notification() == builder.for_notification()
            &&& set.for_event() == Some(for_event)
        },
        call_ensures(
            TracingBuilder::<FR, FQ, FN, FE>::layer::<S>,
            (&builder, service),
            built,
        ) || call_ensures(
            TracingBuilder::<FR, FQ, FN, FE>::build::<S>,
            (&builder, service),
            built,
        ) ==> built.service == service && built.spans == builder,
{
}

/// Reaching into the middleware changes nothing but the inner service.
pub proof fn law_access_to_the_service<S, FR, FQ, FN, FE>()
    ensures
        forall|this: &mut Tracing<S, FR, FQ, FN, FE>, inner: &mut S| #[trigger]
            call_ensures(Tracing::<S, FR, FQ, FN, FE>::get_mut, (this,), inner) ==> {
                &&& *inner == this.service
                &&& final(this).service == *final(inner)
                &&& final(this).spans == this.spans
            },
{
}

} // verus!
