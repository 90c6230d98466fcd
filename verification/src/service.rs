//! The core service abstraction.
use std::ops::ControlFlow;
use std::task::Context;

use vstd::prelude::*;

use crate::error::Result;
use crate::event::AnyEvent;
use crate::message::{AnyNotification, AnyRequest};

verus! {

/// [`std::task::Context`], carried as an opaque value.
#[verifier::external_type_specification]
#[verifier::external_body]
pub struct ExContext<'a>(std::task::Context<'a>);

/// Whether a value is available yet.
#[derive(Debug)]
pub enum Poll<T> {
    /// The value is available.
    Ready(T),
    /// The value is not available yet, and the task at hand is to be woken when it is.
    Pending,
}

/// The core service abstraction, representing either a Language Server or a Language Client.
///
/// What a service does is up to its author. The functions `can_poll`, `can_call`, `can_notify` and
/// `can_emit` say what it can be asked and handed in a state, and the relations `polls`, `calls`,
/// `notifies` and `emits` say how it may answer and which state it may be left in. By default
/// nothing is asked of the caller and nothing is said of the answers.
pub trait LspService: Sized {
    /// What a successful request results in.
    type Response;

    /// What a failed request results in.
    type Error;

    /// The pending outcome of a request.
    type Future;

    /// The service, in this state, can be asked whether it is ready.
    open spec fn can_poll(self) -> bool {
        true
    }

    /// The service, in this state, can be handed the request.
    open spec fn can_call(self, req: AnyRequest) -> bool {
        true
    }

    /// The service, in this state, can be handed the notification.
    open spec fn can_notify(self, notif: AnyNotification) -> bool {
        true
    }

    /// The service, in this state, can be handed the event.
    open spec fn can_emit(self, event: AnyEvent) -> bool {
        true
    }

    /// Asked in state `pre` whether it is ready, the service may answer `ready` in state `post`.
    open spec fn polls(
        pre: Self,
        post: Self,
        ready: Poll<core::result::Result<(), Self::Error>>,
    ) -> bool {
        true
    }

    /// Handed a request in state `pre`, the service may answer `fut` in state `post`.
    open spec fn calls(pre: Self, req: AnyRequest, post: Self, fut: Self::Future) -> bool {
        true
    }

    /// Handed a notification in state `pre`, the service may answer `flow` in state `post`.
    open spec fn notifies(
        pre: Self,
        notif: AnyNotification,
        post: Self,
        flow: ControlFlow<Result<()>>,
    ) -> bool {
        true
    }

    /// Handed an event in state `pre`, the service may answer `flow` in state `post`.
    open spec fn emits(
        pre: Self,
        event: AnyEvent,
        post: Self,
        flow: ControlFlow<Result<()>>,
    ) -> bool {
        true
    }

    /// Tells whether the service is ready for a request. If not, the task at hand is woken later.
    fn poll_ready(&mut self, cx: &mut Context<'_>) -> (ready: Poll<
        core::result::Result<(), Self::Error>,
    >)
        requires
            old(self).can_poll(),
        ensures
            Self::polls(*old(self), *final(self), ready),
    ;

    /// The handler of requests. Requests are processed concurrently, by driving the answers.
    ///
    /// It is called once the service said that it is ready.
    fn call(&mut self, req: AnyRequest) -> (fut: Self::Future)
        requires
            old(self).can_call(req),
        ensures
            Self::calls(*old(self), req, *final(self), fut),
    ;

    /// The handler of notifications.
    ///
    /// Notifications are delivered in order and synchronously. This is mandatory since they can
    /// change the interpretation of later notifications or requests. The answer decides whether
    /// the main loop goes on.
    fn notify(&mut self, notif: AnyNotification) -> (flow: ControlFlow<Result<()>>)
        requires
            old(self).can_notify(notif),
        ensures
            Self::notifies(*old(self), notif, *final(self), flow),
    ;

    /// The handler of events.
    ///
    /// Events are emitted by users or middlewares through a socket. They are delivered in order
    /// and synchronously. The answer decides whether the main loop goes on.
    fn emit(&mut self, event: AnyEvent) -> (flow: ControlFlow<Result<()>>)
        requires
            old(self).can_emit(event),
        ensures
            Self::emits(*old(self), event, *final(self), flow),
    ;
}

} // verus!
