//! Incoming request multiplexing limits and cancellation.
//!
//! *Applies to both Language Servers and Language Clients.*
//!
//! The main loop can drive multiple ongoing requests out of the box, while this middleware provides
//! these additional features:
//! 1. Limit concurrent incoming requests to at most `max_concurrency`.
//! 2. Cancellation of incoming requests via client notification `$/cancelRequest`.
use std::ops::ControlFlow;
use std::task::{Context, Waker};

use futures::stream::{AbortHandle, AbortRegistration, Abortable, Aborted};
use vstd::prelude::*;

use crate::error::{ErrorCode, ResponseError, Result};
use crate::event::AnyEvent;
use crate::json::{cancel_id, json_cancel_id, JsonValue};
use crate::key_map::KeyMap;
use crate::message::{AnyNotification, AnyRequest, RequestId, RequestIdView};
use crate::permit::{
    abort_task, aborted, found_aborted, held, is_live, marked, paired, registered, returned, took,
    woken, wraps, Back, OnFinish, Over, Registered, Semaphore,
};
use crate::service::{LspService, Poll};
use crate::text::str_eq;

verus! {

/// The method of the notification that cancels a request.
pub const CANCEL: &'static str = "$/cancelRequest";

/// The pending outcome of a request to [`Concurrency`].
#[verifier::reject_recursive_types(Fut)]
pub struct ResponseFuture<Fut> {
    /// The pending outcome of the inner service, until it is aborted.
    pub fut: Abortable<Fut>,
    /// What is due at the end of the request.
    pub on_finish: OnFinish,
}

/// What a request comes to, given what came of its abortable future.
pub fn response(
    polled: Poll<
        core::result::Result<core::result::Result<JsonValue, ResponseError>, Aborted>,
    >,
) -> (ready: Poll<core::result::Result<JsonValue, ResponseError>>)
    ensures
        match polled {
            Poll::Pending => ready is Pending,
            Poll::Ready(Ok(outcome)) => ready == Poll::Ready(outcome),
            Poll::Ready(Err(_)) => ready matches Poll::Ready(Err(error)) && error.says(
                ErrorCode::REQUEST_CANCELLED,
                "Client cancelled the request"@,
            ),
        },
{
    match polled {
        Poll::Pending => Poll::Pending,
        Poll::Ready(Ok(outcome)) => Poll::Ready(outcome),
        Poll::Ready(Err(_)) => Poll::Ready(
            Err(
                ResponseError::of(
                    ErrorCode::REQUEST_CANCELLED,
                    "Client cancelled the request".to_owned(),
                ),
            ),
        ),
    }
}

/// The middleware for incoming request multiplexing limits and cancellation.
///
/// See the documentation of the module for details.
pub struct Concurrency<S> {
    /// The inner service.
    pub service: S,
    /// The number of requests that may be ongoing at once.
    pub max_concurrency: usize,
    /// The semaphore of which each ongoing request holds a token.
    pub semaphore: Semaphore,
    /// The handles of ongoing requests, and of some that are over and not purged yet.
    pub ongoing: KeyMap<RequestId, AbortHandle>,
}

impl<S> Concurrency<S> {
    /// With this number of holders, which are the tokens and the semaphore itself, there is no
    /// place for another request.
    pub open spec fn full(self, holders: usize) -> bool {
        holders > self.max_concurrency
    }

    /// This number of holders was found in the end: at first, where there is place for another
    /// request with it, and else once more, after the task at hand was registered.
    pub open spec fn counts(self, holders: usize) -> bool {
        ||| held(self.semaphore.waker, None, holders) && !self.full(holders)
        ||| exists|first: usize, mark: Registered|
            {
                &&& #[trigger] held(self.semaphore.waker, None, first)
                &&& self.full(first)
                &&& #[trigger] held(self.semaphore.waker, Some(mark), holders)
            }
    }

    /// Gives a reference to the inner service.
    #[must_use]
    pub fn get_ref(&self) -> (service: &S)
        ensures
            *service == self.service,
    {
        &self.service
    }

    /// Gives a mutable reference to the inner service.
    #[must_use]
    pub fn get_mut(&mut self) -> (service: &mut S)
        ensures
            *service == old(self).service,
            *final(self) == (Concurrency { service: *final(service), ..*old(self) }),
    {
        &mut self.service
    }

    /// Gives up the middleware and returns the inner service.
    #[must_use]
    pub fn into_inner(self) -> (service: S)
        ensures
            service == self.service,
    {
        self.service
    }

    /// The middleware but for its inner service and the handles has not changed.
    pub open spec fn same_limits(self, other: Self) -> bool {
        &&& self.max_concurrency == other.max_concurrency
        &&& self.semaphore == other.semaphore
    }

    /// `kept` is what may be left of the handles before another one joins them: those of requests
    /// that are over are purged once there are twice as many handles as requests at once.
    pub open spec fn purges(self, kept: Map<RequestIdView, AbortHandle>) -> bool {
        if self.ongoing@.dom().len() >= 2 * self.max_concurrency {
            KeyMap::<RequestId, AbortHandle>::retains(self.ongoing@, is_live, kept)
        } else {
            kept == self.ongoing@
        }
    }
}

impl<S: LspService<Response = JsonValue, Error = ResponseError>> Concurrency<S> {
    /// Asked whether it is ready, the middleware may answer `ready`, where this number of holders
    /// of the semaphore was found. The inner service is not asked.
    pub open spec fn polls_seeing(
        pre: Self,
        post: Self,
        ready: Poll<core::result::Result<(), ResponseError>>,
        holders: usize,
    ) -> bool {
        &&& post == pre
        &&& pre.counts(holders)
        &&& if pre.full(holders) {
            ready is Pending
        } else {
            ready == Poll::Ready(Ok::<(), ResponseError>(()))
        }
    }

    /// Handed a request, the middleware may answer `fut`, where these handles are left before that
    /// of the request joins them. The inner service is handed the request, and what it answers can
    /// be aborted through the handle.
    pub open spec fn calls_keeping(
        pre: Self,
        req: AnyRequest,
        post: Self,
        fut: ResponseFuture<S::Future>,
        kept: Map<RequestIdView, AbortHandle>,
    ) -> bool {
        &&& post.same_limits(pre)
        &&& fut.on_finish.token == pre.semaphore.waker
        &&& pre.purges(kept)
        &&& post.ongoing@ == kept.insert(req.id@, fut.on_finish.handle)
        &&& exists|inner: S::Future, reg: AbortRegistration|
            {
                &&& #[trigger] S::calls(pre.service, req, post.service, inner)
                &&& #[trigger] paired(fut.on_finish.handle, reg)
                &&& wraps(fut.fut, inner, reg)
            }
    }
}

impl<S: LspService<Response = JsonValue, Error = ResponseError>> LspService for Concurrency<S> {
    type Response = JsonValue;

    type Error = ResponseError;

    type Future = ResponseFuture<S::Future>;

    open spec fn can_call(self, req: AnyRequest) -> bool {
        self.service.can_call(req)
    }

    open spec fn can_notify(self, notif: AnyNotification) -> bool {
        notif.method@ == CANCEL@ || self.service.can_notify(notif)
    }

    open spec fn can_emit(self, event: AnyEvent) -> bool {
        self.service.can_emit(event)
    }

    open spec fn polls(
        pre: Self,
        post: Self,
        ready: Poll<core::result::Result<(), ResponseError>>,
    ) -> bool {
        exists|holders: usize| #[trigger] Self::polls_seeing(pre, post, ready, holders)
    }

    open spec fn calls(pre: Self, req: AnyRequest, post: Self, fut: Self::Future) -> bool {
        exists|kept: Map<RequestIdView, AbortHandle>| #[trigger]
            Self::calls_keeping(pre, req, post, fut, kept)
    }

    open spec fn notifies(
        pre: Self,
        notif: AnyNotification,
        post: Self,
        flow: ControlFlow<Result<()>>,
    ) -> bool {
        &&& post.same_limits(pre)
        &&& if notif.method@ == CANCEL@ {
            &&& flow == ControlFlow::<Result<()>>::Continue(())
            &&& post.service == pre.service
            &&& match json_cancel_id(notif.params) {
                Some(id) => {
                    &&& post.ongoing@ == pre.ongoing@.remove(id)
                    &&& pre.ongoing@.contains_key(id) ==> aborted(pre.ongoing@[id])
                },
                None => post.ongoing@ == pre.ongoing@,
            }
        } else {
            &&& S::notifies(pre.service, notif, post.service, flow)
            &&& post.ongoing == pre.ongoing
        }
    }

    open spec fn emits(
        pre: Self,
        event: AnyEvent,
        post: Self,
        flow: ControlFlow<Result<()>>,
    ) -> bool {
        &&& S::emits(pre.service, event, post.service, flow)
        &&& post.same_limits(pre)
        &&& post.ongoing == pre.ongoing
    }

    fn poll_ready(&mut self, cx: &mut Context<'_>) -> (ready: Poll<
        core::result::Result<(), ResponseError>,
    >)
        ensures
            exists|first: usize|
                {
                    &&& #[trigger] held(old(self).semaphore.waker, None, first)
                    &&& if old(self).full(first) {
                        exists|mark: Registered, holders: usize|
                            {
                                &&& #[trigger] registered(old(self).semaphore.waker, *old(cx), mark)
                                &&& #[trigger] held(
                                    old(self).semaphore.waker,
                                    Some(mark),
                                    holders,
                                )
                                &&& ready is Pending <==> old(self).full(holders)
                            }
                    } else {
                        ready is Ready
                    }
                },
    {
        let mut holders: usize = self.semaphore.holders();
        let ghost first = holders;
        assert(held(self.semaphore.waker, None, first));
        if holders > self.max_concurrency {
            holders = self.semaphore.holders_once_registered(&*cx);
        }
        let ready = if holders > self.max_concurrency {
            Poll::Pending
        } else {
            Poll::Ready(Ok(()))
        };
        assert(Self::polls_seeing(*old(self), *self, ready, holders));
        ready
    }

    fn call(&mut self, req: AnyRequest) -> (fut: Self::Future) {
        let token = self.semaphore.token();
        let new_pair = AbortHandle::new_pair;
        let (handle, reg) = new_pair();
        // The handles of requests that are over are purged when there are twice as many handles as
        // requests at once, so that at least half of them go.
        if self.ongoing.len() / 2 >= self.max_concurrency {
            self.ongoing.retain(is_live);
        }
        let ghost kept = self.ongoing@;
        self.ongoing.insert(req.id.clone(), handle.clone());

        let inner = self.service.call(req);
        let wrap = Abortable::<S::Future>::new;
        let fut = ResponseFuture { fut: wrap(inner, reg), on_finish: OnFinish { handle, token } };
        assert(S::calls(old(self).service, req, self.service, inner));
        assert(paired(fut.on_finish.handle, reg));
        assert(wraps(fut.fut, inner, reg));
        assert(Self::calls_keeping(*old(self), req, *self, fut, kept));
        fut
    }

    fn notify(&mut self, notif: AnyNotification) -> (flow: ControlFlow<Result<()>>) {
        if str_eq(notif.method.as_str(), CANCEL) {
            if let Some(id) = cancel_id(notif.params) {
                if let Some(handle) = self.ongoing.remove(&id) {
                    abort_task(&handle);
                }
            }
            ControlFlow::Continue(())
        } else {
            self.service.notify(notif)
        }
    }

    fn emit(&mut self, event: AnyEvent) -> (flow: ControlFlow<Result<()>>) {
        self.service.emit(event)
    }
}

/// The builder of [`Concurrency`].
#[derive(Debug, Clone, Copy)]
#[must_use]
pub struct ConcurrencyBuilder {
    /// The number of requests that may be ongoing at once.
    pub max_concurrency: usize,
}

/// Another name of [`ConcurrencyBuilder`], which builds a layer around a service.
pub type ConcurrencyLayer = ConcurrencyBuilder;

impl ConcurrencyBuilder {
    /// Creates the builder with a limit.
    pub fn new(max_concurrency: usize) -> (builder: Self)
        requires
            max_concurrency > 0,
        ensures
            builder.max_concurrency == max_concurrency,
    {
        ConcurrencyBuilder { max_concurrency }
    }

    /// Creates the builder with the parallelism of the machine as the limit, or 1 where it is not
    /// known.
    pub fn with_parallelism(available: Option<usize>) -> (builder: Self)
        requires
            available matches Some(parallelism) ==> parallelism > 0,
        ensures
            builder.max_concurrency == match available {
                Some(parallelism) => parallelism,
                None => 1,
            },
    {
        match available {
            Some(parallelism) => Self::new(parallelism),
            None => Self::new(1),
        }
    }

    /// Puts the middleware around a service.
    pub fn layer<S>(&self, inner: S) -> (concurrency: Concurrency<S>)
        ensures
            concurrency.service == inner,
            concurrency.max_concurrency == self.max_concurrency,
            concurrency.ongoing@ == Map::<RequestIdView, AbortHandle>::empty(),
    {
        Concurrency {
            service: inner,
            max_concurrency: self.max_concurrency,
            semaphore: Semaphore::new(),
            ongoing: KeyMap::new(),
        }
    }
}

/// A request that comes to its end is marked as over, gives back a token of the semaphore of the
/// middleware, and then wakes the task that waits there, where there is one.
pub proof fn law_end_of_a_request_wakes_who_waits<
    S: LspService<Response = JsonValue, Error = ResponseError>,
>(
    pre: Concurrency<S>,
    req: AnyRequest,
    post: Concurrency<S>,
    fut: ResponseFuture<S::Future>,
    woke: bool,
)
    requires
        Concurrency::<S>::calls(pre, req, post, fut),
        fut.on_finish.finishes(woke),
    ensures
        aborted(fut.on_finish.handle),
        exists|over: Over, back: Back, waker: Option<Waker>|
            {
                &&& marked(fut.on_finish.handle, over)
                &&& #[trigger] took(post.semaphore.waker, waker)
                &&& #[trigger] returned(post.semaphore.waker, over, back)
                &&& woke == (waker is Some)
                &&& waker matches Some(waker) ==> woken(waker, back)
            },
{
}

/// The middleware is ready exactly where there were at most `max_concurrency` holders of the
/// semaphore when it last looked, and never fails to be.
pub proof fn law_ready_with_place<S: LspService<Response = JsonValue, Error = ResponseError>>(
    pre: Concurrency<S>,
    post: Concurrency<S>,
    ready: Poll<core::result::Result<(), ResponseError>>,
)
    requires
        Concurrency::<S>::polls(pre, post, ready),
    ensures
        post == pre,
        ready is Pending || ready == Poll::Ready(Ok::<(), ResponseError>(())),
        exists|after: Option<Registered>, holders: usize|
            {
                &&& #[trigger] held(pre.semaphore.waker, after, holders)
                &&& ready is Pending <==> holders > pre.max_concurrency
                &&& ready is Pending ==> after is Some
            },
{
    let holders = choose|holders: usize| #[trigger]
        Concurrency::<S>::polls_seeing(pre, post, ready, holders);
    if held(pre.semaphore.waker, None, holders) && !pre.full(holders) {
        assert(held(pre.semaphore.waker, None, holders));
    } else {
        let (first, mark) = choose|first: usize, mark: Registered|
            {
                &&& #[trigger] held(pre.semaphore.waker, None, first)
                &&& pre.full(first)
                &&& #[trigger] held(pre.semaphore.waker, Some(mark), holders)
            };
        assert(held(pre.semaphore.waker, Some(mark), holders));
    }
}

/// Every request reaches the inner service. Its outcome can be aborted through a handle that is
/// kept under its identifier, and it holds a token of the semaphore. Of the other handles those go
/// that belong to requests that were found to be over, once there are twice as many handles as
/// requests at once, and no others.
pub proof fn law_requests_are_forwarded<S: LspService<Response = JsonValue, Error = ResponseError>>(
    pre: Concurrency<S>,
    req: AnyRequest,
    post: Concurrency<S>,
    fut: ResponseFuture<S::Future>,
    id: RequestIdView,
)
    requires
        Concurrency::<S>::calls(pre, req, post, fut),
    ensures
        exists|inner: S::Future, reg: AbortRegistration|
            {
                &&& #[trigger] S::calls(pre.service, req, post.service, inner)
                &&& #[trigger] paired(fut.on_finish.handle, reg)
                &&& wraps(fut.fut, inner, reg)
            },
        fut.on_finish.token == pre.semaphore.waker,
        post.semaphore == pre.semaphore,
        post.max_concurrency == pre.max_concurrency,
        post.ongoing@.contains_key(req.id@),
        post.ongoing@[req.id@] == fut.on_finish.handle,
        id != req.id@ && post.ongoing@.contains_key(id) ==> pre.ongoing@.contains_key(id)
            && post.ongoing@[id] == pre.ongoing@[id],
        id != req.id@ && pre.ongoing@.contains_key(id) && !post.ongoing@.contains_key(id) ==> {
            &&& found_aborted(pre.ongoing@[id], true)
            &&& pre.ongoing@.dom().len() >= 2 * pre.max_concurrency
        },
        id != req.id@ && post.ongoing@.contains_key(id) && pre.ongoing@.dom().len() >= 2
            * pre.max_concurrency ==> found_aborted(pre.ongoing@[id], false),
{
    let kept = choose|kept: Map<RequestIdView, AbortHandle>| #[trigger]
        Concurrency::<S>::calls_keeping(pre, req, post, fut, kept);
    assert(pre.purges(kept));
    if id != req.id@ && post.ongoing@.contains_key(id) && pre.ongoing@.dom().len() >= 2
        * pre.max_concurrency {
        assert(kept.contains_key(id));
        assert(pre.ongoing@.contains_key(id));
        assert(call_ensures(is_live, (&pre.ongoing@[id],), true));
    }
}

/// A cancelled request is aborted and its handle dropped, and the handles of others stay. The inner
/// service gets every notification but `$/cancelRequest`, which never ends the main loop, whatever
/// its parameters; and it gets every event.
pub proof fn law_notifications_and_events_pass<
    S: LspService<Response = JsonValue, Error = ResponseError>,
>(
    pre: Concurrency<S>,
    notif: AnyNotification,
    event: AnyEvent,
    post: Concurrency<S>,
    flow: ControlFlow<Result<()>>,
)
    ensures
        Concurrency::<S>::notifies(pre, notif, post, flow) && notif.method@ != "$/cancelRequest"@ ==> {
            &&& S::notifies(pre.service, notif, post.service, flow)
            &&& post.ongoing == pre.ongoing
            &&& post.semaphore == pre.semaphore
            &&& post.max_concurrency == pre.max_concurrency
        },
        Concurrency::<S>::notifies(pre, notif, post, flow) && notif.method@ == "$/cancelRequest"@ ==> {
            &&& flow == ControlFlow::<Result<()>>::Continue(())
            &&& post.service == pre.service
            &&& post.semaphore == pre.semaphore
            &&& post.max_concurrency == pre.max_concurrency
            &&& forall|id: RequestIdView|
                {
                    &&& json_cancel_id(notif.params) == Some(id) && pre.ongoing@.contains_key(id)
                        ==> aborted(pre.ongoing@[id])
                    &&& json_cancel_id(notif.params) == Some(id) ==> !post.ongoing@.contains_key(id)
                    &&& json_cancel_id(notif.params) != Some(id) ==> {
                        &&& post.ongoing@.contains_key(id) <==> #[trigger] pre.ongoing@.contains_key(
                            id,
                        )
                        &&& post.ongoing@.contains_key(id) ==> post.ongoing@[id] == pre.ongoing@[id]
                    }
                }
        },
        Concurrency::<S>::emits(pre, event, post, flow) ==> {
            &&& S::emits(pre.service, event, post.service, flow)
            &&& post.ongoing == pre.ongoing
            &&& post.semaphore == pre.semaphore
            &&& post.max_concurrency == pre.max_concurrency
        },
{
}

/// The middleware asks nothing of those who use it that the inner service does not.
pub proof fn law_concurrency_asks_no_more<
    S: LspService<Response = JsonValue, Error = ResponseError>,
>(concurrency: Concurrency<S>, req: AnyRequest, notif: AnyNotification, event: AnyEvent)
    ensures
        concurrency.can_poll(),
        concurrency.service.can_call(req) ==> concurrency.can_call(req),
        concurrency.service.can_notify(notif) ==> concurrency.can_notify(notif),
        notif.method@ == "$/cancelRequest"@ ==> concurrency.can_notify(notif),
        concurrency.service.can_emit(event) ==> concurrency.can_emit(event),
{
}

/// The outcome of a request that is not aborted is that of the inner service, whatever it is; the
/// outcome of an aborted one is the error that the client cancelled it.
pub proof fn law_outcome_or_cancelled(
    outcome: core::result::Result<JsonValue, ResponseError>,
    aborted: Aborted,
    ready: Poll<core::result::Result<JsonValue, ResponseError>>,
)
    ensures
        call_ensures(response, (Poll::Ready(Ok(outcome)),), ready) ==> ready == Poll::Ready(outcome),
        call_ensures(response, (Poll::Pending,), ready) ==> ready is Pending,
        call_ensures(response, (Poll::Ready(Err(aborted)),), ready) ==> (ready matches Poll::Ready(
            Err(error),
        ) && {
            &&& error.code.0 == -32800
            &&& error.message@ == "Client cancelled the request"@
            &&& error.data is None
        }),
{
}

/// The limit that a builder was given is that of each middleware that it builds, which starts
/// without handles. By default it is the parallelism of the machine, or 1.
pub proof fn law_limit_is_the_one_given<S>(
    limit: usize,
    available: Option<usize>,
    builder: ConcurrencyBuilder,
    inner: S,
    built: Concurrency<S>,
    id: RequestIdView,
)
    ensures
        call_ensures(ConcurrencyBuilder::new, (limit,), builder) ==> builder.max_concurrency == limit,
        call_ensures(ConcurrencyBuilder::with_parallelism, (available,), builder) ==> {
            &&& available == Some(limit) ==> builder.max_concurrency == limit
            &&& available is None ==> builder.max_concurrency == 1
        },
        call_ensures(ConcurrencyBuilder::layer::<S>, (&builder, inner), built) ==> {
            &&& built.service == inner
            &&& built.max_concurrency == builder.max_concurrency
            &&& !built.ongoing@.contains_key(id)
        },
{
}

/// Reaching into the middleware changes nothing but the inner service.
pub proof fn law_access_to_the_service<S>()
    ensures
        forall|this: &mut Concurrency<S>, inner: &mut S| #[trigger]
            call_ensures(Concurrency::<S>::get_mut, (this,), inner) ==> {
                &&& *inner == this.service
                &&& final(this).service == *final(inner)
                &&& final(this).ongoing == this.ongoing
                &&& final(this).semaphore == this.semaphore
                &&& final(this).max_concurrency == this.max_concurrency
            },
{
}

} // verus!
