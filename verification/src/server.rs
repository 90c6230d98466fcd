//! Language Server lifecycle.
//!
//! *Only applies to Language Servers.*
//!
//! This middleware handles the lifecycle of Language Servers, specifically:
//! - Exit the main loop with `ControlFlow::Break(Ok(()))` on `exit` notification.
//! - Respond to unrelated requests with errors and ignore unrelated notifications during
//!   initialization and shutting down.
use std::ops::ControlFlow;
use std::task::Context;

use vstd::prelude::*;

use crate::error::{Error, ErrorCode, ResponseError, Result};
use crate::event::AnyEvent;
use crate::message::{AnyNotification, AnyRequest};
use crate::service::{LspService, Poll};
use crate::text::{join, str_eq};

verus! {

/// The method of the request that initializes a server.
pub const INITIALIZE: &'static str = "initialize";

/// The method of the request that shuts a server down.
pub const SHUTDOWN: &'static str = "shutdown";

/// The method of the notification that tells a server that the client is initialized.
pub const INITIALIZED: &'static str = "initialized";

/// The method of the notification that makes a server exit.
pub const EXIT: &'static str = "exit";

/// Requests and notifications of the lifecycle are told apart by their methods.
proof fn lemma_methods_differ()
    ensures
        INITIALIZE@ != SHUTDOWN@,
        INITIALIZED@ != EXIT@,
{
    reveal_strlit("initialize");
    reveal_strlit("shutdown");
    reveal_strlit("initialized");
    reveal_strlit("exit");
    assert(INITIALIZE@.len() != SHUTDOWN@.len());
    assert(INITIALIZED@.len() != EXIT@.len());
}

/// How far the server has come in its life.
#[derive(Debug, Clone, Copy, PartialEq, Eq, Structural)]
pub enum State {
    /// The server has not been asked to initialize.
    Uninitialized,
    /// The server has been asked to initialize.
    Initializing,
    /// The server has been initialized.
    Ready,
    /// The server has been asked to shut down.
    ShuttingDown,
}

impl State {
    /// The position of the state in the life of the server.
    pub open spec fn rank(self) -> int {
        match self {
            State::Uninitialized => 0,
            State::Initializing => 1,
            State::Ready => 2,
            State::ShuttingDown => 3,
        }
    }

    /// The name of the state.
    pub open spec fn shown(self) -> Seq<char> {
        match self {
            State::Uninitialized => "Uninitialized"@,
            State::Initializing => "Initializing"@,
            State::Ready => "Ready"@,
            State::ShuttingDown => "ShuttingDown"@,
        }
    }

    /// Shows the state for debugging.
    fn debug(&self) -> (name: &'static str)
        ensures
            name@ == self.shown(),
    {
        match self {
            State::Uninitialized => "Uninitialized",
            State::Initializing => "Initializing",
            State::Ready => "Ready",
            State::ShuttingDown => "ShuttingDown",
        }
    }

    /// The refusal of a request of method `method`, as a code and a message, or nothing where the
    /// request reaches the server.
    pub open spec fn refusal(self, method: Seq<char>) -> Option<(i32, Seq<char>)> {
        match self {
            State::Uninitialized if method == INITIALIZE@ => None,
            State::Uninitialized | State::Initializing => Some(
                (ErrorCode::SERVER_NOT_INITIALIZED, "Server is not initialized yet"@),
            ),
            _ if method == INITIALIZE@ => Some(
                (ErrorCode::INVALID_REQUEST, "Server is already initialized"@),
            ),
            State::Ready => None,
            State::ShuttingDown => Some((ErrorCode::INVALID_REQUEST, "Server is shutting down"@)),
        }
    }

    /// The state after a request of method `method`.
    pub open spec fn after_request(self, method: Seq<char>) -> State {
        match self {
            State::Uninitialized if method == INITIALIZE@ => State::Initializing,
            State::Ready if method == SHUTDOWN@ => State::ShuttingDown,
            _ => self,
        }
    }

    /// A notification of method `method` reaches the server.
    pub open spec fn forwards(self, method: Seq<char>) -> bool {
        ||| method == EXIT@
        ||| method == INITIALIZED@ && self == State::Initializing
        ||| method != INITIALIZED@ && self == State::Ready
    }

    /// The state after a notification of method `method`.
    pub open spec fn after_notification(self, method: Seq<char>) -> State {
        if method == INITIALIZED@ && self == State::Initializing {
            State::Ready
        } else {
            self
        }
    }

    /// The state after messages of these methods, a request where the flag is set and a
    /// notification where it is not.
    pub open spec fn after_all(self, messages: Seq<(bool, Seq<char>)>) -> State
        decreases messages.len(),
    {
        if messages.len() == 0 {
            self
        } else {
            let before = self.after_all(messages.drop_last());
            let (is_request, method) = messages.last();
            if is_request {
                before.after_request(method)
            } else {
                before.after_notification(method)
            }
        }
    }
}

/// The pending outcome of a request to [`Lifecycle`].
#[derive(Debug)]
pub enum ResponseFuture<Fut> {
    /// The request reached the server.
    Forwarded(Fut),
    /// The request was refused.
    Refused(ResponseError),
}

/// The middleware handling Language Server lifecycle.
///
/// See the documentation of the module for details.
#[derive(Debug)]
pub struct Lifecycle<S> {
    /// The inner service.
    pub service: S,
    /// How far the server has come.
    pub state: State,
}

impl<S> Lifecycle<S> {
    /// Creates the middleware in uninitialized state.
    #[must_use]
    pub fn new(service: S) -> (lifecycle: Self)
        ensures
            lifecycle.service == service,
            lifecycle.state == State::Uninitialized,
    {
        Lifecycle { service, state: State::Uninitialized }
    }

    /// Gives a reference to the inner service.
    #[must_use]
    pub fn get_ref(&self) -> (service: &S)
        ensures
            *service == self.service,
    {
        &self.service
    }

    /// Gives a mutable reference to the inner service.
    #[must_use]
    pub fn get_mut(&mut self) -> (service: &mut S)
        ensures
            *service == old(self).service,
            final(self).service == *final(service),
            final(self).state == old(self).state,
    {
        &mut self.service
    }

    /// Gives up the middleware and returns the inner service.
    #[must_use]
    pub fn into_inner(self) -> (service: S)
        ensures
            service == self.service,
    {
        self.service
    }
}

impl<S: Default> Default for Lifecycle<S> {
    fn default() -> (lifecycle: Self)
        ensures
            S::default.ensures((), lifecycle.service),
            lifecycle.state == State::Uninitialized,
    {
        Lifecycle { service: S::default(), state: State::Uninitialized }
    }
}

impl<S: LspService<Error = ResponseError>> LspService for Lifecycle<S> {
    type Response = S::Response;

    type Error = ResponseError;

    type Future = ResponseFuture<S::Future>;

    open spec fn can_poll(self) -> bool {
        self.service.can_poll()
    }

    open spec fn can_call(self, req: AnyRequest) -> bool {
        self.state.refusal(req.method@) is None ==> self.service.can_call(req)
    }

    open spec fn can_notify(self, notif: AnyNotification) -> bool {
        self.state.forwards(notif.method@) ==> self.service.can_notify(notif)
    }

    open spec fn can_emit(self, event: AnyEvent) -> bool {
        self.service.can_emit(event)
    }

    open spec fn polls(
        pre: Self,
        post: Self,
        ready: Poll<core::result::Result<(), ResponseError>>,
    ) -> bool {
        &&& S::polls(pre.service, post.service, ready)
        &&& post.state == pre.state
    }

    open spec fn calls(pre: Self, req: AnyRequest, post: Self, fut: Self::Future) -> bool {
        &&& post.state == pre.state.after_request(req.method@)
        &&& match pre.state.refusal(req.method@) {
            None => {
                &&& fut matches ResponseFuture::Forwarded(inner)
                &&& S::calls(pre.service, req, post.service, inner)
            },
            Some((code, message)) => {
                &&& fut matches ResponseFuture::Refused(error)
                &&& error.says(code, message)
                &&& post.service == pre.service
            },
        }
    }

    open spec fn notifies(
        pre: Self,
        notif: AnyNotification,
        post: Self,
        flow: ControlFlow<Result<()>>,
    ) -> bool {
        &&& post.state == pre.state.after_notification(notif.method@)
        &&& if pre.state.forwards(notif.method@) {
            exists|answer: ControlFlow<Result<()>>|
                {
                    &&& #[trigger] S::notifies(pre.service, notif, post.service, answer)
                    &&& if notif.method@ == EXIT@ && answer is Continue {
                        flow == ControlFlow::<Result<()>>::Break(Ok(()))
                    } else {
                        flow == answer
                    }
                }
        } else {
            &&& post.service == pre.service
            &&& if notif.method@ == INITIALIZED@ {
                flow matches ControlFlow::Break(Err(Error::Protocol(text))) && text@
                    == "Unexpected initialized notification on state "@ + pre.state.shown()
            } else {
                flow == ControlFlow::<Result<()>>::Continue(())
            }
        }
    }

    open spec fn emits(
        pre: Self,
        event: AnyEvent,
        post: Self,
        flow: ControlFlow<Result<()>>,
    ) -> bool {
        &&& S::emits(pre.service, event, post.service, flow)
        &&& post.state == pre.state
    }

    fn poll_ready(&mut self, cx: &mut Context<'_>) -> (ready: Poll<
        core::result::Result<(), ResponseError>,
    >) {
        self.service.poll_ready(cx)
    }

    fn call(&mut self, req: AnyRequest) -> (fut: Self::Future) {
        proof {
            lemma_methods_differ();
        }
        if str_eq(req.method.as_str(), INITIALIZE) {
            match self.state {
                State::Uninitialized => {
                    self.state = State::Initializing;
                    ResponseFuture::Forwarded(self.service.call(req))
                },
                State::Initializing => ResponseFuture::Refused(
                    ResponseError::of(
                        ErrorCode::SERVER_NOT_INITIALIZED,
                        "Server is not initialized yet".to_owned(),
                    ),
                ),
                State::Ready | State::ShuttingDown => ResponseFuture::Refused(
                    ResponseError::of(
                        ErrorCode::INVALID_REQUEST,
                        "Server is already initialized".to_owned(),
                    ),
                ),
            }
        } else {
            match self.state {
                State::Uninitialized | State::Initializing => ResponseFuture::Refused(
                    ResponseError::of(
                        ErrorCode::SERVER_NOT_INITIALIZED,
                        "Server is not initialized yet".to_owned(),
                    ),
                ),
                State::Ready => {
                    if str_eq(req.method.as_str(), SHUTDOWN) {
                        self.state = State::ShuttingDown;
                    }
                    ResponseFuture::Forwarded(self.service.call(req))
                },
                State::ShuttingDown => ResponseFuture::Refused(
                    ResponseError::of(
                        ErrorCode::INVALID_REQUEST,
                        "Server is shutting down".to_owned(),
                    ),
                ),
            }
        }
    }

    fn notify(&mut self, notif: AnyNotification) -> (flow: ControlFlow<Result<()>>) {
        proof {
            lemma_methods_differ();
        }
        if str_eq(notif.method.as_str(), EXIT) {
            let answer = self.service.notify(notif);
            assert(S::notifies(old(self).service, notif, self.service, answer));
            match answer {
                ControlFlow::Continue(()) => ControlFlow::Break(Ok(())),
                ControlFlow::Break(ret) => ControlFlow::Break(ret),
            }
        } else if str_eq(notif.method.as_str(), INITIALIZED) {
            if self.state != State::Initializing {
                let text = join(
                    "Unexpected initialized notification on state ",
                    self.state.debug(),
                );
                ControlFlow::Break(Err(Error::Protocol(text)))
            } else {
                self.state = State::Ready;
                let answer = self.service.notify(notif);
                assert(S::notifies(old(self).service, notif, self.service, answer));
                answer
            }
        } else if self.state == State::Ready {
            let answer = self.service.notify(notif);
            assert(S::notifies(old(self).service, notif, self.service, answer));
            answer
        } else {
            ControlFlow::Continue(())
        }
    }

    fn emit(&mut self, event: AnyEvent) -> (flow: ControlFlow<Result<()>>) {
        self.service.emit(event)
    }
}

/// The builder of [`Lifecycle`].
#[derive(Debug, Clone, Copy, Default)]
#[must_use]
pub struct LifecycleLayer {}

impl LifecycleLayer {
    /// Puts the middleware around a service.
    pub fn layer<S>(&self, inner: S) -> (lifecycle: Lifecycle<S>)
        ensures
            lifecycle.service == inner,
            lifecycle.state == State::Uninitialized,
    {
        Lifecycle::new(inner)
    }
}

/// The `k`-th of the messages that a new server gets is a request that reaches it.
pub open spec fn reaches(messages: Seq<(bool, Seq<char>)>, k: int) -> bool {
    let (is_request, method) = messages[k];
    &&& 0 <= k < messages.len()
    &&& is_request
    &&& State::Uninitialized.after_all(messages.take(k)).refusal(method) is None
}

/// The state never goes back, whatever messages come.
pub proof fn law_state_never_goes_back(state: State, messages: Seq<(bool, Seq<char>)>, k: int)
    requires
        0 <= k <= messages.len(),
    ensures
        state.rank() <= state.after_all(messages.take(k)).rank() <= state.after_all(
            messages,
        ).rank(),
    decreases messages.len(),
{
    if messages.len() > 0 {
        if k == messages.len() {
            assert(messages.take(k) =~= messages);
            law_state_never_goes_back(state, messages.drop_last(), k - 1);
        } else {
            assert(messages.drop_last().take(k) =~= messages.take(k));
            law_state_never_goes_back(state, messages.drop_last(), k);
        }
    } else {
        assert(messages.take(k) =~= messages);
    }
}

/// How the state after `k + 1` messages comes from that after `k`.
proof fn lemma_next_state(messages: Seq<(bool, Seq<char>)>, k: int)
    requires
        0 <= k < messages.len(),
    ensures
        State::Uninitialized.after_all(messages.take(k + 1)) == ({
            let before = State::Uninitialized.after_all(messages.take(k));
            if messages[k].0 {
                before.after_request(messages[k].1)
            } else {
                before.after_notification(messages[k].1)
            }
        }),
{
    assert(messages.take(k + 1).drop_last() =~= messages.take(k));
}

/// If the server has left its first state, an `initialize` request reached it.
proof fn lemma_initialize_reached(messages: Seq<(bool, Seq<char>)>, k: int) -> (i: int)
    requires
        0 <= k <= messages.len(),
        State::Uninitialized.after_all(messages.take(k)) != State::Uninitialized,
    ensures
        0 <= i < k,
        reaches(messages, i),
        messages[i].1 == INITIALIZE@,
    decreases k,
{
    lemma_methods_differ();
    if k == 0 {
        assert(messages.take(0).len() == 0);
        0
    } else {
        lemma_next_state(messages, k - 1);
        if State::Uninitialized.after_all(messages.take(k - 1)) == State::Uninitialized {
            k - 1
        } else {
            lemma_initialize_reached(messages, k - 1)
        }
    }
}

/// The first request that reaches a server is `initialize`: before any other request that reaches
/// it, an `initialize` request did.
pub proof fn law_initialize_comes_first(messages: Seq<(bool, Seq<char>)>, k: int)
    requires
        reaches(messages, k),
        messages[k].1 != INITIALIZE@,
    ensures
        exists|i: int| 0 <= i < k && #[trigger] reaches(messages, i) && messages[i].1 == INITIALIZE@,
{
    let i = lemma_initialize_reached(messages, k);
    assert(reaches(messages, i));
}

/// At most one `initialize` request ever reaches a server.
pub proof fn law_initialize_once(messages: Seq<(bool, Seq<char>)>, i: int, k: int)
    requires
        reaches(messages, i),
        reaches(messages, k),
        messages[i].1 == INITIALIZE@,
        messages[k].1 == INITIALIZE@,
    ensures
        i == k,
{
    let (first, second) = if i <= k {
        (i, k)
    } else {
        (k, i)
    };
    lemma_next_state(messages, first);
    if first < second {
        law_state_never_goes_back(State::Uninitialized, messages.take(second), first + 1);
        assert(messages.take(second).take(first + 1) =~= messages.take(first + 1));
    }
}

/// Once a `shutdown` request has reached a server, no request reaches it any more.
pub proof fn law_nothing_after_shutdown(messages: Seq<(bool, Seq<char>)>, i: int, k: int)
    requires
        reaches(messages, i),
        messages[i].1 == SHUTDOWN@,
        i < k,
    ensures
        !reaches(messages, k),
{
    lemma_methods_differ();
    lemma_next_state(messages, i);
    if k < messages.len() {
        law_state_never_goes_back(State::Uninitialized, messages.take(k), i + 1);
        assert(messages.take(k).take(i + 1) =~= messages.take(i + 1));
    }
}

/// An `exit` notification always ends the main loop: with success, unless the inner service ends
/// it with a result of its own.
pub proof fn law_exit_ends_the_loop<S: LspService<Error = ResponseError>>(
    pre: Lifecycle<S>,
    notif: AnyNotification,
    post: Lifecycle<S>,
    flow: ControlFlow<Result<()>>,
)
    requires
        Lifecycle::<S>::notifies(pre, notif, post, flow),
        notif.method@ == EXIT@,
    ensures
        flow is Break,
        flow == ControlFlow::<Result<()>>::Break(Ok(())) || S::notifies(
            pre.service,
            notif,
            post.service,
            flow,
        ),
{
}

/// Messages that do not belong to a state leave the inner service as it was: it never learns of
/// them.
pub proof fn law_unrelated_messages_stay_outside<S: LspService<Error = ResponseError>>(
    pre: Lifecycle<S>,
    post: Lifecycle<S>,
    req: AnyRequest,
    fut: ResponseFuture<S::Future>,
    notif: AnyNotification,
    flow: ControlFlow<Result<()>>,
)
    ensures
        Lifecycle::<S>::calls(pre, req, post, fut) && pre.state.refusal(req.method@) is Some
            ==> post.service == pre.service && fut is Refused,
        Lifecycle::<S>::notifies(pre, notif, post, flow) && !pre.state.forwards(notif.method@)
            ==> post.service == pre.service,
{
}

/// Before it is asked to initialize, a server takes an `initialize` request and no other request;
/// while it initializes, it takes none. A request that it does not take never reaches it, and is
/// answered with the error that the server is not initialized.
pub proof fn law_requests_before_initialization<S: LspService<Error = ResponseError>>(
    pre: Lifecycle<S>,
    req: AnyRequest,
    post: Lifecycle<S>,
    fut: ResponseFuture<S::Future>,
)
    requires
        Lifecycle::<S>::calls(pre, req, post, fut),
        pre.state == State::Uninitialized || pre.state == State::Initializing,
    ensures
        pre.state == State::Uninitialized && req.method@ == "initialize"@ ==> {
            &&& fut matches ResponseFuture::Forwarded(inner) && S::calls(
                pre.service,
                req,
                post.service,
                inner,
            )
            &&& post.state == State::Initializing
        },
        pre.state == State::Initializing || req.method@ != "initialize"@ ==> {
            &&& fut matches ResponseFuture::Refused(error) && {
                &&& error.code.0 == -32002
                &&& error.message@ == "Server is not initialized yet"@
                &&& error.data is None
            }
            &&& post == pre
        },
{
}

/// A server that is ready takes every request but another `initialize`. With `shutdown` it starts
/// to shut down, and with any other request it stays ready.
pub proof fn law_requests_when_ready<S: LspService<Error = ResponseError>>(
    pre: Lifecycle<S>,
    req: AnyRequest,
    post: Lifecycle<S>,
    fut: ResponseFuture<S::Future>,
)
    requires
        Lifecycle::<S>::calls(pre, req, post, fut),
        pre.state == State::Ready,
    ensures
        req.method@ != "initialize"@ ==> {
            &&& fut matches ResponseFuture::Forwarded(inner) && S::calls(
                pre.service,
                req,
                post.service,
                inner,
            )
            &&& post.state == if req.method@ == "shutdown"@ {
                State::ShuttingDown
            } else {
                State::Ready
            }
        },
        req.method@ == "initialize"@ ==> {
            &&& fut matches ResponseFuture::Refused(error) && {
                &&& error.code.0 == -32600
                &&& error.message@ == "Server is already initialized"@
                &&& error.data is None
            }
            &&& post == pre
        },
{
    lemma_methods_differ();
}

/// A server that shuts down takes no request any more: each is refused, and never reaches it.
pub proof fn law_requests_when_shutting_down<S: LspService<Error = ResponseError>>(
    pre: Lifecycle<S>,
    req: AnyRequest,
    post: Lifecycle<S>,
    fut: ResponseFuture<S::Future>,
)
    requires
        Lifecycle::<S>::calls(pre, req, post, fut),
        pre.state == State::ShuttingDown,
    ensures
        post == pre,
        fut matches ResponseFuture::Refused(error) && {
            &&& error.code.0 == -32600
            &&& error.message@ == if req.method@ == "initialize"@ {
                "Server is already initialized"@
            } else {
                "Server is shutting down"@
            }
            &&& error.data is None
        },
{
}

/// A server that is ready gets every notification but `initialized`, whatever its method, and its
/// answer is that of the middleware; only after `exit` the main loop ends in any case.
pub proof fn law_notifications_when_ready<S: LspService<Error = ResponseError>>(
    pre: Lifecycle<S>,
    notif: AnyNotification,
    post: Lifecycle<S>,
    flow: ControlFlow<Result<()>>,
)
    requires
        Lifecycle::<S>::notifies(pre, notif, post, flow),
        pre.state == State::Ready,
        notif.method@ != "initialized"@,
    ensures
        post.state == State::Ready,
        exists|answer: ControlFlow<Result<()>>|
            {
                &&& #[trigger] S::notifies(pre.service, notif, post.service, answer)
                &&& notif.method@ != "exit"@ || answer is Break ==> flow == answer
                &&& notif.method@ == "exit"@ && answer is Continue ==> flow == ControlFlow::<
                    Result<()>,
                >::Break(Ok(()))
            },
{
}

/// A server that is not ready gets no notification but `exit` and the `initialized` that it waits
/// for. The others never reach it; they change nothing, and the main loop goes on.
pub proof fn law_notifications_when_not_ready<S: LspService<Error = ResponseError>>(
    pre: Lifecycle<S>,
    notif: AnyNotification,
    post: Lifecycle<S>,
    flow: ControlFlow<Result<()>>,
)
    requires
        Lifecycle::<S>::notifies(pre, notif, post, flow),
        pre.state != State::Ready,
        notif.method@ != "initialized"@,
    ensures
        notif.method@ != "exit"@ ==> post == pre && flow == ControlFlow::<Result<()>>::Continue(()),
        notif.method@ == "exit"@ ==> post.state == pre.state && exists|
            answer: ControlFlow<Result<()>>,
        |
            {
                &&& #[trigger] S::notifies(pre.service, notif, post.service, answer)
                &&& flow == if answer is Break {
                    answer
                } else {
                    ControlFlow::<Result<()>>::Break(Ok(()))
                }
            },
{
}

/// The `initialized` notification makes a server ready that initializes, and reaches it. In any
/// other state it violates the protocol: it never reaches the server, and the main loop ends with
/// an error that names the state.
pub proof fn law_initialized_notification<S: LspService<Error = ResponseError>>(
    pre: Lifecycle<S>,
    notif: AnyNotification,
    post: Lifecycle<S>,
    flow: ControlFlow<Result<()>>,
)
    requires
        Lifecycle::<S>::notifies(pre, notif, post, flow),
        notif.method@ == "initialized"@,
    ensures
        pre.state == State::Initializing ==> {
            &&& S::notifies(pre.service, notif, post.service, flow)
            &&& post.state == State::Ready
        },
        pre.state != State::Initializing ==> {
            &&& post == pre
            &&& flow matches ControlFlow::Break(Err(Error::Protocol(text))) && text@
                == "Unexpected initialized notification on state "@ + match pre.state {
                State::Uninitialized => "Uninitialized"@,
                State::Initializing => "Initializing"@,
                State::Ready => "Ready"@,
                State::ShuttingDown => "ShuttingDown"@,
            }
        },
{
    lemma_methods_differ();
}

/// The lifecycle neither delays requests nor holds events back: whether the server is ready, and
/// what becomes of an event, is up to the server in every state.
pub proof fn law_readiness_and_events_pass<S: LspService<Error = ResponseError>>(
    pre: Lifecycle<S>,
    ready: Poll<core::result::Result<(), ResponseError>>,
    event: AnyEvent,
    post: Lifecycle<S>,
    flow: ControlFlow<Result<()>>,
)
    ensures
        Lifecycle::<S>::polls(pre, post, ready) ==> S::polls(pre.service, post.service, ready)
            && post.state == pre.state,
        Lifecycle::<S>::emits(pre, event, post, flow) ==> S::emits(
            pre.service,
            event,
            post.service,
            flow,
        ) && post.state == pre.state,
{
}

/// The lifecycle asks nothing of those who use it that the server does not.
pub proof fn law_lifecycle_asks_no_more<S: LspService<Error = ResponseError>>(
    lifecycle: Lifecycle<S>,
    req: AnyRequest,
    notif: AnyNotification,
    event: AnyEvent,
)
    ensures
        lifecycle.service.can_poll() ==> lifecycle.can_poll(),
        lifecycle.service.can_call(req) ==> lifecycle.can_call(req),
        lifecycle.service.can_notify(notif) ==> lifecycle.can_notify(notif),
        lifecycle.service.can_emit(event) ==> lifecycle.can_emit(event),
{
}

/// Each server starts uninitialized, and reaching into the middleware changes nothing but the
/// server.
pub proof fn law_new_lifecycle<S>(
    service: S,
    layer: LifecycleLayer,
    lifecycle: Lifecycle<S>,
)
    ensures
        call_ensures(Lifecycle::<S>::new, (service,), lifecycle) || call_ensures(
            LifecycleLayer::layer::<S>,
            (&layer, service),
            lifecycle,
        ) ==> lifecycle.service == service && lifecycle.state == State::Uninitialized,
        forall|this: &mut Lifecycle<S>, inner: &mut S| #[trigger]
            call_ensures(Lifecycle::<S>::get_mut, (this,), inner) ==> {
                &&& *inner == this.service
                &&& final(this).service == *final(inner)
                &&& final(this).state == this.state
            },
{
}

} // verus!
