//! Dispatch of requests, notifications and events to handlers.
//!
//! The router is the "root" service under the middlewares. It keeps a state that the handlers
//! change, and one handler for each method of requests, each method of notifications and each type
//! of events, beside catch-all handlers.
use std::any::TypeId;
use std::ops::ControlFlow;
use std::task::Context;

use serde_json::Error as JsonError;
use vstd::hash_map::StringHashMap;
use vstd::prelude::*;
use vstd::string::to_string_from_display_ensures;

use crate::error::{Error, ErrorCode, ResponseError, Result};
use crate::event::{is_id_of, type_id_of, AnyEvent};
use crate::json::JsonValue;
use crate::key_map::KeyMap;
use crate::message::{AnyNotification, AnyRequest};
use crate::service::{LspService, Poll};
use crate::text::{join, starts_with};

verus! {

/// The answer to a request without a handler.
pub fn no_such_method(method: &str) -> (error: ResponseError)
    ensures
        error.says(ErrorCode::METHOD_NOT_FOUND, "No such method "@ + method@),
{
    ResponseError::of(ErrorCode::METHOD_NOT_FOUND, join("No such method ", method))
}

/// What becomes of the main loop on a notification of method `method` without a handler: those that
/// start with `$/` are optional, and the others end it.
pub open spec fn unhandled_notification_ends(
    method: Seq<char>,
    flow: ControlFlow<Result<()>>,
) -> bool {
    if "$/"@.is_prefix_of(method) {
        flow == ControlFlow::<Result<()>>::Continue(())
    } else {
        flow matches ControlFlow::Break(Err(Error::Routing(text))) && text@
            == "Unhandled notification: "@ + method
    }
}

/// The answer to a notification without a handler.
pub fn skip_notification(method: &str) -> (flow: ControlFlow<Result<()>>)
    ensures
        unhandled_notification_ends(method@, flow),
{
    if starts_with(method, "$/") {
        ControlFlow::Continue(())
    } else {
        ControlFlow::Break(Err(Error::Routing(join("Unhandled notification: ", method))))
    }
}

/// The answer to an event without a handler.
pub fn refuse_event(event: &AnyEvent) -> (flow: ControlFlow<Result<()>>)
    ensures
        flow matches ControlFlow::Break(Err(Error::Routing(text))) && text@ == "Unhandled event: "@
            + event.shown(),
{
    ControlFlow::Break(
        Err(Error::Routing(join("Unhandled event: ", event.debug().as_str()))),
    )
}

/// The parameters that a request handler gets, or the answer to the request where they could not be
/// read.
pub fn request_params<P>(read: core::result::Result<P, JsonError>) -> (params: core::result::Result<
    P,
    ResponseError,
>)
    ensures
        match read {
            Ok(p) => params == Ok::<P, ResponseError>(p),
            Err(err) => params matches Err(error) && exists|shown: String|
                {
                    &&& #[trigger] to_string_from_display_ensures(&err, shown)
                    &&& error.says(
                        ErrorCode::INVALID_PARAMS,
                        "Failed to deserialize parameters: "@ + shown@,
                    )
                },
        },
{
    match read {
        Ok(params) => Ok(params),
        Err(err) => {
            let shown = err.to_string();
            assert(to_string_from_display_ensures(&err, shown));
            Err(
                ResponseError::of(
                    ErrorCode::INVALID_PARAMS,
                    join("Failed to deserialize parameters: ", shown.as_str()),
                ),
            )
        },
    }
}

/// The parameters that a notification handler gets, or the end of the main loop where they could
/// not be read.
pub fn notification_params<P>(read: core::result::Result<P, JsonError>) -> (params: core::result::Result<
    P,
    ControlFlow<Result<()>>,
>)
    ensures
        match read {
            Ok(p) => params == Ok::<P, ControlFlow<Result<()>>>(p),
            Err(err) => params == Err::<P, ControlFlow<Result<()>>>(
                ControlFlow::Break(Err(Error::Deserialize(err))),
            ),
        },
{
    match read {
        Ok(params) => Ok(params),
        Err(err) => Err(ControlFlow::Break(Err(Error::from(err)))),
    }
}

/// The value that an event handler gets: a handler is only given events of its type.
pub fn event_value<E: Send + 'static>(event: AnyEvent) -> (value: E)
    requires
        is_id_of::<E>(event.inner_id()),
    ensures
        forall|v: E| #[trigger] event.carries(v) <==> v == value,
{
    match event.downcast::<E>() {
        Ok(value) => value,
        Err(_) => vstd::pervasive::unreached(),
    }
}

/// The handler under a key, or else the catch-all.
pub open spec fn handler_for<K, H>(table: Map<K, H>, other: Option<H>, key: K) -> Option<H> {
    if table.contains_key(key) {
        Some(table[key])
    } else {
        other
    }
}

/// Finds the handler of a method, or else the catch-all.
fn find<'a, H>(table: &'a StringHashMap<H>, other: &'a Option<H>, method: &str) -> (found: Option<
    &'a H,
>)
    ensures
        match found {
            Some(handler) => handler_for(table@, *other, method@) == Some(*handler),
            None => handler_for(table@, *other, method@) is None,
        },
{
    match table.get(method) {
        Some(handler) => Some(handler),
        None => other.as_ref(),
    }
}

/// The handler can be given the message in this state.
pub open spec fn accepts<S, M, O, H: Fn(&mut S, M) -> O>(handler: H, state: S, message: M) -> bool {
    forall|st: &mut S| *st == state ==> #[trigger] call_requires(handler, (st, message))
}

/// Given the message in this state, the handler may give `output`.
pub open spec fn gives<S, M, O, H: Fn(&mut S, M) -> O>(
    handler: H,
    state: S,
    message: M,
    output: O,
) -> bool {
    exists|st: &mut S| *st == state && #[trigger] call_ensures(handler, (st, message), output)
}

/// Runs a handler.
fn run<S, M, O, H: Fn(&mut S, M) -> O>(handler: &H, state: &mut S, message: M) -> (output: O)
    requires
        accepts(*handler, *old(state), message),
    ensures
        gives(*handler, *old(state), message, output),
        exists|st: &mut S|
            {
                &&& *st == *old(state)
                &&& *final(st) == *final(state)
                &&& #[trigger] call_ensures(*handler, (st, message), output)
            },
{
    (*handler)(state, message)
}

/// The pending outcome of a request to [`Router`].
#[derive(Debug)]
pub enum RouterFuture<Fut> {
    /// A handler processes the request.
    Handled(Fut),
    /// No handler gets the request, and this is the answer to it.
    Unhandled(ResponseError),
}

/// Handles a request by a handler of its parameters, given what came of reading them. Where they
/// could not be read, the handler is not run.
pub fn handle_request<S, P, Fut, H: Fn(&mut S, P) -> Fut>(
    handler: &H,
    state: &mut S,
    read: core::result::Result<P, JsonError>,
) -> (fut: RouterFuture<Fut>)
    requires
        read matches Ok(params) ==> accepts(*handler, *old(state), params),
    ensures
        match read {
            Ok(params) => fut matches RouterFuture::Handled(inner) && {
                &&& gives(*handler, *old(state), params, inner)
                &&& exists|st: &mut S|
                    {
                        &&& *st == *old(state)
                        &&& *final(st) == *final(state)
                        &&& #[trigger] call_ensures(*handler, (st, params), inner)
                    }
            },
            Err(err) => {
                &&& *final(state) == *old(state)
                &&& fut matches RouterFuture::Unhandled(error)
                &&& exists|shown: String|
                    {
                        &&& #[trigger] to_string_from_display_ensures(&err, shown)
                        &&& error.says(
                            ErrorCode::INVALID_PARAMS,
                            "Failed to deserialize parameters: "@ + shown@,
                        )
                    }
            },
        },
{
    match request_params(read) {
        Ok(params) => RouterFuture::Handled(run(handler, state, params)),
        Err(error) => RouterFuture::Unhandled(error),
    }
}

/// Handles a notification by a handler of its parameters, given what came of reading them. Where
/// they could not be read, the handler is not run and the main loop ends.
pub fn handle_notification<S, P, H: Fn(&mut S, P) -> ControlFlow<Result<()>>>(
    handler: &H,
    state: &mut S,
    read: core::result::Result<P, JsonError>,
) -> (flow: ControlFlow<Result<()>>)
    requires
        read matches Ok(params) ==> accepts(*handler, *old(state), params),
    ensures
        match read {
            Ok(params) => {
                &&& gives(*handler, *old(state), params, flow)
                &&& exists|st: &mut S|
                    {
                        &&& *st == *old(state)
                        &&& *final(st) == *final(state)
                        &&& #[trigger] call_ensures(*handler, (st, params), flow)
                    }
            },
            Err(err) => {
                &&& *final(state) == *old(state)
                &&& flow == ControlFlow::<Result<()>>::Break(Err(Error::Deserialize(err)))
            },
        },
{
    match notification_params(read) {
        Ok(params) => run(handler, state, params),
        Err(flow) => flow,
    }
}

/// Handles an event by a handler of the value in it.
pub fn handle_event<S, E: Send + 'static, H: Fn(&mut S, E) -> ControlFlow<Result<()>>>(
    handler: &H,
    state: &mut S,
    event: AnyEvent,
) -> (flow: ControlFlow<Result<()>>)
    requires
        is_id_of::<E>(event.inner_id()),
        forall|value: E| #[trigger] event.carries(value) ==> accepts(*handler, *old(state), value),
    ensures
        exists|value: E| #[trigger]
            event.carries(value) && gives(*handler, *old(state), value, flow),
        exists|value: E, st: &mut S|
            {
                &&& #[trigger] event.carries(value)
                &&& forall|other: E| #[trigger] event.carries(other) ==> other == value
                &&& *st == *old(state)
                &&& *final(st) == *final(state)
                &&& #[trigger] call_ensures(*handler, (st, value), flow)
            },
{
    let value = event_value::<E>(event);
    assert(event.carries(value));
    run(handler, state, value)
}

/// The service that dispatches requests, notifications and events to handlers.
#[verifier::reject_recursive_types(RH)]
#[verifier::reject_recursive_types(NH)]
pub struct Router<S, RH, NH, EH> {
    /// What the handlers work on.
    pub state: S,
    /// The handlers of requests, by method.
    pub req_handlers: StringHashMap<RH>,
    /// The handlers of notifications, by method.
    pub notif_handlers: StringHashMap<NH>,
    /// The handlers of events, by type.
    pub event_handlers: KeyMap<TypeId, EH>,
    /// The handler of other requests.
    pub unhandled_req: Option<RH>,
    /// The handler of other notifications.
    pub unhandled_notif: Option<NH>,
    /// The handler of other events.
    pub unhandled_event: Option<EH>,
}

impl<S, RH, NH, EH> Router<S, RH, NH, EH> {
    /// The handler of requests of method `method`.
    pub open spec fn request_handler(self, method: Seq<char>) -> Option<RH> {
        handler_for(self.req_handlers@, self.unhandled_req, method)
    }

    /// The handler of notifications of method `method`.
    pub open spec fn notification_handler(self, method: Seq<char>) -> Option<NH> {
        handler_for(self.notif_handlers@, self.unhandled_notif, method)
    }

    /// The handler of events whose type has this identifier.
    pub open spec fn event_handler(self, id: TypeId) -> Option<EH> {
        handler_for(self.event_handlers@, self.unhandled_event, id)
    }

    /// The handlers are the same.
    pub open spec fn same_handlers(self, other: Self) -> bool {
        &&& self.req_handlers@ == other.req_handlers@
        &&& self.notif_handlers@ == other.notif_handlers@
        &&& self.event_handlers@ == other.event_handlers@
        &&& self.unhandled_req == other.unhandled_req
        &&& self.unhandled_notif == other.unhandled_notif
        &&& self.unhandled_event == other.unhandled_event
    }

    /// Creates a router without handlers.
    #[must_use]
    pub fn new(state: S) -> (router: Self)
        ensures
            router.state == state,
            forall|method: Seq<char>| #[trigger] router.request_handler(method) is None,
            forall|method: Seq<char>| #[trigger] router.notification_handler(method) is None,
            forall|id: TypeId| #[trigger] router.event_handler(id) is None,
            router.unhandled_req is None,
            router.unhandled_notif is None,
            router.unhandled_event is None,
    {
        Router {
            state,
            req_handlers: StringHashMap::new(),
            notif_handlers: StringHashMap::new(),
            event_handlers: KeyMap::new(),
            unhandled_req: None,
            unhandled_notif: None,
            unhandled_event: None,
        }
    }

    /// Adds a handler of requests of method `method`. It takes the place of an earlier one.
    pub fn request(&mut self, method: String, handler: RH) -> (router: &mut Self)
        ensures
            router.req_handlers@ == old(self).req_handlers@.insert(method@, handler),
            *router == (Router { req_handlers: router.req_handlers, ..*old(self) }),
            forall|m: Seq<char>| #[trigger]
                router.request_handler(m) == if m == method@ {
                    Some(handler)
                } else {
                    old(self).request_handler(m)
                },
            *final(self) == *final(router),
    {
        self.req_handlers.insert(method, handler);
        self
    }

    /// Adds a handler of notifications of method `method`. It takes the place of an earlier one.
    pub fn notification(&mut self, method: String, handler: NH) -> (router: &mut Self)
        ensures
            router.notif_handlers@ == old(self).notif_handlers@.insert(method@, handler),
            *router == (Router { notif_handlers: router.notif_handlers, ..*old(self) }),
            forall|m: Seq<char>| #[trigger]
                router.notification_handler(m) == if m == method@ {
                    Some(handler)
                } else {
                    old(self).notification_handler(m)
                },
            *final(self) == *final(router),
    {
        self.notif_handlers.insert(method, handler);
        self
    }

    /// Adds a handler of events of type `E`. It takes the place of an earlier one.
    pub fn event<E: Send + 'static>(&mut self, handler: EH) -> (router: &mut Self)
        ensures
            *router == (Router { event_handlers: router.event_handlers, ..*old(self) }),
            forall|id: TypeId| #[trigger]
                router.event_handler(id) == if is_id_of::<E>(id) {
                    Some(handler)
                } else {
                    old(self).event_handler(id)
                },
            *final(self) == *final(router),
    {
        self.event_handlers.insert(type_id_of::<E>(), handler);
        self
    }

    /// Sets the handler of requests that have no other.
    pub fn unhandled_request(&mut self, handler: RH) -> (router: &mut Self)
        ensures
            *router == (Router { unhandled_req: Some(handler), ..*old(self) }),
            *final(self) == *final(router),
    {
        self.unhandled_req = Some(handler);
        self
    }

    /// Sets the handler of notifications that have no other.
    pub fn unhandled_notification(&mut self, handler: NH) -> (router: &mut Self)
        ensures
            *router == (Router { unhandled_notif: Some(handler), ..*old(self) }),
            *final(self) == *final(router),
    {
        self.unhandled_notif = Some(handler);
        self
    }

    /// Sets the handler of events that have no other.
    pub fn unhandled_event(&mut self, handler: EH) -> (router: &mut Self)
        ensures
            *router == (Router { unhandled_event: Some(handler), ..*old(self) }),
            *final(self) == *final(router),
    {
        self.unhandled_event = Some(handler);
        self
    }
}

impl<S: Default, RH, NH, EH> Default for Router<S, RH, NH, EH> {
    fn default() -> (router: Self)
        ensures
            S::default.ensures((), router.state),
            forall|method: Seq<char>| #[trigger] router.request_handler(method) is None,
            forall|method: Seq<char>| #[trigger] router.notification_handler(method) is None,
            forall|id: TypeId| #[trigger] router.event_handler(id) is None,
    {
        Router::new(S::default())
    }
}

impl<S, Fut, RH, NH, EH> Router<S, RH, NH, EH> where
    RH: Fn(&mut S, AnyRequest) -> Fut,
    NH: Fn(&mut S, AnyNotification) -> ControlFlow<Result<()>>,
    EH: Fn(&mut S, AnyEvent) -> ControlFlow<Result<()>>,
 {
    /// The handler of the request, if there is one, takes it in this state.
    pub open spec fn takes_request(self, req: AnyRequest) -> bool {
        self.request_handler(req.method@) matches Some(handler) ==> accepts(
            handler,
            self.state,
            req,
        )
    }

    /// The handler of the notification, if there is one, takes it in this state.
    pub open spec fn takes_notification(self, notif: AnyNotification) -> bool {
        self.notification_handler(notif.method@) matches Some(handler) ==> accepts(
            handler,
            self.state,
            notif,
        )
    }

    /// The handler of the event, if there is one, takes it in this state.
    pub open spec fn takes_event(self, event: AnyEvent) -> bool {
        self.event_handler(event.inner_id()) matches Some(handler) ==> accepts(
            handler,
            self.state,
            event,
        )
    }

    /// The answer to a request is that of its handler, or an error where it has none. The handlers
    /// stay.
    pub open spec fn answers_request(
        pre: Self,
        req: AnyRequest,
        post: Self,
        fut: RouterFuture<Fut>,
    ) -> bool {
        &&& post.same_handlers(pre)
        &&& match pre.request_handler(req.method@) {
            Some(handler) => {
                &&& fut matches RouterFuture::Handled(inner)
                &&& gives(handler, pre.state, req, inner)
            },
            None => {
                &&& fut matches RouterFuture::Unhandled(error)
                &&& error.says(ErrorCode::METHOD_NOT_FOUND, "No such method "@ + req.method@)
                &&& post.state == pre.state
            },
        }
    }

    /// The answer to a notification is that of its handler, or as [`unhandled_notification_ends`]
    /// says where it has none. The handlers stay.
    pub open spec fn answers_notification(
        pre: Self,
        notif: AnyNotification,
        post: Self,
        flow: ControlFlow<Result<()>>,
    ) -> bool {
        &&& post.same_handlers(pre)
        &&& match pre.notification_handler(notif.method@) {
            Some(handler) => gives(handler, pre.state, notif, flow),
            None => {
                &&& unhandled_notification_ends(notif.method@, flow)
                &&& post.state == pre.state
            },
        }
    }

    /// The answer to an event is that of its handler, or the end of the main loop with an error
    /// where it has none. The handlers stay.
    pub open spec fn answers_event(
        pre: Self,
        event: AnyEvent,
        post: Self,
        flow: ControlFlow<Result<()>>,
    ) -> bool {
        &&& post.same_handlers(pre)
        &&& match pre.event_handler(event.inner_id()) {
            Some(handler) => gives(handler, pre.state, event, flow),
            None => {
                &&& flow matches ControlFlow::Break(Err(Error::Routing(text)))
                &&& text@ == "Unhandled event: "@ + event.shown()
                &&& post.state == pre.state
            },
        }
    }

    /// Hands a request to its handler, which works on the state.
    pub fn route_request(&mut self, req: AnyRequest) -> (fut: RouterFuture<Fut>)
        requires
            old(self).takes_request(req),
        ensures
            Self::answers_request(*old(self), req, *final(self), fut),
            old(self).request_handler(req.method@) matches Some(handler) ==> {
                &&& fut matches RouterFuture::Handled(inner)
                &&& exists|state: &mut S|
                    {
                        &&& *state == old(self).state
                        &&& *final(state) == final(self).state
                        &&& #[trigger] call_ensures(handler, (state, req), inner)
                    }
            },
    {
        match find(&self.req_handlers, &self.unhandled_req, req.method.as_str()) {
            Some(handler) => {
                let ghost found = self.request_handler(req.method@)->Some_0;
                assert(found == *handler);
                let inner = run(handler, &mut self.state, req);
                let fut = RouterFuture::Handled(inner);
                assert(fut->Handled_0 == inner);
                fut
            },
            None => RouterFuture::Unhandled(no_such_method(req.method.as_str())),
        }
    }

    /// Hands a notification to its handler, which works on the state.
    pub fn route_notification(&mut self, notif: AnyNotification) -> (flow: ControlFlow<Result<()>>)
        requires
            old(self).takes_notification(notif),
        ensures
            Self::answers_notification(*old(self), notif, *final(self), flow),
            old(self).notification_handler(notif.method@) matches Some(handler) ==> exists|
                state: &mut S,
            |
                {
                    &&& *state == old(self).state
                    &&& *final(state) == final(self).state
                    &&& #[trigger] call_ensures(handler, (state, notif), flow)
                },
    {
        match find(&self.notif_handlers, &self.unhandled_notif, notif.method.as_str()) {
            Some(handler) => {
                let ghost found = self.notification_handler(notif.method@)->Some_0;
                assert(found == *handler);
                run(handler, &mut self.state, notif)
            },
            None => skip_notification(notif.method.as_str()),
        }
    }

    /// Hands an event to its handler, which works on the state.
    pub fn route_event(&mut self, event: AnyEvent) -> (flow: ControlFlow<Result<()>>)
        requires
            old(self).takes_event(event),
        ensures
            Self::answers_event(*old(self), event, *final(self), flow),
            old(self).event_handler(event.inner_id()) matches Some(handler) ==> exists|
                state: &mut S,
            |
                {
                    &&& *state == old(self).state
                    &&& *final(state) == final(self).state
                    &&& #[trigger] call_ensures(handler, (state, event), flow)
                },
    {
        let id = event.inner_type_id();
        let found = match self.event_handlers.get(&id) {
            Some(handler) => Some(handler),
            None => self.unhandled_event.as_ref(),
        };
        match found {
            Some(handler) => {
                let ghost found = self.event_handler(id)->Some_0;
                assert(found == *handler);
                run(handler, &mut self.state, event)
            },
            None => refuse_event(&event),
        }
    }
}

impl<S, Fut, RH, NH, EH> LspService for Router<S, RH, NH, EH> where
    RH: Fn(&mut S, AnyRequest) -> Fut,
    NH: Fn(&mut S, AnyNotification) -> ControlFlow<Result<()>>,
    EH: Fn(&mut S, AnyEvent) -> ControlFlow<Result<()>>,
 {
    type Response = JsonValue;

    type Error = ResponseError;

    type Future = RouterFuture<Fut>;

    open spec fn can_call(self, req: AnyRequest) -> bool {
        self.takes_request(req)
    }

    open spec fn can_notify(self, notif: AnyNotification) -> bool {
        self.takes_notification(notif)
    }

    open spec fn can_emit(self, event: AnyEvent) -> bool {
        self.takes_event(event)
    }

    open spec fn polls(
        pre: Self,
        post: Self,
        ready: Poll<core::result::Result<(), ResponseError>>,
    ) -> bool {
        &&& post == pre
        &&& ready == Poll::Ready(Ok::<(), ResponseError>(()))
    }

    open spec fn calls(pre: Self, req: AnyRequest, post: Self, fut: RouterFuture<Fut>) -> bool {
        Self::answers_request(pre, req, post, fut)
    }

    open spec fn notifies(
        pre: Self,
        notif: AnyNotification,
        post: Self,
        flow: ControlFlow<Result<()>>,
    ) -> bool {
        Self::answers_notification(pre, notif, post, flow)
    }

    open spec fn emits(
        pre: Self,
        event: AnyEvent,
        post: Self,
        flow: ControlFlow<Result<()>>,
    ) -> bool {
        Self::answers_event(pre, event, post, flow)
    }

    fn poll_ready(&mut self, _cx: &mut Context<'_>) -> (ready: Poll<
        core::result::Result<(), ResponseError>,
    >) {
        Poll::Ready(Ok(()))
    }

    fn call(&mut self, req: AnyRequest) -> (fut: RouterFuture<Fut>)
        ensures
            old(self).request_handler(req.method@) matches Some(handler) ==> {
                &&& fut matches RouterFuture::Handled(inner)
                &&& exists|state: &mut S|
                    {
                        &&& *state == old(self).state
                        &&& *final(state) == final(self).state
                        &&& #[trigger] call_ensures(handler, (state, req), inner)
                    }
            },
    {
        self.route_request(req)
    }

    fn notify(&mut self, notif: AnyNotification) -> (flow: ControlFlow<Result<()>>)
        ensures
            old(self).notification_handler(notif.method@) matches Some(handler) ==> exists|
                state: &mut S,
            |
                {
                    &&& *state == old(self).state
                    &&& *final(state) == final(self).state
                    &&& #[trigger] call_ensures(handler, (state, notif), flow)
                },
    {
        self.route_notification(notif)
    }

    fn emit(&mut self, event: AnyEvent) -> (flow: ControlFlow<Result<()>>)
        ensures
            old(self).event_handler(event.inner_id()) matches Some(handler) ==> exists|
                state: &mut S,
            |
                {
                    &&& *state == old(self).state
                    &&& *final(state) == final(self).state
                    &&& #[trigger] call_ensures(handler, (state, event), flow)
                },
    {
        self.route_event(event)
    }
}

/// With the catch-all handlers installed, each notification and each event goes to a handler, so
/// that the router raises no [`Error::Routing`] of its own.
pub proof fn law_catch_alls_leave_nothing_unhandled<S, RH, NH, EH>(
    router: Router<S, RH, NH, EH>,
    method: Seq<char>,
    id: TypeId,
)
    ensures
        router.unhandled_req is Some ==> router.request_handler(method) is Some,
        router.unhandled_notif is Some ==> router.notification_handler(method) is Some,
        router.unhandled_event is Some ==> router.event_handler(id) is Some,
{
}

/// Without a handler, an optional notification is skipped, a mandatory one ends the main loop with
/// [`Error::Routing`], and so does every event.
pub proof fn law_only_mandatory_messages_end_the_loop<S, Fut, RH, NH, EH>(
    pre: Router<S, RH, NH, EH>,
    post: Router<S, RH, NH, EH>,
    notif: AnyNotification,
    event: AnyEvent,
    flow: ControlFlow<Result<()>>,
) where
    RH: Fn(&mut S, AnyRequest) -> Fut,
    NH: Fn(&mut S, AnyNotification) -> ControlFlow<Result<()>>,
    EH: Fn(&mut S, AnyEvent) -> ControlFlow<Result<()>>,

    ensures
        Router::<S, RH, NH, EH>::notifies(pre, notif, post, flow) && pre.notification_handler(
            notif.method@,
        ) is None ==> {
            &&& flow is Continue <==> "$/"@.is_prefix_of(notif.method@)
            &&& flow is Break ==> (flow matches ControlFlow::Break(Err(error)) && error is Routing)
        },
        Router::<S, RH, NH, EH>::emits(pre, event, post, flow) && pre.event_handler(
            event.inner_id(),
        ) is None ==> (flow matches ControlFlow::Break(Err(error)) && error is Routing),
{
}

/// A request goes to the handler of its method, whatever the method; only one without a handler
/// goes to the catch-all. The handler gets the request as it is, in the state of the router, and
/// its answer is the answer. Without any handler the request is refused, and the state stays.
pub proof fn law_request_goes_to_its_handler<S, Fut, RH, NH, EH>(
    pre: Router<S, RH, NH, EH>,
    req: AnyRequest,
    post: Router<S, RH, NH, EH>,
    fut: RouterFuture<Fut>,
) where
    RH: Fn(&mut S, AnyRequest) -> Fut,
    NH: Fn(&mut S, AnyNotification) -> ControlFlow<Result<()>>,
    EH: Fn(&mut S, AnyEvent) -> ControlFlow<Result<()>>,

    requires
        Router::<S, RH, NH, EH>::calls(pre, req, post, fut),
    ensures
        pre.req_handlers@.contains_key(req.method@) ==> (fut matches RouterFuture::Handled(inner)
            && exists|state: &mut S|
            *state == pre.state && #[trigger] call_ensures(
                pre.req_handlers@[req.method@],
                (state, req),
                inner,
            )),
        !pre.req_handlers@.contains_key(req.method@) ==> match pre.unhandled_req {
            Some(other) => fut matches RouterFuture::Handled(inner) && exists|state: &mut S|
                *state == pre.state && #[trigger] call_ensures(other, (state, req), inner),
            None => {
                &&& fut matches RouterFuture::Unhandled(error) && {
                    &&& error.code.0 == -32601
                    &&& error.message@ == "No such method "@ + req.method@
                    &&& error.data is None
                }
                &&& post.state == pre.state
            },
        },
        post.req_handlers@ == pre.req_handlers@,
        post.notif_handlers@ == pre.notif_handlers@,
        post.event_handlers@ == pre.event_handlers@,
        post.unhandled_req == pre.unhandled_req,
        post.unhandled_notif == pre.unhandled_notif,
        post.unhandled_event == pre.unhandled_event,
{
}

/// A notification goes to the handler of its method, whatever the method; only one without a
/// handler goes to the catch-all. Without any handler it is skipped where its method starts with
/// `$/`, and else ends the main loop; the state stays.
pub proof fn law_notification_goes_to_its_handler<S, Fut, RH, NH, EH>(
    pre: Router<S, RH, NH, EH>,
    notif: AnyNotification,
    post: Router<S, RH, NH, EH>,
    flow: ControlFlow<Result<()>>,
) where
    RH: Fn(&mut S, AnyRequest) -> Fut,
    NH: Fn(&mut S, AnyNotification) -> ControlFlow<Result<()>>,
    EH: Fn(&mut S, AnyEvent) -> ControlFlow<Result<()>>,

    requires
        Router::<S, RH, NH, EH>::notifies(pre, notif, post, flow),
    ensures
        pre.notif_handlers@.contains_key(notif.method@) ==> exists|state: &mut S|
            *state == pre.state && #[trigger] call_ensures(
                pre.notif_handlers@[notif.method@],
                (state, notif),
                flow,
            ),
        !pre.notif_handlers@.contains_key(notif.method@) ==> match pre.unhandled_notif {
            Some(other) => exists|state: &mut S|
                *state == pre.state && #[trigger] call_ensures(other, (state, notif), flow),
            None => {
                &&& post.state == pre.state
                &&& if notif.method@.len() >= 2 && notif.method@[0] == '$' && notif.method@[1]
                    == '/' {
                    flow == ControlFlow::<Result<()>>::Continue(())
                } else {
                    flow matches ControlFlow::Break(Err(Error::Routing(text))) && text@
                        == "Unhandled notification: "@ + notif.method@
                }
            },
        },
        post.req_handlers@ == pre.req_handlers@,
        post.notif_handlers@ == pre.notif_handlers@,
        post.event_handlers@ == pre.event_handlers@,
        post.unhandled_req == pre.unhandled_req,
        post.unhandled_notif == pre.unhandled_notif,
        post.unhandled_event == pre.unhandled_event,
{
    reveal_strlit("$/");
    let method = notif.method@;
    if method.len() >= 2 && method[0] == '$' && method[1] == '/' {
        assert("$/"@ =~= method.subrange(0, 2));
    } else if "$/"@.is_prefix_of(method) {
        assert(method.subrange(0, 2)[0] == '$' && method.subrange(0, 2)[1] == '/');
    }
}

/// An event goes to the handler of its type; only one without a handler goes to the catch-all.
/// Without any handler it ends the main loop, and the state stays.
pub proof fn law_event_goes_to_its_handler<S, Fut, RH, NH, EH>(
    pre: Router<S, RH, NH, EH>,
    event: AnyEvent,
    post: Router<S, RH, NH, EH>,
    flow: ControlFlow<Result<()>>,
) where
    RH: Fn(&mut S, AnyRequest) -> Fut,
    NH: Fn(&mut S, AnyNotification) -> ControlFlow<Result<()>>,
    EH: Fn(&mut S, AnyEvent) -> ControlFlow<Result<()>>,

    requires
        Router::<S, RH, NH, EH>::emits(pre, event, post, flow),
    ensures
        pre.event_handlers@.contains_key(event.inner_id()) ==> exists|state: &mut S|
            *state == pre.state && #[trigger] call_ensures(
                pre.event_handlers@[event.inner_id()],
                (state, event),
                flow,
            ),
        !pre.event_handlers@.contains_key(event.inner_id()) ==> match pre.unhandled_event {
            Some(other) => exists|state: &mut S|
                *state == pre.state && #[trigger] call_ensures(other, (state, event), flow),
            None => {
                &&& post.state == pre.state
                &&& flow matches ControlFlow::Break(Err(Error::Routing(text))) && text@
                    == "Unhandled event: "@ + event.shown()
            },
        },
        post.req_handlers@ == pre.req_handlers@,
        post.notif_handlers@ == pre.notif_handlers@,
        post.event_handlers@ == pre.event_handlers@,
        post.unhandled_req == pre.unhandled_req,
        post.unhandled_notif == pre.unhandled_notif,
        post.unhandled_event == pre.unhandled_event,
{
}

/// A router is always ready, and takes whatever its handlers take.
pub proof fn law_router_is_ready<S, Fut, RH, NH, EH>(
    pre: Router<S, RH, NH, EH>,
    post: Router<S, RH, NH, EH>,
    ready: Poll<core::result::Result<(), ResponseError>>,
    req: AnyRequest,
    notif: AnyNotification,
    event: AnyEvent,
) where
    RH: Fn(&mut S, AnyRequest) -> Fut,
    NH: Fn(&mut S, AnyNotification) -> ControlFlow<Result<()>>,
    EH: Fn(&mut S, AnyEvent) -> ControlFlow<Result<()>>,

    ensures
        Router::<S, RH, NH, EH>::polls(pre, post, ready) ==> ready == Poll::Ready(
            Ok::<(), ResponseError>(()),
        ) && post == pre,
        (forall|handler: RH, state: &mut S| #[trigger] call_requires(handler, (state, req)))
            ==> pre.can_call(req),
        (forall|handler: NH, state: &mut S| #[trigger] call_requires(handler, (state, notif)))
            ==> pre.can_notify(notif),
        (forall|handler: EH, state: &mut S| #[trigger] call_requires(handler, (state, event)))
            ==> pre.can_emit(event),
{
}

/// A handler that is added is the one of its method from then on, in place of an earlier one, and
/// the handlers of other methods stay, as do the catch-alls and the state.
pub proof fn law_added_handlers<S, RH, NH, EH>(
    method: String,
    on_request: RH,
    on_notification: NH,
)
    ensures
        forall|router: &mut Router<S, RH, NH, EH>, added: &mut Router<S, RH, NH, EH>| #[trigger]
            call_ensures(
                Router::<S, RH, NH, EH>::request,
                (router, method, on_request),
                added,
            ) ==> {
                &&& added.req_handlers@ == router.req_handlers@.insert(method@, on_request)
                &&& added.notif_handlers == router.notif_handlers
                &&& added.event_handlers == router.event_handlers
                &&& added.unhandled_req == router.unhandled_req
                &&& added.unhandled_notif == router.unhandled_notif
                &&& added.unhandled_event == router.unhandled_event
                &&& added.state == router.state
                &&& *final(router) == *final(added)
            },
        forall|router: &mut Router<S, RH, NH, EH>, added: &mut Router<S, RH, NH, EH>| #[trigger]
            call_ensures(
                Router::<S, RH, NH, EH>::notification,
                (router, method, on_notification),
                added,
            ) ==> {
                &&& added.notif_handlers@ == router.notif_handlers@.insert(method@, on_notification)
                &&& added.req_handlers == router.req_handlers
                &&& added.event_handlers == router.event_handlers
                &&& added.unhandled_req == router.unhandled_req
                &&& added.unhandled_notif == router.unhandled_notif
                &&& added.unhandled_event == router.unhandled_event
                &&& added.state == router.state
                &&& *final(router) == *final(added)
            },
{
}

/// A handler of events of a type that is added is the one of all events of that type from then on,
/// and the handlers of other types stay, as do the catch-alls and the state.
pub proof fn law_added_event_handlers<S, RH, NH, EH, E: Send + 'static>(handler: EH, id: TypeId)
    ensures
        forall|router: &mut Router<S, RH, NH, EH>, added: &mut Router<S, RH, NH, EH>| #[trigger]
            call_ensures(Router::<S, RH, NH, EH>::event::<E>, (router, handler), added) ==> {
                &&& is_id_of::<E>(id) ==> added.event_handler(id) == Some(handler)
                &&& !is_id_of::<E>(id) ==> added.event_handler(id) == router.event_handler(id)
                &&& added.req_handlers == router.req_handlers
                &&& added.notif_handlers == router.notif_handlers
                &&& added.unhandled_req == router.unhandled_req
                &&& added.unhandled_notif == router.unhandled_notif
                &&& added.unhandled_event == router.unhandled_event
                &&& added.state == router.state
                &&& *final(router) == *final(added)
            },
{
}

/// Each catch-all is for its kind of messages, and leaves the handlers of methods and types, the
/// other catch-alls and the state.
pub proof fn law_catch_alls<S, RH, NH, EH>(
    on_request: RH,
    on_notification: NH,
    on_event: EH,
)
    ensures
        forall|router: &mut Router<S, RH, NH, EH>, set: &mut Router<S, RH, NH, EH>| #[trigger]
            call_ensures(
                Router::<S, RH, NH, EH>::unhandled_request,
                (router, on_request),
                set,
            ) ==> *set == (Router { unhandled_req: Some(on_request), ..*router }) && *final(router)
                == *final(set),
        forall|router: &mut Router<S, RH, NH, EH>, set: &mut Router<S, RH, NH, EH>| #[trigger]
            call_ensures(
                Router::<S, RH, NH, EH>::unhandled_notification,
                (router, on_notification),
                set,
            ) ==> *set == (Router { unhandled_notif: Some(on_notification), ..*router })
                && *final(router) == *final(set),
        forall|router: &mut Router<S, RH, NH, EH>, set: &mut Router<S, RH, NH, EH>| #[trigger]
            call_ensures(Router::<S, RH, NH, EH>::unhandled_event, (router, on_event), set)
                ==> *set == (Router { unhandled_event: Some(on_event), ..*router })
                && *final(router) == *final(set),
{
}

/// A handler of parameters runs where they could be read, on just what was read, and its answer is
/// the answer. Where they could not be read it does not run: a request is answered with the error,
/// and a notification ends the main loop with it.
pub proof fn law_handlers_of_parameters<
    S,
    P,
    Fut,
    RH: Fn(&mut S, P) -> Fut,
    NH: Fn(&mut S, P) -> ControlFlow<Result<()>>,
>(on_request: RH, on_notification: NH, params: P, err: JsonError)
    ensures
        forall|state: &mut S, fut: RouterFuture<Fut>| #[trigger]
            call_ensures(
                handle_request::<S, P, Fut, RH>,
                (&on_request, state, Ok(params)),
                fut,
            ) ==> (fut matches RouterFuture::Handled(inner) && exists|st: &mut S|
                {
                    &&& *st == *state
                    &&& *final(st) == *final(state)
                    &&& #[trigger] call_ensures(on_request, (st, params), inner)
                }),
        forall|state: &mut S, fut: RouterFuture<Fut>| #[trigger]
            call_ensures(
                handle_request::<S, P, Fut, RH>,
                (&on_request, state, Err(err)),
                fut,
            ) ==> {
                &&& *final(state) == *state
                &&& fut matches RouterFuture::Unhandled(error) && {
                    &&& error.code.0 == -32602
                    &&& error.data is None
                    &&& exists|shown: String| #[trigger]
                        to_string_from_display_ensures(&err, shown) && error.message@
                            == "Failed to deserialize parameters: "@ + shown@
                }
            },
        forall|state: &mut S, flow: ControlFlow<Result<()>>| #[trigger]
            call_ensures(
                handle_notification::<S, P, NH>,
                (&on_notification, state, Ok(params)),
                flow,
            ) ==> exists|st: &mut S|
                {
                    &&& *st == *state
                    &&& *final(st) == *final(state)
                    &&& #[trigger] call_ensures(on_notification, (st, params), flow)
                },
        forall|state: &mut S, flow: ControlFlow<Result<()>>| #[trigger]
            call_ensures(
                handle_notification::<S, P, NH>,
                (&on_notification, state, Err(err)),
                flow,
            ) ==> {
                &&& *final(state) == *state
                &&& flow == ControlFlow::<Result<()>>::Break(Err(Error::Deserialize(err)))
            },
{
}

/// A handler of events of a type gets the value that the event was made of.
pub proof fn law_handlers_of_events<
    S,
    E: Send + 'static,
    EH: Fn(&mut S, E) -> ControlFlow<Result<()>>,
>(handler: EH, event: AnyEvent, value: E)
    requires
        event.carries(value),
    ensures
        forall|state: &mut S, flow: ControlFlow<Result<()>>| #[trigger]
            call_ensures(handle_event::<S, E, EH>, (&handler, state, event), flow) ==> exists|
                st: &mut S,
            |
                {
                    &&& *st == *state
                    &&& *final(st) == *final(state)
                    &&& #[trigger] call_ensures(handler, (st, value), flow)
                },
{
}

/// What is answered without a handler names the method or the event, whatever it is. Parameters
/// that could be read are those that a handler gets.
pub proof fn law_answers_without_handlers<P>(
    method: &str,
    error: ResponseError,
    event: AnyEvent,
    flow: ControlFlow<Result<()>>,
    params: P,
    read: core::result::Result<P, ResponseError>,
    noticed: core::result::Result<P, ControlFlow<Result<()>>>,
)
    ensures
        call_ensures(no_such_method, (method,), error) ==> error.code.0 == -32601
            && error.message@ == "No such method "@ + method@ && error.data is None,
        call_ensures(skip_notification, (method,), flow) && method@.len() >= 2 && method@[0] == '$'
            && method@[1] == '/' ==> flow == ControlFlow::<Result<()>>::Continue(()),
        call_ensures(skip_notification, (method,), flow) && !(method@.len() >= 2 && method@[0] == '$'
            && method@[1] == '/') ==> (flow matches ControlFlow::Break(Err(Error::Routing(text)))
            && text@ == "Unhandled notification: "@ + method@),
        call_ensures(refuse_event, (&event,), flow) ==> (flow matches ControlFlow::Break(
            Err(Error::Routing(text)),
        ) && text@ == "Unhandled event: "@ + event.shown()),
        call_ensures(request_params::<P>, (Ok(params),), read) ==> read == Ok::<P, ResponseError>(
            params,
        ),
        call_ensures(notification_params::<P>, (Ok(params),), noticed) ==> noticed == Ok::<
            P,
            ControlFlow<Result<()>>,
        >(params),
{
    reveal_strlit("$/");
    let m = method@;
    if m.len() >= 2 && m[0] == '$' && m[1] == '/' {
        assert("$/"@ =~= m.subrange(0, 2));
    } else if "$/"@.is_prefix_of(m) {
        assert(m.subrange(0, 2)[0] == '$' && m.subrange(0, 2)[1] == '/');
    }
}

/// A new router has no handlers, and the state that it is given.
pub proof fn law_new_router<S, RH, NH, EH>(
    state: S,
    router: Router<S, RH, NH, EH>,
    method: Seq<char>,
    id: TypeId,
)
    requires
        call_ensures(Router::<S, RH, NH, EH>::new, (state,), router),
    ensures
        router.state == state,
        !router.req_handlers@.contains_key(method),
        !router.notif_handlers@.contains_key(method),
        !router.event_handlers@.contains_key(id),
        router.unhandled_req is None,
        router.unhandled_notif is None,
        router.unhandled_event is None,
{
    assert(router.request_handler(method) is None);
    assert(router.notification_handler(method) is None);
    assert(router.event_handler(id) is None);
}

/// What the handler of a request leaves in the state is the state of the router afterwards.
pub proof fn law_request_handlers_work_on_the_state<S, Fut, RH, NH, EH>(req: AnyRequest, other: RH) where
    RH: Fn(&mut S, AnyRequest) -> Fut,
    NH: Fn(&mut S, AnyNotification) -> ControlFlow<Result<()>>,
    EH: Fn(&mut S, AnyEvent) -> ControlFlow<Result<()>>,

    ensures
        forall|router: &mut Router<S, RH, NH, EH>, fut: RouterFuture<Fut>|
            router.req_handlers@.contains_key(req.method@) && #[trigger] call_ensures(
                Router::<S, RH, NH, EH>::route_request,
                (router, req),
                fut,
            ) ==> (fut matches RouterFuture::Handled(inner) && exists|state: &mut S|
                {
                    &&& *state == router.state
                    &&& *final(state) == final(router).state
                    &&& #[trigger] call_ensures(
                        router.req_handlers@[req.method@],
                        (state, req),
                        inner,
                    )
                }),
        forall|router: &mut Router<S, RH, NH, EH>, fut: RouterFuture<Fut>|
            !router.req_handlers@.contains_key(req.method@) && router.unhandled_req == Some(other)
                && #[trigger] call_ensures(
                Router::<S, RH, NH, EH>::route_request,
                (router, req),
                fut,
            ) ==> (fut matches RouterFuture::Handled(inner) && exists|state: &mut S|
                {
                    &&& *state == router.state
                    &&& *final(state) == final(router).state
                    &&& #[trigger] call_ensures(other, (state, req), inner)
                }),
{
}

/// What the handler of a notification leaves in the state is the state of the router afterwards.
pub proof fn law_notification_handlers_work_on_the_state<S, Fut, RH, NH, EH>(
    notif: AnyNotification,
    other: NH,
) where
    RH: Fn(&mut S, AnyRequest) -> Fut,
    NH: Fn(&mut S, AnyNotification) -> ControlFlow<Result<()>>,
    EH: Fn(&mut S, AnyEvent) -> ControlFlow<Result<()>>,

    ensures
        forall|router: &mut Router<S, RH, NH, EH>, flow: ControlFlow<Result<()>>|
            router.notif_handlers@.contains_key(notif.method@) && #[trigger] call_ensures(
                Router::<S, RH, NH, EH>::route_notification,
                (router, notif),
                flow,
            ) ==> exists|state: &mut S|
                {
                    &&& *state == router.state
                    &&& *final(state) == final(router).state
                    &&& #[trigger] call_ensures(
                        router.notif_handlers@[notif.method@],
                        (state, notif),
                        flow,
                    )
                },
        forall|router: &mut Router<S, RH, NH, EH>, flow: ControlFlow<Result<()>>|
            !router.notif_handlers@.contains_key(notif.method@) && router.unhandled_notif == Some(
                other,
            ) && #[trigger] call_ensures(
                Router::<S, RH, NH, EH>::route_notification,
                (router, notif),
                flow,
            ) ==> exists|state: &mut S|
                {
                    &&& *state == router.state
                    &&& *final(state) == final(router).state
                    &&& #[trigger] call_ensures(other, (state, notif), flow)
                },
{
}

/// What the handler of an event leaves in the state is the state of the router afterwards.
pub proof fn law_event_handlers_work_on_the_state<S, Fut, RH, NH, EH>(
    event: AnyEvent,
    other: EH,
) where
    RH: Fn(&mut S, AnyRequest) -> Fut,
    NH: Fn(&mut S, AnyNotification) -> ControlFlow<Result<()>>,
    EH: Fn(&mut S, AnyEvent) -> ControlFlow<Result<()>>,

    ensures
        forall|router: &mut Router<S, RH, NH, EH>, flow: ControlFlow<Result<()>>|
            router.event_handlers@.contains_key(event.inner_id()) && #[trigger] call_ensures(
                Router::<S, RH, NH, EH>::route_event,
                (router, event),
                flow,
            ) ==> exists|state: &mut S|
                {
                    &&& *state == router.state
                    &&& *final(state) == final(router).state
                    &&& #[trigger] call_ensures(
                        router.event_handlers@[event.inner_id()],
                        (state, event),
                        flow,
                    )
                },
        forall|router: &mut Router<S, RH, NH, EH>, flow: ControlFlow<Result<()>>|
            !router.event_handlers@.contains_key(event.inner_id()) && router.unhandled_event == Some(
                other,
            ) && #[trigger] call_ensures(
                Router::<S, RH, NH, EH>::route_event,
                (router, event),
                flow,
            ) ==> exists|state: &mut S|
                {
                    &&& *state == router.state
                    &&& *final(state) == final(router).state
                    &&& #[trigger] call_ensures(other, (state, event), flow)
                },
{
}

} // verus!
