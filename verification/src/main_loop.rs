//! The main loop, which drives a service.
use std::collections::HashMap;
use std::ops::ControlFlow;
use std::task::Context;

use futures::channel::mpsc::{unbounded, UnboundedReceiver};
use futures::channel::oneshot;
use vstd::prelude::*;

use crate::error::{Error, ResponseError, Result};
use crate::event::AnyEvent;
use crate::json::JsonValue;
use crate::message::{AnyNotification, AnyRequest, AnyResponse, Message, RequestId};
use crate::service::{LspService, Poll};
use crate::socket::{delivered, linked, ClientSocket, MainLoopEvent, PeerSocket, ServerSocket};

verus! {

/// The pending response to a request of the peer.
#[derive(Debug)]
pub struct RequestFuture<Fut> {
    /// The pending outcome of the request.
    pub fut: Fut,
    /// The identifier of the request.
    pub id: RequestId,
}

/// The conversion of a value into its own type, which gives the value back.
pub assume_specification<Kept>[ <Kept as std::convert::From<Kept>>::from ](kept: Kept) -> (same:
    Kept)
    ensures
        same == kept,
;

/// `error` is what the error of a service turns into for the peer.
pub open spec fn converts<E>(err: E, error: ResponseError) -> bool where ResponseError: From<E> {
    call_ensures(<ResponseError as From<E>>::from, (err,), error)
}

/// `response` answers request `id` with the outcome that the service came to.
pub open spec fn responds<E>(
    response: AnyResponse,
    id: RequestId,
    outcome: core::result::Result<JsonValue, E>,
) -> bool where ResponseError: From<E> {
    match outcome {
        Ok(value) => response.answers(id, Ok(value)),
        Err(err) => exists|error: ResponseError| #[trigger]
            converts(err, error) && response.answers(id, Err(error)),
    }
}

/// The response to request `id`, given the outcome that the service came to.
pub fn respond<E>(
    id: RequestId,
    outcome: core::result::Result<JsonValue, E>,
) -> (response: AnyResponse) where ResponseError: From<E>
    ensures
        responds(response, id, outcome),
{
    match outcome {
        Ok(value) => AnyResponse::new(id, Ok(value)),
        Err(err) => {
            let convert = <ResponseError as From<E>>::from;
            let error = convert(err);
            assert(converts(err, error));
            AnyResponse::new(id, Err(error))
        },
    }
}

impl<Fut> RequestFuture<Fut> {
    /// What the peer gets, given what came of the pending outcome.
    pub fn response<E>(
        self,
        polled: Poll<core::result::Result<JsonValue, E>>,
    ) -> (ready: core::result::Result<AnyResponse, Self>) where ResponseError: From<E>
        ensures
            match polled {
                Poll::Pending => ready == Err::<AnyResponse, Self>(self),
                Poll::Ready(outcome) => ready matches Ok(response) && responds(
                    response,
                    self.id,
                    outcome,
                ),
            },
    {
        match polled {
            Poll::Pending => Err(self),
            Poll::Ready(outcome) => Ok(respond(self.id, outcome)),
        }
    }
}

/// Service main loop driver for either Language Servers or Language Clients.
#[verifier::reject_recursive_types(S)]
pub struct MainLoop<S> {
    /// The service.
    pub service: S,
    /// Where the events of the sockets come out.
    pub rx: UnboundedReceiver<MainLoopEvent>,
    /// The identifier of the next request to the peer.
    pub outgoing_id: i32,
    /// Where the responses to the requests to the peer go, by the identifiers of these.
    pub outgoing: HashMap<i32, oneshot::Sender<AnyResponse>>,
}

/// Where the main loop looks for something to do.
#[derive(Debug, Clone, Copy, PartialEq, Eq, Structural)]
pub enum Source {
    /// The message to the peer that is being flushed.
    Flush,
    /// The requests of the peer that are being processed.
    Task,
    /// The events of the sockets.
    Event,
    /// The messages of the peer.
    Incoming,
    /// The request of the peer that waits for the service to be ready.
    Waiting,
}

/// The order in which the main loop looks at its sources.
///
/// Outgoing comes before internal, and internal before incoming. Preference on outgoing data
/// provides back pressure in case of flooding incoming requests. While a request waits for the
/// service to be ready, only the last message is flushed beside it: the service may wait for the
/// peer to get it.
pub open spec fn order(waiting: bool) -> Seq<Source> {
    if waiting {
        seq![Source::Waiting, Source::Flush]
    } else {
        seq![Source::Flush, Source::Task, Source::Event, Source::Incoming]
    }
}

/// The source that the main loop looks at after it found nothing in this number of others.
pub fn source_at(waiting: bool, tried: usize) -> (source: Option<Source>)
    ensures
        source == if tried < order(waiting).len() {
            Some(order(waiting)[tried as int])
        } else {
            None
        },
{
    if waiting {
        match tried {
            0 => Some(Source::Waiting),
            1 => Some(Source::Flush),
            _ => None,
        }
    } else {
        match tried {
            0 => Some(Source::Flush),
            1 => Some(Source::Task),
            2 => Some(Source::Event),
            3 => Some(Source::Incoming),
            _ => None,
        }
    }
}

/// What the main loop found in one of its sources.
pub enum Found {
    /// The last message was flushed, or could not be.
    Flushed(Result<()>),
    /// A request of the peer was processed.
    Completed(AnyResponse),
    /// A socket asks for something.
    Asked(MainLoopEvent),
    /// A message of the peer was read, or could not be.
    Read(Result<Message>),
}

/// What the main loop is to do next.
#[derive(Debug)]
pub enum Action<Fut> {
    /// Look at the sources again.
    GoOn,
    /// Look at the sources again, while the request waits for the service to be ready.
    Wait(AnyRequest),
    /// Process the request, and look at the sources again.
    Spawn(RequestFuture<Fut>),
    /// Send the message, and look at the sources again.
    Send(Message),
    /// Flush the last message, and end with this result.
    Stop(Result<()>),
    /// End with this error at once.
    Fail(Error),
}

impl<Fut> Action<Fut> {
    /// What is to be done where a handler left the loop to go on or end.
    pub open spec fn of_flow(flow: ControlFlow<Result<()>, Option<Message>>) -> Self {
        match flow {
            ControlFlow::Continue(Some(msg)) => Action::Send(msg),
            ControlFlow::Continue(None) => Action::GoOn,
            ControlFlow::Break(ret) => Action::Stop(ret),
        }
    }

    /// What is to be done after the service answered a notification or an event.
    pub open spec fn of_answer(flow: ControlFlow<Result<()>>) -> Self {
        match flow {
            ControlFlow::Continue(_) => Action::GoOn,
            ControlFlow::Break(ret) => Action::Stop(ret),
        }
    }

    /// What is to be done about a message of the peer.
    pub open spec fn of_dispatched(dispatched: Dispatched<Fut>) -> Self {
        match dispatched {
            Dispatched::Waiting(req) => Action::Wait(req),
            Dispatched::Spawned(spawned) => Action::Spawn(spawned),
            Dispatched::Flow(flow) => Self::of_flow(flow),
        }
    }

    /// What is to be done where a handler left the loop to go on or end.
    fn from_flow(flow: ControlFlow<Result<()>, Option<Message>>) -> (action: Self)
        ensures
            action == Self::of_flow(flow),
    {
        match flow {
            ControlFlow::Continue(Some(msg)) => Action::Send(msg),
            ControlFlow::Continue(None) => Action::GoOn,
            ControlFlow::Break(ret) => Action::Stop(ret),
        }
    }
}

/// What the main loop ends with, given the result of the handler that ended it and that of flushing
/// the last message.
///
/// The last message was enqueued before the end. To preserve the order at best effort, it is sent
/// before the main loop exits. But the more significant error of the handler overrides that of
/// flushing, if there is any.
pub fn finish(ret: Result<()>, flushed: Result<()>) -> (result: Result<()>)
    ensures
        result == if ret is Err {
            ret
        } else {
            flushed
        },
{
    match ret {
        Err(error) => Err(error),
        Ok(()) => flushed,
    }
}

/// What came of a message of the peer.
#[derive(Debug)]
pub enum Dispatched<Fut> {
    /// The service is not ready for the request, which is to be dispatched again.
    Waiting(AnyRequest),
    /// The service took the request, whose outcome is to be driven.
    Spawned(RequestFuture<Fut>),
    /// The loop goes on, maybe with a message to be sent, or ends.
    Flow(ControlFlow<Result<()>, Option<Message>>),
}

impl<S> MainLoop<S> {
    /// The identifiers of requests to the peer were given out in order.
    pub open spec fn well_formed(self) -> bool {
        &&& self.outgoing_id >= 0
        &&& forall|id: i32| #[trigger]
            self.outgoing@.contains_key(id) ==> 0 <= id < self.outgoing_id
    }

    /// Gives a reference to the service.
    #[must_use]
    pub fn get_ref(&self) -> (service: &S)
        ensures
            *service == self.service,
    {
        &self.service
    }

    /// Gives a mutable reference to the service.
    #[must_use]
    pub fn get_mut(&mut self) -> (service: &mut S)
        ensures
            *service == old(self).service,
            *final(self) == (MainLoop { service: *final(service), ..*old(self) }),
    {
        &mut self.service
    }

    /// Gives up the main loop and returns the service.
    #[must_use]
    pub fn into_inner(self) -> (service: S)
        ensures
            service == self.service,
    {
        self.service
    }

    /// The main loop but for its service has not changed.
    pub open spec fn same_outgoing(self, other: Self) -> bool {
        &&& self.rx == other.rx
        &&& self.outgoing_id == other.outgoing_id
        &&& self.outgoing@ == other.outgoing@
    }

    /// The main loop is new, and `socket` talks to it.
    pub open spec fn is_new(self, socket: PeerSocket) -> bool {
        &&& self.well_formed()
        &&& linked(socket.tx, self.rx)
        &&& self.outgoing_id == 0
        &&& self.outgoing@ == Map::<i32, oneshot::Sender<AnyResponse>>::empty()
    }

    /// Creates a main loop around the service that is built with a socket to it.
    fn new<F: FnOnce(PeerSocket) -> S>(builder: F) -> (created: (Self, PeerSocket))
        requires
            forall|socket: PeerSocket| #[trigger] call_requires(builder, (socket,)),
        ensures
            created.0.is_new(created.1),
            call_ensures(builder, (created.1,), created.0.service),
    {
        broadcast use vstd::std_specs::hash::group_hash_axioms;

        let channel = unbounded::<MainLoopEvent>;
        let (tx, rx) = channel();
        let socket = PeerSocket { tx };
        let this = MainLoop {
            service: builder(socket.clone()),
            rx,
            outgoing_id: 0,
            outgoing: HashMap::new(),
        };
        assert(linked(socket.tx, this.rx));
        (this, socket)
    }

    /// Creates a Language Server main loop.
    #[must_use]
    pub fn new_server<F: FnOnce(ClientSocket) -> S>(builder: F) -> (created: (Self, ClientSocket))
        requires
            forall|socket: ClientSocket| #[trigger] call_requires(builder, (socket,)),
        ensures
            created.0.is_new(created.1.0),
            call_ensures(builder, (created.1,), created.0.service),
    {
        let build = |socket: PeerSocket| -> (service: S)
            ensures
                call_ensures(builder, (ClientSocket(socket),), service),
        {
            builder(ClientSocket(socket))
        };
        let (this, socket) = Self::new(build);
        (this, ClientSocket(socket))
    }

    /// Creates a Language Client main loop.
    #[must_use]
    pub fn new_client<F: FnOnce(ServerSocket) -> S>(builder: F) -> (created: (Self, ServerSocket))
        requires
            forall|socket: ServerSocket| #[trigger] call_requires(builder, (socket,)),
        ensures
            created.0.is_new(created.1.0),
            call_ensures(builder, (created.1,), created.0.service),
    {
        let build = |socket: PeerSocket| -> (service: S)
            ensures
                call_ensures(builder, (ServerSocket(socket),), service),
        {
            builder(ServerSocket(socket))
        };
        let (this, socket) = Self::new(build);
        (this, ServerSocket(socket))
    }
}

impl<S: LspService<Response = JsonValue>> MainLoop<S> where ResponseError: From<S::Error> {
    /// The message can be handed to the service.
    pub open spec fn can_dispatch(self, msg: Message) -> bool {
        match msg {
            Message::Request(req) => {
                &&& self.service.can_poll()
                &&& forall|ready: S|
                    S::polls(
                        self.service,
                        ready,
                        Poll::Ready(Ok::<(), S::Error>(())),
                    ) ==> #[trigger] ready.can_call(req)
            },
            Message::Response(_) => true,
            Message::Notification(notif) => self.service.can_notify(notif),
        }
    }

    /// From state `pre`, the request may come to `dispatched` in state `post`.
    pub open spec fn dispatches_request(
        pre: Self,
        req: AnyRequest,
        post: Self,
        dispatched: Dispatched<S::Future>,
    ) -> bool {
        &&& post.same_outgoing(pre)
        &&& match dispatched {
            Dispatched::Waiting(again) => {
                &&& again == req
                &&& S::polls(pre.service, post.service, Poll::Pending)
            },
            Dispatched::Spawned(spawned) => {
                &&& spawned.id == req.id
                &&& exists|ready: S|
                    {
                        &&& S::polls(pre.service, ready, Poll::Ready(Ok::<(), S::Error>(())))
                        &&& #[trigger] S::calls(ready, req, post.service, spawned.fut)
                    }
            },
            Dispatched::Flow(flow) => {
                &&& flow matches ControlFlow::Continue(Some(Message::Response(response)))
                &&& exists|err: S::Error|
                    {
                        &&& #[trigger] S::polls(
                            pre.service,
                            post.service,
                            Poll::Ready(Err::<(), S::Error>(err)),
                        )
                        &&& responds(response, req.id, Err(err))
                    }
            },
        }
    }

    /// From state `pre`, the response leads to state `post`: it goes to whom it is for, if to
    /// anyone, who gets no other.
    pub open spec fn dispatches_response(pre: Self, response: AnyResponse, post: Self) -> bool {
        &&& post.service == pre.service
        &&& post.rx == pre.rx
        &&& post.outgoing_id == pre.outgoing_id
        &&& match response.id {
            RequestId::Number(id) => {
                &&& post.outgoing@ == pre.outgoing@.remove(id)
                &&& pre.outgoing@.contains_key(id) ==> delivered(pre.outgoing@[id], response)
            },
            RequestId::String(_) => post.outgoing@ == pre.outgoing@,
        }
    }

    /// From state `pre`, the notification may come to `dispatched` in state `post`.
    pub open spec fn dispatches_notification(
        pre: Self,
        notif: AnyNotification,
        post: Self,
        dispatched: Dispatched<S::Future>,
    ) -> bool {
        &&& post.same_outgoing(pre)
        &&& dispatched matches Dispatched::Flow(flow)
        &&& match flow {
            ControlFlow::Continue(None) => S::notifies(
                pre.service,
                notif,
                post.service,
                ControlFlow::Continue(()),
            ),
            ControlFlow::Continue(Some(_)) => false,
            ControlFlow::Break(ret) => S::notifies(
                pre.service,
                notif,
                post.service,
                ControlFlow::Break(ret),
            ),
        }
    }

    /// From state `pre`, the message may come to `dispatched` in state `post`.
    pub open spec fn dispatches(
        pre: Self,
        msg: Message,
        post: Self,
        dispatched: Dispatched<S::Future>,
    ) -> bool {
        match msg {
            Message::Request(req) => Self::dispatches_request(pre, req, post, dispatched),
            Message::Response(response) => {
                &&& Self::dispatches_response(pre, response, post)
                &&& dispatched == Dispatched::<S::Future>::Flow(ControlFlow::Continue(None))
            },
            Message::Notification(notif) => Self::dispatches_notification(
                pre,
                notif,
                post,
                dispatched,
            ),
        }
    }

    /// Hands a message of the peer to whom it is for.
    pub fn dispatch_message(&mut self, msg: Message, cx: &mut Context<'_>) -> (dispatched:
        Dispatched<S::Future>)
        requires
            old(self).well_formed(),
            old(self).can_dispatch(msg),
        ensures
            final(self).well_formed(),
            Self::dispatches(*old(self), msg, *final(self), dispatched),
    {
        broadcast use vstd::std_specs::hash::group_hash_axioms;

        match msg {
            Message::Request(req) => {
                let ready = self.service.poll_ready(cx);
                assert(S::polls(old(self).service, self.service, ready));
                match ready {
                    Poll::Pending => Dispatched::Waiting(req),
                    Poll::Ready(Err(err)) => {
                        let response = respond::<S::Error>(req.id, Err(err));
                        Dispatched::Flow(ControlFlow::Continue(Some(Message::Response(response))))
                    },
                    Poll::Ready(Ok(unit)) => {
                        assert(unit == ());
                        let id = req.id.clone();
                        let ghost ready = self.service;
                        assert(S::polls(
                            old(self).service,
                            ready,
                            Poll::Ready(Ok::<(), S::Error>(())),
                        ));
                        assert(ready.can_call(req));
                        let spawned = RequestFuture { fut: self.service.call(req), id };
                        assert(S::calls(ready, req, self.service, spawned.fut));
                        Dispatched::Spawned(spawned)
                    },
                }
            },
            Message::Response(response) => {
                if let RequestId::Number(id) = response.id {
                    if let Some(tx) = self.outgoing.remove(&id) {
                        let send = oneshot::Sender::<AnyResponse>::send;
                        // The one who asked may not wait for the response any more.
                        let _ = send(tx, response);
                    }
                }
                Dispatched::Flow(ControlFlow::Continue(None))
            },
            Message::Notification(notif) => match self.service.notify(notif) {
                ControlFlow::Continue(unit) => {
                    assert(unit == ());
                    Dispatched::Flow(ControlFlow::Continue(None))
                },
                ControlFlow::Break(ret) => Dispatched::Flow(ControlFlow::Break(ret)),
            },
        }
    }

    /// The event can be handed to the service, or there is an identifier for the request.
    pub open spec fn can_dispatch_event(self, event: MainLoopEvent) -> bool {
        match event {
            MainLoopEvent::OutgoingRequest(_, _) => self.outgoing_id < i32::MAX,
            MainLoopEvent::Outgoing(_) => true,
            MainLoopEvent::Any(event) => self.service.can_emit(event),
        }
    }

    /// From state `pre`, the event may come to `flow` in state `post`.
    pub open spec fn dispatches_event(
        pre: Self,
        event: MainLoopEvent,
        post: Self,
        flow: ControlFlow<Result<()>, Option<Message>>,
    ) -> bool {
        match event {
            MainLoopEvent::OutgoingRequest(req, tx) => {
                &&& post.service == pre.service
                &&& post.rx == pre.rx
                &&& post.outgoing_id == pre.outgoing_id + 1
                &&& post.outgoing@ == pre.outgoing@.insert(pre.outgoing_id, tx)
                &&& flow == ControlFlow::<Result<()>, Option<Message>>::Continue(
                    Some(
                        Message::Request(
                            (AnyRequest { id: RequestId::Number(pre.outgoing_id), ..req }),
                        ),
                    ),
                )
            },
            MainLoopEvent::Outgoing(msg) => {
                &&& post == pre
                &&& flow == ControlFlow::<Result<()>, Option<Message>>::Continue(Some(msg))
            },
            MainLoopEvent::Any(event) => {
                &&& post.same_outgoing(pre)
                &&& match flow {
                    ControlFlow::Continue(None) => S::emits(
                        pre.service,
                        event,
                        post.service,
                        ControlFlow::Continue(()),
                    ),
                    ControlFlow::Continue(Some(_)) => false,
                    ControlFlow::Break(ret) => S::emits(
                        pre.service,
                        event,
                        post.service,
                        ControlFlow::Break(ret),
                    ),
                }
            },
        }
    }

    /// Does what a socket asks for.
    pub fn dispatch_event(&mut self, event: MainLoopEvent) -> (flow: ControlFlow<
        Result<()>,
        Option<Message>,
    >)
        requires
            old(self).well_formed(),
            old(self).can_dispatch_event(event),
        ensures
            final(self).well_formed(),
            Self::dispatches_event(*old(self), event, *final(self), flow),
    {
        broadcast use vstd::std_specs::hash::group_hash_axioms;

        match event {
            MainLoopEvent::OutgoingRequest(mut req, tx) => {
                req.id = RequestId::Number(self.outgoing_id);
                let replaced = self.outgoing.insert(self.outgoing_id, tx);
                assert(replaced is None);
                self.outgoing_id = self.outgoing_id + 1;
                ControlFlow::Continue(Some(Message::Request(req)))
            },
            MainLoopEvent::Outgoing(msg) => ControlFlow::Continue(Some(msg)),
            MainLoopEvent::Any(event) => match self.service.emit(event) {
                ControlFlow::Continue(unit) => {
                    assert(unit == ());
                    ControlFlow::Continue(None)
                },
                ControlFlow::Break(ret) => ControlFlow::Break(ret),
            },
        }
    }

    /// What was found can be acted upon.
    pub open spec fn can_step(self, found: Found) -> bool {
        match found {
            Found::Asked(event) => self.can_dispatch_event(event),
            Found::Read(Ok(msg)) => self.can_dispatch(msg),
            _ => true,
        }
    }

    /// From state `pre`, what was found may lead to `action` in state `post`.
    pub open spec fn steps(
        pre: Self,
        found: Found,
        post: Self,
        action: Action<S::Future>,
    ) -> bool {
        match found {
            Found::Flushed(result) => {
                &&& post == pre
                &&& action == match result {
                    Ok(_) => Action::<S::Future>::GoOn,
                    Err(error) => Action::<S::Future>::Fail(error),
                }
            },
            Found::Completed(response) => {
                &&& post == pre
                &&& action == Action::<S::Future>::Send(Message::Response(response))
            },
            Found::Asked(event) => exists|flow: ControlFlow<Result<()>, Option<Message>>| #[trigger]
                Self::dispatches_event(pre, event, post, flow) && action
                    == Action::<S::Future>::of_flow(flow),
            Found::Read(Ok(msg)) => exists|dispatched: Dispatched<S::Future>| #[trigger]
                Self::dispatches(pre, msg, post, dispatched) && action
                    == Action::<S::Future>::of_dispatched(dispatched),
            Found::Read(Err(error)) => {
                &&& post == pre
                &&& action == Action::<S::Future>::Fail(error)
            },
        }
    }

    /// Acts upon what the main loop found in one of its sources.
    pub fn step(&mut self, found: Found, cx: &mut Context<'_>) -> (action: Action<S::Future>)
        requires
            old(self).well_formed(),
            old(self).can_step(found),
        ensures
            final(self).well_formed(),
            Self::steps(*old(self), found, *final(self), action),
    {
        match found {
            Found::Flushed(Ok(())) => Action::GoOn,
            Found::Flushed(Err(error)) => Action::Fail(error),
            Found::Completed(response) => Action::Send(Message::Response(response)),
            Found::Asked(event) => {
                let flow = self.dispatch_event(event);
                assert(Self::dispatches_event(*old(self), event, *self, flow));
                Action::from_flow(flow)
            },
            Found::Read(Err(error)) => Action::Fail(error),
            Found::Read(Ok(msg)) => {
                let dispatched = self.dispatch_message(msg, cx);
                assert(Self::dispatches(*old(self), msg, *self, dispatched));
                match dispatched {
                    Dispatched::Waiting(req) => Action::Wait(req),
                    Dispatched::Spawned(spawned) => Action::Spawn(spawned),
                    Dispatched::Flow(flow) => Action::from_flow(flow),
                }
            },
        }
    }
}

/// Each request to the peer is sent under an identifier of its own: whatever happens, the next
/// identifier does not go back, and a request takes the one that is next.
pub proof fn law_identifiers_are_fresh<S: LspService<Response = JsonValue>>(
    pre: MainLoop<S>,
    found: Found,
    post: MainLoop<S>,
    action: Action<S::Future>,
) where ResponseError: From<S::Error>
    requires
        pre.well_formed(),
        MainLoop::<S>::steps(pre, found, post, action),
    ensures
        pre.outgoing_id <= post.outgoing_id,
        found matches Found::Asked(MainLoopEvent::OutgoingRequest(req, tx)) ==> {
            &&& action matches Action::Send(Message::Request(sent))
            &&& sent.id == RequestId::Number(pre.outgoing_id)
            &&& sent.method == req.method
            &&& sent.params == req.params
            &&& !pre.outgoing@.contains_key(pre.outgoing_id)
            &&& pre.outgoing_id < post.outgoing_id
        },
{
}

/// The identifiers do not go back between two steps of a run.
proof fn lemma_identifiers_grow<S: LspService<Response = JsonValue>>(
    states: Seq<MainLoop<S>>,
    found: Seq<Found>,
    actions: Seq<Action<S::Future>>,
    i: int,
    j: int,
) where ResponseError: From<S::Error>
    requires
        0 <= i <= j < states.len(),
        forall|k: int|
            0 <= k < states.len() - 1 ==> #[trigger] states[k].well_formed()
                && MainLoop::<S>::steps(states[k], found[k], states[k + 1], actions[k]),
    ensures
        states[i].outgoing_id <= states[j].outgoing_id,
    decreases j - i,
{
    if i < j {
        assert(states[j - 1].well_formed());
        law_identifiers_are_fresh(states[j - 1], found[j - 1], states[j], actions[j - 1]);
        lemma_identifiers_grow(states, found, actions, i, j - 1);
    }
}

/// In a run of the main loop, no two requests are sent to the peer under one identifier.
pub proof fn law_identifiers_never_repeat<S: LspService<Response = JsonValue>>(
    states: Seq<MainLoop<S>>,
    found: Seq<Found>,
    actions: Seq<Action<S::Future>>,
    i: int,
    j: int,
) where ResponseError: From<S::Error>
    requires
        0 <= i < j < states.len() - 1,
        forall|k: int|
            0 <= k < states.len() - 1 ==> #[trigger] states[k].well_formed()
                && MainLoop::<S>::steps(states[k], found[k], states[k + 1], actions[k]),
        found[i] matches Found::Asked(MainLoopEvent::OutgoingRequest(_, _)),
        found[j] matches Found::Asked(MainLoopEvent::OutgoingRequest(_, _)),
    ensures
        actions[i] matches Action::Send(Message::Request(first)) && actions[j] matches Action::Send(
            Message::Request(second),
        ) && first.id@ != second.id@,
{
    assert(states[i].well_formed());
    assert(states[j].well_formed());
    law_identifiers_are_fresh(states[i], found[i], states[i + 1], actions[i]);
    law_identifiers_are_fresh(states[j], found[j], states[j + 1], actions[j]);
    lemma_identifiers_grow(states, found, actions, i + 1, j);
}

/// Where the errors of a service are error objects already, the peer gets the error of the service.
pub proof fn law_error_of_the_service_reaches_the_peer(
    response: AnyResponse,
    id: RequestId,
    outcome: core::result::Result<JsonValue, ResponseError>,
)
    requires
        responds(response, id, outcome),
    ensures
        response.answers(id, outcome),
{
}

/// Notifications and events are handled synchronously: the step that takes one in hands it to the
/// service, and nothing but the answer of the service decides whether the loop goes on.
pub proof fn law_notifications_and_events_are_synchronous<S: LspService<Response = JsonValue>>(
    pre: MainLoop<S>,
    notif: AnyNotification,
    event: AnyEvent,
    post: MainLoop<S>,
    action: Action<S::Future>,
) where ResponseError: From<S::Error>
    ensures
        MainLoop::<S>::steps(pre, Found::Read(Ok(Message::Notification(notif))), post, action)
            ==> exists|flow: ControlFlow<Result<()>>| #[trigger]
            S::notifies(pre.service, notif, post.service, flow) && action
                == Action::<S::Future>::of_answer(flow),
        MainLoop::<S>::steps(pre, Found::Asked(MainLoopEvent::Any(event)), post, action)
            ==> exists|flow: ControlFlow<Result<()>>| #[trigger]
            S::emits(pre.service, event, post.service, flow) && action
                == Action::<S::Future>::of_answer(flow),
{
    if let Action::Stop(ret) = action {
        assert(Action::<S::Future>::of_answer(ControlFlow::Break(ret)) == action);
    } else {
        assert(Action::<S::Future>::of_answer(ControlFlow::Continue(())) is GoOn);
    }
}

/// The response to a request of the peer carries the identifier of the request, whether the service
/// was not ready for it or came to an outcome, and it has either a result or an error.
pub proof fn law_response_carries_the_identifier<S: LspService<Response = JsonValue>>(
    pre: MainLoop<S>,
    req: AnyRequest,
    post: MainLoop<S>,
    action: Action<S::Future>,
    outcome: core::result::Result<JsonValue, S::Error>,
    response: AnyResponse,
) where ResponseError: From<S::Error>
    requires
        MainLoop::<S>::steps(pre, Found::Read(Ok(Message::Request(req))), post, action),
    ensures
        match action {
            Action::Wait(again) => again == req,
            Action::Send(Message::Response(refusal)) => {
                &&& refusal.id == req.id
                &&& refusal.result is None
                &&& refusal.error is Some
            },
            Action::Spawn(spawned) => {
                &&& spawned.id == req.id
                &&& responds(response, spawned.id, outcome) ==> {
                    &&& response.id == req.id
                    &&& response.result is Some <==> outcome is Ok
                    &&& response.error is Some <==> outcome is Err
                }
            },
            _ => false,
        },
{
}

} // verus!
