//! The sockets through which the main loop is asked to send messages and deliver events.
use std::ops::ControlFlow;
use std::task::Context;

use futures::channel::mpsc::{unbounded, UnboundedReceiver, UnboundedSender};
use futures::channel::oneshot;
use futures::FutureExt;
use vstd::prelude::*;

use crate::error::{Error, ErrorCode, ResponseError, Result};
use crate::event::{is_id_of, AnyEvent};
use crate::json::{json_is_null, JsonValue};
use crate::message::{AnyNotification, AnyRequest, AnyResponse, Message, RequestId};
use crate::service::{LspService, Poll};

verus! {

/// [`futures::channel::mpsc::UnboundedSender`], carried as an opaque value.
#[verifier::external_type_specification]
#[verifier::external_body]
#[verifier::reject_recursive_types(T)]
pub struct ExUnboundedSender<T>(futures::channel::mpsc::UnboundedSender<T>);

/// [`futures::channel::mpsc::UnboundedReceiver`], carried as an opaque value.
#[verifier::external_type_specification]
#[verifier::external_body]
#[verifier::reject_recursive_types(T)]
pub struct ExUnboundedReceiver<T>(futures::channel::mpsc::UnboundedReceiver<T>);

/// [`futures::channel::oneshot::Sender`], carried as an opaque value.
#[verifier::external_type_specification]
#[verifier::external_body]
#[verifier::reject_recursive_types(T)]
pub struct ExOneshotSender<T>(futures::channel::oneshot::Sender<T>);

/// [`futures::channel::oneshot::Receiver`], carried as an opaque value.
#[verifier::external_type_specification]
#[verifier::external_body]
#[verifier::reject_recursive_types(T)]
pub struct ExOneshotReceiver<T>(futures::channel::oneshot::Receiver<T>);

/// [`futures::channel::oneshot::Canceled`], carried as an opaque value.
#[verifier::external_type_specification]
#[verifier::external_body]
pub struct ExCanceled(futures::channel::oneshot::Canceled);

/// What a socket asks of the main loop.
pub enum MainLoopEvent {
    /// Send a message to the peer.
    Outgoing(Message),
    /// Send a request to the peer, and hand its response back.
    OutgoingRequest(AnyRequest, oneshot::Sender<AnyResponse>),
    /// Deliver an event to the service.
    Any(AnyEvent),
}

/// [`futures::channel::mpsc::unbounded`], of whose results [`linked`] tells.
pub assume_specification<T>[ unbounded::<T> ]() -> (pair: (
    UnboundedSender<T>,
    UnboundedReceiver<T>,
));

/// [`futures::channel::oneshot::channel`], of whose results [`paired`] tells.
pub assume_specification<T>[ oneshot::channel::<T> ]() -> (pair: (
    oneshot::Sender<T>,
    oneshot::Receiver<T>,
));

/// [`futures::channel::oneshot::Sender::send`]. Whether the value is taken depends on whether the
/// receiver still is there; [`delivered`] tells that it was called.
pub assume_specification<T>[ oneshot::Sender::<T>::send ](
    tx: oneshot::Sender<T>,
    t: T,
) -> (sent: core::result::Result<(), T>);

/// The [`Clone`] of [`UnboundedSender`], which gives another sender of the same channel.
pub assume_specification<T>[ <UnboundedSender<T> as Clone>::clone ](tx: &UnboundedSender<T>) -> (copy:
    UnboundedSender<T>)
    ensures
        copy == *tx,
;

/// [`UnboundedSender::unbounded_send`]. Whether the event is taken depends on whether the receiver
/// still is there, of which [`offered`] tells.
#[verifier::external_body]
fn offer(tx: &UnboundedSender<MainLoopEvent>, event: MainLoopEvent) -> (taken: bool) {
    tx.unbounded_send(event).is_ok()
}

/// [`futures::channel::mpsc::unbounded`], whose receiver is dropped at once: then the sender never
/// gets anything taken.
#[verifier::external_body]
fn closed_sender() -> (tx: UnboundedSender<MainLoopEvent>)
    ensures
        forall|event: MainLoopEvent| !#[trigger] offered(tx, event, true),
{
    unbounded().0
}

/// The `poll` of [`futures::channel::oneshot::Receiver`]. What comes out depends on what the sender
/// did, of which [`received`] tells; a response comes out only where it was sent through the sender
/// of the channel. The receiver is handed back.
#[verifier::external_body]
fn poll_receiver(mut rx: oneshot::Receiver<AnyResponse>, cx: &Context<'_>) -> (polled: (
    oneshot::Receiver<AnyResponse>,
    Poll<core::result::Result<AnyResponse, oneshot::Canceled>>,
))
    ensures
        polled.0 == rx,
        polled.1 matches Poll::Ready(Ok(response)) ==> forall|tx: oneshot::Sender<AnyResponse>|
            #[trigger] paired(tx, rx) ==> delivered(tx, response),
{
    match rx.poll_unpin(&mut Context::from_waker(cx.waker())) {
        std::task::Poll::Ready(received) => (rx, Poll::Ready(received)),
        std::task::Poll::Pending => (rx, Poll::Pending),
    }
}

/// What is sent through `tx` comes out of `rx`.
pub open spec fn linked(
    tx: UnboundedSender<MainLoopEvent>,
    rx: UnboundedReceiver<MainLoopEvent>,
) -> bool {
    call_ensures(unbounded::<MainLoopEvent>, (), (tx, rx))
}

/// What is sent through `tx` comes out of `rx`.
pub open spec fn paired(
    tx: oneshot::Sender<AnyResponse>,
    rx: oneshot::Receiver<AnyResponse>,
) -> bool {
    call_ensures(oneshot::channel::<AnyResponse>, (), (tx, rx))
}

/// The response was sent through `tx`.
pub open spec fn delivered(tx: oneshot::Sender<AnyResponse>, response: AnyResponse) -> bool {
    exists|sent: core::result::Result<(), AnyResponse>|
        #[trigger] call_ensures(oneshot::Sender::<AnyResponse>::send, (tx, response), sent)
}

/// The event was sent through `tx`, and taken or not.
pub closed spec fn offered(
    tx: UnboundedSender<MainLoopEvent>,
    event: MainLoopEvent,
    taken: bool,
) -> bool {
    call_ensures(offer, (&tx, event), taken)
}

/// Asked in state `pre`, the receiver may give `polled` and be left in state `post`.
pub closed spec fn received(
    pre: oneshot::Receiver<AnyResponse>,
    post: oneshot::Receiver<AnyResponse>,
    polled: Poll<core::result::Result<AnyResponse, oneshot::Canceled>>,
) -> bool {
    exists|cx: &Context<'_>| #[trigger] call_ensures(poll_receiver, (pre, cx), (post, polled))
}

/// The pending response to a request that a socket asked to be sent.
pub struct Reply {
    /// Where the response comes out, or nothing where the main loop had stopped.
    pub rx: Option<oneshot::Receiver<AnyResponse>>,
}

impl Reply {
    /// The response that a receiver gave, or nothing where its sender is gone.
    pub open spec fn response(
        answer: Poll<core::result::Result<AnyResponse, oneshot::Canceled>>,
    ) -> Poll<Option<AnyResponse>> {
        match answer {
            Poll::Pending => Poll::Pending,
            Poll::Ready(Ok(response)) => Poll::Ready(Some(response)),
            Poll::Ready(Err(_)) => Poll::Ready(None),
        }
    }

    /// Asked in state `pre`, the reply may give `polled` in state `post`. There is no response
    /// where the main loop has stopped.
    pub open spec fn polls(pre: Self, post: Self, polled: Poll<Option<AnyResponse>>) -> bool {
        match pre.rx {
            Some(rx) => post.rx matches Some(next) && exists|
                answer: Poll<core::result::Result<AnyResponse, oneshot::Canceled>>,
            | #[trigger]
                received(rx, next, answer) && polled == Self::response(answer),
            None => post.rx is None && polled == Poll::Ready(None::<AnyResponse>),
        }
    }

    /// Asks whether the response has come.
    fn poll(&mut self, cx: &mut Context<'_>) -> (polled: Poll<Option<AnyResponse>>)
        ensures
            Self::polls(*old(self), *final(self), polled),
    {
        let waiting = self.rx.take();
        match waiting {
            Some(rx) => {
                let poll_rx = poll_receiver;
                let (next, answer) = poll_rx(rx, &*cx);
                self.rx = Some(next);
                assert(received(rx, self.rx->Some_0, answer));
                match answer {
                    Poll::Pending => Poll::Pending,
                    Poll::Ready(Ok(response)) => Poll::Ready(Some(response)),
                    Poll::Ready(Err(_)) => Poll::Ready(None),
                }
            },
            None => Poll::Ready(None),
        }
    }
}

/// The pending outcome of a request through a socket.
pub struct PeerSocketRequestFuture {
    /// The pending response.
    pub reply: Reply,
}

impl PeerSocketRequestFuture {
    /// What a request comes to: its response, or [`Error::ServiceStopped`] where there is none.
    pub open spec fn settles(
        response: Option<AnyResponse>,
        outcome: Result<JsonValue>,
    ) -> bool {
        match response {
            None => outcome == Err::<JsonValue, Error>(Error::ServiceStopped),
            Some(response) => match outcome {
                Ok(value) => response.says(Ok(value)),
                Err(Error::Response(error)) => response.says(Err(error)),
                Err(_) => false,
            },
        }
    }

    /// What a request comes to, given its response.
    pub fn settle(response: Option<AnyResponse>) -> (outcome: Result<JsonValue>)
        ensures
            Self::settles(response, outcome),
    {
        match response {
            None => Err(Error::ServiceStopped),
            Some(response) => match response.into_outcome() {
                Ok(value) => Ok(value),
                Err(error) => Err(Error::Response(error)),
            },
        }
    }

    /// Asks whether the outcome has come.
    pub fn poll(&mut self, cx: &mut Context<'_>) -> (polled: Poll<Result<JsonValue>>)
        ensures
            exists|response: Poll<Option<AnyResponse>>|
                {
                    &&& #[trigger] Reply::polls(old(self).reply, final(self).reply, response)
                    &&& match response {
                        Poll::Pending => polled is Pending,
                        Poll::Ready(response) => polled matches Poll::Ready(outcome)
                            && Self::settles(response, outcome),
                    }
                },
    {
        let response = self.reply.poll(cx);
        assert(Reply::polls(old(self).reply, self.reply, response));
        match response {
            Poll::Pending => Poll::Pending,
            Poll::Ready(response) => Poll::Ready(Self::settle(response)),
        }
    }
}

/// The pending outcome of a request that is forwarded through a socket.
pub struct PeerSocketResponseFuture {
    /// The pending response.
    pub reply: Reply,
}

impl PeerSocketResponseFuture {
    /// What a forwarded request comes to: its response, or an error where there is none.
    pub open spec fn settles(
        response: Option<AnyResponse>,
        outcome: core::result::Result<JsonValue, ResponseError>,
    ) -> bool {
        match response {
            None => outcome matches Err(error) && error.says(
                ErrorCode::INTERNAL_ERROR,
                "forwarding service stopped"@,
            ),
            Some(response) => response.says(outcome),
        }
    }

    /// What a forwarded request comes to, given its response.
    pub fn settle(response: Option<AnyResponse>) -> (outcome: core::result::Result<
        JsonValue,
        ResponseError,
    >)
        ensures
            Self::settles(response, outcome),
    {
        match response {
            None => Err(
                ResponseError::of(
                    ErrorCode::INTERNAL_ERROR,
                    "forwarding service stopped".to_owned(),
                ),
            ),
            Some(response) => response.into_outcome(),
        }
    }

    /// Asks whether the outcome has come.
    pub fn poll(&mut self, cx: &mut Context<'_>) -> (polled: Poll<
        core::result::Result<JsonValue, ResponseError>,
    >)
        ensures
            exists|response: Poll<Option<AnyResponse>>|
                {
                    &&& #[trigger] Reply::polls(old(self).reply, final(self).reply, response)
                    &&& match response {
                        Poll::Pending => polled is Pending,
                        Poll::Ready(response) => polled matches Poll::Ready(outcome)
                            && Self::settles(response, outcome),
                    }
                },
    {
        let response = self.reply.poll(cx);
        assert(Reply::polls(old(self).reply, self.reply, response));
        match response {
            Poll::Pending => Poll::Pending,
            Poll::Ready(response) => Poll::Ready(Self::settle(response)),
        }
    }
}

/// What a client and a server socket have in common.
#[derive(Debug)]
pub struct PeerSocket {
    /// Where the events for the main loop go.
    pub tx: UnboundedSender<MainLoopEvent>,
}

impl Clone for PeerSocket {
    fn clone(&self) -> (copy: Self)
        ensures
            copy == *self,
    {
        PeerSocket { tx: self.tx.clone() }
    }
}

impl PeerSocket {
    /// No event is ever taken.
    pub open spec fn is_closed(self) -> bool {
        forall|event: MainLoopEvent| !#[trigger] offered(self.tx, event, true)
    }

    /// The event was sent to the main loop, which took it where `result` is `Ok`.
    pub open spec fn sends(self, event: MainLoopEvent, result: Result<()>) -> bool {
        match result {
            Ok(()) => offered(self.tx, event, true),
            Err(error) => offered(self.tx, event, false) && error is ServiceStopped,
        }
    }

    /// The request was sent to the main loop, and `reply` is where the response comes out.
    pub open spec fn asks(self, req: AnyRequest, reply: Reply) -> bool {
        exists|tx: oneshot::Sender<AnyResponse>, rx: oneshot::Receiver<AnyResponse>|
            {
                &&& #[trigger] paired(tx, rx)
                &&& match reply.rx {
                    Some(at) => at == rx && offered(
                        self.tx,
                        MainLoopEvent::OutgoingRequest(req, tx),
                        true,
                    ),
                    None => offered(self.tx, MainLoopEvent::OutgoingRequest(req, tx), false),
                }
            }
    }

    /// Creates a socket outside a main loop.
    pub fn new_closed() -> (socket: Self)
        ensures
            socket.is_closed(),
    {
        PeerSocket { tx: closed_sender() }
    }

    /// Sends an event to the main loop.
    pub fn send(&self, event: MainLoopEvent) -> (result: Result<()>)
        ensures
            self.sends(event, result),
    {
        let offer_event = offer;
        if offer_event(&self.tx, event) {
            Ok(())
        } else {
            Err(Error::ServiceStopped)
        }
    }

    /// Sends a request to the main loop, and gives what waits for the response.
    fn ask(&self, req: AnyRequest) -> (reply: Reply)
        ensures
            self.asks(req, reply),
    {
        let channel = oneshot::channel::<AnyResponse>;
        let (tx, rx) = channel();
        assert(paired(tx, rx));
        match self.send(MainLoopEvent::OutgoingRequest(req, tx)) {
            Ok(()) => Reply { rx: Some(rx) },
            Err(_) => Reply { rx: None },
        }
    }

    /// Sends a request to the peer. The main loop gives it its identifier.
    pub fn request(&self, method: String, params: JsonValue) -> (fut: PeerSocketRequestFuture)
        ensures
            self.asks((AnyRequest { id: RequestId::Number(0), method, params }), fut.reply),
    {
        let req = AnyRequest { id: RequestId::Number(0), method, params };
        PeerSocketRequestFuture { reply: self.ask(req) }
    }

    /// Sends a notification to the peer.
    pub fn notify(&self, method: String, params: JsonValue) -> (result: Result<()>)
        ensures
            self.sends(
                MainLoopEvent::Outgoing(
                    Message::Notification((AnyNotification { method, params })),
                ),
                result,
            ),
    {
        self.send(
            MainLoopEvent::Outgoing(Message::Notification(AnyNotification { method, params })),
        )
    }

    /// Sends an event, labelled with the name of its type, to the service.
    pub fn emit<E: Send + 'static>(&self, event: E, label: &'static str) -> (result: Result<()>)
        ensures
            exists|any: AnyEvent|
                {
                    &&& #[trigger] any.carries(event)
                    &&& is_id_of::<E>(any.inner_id())
                    &&& any.label() == label@
                    &&& self.sends(MainLoopEvent::Any(any), result)
                },
    {
        let any = AnyEvent::new(event, label);
        assert(any.carries(event));
        self.send(MainLoopEvent::Any(any))
    }

    /// Forwards a request to the peer.
    pub fn on_call(&mut self, req: AnyRequest) -> (fut: PeerSocketResponseFuture)
        ensures
            *final(self) == *old(self),
            old(self).asks(req, fut.reply),
    {
        PeerSocketResponseFuture { reply: self.ask(req) }
    }

    /// `flow` goes on where the event was taken, and else ends with an error.
    pub open spec fn forwards(self, event: MainLoopEvent, flow: ControlFlow<Result<()>>) -> bool {
        match flow {
            ControlFlow::Continue(()) => self.sends(event, Ok(())),
            ControlFlow::Break(result) => result is Err && self.sends(event, result),
        }
    }

    /// Forwards a notification to the peer.
    pub fn on_notify(&mut self, notif: AnyNotification) -> (flow: ControlFlow<Result<()>>)
        ensures
            *final(self) == *old(self),
            old(self).forwards(MainLoopEvent::Outgoing(Message::Notification(notif)), flow),
    {
        match self.send(MainLoopEvent::Outgoing(Message::Notification(notif))) {
            Ok(()) => ControlFlow::Continue(()),
            Err(error) => ControlFlow::Break(Err(error)),
        }
    }

    /// Forwards an event to the service of the main loop.
    pub fn on_emit(&mut self, event: AnyEvent) -> (flow: ControlFlow<Result<()>>)
        ensures
            *final(self) == *old(self),
            old(self).forwards(MainLoopEvent::Any(event), flow),
    {
        match self.send(MainLoopEvent::Any(event)) {
            Ok(()) => ControlFlow::Continue(()),
            Err(error) => ControlFlow::Break(Err(error)),
        }
    }
}

/// The socket for a Language Server to communicate with its Language Client.
#[derive(Debug)]
pub struct ClientSocket(pub PeerSocket);

impl Clone for ClientSocket {
    fn clone(&self) -> (copy: Self)
        ensures
            copy == *self,
    {
        ClientSocket(self.0.clone())
    }
}

impl ClientSocket {
    /// Creates a closed socket outside a main loop. Any interaction immediately comes to
    /// [`Error::ServiceStopped`].
    ///
    /// This works as a placeholder where a socket is required but actually unused.
    #[must_use]
    pub fn new_closed() -> (socket: Self)
        ensures
            socket.0.is_closed(),
    {
        ClientSocket(PeerSocket::new_closed())
    }

    /// Sends a request to the peer and gives its pending outcome, which is
    /// - [`Error::ServiceStopped`] where the main loop has stopped,
    /// - [`Error::Response`] where the peer replies an error.
    pub fn request(&self, method: String, params: JsonValue) -> (fut: PeerSocketRequestFuture)
        ensures
            self.0.asks((AnyRequest { id: RequestId::Number(0), method, params }), fut.reply),
    {
        self.0.request(method, params)
    }

    /// Sends a notification to the peer.
    ///
    /// An `Ok` result indicates that the message is queued, but it may not be sent yet.
    ///
    /// # Errors
    ///
    /// [`Error::ServiceStopped`] where the main loop has stopped.
    pub fn notify(&self, method: String, params: JsonValue) -> (result: Result<()>)
        ensures
            self.0.sends(
                MainLoopEvent::Outgoing(
                    Message::Notification((AnyNotification { method, params })),
                ),
                result,
            ),
    {
        self.0.notify(method, params)
    }

    /// Sends an event, labelled with the name of its type, to the service of the main loop.
    ///
    /// An `Ok` result indicates that the event is queued, but it may not be processed yet.
    ///
    /// # Errors
    ///
    /// [`Error::ServiceStopped`] where the main loop has stopped.
    pub fn emit<E: Send + 'static>(&self, event: E, label: &'static str) -> (result: Result<()>)
        ensures
            exists|any: AnyEvent|
                {
                    &&& #[trigger] any.carries(event)
                    &&& is_id_of::<E>(any.inner_id())
                    &&& any.label() == label@
                    &&& self.0.sends(MainLoopEvent::Any(any), result)
                },
    {
        self.0.emit(event, label)
    }
}

/// Handing messages to the socket forwards them to the peer.
impl LspService for ClientSocket {
    type Response = JsonValue;

    type Error = ResponseError;

    type Future = PeerSocketResponseFuture;

    open spec fn polls(
        pre: Self,
        post: Self,
        ready: Poll<core::result::Result<(), ResponseError>>,
    ) -> bool {
        &&& post == pre
        &&& ready == Poll::Ready(Ok::<(), ResponseError>(()))
    }

    open spec fn calls(
        pre: Self,
        req: AnyRequest,
        post: Self,
        fut: PeerSocketResponseFuture,
    ) -> bool {
        &&& post == pre
        &&& pre.0.asks(req, fut.reply)
    }

    open spec fn notifies(
        pre: Self,
        notif: AnyNotification,
        post: Self,
        flow: ControlFlow<Result<()>>,
    ) -> bool {
        &&& post == pre
        &&& pre.0.forwards(MainLoopEvent::Outgoing(Message::Notification(notif)), flow)
    }

    open spec fn emits(
        pre: Self,
        event: AnyEvent,
        post: Self,
        flow: ControlFlow<Result<()>>,
    ) -> bool {
        &&& post == pre
        &&& pre.0.forwards(MainLoopEvent::Any(event), flow)
    }

    fn poll_ready(&mut self, _cx: &mut Context<'_>) -> (ready: Poll<
        core::result::Result<(), ResponseError>,
    >) {
        // The socket has an unbounded buffer, and so it is always ready.
        Poll::Ready(Ok(()))
    }

    fn call(&mut self, req: AnyRequest) -> (fut: PeerSocketResponseFuture) {
        self.0.on_call(req)
    }

    fn notify(&mut self, notif: AnyNotification) -> (flow: ControlFlow<Result<()>>) {
        self.0.on_notify(notif)
    }

    fn emit(&mut self, event: AnyEvent) -> (flow: ControlFlow<Result<()>>) {
        self.0.on_emit(event)
    }
}

/// The socket for a Language Client to communicate with its Language Server.
#[derive(Debug)]
pub struct ServerSocket(pub PeerSocket);

impl Clone for ServerSocket {
    fn clone(&self) -> (copy: Self)
        ensures
            copy == *self,
    {
        ServerSocket(self.0.clone())
    }
}

impl ServerSocket {
    /// Creates a closed socket outside a main loop. Any interaction immediately comes to
    /// [`Error::ServiceStopped`].
    ///
    /// This works as a placeholder where a socket is required but actually unused.
    #[must_use]
    pub fn new_closed() -> (socket: Self)
        ensures
            socket.0.is_closed(),
    {
        ServerSocket(PeerSocket::new_closed())
    }

    /// Sends a request to the peer and gives its pending outcome, which is
    /// - [`Error::ServiceStopped`] where the main loop has stopped,
    /// - [`Error::Response`] where the peer replies an error.
    pub fn request(&self, method: String, params: JsonValue) -> (fut: PeerSocketRequestFuture)
        ensures
            self.0.asks((AnyRequest { id: RequestId::Number(0), method, params }), fut.reply),
    {
        self.0.request(method, params)
    }

    /// Sends a notification to the peer.
    ///
    /// An `Ok` result indicates that the message is queued, but it may not be sent yet.
    ///
    /// # Errors
    ///
    /// [`Error::ServiceStopped`] where the main loop has stopped.
    pub fn notify(&self, method: String, params: JsonValue) -> (result: Result<()>)
        ensures
            self.0.sends(
                MainLoopEvent::Outgoing(
                    Message::Notification((AnyNotification { method, params })),
                ),
                result,
            ),
    {
        self.0.notify(method, params)
    }

    /// Sends an event, labelled with the name of its type, to the service of the main loop.
    ///
    /// An `Ok` result indicates that the event is queued, but it may not be processed yet.
    ///
    /// # Errors
    ///
    /// [`Error::ServiceStopped`] where the main loop has stopped.
    pub fn emit<E: Send + 'static>(&self, event: E, label: &'static str) -> (result: Result<()>)
        ensures
            exists|any: AnyEvent|
                {
                    &&& #[trigger] any.carries(event)
                    &&& is_id_of::<E>(any.inner_id())
                    &&& any.label() == label@
                    &&& self.0.sends(MainLoopEvent::Any(any), result)
                },
    {
        self.0.emit(event, label)
    }
}

/// Handing messages to the socket forwards them to the peer.
impl LspService for ServerSocket {
    type Response = JsonValue;

    type Error = ResponseError;

    type Future = PeerSocketResponseFuture;

    open spec fn polls(
        pre: Self,
        post: Self,
        ready: Poll<core::result::Result<(), ResponseError>>,
    ) -> bool {
        &&& post == pre
        &&& ready == Poll::Ready(Ok::<(), ResponseError>(()))
    }

    open spec fn calls(
        pre: Self,
        req: AnyRequest,
        post: Self,
        fut: PeerSocketResponseFuture,
    ) -> bool {
        &&& post == pre
        &&& pre.0.asks(req, fut.reply)
    }

    open spec fn notifies(
        pre: Self,
        notif: AnyNotification,
        post: Self,
        flow: ControlFlow<Result<()>>,
    ) -> bool {
        &&& post == pre
        &&& pre.0.forwards(MainLoopEvent::Outgoing(Message::Notification(notif)), flow)
    }

    open spec fn emits(
        pre: Self,
        event: AnyEvent,
        post: Self,
        flow: ControlFlow<Result<()>>,
    ) -> bool {
        &&& post == pre
        &&& pre.0.forwards(MainLoopEvent::Any(event), flow)
    }

    fn poll_ready(&mut self, _cx: &mut Context<'_>) -> (ready: Poll<
        core::result::Result<(), ResponseError>,
    >) {
        // The socket has an unbounded buffer, and so it is always ready.
        Poll::Ready(Ok(()))
    }

    fn call(&mut self, req: AnyRequest) -> (fut: PeerSocketResponseFuture) {
        self.0.on_call(req)
    }

    fn notify(&mut self, notif: AnyNotification) -> (flow: ControlFlow<Result<()>>) {
        self.0.on_notify(notif)
    }

    fn emit(&mut self, event: AnyEvent) -> (flow: ControlFlow<Result<()>>) {
        self.0.on_emit(event)
    }
}

/// Any interaction with a closed socket comes to [`Error::ServiceStopped`], and a forwarded request
/// to an error, at once.
pub proof fn law_closed_socket(
    socket: PeerSocket,
    event: MainLoopEvent,
    result: Result<()>,
    req: AnyRequest,
    pre: Reply,
    post: Reply,
    polled: Poll<Option<AnyResponse>>,
    outcome: Result<JsonValue>,
    forwarded: core::result::Result<JsonValue, ResponseError>,
)
    requires
        socket.is_closed(),
    ensures
        socket.sends(event, result) ==> result == Err::<(), Error>(Error::ServiceStopped),
        socket.asks(req, pre) && Reply::polls(pre, post, polled) ==> {
            &&& polled matches Poll::Ready(response)
            &&& PeerSocketRequestFuture::settles(response, outcome) ==> outcome == Err::<
                JsonValue,
                Error,
            >(Error::ServiceStopped)
            &&& PeerSocketResponseFuture::settles(response, forwarded) ==> forwarded is Err
        },
{
}

/// What a request through a socket waits for is the same however often it is asked, and the
/// response that comes out in the end was sent through the sender that went to the main loop with
/// the request.
pub proof fn law_response_comes_from_the_main_loop(
    socket: PeerSocket,
    req: AnyRequest,
    reply: Reply,
    post: Reply,
    polled: Poll<Option<AnyResponse>>,
)
    requires
        socket.asks(req, reply),
        Reply::polls(reply, post, polled),
    ensures
        post == reply,
        polled matches Poll::Ready(Some(response)) ==> exists|tx: oneshot::Sender<AnyResponse>|
            {
                &&& #[trigger] offered(socket.tx, MainLoopEvent::OutgoingRequest(req, tx), true)
                &&& delivered(tx, response)
            },
{
}

/// What a socket sends is queued as it is where the result is `Ok`, and else the main loop has
/// stopped: a notification with its method and parameters, and an event with its value.
pub proof fn law_what_is_queued<E: Send + 'static>(
    socket: PeerSocket,
    method: String,
    params: JsonValue,
    event: E,
    label: &'static str,
    result: Result<()>,
)
    ensures
        call_ensures(PeerSocket::notify, (&socket, method, params), result) ==> {
            let notif = AnyNotification { method, params };
            let queued = MainLoopEvent::Outgoing(Message::Notification(notif));
            &&& result is Ok ==> offered(socket.tx, queued, true)
            &&& result matches Err(error) ==> error is ServiceStopped && offered(
                socket.tx,
                queued,
                false,
            )
        },
        call_ensures(PeerSocket::emit::<E>, (&socket, event, label), result) ==> exists|
            any: AnyEvent,
        |
            {
                &&& #[trigger] any.carries(event)
                &&& is_id_of::<E>(any.inner_id())
                &&& any.label() == label@
                &&& result is Ok ==> offered(socket.tx, MainLoopEvent::Any(any), true)
                &&& result matches Err(error) ==> error is ServiceStopped && offered(
                    socket.tx,
                    MainLoopEvent::Any(any),
                    false,
                )
            },
{
}

/// A request through a socket is queued with its method and parameters, together with the sender of
/// a new channel; its pending outcome waits at the receiver, or has nothing to wait for where the
/// main loop has stopped.
pub proof fn law_requests_are_queued(
    socket: PeerSocket,
    method: String,
    params: JsonValue,
    fut: PeerSocketRequestFuture,
)
    requires
        call_ensures(PeerSocket::request, (&socket, method, params), fut),
    ensures
        exists|
            req: AnyRequest,
            tx: oneshot::Sender<AnyResponse>,
            rx: oneshot::Receiver<AnyResponse>,
        |
            {
                &&& req.method == method
                &&& req.params == params
                &&& #[trigger] paired(tx, rx)
                &&& #[trigger] offered(
                    socket.tx,
                    MainLoopEvent::OutgoingRequest(req, tx),
                    fut.reply.rx is Some,
                )
                &&& fut.reply.rx matches Some(at) ==> at == rx
            },
{
    let req = AnyRequest { id: RequestId::Number(0), method, params };
    assert(socket.asks(req, fut.reply));
    let (tx, rx) = choose|tx: oneshot::Sender<AnyResponse>, rx: oneshot::Receiver<AnyResponse>|
        {
            &&& #[trigger] paired(tx, rx)
            &&& match fut.reply.rx {
                Some(at) => at == rx && offered(
                    socket.tx,
                    MainLoopEvent::OutgoingRequest(req, tx),
                    true,
                ),
                None => offered(socket.tx, MainLoopEvent::OutgoingRequest(req, tx), false),
            }
        };
    assert(offered(
        socket.tx,
        MainLoopEvent::OutgoingRequest(req, tx),
        fut.reply.rx is Some,
    ));
}

/// The two kinds of sockets do what the socket inside them does.
pub proof fn law_sockets_agree<E: Send + 'static>(
    socket: PeerSocket,
    method: String,
    params: JsonValue,
    event: E,
    label: &'static str,
    fut: PeerSocketRequestFuture,
    result: Result<()>,
)
    ensures
        call_ensures(ClientSocket::request, (&ClientSocket(socket), method, params), fut)
            || call_ensures(ServerSocket::request, (&ServerSocket(socket), method, params), fut)
            ==> socket.asks((AnyRequest { id: RequestId::Number(0), method, params }), fut.reply),
        call_ensures(ClientSocket::notify, (&ClientSocket(socket), method, params), result)
            || call_ensures(ServerSocket::notify, (&ServerSocket(socket), method, params), result)
            ==> socket.sends(
            MainLoopEvent::Outgoing(Message::Notification((AnyNotification { method, params }))),
            result,
        ),
        call_ensures(ClientSocket::emit::<E>, (&ClientSocket(socket), event, label), result)
            || call_ensures(
            ServerSocket::emit::<E>,
            (&ServerSocket(socket), event, label),
            result,
        ) ==> exists|any: AnyEvent| #[trigger]
            any.carries(event) && is_id_of::<E>(any.inner_id()) && socket.sends(
                MainLoopEvent::Any(any),
                result,
            ),
{
}

/// As a service, a socket is always ready, and forwards each request, notification and event as it
/// is. The main loop goes on where the message was taken, and else ends with an error.
pub proof fn law_sockets_forward(
    socket: PeerSocket,
    post: PeerSocket,
    ready: Poll<core::result::Result<(), ResponseError>>,
    req: AnyRequest,
    fut: PeerSocketResponseFuture,
    notif: AnyNotification,
    event: AnyEvent,
    flow: ControlFlow<Result<()>>,
)
    ensures
        ClientSocket::polls(ClientSocket(socket), ClientSocket(post), ready)
            || ServerSocket::polls(ServerSocket(socket), ServerSocket(post), ready) ==> ready
            == Poll::Ready(Ok::<(), ResponseError>(())) && post == socket,
        ClientSocket::calls(ClientSocket(socket), req, ClientSocket(post), fut)
            || ServerSocket::calls(ServerSocket(socket), req, ServerSocket(post), fut) ==> {
            &&& post == socket
            &&& exists|tx: oneshot::Sender<AnyResponse>, rx: oneshot::Receiver<AnyResponse>|
                {
                    &&& #[trigger] paired(tx, rx)
                    &&& match fut.reply.rx {
                        Some(at) => at == rx && offered(
                            socket.tx,
                            MainLoopEvent::OutgoingRequest(req, tx),
                            true,
                        ),
                        None => offered(
                            socket.tx,
                            MainLoopEvent::OutgoingRequest(req, tx),
                            false,
                        ),
                    }
                }
        },
        ClientSocket::notifies(ClientSocket(socket), notif, ClientSocket(post), flow)
            || ServerSocket::notifies(ServerSocket(socket), notif, ServerSocket(post), flow) ==> {
            &&& post == socket
            &&& offered(
                socket.tx,
                MainLoopEvent::Outgoing(Message::Notification(notif)),
                flow is Continue,
            )
            &&& flow is Continue || flow == ControlFlow::<Result<()>>::Break(
                Err(Error::ServiceStopped),
            )
        },
        ClientSocket::emits(ClientSocket(socket), event, ClientSocket(post), flow)
            || ServerSocket::emits(ServerSocket(socket), event, ServerSocket(post), flow) ==> {
            &&& post == socket
            &&& offered(socket.tx, MainLoopEvent::Any(event), flow is Continue)
            &&& flow is Continue || flow == ControlFlow::<Result<()>>::Break(
                Err(Error::ServiceStopped),
            )
        },
{
}

/// A request comes to the error of its response, where there is one, and else to the result, or
/// `null` without one. Without a response the main loop has stopped: that is the outcome, or an
/// internal error where the request was forwarded.
pub proof fn law_outcome_is_that_of_the_response(
    response: AnyResponse,
    outcome: Result<JsonValue>,
    forwarded: core::result::Result<JsonValue, ResponseError>,
)
    ensures
        call_ensures(PeerSocketRequestFuture::settle, (Some(response),), outcome) ==> {
            &&& response.error matches Some(error) ==> outcome == Err::<JsonValue, Error>(
                Error::Response(error),
            )
            &&& response.error is None ==> (outcome matches Ok(value) && (response.result
                == Some(value) || response.result is None && json_is_null(value)))
        },
        call_ensures(PeerSocketRequestFuture::settle, (None,), outcome) ==> outcome == Err::<
            JsonValue,
            Error,
        >(Error::ServiceStopped),
        call_ensures(PeerSocketResponseFuture::settle, (Some(response),), forwarded) ==> {
            &&& response.error matches Some(error) ==> forwarded == Err::<JsonValue, ResponseError>(
                error,
            )
            &&& response.error is None ==> (forwarded matches Ok(value) && (response.result
                == Some(value) || response.result is None && json_is_null(value)))
        },
        call_ensures(PeerSocketResponseFuture::settle, (None,), forwarded) ==> (
        forwarded matches Err(error) && {
            &&& error.code.0 == -32603
            &&& error.message@ == "forwarding service stopped"@
            &&& error.data is None
        }),
{
}

/// Whoever asks for the outcome of a request has to wait until the channel of the request gives
/// something, and then gets the outcome that goes with it.
pub proof fn law_pending_outcomes()
    ensures
        forall|
            fut: &mut PeerSocketRequestFuture,
            cx: &mut Context<'_>,
            polled: Poll<Result<JsonValue>>,
        | #[trigger]
            call_ensures(PeerSocketRequestFuture::poll, (fut, cx), polled) ==> match fut.reply.rx {
                None => polled == Poll::Ready(Err::<JsonValue, Error>(Error::ServiceStopped)),
                Some(rx) => exists|
                    answer: Poll<core::result::Result<AnyResponse, oneshot::Canceled>>,
                |
                    {
                        &&& #[trigger] received(rx, rx, answer)
                        &&& match answer {
                            Poll::Pending => polled is Pending,
                            Poll::Ready(Err(_)) => polled == Poll::Ready(
                                Err::<JsonValue, Error>(Error::ServiceStopped),
                            ),
                            Poll::Ready(Ok(response)) => polled matches Poll::Ready(outcome) && {
                                &&& outcome is Err <==> response.error is Some
                                &&& response.error matches Some(error) ==> outcome == Err::<
                                    JsonValue,
                                    Error,
                                >(Error::Response(error))
                                &&& response.error is None ==> (response.result matches Some(
                                        value,
                                    ) ==> outcome == Ok::<JsonValue, Error>(value))
                            },
                        }
                    },
            },
        forall|
            fut: &mut PeerSocketResponseFuture,
            cx: &mut Context<'_>,
            polled: Poll<core::result::Result<JsonValue, ResponseError>>,
        | #[trigger]
            call_ensures(PeerSocketResponseFuture::poll, (fut, cx), polled) ==> match fut.reply.rx {
                None => polled matches Poll::Ready(Err(error)) && error.code.0 == -32603,
                Some(rx) => exists|
                    answer: Poll<core::result::Result<AnyResponse, oneshot::Canceled>>,
                |
                    {
                        &&& #[trigger] received(rx, rx, answer)
                        &&& match answer {
                            Poll::Pending => polled is Pending,
                            Poll::Ready(Err(_)) => polled matches Poll::Ready(Err(error))
                                && error.code.0 == -32603,
                            Poll::Ready(Ok(response)) => polled matches Poll::Ready(outcome) && {
                                &&& outcome is Err <==> response.error is Some
                                &&& response.error matches Some(error) ==> outcome == Err::<
                                    JsonValue,
                                    ResponseError,
                                >(error)
                                &&& response.error is None ==> (response.result matches Some(
                                        value,
                                    ) ==> outcome == Ok::<JsonValue, ResponseError>(value))
                            },
                        }
                    },
            },
{
}

/// Whatever is asked of a closed socket, the main loop has stopped.
pub proof fn law_closed_sockets_send_nothing<E: Send + 'static>(
    client: ClientSocket,
    server: ServerSocket,
    method: String,
    params: JsonValue,
    event: E,
    label: &'static str,
    fut: PeerSocketRequestFuture,
    result: Result<()>,
)
    ensures
        call_ensures(ClientSocket::new_closed, (), client) ==> {
            &&& call_ensures(ClientSocket::notify, (&client, method, params), result)
                || call_ensures(ClientSocket::emit::<E>, (&client, event, label), result) ==> result
                == Err::<(), Error>(Error::ServiceStopped)
            &&& call_ensures(ClientSocket::request, (&client, method, params), fut)
                ==> fut.reply.rx is None
        },
        call_ensures(ServerSocket::new_closed, (), server) ==> {
            &&& call_ensures(ServerSocket::notify, (&server, method, params), result)
                || call_ensures(ServerSocket::emit::<E>, (&server, event, label), result) ==> result
                == Err::<(), Error>(Error::ServiceStopped)
            &&& call_ensures(ServerSocket::request, (&server, method, params), fut)
                ==> fut.reply.rx is None
        },
{
}

/// Copies of sockets talk to the same main loop.
pub proof fn law_copies_of_sockets(
    socket: PeerSocket,
    copy: PeerSocket,
    client: ClientSocket,
    client_copy: ClientSocket,
    server: ServerSocket,
    server_copy: ServerSocket,
)
    ensures
        call_ensures(<PeerSocket as Clone>::clone, (&socket,), copy) ==> copy.tx == socket.tx,
        call_ensures(<ClientSocket as Clone>::clone, (&client,), client_copy) ==> client_copy.0.tx
            == client.0.tx,
        call_ensures(<ServerSocket as Clone>::clone, (&server,), server_copy) ==> server_copy.0.tx
            == server.0.tx,
{
}

} // verus!
