//! What the main loop makes of all that it finds.
use std::ops::ControlFlow;
use std::task::Context;

use futures::channel::oneshot;
use vstd::prelude::*;

use crate::error::{Error, ResponseError, Result};
use crate::event::AnyEvent;
use crate::json::JsonValue;
use crate::main_loop::{
    finish, respond, source_at, Action, Found, MainLoop, RequestFuture, Source,
};
use crate::message::{AnyNotification, AnyRequest, AnyResponse, Message, RequestId};
use crate::run::{is_run, Phase, Run};
use crate::service::{LspService, Poll};
use crate::socket::{delivered, linked, ClientSocket, MainLoopEvent, ServerSocket};

verus! {

/// A request of the peer that was processed is answered: its response is sent as it is, whatever
/// its result or error, and nothing else changes.
pub proof fn law_completed_requests_are_answered<S: LspService<Response = JsonValue>>(
    response: AnyResponse,
) where ResponseError: From<S::Error>
    ensures
        forall|main: &mut MainLoop<S>, cx: &mut Context<'_>, action: Action<S::Future>| #[trigger]
            call_ensures(MainLoop::<S>::step, (main, Found::Completed(response), cx), action)
                ==> action == Action::<S::Future>::Send(Message::Response(response))
                && *final(main) == *main,
{
}

/// A message that a socket queues is sent as it is, whatever it says, and nothing else changes.
pub proof fn law_queued_messages_are_sent<S: LspService<Response = JsonValue>>(
    msg: Message,
) where ResponseError: From<S::Error>
    ensures
        forall|main: &mut MainLoop<S>, cx: &mut Context<'_>, action: Action<S::Future>| #[trigger]
            call_ensures(
                MainLoop::<S>::step,
                (main, Found::Asked(MainLoopEvent::Outgoing(msg)), cx),
                action,
            ) ==> action == Action::<S::Future>::Send(msg) && *final(main) == *main,
        forall|main: &mut MainLoop<S>, flow: ControlFlow<Result<()>, Option<Message>>| #[trigger]
            call_ensures(
                MainLoop::<S>::dispatch_event,
                (main, MainLoopEvent::Outgoing(msg)),
                flow,
            ) ==> flow == ControlFlow::<Result<()>, Option<Message>>::Continue(Some(msg))
                && *final(main) == *main,
{
}

/// A request that a socket queues is sent with its method and parameters, under a number that no
/// other request waits under. Then the one who asked waits under that number, beside those who
/// waited before.
pub proof fn law_queued_requests_are_sent<S: LspService<Response = JsonValue>>(
    req: AnyRequest,
    tx: oneshot::Sender<AnyResponse>,
) where ResponseError: From<S::Error>
    ensures
        forall|main: &mut MainLoop<S>, cx: &mut Context<'_>, action: Action<S::Future>|
            main.well_formed() && #[trigger] call_ensures(
                MainLoop::<S>::step,
                (main, Found::Asked(MainLoopEvent::OutgoingRequest(req, tx)), cx),
                action,
            ) ==> {
                &&& action matches Action::Send(Message::Request(sent))
                &&& sent.method == req.method
                &&& sent.params == req.params
                &&& sent.id matches RequestId::Number(id)
                &&& !main.outgoing@.contains_key(id)
                &&& final(main).outgoing@ == main.outgoing@.insert(id, tx)
                &&& final(main).service == main.service
                &&& final(main).well_formed()
            },
{
}

/// A notification of the peer and an event of a socket is handed to the service at once, and the
/// service alone decides whether the main loop goes on or ends, and with what.
pub proof fn law_notifications_and_events_reach_the_service<S: LspService<Response = JsonValue>>(
    notif: AnyNotification,
    event: AnyEvent,
) where ResponseError: From<S::Error>
    ensures
        forall|main: &mut MainLoop<S>, cx: &mut Context<'_>, action: Action<S::Future>| #[trigger]
            call_ensures(
                MainLoop::<S>::step,
                (main, Found::Read(Ok(Message::Notification(notif))), cx),
                action,
            ) ==> {
                &&& match action {
                    Action::GoOn => S::notifies(
                        main.service,
                        notif,
                        final(main).service,
                        ControlFlow::Continue(()),
                    ),
                    Action::Stop(ret) => S::notifies(
                        main.service,
                        notif,
                        final(main).service,
                        ControlFlow::Break(ret),
                    ),
                    _ => false,
                }
                &&& final(main).outgoing@ == main.outgoing@
                &&& final(main).outgoing_id == main.outgoing_id
            },
        forall|main: &mut MainLoop<S>, cx: &mut Context<'_>, action: Action<S::Future>| #[trigger]
            call_ensures(
                MainLoop::<S>::step,
                (main, Found::Asked(MainLoopEvent::Any(event)), cx),
                action,
            ) ==> {
                &&& match action {
                    Action::GoOn => S::emits(
                        main.service,
                        event,
                        final(main).service,
                        ControlFlow::Continue(()),
                    ),
                    Action::Stop(ret) => S::emits(
                        main.service,
                        event,
                        final(main).service,
                        ControlFlow::Break(ret),
                    ),
                    _ => false,
                }
                &&& final(main).outgoing@ == main.outgoing@
                &&& final(main).outgoing_id == main.outgoing_id
            },
{
}

/// A request of the peer waits where the service is not ready, is handed to the service where it
/// is, and is answered with the error of the service where the service fails to be. The main loop
/// neither ends nor passes over it.
pub proof fn law_requests_of_the_peer<S: LspService<Response = JsonValue>>(
    req: AnyRequest,
) where ResponseError: From<S::Error>
    ensures
        forall|main: &mut MainLoop<S>, cx: &mut Context<'_>, action: Action<S::Future>| #[trigger]
            call_ensures(
                MainLoop::<S>::step,
                (main, Found::Read(Ok(Message::Request(req))), cx),
                action,
            ) ==> {
                &&& match action {
                    Action::Wait(again) => {
                        &&& again == req
                        &&& S::polls(main.service, final(main).service, Poll::Pending)
                    },
                    Action::Spawn(spawned) => {
                        &&& spawned.id == req.id
                        &&& exists|ready: S|
                            {
                                &&& S::polls(
                                    main.service,
                                    ready,
                                    Poll::Ready(Ok::<(), S::Error>(())),
                                )
                                &&& #[trigger] S::calls(
                                    ready,
                                    req,
                                    final(main).service,
                                    spawned.fut,
                                )
                            }
                    },
                    Action::Send(Message::Response(response)) => {
                        &&& response.id == req.id
                        &&& response.result is None
                        &&& exists|err: S::Error|
                            {
                                &&& #[trigger] S::polls(
                                    main.service,
                                    final(main).service,
                                    Poll::Ready(Err::<(), S::Error>(err)),
                                )
                                &&& response.error matches Some(error) && call_ensures(
                                    <ResponseError as From<S::Error>>::from,
                                    (err,),
                                    error,
                                )
                            }
                    },
                    _ => false,
                }
                &&& final(main).outgoing@ == main.outgoing@
                &&& final(main).outgoing_id == main.outgoing_id
            },
{
}

/// A response of the peer goes to the one who waits under its number, if anyone does, and to nobody
/// else. The service never learns of it, and the main loop goes on.
pub proof fn law_responses_of_the_peer<S: LspService<Response = JsonValue>>(
    response: AnyResponse,
    id: i32,
) where ResponseError: From<S::Error>
    ensures
        forall|main: &mut MainLoop<S>, cx: &mut Context<'_>, action: Action<S::Future>| #[trigger]
            call_ensures(
                MainLoop::<S>::step,
                (main, Found::Read(Ok(Message::Response(response))), cx),
                action,
            ) ==> {
                &&& action == Action::<S::Future>::GoOn
                &&& final(main).service == main.service
                &&& final(main).outgoing_id == main.outgoing_id
                &&& response.id == RequestId::Number(id) ==> {
                    &&& !final(main).outgoing@.contains_key(id)
                    &&& main.outgoing@.contains_key(id) ==> delivered(main.outgoing@[id], response)
                }
                &&& response.id != RequestId::Number(id) && main.outgoing@.contains_key(id) ==> {
                    &&& final(main).outgoing@.contains_key(id)
                    &&& final(main).outgoing@[id] == main.outgoing@[id]
                }
            },
{
}

/// A failure of the channel ends the main loop with its error at once, and a message that was
/// flushed leaves everything as it was.
pub proof fn law_failures_of_the_channel<S: LspService<Response = JsonValue>>(
    error: Error,
) where ResponseError: From<S::Error>
    ensures
        forall|main: &mut MainLoop<S>, cx: &mut Context<'_>, action: Action<S::Future>| #[trigger]
            call_ensures(MainLoop::<S>::step, (main, Found::Read(Err(error)), cx), action)
                ==> action == Action::<S::Future>::Fail(error) && *final(main) == *main,
        forall|main: &mut MainLoop<S>, cx: &mut Context<'_>, action: Action<S::Future>| #[trigger]
            call_ensures(MainLoop::<S>::step, (main, Found::Flushed(Err(error)), cx), action)
                ==> action == Action::<S::Future>::Fail(error) && *final(main) == *main,
        forall|main: &mut MainLoop<S>, cx: &mut Context<'_>, action: Action<S::Future>| #[trigger]
            call_ensures(MainLoop::<S>::step, (main, Found::Flushed(Ok(())), cx), action)
                ==> action == Action::<S::Future>::GoOn && *final(main) == *main,
{
}

/// Outgoing messages come before internal events, and these before messages of the peer; each
/// source is looked at. While a request waits, it is tried, and the last message is flushed.
pub proof fn law_order_of_the_sources<S>(run: Run<S>, tried: usize, source: Option<Source>)
    requires
        call_ensures(Run::<S>::source_at, (&run, tried), source) || !(run.phase is Ended)
            && call_ensures(source_at, (run.phase is Waiting, tried), source),
    ensures
        run.phase is Running ==> {
            &&& source == Some(Source::Flush) <==> tried == 0
            &&& source == Some(Source::Task) <==> tried == 1
            &&& source == Some(Source::Event) <==> tried == 2
            &&& source == Some(Source::Incoming) <==> tried == 3
            &&& source is None <==> tried > 3
        },
        run.phase is Waiting ==> {
            &&& source == Some(Source::Waiting) <==> tried == 0
            &&& source == Some(Source::Flush) <==> tried == 1
            &&& source is None <==> tried > 1
        },
        run.phase is Ended ==> source is None,
{
}

/// The main loop ends with the error of the handler that ended it, where there is one, and else
/// with that of flushing the last message: it succeeds where both do.
pub proof fn law_end_of_the_main_loop(
    ret: Result<()>,
    flushed: Result<()>,
    result: Result<()>,
)
    requires
        call_ensures(finish, (ret, flushed), result),
    ensures
        result is Ok <==> ret is Ok && flushed is Ok,
        ret is Err ==> result == ret,
        ret is Ok && flushed is Err ==> result == flushed,
{
}

/// A response carries the identifier of its request, and either the result or the error that the
/// service came to. There is none before that.
pub proof fn law_response_says_what_the_service_said<Fut, E>(
    id: RequestId,
    outcome: core::result::Result<JsonValue, E>,
    response: AnyResponse,
    task: RequestFuture<Fut>,
    polled: Poll<core::result::Result<JsonValue, E>>,
    ready: core::result::Result<AnyResponse, RequestFuture<Fut>>,
) where ResponseError: From<E>
    ensures
        call_ensures(respond::<E>, (id, outcome), response) ==> {
            &&& response.id == id
            &&& match outcome {
                Ok(value) => response.result == Some(value) && response.error is None,
                Err(err) => response.result is None && (response.error matches Some(error)
                    && call_ensures(<ResponseError as From<E>>::from, (err,), error)),
            }
        },
        call_ensures(RequestFuture::<Fut>::response::<E>, (task, polled), ready) ==> match polled {
            Poll::Pending => ready == Err::<AnyResponse, RequestFuture<Fut>>(task),
            Poll::Ready(Ok(value)) => ready matches Ok(response) && {
                &&& response.id == task.id
                &&& response.result == Some(value)
                &&& response.error is None
            },
            Poll::Ready(Err(err)) => ready matches Ok(response) && {
                &&& response.id == task.id
                &&& response.result is None
                &&& response.error matches Some(error) && call_ensures(
                    <ResponseError as From<E>>::from,
                    (err,),
                    error,
                )
            },
        },
{
}

/// A turn does what the main loop makes of what was found. While a request waits, flushing does not
/// lose it, and trying it again hands on the same request.
pub proof fn law_turns<S: LspService<Response = JsonValue>>(
    response: AnyResponse,
    msg: Message,
    notif: AnyNotification,
    event: AnyEvent,
    error: Error,
) where ResponseError: From<S::Error>
    ensures
        forall|run: &mut Run<S>, cx: &mut Context<'_>, action: Option<Action<S::Future>>| #[trigger]
            call_ensures(Run::<S>::turn, (run, Some(Found::Completed(response)), cx), action) ==> {
                &&& action == Some(Action::<S::Future>::Send(Message::Response(response)))
                &&& final(run).main == run.main
                &&& final(run).phase is Running
            },
        forall|run: &mut Run<S>, cx: &mut Context<'_>, action: Option<Action<S::Future>>| #[trigger]
            call_ensures(
                Run::<S>::turn,
                (run, Some(Found::Asked(MainLoopEvent::Outgoing(msg))), cx),
                action,
            ) ==> {
                &&& action == Some(Action::<S::Future>::Send(msg))
                &&& final(run).main == run.main
                &&& final(run).phase is Running
            },
        forall|run: &mut Run<S>, cx: &mut Context<'_>, action: Option<Action<S::Future>>| #[trigger]
            call_ensures(
                Run::<S>::turn,
                (run, Some(Found::Read(Ok(Message::Notification(notif)))), cx),
                action,
            ) ==> match action {
                Some(Action::GoOn) => {
                    &&& final(run).phase is Running
                    &&& S::notifies(
                        run.main.service,
                        notif,
                        final(run).main.service,
                        ControlFlow::Continue(()),
                    )
                },
                Some(Action::Stop(ret)) => {
                    &&& final(run).phase is Ended
                    &&& S::notifies(
                        run.main.service,
                        notif,
                        final(run).main.service,
                        ControlFlow::Break(ret),
                    )
                },
                _ => false,
            },
        forall|run: &mut Run<S>, cx: &mut Context<'_>, action: Option<Action<S::Future>>| #[trigger]
            call_ensures(
                Run::<S>::turn,
                (run, Some(Found::Asked(MainLoopEvent::Any(event))), cx),
                action,
            ) ==> match action {
                Some(Action::GoOn) => {
                    &&& final(run).phase is Running
                    &&& S::emits(
                        run.main.service,
                        event,
                        final(run).main.service,
                        ControlFlow::Continue(()),
                    )
                },
                Some(Action::Stop(ret)) => {
                    &&& final(run).phase is Ended
                    &&& S::emits(
                        run.main.service,
                        event,
                        final(run).main.service,
                        ControlFlow::Break(ret),
                    )
                },
                _ => false,
            },
        forall|run: &mut Run<S>, cx: &mut Context<'_>, action: Option<Action<S::Future>>| #[trigger]
            call_ensures(Run::<S>::turn, (run, Some(Found::Flushed(Ok(()))), cx), action) ==> {
                &&& action == Some(Action::<S::Future>::GoOn)
                &&& *final(run) == *run
            },
        forall|run: &mut Run<S>, cx: &mut Context<'_>, action: Option<Action<S::Future>>| #[trigger]
            call_ensures(Run::<S>::turn, (run, Some(Found::Flushed(Err(error))), cx), action) ==> {
                &&& action == Some(Action::<S::Future>::Fail(error))
                &&& final(run).phase is Ended
            },
        forall|run: &mut Run<S>, cx: &mut Context<'_>, action: Option<Action<S::Future>>| #[trigger]
            call_ensures(Run::<S>::turn, (run, Some(Found::Read(Err(error))), cx), action) ==> {
                &&& action == Some(Action::<S::Future>::Fail(error))
                &&& final(run).phase is Ended
            },
        forall|run: &mut Run<S>, cx: &mut Context<'_>, action: Option<Action<S::Future>>|
            run.phase is Waiting && #[trigger] call_ensures(Run::<S>::turn, (run, None, cx), action)
                ==> match action {
                None => {
                    &&& final(run).phase == run.phase
                    &&& S::polls(run.main.service, final(run).main.service, Poll::Pending)
                },
                Some(Action::Spawn(spawned)) => {
                    &&& final(run).phase is Running
                    &&& spawned.id == run.phase->Waiting_0.id
                    &&& exists|ready: S| #[trigger]
                        S::calls(
                            ready,
                            run.phase->Waiting_0,
                            final(run).main.service,
                            spawned.fut,
                        )
                },
                Some(Action::Send(Message::Response(response))) => {
                    &&& final(run).phase is Running
                    &&& response.id == run.phase->Waiting_0.id
                    &&& response.error is Some
                },
                _ => false,
            },
{
}

/// A run sends nothing of its own accord: what is sent in a turn is the response to a request that
/// was processed, a message or a request that a socket queued, or the refusal of a request of the
/// peer. And whatever of the first two is found is sent, in the turn that finds it.
pub proof fn law_what_is_sent<S: LspService<Response = JsonValue>>(
    states: Seq<Run<S>>,
    found: Seq<Option<Found>>,
    actions: Seq<Option<Action<S::Future>>>,
    k: int,
) where ResponseError: From<S::Error>
    requires
        is_run(states, found, actions),
        0 <= k < found.len(),
    ensures
        actions[k] matches Some(Action::Send(msg)) ==> {
            ||| found[k] matches Some(Found::Completed(response)) && msg == Message::Response(
                response,
            )
            ||| found[k] == Some(Found::Asked(MainLoopEvent::Outgoing(msg)))
            ||| {
                &&& found[k] matches Some(Found::Asked(MainLoopEvent::OutgoingRequest(req, _)))
                &&& msg matches Message::Request(sent)
                &&& sent.method == req.method
                &&& sent.params == req.params
            }
            ||| {
                &&& states[k].taken(found[k]) matches Found::Read(Ok(Message::Request(req)))
                &&& msg matches Message::Response(response)
                &&& response.id == req.id
                &&& response.error is Some
            }
        },
        found[k] matches Some(Found::Completed(response)) ==> actions[k] == Some(
            Action::<S::Future>::Send(Message::Response(response)),
        ),
        found[k] matches Some(Found::Asked(MainLoopEvent::Outgoing(msg))) ==> actions[k] == Some(
            Action::<S::Future>::Send(msg),
        ),
        found[k] matches Some(Found::Asked(MainLoopEvent::OutgoingRequest(_, _))) ==> (
        actions[k] matches Some(Action::Send(msg)) && msg is Request),
{
    assert(states[k].can_turn(found[k]));
}

/// The response with this identifier is sent in the turn.
pub open spec fn answers_in<Fut>(action: Option<Action<Fut>>, id: RequestId) -> bool {
    action matches Some(Action::Send(Message::Response(response))) && response.id == id
}

/// Each request of the peer that the service took is answered exactly once: where its outcome comes
/// in turn `end`, and neither the peer nor a socket uses its identifier for anything else, the
/// response is sent in that turn, and in no other turn is a response with this identifier sent.
pub proof fn law_each_request_is_answered_once<S: LspService<Response = JsonValue>>(
    states: Seq<Run<S>>,
    found: Seq<Option<Found>>,
    actions: Seq<Option<Action<S::Future>>>,
    start: int,
    end: int,
    task: RequestFuture<S::Future>,
    response: AnyResponse,
    k: int,
) where ResponseError: From<S::Error>
    requires
        is_run(states, found, actions),
        0 <= start < found.len(),
        0 <= end < found.len(),
        actions[start] == Some(Action::<S::Future>::Spawn(task)),
        found[end] == Some(Found::Completed(response)),
        response.id == task.id,
        forall|t: int|
            0 <= t < found.len() && t != end ==> !(#[trigger] found[t] matches Some(
                Found::Completed(other),
            ) && other.id == task.id),
        forall|t: int|
            0 <= t < found.len() && t != start && actions[t] is Some ==> !(states[t].taken(
                #[trigger] found[t],
            ) matches Found::Read(Ok(Message::Request(other))) && other.id == task.id),
        forall|t: int|
            0 <= t < found.len() ==> !(#[trigger] found[t] matches Some(
                Found::Asked(MainLoopEvent::Outgoing(Message::Response(other))),
            ) && other.id == task.id),
        0 <= k < found.len(),
    ensures
        answers_in(actions[k], task.id) <==> k == end,
        actions[end] == Some(Action::<S::Future>::Send(Message::Response(response))),
{
    law_what_is_sent(states, found, actions, k);
    law_what_is_sent(states, found, actions, end);
    assert(states[start].can_turn(found[start]));
    let step = found[k];
}

/// A request of the peer that the service fails to be ready for is answered in the turn that finds
/// so, and each other request that is dispatched is handed to the service: none is passed over.
pub proof fn law_no_request_is_passed_over<S: LspService<Response = JsonValue>>(
    states: Seq<Run<S>>,
    found: Seq<Option<Found>>,
    actions: Seq<Option<Action<S::Future>>>,
    k: int,
    req: AnyRequest,
) where ResponseError: From<S::Error>
    requires
        is_run(states, found, actions),
        0 <= k < found.len(),
        states[k].taken(found[k]) == Found::Read(Ok(Message::Request(req))),
    ensures
        match actions[k] {
            Some(Action::Spawn(task)) => task.id == req.id,
            Some(_) => answers_in(actions[k], req.id),
            None => states[k + 1].phase == Phase::Waiting(req),
        },
{
    assert(states[k].can_turn(found[k]));
}

/// The main loop can act upon whatever it finds, where the service can be handed it; only a request
/// to the peer needs a number that is left.
pub proof fn law_anything_can_be_found<S: LspService<Response = JsonValue>>(
    run: Run<S>,
    found: Found,
) where ResponseError: From<S::Error>
    requires
        run.main.well_formed(),
        forall|service: S| #[trigger] service.can_poll(),
        forall|service: S, req: AnyRequest| #[trigger] service.can_call(req),
        forall|service: S, notif: AnyNotification| #[trigger] service.can_notify(notif),
        forall|service: S, event: AnyEvent| #[trigger] service.can_emit(event),
        found matches Found::Asked(MainLoopEvent::OutgoingRequest(_, _)) ==> run.main.outgoing_id
            < i32::MAX,
    ensures
        run.main.can_step(found),
        run.phase is Running ==> run.can_turn(Some(found)),
        run.phase is Waiting ==> run.can_turn(None),
        run.phase is Waiting && found is Flushed ==> run.can_turn(Some(found)),
{
}

/// A new main loop has sent no request, and the socket that its service is built with talks to it.
pub proof fn law_new_main_loop<
    S,
    F: FnOnce(ClientSocket) -> S,
    G: FnOnce(ServerSocket) -> S,
>(
    build_server: F,
    server: (MainLoop<S>, ClientSocket),
    build_client: G,
    client: (MainLoop<S>, ServerSocket),
)
    ensures
        call_ensures(MainLoop::<S>::new_server::<F>, (build_server,), server) ==> {
            &&& call_ensures(build_server, (server.1,), server.0.service)
            &&& linked(server.1.0.tx, server.0.rx)
            &&& server.0.outgoing_id == 0
            &&& forall|id: i32| !#[trigger] server.0.outgoing@.contains_key(id)
        },
        call_ensures(MainLoop::<S>::new_client::<G>, (build_client,), client) ==> {
            &&& call_ensures(build_client, (client.1,), client.0.service)
            &&& linked(client.1.0.tx, client.0.rx)
            &&& client.0.outgoing_id == 0
            &&& forall|id: i32| !#[trigger] client.0.outgoing@.contains_key(id)
        },
{
}

/// A run starts with the main loop that it is given, and looks at its sources. Reaching into the
/// main loop changes nothing but the service.
pub proof fn law_new_run<S>(main: MainLoop<S>, run: Run<S>)
    ensures
        call_ensures(Run::<S>::new, (main,), run) ==> run.main == main && run.phase is Running,
        forall|this: &mut MainLoop<S>, inner: &mut S| #[trigger]
            call_ensures(MainLoop::<S>::get_mut, (this,), inner) ==> {
                &&& *inner == this.service
                &&& final(this).service == *final(inner)
                &&& final(this).outgoing == this.outgoing
                &&& final(this).outgoing_id == this.outgoing_id
                &&& final(this).rx == this.rx
            },
{
}

} // verus!
