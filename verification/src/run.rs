//! A run of the main loop, turn by turn.
//!
//! What the program around the library finds in the sources of the main loop is handed in here, one
//! after another. The run keeps what lies between the turns: the request that waits for the service
//! to be ready, and whether the run has ended.
use std::ops::ControlFlow;
use std::task::Context;

use futures::channel::oneshot;
use vstd::prelude::*;

use crate::error::{ResponseError, Result};
use crate::event::AnyEvent;
use crate::json::JsonValue;
use crate::main_loop::{
    law_identifiers_are_fresh, law_notifications_and_events_are_synchronous, order, source_at,
    Action, Found, MainLoop, Source,
};
use crate::message::{AnyNotification, AnyRequest, AnyResponse, Message, RequestId};
use crate::service::{LspService, Poll};
use crate::socket::{delivered, MainLoopEvent};

verus! {

/// Where a run stands.
#[derive(Debug)]
pub enum Phase {
    /// The main loop looks at its sources.
    Running,
    /// The request waits for the service to be ready.
    Waiting(AnyRequest),
    /// The run has ended.
    Ended,
}

/// A run of the main loop.
#[verifier::reject_recursive_types(S)]
pub struct Run<S> {
    /// The main loop.
    pub main: MainLoop<S>,
    /// Where the run stands.
    pub phase: Phase,
}

impl<S> Run<S> {
    /// Starts a run.
    pub fn new(main: MainLoop<S>) -> (run: Self)
        ensures
            run.main == main,
            run.phase == Phase::Running,
    {
        Run { main, phase: Phase::Running }
    }

    /// The source to look at after nothing was found in this number of others.
    pub fn source_at(&self, tried: usize) -> (source: Option<Source>)
        ensures
            source == if !(self.phase is Ended) && tried < order(self.phase is Waiting).len() {
                Some(order(self.phase is Waiting)[tried as int])
            } else {
                None
            },
    {
        match &self.phase {
            Phase::Running => source_at(false, tried),
            Phase::Waiting(_) => source_at(true, tried),
            Phase::Ended => None,
        }
    }

    /// What a turn acts upon: what was found, or else the request that waits.
    pub open spec fn taken(self, found: Option<Found>) -> Found {
        match found {
            Some(found) => found,
            None => Found::Read(Ok(Message::Request(self.phase->Waiting_0))),
        }
    }
}

/// The main loop read something from the peer.
pub open spec fn is_read(found: Option<Found>) -> bool {
    found matches Some(found) && found is Read
}

/// The last message was flushed, or could not be.
pub open spec fn is_flush(found: Option<Found>) -> bool {
    found matches Some(found) && found is Flushed
}

impl<S: LspService<Response = JsonValue>> Run<S> where ResponseError: From<S::Error> {
    /// A turn can be made. While a request waits, it is tried again and the last message is
    /// flushed, and nothing else is looked at. No turn follows the end.
    pub open spec fn can_turn(self, found: Option<Found>) -> bool {
        &&& self.main.well_formed()
        &&& self.main.can_step(self.taken(found))
        &&& match self.phase {
            Phase::Running => found is Some,
            Phase::Waiting(_) => found is None || is_flush(found),
            Phase::Ended => false,
        }
    }

    /// Where a run stands after a turn that came to `action`.
    pub open spec fn phase_after(self, found: Option<Found>, action: Action<S::Future>) -> Phase {
        match action {
            Action::Wait(req) => Phase::Waiting(req),
            Action::Stop(_) | Action::Fail(_) => Phase::Ended,
            _ => if is_flush(found) {
                self.phase
            } else {
                Phase::Running
            },
        }
    }

    /// From state `pre`, what was found leads to `action` in state `post`, as the main loop came to
    /// `stepped`. There is nothing to do where the request is to wait.
    pub open spec fn turns_by(
        pre: Self,
        found: Option<Found>,
        post: Self,
        action: Option<Action<S::Future>>,
        stepped: Action<S::Future>,
    ) -> bool {
        &&& MainLoop::<S>::steps(pre.main, pre.taken(found), post.main, stepped)
        &&& post.phase == pre.phase_after(found, stepped)
        &&& action == if stepped is Wait {
            None
        } else {
            Some(stepped)
        }
    }

    /// From state `pre`, what was found may lead to `action` in state `post`.
    pub open spec fn turns(
        pre: Self,
        found: Option<Found>,
        post: Self,
        action: Option<Action<S::Future>>,
    ) -> bool {
        exists|stepped: Action<S::Future>| #[trigger]
            Self::turns_by(pre, found, post, action, stepped)
    }

    /// Makes a turn: acts upon what was found, or tries the request that waits again.
    pub fn turn(&mut self, found: Option<Found>, cx: &mut Context<'_>) -> (action: Option<
        Action<S::Future>,
    >)
        requires
            old(self).can_turn(found),
        ensures
            final(self).main.well_formed(),
            Self::turns(*old(self), found, *final(self), action),
    {
        let mut phase = Phase::Running;
        core::mem::swap(&mut self.phase, &mut phase);
        let flush = matches!(found, Some(Found::Flushed(_)));
        let taken = match found {
            Some(found) => {
                if flush {
                    self.phase = phase;
                }
                found
            },
            None => match phase {
                Phase::Waiting(req) => Found::Read(Ok(Message::Request(req))),
                _ => vstd::pervasive::unreached(),
            },
        };
        let stepped = self.main.step(taken, cx);
        let ghost whole = stepped;
        let action = match stepped {
            Action::Wait(req) => {
                self.phase = Phase::Waiting(req);
                None
            },
            Action::Stop(ret) => {
                self.phase = Phase::Ended;
                Some(Action::Stop(ret))
            },
            Action::Fail(error) => {
                self.phase = Phase::Ended;
                Some(Action::Fail(error))
            },
            action => Some(action),
        };
        assert(Self::turns_by(*old(self), found, *self, action, whole));
        action
    }
}

/// The states are those of a run: it starts, and each turn follows the one before it.
pub open spec fn is_run<S: LspService<Response = JsonValue>>(
    states: Seq<Run<S>>,
    found: Seq<Option<Found>>,
    actions: Seq<Option<Action<S::Future>>>,
) -> bool where ResponseError: From<S::Error> {
    &&& states.len() == found.len() + 1
    &&& states.len() == actions.len() + 1
    &&& states[0].phase is Running
    &&& forall|k: int|
        #![trigger found[k]]
        0 <= k < found.len() ==> {
            &&& states[k].can_turn(found[k])
            &&& Run::<S>::turns(states[k], found[k], states[k + 1], actions[k])
        }
}

/// The messages of the peer that were read in the first `k` turns.
pub open spec fn read_in(found: Seq<Option<Found>>, k: int) -> Seq<Message>
    decreases k,
{
    if k <= 0 {
        Seq::empty()
    } else {
        let before = read_in(found, k - 1);
        match found[k - 1] {
            Some(Found::Read(Ok(msg))) => before.push(msg),
            _ => before,
        }
    }
}

/// The messages of the peer that were dispatched in the first `k` turns: those acted upon, but for
/// the times that a request was told to wait.
pub open spec fn dispatched_in<S: LspService<Response = JsonValue>>(
    states: Seq<Run<S>>,
    found: Seq<Option<Found>>,
    actions: Seq<Option<Action<S::Future>>>,
    k: int,
) -> Seq<Message>
    decreases k,
{
    if k <= 0 {
        Seq::empty()
    } else {
        let before = dispatched_in(states, found, actions, k - 1);
        match states[k - 1].taken(found[k - 1]) {
            Found::Read(Ok(msg)) if actions[k - 1] is Some => before.push(msg),
            _ => before,
        }
    }
}

/// The messages of the peer are dispatched in the order in which they are read, each of them once.
/// At most the last one is not yet dispatched: a request that waits for the service to be ready, or
/// that waited when the run ended.
pub proof fn law_messages_are_dispatched_in_order<S: LspService<Response = JsonValue>>(
    states: Seq<Run<S>>,
    found: Seq<Option<Found>>,
    actions: Seq<Option<Action<S::Future>>>,
    k: int,
) where ResponseError: From<S::Error>
    requires
        is_run(states, found, actions),
        0 <= k < states.len(),
    ensures
        match states[k].phase {
            Phase::Running => read_in(found, k) == dispatched_in(states, found, actions, k),
            Phase::Waiting(req) => read_in(found, k) == dispatched_in(
                states,
                found,
                actions,
                k,
            ).push(Message::Request(req)),
            Phase::Ended => {
                ||| read_in(found, k) == dispatched_in(states, found, actions, k)
                ||| exists|req: AnyRequest|
                    read_in(found, k) == #[trigger] dispatched_in(states, found, actions, k).push(
                        Message::Request(req),
                    )
            },
        },
    decreases k,
{
    if k > 0 {
        law_messages_are_dispatched_in_order(states, found, actions, k - 1);
        assert(states[k - 1].can_turn(found[k - 1]));
    }
}

/// The end of a run is its last turn: nothing is acted upon after it.
pub proof fn law_nothing_follows_the_end<S: LspService<Response = JsonValue>>(
    states: Seq<Run<S>>,
    found: Seq<Option<Found>>,
    actions: Seq<Option<Action<S::Future>>>,
    k: int,
) where ResponseError: From<S::Error>
    requires
        is_run(states, found, actions),
        0 <= k < found.len(),
        actions[k] matches Some(action) && (action is Stop || action is Fail),
    ensures
        k == found.len() - 1,
        states.last().phase is Ended,
{
    assert(Run::<S>::turns(states[k], found[k], states[k + 1], actions[k])) by {
        assert(states[k].can_turn(found[k]));
    }
    if k < found.len() - 1 {
        assert(states[k + 1].can_turn(found[k + 1]));
    }
}

/// A notification that is read, and an event that is emitted, is handled within the turn, before
/// anything else is acted upon. Where the service answers that the main loop is to end, the run
/// ends with that answer.
pub proof fn law_answers_of_the_service_end_the_run<S: LspService<Response = JsonValue>>(
    states: Seq<Run<S>>,
    found: Seq<Option<Found>>,
    actions: Seq<Option<Action<S::Future>>>,
    k: int,
    notif: AnyNotification,
    event: AnyEvent,
) where ResponseError: From<S::Error>
    requires
        is_run(states, found, actions),
        0 <= k < found.len(),
    ensures
        found[k] == Some(Found::Read(Ok(Message::Notification(notif)))) ==> exists|
            flow: ControlFlow<Result<()>>,
        |
            {
                &&& #[trigger] S::notifies(
                    states[k].main.service,
                    notif,
                    states[k + 1].main.service,
                    flow,
                )
                &&& actions[k] == Some(Action::<S::Future>::of_answer(flow))
                &&& flow is Break ==> k == found.len() - 1
            },
        found[k] == Some(Found::Asked(MainLoopEvent::Any(event))) ==> exists|
            flow: ControlFlow<Result<()>>,
        |
            {
                &&& #[trigger] S::emits(
                    states[k].main.service,
                    event,
                    states[k + 1].main.service,
                    flow,
                )
                &&& actions[k] == Some(Action::<S::Future>::of_answer(flow))
                &&& flow is Break ==> k == found.len() - 1
            },
{
    let pre = states[k];
    let post = states[k + 1];
    assert(pre.can_turn(found[k]));
    let stepped = choose|stepped: Action<S::Future>| #[trigger]
        Run::<S>::turns_by(pre, found[k], post, actions[k], stepped);
    law_notifications_and_events_are_synchronous(pre.main, notif, event, post.main, stepped);
    if actions[k] matches Some(action) && (action is Stop || action is Fail) {
        law_nothing_follows_the_end(states, found, actions, k);
    }
}

/// A request that is dispatched reaches the service once, when it is ready, or is refused where it
/// cannot be; one that is told to wait does not reach it.
pub proof fn law_requests_reach_the_service_once<S: LspService<Response = JsonValue>>(
    states: Seq<Run<S>>,
    found: Seq<Option<Found>>,
    actions: Seq<Option<Action<S::Future>>>,
    k: int,
    req: AnyRequest,
) where ResponseError: From<S::Error>
    requires
        is_run(states, found, actions),
        0 <= k < found.len(),
        states[k].taken(found[k]) == Found::Read(Ok(Message::Request(req))),
    ensures
        match actions[k] {
            None => {
                &&& S::polls(
                    states[k].main.service,
                    states[k + 1].main.service,
                    Poll::Pending,
                )
                &&& states[k + 1].phase == Phase::Waiting(req)
            },
            Some(Action::Spawn(spawned)) => {
                &&& spawned.id == req.id
                &&& exists|ready: S|
                    {
                        &&& S::polls(
                            states[k].main.service,
                            ready,
                            Poll::Ready(Ok::<(), S::Error>(())),
                        )
                        &&& #[trigger] S::calls(
                            ready,
                            req,
                            states[k + 1].main.service,
                            spawned.fut,
                        )
                    }
            },
            Some(Action::Send(Message::Response(response))) => {
                &&& response.id == req.id
                &&& response.error is Some
            },
            _ => false,
        },
{
    assert(states[k].can_turn(found[k]));
}

/// A response of the peer to the request with this identifier was read.
pub open spec fn answers_to(found: Option<Found>, id: i32) -> bool {
    found matches Some(Found::Read(Ok(Message::Response(response)))) && response.id
        == RequestId::Number(id)
}

/// One who sent a request is remembered under its identifier, in whatever turns follow, until a
/// response to it is read; from then on nobody is.
proof fn lemma_requester_is_remembered<S: LspService<Response = JsonValue>>(
    states: Seq<Run<S>>,
    found: Seq<Option<Found>>,
    actions: Seq<Option<Action<S::Future>>>,
    i: int,
    k: int,
    req: AnyRequest,
    tx: oneshot::Sender<AnyResponse>,
) where ResponseError: From<S::Error>
    requires
        is_run(states, found, actions),
        0 <= i < k < states.len(),
        found[i] == Some(Found::Asked(MainLoopEvent::OutgoingRequest(req, tx))),
    ensures
        states[i].main.outgoing_id < states[k].main.outgoing_id,
        ({
            let id = states[i].main.outgoing_id;
            if exists|t: int| i < t < k && answers_to(#[trigger] found[t], id) {
                !states[k].main.outgoing@.contains_key(id)
            } else {
                &&& states[k].main.outgoing@.contains_key(id)
                &&& states[k].main.outgoing@[id] == tx
            }
        }),
    decreases k - i,
{
    let id = states[i].main.outgoing_id;
    let pre = states[k - 1];
    assert(pre.can_turn(found[k - 1]));
    let stepped = choose|stepped: Action<S::Future>| #[trigger]
        Run::<S>::turns_by(pre, found[k - 1], states[k], actions[k - 1], stepped);
    law_identifiers_are_fresh(pre.main, pre.taken(found[k - 1]), states[k].main, stepped);
    if i < k - 1 {
        lemma_requester_is_remembered(states, found, actions, i, k - 1, req, tx);
        if exists|t: int| i < t < k - 1 && answers_to(#[trigger] found[t], id) {
            let t = choose|t: int| i < t < k - 1 && answers_to(#[trigger] found[t], id);
            assert(i < t < k && answers_to(found[t], id));
        }
    }
}

/// The first response of the peer to a request reaches the one who sent the request, however many
/// turns lie between and whatever happens in them.
pub proof fn law_response_reaches_the_requester<S: LspService<Response = JsonValue>>(
    states: Seq<Run<S>>,
    found: Seq<Option<Found>>,
    actions: Seq<Option<Action<S::Future>>>,
    i: int,
    j: int,
    req: AnyRequest,
    tx: oneshot::Sender<AnyResponse>,
    sent: AnyRequest,
    response: AnyResponse,
) where ResponseError: From<S::Error>
    requires
        is_run(states, found, actions),
        0 <= i < j < found.len(),
        found[i] == Some(Found::Asked(MainLoopEvent::OutgoingRequest(req, tx))),
        actions[i] == Some(Action::<S::Future>::Send(Message::Request(sent))),
        found[j] == Some(Found::Read(Ok(Message::Response(response)))),
        response.id == sent.id,
        forall|t: int|
            i < t < j ==> !(#[trigger] found[t] matches Some(
                Found::Read(Ok(Message::Response(earlier))),
            ) && earlier.id == sent.id),
    ensures
        delivered(tx, response),
        actions[j] == Some(Action::<S::Future>::GoOn),
{
    assert(states[i].can_turn(found[i]));
    assert(states[j].can_turn(found[j]));
    assert(sent.id == RequestId::Number(states[i].main.outgoing_id));
    lemma_requester_is_remembered(states, found, actions, i, j, req, tx);
}

/// Another response to the same request, whenever it comes, finds nobody who waits for it, and
/// changes nothing.
pub proof fn law_other_responses_are_ignored<S: LspService<Response = JsonValue>>(
    states: Seq<Run<S>>,
    found: Seq<Option<Found>>,
    actions: Seq<Option<Action<S::Future>>>,
    i: int,
    j: int,
    k: int,
    req: AnyRequest,
    tx: oneshot::Sender<AnyResponse>,
    sent: AnyRequest,
    response: AnyResponse,
    again: AnyResponse,
) where ResponseError: From<S::Error>
    requires
        is_run(states, found, actions),
        0 <= i < j < k < found.len(),
        found[i] == Some(Found::Asked(MainLoopEvent::OutgoingRequest(req, tx))),
        actions[i] == Some(Action::<S::Future>::Send(Message::Request(sent))),
        found[j] == Some(Found::Read(Ok(Message::Response(response)))),
        found[k] == Some(Found::Read(Ok(Message::Response(again)))),
        response.id == sent.id,
        again.id == sent.id,
    ensures
        !states[k].main.outgoing@.contains_key(states[i].main.outgoing_id),
        states[k + 1].main.outgoing@ == states[k].main.outgoing@,
        states[k + 1].main.service == states[k].main.service,
        actions[k] == Some(Action::<S::Future>::GoOn),
{
    assert(states[i].can_turn(found[i]));
    assert(states[k].can_turn(found[k]));
    let id = states[i].main.outgoing_id;
    assert(sent.id == RequestId::Number(id));
    lemma_requester_is_remembered(states, found, actions, i, k, req, tx);
    assert(answers_to(found[j], id));
    assert(states[k].main.outgoing@.remove(id) =~= states[k].main.outgoing@);
}

} // verus!
