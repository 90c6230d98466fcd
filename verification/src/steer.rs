//! Routing of requests, notifications and events between services.
//!
//! Key components:
//! - [`LspPicker`]: Trait for custom service selection.
//! - [`FirstComeFirstServe`]: Basic [`LspPicker`] implementation.
//! - [`LspSteer`]: Manages multiple services using a picker.
use std::ops::ControlFlow;
use std::task::Context;

use vstd::prelude::*;

use crate::can_handle::CanHandle;
use crate::error::Result;
use crate::event::AnyEvent;
use crate::message::{AnyNotification, AnyRequest};
use crate::service::{LspService, Poll};

verus! {

/// A service selection strategy.
///
/// It decides which of multiple services gets each request, notification and event. How it decides
/// is up to its author: `can_pick`, `can_pick_notification` and `can_pick_event` say what it can be
/// asked, and `picks`, `picks_notification` and `picks_event` how it may answer and be left behind.
/// By default it can be asked anything, and nothing is said of the answers.
pub trait LspPicker<S>: Sized {
    /// The picker can be asked who handles the request.
    open spec fn can_pick(self, req: AnyRequest, services: Seq<S>) -> bool {
        true
    }

    /// The picker can be asked who handles the notification.
    open spec fn can_pick_notification(self, notif: AnyNotification, services: Seq<S>) -> bool {
        true
    }

    /// The picker can be asked who handles the event.
    open spec fn can_pick_event(self, event: AnyEvent, services: Seq<S>) -> bool {
        true
    }

    /// Asked in state `pre` who handles the request, the picker may answer `index` in state `post`.
    open spec fn picks(
        pre: Self,
        req: AnyRequest,
        services: Seq<S>,
        post: Self,
        index: int,
    ) -> bool {
        true
    }

    /// Asked in state `pre` who handles the notification, the picker may answer `index` in state
    /// `post`.
    open spec fn picks_notification(
        pre: Self,
        notif: AnyNotification,
        services: Seq<S>,
        post: Self,
        index: int,
    ) -> bool {
        true
    }

    /// Asked in state `pre` who handles the event, the picker may answer `index` in state `post`.
    open spec fn picks_event(
        pre: Self,
        event: AnyEvent,
        services: Seq<S>,
        post: Self,
        index: int,
    ) -> bool {
        true
    }

    /// Selects a service to handle a request, by its place among the services.
    fn pick(&mut self, req: &AnyRequest, services: &[S]) -> (index: usize)
        requires
            old(self).can_pick(*req, services@),
        ensures
            Self::picks(*old(self), *req, services@, *final(self), index as int),
    ;

    /// Selects a service to handle a notification, by its place among the services.
    fn pick_notification(&mut self, notif: &AnyNotification, services: &[S]) -> (index: usize)
        requires
            old(self).can_pick_notification(*notif, services@),
        ensures
            Self::picks_notification(*old(self), *notif, services@, *final(self), index as int),
    ;

    /// Selects a service to handle an event, by its place among the services.
    fn pick_event(&mut self, event: &AnyEvent, services: &[S]) -> (index: usize)
        requires
            old(self).can_pick_event(*event, services@),
        ensures
            Self::picks_event(*old(self), *event, services@, *final(self), index as int),
    ;
}

/// The function can be asked to pick one of the services for the message.
pub open spec fn can_ask<M, S, F: Fn(&M, &[S]) -> usize>(
    f: F,
    message: M,
    services: Seq<S>,
) -> bool {
    forall|slice: &[S]| slice@ == services ==> #[trigger] call_requires(f, (&message, slice))
}

/// The function may pick `index` for the message.
pub open spec fn may_pick<M, S, F: Fn(&M, &[S]) -> usize>(
    f: F,
    message: M,
    services: Seq<S>,
    index: int,
) -> bool {
    exists|slice: &[S], at: usize| #[trigger]
        call_ensures(f, (&message, slice), at) && slice@ == services && at == index
}

/// Three functions, for notifications, events and requests, in this order.
impl<S, FN, FE, F> LspPicker<S> for (FN, FE, F) where
    F: Fn(&AnyRequest, &[S]) -> usize,
    FN: Fn(&AnyNotification, &[S]) -> usize,
    FE: Fn(&AnyEvent, &[S]) -> usize,
 {
    open spec fn can_pick(self, req: AnyRequest, services: Seq<S>) -> bool {
        can_ask(self.2, req, services)
    }

    open spec fn can_pick_notification(self, notif: AnyNotification, services: Seq<S>) -> bool {
        can_ask(self.0, notif, services)
    }

    open spec fn can_pick_event(self, event: AnyEvent, services: Seq<S>) -> bool {
        can_ask(self.1, event, services)
    }

    open spec fn picks(
        pre: Self,
        req: AnyRequest,
        services: Seq<S>,
        post: Self,
        index: int,
    ) -> bool {
        &&& post == pre
        &&& may_pick(pre.2, req, services, index)
    }

    open spec fn picks_notification(
        pre: Self,
        notif: AnyNotification,
        services: Seq<S>,
        post: Self,
        index: int,
    ) -> bool {
        &&& post == pre
        &&& may_pick(pre.0, notif, services, index)
    }

    open spec fn picks_event(
        pre: Self,
        event: AnyEvent,
        services: Seq<S>,
        post: Self,
        index: int,
    ) -> bool {
        &&& post == pre
        &&& may_pick(pre.1, event, services, index)
    }

    fn pick(&mut self, req: &AnyRequest, services: &[S]) -> (index: usize) {
        (self.2)(req, services)
    }

    fn pick_notification(&mut self, notif: &AnyNotification, services: &[S]) -> (index: usize) {
        (self.0)(notif, services)
    }

    fn pick_event(&mut self, event: &AnyEvent, services: &[S]) -> (index: usize) {
        (self.1)(event, services)
    }
}

/// A function for requests, notifications and events alike.
impl<F, S> LspPicker<S> for F where
    F: Fn(&AnyRequest, &[S]) -> usize + Fn(&AnyNotification, &[S]) -> usize + Fn(
        &AnyEvent,
        &[S],
    ) -> usize,
 {
    open spec fn can_pick(self, req: AnyRequest, services: Seq<S>) -> bool {
        can_ask(self, req, services)
    }

    open spec fn can_pick_notification(self, notif: AnyNotification, services: Seq<S>) -> bool {
        can_ask(self, notif, services)
    }

    open spec fn can_pick_event(self, event: AnyEvent, services: Seq<S>) -> bool {
        can_ask(self, event, services)
    }

    open spec fn picks(
        pre: Self,
        req: AnyRequest,
        services: Seq<S>,
        post: Self,
        index: int,
    ) -> bool {
        &&& post == pre
        &&& may_pick(pre, req, services, index)
    }

    open spec fn picks_notification(
        pre: Self,
        notif: AnyNotification,
        services: Seq<S>,
        post: Self,
        index: int,
    ) -> bool {
        &&& post == pre
        &&& may_pick(pre, notif, services, index)
    }

    open spec fn picks_event(
        pre: Self,
        event: AnyEvent,
        services: Seq<S>,
        post: Self,
        index: int,
    ) -> bool {
        &&& post == pre
        &&& may_pick(pre, event, services, index)
    }

    fn pick(&mut self, req: &AnyRequest, services: &[S]) -> (index: usize) {
        (*self)(req, services)
    }

    fn pick_notification(&mut self, notif: &AnyNotification, services: &[S]) -> (index: usize) {
        (*self)(notif, services)
    }

    fn pick_event(&mut self, event: &AnyEvent, services: &[S]) -> (index: usize) {
        (*self)(event, services)
    }
}

/// `index` is the first service that answers that it can handle the message, or else the first of
/// all. Only the services up to there are asked.
pub open spec fn first_to_handle<M, S: CanHandle<M>>(
    message: M,
    services: Seq<S>,
    index: int,
) -> bool {
    ||| {
        &&& 0 <= index < services.len()
        &&& services[index].answers(message, true)
        &&& forall|i: int| 0 <= i < index ==> (#[trigger] services[i]).answers(message, false)
    }
    ||| {
        &&& index == 0
        &&& forall|i: int|
            0 <= i < services.len() ==> (#[trigger] services[i]).answers(message, false)
    }
}

/// Finds the first service that can handle the message, or else the first of all.
fn find_first<M, S: CanHandle<M>>(message: &M, services: &[S]) -> (index: usize)
    ensures
        first_to_handle(*message, services@, index as int),
{
    let mut i: usize = 0;
    while i < services.len()
        invariant
            i <= services@.len(),
            forall|j: int| 0 <= j < i ==> (#[trigger] services@[j]).answers(*message, false),
        decreases services@.len() - i,
    {
        if services[i].can_handle(message) {
            return i;
        }
        i = i + 1;
    }
    0
}

/// A picker that selects the first service that can handle a request, notification or event.
#[derive(Debug, Clone, Copy)]
pub struct FirstComeFirstServe;

impl<S> LspPicker<S> for FirstComeFirstServe where
    S: CanHandle<AnyNotification> + CanHandle<AnyRequest> + CanHandle<AnyEvent>,
 {
    open spec fn picks(
        pre: Self,
        req: AnyRequest,
        services: Seq<S>,
        post: Self,
        index: int,
    ) -> bool {
        first_to_handle(req, services, index)
    }

    open spec fn picks_notification(
        pre: Self,
        notif: AnyNotification,
        services: Seq<S>,
        post: Self,
        index: int,
    ) -> bool {
        first_to_handle(notif, services, index)
    }

    open spec fn picks_event(
        pre: Self,
        event: AnyEvent,
        services: Seq<S>,
        post: Self,
        index: int,
    ) -> bool {
        first_to_handle(event, services, index)
    }

    fn pick(&mut self, req: &AnyRequest, services: &[S]) -> (index: usize) {
        find_first(req, services)
    }

    fn pick_notification(&mut self, notif: &AnyNotification, services: &[S]) -> (index: usize) {
        find_first(notif, services)
    }

    fn pick_event(&mut self, event: &AnyEvent, services: &[S]) -> (index: usize) {
        find_first(event, services)
    }
}

/// A service that steers requests, notifications and events to one of multiple services.
pub struct LspSteer<S, P> {
    /// The services.
    pub services: Vec<S>,
    /// The picker that selects a service for each message.
    pub picker: P,
}

impl<S, P: LspPicker<S>> LspSteer<S, P> {
    /// Creates a service out of others and a picker.
    pub fn new(services: Vec<S>, picker: P) -> (steer: Self)
        ensures
            steer.services == services,
            steer.picker == picker,
    {
        LspSteer { services, picker }
    }
}

impl<S: LspService, P: LspPicker<S>> LspSteer<S, P> {
    /// The services but for the one at `index` have not changed.
    pub open spec fn others_unchanged(pre: Self, post: Self, index: int) -> bool {
        &&& 0 <= index < pre.services@.len()
        &&& post.services@ == pre.services@.update(index, post.services@[index])
    }

    /// The first `asked` services were asked whether they are ready, and the others were not.
    pub open spec fn asked(
        pre: Seq<S>,
        post: Seq<S>,
        answers: Seq<Poll<core::result::Result<(), S::Error>>>,
    ) -> bool {
        &&& post.len() == pre.len()
        &&& answers.len() <= pre.len()
        &&& forall|i: int|
            0 <= i < answers.len() ==> S::polls(pre[i], #[trigger] post[i], answers[i])
        &&& forall|i: int| answers.len() <= i < pre.len() ==> #[trigger] post[i] == pre[i]
    }
}

impl<S: LspService, P: LspPicker<S>> LspService for LspSteer<S, P> {
    type Response = S::Response;

    type Error = S::Error;

    type Future = S::Future;

    open spec fn can_poll(self) -> bool {
        forall|i: int| 0 <= i < self.services@.len() ==> (#[trigger] self.services@[i]).can_poll()
    }

    open spec fn can_call(self, req: AnyRequest) -> bool {
        &&& self.picker.can_pick(req, self.services@)
        &&& forall|picker: P, index: int| #[trigger]
            P::picks(self.picker, req, self.services@, picker, index) ==> {
                &&& 0 <= index < self.services@.len()
                &&& self.services@[index].can_call(req)
            }
    }

    open spec fn can_notify(self, notif: AnyNotification) -> bool {
        &&& self.picker.can_pick_notification(notif, self.services@)
        &&& forall|picker: P, index: int| #[trigger]
            P::picks_notification(self.picker, notif, self.services@, picker, index) ==> {
                &&& 0 <= index < self.services@.len()
                &&& self.services@[index].can_notify(notif)
            }
    }

    open spec fn can_emit(self, event: AnyEvent) -> bool {
        &&& self.picker.can_pick_event(event, self.services@)
        &&& forall|picker: P, index: int| #[trigger]
            P::picks_event(self.picker, event, self.services@, picker, index) ==> {
                &&& 0 <= index < self.services@.len()
                &&& self.services@[index].can_emit(event)
            }
    }

    open spec fn polls(
        pre: Self,
        post: Self,
        ready: Poll<core::result::Result<(), S::Error>>,
    ) -> bool {
        &&& post.picker == pre.picker
        &&& exists|answers: Seq<Poll<core::result::Result<(), S::Error>>>|
            {
                &&& #[trigger] Self::asked(pre.services@, post.services@, answers)
                &&& forall|i: int|
                    0 <= i < answers.len() - 1 ==> !(#[trigger] answers[i] is Pending)
                &&& match ready {
                    Poll::Pending => answers.len() > 0 && answers.last() is Pending,
                    Poll::Ready(result) => {
                        &&& result is Ok
                        &&& answers.len() == pre.services@.len()
                        &&& answers.len() > 0 ==> !(answers.last() is Pending)
                    },
                }
            }
    }

    open spec fn calls(pre: Self, req: AnyRequest, post: Self, fut: S::Future) -> bool {
        exists|index: int|
            {
                &&& Self::others_unchanged(pre, post, index)
                &&& P::picks(pre.picker, req, pre.services@, post.picker, index)
                &&& #[trigger] S::calls(pre.services@[index], req, post.services@[index], fut)
            }
    }

    open spec fn notifies(
        pre: Self,
        notif: AnyNotification,
        post: Self,
        flow: ControlFlow<Result<()>>,
    ) -> bool {
        exists|index: int|
            {
                &&& Self::others_unchanged(pre, post, index)
                &&& P::picks_notification(pre.picker, notif, pre.services@, post.picker, index)
                &&& #[trigger] S::notifies(
                    pre.services@[index],
                    notif,
                    post.services@[index],
                    flow,
                )
            }
    }

    open spec fn emits(
        pre: Self,
        event: AnyEvent,
        post: Self,
        flow: ControlFlow<Result<()>>,
    ) -> bool {
        exists|index: int|
            {
                &&& Self::others_unchanged(pre, post, index)
                &&& P::picks_event(pre.picker, event, pre.services@, post.picker, index)
                &&& #[trigger] S::emits(pre.services@[index], event, post.services@[index], flow)
            }
    }

    fn poll_ready(&mut self, cx: &mut Context<'_>) -> (ready: Poll<
        core::result::Result<(), S::Error>,
    >) {
        let ghost mut answers: Seq<Poll<core::result::Result<(), S::Error>>> = Seq::empty();
        let mut i: usize = 0;
        while i < self.services.len()
            invariant
                i == answers.len(),
                self.picker == old(self).picker,
                old(self).can_poll(),
                Self::asked(old(self).services@, self.services@, answers),
                forall|j: int| 0 <= j < i ==> !(#[trigger] answers[j] is Pending),
            decreases self.services@.len() - i,
        {
            let ghost before = self.services@;
            assert(before[i as int] == old(self).services@[i as int]);
            let answer = self.services[i].poll_ready(cx);
            proof {
                answers = answers.push(answer);
                assert(self.services@ =~= before.update(i as int, self.services@[i as int]));
                assert(S::polls(before[i as int], self.services@[i as int], answer));
                assert(Self::asked(old(self).services@, self.services@, answers));
            }
            match answer {
                Poll::Pending => {
                    return Poll::Pending;
                },
                Poll::Ready(_) => {},
            }
            i = i + 1;
        }
        Poll::Ready(Ok(()))
    }

    fn call(&mut self, req: AnyRequest) -> (fut: S::Future) {
        let index = self.picker.pick(&req, self.services.as_slice());
        let fut = self.services[index].call(req);
        assert(S::calls(old(self).services@[index as int], req, self.services@[index as int], fut));
        fut
    }

    fn notify(&mut self, notif: AnyNotification) -> (flow: ControlFlow<Result<()>>) {
        let index = self.picker.pick_notification(&notif, self.services.as_slice());
        let flow = self.services[index].notify(notif);
        assert(S::notifies(
            old(self).services@[index as int],
            notif,
            self.services@[index as int],
            flow,
        ));
        flow
    }

    fn emit(&mut self, event: AnyEvent) -> (flow: ControlFlow<Result<()>>) {
        let index = self.picker.pick_event(&event, self.services.as_slice());
        let flow = self.services[index].emit(event);
        assert(S::emits(
            old(self).services@[index as int],
            event,
            self.services@[index as int],
            flow,
        ));
        flow
    }
}

/// Asked about the message, the services may come to the answer `yes`: one of them can handle it,
/// and the ones before it cannot, or none can.
pub open spec fn any_can_handle<M, S: CanHandle<M>>(
    message: M,
    services: Seq<S>,
    yes: bool,
) -> bool {
    if yes {
        exists|index: int|
            {
                &&& 0 <= index < services.len()
                &&& #[trigger] services[index].answers(message, true)
                &&& forall|i: int|
                    0 <= i < index ==> (#[trigger] services[i]).answers(message, false)
            }
    } else {
        forall|i: int| 0 <= i < services.len() ==> (#[trigger] services[i]).answers(message, false)
    }
}

/// Whether any of the services can handle the message.
fn find_any<M, S: CanHandle<M>>(message: &M, services: &[S]) -> (yes: bool)
    ensures
        any_can_handle(*message, services@, yes),
{
    let mut i: usize = 0;
    while i < services.len()
        invariant
            i <= services@.len(),
            forall|j: int| 0 <= j < i ==> (#[trigger] services@[j]).answers(*message, false),
        decreases services@.len() - i,
    {
        if services[i].can_handle(message) {
            return true;
        }
        i = i + 1;
    }
    false
}

impl<S: CanHandle<AnyRequest>, P: LspPicker<S>> CanHandle<AnyRequest> for LspSteer<S, P> {
    open spec fn answers(self, req: AnyRequest, yes: bool) -> bool {
        any_can_handle(req, self.services@, yes)
    }

    fn can_handle(&self, req: &AnyRequest) -> (yes: bool) {
        find_any(req, self.services.as_slice())
    }
}

impl<S: CanHandle<AnyNotification>, P: LspPicker<S>> CanHandle<AnyNotification> for LspSteer<S, P> {
    open spec fn answers(self, notif: AnyNotification, yes: bool) -> bool {
        any_can_handle(notif, self.services@, yes)
    }

    fn can_handle(&self, notif: &AnyNotification) -> (yes: bool) {
        find_any(notif, self.services.as_slice())
    }
}

impl<S: CanHandle<AnyEvent>, P: LspPicker<S>> CanHandle<AnyEvent> for LspSteer<S, P> {
    open spec fn answers(self, event: AnyEvent, yes: bool) -> bool {
        any_can_handle(event, self.services@, yes)
    }

    fn can_handle(&self, event: &AnyEvent) -> (yes: bool) {
        find_any(event, self.services.as_slice())
    }
}

/// With a picker that serves the first who can, a message goes to a service that can handle it,
/// where no service may answer both ways and some service can.
pub proof fn law_first_come_first_serve<M, S: CanHandle<M>>(
    message: M,
    services: Seq<S>,
    index: int,
    able: int,
)
    requires
        first_to_handle(message, services, index),
        0 <= able < services.len(),
        services[able].answers(message, true),
        forall|i: int|
            0 <= i < services.len() ==> !((#[trigger] services[i]).answers(message, true)
                && services[i].answers(message, false)),
    ensures
        0 <= index <= able,
        services[index].answers(message, true),
{
}

/// A message is handed to one service, and leaves the others as they were.
pub proof fn law_only_the_picked_service_changes<S: LspService, P: LspPicker<S>>(
    pre: LspSteer<S, P>,
    post: LspSteer<S, P>,
    req: AnyRequest,
    fut: S::Future,
    notif: AnyNotification,
    event: AnyEvent,
    flow: ControlFlow<Result<()>>,
)
    requires
        LspSteer::<S, P>::calls(pre, req, post, fut) || LspSteer::<S, P>::notifies(
            pre,
            notif,
            post,
            flow,
        ) || LspSteer::<S, P>::emits(pre, event, post, flow),
    ensures
        post.services@.len() == pre.services@.len(),
        forall|i: int, j: int|
            0 <= i < j < pre.services@.len() ==> #[trigger] post.services@[i] == pre.services@[i]
                || #[trigger] post.services@[j] == pre.services@[j],
{
}

/// The picker that serves the first who can, asked about a request, a notification or an event,
/// picks a service that can handle it and before which none can, where no service may answer both
/// ways and some service can. All services are asked for.
pub proof fn law_first_who_can_is_picked<
    S: CanHandle<AnyNotification> + CanHandle<AnyRequest> + CanHandle<AnyEvent>,
>(
    pre: FirstComeFirstServe,
    req: AnyRequest,
    notif: AnyNotification,
    event: AnyEvent,
    services: Seq<S>,
    post: FirstComeFirstServe,
    index: int,
    able: int,
)
    requires
        0 <= able < services.len(),
    ensures
        FirstComeFirstServe::picks(pre, req, services, post, index) && <S as CanHandle<
            AnyRequest,
        >>::answers(services[able], req, true) && (forall|i: int|
            0 <= i < services.len() ==> !(<S as CanHandle<AnyRequest>>::answers(
                #[trigger] services[i],
                req,
                true,
            ) && <S as CanHandle<AnyRequest>>::answers(services[i], req, false))) ==> {
            &&& 0 <= index <= able
            &&& <S as CanHandle<AnyRequest>>::answers(services[index], req, true)
            &&& forall|i: int|
                0 <= i < index ==> !<S as CanHandle<AnyRequest>>::answers(
                    #[trigger] services[i],
                    req,
                    true,
                )
        },
        FirstComeFirstServe::picks_notification(pre, notif, services, post, index)
            && <S as CanHandle<AnyNotification>>::answers(services[able], notif, true) && (forall|
            i: int,
        |
            0 <= i < services.len() ==> !(<S as CanHandle<AnyNotification>>::answers(
                #[trigger] services[i],
                notif,
                true,
            ) && <S as CanHandle<AnyNotification>>::answers(services[i], notif, false))) ==> {
            &&& 0 <= index <= able
            &&& <S as CanHandle<AnyNotification>>::answers(services[index], notif, true)
            &&& forall|i: int|
                0 <= i < index ==> !<S as CanHandle<AnyNotification>>::answers(
                    #[trigger] services[i],
                    notif,
                    true,
                )
        },
        FirstComeFirstServe::picks_event(pre, event, services, post, index) && <S as CanHandle<
            AnyEvent,
        >>::answers(services[able], event, true) && (forall|i: int|
            0 <= i < services.len() ==> !(<S as CanHandle<AnyEvent>>::answers(
                #[trigger] services[i],
                event,
                true,
            ) && <S as CanHandle<AnyEvent>>::answers(services[i], event, false))) ==> {
            &&& 0 <= index <= able
            &&& <S as CanHandle<AnyEvent>>::answers(services[index], event, true)
            &&& forall|i: int|
                0 <= i < index ==> !<S as CanHandle<AnyEvent>>::answers(
                    #[trigger] services[i],
                    event,
                    true,
                )
        },
{
}

/// Whatever the services answer, the picker that serves the first who can picks one that may answer
/// that it can, or the first of all.
pub proof fn law_who_cannot_is_not_picked<
    S: CanHandle<AnyNotification> + CanHandle<AnyRequest> + CanHandle<AnyEvent>,
>(
    pre: FirstComeFirstServe,
    req: AnyRequest,
    notif: AnyNotification,
    event: AnyEvent,
    services: Seq<S>,
    post: FirstComeFirstServe,
    index: int,
)
    ensures
        FirstComeFirstServe::picks(pre, req, services, post, index) ==> index == 0 || {
            &&& 0 < index < services.len()
            &&& <S as CanHandle<AnyRequest>>::answers(services[index], req, true)
        },
        FirstComeFirstServe::picks_notification(pre, notif, services, post, index) ==> index == 0
            || {
            &&& 0 < index < services.len()
            &&& <S as CanHandle<AnyNotification>>::answers(services[index], notif, true)
        },
        FirstComeFirstServe::picks_event(pre, event, services, post, index) ==> index == 0 || {
            &&& 0 < index < services.len()
            &&& <S as CanHandle<AnyEvent>>::answers(services[index], event, true)
        },
{
}

/// A request, a notification or an event is handed as it is to the service that the picker picks
/// out of all services, and the answer of that service is the answer. The other services stay as
/// they are.
pub proof fn law_picked_service_answers<S: LspService, P: LspPicker<S>>(
    pre: LspSteer<S, P>,
    post: LspSteer<S, P>,
    req: AnyRequest,
    fut: S::Future,
    notif: AnyNotification,
    event: AnyEvent,
    flow: ControlFlow<Result<()>>,
)
    ensures
        LspSteer::<S, P>::calls(pre, req, post, fut) ==> exists|index: int|
            {
                &&& 0 <= index < pre.services@.len() == post.services@.len()
                &&& P::picks(pre.picker, req, pre.services@, post.picker, index)
                &&& #[trigger] S::calls(pre.services@[index], req, post.services@[index], fut)
                &&& forall|i: int|
                    0 <= i < pre.services@.len() && i != index ==> #[trigger] post.services@[i]
                        == pre.services@[i]
            },
        LspSteer::<S, P>::notifies(pre, notif, post, flow) ==> exists|index: int|
            {
                &&& 0 <= index < pre.services@.len() == post.services@.len()
                &&& P::picks_notification(pre.picker, notif, pre.services@, post.picker, index)
                &&& #[trigger] S::notifies(
                    pre.services@[index],
                    notif,
                    post.services@[index],
                    flow,
                )
                &&& forall|i: int|
                    0 <= i < pre.services@.len() && i != index ==> #[trigger] post.services@[i]
                        == pre.services@[i]
            },
        LspSteer::<S, P>::emits(pre, event, post, flow) ==> exists|index: int|
            {
                &&& 0 <= index < pre.services@.len() == post.services@.len()
                &&& P::picks_event(pre.picker, event, pre.services@, post.picker, index)
                &&& #[trigger] S::emits(pre.services@[index], event, post.services@[index], flow)
                &&& forall|i: int|
                    0 <= i < pre.services@.len() && i != index ==> #[trigger] post.services@[i]
                        == pre.services@[i]
            },
{
}

/// Asked whether it is ready, the service may answer that there is nothing to wait for.
pub open spec fn does_not_wait<S: LspService>(pre: S, post: S) -> bool {
    exists|result: core::result::Result<(), S::Error>| #[trigger]
        S::polls(pre, post, Poll::Ready(result))
}

/// Where every service of a group is ready, so is the group, and where one is not, neither is the
/// group; it never fails to be.
pub proof fn law_ready_when_all_are<S: LspService, P: LspPicker<S>>(
    pre: LspSteer<S, P>,
    post: LspSteer<S, P>,
    ready: Poll<core::result::Result<(), S::Error>>,
)
    requires
        LspSteer::<S, P>::polls(pre, post, ready),
    ensures
        ready is Pending || ready == Poll::Ready(Ok::<(), S::Error>(())),
        post.picker == pre.picker,
        post.services@.len() == pre.services@.len(),
        ready is Pending ==> exists|i: int|
            0 <= i < pre.services@.len() && S::polls(
                pre.services@[i],
                #[trigger] post.services@[i],
                Poll::Pending,
            ),
        ready is Ready ==> forall|i: int|
            0 <= i < pre.services@.len() ==> does_not_wait(
                pre.services@[i],
                #[trigger] post.services@[i],
            ),
{
    let answers = choose|answers: Seq<Poll<core::result::Result<(), S::Error>>>|
        {
            &&& #[trigger] LspSteer::<S, P>::asked(pre.services@, post.services@, answers)
            &&& forall|i: int| 0 <= i < answers.len() - 1 ==> !(#[trigger] answers[i] is Pending)
            &&& match ready {
                Poll::Pending => answers.len() > 0 && answers.last() is Pending,
                Poll::Ready(result) => {
                    &&& result is Ok
                    &&& answers.len() == pre.services@.len()
                    &&& answers.len() > 0 ==> !(answers.last() is Pending)
                },
            }
        };
    if ready is Pending {
        let i = answers.len() - 1;
        assert(S::polls(pre.services@[i], post.services@[i], Poll::Pending));
    } else {
        assert(ready->Ready_0->Ok_0 == ());
        assert forall|i: int| 0 <= i < pre.services@.len() implies does_not_wait(
            pre.services@[i],
            #[trigger] post.services@[i],
        ) by {
            assert(S::polls(pre.services@[i], post.services@[i], answers[i]));
            assert(answers[i] == Poll::Ready(answers[i]->Ready_0));
        }
    }
}

/// A group can handle a message exactly where some service of it can.
pub proof fn law_group_can_where_one_can<
    S: CanHandle<AnyNotification> + CanHandle<AnyRequest> + CanHandle<AnyEvent>,
    P: LspPicker<S>,
>(
    group: LspSteer<S, P>,
    req: AnyRequest,
    notif: AnyNotification,
    event: AnyEvent,
    i: int,
)
    ensures
        <LspSteer<S, P> as CanHandle<AnyRequest>>::answers(group, req, true) ==> exists|j: int|
            0 <= j < group.services@.len() && <S as CanHandle<AnyRequest>>::answers(
                #[trigger] group.services@[j],
                req,
                true,
            ),
        <LspSteer<S, P> as CanHandle<AnyRequest>>::answers(group, req, false) && 0 <= i
            < group.services@.len() ==> <S as CanHandle<AnyRequest>>::answers(
            group.services@[i],
            req,
            false,
        ),
        <LspSteer<S, P> as CanHandle<AnyNotification>>::answers(group, notif, true) ==> exists|
            j: int,
        |
            0 <= j < group.services@.len() && <S as CanHandle<AnyNotification>>::answers(
                #[trigger] group.services@[j],
                notif,
                true,
            ),
        <LspSteer<S, P> as CanHandle<AnyNotification>>::answers(group, notif, false) && 0 <= i
            < group.services@.len() ==> <S as CanHandle<AnyNotification>>::answers(
            group.services@[i],
            notif,
            false,
        ),
        <LspSteer<S, P> as CanHandle<AnyEvent>>::answers(group, event, true) ==> exists|j: int|
            0 <= j < group.services@.len() && <S as CanHandle<AnyEvent>>::answers(
                #[trigger] group.services@[j],
                event,
                true,
            ),
        <LspSteer<S, P> as CanHandle<AnyEvent>>::answers(group, event, false) && 0 <= i
            < group.services@.len() ==> <S as CanHandle<AnyEvent>>::answers(
            group.services@[i],
            event,
            false,
        ),
{
}

/// Three functions pick for notifications, events and requests, in this order: each is asked about
/// the message with all services, and what it answers is picked.
pub proof fn law_functions_pick<S, FN, FE, F>(
    pre: (FN, FE, F),
    req: AnyRequest,
    notif: AnyNotification,
    event: AnyEvent,
    services: Seq<S>,
    post: (FN, FE, F),
    index: int,
) where
    F: Fn(&AnyRequest, &[S]) -> usize,
    FN: Fn(&AnyNotification, &[S]) -> usize,
    FE: Fn(&AnyEvent, &[S]) -> usize,

    ensures
        (forall|slice: &[S]| #[trigger] call_requires(pre.0, (&notif, slice)))
            ==> <(FN, FE, F) as LspPicker<S>>::can_pick_notification(pre, notif, services),
        (forall|slice: &[S]| #[trigger] call_requires(pre.1, (&event, slice)))
            ==> <(FN, FE, F) as LspPicker<S>>::can_pick_event(pre, event, services),
        (forall|slice: &[S]| #[trigger] call_requires(pre.2, (&req, slice)))
            ==> <(FN, FE, F) as LspPicker<S>>::can_pick(pre, req, services),
        <(FN, FE, F) as LspPicker<S>>::picks_notification(pre, notif, services, post, index) ==> post
            == pre && exists|slice: &[S], at: usize| #[trigger]
            call_ensures(pre.0, (&notif, slice), at) && slice@ == services && at == index,
        <(FN, FE, F) as LspPicker<S>>::picks_event(pre, event, services, post, index) ==> post == pre
            && exists|slice: &[S], at: usize| #[trigger]
            call_ensures(pre.1, (&event, slice), at) && slice@ == services && at == index,
        <(FN, FE, F) as LspPicker<S>>::picks(pre, req, services, post, index) ==> post == pre
            && exists|slice: &[S], at: usize| #[trigger]
            call_ensures(pre.2, (&req, slice), at) && slice@ == services && at == index,
{
}

/// One function picks for requests, notifications and events alike.
pub proof fn law_one_function_picks<S, F>(
    pre: F,
    req: AnyRequest,
    notif: AnyNotification,
    event: AnyEvent,
    services: Seq<S>,
    post: F,
    index: int,
) where
    F: Fn(&AnyRequest, &[S]) -> usize + Fn(&AnyNotification, &[S]) -> usize + Fn(
        &AnyEvent,
        &[S],
    ) -> usize,

    ensures
        (forall|slice: &[S]| #[trigger] call_requires(pre, (&req, slice)))
            ==> <F as LspPicker<S>>::can_pick(pre, req, services),
        (forall|slice: &[S]| #[trigger] call_requires(pre, (&notif, slice)))
            ==> <F as LspPicker<S>>::can_pick_notification(pre, notif, services),
        (forall|slice: &[S]| #[trigger] call_requires(pre, (&event, slice)))
            ==> <F as LspPicker<S>>::can_pick_event(pre, event, services),
        <F as LspPicker<S>>::picks(pre, req, services, post, index) ==> post == pre && exists|
            slice: &[S],
            at: usize,
        | #[trigger] call_ensures(pre, (&req, slice), at) && slice@ == services && at == index,
        <F as LspPicker<S>>::picks_notification(pre, notif, services, post, index) ==> post == pre
            && exists|slice: &[S], at: usize| #[trigger]
            call_ensures(pre, (&notif, slice), at) && slice@ == services && at == index,
        <F as LspPicker<S>>::picks_event(pre, event, services, post, index) ==> post == pre
            && exists|slice: &[S], at: usize| #[trigger]
            call_ensures(pre, (&event, slice), at) && slice@ == services && at == index,
{
}

/// A group that serves the first who can takes whatever its services take, as long as it has one.
pub proof fn law_group_asks_no_more<
    S: LspService + CanHandle<AnyNotification> + CanHandle<AnyRequest> + CanHandle<AnyEvent>,
>(
    group: LspSteer<S, FirstComeFirstServe>,
    req: AnyRequest,
    notif: AnyNotification,
    event: AnyEvent,
)
    requires
        group.services@.len() > 0,
    ensures
        (forall|i: int| 0 <= i < group.services@.len() ==> (#[trigger] group.services@[i]).can_poll())
            ==> group.can_poll(),
        (forall|i: int|
            0 <= i < group.services@.len() ==> (#[trigger] group.services@[i]).can_call(req))
            ==> group.can_call(req),
        (forall|i: int|
            0 <= i < group.services@.len() ==> (#[trigger] group.services@[i]).can_notify(notif))
            ==> group.can_notify(notif),
        (forall|i: int|
            0 <= i < group.services@.len() ==> (#[trigger] group.services@[i]).can_emit(event))
            ==> group.can_emit(event),
{
}

/// A group has the services that it is given, in their order, and the picker.
pub proof fn law_new_group<S, P: LspPicker<S>>(
    services: Vec<S>,
    picker: P,
    group: LspSteer<S, P>,
)
    requires
        call_ensures(LspSteer::<S, P>::new, (services, picker), group),
    ensures
        group.services@ == services@,
        group.picker == picker,
{
}

} // verus!
