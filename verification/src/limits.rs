//! What the concurrency middleware keeps to over all that happens to it.
use std::ops::ControlFlow;

use futures::stream::AbortHandle;
use vstd::prelude::*;

use crate::concurrency::{Concurrency, ResponseFuture, CANCEL};
use crate::error::{ResponseError, Result};
use crate::event::AnyEvent;
use crate::json::{json_cancel_id, JsonValue};
use crate::message::{AnyNotification, AnyRequest, RequestIdView};
use crate::permit::aborted;
use crate::service::{LspService, Poll};

verus! {

/// One thing that happens to the middleware.
#[verifier::reject_recursive_types(Fut)]
pub enum Step<Fut> {
    /// It is asked whether it is ready, and finds this number of holders of the semaphore.
    Poll { holders: usize, ready: Poll<core::result::Result<(), ResponseError>> },
    /// It is handed a request, and keeps these handles beside that of the request.
    Call {
        req: AnyRequest,
        fut: ResponseFuture<Fut>,
        kept: Map<RequestIdView, AbortHandle>,
    },
    /// It is handed a notification.
    Notify { notif: AnyNotification, flow: ControlFlow<Result<()>> },
    /// It is handed an event.
    Emit { event: AnyEvent, flow: ControlFlow<Result<()>> },
    /// The request that was handed to it in step `call` comes to its end.
    Finish { call: int, woke: bool },
}

/// The requests that are ongoing after the first `k` steps, by the steps in which they were handed
/// to the middleware.
pub open spec fn ongoing<Fut>(steps: Seq<Step<Fut>>, k: int) -> Set<int>
    decreases k,
{
    if k <= 0 {
        Set::empty()
    } else {
        match steps[k - 1] {
            Step::Call { .. } => ongoing(steps, k - 1).insert(k - 1),
            Step::Finish { call, .. } => ongoing(steps, k - 1).remove(call),
            _ => ongoing(steps, k - 1),
        }
    }
}

/// Step `k` leads from one state of the middleware to the next.
pub open spec fn follows<S: LspService<Response = JsonValue, Error = ResponseError>>(
    states: Seq<Concurrency<S>>,
    steps: Seq<Step<S::Future>>,
    k: int,
) -> bool {
    let pre = states[k];
    let post = states[k + 1];
    match steps[k] {
        Step::Poll { holders, ready } => Concurrency::<S>::polls_seeing(pre, post, ready, holders),
        Step::Call { req, fut, kept } => Concurrency::<S>::calls_keeping(pre, req, post, fut, kept),
        Step::Notify { notif, flow } => Concurrency::<S>::notifies(pre, notif, post, flow),
        Step::Emit { event, flow } => Concurrency::<S>::emits(pre, event, post, flow),
        Step::Finish { call, woke } => {
            &&& post == pre
            &&& ongoing(steps, k).contains(call)
            &&& steps[call] matches Step::Call { fut, .. } && fut.on_finish.finishes(woke)
        },
    }
}

/// The steps happened to a new middleware, one after another.
pub open spec fn happened<S: LspService<Response = JsonValue, Error = ResponseError>>(
    states: Seq<Concurrency<S>>,
    steps: Seq<Step<S::Future>>,
) -> bool {
    &&& states.len() == steps.len() + 1
    &&& states[0].ongoing@ == Map::<RequestIdView, AbortHandle>::empty()
    &&& forall|k: int| #![trigger steps[k]] 0 <= k < steps.len() ==> follows(states, steps, k)
}

/// Each time the holders of the semaphore were counted, they were the ongoing requests and the
/// semaphore itself.
pub open spec fn counted<Fut>(steps: Seq<Step<Fut>>) -> bool {
    forall|k: int|
        #![trigger steps[k]]
        0 <= k < steps.len() ==> (steps[k] matches Step::Poll { holders, .. } ==> holders
            == ongoing(steps, k).len() + 1)
}

/// Asked in step `j`, the middleware was ready, and it was handed no request since then until step
/// `k`.
pub open spec fn cleared_by<Fut>(steps: Seq<Step<Fut>>, j: int, k: int) -> bool {
    &&& 0 <= j < k
    &&& steps[j] matches Step::Poll { ready, .. } && ready is Ready
    &&& forall|i: int| j < i < k ==> !(#[trigger] steps[i] is Call)
}

/// Each time the middleware was handed a request, it had been asked before, and was ready.
pub open spec fn asked_first<Fut>(steps: Seq<Step<Fut>>) -> bool {
    forall|k: int|
        0 <= k < steps.len() && (#[trigger] steps[k] is Call) ==> exists|j: int| #[trigger]
            cleared_by(steps, j, k)
}

/// Each time handles were purged, those of requests that had come to their end were found aborted:
/// they were marked so before.
pub open spec fn marks_seen<S: LspService<Response = JsonValue, Error = ResponseError>>(
    states: Seq<Concurrency<S>>,
    steps: Seq<Step<S::Future>>,
) -> bool {
    forall|f: int, k: int, id: RequestIdView|
        #![trigger steps[f], kept_in(steps, k).contains_key(id)]
        {
            &&& 0 <= f < k < steps.len()
            &&& steps[f] is Finish
            &&& steps[k] is Call
            &&& states[k].ongoing@.dom().len() >= 2 * states[k].max_concurrency
            &&& kept_in(steps, k).contains_key(id)
        } ==> kept_in(steps, k)[id] != handle_in(steps, steps[f]->call)
}

/// The handles that were kept in step `k`, where a request was handed over.
pub open spec fn kept_in<Fut>(steps: Seq<Step<Fut>>, k: int) -> Map<RequestIdView, AbortHandle> {
    steps[k]->kept
}

/// The identifier of the request that was handed over in step `k`.
pub open spec fn id_in<Fut>(steps: Seq<Step<Fut>>, k: int) -> RequestIdView {
    steps[k]->req.id@
}

/// The handle of the request that was handed over in step `k`.
pub open spec fn handle_in<Fut>(steps: Seq<Step<Fut>>, k: int) -> AbortHandle {
    steps[k]->fut.on_finish.handle
}

/// The ongoing requests are finitely many, and were handed over before.
proof fn lemma_ongoing<Fut>(steps: Seq<Step<Fut>>, k: int)
    requires
        0 <= k <= steps.len(),
    ensures
        ongoing(steps, k).finite(),
        forall|i: int| #[trigger] ongoing(steps, k).contains(i) ==> 0 <= i < k,
    decreases k,
{
    if k > 0 {
        lemma_ongoing(steps, k - 1);
    }
}

/// A request that was handed over and is not ongoing came to its end.
proof fn lemma_finished<Fut>(steps: Seq<Step<Fut>>, i: int, k: int) -> (f: int)
    requires
        0 <= i < k <= steps.len(),
        steps[i] is Call,
        !ongoing(steps, k).contains(i),
    ensures
        i < f < k,
        steps[f] is Finish,
        steps[f]->call == i,
    decreases k,
{
    if steps[k - 1] is Finish && steps[k - 1]->Finish_call == i {
        k - 1
    } else {
        lemma_finished(steps, i, k - 1)
    }
}

/// Each handle belongs to a request that was handed over, and is kept under its identifier.
proof fn lemma_handle_of_a_request<S: LspService<Response = JsonValue, Error = ResponseError>>(
    states: Seq<Concurrency<S>>,
    steps: Seq<Step<S::Future>>,
    k: int,
    id: RequestIdView,
) -> (i: int)
    requires
        happened(states, steps),
        0 <= k < states.len(),
        states[k].ongoing@.contains_key(id),
    ensures
        0 <= i < k,
        steps[i] is Call,
        id_in(steps, i) == id,
        handle_in(steps, i) == states[k].ongoing@[id],
    decreases k,
{
    let step = steps[k - 1];
    assert(k > 0 ==> follows(states, steps, k - 1));
    if step is Call && id_in(steps, k - 1) == id {
        k - 1
    } else {
        lemma_handle_of_a_request(states, steps, k - 1, id)
    }
}

/// Without a request handed over, the ongoing requests do not grow.
proof fn lemma_no_more_ongoing<Fut>(steps: Seq<Step<Fut>>, j: int, k: int)
    requires
        0 <= j <= k <= steps.len(),
        forall|i: int| j <= i < k ==> !(#[trigger] steps[i] is Call),
    ensures
        ongoing(steps, k).len() <= ongoing(steps, j).len(),
    decreases k - j,
{
    if j < k {
        lemma_no_more_ongoing(steps, j, k - 1);
        lemma_ongoing(steps, k - 1);
        assert(!(steps[k - 1] is Call));
    }
}

/// The limit never changes.
proof fn lemma_limit_stays<S: LspService<Response = JsonValue, Error = ResponseError>>(
    states: Seq<Concurrency<S>>,
    steps: Seq<Step<S::Future>>,
    k: int,
)
    requires
        happened(states, steps),
        0 <= k < states.len(),
    ensures
        states[k].max_concurrency == states[0].max_concurrency,
    decreases k,
{
    if k > 0 {
        lemma_limit_stays(states, steps, k - 1);
        let step = steps[k - 1];
        assert(follows(states, steps, k - 1));
    }
}

/// Where a request is handed over, fewer than `max_concurrency` others are ongoing.
proof fn lemma_room_for_a_request<S: LspService<Response = JsonValue, Error = ResponseError>>(
    states: Seq<Concurrency<S>>,
    steps: Seq<Step<S::Future>>,
    k: int,
)
    requires
        happened(states, steps),
        counted(steps),
        asked_first(steps),
        0 <= k < steps.len(),
        steps[k] is Call,
    ensures
        ongoing(steps, k).len() < states[0].max_concurrency,
{
    let j = choose|j: int| #[trigger] cleared_by(steps, j, k);
    assert(cleared_by(steps, j, k));
    let step = steps[j];
    assert(follows(states, steps, j));
    lemma_limit_stays(states, steps, j);
    assert(forall|i: int| j <= i < k ==> !(#[trigger] steps[i] is Call));
    lemma_no_more_ongoing(steps, j, k);
}

/// Asked whether it is ready, the middleware says so exactly where fewer than `max_concurrency`
/// requests are ongoing, and otherwise not yet; it never fails, and the inner service is not asked.
pub proof fn law_ready_below_the_limit<
    S: LspService<Response = JsonValue, Error = ResponseError>,
>(states: Seq<Concurrency<S>>, steps: Seq<Step<S::Future>>, k: int)
    requires
        happened(states, steps),
        counted(steps),
        0 <= k < steps.len(),
        steps[k] is Poll,
    ensures
        steps[k]->ready == if ongoing(steps, k).len() < states[0].max_concurrency {
            Poll::Ready(Ok::<(), ResponseError>(()))
        } else {
            Poll::Pending
        },
        states[k + 1] == states[k],
{
    lemma_limit_stays(states, steps, k);
    assert(follows(states, steps, k));
}

/// Where the middleware is handed requests only when it is ready, there are never more than
/// `max_concurrency` of them ongoing at once.
pub proof fn law_limit<S: LspService<Response = JsonValue, Error = ResponseError>>(
    states: Seq<Concurrency<S>>,
    steps: Seq<Step<S::Future>>,
    k: int,
)
    requires
        happened(states, steps),
        counted(steps),
        asked_first(steps),
        0 <= k <= steps.len(),
    ensures
        ongoing(steps, k).finite(),
        ongoing(steps, k).len() <= states[0].max_concurrency,
    decreases k,
{
    if k > 0 {
        law_limit(states, steps, k - 1);
        lemma_ongoing(steps, k - 1);
        if steps[k - 1] is Call {
            lemma_room_for_a_request(states, steps, k - 1);
        }
    }
}

/// However many requests the middleware was handed, it keeps at most `2 * max_concurrency` handles.
pub proof fn law_handles_are_bounded<S: LspService<Response = JsonValue, Error = ResponseError>>(
    states: Seq<Concurrency<S>>,
    steps: Seq<Step<S::Future>>,
    k: int,
)
    requires
        happened(states, steps),
        counted(steps),
        asked_first(steps),
        marks_seen(states, steps),
        0 <= k < states.len(),
    ensures
        states[k].ongoing@.dom().finite(),
        states[k].ongoing@.dom().len() <= 2 * states[k].max_concurrency,
    decreases k,
{
    if k > 0 {
        law_handles_are_bounded(states, steps, k - 1);
        let pre = states[k - 1];
        let post = states[k];
        let step = steps[k - 1];
        assert(follows(states, steps, k - 1));
        lemma_limit_stays(states, steps, k - 1);
        match step {
            Step::Call { req, fut, kept } => {
                assert(post.ongoing@.dom() =~= kept.dom().insert(req.id@));
                lemma_room_for_a_request(states, steps, k - 1);
                lemma_ongoing(steps, k - 1);
                if pre.ongoing@.dom().len() >= 2 * pre.max_concurrency {
                    let id_of = |i: int| id_in(steps, i);
                    let owners = ongoing(steps, k - 1);
                    let ids = owners.map(id_of);
                    assert forall|id: RequestIdView| #[trigger]
                        kept.dom().contains(id) implies ids.contains(id) by {
                        assert(kept_in(steps, k - 1).contains_key(id));
                        let i = lemma_handle_of_a_request(states, steps, k - 1, id);
                        assert(kept[id] == pre.ongoing@[id]);
                        if !owners.contains(i) {
                            let f = lemma_finished(steps, i, k - 1);
                            assert(kept_in(steps, k - 1)[id] != handle_in(steps, steps[f]->call));
                        }
                        assert(owners.contains(i));
                        assert(id_of(i) == id);
                    }
                    vstd::set_lib::lemma_map_size_bound(owners, ids, id_of);
                    vstd::set_lib::lemma_len_subset(kept.dom(), ids);
                }
            },
            Step::Notify { notif, flow } => {
                if let Some(id) = json_cancel_id(notif.params) {
                    assert(pre.ongoing@.remove(id).dom() =~= pre.ongoing@.dom().remove(id));
                }
            },
            _ => {},
        }
    }
}

/// The notification cancels the request with this identifier.
pub open spec fn cancels(notif: AnyNotification, id: RequestIdView) -> bool {
    notif.method@ == CANCEL@ && json_cancel_id(notif.params) == Some(id)
}

/// The handle of a request that was handed over is kept until the request is aborted, or another
/// one with its identifier is handed over.
proof fn lemma_handle_is_kept<S: LspService<Response = JsonValue, Error = ResponseError>>(
    states: Seq<Concurrency<S>>,
    steps: Seq<Step<S::Future>>,
    i: int,
    k: int,
)
    requires
        happened(states, steps),
        0 <= i < k < states.len(),
        steps[i] is Call,
        forall|j: int|
            i < j < k && #[trigger] steps[j] is Call ==> id_in(steps, j) != id_in(steps, i),
    ensures
        aborted(handle_in(steps, i)) || {
            &&& states[k].ongoing@.contains_key(id_in(steps, i))
            &&& states[k].ongoing@[id_in(steps, i)] == handle_in(steps, i)
        },
    decreases k - i,
{
    assert(follows(states, steps, k - 1)) by {
        let step = steps[k - 1];
    }
    if i < k - 1 {
        lemma_handle_is_kept(states, steps, i, k - 1);
    }
}

/// A request that is cancelled after it was handed over is aborted, whatever happened in between
/// but another request under the same identifier. Its handle is dropped, the handles of other
/// requests and the inner service stay as they are, and the main loop goes on.
pub proof fn law_cancel_aborts_the_request<
    S: LspService<Response = JsonValue, Error = ResponseError>,
>(states: Seq<Concurrency<S>>, steps: Seq<Step<S::Future>>, i: int, k: int)
    requires
        happened(states, steps),
        0 <= i < k < steps.len(),
        steps[i] is Call,
        steps[k] matches Step::Notify { notif, .. } && cancels(notif, id_in(steps, i)),
        forall|j: int|
            i < j < k && #[trigger] steps[j] is Call ==> id_in(steps, j) != id_in(steps, i),
    ensures
        aborted(handle_in(steps, i)),
        states[k + 1].ongoing@ == states[k].ongoing@.remove(id_in(steps, i)),
        states[k + 1].service == states[k].service,
        steps[k] matches Step::Notify { flow, .. } && flow == ControlFlow::<Result<()>>::Continue(
            (),
        ),
{
    lemma_handle_is_kept(states, steps, i, k);
    assert(follows(states, steps, k));
}

} // verus!
