//! The tokens of ongoing requests, and the handles through which they are aborted.
//!
//! What acts on other tasks stands here. The order of these acts matters, so some of them give a
//! proof that they are done, which others ask for. Such proofs cannot be made elsewhere.
use std::sync::Arc;
use std::task::{Context, Waker};

use futures::stream::{AbortHandle, AbortRegistration, Abortable};
use futures::task::AtomicWaker;
use vstd::prelude::*;

verus! {

/// [`futures::stream::AbortHandle`], carried as an opaque value.
#[verifier::external_type_specification]
#[verifier::external_body]
pub struct ExAbortHandle(futures::stream::AbortHandle);

/// [`futures::stream::AbortRegistration`], carried as an opaque value.
#[verifier::external_type_specification]
#[verifier::external_body]
pub struct ExAbortRegistration(futures::stream::AbortRegistration);

/// [`futures::stream::Abortable`], carried as an opaque value.
#[verifier::external_type_specification]
#[verifier::external_body]
#[verifier::reject_recursive_types(T)]
pub struct ExAbortable<T>(futures::stream::Abortable<T>);

/// [`futures::stream::Aborted`], carried as an opaque value.
#[verifier::external_type_specification]
#[verifier::external_body]
pub struct ExAborted(futures::stream::Aborted);

/// [`futures::task::AtomicWaker`], carried as an opaque value.
#[verifier::external_type_specification]
#[verifier::external_body]
pub struct ExAtomicWaker(futures::task::AtomicWaker);

/// [`std::task::Waker`], carried as an opaque value.
#[verifier::external_type_specification]
#[verifier::external_body]
pub struct ExWaker(std::task::Waker);

/// Proof that a task was registered at a semaphore.
pub struct Registered {
    done: (),
}

/// Proof that a task was told to abort.
pub struct Over {
    done: (),
}

/// Proof that a token was returned.
pub struct Back {
    done: (),
}

/// [`AbortHandle::new_pair`]. Each call gives a new pair, of which [`paired`] tells.
pub assume_specification[ AbortHandle::new_pair ]() -> (pair: (AbortHandle, AbortRegistration));

/// [`AbortHandle::is_aborted`]. The answer depends on when it is asked for, but it is yes only
/// where the task behind the handle was told to abort.
pub assume_specification[ AbortHandle::is_aborted ](handle: &AbortHandle) -> (yes: bool)
    ensures
        yes ==> aborted(*handle),
;

/// The [`Clone`] of [`AbortHandle`], which gives another handle to the same task.
pub assume_specification[ <AbortHandle as Clone>::clone ](handle: &AbortHandle) -> (copy:
    AbortHandle)
    ensures
        copy == *handle,
;

/// [`Abortable::new`], of whose results [`wraps`] tells.
pub assume_specification<T>[ Abortable::<T>::new ](task: T, reg: AbortRegistration) -> (abortable:
    Abortable<T>);

/// [`AtomicWaker::new`].
pub assume_specification[ AtomicWaker::new ]() -> (waker: AtomicWaker);

/// [`AtomicWaker::take`], which never panics. The waker it gives depends on what was registered
/// before, and which one that is, is not stated; [`took`] tells that it was called.
#[verifier::external_body]
pub(crate) fn take_waker(semaphore: &AtomicWaker) -> (taken: Option<Waker>)
    opens_invariants none
    no_unwind
{
    semaphore.take()
}

/// [`AbortHandle::abort`]. It acts on the task behind the handle; [`marked`] tells that it was
/// called.
#[verifier::external_body]
pub(crate) fn abort(handle: &AbortHandle) -> (over: Over) {
    handle.abort();
    Over { done: () }
}

/// [`AtomicWaker::register`] with the waker of a task; [`registered`] tells that it was called.
#[verifier::external_body]
pub(crate) fn register(waker: &AtomicWaker, cx: &Context<'_>) -> (registered: Registered) {
    waker.register(cx.waker());
    Registered { done: () }
}

/// [`Arc::strong_count`], maybe after a task was registered. The number depends on when it is asked
/// for, of which [`held`] tells; how many tokens are out at that time is not stated.
#[verifier::external_body]
pub(crate) fn count_holders(
    semaphore: &Arc<AtomicWaker>,
    after: Option<Registered>,
) -> (holders: usize) {
    Arc::strong_count(semaphore)
}

/// [`drop`] of a token, after the task that held it was told to abort; [`returned`] tells that it
/// was called. That there is one holder less from then on is not stated.
#[verifier::external_body]
pub(crate) fn give_back(token: Arc<AtomicWaker>, over: Over) -> (back: Back) {
    drop(token);
    Back { done: () }
}

/// [`Waker::wake`], after a token was returned. It wakes the task behind the waker; [`woken`] tells
/// that it was called.
#[verifier::external_body]
pub(crate) fn wake(waker: Waker, back: Back) {
    waker.wake();
}

/// Aborting through `handle` ends the task that is wrapped with `reg`.
pub open spec fn paired(handle: AbortHandle, reg: AbortRegistration) -> bool {
    call_ensures(AbortHandle::new_pair, (), (handle, reg))
}

/// `abortable` is `task`, wrapped with `reg`.
pub open spec fn wraps<T>(abortable: Abortable<T>, task: T, reg: AbortRegistration) -> bool {
    call_ensures(Abortable::<T>::new, (task, reg), abortable)
}

/// The task behind `handle` was told to abort, as `over` proves.
pub closed spec fn marked(handle: AbortHandle, over: Over) -> bool {
    call_ensures(abort, (&handle,), over)
}

/// The task behind `handle` was told to abort.
pub open spec fn aborted(handle: AbortHandle) -> bool {
    exists|over: Over| #[trigger] marked(handle, over)
}

/// The task behind the handle was, or was not, found aborted.
pub open spec fn found_aborted(handle: AbortHandle, yes: bool) -> bool {
    call_ensures(AbortHandle::is_aborted, (&handle,), yes)
}

/// The task at hand was registered to be woken when a token comes back, as `registered` proves.
pub closed spec fn registered(
    semaphore: Arc<AtomicWaker>,
    cx: Context<'_>,
    registered: Registered,
) -> bool {
    call_ensures(register, (&*semaphore, &cx), registered)
}

/// The semaphore was found with this number of holders, at first or after a task was registered.
pub closed spec fn held(
    semaphore: Arc<AtomicWaker>,
    after: Option<Registered>,
    holders: usize,
) -> bool {
    call_ensures(count_holders, (&semaphore, after), holders)
}

/// `waker` was taken out of the semaphore.
pub closed spec fn took(semaphore: Arc<AtomicWaker>, waker: Option<Waker>) -> bool {
    call_ensures(take_waker, (&*semaphore,), waker)
}

/// The token was returned after the task that held it was told to abort, as `back` proves.
pub closed spec fn returned(token: Arc<AtomicWaker>, over: Over, back: Back) -> bool {
    call_ensures(give_back, (token, over), back)
}

/// The task behind the waker was woken after a token was returned.
pub closed spec fn woken(waker: Waker, back: Back) -> bool {
    call_ensures(wake, (waker, back), ())
}

/// A specialized semaphore which one task acquires and many release.
///
/// Each ongoing request holds it as a token. When the semaphore itself is dropped, the task that
/// waits at it is forgotten: then tokens come back without waking anyone.
pub struct Semaphore {
    /// What the tokens share, with the task that waits for one of them.
    pub waker: Arc<AtomicWaker>,
}

impl Semaphore {
    /// Creates a semaphore without tokens.
    pub(crate) fn new() -> (semaphore: Self) {
        Semaphore { waker: Arc::new(AtomicWaker::new()) }
    }

    /// Hands out a token.
    pub fn token(&self) -> (token: Arc<AtomicWaker>)
        ensures
            token == self.waker,
    {
        self.waker.clone()
    }

    /// Counts the holders: the tokens and the semaphore itself.
    pub fn holders(&self) -> (holders: usize)
        ensures
            held(self.waker, None, holders),
    {
        let count = count_holders;
        count(&self.waker, None)
    }

    /// Registers the task at hand, and then counts the holders: a token may have come back before
    /// the task was registered.
    pub fn holders_once_registered(&self, cx: &Context<'_>) -> (holders: usize)
        ensures
            exists|mark: Registered|
                {
                    &&& #[trigger] registered(self.waker, *cx, mark)
                    &&& held(self.waker, Some(mark), holders)
                },
    {
        let register_task = register;
        let count = count_holders;
        let mark = register_task(&self.waker, cx);
        assert(registered(self.waker, *cx, mark));
        count(&self.waker, Some(mark))
    }
}

impl Drop for Semaphore {
    fn drop(&mut self)
        opens_invariants none
        no_unwind
    {
        let _ = take_waker(&self.waker);
    }
}

/// Whether the task behind a handle has not been aborted yet.
pub fn is_live(handle: &AbortHandle) -> (live: bool)
    ensures
        found_aborted(*handle, !live),
{
    let is_aborted = AbortHandle::is_aborted;
    !is_aborted(handle)
}

/// Aborts the task behind a handle.
pub fn abort_task(handle: &AbortHandle)
    ensures
        aborted(*handle),
{
    let abort_by = abort;
    let over = abort_by(handle);
    assert(marked(*handle, over));
}

/// What is due when an ongoing request comes to its end, whether it is completed or dropped.
pub struct OnFinish {
    /// The handle of the request.
    pub handle: AbortHandle,
    /// The token that the request holds of the semaphore.
    pub token: Arc<AtomicWaker>,
}

impl OnFinish {
    /// The request was marked as over, then its token was returned, and then the task that waited
    /// for it was woken, where there was one.
    pub open spec fn finishes(self, woke: bool) -> bool {
        exists|over: Over, back: Back, waker: Option<Waker>|
            {
                &&& marked(self.handle, over)
                &&& #[trigger] took(self.token, waker)
                &&& #[trigger] returned(self.token, over, back)
                &&& woke == (waker is Some)
                &&& waker matches Some(waker) ==> woken(waker, back)
            }
    }

    /// Marks the request as over, returns its token, and wakes the task that waits for it, if there
    /// is one.
    ///
    /// The mark comes first, so that the request can be purged as soon as there is place for
    /// another one. The token is back before the task is woken, so that the task finds that place.
    pub fn run(self) -> (woke: bool)
        ensures
            self.finishes(woke),
    {
        let abort_by = abort;
        let take = take_waker;
        let give_token_back = give_back;
        let over = abort_by(&self.handle);
        assert(marked(self.handle, over));
        let waker = take(&self.token);
        assert(took(self.token, waker));
        let back = give_token_back(self.token, over);
        assert(returned(self.token, over, back));
        match waker {
            Some(waker) => {
                let wake_task = wake;
                wake_task(waker, back);
                true
            },
            None => false,
        }
    }
}

/// A request comes to its end in this order: it is marked as over, its token is returned, and the
/// task that was taken out of the semaphore is woken, where there was one.
pub proof fn law_end_of_a_request(on_finish: OnFinish, woke: bool)
    requires
        call_ensures(OnFinish::run, (on_finish,), woke),
    ensures
        aborted(on_finish.handle),
        exists|over: Over, back: Back, waker: Option<Waker>|
            {
                &&& marked(on_finish.handle, over)
                &&& #[trigger] took(on_finish.token, waker)
                &&& #[trigger] returned(on_finish.token, over, back)
                &&& woke <==> waker is Some
                &&& waker matches Some(waker) ==> woken(waker, back)
            },
{
}

/// A handle that is not live any more was told to abort, and a task that is aborted was.
pub proof fn law_live_handles(handle: AbortHandle, live: bool)
    ensures
        call_ensures(is_live, (&handle,), live) && !live ==> aborted(handle),
        call_ensures(is_live, (&handle,), live) ==> found_aborted(handle, !live),
        call_ensures(abort_task, (&handle,), ()) ==> aborted(handle),
{
}

/// Tokens share what the semaphore holds. The holders are counted at first without anyone
/// registered, and then once more after the task at hand was registered.
pub proof fn law_holders_are_counted(
    semaphore: Semaphore,
    token: Arc<AtomicWaker>,
    cx: Context<'_>,
    holders: usize,
)
    ensures
        call_ensures(Semaphore::token, (&semaphore,), token) ==> token == semaphore.waker,
        call_ensures(Semaphore::holders, (&semaphore,), holders) ==> held(
            semaphore.waker,
            None,
            holders,
        ),
        call_ensures(Semaphore::holders_once_registered, (&semaphore, &cx), holders) ==> exists|
            mark: Registered,
        | #[trigger]
            registered(semaphore.waker, cx, mark) && held(semaphore.waker, Some(mark), holders),
{
}

} // verus!
